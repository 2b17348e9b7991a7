use newsletter::dispatch::{settle, DispatchAction, EmailDispatcher, EmailServiceError, EmailTemplate};
use newsletter::handler::{plan_mailing, respond, HandlerError};
use newsletter::record::{filter_recipients, AttrValue, SubscriberRecord};
use newsletter::registrar::{new_subscriber, subscriber_record};
use newsletter::scan::{BackendError, PageToken, ScanAction, ScanPage, TableScanner};

fn record(email: Option<&str>, subscribed: Option<bool>) -> SubscriberRecord {
    let mut r = SubscriberRecord::empty();
    if let Some(e) = email {
        r.insert("email".to_string(), AttrValue::S(e.to_string()));
    }
    if let Some(s) = subscribed {
        r.insert("subscribed".to_string(), AttrValue::Bool(s));
    }
    r
}

fn numbered(i: usize) -> SubscriberRecord {
    record(Some(&format!("user{}@x.com", i)), Some(true))
}

fn email_of(r: &SubscriberRecord) -> String {
    match r.get(&"email".to_string()) {
        Some(AttrValue::S(s)) => s.clone(),
        _ => panic!("record without an address"),
    }
}

/// A fake table that serves `table` in pages of `page_size`, failing the
/// request numbered `fail_at` (counting from 0) if given. Returns the scan's
/// result and the number of requests made.
fn drain(
    table: &[SubscriberRecord],
    page_size: usize,
    fail_at: Option<usize>,
) -> (Result<Vec<SubscriberRecord>, BackendError>, usize) {
    let (mut scanner, mut action) = TableScanner::start("Emails".to_string());
    let mut calls = 0usize;
    loop {
        match action {
            ScanAction::Request(req) => {
                assert_eq!(req.table_name, "Emails");
                let start = match &req.start_key {
                    None => 0,
                    Some(t) => match t.key.get(&"offset".to_string()) {
                        Some(AttrValue::S(s)) => s.parse::<usize>().unwrap(),
                        _ => panic!("bad token"),
                    },
                };
                let outcome = if fail_at == Some(calls) {
                    Err(BackendError { message: "throttled".to_string() })
                } else {
                    let end = usize::min(start + page_size, table.len());
                    let next_token = if end < table.len() {
                        let mut key = SubscriberRecord::empty();
                        key.insert("offset".to_string(), AttrValue::S(end.to_string()));
                        Some(PageToken { key })
                    } else {
                        None
                    };
                    Ok(ScanPage { items: table[start..end].to_vec(), next_token })
                };
                calls += 1;
                action = scanner.step(outcome);
            }
            ScanAction::Complete => break,
            ScanAction::Abort(e) => {
                assert!(scanner.finish().is_none());
                return (Err(e), calls);
            }
        }
    }
    (Ok(scanner.finish().expect("completed scan yields records")), calls)
}

fn template() -> EmailTemplate {
    EmailTemplate {
        sender: "dev@x.com".to_string(),
        subject: "Hello World".to_string(),
        body_text: "Hello World!".to_string(),
        body_html: "<html><body><h1>Hello World!</h1></body></html>".to_string(),
    }
}

#[test]
fn fetch_all_returns_every_record_for_every_page_size() {
    for n in 0..12usize {
        let table: Vec<SubscriberRecord> = (0..n).map(numbered).collect();
        for page_size in 1..=n + 2 {
            let (result, calls) = drain(&table, page_size, None);
            let got = result.expect("no failure injected");
            assert_eq!(got.len(), n);
            let emails: Vec<String> = got.iter().map(email_of).collect();
            let expected: Vec<String> = table.iter().map(email_of).collect();
            assert_eq!(emails, expected);
            let pages = if n == 0 { 1 } else { (n + page_size - 1) / page_size };
            assert_eq!(calls, pages);
        }
    }
}

#[test]
fn fetch_all_on_empty_table_makes_one_call() {
    let (result, calls) = drain(&[], 10, None);
    assert!(result.unwrap().is_empty());
    assert_eq!(calls, 1);
}

#[test]
fn failure_on_second_of_three_pages_is_an_error() {
    let table: Vec<SubscriberRecord> = (0..9).map(numbered).collect();
    let (result, calls) = drain(&table, 3, Some(1));
    match result {
        Err(e) => assert_eq!(e.message, "throttled"),
        Ok(_) => panic!("a failed page must not pass for success"),
    }
    assert_eq!(calls, 2);
}

#[test]
fn failure_on_first_page_is_an_error() {
    let (result, calls) = drain(&[numbered(0)], 3, Some(0));
    assert!(result.is_err());
    assert_eq!(calls, 1);
}

#[test]
fn filter_keeps_only_subscribed_records_with_addresses() {
    let records = vec![
        record(Some("a@x.com"), Some(true)),
        record(Some("b@x.com"), Some(false)),
        record(None, Some(true)),
    ];
    assert_eq!(filter_recipients(&records), vec!["a@x.com".to_string()]);
}

#[test]
fn filter_drops_records_with_wrong_kinds() {
    let mut not_a_string = SubscriberRecord::empty();
    not_a_string.insert("email".to_string(), AttrValue::Other);
    not_a_string.insert("subscribed".to_string(), AttrValue::Bool(true));
    let mut flag_as_string = SubscriberRecord::empty();
    flag_as_string.insert("email".to_string(), AttrValue::S("c@x.com".to_string()));
    flag_as_string.insert("subscribed".to_string(), AttrValue::S("true".to_string()));
    let records = vec![
        not_a_string,
        flag_as_string,
        record(Some("d@x.com"), None),
        record(Some("e@x.com"), Some(true)),
        record(Some("f@x.com"), Some(true)),
    ];
    assert_eq!(filter_recipients(&records), vec!["e@x.com".to_string(), "f@x.com".to_string()]);
    assert!(filter_recipients(&Vec::new()).is_empty());
}

#[test]
fn attribute_lookup_takes_first_occurrence() {
    let mut r = SubscriberRecord::empty();
    r.insert("subscribed".to_string(), AttrValue::Bool(true));
    r.insert("email".to_string(), AttrValue::S("first@x.com".to_string()));
    r.insert("email".to_string(), AttrValue::S("second@x.com".to_string()));
    assert_eq!(r.recipient(), Some("first@x.com".to_string()));
    assert!(r.get(&"Email".to_string()).is_none());
    assert_eq!(AttrValue::Bool(false).as_bool_value(), Some(false));
    assert!(AttrValue::Other.as_str_value().is_none());
}

#[test]
fn send_to_nobody_makes_no_call() {
    let d = EmailDispatcher::new(template());
    match d.send(Vec::new()) {
        DispatchAction::Done(report) => {
            assert_eq!(report.recipients, 0);
            assert!(report.message_id.is_none());
        }
        DispatchAction::Submit(_) => panic!("no message for an empty list"),
    }
}

#[test]
fn send_to_two_makes_one_message_with_both_as_bcc() {
    let d = EmailDispatcher::new(template());
    let mut calls = 0usize;
    match d.send(vec!["a@x.com".to_string(), "b@x.com".to_string()]) {
        DispatchAction::Submit(m) => {
            calls += 1;
            assert_eq!(m.bcc, vec!["a@x.com".to_string(), "b@x.com".to_string()]);
            assert_eq!(m.sender, "dev@x.com");
            assert_eq!(m.subject, "Hello World");
            assert_eq!(m.body_text, "Hello World!");
            assert_eq!(m.body_html, "<html><body><h1>Hello World!</h1></body></html>");
            let report = settle(&m, Ok("msg-1".to_string())).unwrap();
            assert_eq!(report.recipients, 2);
            assert_eq!(report.message_id, Some("msg-1".to_string()));
            let err = settle(&m, Err(EmailServiceError { message: "quota".to_string() }));
            assert_eq!(err.unwrap_err().message, "quota");
        }
        DispatchAction::Done(_) => panic!("two recipients need a message"),
    }
    assert_eq!(calls, 1);
}

#[test]
fn mailing_plan_addresses_active_subscribers() {
    let d = EmailDispatcher::new(template());
    let records = vec![
        record(Some("a@x.com"), Some(true)),
        record(Some("b@x.com"), Some(false)),
        record(Some("c@x.com"), Some(true)),
    ];
    match plan_mailing(&d, &records) {
        DispatchAction::Submit(m) => {
            assert_eq!(m.bcc, vec!["a@x.com".to_string(), "c@x.com".to_string()])
        }
        DispatchAction::Done(_) => panic!("expected a message"),
    }
    let inactive = vec![record(Some("b@x.com"), Some(false))];
    assert!(matches!(plan_mailing(&d, &inactive), DispatchAction::Done(_)));
}

#[test]
fn registered_address_is_scanned_and_mailed() {
    let first = new_subscriber("c@x.com".to_string());
    let second = new_subscriber("c@x.com".to_string());
    let id_of = |r: &SubscriberRecord| match r.get(&"id".to_string()) {
        Some(AttrValue::S(s)) => s.clone(),
        _ => panic!("record without an identifier"),
    };
    let id1 = id_of(&first);
    let id2 = id_of(&second);
    assert_eq!(id1.len(), 36);
    assert!(!id1.is_empty());
    assert_ne!(id1, id2);
    assert_eq!(email_of(&first), "c@x.com");
    let table = vec![numbered(0), first, numbered(1)];
    let (result, _) = drain(&table, 2, None);
    let got = result.unwrap();
    assert!(got.iter().any(|r| email_of(r) == "c@x.com" && id_of(r) == id1));
    assert!(filter_recipients(&got).contains(&"c@x.com".to_string()));
}

#[test]
fn subscriber_record_has_the_three_fields() {
    let r = subscriber_record("id-1".to_string(), "z@x.com".to_string());
    assert_eq!(r.attributes.len(), 3);
    assert!(matches!(r.get(&"id".to_string()), Some(AttrValue::S(s)) if s == "id-1"));
    assert!(matches!(r.get(&"subscribed".to_string()), Some(AttrValue::Bool(true))));
    assert_eq!(r.recipient(), Some("z@x.com".to_string()));
}

#[test]
fn replies_carry_status_and_text() {
    let ok = respond(&Ok(newsletter::dispatch::SendReport { recipients: 1, message_id: None }));
    assert_eq!(ok.status, 200);
    assert_eq!(ok.body, "working...: ");
    let err = respond(&Err(HandlerError::Backend(BackendError { message: "denied".to_string() })));
    assert_eq!(err.status, 500);
    assert_eq!(err.body, "error: denied");
    let cfg = HandlerError::Configuration("no region".to_string());
    assert_eq!(cfg.message(), "no region");
}
