//! One invocation: scanned records in, one mailing out, a status reply back.
use crate::dispatch::{is_mailing, DispatchAction, EmailDispatcher, EmailServiceError, SendReport};
use crate::record::{filter_recipients, recipients_of, strings_view, SubscriberRecord};
use crate::scan::BackendError;
use vstd::prelude::*;
use vstd::string::StringExecFns;

verus! {

/// Why an invocation failed.
#[derive(Clone, Debug)]
pub enum HandlerError {
    /// A table read or write failed.
    Backend(BackendError),
    /// The email service refused the message.
    Email(EmailServiceError),
    /// A setting (region, table, sender) is missing or empty.
    Configuration(String),
}

/// The HTTP-shaped answer to an invocation.
#[derive(Clone, Debug)]
pub struct HttpReply {
    pub status: u16,
    pub body: String,
}

/// The text that describes `e`.
pub open spec fn error_text(e: HandlerError) -> Seq<char> {
    match e {
        HandlerError::Backend(b) => b.message@,
        HandlerError::Email(m) => m.message@,
        HandlerError::Configuration(s) => s@,
    }
}

impl HandlerError {
    /// The text that describes this error.
    pub fn message(&self) -> (r: String)
        ensures
            r@ == error_text(*self),
    {
        match self {
            HandlerError::Backend(b) => b.message.clone(),
            HandlerError::Email(m) => m.message.clone(),
            HandlerError::Configuration(s) => s.clone(),
        }
    }
}

/// The mailing for the scanned `records`: every active subscriber's address,
/// in record order, on one message; no call at all where there is none.
pub fn plan_mailing(dispatcher: &EmailDispatcher, records: &Vec<SubscriberRecord>) -> (a:
    DispatchAction)
    ensures
        recipients_of(records@).len() == 0 <==> a is Done,
        a matches DispatchAction::Done(rep) ==> rep.recipients == 0,
        a matches DispatchAction::Submit(m) ==> strings_view(m.bcc@) == recipients_of(records@)
            && m.sender == dispatcher.template.sender && m.subject == dispatcher.template.subject
            && m.body_text == dispatcher.template.body_text && m.body_html
            == dispatcher.template.body_html,
{
    let recipients = filter_recipients(records);
    let ghost rv = recipients@;
    let a = dispatcher.send(recipients);
    proof {
        assert(strings_view(rv).len() == rv.len());
        if a is Submit {
            assert(is_mailing(a->Submit_0, dispatcher.template, rv));
        }
    }
    a
}

/// The reply to an invocation: 200 with a fixed confirmation on success,
/// 500 with the error's text on failure.
pub fn respond(outcome: &Result<SendReport, HandlerError>) -> (r: HttpReply)
    ensures
        match outcome {
            Ok(_) => r.status == 200 && r.body@ == "working...: "@,
            Err(e) => r.status == 500 && r.body@ == "error: "@ + error_text(*e),
        },
{
    match outcome {
        Ok(_) => HttpReply { status: 200, body: String::from_str("working...: ") },
        Err(e) => {
            let text = e.message();
            HttpReply { status: 500, body: String::from_str("error: ").concat(text.as_str()) }
        },
    }
}

} // verus!
