//! Building the one outbound email of a mailing.
use vstd::prelude::*;

verus! {

/// The fixed parts of every mailing: sender identity, subject and bodies.
#[derive(Clone, Debug)]
pub struct EmailTemplate {
    pub sender: String,
    pub subject: String,
    pub body_text: String,
    pub body_html: String,
}

/// One message, with every recipient as a blind-copy address.
#[derive(Clone, Debug)]
pub struct OutboundEmail {
    pub sender: String,
    pub subject: String,
    pub body_text: String,
    pub body_html: String,
    pub bcc: Vec<String>,
}

/// A rejected submission (invalid address, quota, malformed content).
#[derive(Clone, Debug)]
pub struct EmailServiceError {
    pub message: String,
}

/// What a mailing amounted to.
#[derive(Clone, Debug)]
pub struct SendReport {
    /// How many blind-copy addresses the message went to.
    pub recipients: usize,
    /// The confirmation that the email service returned, if a message went.
    pub message_id: Option<String>,
}

/// What the caller does with a mailing.
#[derive(Debug)]
pub enum DispatchAction {
    /// Nothing to send: no backend call, and this is the report.
    Done(SendReport),
    /// Submit this message in one call, then pass the outcome to `settle`.
    Submit(OutboundEmail),
}

/// Addresses a fixed template to a list of recipients.
pub struct EmailDispatcher {
    pub template: EmailTemplate,
}

/// `m` is `t` addressed by blind copy to `recipients`.
pub open spec fn is_mailing(m: OutboundEmail, t: EmailTemplate, recipients: Seq<String>) -> bool {
    &&& m.sender == t.sender
    &&& m.subject == t.subject
    &&& m.body_text == t.body_text
    &&& m.body_html == t.body_html
    &&& m.bcc@ == recipients
}

impl EmailDispatcher {
    pub fn new(template: EmailTemplate) -> (r: EmailDispatcher)
        ensures
            r.template == template,
    {
        EmailDispatcher { template }
    }

    /// Plans the mailing to `recipients`. An empty list needs no backend
    /// call and reports zero recipients; any other list becomes exactly one
    /// message carrying every address, in order, as a blind copy.
    pub fn send(&self, recipients: Vec<String>) -> (a: DispatchAction)
        ensures
            recipients@.len() == 0 <==> a is Done,
            a matches DispatchAction::Done(rep) ==> rep.recipients == 0 && rep.message_id is None,
            a matches DispatchAction::Submit(m) ==> is_mailing(m, self.template, recipients@),
    {
        if recipients.len() == 0 {
            DispatchAction::Done(SendReport { recipients: 0, message_id: None })
        } else {
            DispatchAction::Submit(
                OutboundEmail {
                    sender: self.template.sender.clone(),
                    subject: self.template.subject.clone(),
                    body_text: self.template.body_text.clone(),
                    body_html: self.template.body_html.clone(),
                    bcc: recipients,
                },
            )
        }
    }
}

/// The result of submitting `email`: on success, the number of addresses it
/// carried and the service's confirmation; on failure, the service's error.
pub fn settle(email: &OutboundEmail, outcome: Result<String, EmailServiceError>) -> (r: Result<
    SendReport,
    EmailServiceError,
>)
    ensures
        match outcome {
            Ok(id) => r matches Ok(rep) && rep.recipients == email.bcc@.len() && rep.message_id
                == Some(id),
            Err(e) => r == Err::<SendReport, EmailServiceError>(e),
        },
{
    match outcome {
        Ok(id) => Ok(SendReport { recipients: email.bcc.len(), message_id: Some(id) }),
        Err(e) => Err(e),
    }
}

} // verus!
