use vstd::prelude::*;
use vstd::string::*;

use crate::email::Email;

verus! {

/// The line that records a message to `recipient`.
pub open spec fn delivery_line(recipient: Seq<char>, subject: Seq<char>, content: Seq<char>) -> Seq<
    char,
> {
    "Sending email to "@ + recipient + " with subject: "@ + subject + " and content: "@ + content
}

/// A code delivery for local use: it sends nothing and only records each
/// message as a line for the caller to show.
pub struct MockEmailClient;

impl MockEmailClient {
    /// "Delivers" a message: the line that records it.
    pub fn send_email(&self, recipient: &Email, subject: &str, content: &str) -> (r: String)
        ensures
            r@ == delivery_line(recipient@, subject@, content@),
    {
        let mut line = String::from_str("Sending email to ");
        line.append(recipient.as_ref());
        line.append(" with subject: ");
        line.append(subject);
        line.append(" and content: ");
        line.append(content);
        line
    }
}

} // verus!
