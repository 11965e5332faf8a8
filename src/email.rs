use vstd::prelude::*;
use vstd::string::*;

verus! {

/// Whether `validator` accepts a text as an e-mail address.
pub uninterp spec fn accepted_email(s: Seq<char>) -> bool;

/// Relies on `validator::ValidateEmail::validate_email` for `&str`: the check
/// of an address' local part and domain. A text without `@` is refused.
#[verifier::external_body]
fn validate_email_text(s: &str) -> (r: bool)
    ensures
        r == accepted_email(s@),
        r ==> s@.contains('@'),
{
    validator::ValidateEmail::validate_email(&s)
}

/// A validated e-mail address identifying a principal.
#[derive(Hash)]
pub struct Email {
    text: String,
}

impl View for Email {
    type V = Seq<char>;

    closed spec fn view(&self) -> Seq<char> {
        self.text@
    }
}

/// The refusal of a text that is no e-mail address.
#[derive(Debug)]
pub struct EmailError {
    message: String,
}

impl View for EmailError {
    type V = Seq<char>;

    closed spec fn view(&self) -> Seq<char> {
        self.message@
    }
}

impl EmailError {
    /// The message that names the refused text.
    pub fn to_string(&self) -> (r: String)
        ensures
            r@ == self@,
    {
        self.message.clone()
    }
}

/// The message of an `EmailError` for the text `s`.
pub open spec fn invalid_email_message(s: Seq<char>) -> Seq<char> {
    s + " is not a valid email."@
}

impl Email {
    /// Accepts `s` exactly when it is an e-mail address.
    pub fn parse(s: String) -> (r: Result<Email, EmailError>)
        ensures
            r is Ok <==> accepted_email(s@),
            r is Ok ==> s@.contains('@'),
            r matches Ok(e) ==> e@ == s@,
            r matches Err(e) ==> e@ == invalid_email_message(s@),
    {
        if validate_email_text(s.as_str()) {
            Ok(Email { text: s })
        } else {
            let mut message = s;
            message.append(" is not a valid email.");
            Err(EmailError { message })
        }
    }

    /// The address as text.
    pub fn as_ref(&self) -> (r: &str)
        ensures
            r@ == self@,
    {
        self.text.as_str()
    }
}

impl Clone for Email {
    fn clone(&self) -> (r: Email)
        ensures
            r@ == self@,
    {
        Email { text: self.text.clone() }
    }
}

impl PartialEq for Email {
    fn eq(&self, other: &Email) -> (r: bool) {
        self.text == other.text
    }
}

impl vstd::std_specs::cmp::PartialEqSpecImpl for Email {
    open spec fn obeys_eq_spec() -> bool {
        true
    }

    open spec fn eq_spec(&self, other: &Email) -> bool {
        self@ == other@
    }
}

impl Eq for Email {
}

} // verus!
