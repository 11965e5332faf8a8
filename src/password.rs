use vstd::prelude::*;
use vstd::string::*;

verus! {

/// The fewest characters a password may have.
pub const MIN_PASSWORD_CHARS: usize = 8;

/// A secret that meets the length policy. It has no `Debug`, so that it
/// cannot end up in a trace.
pub struct Password {
    text: String,
}

impl View for Password {
    type V = Seq<char>;

    closed spec fn view(&self) -> Seq<char> {
        self.text@
    }
}

/// The refusal of a text that is too short to be a password.
#[derive(Debug, PartialEq, Eq)]
pub struct PasswordError(pub String);

/// Whether a text meets the length policy.
pub open spec fn valid_password(s: Seq<char>) -> bool {
    s.len() >= MIN_PASSWORD_CHARS
}

fn validate_password(s: &str) -> (r: bool)
    ensures
        r == valid_password(s@),
{
    s.unicode_len() >= MIN_PASSWORD_CHARS
}

impl Password {
    /// Accepts `s` exactly when it has at least eight characters.
    pub fn parse(s: String) -> (r: Result<Password, PasswordError>)
        ensures
            r is Ok <==> valid_password(s@),
            r matches Ok(p) ==> p@ == s@,
            r matches Err(e) ==> e.0@ == "Failed to parse string to a Password type"@,
    {
        if validate_password(s.as_str()) {
            Ok(Password { text: s })
        } else {
            Err(PasswordError(String::from_str("Failed to parse string to a Password type")))
        }
    }

    /// The secret as text.
    pub fn as_ref(&self) -> (r: &str)
        ensures
            r@ == self@,
    {
        self.text.as_str()
    }
}

impl Clone for Password {
    fn clone(&self) -> (r: Password)
        ensures
            r@ == self@,
    {
        Password { text: self.text.clone() }
    }
}

impl PartialEq for Password {
    fn eq(&self, other: &Password) -> (r: bool) {
        self.text == other.text
    }
}

impl vstd::std_specs::cmp::PartialEqSpecImpl for Password {
    open spec fn obeys_eq_spec() -> bool {
        true
    }

    open spec fn eq_spec(&self, other: &Password) -> bool {
        self@ == other@
    }
}

impl Eq for Password {
}

} // verus!
