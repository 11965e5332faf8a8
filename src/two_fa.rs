use vstd::prelude::*;
use vstd::string::*;

verus! {

/// What `uuid` makes of a text: its hyphenated lower-case form, where the
/// text is a UUID.
pub uninterp spec fn uuid_text(s: Seq<char>) -> Option<Seq<char>>;

/// Relies on `uuid::Uuid::parse_str` to read a UUID, and on `Uuid`'s
/// `Display` to show it hyphenated, 36 characters; `parse_str` reads that
/// form back as the same UUID.
#[verifier::external_body]
fn parse_uuid(s: &str) -> (r: Option<String>)
    ensures
        r matches Some(t) ==> uuid_text(s@) == Some(t@) && t@.len() == 36,
        r matches Some(t) ==> uuid_text(t@) == Some(t@),
        r is None ==> uuid_text(s@) is None,
{
    match uuid::Uuid::parse_str(s) {
        Ok(u) => Some(u.to_string()),
        Err(_) => None,
    }
}

/// Relies on `uuid::Uuid::new_v4`: a random UUID, shown hyphenated, which
/// `uuid` reads back as the same text.
#[verifier::external_body]
fn fresh_uuid() -> (r: String)
    ensures
        uuid_text(r@) == Some(r@),
{
    uuid::Uuid::new_v4().to_string()
}

/// Relies on `rand::Rng::gen_range` over `rand::thread_rng()`: a number drawn
/// from `low..high`. It panics on an empty range.
#[verifier::external_body]
fn random_in_range(low: u32, high: u32) -> (r: u32)
    requires
        low < high,
    ensures
        low <= r < high,
{
    rand::Rng::gen_range(&mut rand::thread_rng(), low..high)
}

/// Relies on `String::push`: appends one character.
#[verifier::external_body]
pub(crate) fn push_char(s: &mut String, c: char)
    ensures
        final(s)@ == old(s)@.push(c),
{
    s.push(c)
}

/// The correlation handle of one pending two-factor challenge.
pub struct LoginAttemptId {
    text: String,
}

impl View for LoginAttemptId {
    type V = Seq<char>;

    closed spec fn view(&self) -> Seq<char> {
        self.text@
    }
}

impl LoginAttemptId {
    /// Accepts `id` exactly when it is a UUID, and keeps its hyphenated form.
    pub fn parse(id: String) -> (r: Result<LoginAttemptId, String>)
        ensures
            r is Ok <==> uuid_text(id@) is Some,
            r matches Ok(a) ==> uuid_text(id@) == Some(a@),
            r matches Ok(a) ==> uuid_text(a@) == Some(a@),
            r matches Err(m) ==> m@ == "could not parse login attempt id"@,
    {
        match parse_uuid(id.as_str()) {
            Some(text) => Ok(LoginAttemptId { text }),
            None => Err(String::from_str("could not parse login attempt id")),
        }
    }

    /// The handle as text.
    pub fn as_ref(&self) -> (r: &str)
        ensures
            r@ == self@,
    {
        self.text.as_str()
    }
}

impl Default for LoginAttemptId {
    /// A fresh random handle.
    fn default() -> (r: LoginAttemptId)
        ensures
            uuid_text(r@) == Some(r@),
    {
        LoginAttemptId { text: fresh_uuid() }
    }
}

impl Clone for LoginAttemptId {
    fn clone(&self) -> (r: LoginAttemptId)
        ensures
            r@ == self@,
    {
        LoginAttemptId { text: self.text.clone() }
    }
}

impl PartialEq for LoginAttemptId {
    fn eq(&self, other: &LoginAttemptId) -> (r: bool) {
        self.text == other.text
    }
}

impl vstd::std_specs::cmp::PartialEqSpecImpl for LoginAttemptId {
    open spec fn obeys_eq_spec() -> bool {
        true
    }

    open spec fn eq_spec(&self, other: &LoginAttemptId) -> bool {
        self@ == other@
    }
}

/// The number of digits of a two-factor code.
pub const CODE_DIGITS: usize = 6;

/// The smallest code drawn.
pub const CODE_LOW: u32 = 100000;

/// One past the largest code drawn.
pub const CODE_HIGH: u32 = 1000000;

pub open spec fn is_decimal_digit(c: char) -> bool {
    '0' <= c <= '9'
}

/// A two-factor code is exactly six decimal digits.
pub open spec fn valid_code(s: Seq<char>) -> bool {
    s.len() == CODE_DIGITS && forall|i: int| 0 <= i < s.len() ==> is_decimal_digit(#[trigger] s[i])
}

/// The character of a decimal digit.
pub open spec fn digit_char(d: int) -> char {
    ((48 + d) as u8) as char
}

/// The six decimal digits of `n`, leading zeros included.
pub open spec fn six_digits(n: int) -> Seq<char> {
    seq![
        digit_char((n / 100000) % 10),
        digit_char((n / 10000) % 10),
        digit_char((n / 1000) % 10),
        digit_char((n / 100) % 10),
        digit_char((n / 10) % 10),
        digit_char(n % 10),
    ]
}

fn push_digit(s: &mut String, d: u32)
    requires
        d < 10,
    ensures
        final(s)@ == old(s)@.push(digit_char(d as int)),
{
    let b: u8 = 48 + d as u8;
    push_char(s, b as char);
}

/// Writes `n` as six decimal digits.
fn six_digit_text(n: u32) -> (r: String)
    requires
        n < 1000000,
    ensures
        r@ == six_digits(n as int),
        valid_code(r@),
{
    let mut s = String::new();
    push_digit(&mut s, (n / 100000) % 10);
    push_digit(&mut s, (n / 10000) % 10);
    push_digit(&mut s, (n / 1000) % 10);
    push_digit(&mut s, (n / 100) % 10);
    push_digit(&mut s, (n / 10) % 10);
    push_digit(&mut s, n % 10);
    assert(s@ =~= six_digits(n as int));
    s
}

/// A one-time code of six decimal digits.
pub struct TwoFACode {
    text: String,
}

impl View for TwoFACode {
    type V = Seq<char>;

    closed spec fn view(&self) -> Seq<char> {
        self.text@
    }
}

impl TwoFACode {
    /// Accepts `code` exactly when it is six decimal digits.
    pub fn parse(code: String) -> (r: Result<TwoFACode, String>)
        ensures
            r is Ok <==> valid_code(code@),
            r matches Ok(c) ==> c@ == code@,
            r matches Err(m) ==> m@ == (if code@.len() != CODE_DIGITS {
                "could not parse FA Code"@
            } else {
                "could not parse FA Code because a non-digit was found"@
            }),
    {
        let s = code.as_str();
        if s.unicode_len() != CODE_DIGITS {
            return Err(String::from_str("could not parse FA Code"));
        }
        let mut i: usize = 0;
        while i < CODE_DIGITS
            invariant
                s@ == code@,
                s@.len() == CODE_DIGITS,
                i <= CODE_DIGITS,
                forall|j: int| 0 <= j < i ==> is_decimal_digit(#[trigger] s@[j]),
            decreases CODE_DIGITS - i,
        {
            let c = s.get_char(i);
            if !('0' <= c && c <= '9') {
                return Err(String::from_str("could not parse FA Code because a non-digit was found"));
            }
            i = i + 1;
        }
        Ok(TwoFACode { text: code })
    }

    /// The code as text.
    pub fn as_ref(&self) -> (r: &str)
        ensures
            r@ == self@,
    {
        self.text.as_str()
    }
}

impl Default for TwoFACode {
    /// A fresh code, drawn uniformly from 100000 to 999999.
    fn default() -> (r: TwoFACode)
        ensures
            valid_code(r@),
            exists|n: int| CODE_LOW <= n < CODE_HIGH && r@ == six_digits(n),
    {
        let n = random_in_range(CODE_LOW, CODE_HIGH);
        TwoFACode { text: six_digit_text(n) }
    }
}

impl Clone for TwoFACode {
    fn clone(&self) -> (r: TwoFACode)
        ensures
            r@ == self@,
    {
        TwoFACode { text: self.text.clone() }
    }
}

impl PartialEq for TwoFACode {
    fn eq(&self, other: &TwoFACode) -> (r: bool) {
        self.text == other.text
    }
}

impl vstd::std_specs::cmp::PartialEqSpecImpl for TwoFACode {
    open spec fn obeys_eq_spec() -> bool {
        true
    }

    open spec fn eq_spec(&self, other: &TwoFACode) -> bool {
        self@ == other@
    }
}

} // verus!
