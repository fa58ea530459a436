use vstd::prelude::*;
use vstd::string::StringExecFns;

use crate::codec::{
    bool_of_json, json_bool, json_of_text, json_text, random_code_number, read_json_bool,
    read_json_text, text_of_json,
};
use crate::session_value::{SessionError, SessionValue};
use crate::store::SessionStore;

verus! {

/// The digit character for `d`, for `d` below ten.
pub open spec fn digit_char(d: nat) -> char {
    seq!['0', '1', '2', '3', '4', '5', '6', '7', '8', '9'][d as int]
}

/// The last `width` decimal digits of `n`, most significant first, padded with
/// zeros.
pub open spec fn decimal_text(n: nat, width: nat) -> Seq<char>
    decreases width,
{
    if width == 0 {
        Seq::empty()
    } else {
        decimal_text(n / 10, (width - 1) as nat).push(digit_char(n % 10))
    }
}

/// A one-time code as the session and the mail carry it: six decimal digits.
pub open spec fn is_code_text(s: Seq<char>) -> bool {
    s.len() == 6 && forall|i: int| 0 <= i < 6 ==> '0' <= #[trigger] s[i] <= '9'
}

/// Padded decimal text has exactly `width` characters, each a digit.
pub proof fn lemma_decimal_text_digits(n: nat, width: nat)
    ensures
        decimal_text(n, width).len() == width,
        forall|i: int| 0 <= i < width ==> '0' <= #[trigger] decimal_text(n, width)[i] <= '9',
    decreases width,
{
    if width > 0 {
        lemma_decimal_text_digits(n / 10, (width - 1) as nat);
    }
}

/// The text of one decimal digit.
pub(crate) fn digit_text(d: u32) -> (r: &'static str)
    requires
        d < 10,
    ensures
        r@ == seq![digit_char(d as nat)],
{
    proof {
        reveal_strlit("0");
        reveal_strlit("1");
        reveal_strlit("2");
        reveal_strlit("3");
        reveal_strlit("4");
        reveal_strlit("5");
        reveal_strlit("6");
        reveal_strlit("7");
        reveal_strlit("8");
        reveal_strlit("9");
    }
    if d == 0 {
        "0"
    } else if d == 1 {
        "1"
    } else if d == 2 {
        "2"
    } else if d == 3 {
        "3"
    } else if d == 4 {
        "4"
    } else if d == 5 {
        "5"
    } else if d == 6 {
        "6"
    } else if d == 7 {
        "7"
    } else if d == 8 {
        "8"
    } else {
        "9"
    }
}

/// Writes the last `width` decimal digits of `n`, zero padded.
fn decimal(n: u32, width: usize) -> (r: String)
    ensures
        r@ == decimal_text(n as nat, width as nat),
    decreases width,
{
    if width == 0 {
        String::new()
    } else {
        let mut s = decimal(n / 10, width - 1);
        s.append(digit_text(n % 10));
        s
    }
}

/// A six-digit one-time code sent by mail to prove control of an inbox.
#[derive(Debug, Clone, PartialEq, Eq)]
pub struct LoginCode(String);

impl View for LoginCode {
    type V = Seq<char>;

    closed spec fn view(&self) -> Seq<char> {
        self.0@
    }
}

impl LoginCode {
    /// A fresh code drawn uniformly from 000000 to 999999.
    pub fn new() -> (r: LoginCode)
        ensures
            exists|n: nat| n <= 999_999 && r@ == decimal_text(n, 6),
            is_code_text(r@),
    {
        let n = random_code_number();
        LoginCode::from_number(n)
    }

    /// The code for the number `n`, written with six digits.
    pub fn from_number(n: u32) -> (r: LoginCode)
        requires
            n <= 999_999,
        ensures
            r@ == decimal_text(n as nat, 6),
            is_code_text(r@),
    {
        proof {
            lemma_decimal_text_digits(n as nat, 6);
        }
        LoginCode(decimal(n, 6))
    }

    /// Whether `other` is exactly this code.
    pub fn verify(&self, other: &str) -> (r: bool)
        ensures
            r == (self@ == other@),
    {
        self.0 == String::from_str(other)
    }

    /// The code's digits.
    pub fn to_string(&self) -> (r: String)
        ensures
            r@ == self@,
    {
        self.0.clone()
    }
}

impl SessionValue for LoginCode {
    open spec fn slot() -> Seq<char> {
        "login_code"@
    }

    open spec fn encoded(v: Seq<char>) -> Seq<char> {
        json_of_text(v)
    }

    open spec fn decoded(raw: Seq<char>) -> Option<Seq<char>> {
        text_of_json(raw)
    }

    fn save_name() -> (r: &'static str) {
        "login_code"
    }

    fn encode(&self) -> (r: String) {
        let r = json_text(self.0.as_str());
        assert(text_of_json(r@) == Some(self.0@));
        assert(Self::decoded(r@) == Some(self@));
        r
    }

    fn decode(raw: &str) -> (r: Option<LoginCode>) {
        match read_json_text(raw) {
            Some(t) => Some(LoginCode(t)),
            None => None,
        }
    }
}

/// The email address a registration in progress is claiming.
#[derive(Debug, Clone, PartialEq, Eq)]
pub struct RegistrationEmail(String);

impl View for RegistrationEmail {
    type V = Seq<char>;

    closed spec fn view(&self) -> Seq<char> {
        self.0@
    }
}

impl RegistrationEmail {
    pub fn from(value: &str) -> (r: RegistrationEmail)
        ensures
            r@ == value@,
    {
        RegistrationEmail(String::from_str(value))
    }

    pub fn as_str(&self) -> (r: &str)
        ensures
            r@ == self@,
    {
        self.0.as_str()
    }

    pub fn to_string(&self) -> (r: String)
        ensures
            r@ == self@,
    {
        self.0.clone()
    }
}

impl SessionValue for RegistrationEmail {
    open spec fn slot() -> Seq<char> {
        "registration_email"@
    }

    open spec fn encoded(v: Seq<char>) -> Seq<char> {
        json_of_text(v)
    }

    open spec fn decoded(raw: Seq<char>) -> Option<Seq<char>> {
        text_of_json(raw)
    }

    fn save_name() -> (r: &'static str) {
        "registration_email"
    }

    fn encode(&self) -> (r: String) {
        let r = json_text(self.0.as_str());
        assert(text_of_json(r@) == Some(self.0@));
        assert(Self::decoded(r@) == Some(self@));
        r
    }

    fn decode(raw: &str) -> (r: Option<RegistrationEmail>) {
        match read_json_text(raw) {
            Some(t) => Some(RegistrationEmail(t)),
            None => None,
        }
    }
}

/// The email address of the account a login in progress is for.
#[derive(Debug, Clone, PartialEq, Eq)]
pub struct LoginEmail(String);

impl View for LoginEmail {
    type V = Seq<char>;

    closed spec fn view(&self) -> Seq<char> {
        self.0@
    }
}

impl LoginEmail {
    pub fn from(value: &str) -> (r: LoginEmail)
        ensures
            r@ == value@,
    {
        LoginEmail(String::from_str(value))
    }

    pub fn as_str(&self) -> (r: &str)
        ensures
            r@ == self@,
    {
        self.0.as_str()
    }

    pub fn to_string(&self) -> (r: String)
        ensures
            r@ == self@,
    {
        self.0.clone()
    }
}

impl SessionValue for LoginEmail {
    open spec fn slot() -> Seq<char> {
        "login_email"@
    }

    open spec fn encoded(v: Seq<char>) -> Seq<char> {
        json_of_text(v)
    }

    open spec fn decoded(raw: Seq<char>) -> Option<Seq<char>> {
        text_of_json(raw)
    }

    fn save_name() -> (r: &'static str) {
        "login_email"
    }

    fn encode(&self) -> (r: String) {
        let r = json_text(self.0.as_str());
        assert(text_of_json(r@) == Some(self.0@));
        assert(Self::decoded(r@) == Some(self@));
        r
    }

    fn decode(raw: &str) -> (r: Option<LoginEmail>) {
        match read_json_text(raw) {
            Some(t) => Some(LoginEmail(t)),
            None => None,
        }
    }
}

/// The new address a signed-in user is confirming for their account.
#[derive(Debug, Clone, PartialEq, Eq)]
pub struct ChangeEmail(String);

impl View for ChangeEmail {
    type V = Seq<char>;

    closed spec fn view(&self) -> Seq<char> {
        self.0@
    }
}

impl ChangeEmail {
    pub fn from(value: &str) -> (r: ChangeEmail)
        ensures
            r@ == value@,
    {
        ChangeEmail(String::from_str(value))
    }

    pub fn as_str(&self) -> (r: &str)
        ensures
            r@ == self@,
    {
        self.0.as_str()
    }

    pub fn to_string(&self) -> (r: String)
        ensures
            r@ == self@,
    {
        self.0.clone()
    }
}

impl SessionValue for ChangeEmail {
    open spec fn slot() -> Seq<char> {
        "change_email"@
    }

    open spec fn encoded(v: Seq<char>) -> Seq<char> {
        json_of_text(v)
    }

    open spec fn decoded(raw: Seq<char>) -> Option<Seq<char>> {
        text_of_json(raw)
    }

    fn save_name() -> (r: &'static str) {
        "change_email"
    }

    fn encode(&self) -> (r: String) {
        let r = json_text(self.0.as_str());
        assert(text_of_json(r@) == Some(self.0@));
        assert(Self::decoded(r@) == Some(self@));
        r
    }

    fn decode(raw: &str) -> (r: Option<ChangeEmail>) {
        match read_json_text(raw) {
            Some(t) => Some(ChangeEmail(t)),
            None => None,
        }
    }
}

/// Whether this session has signed in with a passkey.
#[derive(Debug, Clone, Copy, PartialEq, Eq)]
pub struct UsedWebauthn(bool);

impl View for UsedWebauthn {
    type V = bool;

    closed spec fn view(&self) -> bool {
        self.0
    }
}

impl UsedWebauthn {
    pub fn from(value: bool) -> (r: UsedWebauthn)
        ensures
            r@ == value,
    {
        UsedWebauthn(value)
    }

    pub fn value(&self) -> (r: bool)
        ensures
            r == self@,
    {
        self.0
    }

    /// The flag from the session, `false` where none was stored.
    pub fn get_or_false(session: &SessionStore) -> (r: Result<UsedWebauthn, SessionError>)
        requires
            session.wf(),
        ensures
            match r {
                Ok(v) => if session@.contains_key(Self::slot()) {
                    bool_of_json(session@[Self::slot()]) == Some(v@)
                } else {
                    v@ == false
                },
                Err(e) => e == SessionError::Corrupt && session@.contains_key(Self::slot())
                    && bool_of_json(session@[Self::slot()]) is None,
            },
    {
        match UsedWebauthn::get(session) {
            Ok(Some(v)) => Ok(v),
            Ok(None) => Ok(UsedWebauthn(false)),
            Err(e) => Err(e),
        }
    }

    /// The negation of the flag.
    pub fn not(self) -> (r: bool)
        ensures
            r == !self@,
    {
        !self.0
    }
}

impl SessionValue for UsedWebauthn {
    open spec fn slot() -> Seq<char> {
        "used_webauthn"@
    }

    open spec fn encoded(v: bool) -> Seq<char> {
        if v {
            "true"@
        } else {
            "false"@
        }
    }

    open spec fn decoded(raw: Seq<char>) -> Option<bool> {
        bool_of_json(raw)
    }

    fn save_name() -> (r: &'static str) {
        "used_webauthn"
    }

    fn encode(&self) -> (r: String) {
        let r = json_bool(self.0);
        assert(bool_of_json(r@) == Some(self.0));
        assert(Self::decoded(r@) == Some(self@));
        r
    }

    fn decode(raw: &str) -> (r: Option<UsedWebauthn>) {
        match read_json_bool(raw) {
            Some(b) => Some(UsedWebauthn(b)),
            None => None,
        }
    }
}

} // verus!
