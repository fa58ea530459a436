use vstd::prelude::*;

verus! {

/// What `str::to_lowercase` makes of a text.
pub uninterp spec fn lower_of(s: Seq<char>) -> Seq<char>;

/// The user id that uuid reads out of a text, if the text is a UUID.
pub uninterp spec fn uuid_of_text(s: Seq<char>) -> Option<u128>;

/// The lower-case hexadecimal digit for `d`, for `d` below sixteen.
pub open spec fn hex_char(d: nat) -> char {
    seq!['0', '1', '2', '3', '4', '5', '6', '7', '8', '9', 'a', 'b', 'c', 'd', 'e', 'f'][d as int]
}

/// The last `width` hexadecimal digits of `n`, most significant first.
pub open spec fn hex_text(n: nat, width: nat) -> Seq<char>
    decreases width,
{
    if width == 0 {
        Seq::empty()
    } else {
        hex_text(n / 16, (width - 1) as nat).push(hex_char(n % 16))
    }
}

/// The hyphenated text of a UUID: its 32 hexadecimal digits, most significant
/// first, in groups of 8, 4, 4, 4 and 12.
pub open spec fn text_of_uuid(v: u128) -> Seq<char> {
    let h = hex_text(v as nat, 32);
    h.subrange(0, 8) + seq!['-'] + h.subrange(8, 12) + seq!['-'] + h.subrange(12, 16) + seq!['-']
        + h.subrange(16, 20) + seq!['-'] + h.subrange(20, 32)
}

/// Hexadecimal text has exactly `width` digits.
pub proof fn lemma_hex_text_len(n: nat, width: nat)
    ensures
        hex_text(n, width).len() == width,
    decreases width,
{
    if width > 0 {
        lemma_hex_text_len(n / 16, (width - 1) as nat);
    }
}

/// The text of a UUID has 36 characters.
pub proof fn lemma_uuid_text_len(v: u128)
    ensures
        text_of_uuid(v).len() == 36,
{
    lemma_hex_text_len(v as nat, 32);
}

/// Relies on `str::to_lowercase`: the result depends on the characters alone.
#[verifier::external_body]
fn lowercase(s: &str) -> (r: String)
    ensures
        r@ == lower_of(s@),
{
    s.to_lowercase()
}

/// Relies on uuid's `Uuid::parse_str`: the 128-bit value of a UUID text.
#[verifier::external_body]
pub(crate) fn parse_uuid(s: &str) -> (r: Option<u128>)
    ensures
        r == uuid_of_text(s@),
{
    uuid::Uuid::parse_str(s).ok().map(|u| u.as_u128())
}

/// Relies on uuid's `Uuid::from_u128` (big-endian bytes) and its `Display`,
/// which writes the hyphenated lower-case form that `Uuid::parse_str` reads back.
#[verifier::external_body]
pub(crate) fn uuid_text(v: u128) -> (r: String)
    ensures
        r@ == text_of_uuid(v),
        uuid_of_text(r@) == Some(v),
{
    uuid::Uuid::from_u128(v).to_string()
}

/// A registered account.
pub struct User {
    pub id: i64,
    pub name: Option<String>,
    pub email: String,
    /// The public identifier, a UUID as its 128-bit value.
    pub userid: u128,
    pub is_new_user: bool,
}

/// Who is making a request.
pub enum AuthIdentity {
    Anonymous,
    /// Signed in; holds the identity text the session carries.
    Authenticated(String),
}

/// What the user store answered to a lookup.
pub enum UserLookup {
    Found(User),
    NotFound,
    Failed,
}

/// Why a request's identity could not be resolved to an account.
#[derive(Debug, Clone, Copy, PartialEq, Eq, Structural)]
pub enum IdentityError {
    /// No account matches: the session is stale or revoked.
    Unauthorized,
    /// The identity is malformed or the store failed.
    Internal,
}

/// The key under which accounts are looked up by email: addresses compare
/// without regard to case.
pub fn email_key(email: &str) -> (r: String)
    ensures
        r@ == lower_of(email@),
{
    lowercase(email)
}

/// The user id that a signed-in session carries.
pub fn user_id_from_identity(identity: &str) -> (r: Result<u128, IdentityError>)
    ensures
        match r {
            Ok(v) => uuid_of_text(identity@) == Some(v),
            Err(e) => uuid_of_text(identity@) is None && e == IdentityError::Internal,
        },
{
    match parse_uuid(identity) {
        Some(v) => Ok(v),
        None => Err(IdentityError::Internal),
    }
}

/// The identity text to sign a user in with.
pub fn identity_for_user(userid: u128) -> (r: String)
    ensures
        r@ == text_of_uuid(userid),
        r@.len() == 36,
        uuid_of_text(r@) == Some(userid),
{
    proof {
        lemma_uuid_text_len(userid);
    }
    uuid_text(userid)
}

/// The user id of a signed-in request, where it is signed in with a
/// well-formed identity.
pub fn identity_user_id(identity: &AuthIdentity) -> (r: Option<u128>)
    ensures
        match identity {
            AuthIdentity::Anonymous => r is None,
            AuthIdentity::Authenticated(s) => r == uuid_of_text(s@),
        },
{
    match identity {
        AuthIdentity::Anonymous => None,
        AuthIdentity::Authenticated(s) => parse_uuid(s.as_str()),
    }
}

/// Classifies a lookup of the session's account: a missing row means the
/// session is no longer valid, a failing store is an internal error.
pub fn resolve_user(lookup: UserLookup) -> (r: Result<User, IdentityError>)
    ensures
        match lookup {
            UserLookup::Found(u) => r == Ok::<User, IdentityError>(u),
            UserLookup::NotFound => r == Err::<User, IdentityError>(IdentityError::Unauthorized),
            UserLookup::Failed => r == Err::<User, IdentityError>(IdentityError::Internal),
        },
{
    match lookup {
        UserLookup::Found(u) => Ok(u),
        UserLookup::NotFound => Err(IdentityError::Unauthorized),
        UserLookup::Failed => Err(IdentityError::Internal),
    }
}

/// What the login page does for a request.
#[derive(Debug, Clone, Copy, PartialEq, Eq, Structural)]
pub enum LoginEntry {
    /// Already signed in to an existing account: go to the profile.
    ToProfile,
    /// Signed in to an account that no longer exists: sign out and reload.
    SignOut,
    /// Not signed in: show the login form.
    ShowForm,
}

/// Decides the login page's response; `account_exists` says whether the
/// request's identity names an account in the store.
pub fn login_entry(identity: &AuthIdentity, account_exists: bool) -> (r: LoginEntry)
    ensures
        match identity {
            AuthIdentity::Anonymous => r == LoginEntry::ShowForm,
            AuthIdentity::Authenticated(_) => r == if account_exists {
                LoginEntry::ToProfile
            } else {
                LoginEntry::SignOut
            },
        },
{
    match identity {
        AuthIdentity::Anonymous => LoginEntry::ShowForm,
        AuthIdentity::Authenticated(_) => if account_exists {
            LoginEntry::ToProfile
        } else {
            LoginEntry::SignOut
        },
    }
}

} // verus!
