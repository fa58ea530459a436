use vstd::prelude::*;
use vstd::string::StringExecFns;

use crate::codec::{base64_of, base64_standard, json_of_text, json_text, random_bytes, read_json_text, text_of_json};
use crate::error::AuthError;
use crate::session_value::{corrupt, stored, SessionError, SessionValue};
use crate::store::SessionStore;

verus! {

/// The session's anti-forgery secret, which every state-changing form carries.
#[derive(Debug, Clone, PartialEq, Eq)]
pub struct CsrfToken(String);

impl View for CsrfToken {
    type V = Seq<char>;

    closed spec fn view(&self) -> Seq<char> {
        self.0@
    }
}

/// A token as `new` makes them: the base64 text of 32 random bytes, 44
/// characters long.
pub open spec fn is_fresh_token(t: Seq<char>) -> bool {
    t.len() == 44 && exists|b: Seq<u8>| b.len() == 32 && t == base64_of(b)
}

/// What `get_or_create` does to a session `before`, leaving it `after` and
/// returning `r`: an existing token is returned untouched, an undecodable one
/// is an error, and where none exists a fresh one is stored and returned.
pub open spec fn get_or_create_post(
    before: Map<Seq<char>, Seq<char>>,
    after: Map<Seq<char>, Seq<char>>,
    r: Result<Seq<char>, SessionError>,
) -> bool {
    match stored::<CsrfToken>(before) {
        Some(t) => r == Ok::<Seq<char>, SessionError>(t) && after == before,
        None => if corrupt::<CsrfToken>(before) {
            r == Err::<Seq<char>, SessionError>(SessionError::Corrupt) && after == before
        } else {
            &&& r is Ok
            &&& is_fresh_token(r->Ok_0)
            &&& after == before.insert(CsrfToken::slot(), CsrfToken::encoded(r->Ok_0))
            &&& stored::<CsrfToken>(after) == Some(r->Ok_0)
        },
    }
}

/// A token result seen through the token's view.
pub open spec fn token_result(r: Result<CsrfToken, SessionError>) -> Result<Seq<char>, SessionError> {
    match r {
        Ok(t) => Ok(t@),
        Err(e) => Err(e),
    }
}

impl CsrfToken {
    /// A fresh token: 32 bytes from a cryptographically secure source, base64
    /// encoded.
    pub fn new() -> (r: CsrfToken)
        ensures
            is_fresh_token(r@),
    {
        let bytes = random_bytes();
        let text = base64_standard(&bytes);
        proof {
            assert(bytes@.len() == 32 && text@ == base64_of(bytes@));
        }
        CsrfToken(text)
    }

    /// A token holding exactly `value`.
    pub fn from(value: &str) -> (r: CsrfToken)
        ensures
            r@ == value@,
    {
        CsrfToken(String::from_str(value))
    }

    /// Whether `other_token` is exactly this token, character for character.
    pub fn verify(&self, other_token: &str) -> (r: bool)
        ensures
            r == (self@ == other_token@),
    {
        self.0 == String::from_str(other_token)
    }

    /// The session's token, made and stored first if the session has none.
    pub fn get_or_create(session: &mut SessionStore) -> (r: Result<CsrfToken, SessionError>)
        requires
            old(session).wf(),
        ensures
            final(session).wf(),
            get_or_create_post(old(session)@, final(session)@, token_result(r)),
    {
        match CsrfToken::get(session) {
            Ok(Some(token)) => Ok(token),
            Ok(None) => {
                let token = CsrfToken::new();
                let ghost text = CsrfToken::encoded(token@);
                token.save(session);
                proof {
                    assert(session@.contains_key(CsrfToken::slot()));
                    assert(session@[CsrfToken::slot()] == text);
                }
                Ok(token)
            },
            Err(e) => Err(e),
        }
    }

    /// Accepts `submitted_token` exactly when the session holds a token equal
    /// to it.
    pub fn verify_from_session(session: &SessionStore, submitted_token: &str) -> (r: Result<(), AuthError>)
        requires
            session.wf(),
        ensures
            r is Ok <==> stored::<CsrfToken>(session@) == Some(submitted_token@),
            r is Err ==> r == Err::<(), AuthError>(AuthError::Forgery),
    {
        if let Ok(Some(correct_token)) = CsrfToken::get(session) {
            if correct_token.verify(submitted_token) {
                return Ok(());
            }
        }
        Err(AuthError::Forgery)
    }

    /// The hidden form field that carries the token.
    pub fn to_string(&self) -> (r: String)
        ensures
            r@ == "<input type=\"hidden\" value=\""@ + self@ + "\" name=\"csrftoken\">"@,
    {
        let mut s = String::from_str("<input type=\"hidden\" value=\"");
        s.append(self.0.as_str());
        s.append("\" name=\"csrftoken\">");
        s
    }
}

impl Default for CsrfToken {
    fn default() -> (r: CsrfToken)
        ensures
            is_fresh_token(r@),
    {
        CsrfToken::new()
    }
}

impl SessionValue for CsrfToken {
    open spec fn slot() -> Seq<char> {
        "csrf_token"@
    }

    open spec fn encoded(v: Seq<char>) -> Seq<char> {
        json_of_text(v)
    }

    open spec fn decoded(raw: Seq<char>) -> Option<Seq<char>> {
        text_of_json(raw)
    }

    fn save_name() -> (r: &'static str) {
        "csrf_token"
    }

    fn encode(&self) -> (r: String) {
        let r = json_text(self.0.as_str());
        assert(text_of_json(r@) == Some(self.0@));
        assert(Self::decoded(r@) == Some(self@));
        r
    }

    fn decode(raw: &str) -> (r: Option<CsrfToken>) {
        match read_json_text(raw) {
            Some(t) => Some(CsrfToken(t)),
            None => None,
        }
    }
}

/// Asking for the token twice in a row, with nothing removed between, gives the
/// same token both times and leaves the session as the first call left it.
pub proof fn lemma_get_or_create_idempotent(
    m0: Map<Seq<char>, Seq<char>>,
    m1: Map<Seq<char>, Seq<char>>,
    m2: Map<Seq<char>, Seq<char>>,
    r1: Result<Seq<char>, SessionError>,
    r2: Result<Seq<char>, SessionError>,
)
    requires
        get_or_create_post(m0, m1, r1),
        get_or_create_post(m1, m2, r2),
    ensures
        r2 == r1,
        m2 == m1,
{
}

/// Once a token is stored, the session check accepts exactly that token.
pub proof fn lemma_verify_accepts_stored_token(
    m: Map<Seq<char>, Seq<char>>,
    token: Seq<char>,
    submitted: Seq<char>,
)
    requires
        CsrfToken::decoded(CsrfToken::encoded(token)) == Some(token),
    ensures
        stored::<CsrfToken>(m.insert(CsrfToken::slot(), CsrfToken::encoded(token))) == Some(submitted)
            <==> submitted == token,
{
}

} // verus!
