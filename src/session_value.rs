use vstd::prelude::*;

use crate::ceremony::{authentication_slot, registration_slot};
use crate::csrf_token::CsrfToken;
use crate::store::SessionStore;
use crate::values::{ChangeEmail, LoginCode, LoginEmail, RegistrationEmail, UsedWebauthn};

verus! {

/// Why a typed read of the session failed.
#[derive(Debug, Clone, Copy, PartialEq, Eq, Structural)]
pub enum SessionError {
    /// The slot holds text that does not decode to the expected value.
    Corrupt,
    /// The slot is empty where a value was required.
    Missing,
}

/// A value kept in the session under a fixed slot name, stored as text.
pub trait SessionValue: Sized + View {
    /// The slot this kind of value lives in.
    spec fn slot() -> Seq<char>;

    /// The text stored for a value.
    spec fn encoded(v: Self::V) -> Seq<char>;

    /// The value that a stored text stands for, if it stands for one.
    spec fn decoded(raw: Seq<char>) -> Option<Self::V>;

    fn save_name() -> (r: &'static str)
        ensures
            r@ == Self::slot(),
    ;

    fn encode(&self) -> (r: String)
        ensures
            r@ == Self::encoded(self@),
            Self::decoded(r@) == Some(self@),
    ;

    fn decode(raw: &str) -> (r: Option<Self>)
        ensures
            match r {
                Some(v) => Self::decoded(raw@) == Some(v@),
                None => Self::decoded(raw@) is None,
            },
    ;

    /// Stores the value under its slot, replacing what was there.
    fn save(&self, session: &mut SessionStore)
        requires
            old(session).wf(),
        ensures
            final(session).wf(),
            final(session)@ == old(session)@.insert(Self::slot(), Self::encoded(self@)),
            Self::decoded(Self::encoded(self@)) == Some(self@),
    {
        let text = self.encode();
        session.insert(Self::save_name(), text);
    }

    /// Reads the value: `None` where the slot is empty, an error where its text
    /// does not decode.
    fn get(session: &SessionStore) -> (r: Result<Option<Self>, SessionError>)
        requires
            session.wf(),
        ensures
            match r {
                Ok(Some(v)) => session@.contains_key(Self::slot()) && Self::decoded(
                    session@[Self::slot()],
                ) == Some(v@),
                Ok(None) => !session@.contains_key(Self::slot()),
                Err(e) => e == SessionError::Corrupt && session@.contains_key(Self::slot())
                    && Self::decoded(session@[Self::slot()]) is None,
            },
    {
        match session.get(Self::save_name()) {
            None => Ok(None),
            Some(raw) => match Self::decode(raw.as_str()) {
                Some(v) => Ok(Some(v)),
                None => Err(SessionError::Corrupt),
            },
        }
    }

    /// Reads the value, taking an empty slot as an error too.
    fn get_some_or_err(session: &SessionStore) -> (r: Result<Self, SessionError>)
        requires
            session.wf(),
        ensures
            match r {
                Ok(v) => session@.contains_key(Self::slot()) && Self::decoded(
                    session@[Self::slot()],
                ) == Some(v@),
                Err(SessionError::Missing) => !session@.contains_key(Self::slot()),
                Err(SessionError::Corrupt) => session@.contains_key(Self::slot())
                    && Self::decoded(session@[Self::slot()]) is None,
            },
    {
        match Self::get(session) {
            Ok(Some(v)) => Ok(v),
            Ok(None) => Err(SessionError::Missing),
            Err(e) => Err(e),
        }
    }

    /// Empties the slot, handing back the text it held.
    fn remove(session: &mut SessionStore) -> (r: Option<String>)
        requires
            old(session).wf(),
        ensures
            final(session).wf(),
            final(session)@ == old(session)@.remove(Self::slot()),
            r is Some <==> old(session)@.contains_key(Self::slot()),
    {
        session.remove(Self::save_name())
    }
}

/// The value held in the session for `V`, where its slot holds a decodable text.
pub open spec fn stored<V: SessionValue>(m: Map<Seq<char>, Seq<char>>) -> Option<V::V> {
    if m.contains_key(V::slot()) {
        V::decoded(m[V::slot()])
    } else {
        None
    }
}

/// The slot of `V` holds text that decodes to no value.
pub open spec fn corrupt<V: SessionValue>(m: Map<Seq<char>, Seq<char>>) -> bool {
    m.contains_key(V::slot()) && V::decoded(m[V::slot()]) is None
}

/// The fixed slot names of all values the session holds.
pub open spec fn slot_names() -> Seq<Seq<char>> {
    seq![
        CsrfToken::slot(),
        LoginCode::slot(),
        RegistrationEmail::slot(),
        LoginEmail::slot(),
        ChangeEmail::slot(),
        UsedWebauthn::slot(),
        registration_slot(),
        authentication_slot(),
    ]
}

/// No two kinds of session value share a slot, so saving one never
/// overwrites another.
pub proof fn lemma_slot_names_distinct()
    ensures
        forall|i: int, j: int|
            0 <= i < j < slot_names().len() ==> #[trigger] slot_names()[i] != #[trigger] slot_names()[j],
{
    reveal_strlit("csrf_token");
    reveal_strlit("login_code");
    reveal_strlit("registration_email");
    reveal_strlit("login_email");
    reveal_strlit("change_email");
    reveal_strlit("used_webauthn");
    reveal_strlit("reg_stage");
    reveal_strlit("auth_state");
    let names = slot_names();
    assert(names[0].len() == 10 && names[1].len() == 10 && names[2].len() == 18);
    assert(names[3].len() == 11 && names[4].len() == 12 && names[5].len() == 13);
    assert(names[6].len() == 9 && names[7].len() == 10);
    assert(names[0][0] != names[1][0] && names[0][0] != names[7][0] && names[1][0] != names[7][0]);
    assert forall|i: int, j: int| 0 <= i < j < names.len() implies #[trigger] names[i] != #[trigger] names[j] by {
        if names[i].len() == names[j].len() {
            assert(names[i][0] != names[j][0]);
        }
    }
}

} // verus!
