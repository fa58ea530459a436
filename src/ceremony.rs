use vstd::prelude::*;
use vstd::string::{StrSliceExecFns, StringExecFns};

use webauthn_rs::prelude::{
    Base64UrlSafeData, CreationChallengeResponse, Passkey, PasskeyAuthentication,
    PasskeyRegistration, PublicKeyCredential, RegisterPublicKeyCredential,
    RequestChallengeResponse, Webauthn,
};

use crate::identity::{lemma_uuid_text_len, parse_uuid, uuid_of_text, uuid_text};
use crate::session_value::{corrupt, SessionValue};
use crate::store::SessionStore;
use crate::values::LoginEmail;

verus! {

#[verifier::external_type_specification]
#[verifier::external_body]
pub struct ExWebauthn(Webauthn);

#[verifier::external_type_specification]
#[verifier::external_body]
pub struct ExPasskey(Passkey);

#[verifier::external_type_specification]
#[verifier::external_body]
pub struct ExPasskeyRegistration(PasskeyRegistration);

#[verifier::external_type_specification]
#[verifier::external_body]
pub struct ExPasskeyAuthentication(PasskeyAuthentication);

#[verifier::external_type_specification]
#[verifier::external_body]
pub struct ExCreationChallengeResponse(CreationChallengeResponse);

#[verifier::external_type_specification]
#[verifier::external_body]
pub struct ExRequestChallengeResponse(RequestChallengeResponse);

#[verifier::external_type_specification]
#[verifier::external_body]
pub struct ExRegisterPublicKeyCredential(RegisterPublicKeyCredential);

#[verifier::external_type_specification]
#[verifier::external_body]
pub struct ExPublicKeyCredential(PublicKeyCredential);

/// Relies on serde_json::from_str::<Passkey>: a stored credential read back.
#[verifier::external_body]
fn read_passkey(json: &str) -> Option<Passkey> {
    serde_json::from_str::<Passkey>(json).ok()
}

/// Relies on serde_json::to_string on a `Passkey`: the credential as stored.
#[verifier::external_body]
fn passkey_json(passkey: &Passkey) -> Option<String> {
    serde_json::to_string(passkey).ok()
}

/// The id of the credential that a stored credential text holds, where the text
/// reads back as a passkey.
pub uninterp spec fn cred_id_of(json: Seq<char>) -> Option<Seq<u8>>;

/// Relies on serde_json::from_str::<Passkey> and webauthn-rs's
/// `Passkey::cred_id`: the id bytes of a stored credential, which depend on the
/// stored text alone.
#[verifier::external_body]
fn stored_cred_id(json: &str) -> (r: Option<Vec<u8>>)
    ensures
        match r {
            Some(id) => cred_id_of(json@) == Some(id@),
            None => cred_id_of(json@) is None,
        },
{
    serde_json::from_str::<Passkey>(json).ok().map(|p| p.cred_id().0.clone())
}

/// Relies on webauthn-rs's `Webauthn::start_passkey_registration`: a challenge
/// for the user that excludes the given credentials, with the state to finish it.
#[verifier::external_body]
fn begin_passkey_registration(
    webauthn: &Webauthn,
    userid: u128,
    user_name: &str,
    exclude: Vec<Vec<u8>>,
) -> Option<(CreationChallengeResponse, PasskeyRegistration)> {
    webauthn.start_passkey_registration(
        uuid::Uuid::from_u128(userid),
        user_name,
        user_name,
        Some(exclude.into_iter().map(Base64UrlSafeData).collect()),
    ).ok()
}

/// Relies on webauthn-rs's `Webauthn::finish_passkey_registration`: the new
/// credential, where the response answers the challenge of `state`.
#[verifier::external_body]
fn complete_passkey_registration(
    webauthn: &Webauthn,
    response: &RegisterPublicKeyCredential,
    state: &PasskeyRegistration,
) -> Option<Passkey> {
    webauthn.finish_passkey_registration(response, state).ok()
}

/// Relies on webauthn-rs's `Webauthn::start_passkey_authentication`: a
/// challenge that only the given credentials can answer, with its state.
#[verifier::external_body]
fn begin_passkey_authentication(
    webauthn: &Webauthn,
    credentials: &Vec<Passkey>,
) -> Option<(RequestChallengeResponse, PasskeyAuthentication)> {
    webauthn.start_passkey_authentication(credentials.as_slice()).ok()
}

/// Relies on webauthn-rs's `Webauthn::finish_passkey_authentication`: whether
/// the response answers the challenge of `state`.
#[verifier::external_body]
fn complete_passkey_authentication(
    webauthn: &Webauthn,
    response: &PublicKeyCredential,
    state: &PasskeyAuthentication,
) -> bool {
    webauthn.finish_passkey_authentication(response, state).is_ok()
}

/// Relies on serde_json::to_string on a `PasskeyRegistration`.
#[verifier::external_body]
fn registration_state_json(state: &PasskeyRegistration) -> Option<String> {
    serde_json::to_string(state).ok()
}

/// Relies on serde_json::from_str::<PasskeyRegistration>.
#[verifier::external_body]
fn read_registration_state(json: &str) -> Option<PasskeyRegistration> {
    serde_json::from_str::<PasskeyRegistration>(json).ok()
}

/// Relies on serde_json::to_string on a `PasskeyAuthentication`.
#[verifier::external_body]
fn authentication_state_json(state: &PasskeyAuthentication) -> Option<String> {
    serde_json::to_string(state).ok()
}

/// Relies on serde_json::from_str::<PasskeyAuthentication>.
#[verifier::external_body]
fn read_authentication_state(json: &str) -> Option<PasskeyAuthentication> {
    serde_json::from_str::<PasskeyAuthentication>(json).ok()
}

pub const REGISTRATION_SLOT: &'static str = "reg_stage";

pub const AUTHENTICATION_SLOT: &'static str = "auth_state";

pub open spec fn registration_slot() -> Seq<char> {
    REGISTRATION_SLOT@
}

pub open spec fn authentication_slot() -> Seq<char> {
    AUTHENTICATION_SLOT@
}

/// Why a ceremony step failed.
#[derive(Debug, Clone, Copy, PartialEq, Eq, Structural)]
pub enum CeremonyError {
    /// No ceremony of this kind is in progress in the session.
    NotStarted,
    /// The stored ceremony state could not be read back.
    Corrupt,
    /// The protocol library refused the challenge or the response.
    Rejected,
    /// The ceremony state or the credential could not be serialised.
    Encode,
}

/// The user a stored authentication state is bound to: the UUID text it
/// starts with.
pub open spec fn auth_target(raw: Seq<char>) -> Option<u128> {
    if raw.len() >= 36 {
        uuid_of_text(raw.subrange(0, 36))
    } else {
        None
    }
}

/// The user the session's authentication ceremony is bound to, if one is in
/// progress.
pub open spec fn bound_target(m: Map<Seq<char>, Seq<char>>) -> Option<u128> {
    if m.contains_key(authentication_slot()) {
        auth_target(m[authentication_slot()])
    } else {
        None
    }
}

/// The ids, in order, of the stored credential texts that read back.
pub open spec fn excluded_ids(stored: Seq<String>) -> Seq<Seq<u8>>
    decreases stored.len(),
{
    if stored.len() == 0 {
        Seq::empty()
    } else {
        let rest = excluded_ids(stored.drop_last());
        match cred_id_of(stored.last()@) {
            Some(id) => rest.push(id),
            None => rest,
        }
    }
}

/// Byte strings seen as their contents.
pub open spec fn byte_views(ids: Seq<Vec<u8>>) -> Seq<Seq<u8>> {
    ids.map_values(|v: Vec<u8>| v@)
}

/// The ids of the stored credentials that read back, which a new
/// registration challenge excludes; texts that do not read back are skipped.
pub fn excluded_credentials(stored_credentials: &Vec<String>) -> (r: Vec<Vec<u8>>)
    ensures
        byte_views(r@) == excluded_ids(stored_credentials@),
{
    let mut ids: Vec<Vec<u8>> = Vec::new();
    let mut i: usize = 0;
    while i < stored_credentials.len()
        invariant
            i <= stored_credentials@.len(),
            byte_views(ids@) == excluded_ids(stored_credentials@.subrange(0, i as int)),
        decreases stored_credentials@.len() - i,
    {
        proof {
            let next = stored_credentials@.subrange(0, i + 1);
            assert(next.drop_last() =~= stored_credentials@.subrange(0, i as int));
            assert(next.last() == stored_credentials@[i as int]);
        }
        let ghost before = ids@;
        match stored_cred_id(stored_credentials[i].as_str()) {
            Some(id) => {
                ids.push(id);
                proof {
                    assert(byte_views(ids@) =~= byte_views(before).push(ids@.last()@));
                }
            },
            None => {},
        }
        i = i + 1;
    }
    proof {
        assert(stored_credentials@.subrange(0, stored_credentials@.len() as int) =~= stored_credentials@);
    }
    ids
}

/// The stored credentials that read back.
fn allowed_credentials(stored_credentials: &Vec<String>) -> Vec<Passkey> {
    let mut passkeys: Vec<Passkey> = Vec::new();
    let mut i: usize = 0;
    while i < stored_credentials.len()
        decreases stored_credentials@.len() - i,
    {
        if let Some(passkey) = read_passkey(stored_credentials[i].as_str()) {
            passkeys.push(passkey);
        }
        i = i + 1;
    }
    passkeys
}

/// Keeps a registration challenge's state as the one the session will finish,
/// replacing any earlier one.
pub fn store_registration_state(session: &mut SessionStore, state_json: String)
    requires
        old(session).wf(),
    ensures
        final(session).wf(),
        final(session)@ == old(session)@.insert(registration_slot(), state_json@),
{
    session.insert(REGISTRATION_SLOT, state_json);
}

/// Starts adding a passkey for the signed-in user. The challenge excludes the
/// user's stored credentials and is bound to the user's id and address; its
/// state replaces any earlier registration state in the session.
pub fn start_registration(
    session: &mut SessionStore,
    webauthn: &Webauthn,
    userid: u128,
    email: &str,
    stored_credentials: &Vec<String>,
) -> (r: Result<CreationChallengeResponse, CeremonyError>)
    requires
        old(session).wf(),
    ensures
        final(session).wf(),
        match r {
            Ok(_) => final(session)@.contains_key(registration_slot()) && final(session)@
                == old(session)@.insert(registration_slot(), final(session)@[registration_slot()]),
            Err(e) => (e == CeremonyError::Rejected || e == CeremonyError::Encode)
                && final(session)@ == old(session)@.remove(registration_slot()),
        },
{
    session.remove(REGISTRATION_SLOT);
    let exclude = excluded_credentials(stored_credentials);
    let (challenge, state) = match begin_passkey_registration(webauthn, userid, email, exclude) {
        Some(pair) => pair,
        None => return Err(CeremonyError::Rejected),
    };
    let state_json = match registration_state_json(&state) {
        Some(j) => j,
        None => return Err(CeremonyError::Encode),
    };
    store_registration_state(session, state_json);
    proof {
        assert(session@ =~= old(session)@.insert(registration_slot(), session@[registration_slot()]));
    }
    Ok(challenge)
}

/// Turns the protocol library's answer to a registration response into the
/// ceremony's result: the new credential where it accepted, a rejection where
/// it did not.
pub fn registration_verdict(accepted: Option<Passkey>) -> (r: Result<Passkey, CeremonyError>)
    ensures
        match accepted {
            Some(p) => r == Ok::<Passkey, CeremonyError>(p),
            None => r == Err::<Passkey, CeremonyError>(CeremonyError::Rejected),
        },
{
    match accepted {
        Some(p) => Ok(p),
        None => Err(CeremonyError::Rejected),
    }
}

/// Finishes adding a passkey: the response is checked against the session's
/// registration state, which is used up whatever the outcome. Returns the new
/// credential, serialised for storage.
pub fn finish_registration(
    session: &mut SessionStore,
    webauthn: &Webauthn,
    response: &RegisterPublicKeyCredential,
) -> (r: Result<String, CeremonyError>)
    requires
        old(session).wf(),
    ensures
        final(session).wf(),
        final(session)@ == old(session)@.remove(registration_slot()),
        r == Err::<String, CeremonyError>(CeremonyError::NotStarted) <==> !old(session)@.contains_key(
            registration_slot(),
        ),
{
    let raw = match session.remove(REGISTRATION_SLOT) {
        Some(raw) => raw,
        None => return Err(CeremonyError::NotStarted),
    };
    let state = match read_registration_state(raw.as_str()) {
        Some(s) => s,
        None => return Err(CeremonyError::Corrupt),
    };
    let passkey = match registration_verdict(complete_passkey_registration(webauthn, response, &state)) {
        Ok(p) => p,
        Err(e) => return Err(e),
    };
    match passkey_json(&passkey) {
        Some(j) => Ok(j),
        None => Err(CeremonyError::Encode),
    }
}

/// Starts a passkey login for the account of the pending login address, whose
/// id and stored credentials the caller looked up. Without a pending address
/// nothing starts. The challenge admits only that account's credentials and its
/// state is bound to the account's id; the pending address is used up.
pub fn start_login(
    session: &mut SessionStore,
    webauthn: &Webauthn,
    userid: u128,
    stored_credentials: &Vec<String>,
) -> (r: Result<RequestChallengeResponse, CeremonyError>)
    requires
        old(session).wf(),
    ensures
        final(session).wf(),
        match r {
            Ok(_) => {
                &&& final(session)@.contains_key(authentication_slot())
                &&& final(session)@ == old(session)@.remove(LoginEmail::slot()).insert(
                    authentication_slot(),
                    final(session)@[authentication_slot()],
                )
                &&& bound_target(final(session)@) == Some(userid)
            },
            Err(_) => final(session)@ == old(session)@,
        },
        !old(session)@.contains_key(LoginEmail::slot()) ==> r
            == Err::<RequestChallengeResponse, CeremonyError>(CeremonyError::NotStarted),
        corrupt::<LoginEmail>(old(session)@) ==> r == Err::<RequestChallengeResponse, CeremonyError>(
            CeremonyError::Corrupt,
        ),
        r is Ok ==> old(session)@.contains_key(LoginEmail::slot()) && !corrupt::<LoginEmail>(
            old(session)@,
        ),
{
    match LoginEmail::get(session) {
        Ok(Some(_)) => {},
        Ok(None) => return Err(CeremonyError::NotStarted),
        Err(_) => return Err(CeremonyError::Corrupt),
    }
    let allowed = allowed_credentials(stored_credentials);
    let (challenge, state) = match begin_passkey_authentication(webauthn, &allowed) {
        Some(pair) => pair,
        None => return Err(CeremonyError::Rejected),
    };
    let state_json = match authentication_state_json(&state) {
        Some(j) => j,
        None => return Err(CeremonyError::Encode),
    };
    let mut framed = uuid_text(userid);
    let ghost target_text = framed@;
    proof {
        lemma_uuid_text_len(userid);
    }
    framed.append(state_json.as_str());
    proof {
        assert(framed@.subrange(0, 36) =~= target_text);
    }
    LoginEmail::remove(session);
    session.remove(AUTHENTICATION_SLOT);
    session.insert(AUTHENTICATION_SLOT, framed);
    proof {
        assert(session@ =~= old(session)@.remove(LoginEmail::slot()).insert(
            authentication_slot(),
            session@[authentication_slot()],
        ));
    }
    Ok(challenge)
}

/// Finishes a passkey login: the response is checked against the session's
/// authentication state, which is used up whatever the outcome. On success the
/// user to sign in is the one the ceremony was bound to when it started; no
/// user id the response carries is consulted.
pub fn finish_login(
    session: &mut SessionStore,
    webauthn: &Webauthn,
    response: &PublicKeyCredential,
) -> (r: Result<u128, CeremonyError>)
    requires
        old(session).wf(),
    ensures
        final(session).wf(),
        final(session)@ == old(session)@.remove(authentication_slot()),
        r == Err::<u128, CeremonyError>(CeremonyError::NotStarted) <==> !old(session)@.contains_key(
            authentication_slot(),
        ),
        r is Ok ==> bound_target(old(session)@) == Some(r->Ok_0),
        old(session)@.contains_key(authentication_slot()) && bound_target(old(session)@) is None
            ==> r == Err::<u128, CeremonyError>(CeremonyError::Corrupt),
{
    let raw = match session.remove(AUTHENTICATION_SLOT) {
        Some(raw) => raw,
        None => return Err(CeremonyError::NotStarted),
    };
    let len = raw.as_str().unicode_len();
    if len < 36 {
        return Err(CeremonyError::Corrupt);
    }
    let target_text = raw.as_str().substring_char(0, 36);
    let userid = match parse_uuid(target_text) {
        Some(u) => u,
        None => return Err(CeremonyError::Corrupt),
    };
    let state_text = raw.as_str().substring_char(36, len);
    let state = match read_authentication_state(state_text) {
        Some(s) => s,
        None => return Err(CeremonyError::Corrupt),
    };
    let accepted = complete_passkey_authentication(webauthn, response, &state);
    login_verdict(userid, accepted)
}

/// Turns the protocol library's verdict on a login response into the
/// ceremony's result: the bound user where it accepted, a rejection where it
/// did not.
pub fn login_verdict(target: u128, accepted: bool) -> (r: Result<u128, CeremonyError>)
    ensures
        accepted ==> r == Ok::<u128, CeremonyError>(target),
        !accepted ==> r == Err::<u128, CeremonyError>(CeremonyError::Rejected),
{
    if accepted {
        Ok(target)
    } else {
        Err(CeremonyError::Rejected)
    }
}

/// Of two registration ceremonies started one after the other, only the state
/// of the second is left for a finish to check a response against.
pub proof fn lemma_later_registration_replaces_earlier(
    m: Map<Seq<char>, Seq<char>>,
    first: Seq<char>,
    second: Seq<char>,
)
    ensures
        m.insert(registration_slot(), first).insert(registration_slot(), second)[registration_slot()]
            == second,
{
}

} // verus!
