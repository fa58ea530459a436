use vstd::prelude::*;
use vstd::string::StringExecFns;

use crate::csrf_token::CsrfToken;
use crate::error::AuthError;
use crate::identity::{email_key, lower_of};
use crate::mail::{build_email_for_user, is_mail_address, OutgoingMail};
use crate::session_value::{corrupt, stored, SessionError, SessionValue};
use crate::store::SessionStore;
use crate::values::{ChangeEmail, LoginCode, LoginEmail, RegistrationEmail};

verus! {

pub const REGISTRATION_NOTICE_SUBJECT: &'static str = "Silly Goals Registration";

pub const REGISTRATION_NOTICE_BODY: &'static str = "Someone tried to register a new Silly Goals account with this email. If this was you, Good News! you're already registered, and you can just login instead. If not, that's a little weird, but we stopped them. You might want to check for weird activity on your email";

pub const REGISTRATION_CODE_SUBJECT: &'static str = "Registration Code for Silly Goals";

pub const LOGIN_NOTICE_SUBJECT: &'static str = "Login Attempt at Silly Goals";

pub const LOGIN_NOTICE_BODY: &'static str = "Someone tried to use your email to login at Silly Goals. If this was you, you'll need to register first. Otherwise you might want to look for other weird activity on your email. They were not able to log in.";

pub const LOGIN_CODE_SUBJECT: &'static str = "Login Code for Silly Goals";

pub const CONFIRM_CODE_SUBJECT: &'static str = "Confirmation Code for Silly Goals";

/// The body of a mail that carries a one-time code.
pub open spec fn code_body(code: Seq<char>, purpose: Seq<char>) -> Seq<char> {
    "Use code "@ + code + purpose
}

/// What a code check decided.
pub enum CodeCheck {
    /// The flow's markers are gone: the flow has to start again.
    Restart,
    /// The submitted code is wrong: the form is shown again.
    Invalid,
    /// The code is right; holds the address it proves, in lower case.
    Verified(String),
}

/// A code check's decision, with its error, as values.
pub enum CheckOutcome {
    Restart,
    Invalid,
    Verified(Seq<char>),
    Failed(AuthError),
}

pub open spec fn outcome_of(r: Result<CodeCheck, AuthError>) -> CheckOutcome {
    match r {
        Ok(CodeCheck::Restart) => CheckOutcome::Restart,
        Ok(CodeCheck::Invalid) => CheckOutcome::Invalid,
        Ok(CodeCheck::Verified(e)) => CheckOutcome::Verified(e@),
        Err(e) => CheckOutcome::Failed(e),
    }
}

/// The session as a new registration or login flow leaves it: no code and no
/// pending address of either flow.
pub open spec fn cleared_for_new_flow(m: Map<Seq<char>, Seq<char>>) -> Map<Seq<char>, Seq<char>> {
    m.remove(LoginCode::slot()).remove(LoginEmail::slot()).remove(RegistrationEmail::slot())
}

/// The session without an email change in progress.
pub open spec fn cleared_email_change(m: Map<Seq<char>, Seq<char>>) -> Map<Seq<char>, Seq<char>> {
    m.remove(LoginCode::slot()).remove(ChangeEmail::slot())
}

/// The session's token matches the submitted one.
pub open spec fn token_accepted(m: Map<Seq<char>, Seq<char>>, token: Seq<char>) -> bool {
    stored::<CsrfToken>(m) == Some(token)
}

/// What checking `code` against a session decides, where the pending address
/// sits in the slot of `E`.
pub open spec fn code_outcome<E: SessionValue + View<V = Seq<char>>>(
    m: Map<Seq<char>, Seq<char>>,
    token: Seq<char>,
    code: Seq<char>,
) -> CheckOutcome {
    if !token_accepted(m, token) {
        CheckOutcome::Failed(AuthError::Forgery)
    } else if !m.contains_key(E::slot()) {
        CheckOutcome::Restart
    } else if corrupt::<E>(m) {
        CheckOutcome::Failed(AuthError::Session(SessionError::Corrupt))
    } else if !m.contains_key(LoginCode::slot()) {
        CheckOutcome::Restart
    } else if corrupt::<LoginCode>(m) {
        CheckOutcome::Failed(AuthError::Session(SessionError::Corrupt))
    } else if stored::<LoginCode>(m) != Some(code) {
        CheckOutcome::Invalid
    } else {
        CheckOutcome::Verified(lower_of(stored::<E>(m)->Some_0))
    }
}

/// The mail sent to `to`, where it is a valid address; the error otherwise.
pub open spec fn mail_to(
    r: Result<OutgoingMail, AuthError>,
    to: Seq<char>,
    subject: Seq<char>,
    body: Seq<char>,
) -> bool {
    match r {
        Ok(m) => is_mail_address(to) && m.to@ == to && m.subject@ == subject && m.body@ == body,
        Err(e) => !is_mail_address(to) && e == AuthError::InvalidEmail,
    }
}

/// Checks the anti-forgery token, then clears the markers of any flow in
/// progress, so that no code of an earlier flow can complete this one.
pub fn start_flow(session: &mut SessionStore, submitted_token: &str) -> (r: Result<(), AuthError>)
    requires
        old(session).wf(),
    ensures
        final(session).wf(),
        match r {
            Ok(_) => token_accepted(old(session)@, submitted_token@) && final(session)@
                == cleared_for_new_flow(old(session)@),
            Err(e) => !token_accepted(old(session)@, submitted_token@) && e == AuthError::Forgery
                && final(session)@ == old(session)@,
        },
{
    match CsrfToken::verify_from_session(session, submitted_token) {
        Ok(_) => {},
        Err(e) => return Err(e),
    }
    LoginCode::remove(session);
    LoginEmail::remove(session);
    RegistrationEmail::remove(session);
    Ok(())
}

/// Joins the parts of a mail body around a code.
fn code_mail_body(code: &LoginCode, purpose: &str) -> (r: String)
    ensures
        r@ == code_body(code@, purpose@),
{
    let mut body = String::from_str("Use code ");
    let digits = code.to_string();
    body.append(digits.as_str());
    body.append(purpose);
    body
}

/// Handles an address submitted for registration. A new address gets `code`
/// stored with it and mailed to it; an address that already has an account
/// gets a notice instead and the session is left as it was, so that the
/// submitter sees the same page either way.
pub fn register_email(
    session: &mut SessionStore,
    email: &str,
    already_registered: bool,
    code: &LoginCode,
) -> (r: Result<OutgoingMail, AuthError>)
    requires
        old(session).wf(),
    ensures
        final(session).wf(),
        already_registered ==> final(session)@ == old(session)@ && mail_to(
            r,
            email@,
            REGISTRATION_NOTICE_SUBJECT@,
            REGISTRATION_NOTICE_BODY@,
        ),
        !already_registered ==> final(session)@ == old(session)@.insert(
            LoginCode::slot(),
            LoginCode::encoded(code@),
        ).insert(RegistrationEmail::slot(), RegistrationEmail::encoded(email@))
            && LoginCode::decoded(LoginCode::encoded(code@)) == Some(code@)
            && RegistrationEmail::decoded(RegistrationEmail::encoded(email@)) == Some(email@) && mail_to(
            r,
            email@,
            REGISTRATION_CODE_SUBJECT@,
            code_body(code@, " to confirm your new account and log in."@),
        ),
{
    if already_registered {
        build_email_for_user(email, REGISTRATION_NOTICE_SUBJECT, REGISTRATION_NOTICE_BODY)
    } else {
        let registration_email = RegistrationEmail::from(email);
        code.save(session);
        registration_email.save(session);
        let body = code_mail_body(code, " to confirm your new account and log in.");
        build_email_for_user(email, REGISTRATION_CODE_SUBJECT, body.as_str())
    }
}

/// Checks a submitted registration code against the session.
pub fn finish_registration(session: &SessionStore, submitted_token: &str, code: &str) -> (r: Result<
    CodeCheck,
    AuthError,
>)
    requires
        session.wf(),
    ensures
        outcome_of(r) == code_outcome::<RegistrationEmail>(session@, submitted_token@, code@),
{
    match CsrfToken::verify_from_session(session, submitted_token) {
        Ok(_) => {},
        Err(e) => return Err(e),
    }
    let email = match RegistrationEmail::get(session) {
        Ok(Some(e)) => e,
        Ok(None) => return Ok(CodeCheck::Restart),
        Err(e) => return Err(AuthError::Session(e)),
    };
    let correct_code = match LoginCode::get(session) {
        Ok(Some(c)) => c,
        Ok(None) => return Ok(CodeCheck::Restart),
        Err(e) => return Err(AuthError::Session(e)),
    };
    if !correct_code.verify(code) {
        return Ok(CodeCheck::Invalid);
    }
    Ok(CodeCheck::Verified(email_key(email.as_str())))
}

/// Ends a registration whose account now exists.
pub fn complete_registration(session: &mut SessionStore)
    requires
        old(session).wf(),
    ensures
        final(session).wf(),
        final(session)@ == old(session)@.remove(RegistrationEmail::slot()).remove(
            LoginCode::slot(),
        ),
{
    RegistrationEmail::remove(session);
    LoginCode::remove(session);
}

/// Handles an address submitted for login. Where it belongs to an account,
/// the account's address becomes the pending login address; otherwise the
/// address gets a notice and the session is left as it was.
pub fn post_login(session: &mut SessionStore, email: &str, account_email: Option<&str>) -> (r:
    Result<Option<OutgoingMail>, AuthError>)
    requires
        old(session).wf(),
    ensures
        final(session).wf(),
        match account_email {
            Some(a) => final(session)@ == old(session)@.insert(
                LoginEmail::slot(),
                LoginEmail::encoded(a@),
            ) && LoginEmail::decoded(LoginEmail::encoded(a@)) == Some(a@) && r is Ok && r->Ok_0
                is None,
            None => final(session)@ == old(session)@ && match r {
                Ok(Some(m)) => is_mail_address(email@) && m.to@ == email@ && m.subject@
                    == LOGIN_NOTICE_SUBJECT@ && m.body@ == LOGIN_NOTICE_BODY@,
                Ok(None) => false,
                Err(e) => !is_mail_address(email@) && e == AuthError::InvalidEmail,
            },
        },
{
    match account_email {
        Some(a) => {
            let login_email = LoginEmail::from(a);
            login_email.save(session);
            Ok(None)
        },
        None => match build_email_for_user(email, LOGIN_NOTICE_SUBJECT, LOGIN_NOTICE_BODY) {
            Ok(m) => Ok(Some(m)),
            Err(e) => Err(e),
        },
    }
}

/// Stores `code` for the pending login and mails it to the login address; a
/// pending registration is dropped, so that only this flow's code is live.
/// Without a pending login nothing happens.
pub fn login_with_code(session: &mut SessionStore, code: &LoginCode) -> (r: Result<
    Option<OutgoingMail>,
    AuthError,
>)
    requires
        old(session).wf(),
    ensures
        final(session).wf(),
        !old(session)@.contains_key(LoginEmail::slot()) ==> final(session)@ == old(session)@ && r
            is Ok && r->Ok_0 is None,
        corrupt::<LoginEmail>(old(session)@) ==> final(session)@ == old(session)@ && r
            == Err::<Option<OutgoingMail>, AuthError>(AuthError::Session(SessionError::Corrupt)),
        stored::<LoginEmail>(old(session)@) is Some ==> {
            let e = stored::<LoginEmail>(old(session)@)->Some_0;
            &&& final(session)@ == old(session)@.remove(RegistrationEmail::slot()).insert(
                LoginCode::slot(),
                LoginCode::encoded(code@),
            )
            &&& LoginCode::decoded(LoginCode::encoded(code@)) == Some(code@)
            &&& match r {
                Ok(Some(m)) => is_mail_address(e) && m.to@ == e && m.subject@
                    == LOGIN_CODE_SUBJECT@ && m.body@ == code_body(
                    code@,
                    " to log in to your account."@,
                ),
                Ok(None) => false,
                Err(err) => !is_mail_address(e) && err == AuthError::InvalidEmail,
            }
        },
{
    let login_email = match LoginEmail::get(session) {
        Ok(Some(e)) => e,
        Ok(None) => return Ok(None),
        Err(e) => return Err(AuthError::Session(e)),
    };
    RegistrationEmail::remove(session);
    code.save(session);
    let body = code_mail_body(code, " to log in to your account.");
    match build_email_for_user(login_email.as_str(), LOGIN_CODE_SUBJECT, body.as_str()) {
        Ok(m) => Ok(Some(m)),
        Err(e) => Err(e),
    }
}

/// Checks a submitted login code against the session.
pub fn finish_login(session: &SessionStore, submitted_token: &str, code: &str) -> (r: Result<
    CodeCheck,
    AuthError,
>)
    requires
        session.wf(),
    ensures
        outcome_of(r) == code_outcome::<LoginEmail>(session@, submitted_token@, code@),
{
    match CsrfToken::verify_from_session(session, submitted_token) {
        Ok(_) => {},
        Err(e) => return Err(e),
    }
    let email = match LoginEmail::get(session) {
        Ok(Some(e)) => e,
        Ok(None) => return Ok(CodeCheck::Restart),
        Err(e) => return Err(AuthError::Session(e)),
    };
    let correct_code = match LoginCode::get(session) {
        Ok(Some(c)) => c,
        Ok(None) => return Ok(CodeCheck::Restart),
        Err(e) => return Err(AuthError::Session(e)),
    };
    if !correct_code.verify(code) {
        return Ok(CodeCheck::Invalid);
    }
    Ok(CodeCheck::Verified(email_key(email.as_str())))
}

/// Ends a login whose user is now signed in.
pub fn complete_login(session: &mut SessionStore)
    requires
        old(session).wf(),
    ensures
        final(session).wf(),
        final(session)@ == old(session)@.remove(LoginEmail::slot()).remove(LoginCode::slot()),
{
    LoginEmail::remove(session);
    LoginCode::remove(session);
}

/// What checking `code` against a session with an email change in progress
/// decides.
pub open spec fn email_change_outcome(
    m: Map<Seq<char>, Seq<char>>,
    token: Seq<char>,
    code: Seq<char>,
) -> CheckOutcome {
    if !token_accepted(m, token) {
        CheckOutcome::Failed(AuthError::Forgery)
    } else if !m.contains_key(LoginCode::slot()) {
        CheckOutcome::Restart
    } else if corrupt::<LoginCode>(m) {
        CheckOutcome::Failed(AuthError::Session(SessionError::Corrupt))
    } else if stored::<LoginCode>(m) != Some(code) {
        CheckOutcome::Invalid
    } else if !m.contains_key(ChangeEmail::slot()) {
        CheckOutcome::Restart
    } else if corrupt::<ChangeEmail>(m) {
        CheckOutcome::Failed(AuthError::Session(SessionError::Corrupt))
    } else {
        CheckOutcome::Verified(lower_of(stored::<ChangeEmail>(m)->Some_0))
    }
}

/// What a request to change the account's address led to.
pub enum EmailChangeStep {
    /// Another account has the address.
    Unavailable,
    /// A confirmation code went to the new address.
    CodeSent(OutgoingMail),
}

/// Drops any email change in progress, with its code.
pub fn reset_email_change(session: &mut SessionStore)
    requires
        old(session).wf(),
    ensures
        final(session).wf(),
        final(session)@ == cleared_email_change(old(session)@),
{
    LoginCode::remove(session);
    ChangeEmail::remove(session);
}

/// Handles a new address submitted for the signed-in account. Any change in
/// progress is dropped; a free address is stored, in lower case, with `code`,
/// and the code is mailed to it.
pub fn post_profile_edit_email(
    session: &mut SessionStore,
    submitted_token: &str,
    email: &str,
    email_taken: bool,
    code: &LoginCode,
) -> (r: Result<EmailChangeStep, AuthError>)
    requires
        old(session).wf(),
    ensures
        final(session).wf(),
        !token_accepted(old(session)@, submitted_token@) ==> final(session)@ == old(session)@ && r
            == Err::<EmailChangeStep, AuthError>(AuthError::Forgery),
        token_accepted(old(session)@, submitted_token@) && email_taken ==> final(session)@
            == cleared_email_change(old(session)@) && r is Ok && r->Ok_0 is Unavailable,
        token_accepted(old(session)@, submitted_token@) && !email_taken ==> {
            &&& final(session)@ == cleared_email_change(old(session)@).insert(
                ChangeEmail::slot(),
                ChangeEmail::encoded(lower_of(email@)),
            ).insert(LoginCode::slot(), LoginCode::encoded(code@))
            &&& ChangeEmail::decoded(ChangeEmail::encoded(lower_of(email@))) == Some(lower_of(email@))
            &&& LoginCode::decoded(LoginCode::encoded(code@)) == Some(code@)
            &&& match r {
                Ok(EmailChangeStep::CodeSent(m)) => is_mail_address(email@) && m.to@ == email@
                    && m.subject@ == CONFIRM_CODE_SUBJECT@ && m.body@ == code_body(
                    code@,
                    " to confirm your email address."@,
                ),
                Ok(EmailChangeStep::Unavailable) => false,
                Err(e) => !is_mail_address(email@) && e == AuthError::InvalidEmail,
            }
        },
{
    match CsrfToken::verify_from_session(session, submitted_token) {
        Ok(_) => {},
        Err(e) => return Err(e),
    }
    reset_email_change(session);
    if email_taken {
        return Ok(EmailChangeStep::Unavailable);
    }
    let new_email = email_key(email);
    let change_email = ChangeEmail::from(new_email.as_str());
    change_email.save(session);
    code.save(session);
    let body = code_mail_body(code, " to confirm your email address.");
    match build_email_for_user(email, CONFIRM_CODE_SUBJECT, body.as_str()) {
        Ok(m) => Ok(EmailChangeStep::CodeSent(m)),
        Err(e) => Err(e),
    }
}

/// Checks a submitted confirmation code for an email change.
pub fn post_profile_confirm_email(session: &SessionStore, submitted_token: &str, code: &str) -> (r:
    Result<CodeCheck, AuthError>)
    requires
        session.wf(),
    ensures
        outcome_of(r) == email_change_outcome(session@, submitted_token@, code@),
{
    match CsrfToken::verify_from_session(session, submitted_token) {
        Ok(_) => {},
        Err(e) => return Err(e),
    }
    let correct_code = match LoginCode::get(session) {
        Ok(Some(c)) => c,
        Ok(None) => return Ok(CodeCheck::Restart),
        Err(e) => return Err(AuthError::Session(e)),
    };
    if !correct_code.verify(code) {
        return Ok(CodeCheck::Invalid);
    }
    match ChangeEmail::get(session) {
        Ok(Some(e)) => Ok(CodeCheck::Verified(email_key(e.as_str()))),
        Ok(None) => Ok(CodeCheck::Restart),
        Err(e) => Err(AuthError::Session(e)),
    }
}

/// Starting a login or registration flow leaves no pending registration
/// address, login address or code behind, whatever flow was in progress.
pub proof fn lemma_new_flow_clears_markers(m: Map<Seq<char>, Seq<char>>)
    ensures
        !cleared_for_new_flow(m).contains_key(RegistrationEmail::slot()),
        !cleared_for_new_flow(m).contains_key(LoginEmail::slot()),
        !cleared_for_new_flow(m).contains_key(LoginCode::slot()),
{
}

} // verus!
