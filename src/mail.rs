use vstd::prelude::*;

use crate::error::AuthError;

verus! {

#[verifier::external_type_specification]
#[verifier::external_body]
pub struct ExAddress(lettre::Address);

#[verifier::external_type_specification]
#[verifier::external_body]
pub struct ExMailbox(lettre::message::Mailbox);

/// Whether lettre accepts the text as an email address.
pub uninterp spec fn is_mail_address(s: Seq<char>) -> bool;

/// Relies on lettre's `FromStr for Address`: it succeeds exactly on the texts
/// its address check accepts.
#[verifier::external_body]
fn parse_address(s: &str) -> (r: Option<lettre::Address>)
    ensures
        r is Some <==> is_mail_address(s@),
{
    s.parse::<lettre::Address>().ok()
}

/// Relies on lettre's `Mailbox::new`: a mailbox with no display name.
#[verifier::external_body]
fn unnamed_mailbox(address: lettre::Address) -> (r: lettre::message::Mailbox) {
    lettre::message::Mailbox::new(None, address)
}

/// A message the core hands to the mail transport.
pub struct OutgoingMail {
    pub to: String,
    pub subject: String,
    pub body: String,
}

/// The mailbox for a user's address, if the address parses.
pub fn parse_email_to_mailbox(email: &str) -> (r: Result<lettre::message::Mailbox, AuthError>)
    ensures
        r is Ok <==> is_mail_address(email@),
        r is Err ==> r == Err::<lettre::message::Mailbox, AuthError>(AuthError::InvalidEmail),
{
    match parse_address(email) {
        Some(address) => Ok(unnamed_mailbox(address)),
        None => Err(AuthError::InvalidEmail),
    }
}

/// A message to `email`, if mail can be addressed to it.
pub fn build_email_for_user(email: &str, subject: &str, body: &str) -> (r: Result<OutgoingMail, AuthError>)
    ensures
        match r {
            Ok(m) => is_mail_address(email@) && m.to@ == email@ && m.subject@ == subject@
                && m.body@ == body@,
            Err(e) => !is_mail_address(email@) && e == AuthError::InvalidEmail,
        },
{
    match parse_address(email) {
        Some(_) => Ok(OutgoingMail {
            to: email.to_owned(),
            subject: subject.to_owned(),
            body: body.to_owned(),
        }),
        None => Err(AuthError::InvalidEmail),
    }
}

} // verus!
