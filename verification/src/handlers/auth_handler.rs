//! Logging in with a one-time password: issuing the password, and the steps
//! from a password handed in to a token handed out.
//!
//! Random numbers and password hashes come from the `rand` and `bcrypt`
//! crates, through the trusted functions of this module.

use crate::ids::{format_uuid, hyphenated, Id};
use crate::models::{AuthResponse, SendOtpRequest, StoreError, User, VerifyOtpRequest};
use crate::text::{decimal_text, push_digits};
use vstd::prelude::*;

verus! {

#[verifier::external_type_specification]
#[verifier::external_body]
pub struct ExBcryptError(bcrypt::BcryptError);

/// The largest number that a one-time password is made from.
pub const MAX_OTP: u32 = 999_999;

/// Whether `text` is a one-time password: six decimal digits.
pub open spec fn is_otp(text: Seq<char>) -> bool {
    exists|number: u32| number <= MAX_OTP && text == decimal_text(number as nat, 6)
}

/// Whether the password `password` is the one that `hash` was made from, as
/// `bcrypt::verify` finds it; `None` where `bcrypt::verify` reports an error,
/// as it does for a hash that it cannot read.
pub uninterp spec fn bcrypt_accepts(password: Seq<char>, hash: Seq<char>) -> Option<bool>;

/// Calls `rand::Rng::gen_range` on the generator of the current thread.
/// Trusted: the number drawn lies in the closed range from zero to `max`.
/// Which number it is differs from call to call.
#[verifier::external_body]
fn random_up_to(max: u32) -> (number: u32)
    ensures
        number <= max,
{
    rand::Rng::gen_range(&mut rand::thread_rng(), 0..=max)
}

/// Calls `bcrypt::hash` with the default cost of the crate.
/// Trusted: whether a hash comes back is open, and which, since the salt is
/// drawn from the system's randomness and drawing it can fail; but a hash
/// that comes back is one that `bcrypt::verify` accepts for the password.
#[verifier::external_body]
fn hash_password(password: &str) -> (hash: Result<String, bcrypt::BcryptError>)
    ensures
        hash matches Ok(text) ==> bcrypt_accepts(password@, text@) == Some(true),
{
    bcrypt::hash(password, bcrypt::DEFAULT_COST)
}

/// Calls `bcrypt::verify`.
/// Trusted: the verdict is a function of the password and the hash alone,
/// named by [`bcrypt_accepts`]; an error stands for a hash that cannot be
/// read.
#[verifier::external_body]
fn check_password(password: &str, hash: &str) -> (verdict: Result<bool, bcrypt::BcryptError>)
    ensures
        match verdict {
            Ok(accepted) => bcrypt_accepts(password@, hash@) == Some(accepted),
            Err(_) => bcrypt_accepts(password@, hash@) is None,
        },
{
    bcrypt::verify(password, hash)
}

/// Writes a number as a one-time password: its six lowest decimal digits,
/// with zeros in front where the number is short.
pub fn format_otp(number: u32) -> (otp: String)
    ensures
        otp@ == decimal_text(number as nat, 6),
        number <= MAX_OTP ==> is_otp(otp@),
{
    let mut otp = String::new();
    push_digits(&mut otp, number as u128, 6, 10);
    assert(otp@ =~= decimal_text(number as nat, 6));
    otp
}

/// Draws a new one-time password.
pub fn generate_otp() -> (otp: String)
    ensures
        is_otp(otp@),
{
    format_otp(random_up_to(MAX_OTP))
}

/// A one-time password for a phone number, with the hash it is stored under.
#[derive(Debug, PartialEq, Eq)]
pub struct IssuedOtp {
    /// The phone number that asked for the password.
    pub phone_number: String,
    /// The password, to be passed on to the user.
    pub otp: String,
    /// Its hash, to be stored for the phone number.
    pub otp_hash: String,
}

/// Issues a one-time password for the phone number of `request`: draws one
/// and hashes it. `None` where the hash could not be made; the request then
/// fails.
pub fn send_otp(request: SendOtpRequest) -> (issued: Option<IssuedOtp>)
    ensures
        issued matches Some(issued) ==> {
            &&& issued.phone_number@ == request.phone_number@
            &&& is_otp(issued.otp@)
            &&& bcrypt_accepts(issued.otp@, issued.otp_hash@) == Some(true)
        },
{
    let otp = generate_otp();
    let hashed = match hash_password(otp.as_str()) {
        Ok(otp_hash) => Some(otp_hash),
        Err(_) => None,
    };
    otp_hashed(request, otp, hashed)
}

/// What follows the hashing of a one-time password: `hashed` is the hash of
/// `otp`, and `None` where the hash could not be made. With a hash, the
/// password is issued for the phone number of `request`; without one,
/// nothing is issued.
pub fn otp_hashed(request: SendOtpRequest, otp: String, hashed: Option<String>) -> (issued: Option<
    IssuedOtp,
>)
    ensures
        match hashed {
            Some(otp_hash) => issued matches Some(issued) && issued.phone_number@
                == request.phone_number@ && issued.otp@ == otp@ && issued.otp_hash@ == otp_hash@,
            None => issued is None,
        },
{
    match hashed {
        Some(otp_hash) => Some(IssuedOtp { phone_number: request.phone_number, otp, otp_hash }),
        None => None,
    }
}

/// How a login with a one-time password ends.
#[derive(Debug, PartialEq, Eq)]
pub enum VerifyOtpReply {
    /// 200, with the token and the user's identifier.
    Authenticated(AuthResponse),
    /// 401: the password is not the one that was issued.
    InvalidOtp,
    /// 404: no password is on record for the phone number.
    NotFound,
    /// 500: the user store failed.
    Failed,
}

/// Where a login stands.
#[derive(Clone, Copy, Debug, PartialEq, Eq, Structural)]
pub enum VerifyOtpState {
    /// The stored hash has been asked for.
    AwaitingOtp,
    /// The user with the phone number has been asked for.
    AwaitingUser,
    /// A new user for the phone number is being made.
    AwaitingNewUser,
    /// The used password is being removed.
    AwaitingRemoval { user_id: Id },
    /// A token for the user is being issued.
    AwaitingToken { user_id: Id },
    /// The reply has been given.
    Done,
}

/// What a store or the token issuer has answered.
#[derive(Debug, PartialEq, Eq)]
pub enum VerifyOtpEvent {
    /// The hash on record for the phone number, if there is one.
    Otp(Result<Option<String>, StoreError>),
    /// The user with the phone number, if there is one.
    User(Result<Option<User>, StoreError>),
    /// The identifier of the user who was made.
    NewUser(Id),
    /// The used password has been removed, or could not be: it does not
    /// matter which.
    Removed,
    /// The token that was issued.
    Token(String),
}

/// What is to be done next for a login.
#[derive(Debug, PartialEq, Eq)]
pub enum VerifyOtpAction {
    /// Look up the hash on record for the phone number.
    FindOtp,
    /// Look up the user with the phone number.
    FindUser,
    /// Make a user for the phone number.
    CreateUser,
    /// Remove the password on record for the phone number.
    RemoveOtp,
    /// Issue a token for this user.
    IssueToken { user_id: Id },
    /// Answer the request.
    Reply(VerifyOtpReply),
}

/// Mathematical model of a [`VerifyOtpEvent`], as far as the steps read it.
pub enum VerifyOtpEventView {
    /// The hash on record; `None` where there is none or the store failed.
    Otp(Option<Seq<char>>),
    /// The user on record: `Ok(None)` where there is none, `Err` where the
    /// store failed.
    User(Result<Option<Id>, ()>),
    NewUser(Id),
    Removed,
    Token(Seq<char>),
}

impl View for VerifyOtpEvent {
    type V = VerifyOtpEventView;

    open spec fn view(&self) -> VerifyOtpEventView {
        match self {
            VerifyOtpEvent::Otp(Ok(Some(hash))) => VerifyOtpEventView::Otp(Some(hash@)),
            VerifyOtpEvent::Otp(_) => VerifyOtpEventView::Otp(None),
            VerifyOtpEvent::User(Ok(Some(user))) => VerifyOtpEventView::User(Ok(Some(user.id))),
            VerifyOtpEvent::User(Ok(None)) => VerifyOtpEventView::User(Ok(None)),
            VerifyOtpEvent::User(Err(_)) => VerifyOtpEventView::User(Err(())),
            VerifyOtpEvent::NewUser(user_id) => VerifyOtpEventView::NewUser(*user_id),
            VerifyOtpEvent::Removed => VerifyOtpEventView::Removed,
            VerifyOtpEvent::Token(token) => VerifyOtpEventView::Token(token@),
        }
    }
}

/// Mathematical model of a [`VerifyOtpAction`].
pub enum VerifyOtpActionView {
    FindOtp,
    FindUser,
    CreateUser,
    RemoveOtp,
    IssueToken { user_id: Id },
    Authenticated { token: Seq<char>, user: Seq<char> },
    InvalidOtp,
    NotFound,
    Failed,
}

impl View for VerifyOtpAction {
    type V = VerifyOtpActionView;

    open spec fn view(&self) -> VerifyOtpActionView {
        match self {
            VerifyOtpAction::FindOtp => VerifyOtpActionView::FindOtp,
            VerifyOtpAction::FindUser => VerifyOtpActionView::FindUser,
            VerifyOtpAction::CreateUser => VerifyOtpActionView::CreateUser,
            VerifyOtpAction::RemoveOtp => VerifyOtpActionView::RemoveOtp,
            VerifyOtpAction::IssueToken { user_id } => VerifyOtpActionView::IssueToken {
                user_id: *user_id,
            },
            VerifyOtpAction::Reply(VerifyOtpReply::Authenticated(response)) =>
                VerifyOtpActionView::Authenticated {
                    token: response.token@,
                    user: response.user_id@,
                },
            VerifyOtpAction::Reply(VerifyOtpReply::InvalidOtp) => VerifyOtpActionView::InvalidOtp,
            VerifyOtpAction::Reply(VerifyOtpReply::NotFound) => VerifyOtpActionView::NotFound,
            VerifyOtpAction::Reply(VerifyOtpReply::Failed) => VerifyOtpActionView::Failed,
        }
    }
}

/// One step of a login: the state after `event`, and what is to be done.
///
/// `otp` is the password that was handed in. An answer that does not belong
/// to the question that is open fails the login.
pub open spec fn verify_step(otp: Seq<char>, state: VerifyOtpState, event: VerifyOtpEventView) -> (
    VerifyOtpState,
    VerifyOtpActionView,
) {
    match (state, event) {
        (VerifyOtpState::AwaitingOtp, VerifyOtpEventView::Otp(Some(hash))) => if bcrypt_accepts(
            otp,
            hash,
        ) == Some(true) {
            (VerifyOtpState::AwaitingUser, VerifyOtpActionView::FindUser)
        } else {
            (VerifyOtpState::Done, VerifyOtpActionView::InvalidOtp)
        },
        (VerifyOtpState::AwaitingOtp, VerifyOtpEventView::Otp(None)) => (
            VerifyOtpState::Done,
            VerifyOtpActionView::NotFound,
        ),
        (VerifyOtpState::AwaitingUser, VerifyOtpEventView::User(Ok(Some(user_id)))) => (
            VerifyOtpState::AwaitingRemoval { user_id },
            VerifyOtpActionView::RemoveOtp,
        ),
        (VerifyOtpState::AwaitingUser, VerifyOtpEventView::User(Ok(None))) => (
            VerifyOtpState::AwaitingNewUser,
            VerifyOtpActionView::CreateUser,
        ),
        (VerifyOtpState::AwaitingNewUser, VerifyOtpEventView::NewUser(user_id)) => (
            VerifyOtpState::AwaitingRemoval { user_id },
            VerifyOtpActionView::RemoveOtp,
        ),
        (VerifyOtpState::AwaitingRemoval { user_id }, VerifyOtpEventView::Removed) => (
            VerifyOtpState::AwaitingToken { user_id },
            VerifyOtpActionView::IssueToken { user_id },
        ),
        (VerifyOtpState::AwaitingToken { user_id }, VerifyOtpEventView::Token(token)) => (
            VerifyOtpState::Done,
            VerifyOtpActionView::Authenticated { token, user: hyphenated(user_id) },
        ),
        _ => (VerifyOtpState::Done, VerifyOtpActionView::Failed),
    }
}

/// A login with a one-time password, from the request to the reply.
#[derive(Debug, PartialEq, Eq)]
pub struct VerifyOtp {
    request: VerifyOtpRequest,
    state: VerifyOtpState,
}

impl VerifyOtp {
    /// The phone number that asks to log in.
    pub closed spec fn phone_number(&self) -> Seq<char> {
        self.request.phone_number@
    }

    /// The password that was handed in.
    pub closed spec fn otp(&self) -> Seq<char> {
        self.request.otp@
    }

    /// Where the login stands.
    pub closed spec fn state(&self) -> VerifyOtpState {
        self.state
    }

    /// Starts a login. The first thing to do is to look up the hash on
    /// record: [`VerifyOtpAction::FindOtp`].
    pub fn new(request: VerifyOtpRequest) -> (login: Self)
        ensures
            login.phone_number() == request.phone_number@,
            login.otp() == request.otp@,
            login.state() == VerifyOtpState::AwaitingOtp,
    {
        VerifyOtp { request, state: VerifyOtpState::AwaitingOtp }
    }

    /// The request that this login serves.
    pub fn request(&self) -> (request: &VerifyOtpRequest)
        ensures
            request.phone_number@ == self.phone_number(),
            request.otp@ == self.otp(),
    {
        &self.request
    }

    /// Where the login stands.
    pub fn current_state(&self) -> (state: VerifyOtpState)
        ensures
            state == self.state(),
    {
        self.state
    }

    /// What follows the check of the password against the hash on record:
    /// `verdict` is whether the hash accepts the password, and `None` where
    /// the hash could not be read. Only an accepted password goes on.
    pub fn otp_checked(verdict: Option<bool>) -> (next: (VerifyOtpState, VerifyOtpAction))
        ensures
            next.0 == if verdict == Some(true) {
                VerifyOtpState::AwaitingUser
            } else {
                VerifyOtpState::Done
            },
            next.1@ == if verdict == Some(true) {
                VerifyOtpActionView::FindUser
            } else {
                VerifyOtpActionView::InvalidOtp
            },
    {
        match verdict {
            Some(true) => (VerifyOtpState::AwaitingUser, VerifyOtpAction::FindUser),
            _ => (VerifyOtpState::Done, VerifyOtpAction::Reply(VerifyOtpReply::InvalidOtp)),
        }
    }

    /// Takes the login one step further with what a store or the token
    /// issuer has answered.
    pub fn step(&mut self, event: VerifyOtpEvent) -> (action: VerifyOtpAction)
        ensures
            final(self).phone_number() == old(self).phone_number(),
            final(self).otp() == old(self).otp(),
            (final(self).state(), action@) == verify_step(
                old(self).otp(),
                old(self).state(),
                event@,
            ),
    {
        let (state, action) = match (self.state, event) {
            (VerifyOtpState::AwaitingOtp, VerifyOtpEvent::Otp(Ok(Some(hash)))) => {
                let verdict = match check_password(self.request.otp.as_str(), hash.as_str()) {
                    Ok(accepted) => Some(accepted),
                    Err(_) => None,
                };
                Self::otp_checked(verdict)
            },
            (VerifyOtpState::AwaitingOtp, VerifyOtpEvent::Otp(_)) => (
                VerifyOtpState::Done,
                VerifyOtpAction::Reply(VerifyOtpReply::NotFound),
            ),
            (VerifyOtpState::AwaitingUser, VerifyOtpEvent::User(Ok(Some(user)))) => (
                VerifyOtpState::AwaitingRemoval { user_id: user.id },
                VerifyOtpAction::RemoveOtp,
            ),
            (VerifyOtpState::AwaitingUser, VerifyOtpEvent::User(Ok(None))) => (
                VerifyOtpState::AwaitingNewUser,
                VerifyOtpAction::CreateUser,
            ),
            (VerifyOtpState::AwaitingNewUser, VerifyOtpEvent::NewUser(user_id)) => (
                VerifyOtpState::AwaitingRemoval { user_id },
                VerifyOtpAction::RemoveOtp,
            ),
            (VerifyOtpState::AwaitingRemoval { user_id }, VerifyOtpEvent::Removed) => (
                VerifyOtpState::AwaitingToken { user_id },
                VerifyOtpAction::IssueToken { user_id },
            ),
            (VerifyOtpState::AwaitingToken { user_id }, VerifyOtpEvent::Token(token)) => (
                VerifyOtpState::Done,
                VerifyOtpAction::Reply(
                    VerifyOtpReply::Authenticated(
                        AuthResponse { token, user_id: format_uuid(user_id) },
                    ),
                ),
            ),
            _ => (VerifyOtpState::Done, VerifyOtpAction::Reply(VerifyOtpReply::Failed)),
        };
        self.state = state;
        action
    }
}

/// Takes in a request to log in with a one-time password: the login that
/// serves it, and the first thing to do for it.
pub fn verify_otp(request: VerifyOtpRequest) -> (start: (VerifyOtp, VerifyOtpAction))
    ensures
        start.0.phone_number() == request.phone_number@,
        start.0.otp() == request.otp@,
        start.0.state() == VerifyOtpState::AwaitingOtp,
        start.1 == VerifyOtpAction::FindOtp,
{
    (VerifyOtp::new(request), VerifyOtpAction::FindOtp)
}

} // verus!
