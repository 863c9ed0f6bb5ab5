use vstd::prelude::*;
use crate::email::Email;
use crate::email::is_valid_email;
use crate::errors::AuthAPIError;
use crate::errors::TwoFACodeStoreError;
use crate::errors::UserStoreError;
use crate::model::option_token_view;
use crate::model::outcome_of;
use crate::model::spec_logout;
use crate::model::spec_signup;
use crate::model::spec_verify_2fa;
use crate::model::spec_verify_token;
use crate::model::token_outcome_of;
use crate::password::Password;
use crate::password::is_valid_password;
use crate::stores::BannedTokenStore;
use crate::stores::TwoFACodeStore;
use crate::stores::UserStore;
use crate::token::TOKEN_TTL_SECONDS;
use crate::token::issue_token;
use crate::token::spec_validate_token;
use crate::token::token_of;
use crate::token::validate_token;
use crate::two_fa::LoginAttemptId;
use crate::two_fa::TwoFACode;
use crate::user::User;

verus! {

/// The signup request payload.
pub struct SignupRequest {
    pub email: String,
    pub password: String,
    pub requires_2fa: bool,
}

/// The signup confirmation payload.
pub struct SignupResponse {
    pub message: String,
}

/// The login request payload.
pub struct LoginRequest {
    pub email: String,
    pub password: String,
}

/// The verify-2fa request payload.
pub struct Verify2FARequest {
    pub email: String,
    pub login_attempt_id: String,
    pub two_fa_code: String,
}

/// A successful login outcome.  When the two-factor step is required, no
/// session token is issued yet: the response to the client carries only the
/// attempt id, while the code travels exclusively through the notifier
/// channel (the caller dispatches it to the user's address).
pub enum LoginResponse {
    RegularAuth { token: String },
    TwoFactorAuth { login_attempt_id: LoginAttemptId, code_for_notifier: TwoFACode },
}

/// Registers a new user: validates the credential value types, rejects a
/// duplicate email, and persists the user.  The outcome and the store's new
/// contents are exactly those of `spec_signup` for the stored credential the
/// backend chose, except that a backend failure is reported as
/// `UnexpectedError` with the store unchanged.
pub fn signup<U: UserStore>(user_store: &mut U, request: SignupRequest) -> (r: Result<
    SignupResponse,
    AuthAPIError,
>)
    ensures
        !(is_valid_email(request.email@) && is_valid_password(request.password@)) ==> r matches Err(
            AuthAPIError::InvalidCredentials,
        ),
        r matches Err(AuthAPIError::UnexpectedError) ==> final(user_store).users() == old(
            user_store,
        ).users(),
        r is Err && !(r matches Err(AuthAPIError::UnexpectedError)) ==> final(user_store).users()
            == old(user_store).users() && (forall|c: Seq<char>|
            (#[trigger] spec_signup(
                old(user_store).users(),
                request.email@,
                request.password@,
                request.requires_2fa,
                c,
            )).0 == outcome_of(r)),
        r is Ok ==> exists|c: Seq<char>|
            #![auto]
            U::cred_matches(c, request.password@) && spec_signup(
                old(user_store).users(),
                request.email@,
                request.password@,
                request.requires_2fa,
                c,
            ) == (Ok::<(), AuthAPIError>(()), final(user_store).users()),
        r matches Ok(resp) ==> resp.message@ == "User created successfully!"@,
{
    let email = match Email::parse(request.email) {
        Ok(e) => e,
        Err(_) => {
            return Err(AuthAPIError::InvalidCredentials);
        },
    };
    let password = match Password::parse(request.password) {
        Ok(p) => p,
        Err(_) => {
            return Err(AuthAPIError::InvalidCredentials);
        },
    };
    match user_store.get_user(&email) {
        Ok(_) => {
            return Err(AuthAPIError::UserAlreadyExists);
        },
        Err(UserStoreError::UserNotFound) => {},
        Err(_) => {
            return Err(AuthAPIError::UnexpectedError);
        },
    }
    let user = User::new(email, password, request.requires_2fa);
    match user_store.add_user(user) {
        Ok(_) => Ok(SignupResponse { message: String::from_str("User created successfully!") }),
        Err(_) => Err(AuthAPIError::UnexpectedError),
    }
}

/// Authenticates a user: validates the credential value types, checks the
/// password against the store, and either issues the session token directly
/// or, for a user that requires the two-factor step, mints and stores a
/// fresh challenge (superseding any prior one for that email) and reports
/// the attempt id together with the code to dispatch.
pub fn login<U: UserStore, T: TwoFACodeStore>(
    user_store: &U,
    two_fa_code_store: &mut T,
    request: LoginRequest,
    now: u64,
    key: &Vec<u8>,
) -> (r: Result<LoginResponse, AuthAPIError>)
    requires
        now + TOKEN_TTL_SECONDS <= u64::MAX,
    ensures
        ({
            let users = user_store.users();
            let good = is_valid_email(request.email@) && is_valid_password(request.password@);
            let known = users.contains_key(request.email@) && U::cred_matches(
                users[request.email@].0,
                request.password@,
            );
            let unexpected = r matches Err(AuthAPIError::UnexpectedError);
            &&& (!good ==> r matches Err(AuthAPIError::InvalidCredentials))
            &&& (good && !known && !unexpected ==> r matches Err(
                AuthAPIError::IncorrectCredentials,
            ))
            &&& (good && known && !users[request.email@].1 && !unexpected ==> (r matches Ok(
                LoginResponse::RegularAuth { token },
            ) && token@ == token_of(request.email@, (now + TOKEN_TTL_SECONDS) as u64, key@)))
            &&& (good && known && users[request.email@].1 && !unexpected ==> (r matches Ok(
                LoginResponse::TwoFactorAuth { login_attempt_id, code_for_notifier },
            ) && login_attempt_id@.len() == 36 && final(two_fa_code_store).codes() == old(
                two_fa_code_store,
            ).codes().insert(request.email@, (login_attempt_id@, code_for_notifier@))))
            &&& (!(r matches Ok(resp) && r->Ok_0 matches LoginResponse::TwoFactorAuth { .. })
                ==> final(two_fa_code_store).codes() == old(two_fa_code_store).codes())
        }),
{
    let email = match Email::parse(request.email) {
        Ok(e) => e,
        Err(_) => {
            return Err(AuthAPIError::InvalidCredentials);
        },
    };
    let password = match Password::parse(request.password) {
        Ok(p) => p,
        Err(_) => {
            return Err(AuthAPIError::InvalidCredentials);
        },
    };
    match user_store.validate_user(&email, &password) {
        Ok(_) => {},
        Err(UserStoreError::UserNotFound) | Err(UserStoreError::InvalidCredentials) => {
            return Err(AuthAPIError::IncorrectCredentials);
        },
        Err(_) => {
            return Err(AuthAPIError::UnexpectedError);
        },
    }
    let user = match user_store.get_user(&email) {
        Ok(u) => u,
        Err(UserStoreError::UserNotFound) => {
            return Err(AuthAPIError::IncorrectCredentials);
        },
        Err(_) => {
            return Err(AuthAPIError::UnexpectedError);
        },
    };
    if user.requires_2fa {
        let login_attempt_id = LoginAttemptId::default();
        let code = TwoFACode::default();
        let response_id = login_attempt_id.clone();
        match two_fa_code_store.add_code(email, login_attempt_id, code) {
            Ok(_) => Ok(
                LoginResponse::TwoFactorAuth {
                    login_attempt_id: response_id,
                    code_for_notifier: code,
                },
            ),
            Err(_) => Err(AuthAPIError::UnexpectedError),
        }
    } else {
        let token = issue_token(&email, now, key);
        Ok(LoginResponse::RegularAuth { token })
    }
}

/// Completes the two-factor step: succeeds exactly when the presented
/// attempt id and code match the most recently issued challenge for the
/// email, consuming the challenge and issuing the session token.  The
/// outcome and the store's new contents are exactly those of
/// `spec_verify_2fa`, except that a backend failure is reported as
/// `UnexpectedError` with the store unchanged.
pub fn verify_2fa<T: TwoFACodeStore>(
    two_fa_code_store: &mut T,
    request: Verify2FARequest,
    now: u64,
    key: &Vec<u8>,
) -> (r: Result<String, AuthAPIError>)
    requires
        now + TOKEN_TTL_SECONDS <= u64::MAX,
    ensures
        !is_valid_email(request.email@) ==> r matches Err(AuthAPIError::InvalidCredentials),
        r matches Err(AuthAPIError::UnexpectedError) ==> final(two_fa_code_store).codes() == old(
            two_fa_code_store,
        ).codes(),
        !(r matches Err(AuthAPIError::UnexpectedError)) ==> (
            token_outcome_of(r),
            final(two_fa_code_store).codes(),
        ) == spec_verify_2fa(
            old(two_fa_code_store).codes(),
            request.email@,
            request.login_attempt_id@,
            request.two_fa_code@,
            now,
            key@,
        ),
{
    let email = match Email::parse(request.email) {
        Ok(e) => e,
        Err(_) => {
            return Err(AuthAPIError::InvalidCredentials);
        },
    };
    let (stored_id, stored_code) = match two_fa_code_store.get_code(&email) {
        Ok(p) => p,
        Err(TwoFACodeStoreError::LoginAttemptIdNotFound) => {
            return Err(AuthAPIError::IncorrectCredentials);
        },
        Err(_) => {
            return Err(AuthAPIError::UnexpectedError);
        },
    };
    let given_id = LoginAttemptId::new(request.login_attempt_id);
    let id_ok = stored_id == given_id;
    let code_ok = stored_code.code_matches(request.two_fa_code.as_str());
    if id_ok && code_ok {
        match two_fa_code_store.remove_code(&email) {
            Ok(_) => {},
            Err(_) => {
                return Err(AuthAPIError::UnexpectedError);
            },
        }
        Ok(issue_token(&email, now, key))
    } else {
        Err(AuthAPIError::IncorrectCredentials)
    }
}

/// Revokes a session: a missing token is reported as such, a token that
/// fails the signature, expiry or shape checks is rejected, and a valid
/// token is added to the revocation store.  The outcome and the revocation
/// set are exactly those of `spec_logout`, except that a backend failure is
/// reported as `UnexpectedError` with the set unchanged.
pub fn logout<B: BannedTokenStore>(
    banned_token_store: &mut B,
    token: Option<String>,
    now: u64,
    key: &Vec<u8>,
) -> (r: Result<(), AuthAPIError>)
    ensures
        token is None ==> r matches Err(AuthAPIError::MissingToken),
        (token matches Some(t) && spec_validate_token(t@, now, key@) is None) ==> r matches Err(
            AuthAPIError::InvalidToken,
        ),
        r matches Err(AuthAPIError::UnexpectedError) ==> final(banned_token_store).banned() == old(
            banned_token_store,
        ).banned(),
        !(r matches Err(AuthAPIError::UnexpectedError)) ==> (
            r,
            final(banned_token_store).banned(),
        ) == spec_logout(old(banned_token_store).banned(), option_token_view(token), now, key@),
{
    let tok = match token {
        None => {
            return Err(AuthAPIError::MissingToken);
        },
        Some(t) => t,
    };
    match validate_token(tok.as_str(), now, key) {
        Some(_) => {},
        None => {
            return Err(AuthAPIError::InvalidToken);
        },
    }
    match banned_token_store.add_banned_token(tok) {
        Ok(_) => Ok(()),
        Err(_) => Err(AuthAPIError::UnexpectedError),
    }
}

/// Checks a session token: accepted exactly when present, passing the
/// signature, expiry and shape checks, and not revoked.  The outcome is
/// exactly that of `spec_verify_token`, except that a backend failure is
/// reported as `UnexpectedError`.
pub fn verify_token<B: BannedTokenStore>(
    banned_token_store: &B,
    token: Option<String>,
    now: u64,
    key: &Vec<u8>,
) -> (r: Result<(), AuthAPIError>)
    ensures
        token is None ==> r matches Err(AuthAPIError::MissingToken),
        (token matches Some(t) && spec_validate_token(t@, now, key@) is None) ==> r matches Err(
            AuthAPIError::InvalidToken,
        ),
        !(r matches Err(AuthAPIError::UnexpectedError)) ==> r == spec_verify_token(
            banned_token_store.banned(),
            option_token_view(token),
            now,
            key@,
        ),
{
    let tok = match token {
        None => {
            return Err(AuthAPIError::MissingToken);
        },
        Some(t) => t,
    };
    match validate_token(tok.as_str(), now, key) {
        Some(_) => {},
        None => {
            return Err(AuthAPIError::InvalidToken);
        },
    }
    match banned_token_store.is_banned(tok.as_str()) {
        Ok(true) => Err(AuthAPIError::InvalidToken),
        Ok(false) => Ok(()),
        Err(_) => Err(AuthAPIError::UnexpectedError),
    }
}

} // verus!
