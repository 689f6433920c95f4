//! Who is signed in, and until when.

use crate::app_state::GlobalService;
use crate::service_provider::Service;
use crate::time::now_timestamp_ms;
use crate::transaction_service::ApiError;
use vstd::prelude::*;

verus! {

/// The key under which the credentials are kept in local storage.
pub const AUTH_INFO_KEY: &'static str = "auth_info";

/// A role a signed-in user may hold.
#[derive(Debug, Clone, PartialEq)]
pub struct UserRole {
    pub name: String,
}

/// A command to the authentication service.
#[derive(Debug, Clone, PartialEq)]
pub enum AuthServiceCommand {
    Register { email: String, password: String },
}

/// What to hand the registration capability.
#[derive(Debug, Clone, PartialEq)]
pub struct RegisterParams {
    pub email: String,
    pub password: String,
}

/// Credentials as the registration capability issues them.
#[derive(Debug, Clone, PartialEq)]
pub struct IssuedToken {
    pub token: String,
    pub expires_at_ms: i64,
}

/// The credentials of the signed-in user.
#[derive(Debug, Clone, PartialEq)]
pub struct AuthInfo {
    pub token: String,
    /// The millisecond at which the token stops being valid.
    pub until_ms: i64,
}

impl AuthInfo {
    /// The key under which the credentials are kept in local storage.
    pub fn key() -> (key: &'static str)
        ensures
            key@ == AUTH_INFO_KEY@,
    {
        AUTH_INFO_KEY
    }

    /// Whether the token is still valid at `now_ms`.
    pub fn is_authenticated_at(&self, _role: &Option<UserRole>, now_ms: i64) -> (valid: bool)
        ensures
            valid == self.valid_at(now_ms),
    {
        self.until_ms > now_ms
    }

    /// Whether the token is still valid by the system clock: the verdict of
    /// [`Self::is_authenticated_at`] at the instant the clock was read.
    pub fn is_authenticated(&self, role: &Option<UserRole>) -> (valid: bool)
        ensures
            exists|now_ms: i64| valid == #[trigger] self.valid_at(now_ms),
    {
        let now_ms = now_timestamp_ms();
        let valid = self.is_authenticated_at(role, now_ms);
        assert(valid == self.valid_at(now_ms));
        valid
    }

    /// Whether the token is valid at `now_ms`: strictly before its end.
    pub open spec fn valid_at(&self, now_ms: i64) -> bool {
        self.until_ms > now_ms
    }

    /// The credentials that an issued token stands for.
    pub fn from_issued(issued: IssuedToken) -> (info: Self)
        ensures
            info.token == issued.token,
            info.until_ms == issued.expires_at_ms,
    {
        AuthInfo { token: issued.token, until_ms: issued.expires_at_ms }
    }
}

/// What the registration capability returned, as credentials.
pub fn execute_register(ret: Result<Option<IssuedToken>, ApiError>) -> (registered: Result<
    Option<AuthInfo>,
    ApiError,
>)
    ensures
        match (ret, registered) {
            (Ok(Some(issued)), Ok(Some(info))) => info.token == issued.token && info.until_ms
                == issued.expires_at_ms,
            (Ok(None), Ok(None)) => true,
            (Err(e), Err(f)) => e == f,
            _ => false,
        },
{
    match ret {
        Ok(Some(issued)) => Ok(Some(AuthInfo::from_issued(issued))),
        Ok(None) => Ok(None),
        Err(e) => Err(e),
    }
}

/// The authentication state: the current credentials, if any.
#[derive(Debug, Clone, PartialEq)]
pub struct AuthState {
    inner: Option<AuthInfo>,
}

/// The authentication state as a service.
pub type AuthService = AuthState;

impl Service for AuthState {
    closed spec fn initial() -> Self {
        AuthState { inner: None }
    }

    /// Nobody is signed in.
    fn instance() -> (service: Self)
        ensures
            service.inner() is None,
    {
        AuthState { inner: None }
    }
}

impl AuthState {
    /// The state with the credentials found in local storage, if any.
    pub fn start(stored: Option<AuthInfo>) -> (state: AuthState)
        ensures
            *state.inner() == stored,
    {
        AuthState::new(stored)
    }

    pub(crate) fn new(inner: Option<AuthInfo>) -> (state: Self)
        ensures
            *state.inner() == inner,
    {
        AuthState { inner }
    }

    /// The command that registers `email` with `password`.
    pub fn register(&self, email: String, password: String) -> (cmd: AuthServiceCommand)
        ensures
            cmd == (AuthServiceCommand::Register { email, password }),
    {
        AuthServiceCommand::Register { email, password }
    }

    /// Takes up a command: the application is marked as busy registering,
    /// and the parameters for the registration capability are returned.
    pub fn begin(cmd: AuthServiceCommand, app_state: &mut GlobalService) -> (params: RegisterParams)
        ensures
            final(app_state).doing matches Some(text) && text@ == "正在注册"@,
            cmd matches AuthServiceCommand::Register { email, password } && params.email == email
                && params.password == password,
    {
        app_state.engaged("正在注册".to_string());
        match cmd {
            AuthServiceCommand::Register { email, password } => RegisterParams { email, password },
        }
    }

    /// Takes in what the registration returned: credentials replace the
    /// current ones (also where the capability issued none), a failure leaves
    /// them as they are. The application is free again either way. Returns
    /// the credentials to persist, if any.
    pub fn finish(
        &mut self,
        ret: Result<Option<AuthInfo>, ApiError>,
        app_state: &mut GlobalService,
    ) -> (to_save: Option<AuthInfo>)
        ensures
            final(app_state).doing is None,
            match ret {
                Ok(auth) => *final(self).inner() == auth && to_save == auth,
                Err(_) => *final(self).inner() == *old(self).inner() && to_save is None,
            },
    {
        let to_save = match ret {
            Ok(auth) => {
                let to_save = match &auth {
                    Some(info) => Some(AuthInfo { token: info.token.clone(), until_ms: info.until_ms }),
                    None => None,
                };
                self.inner = auth;
                to_save
            },
            Err(_) => None,
        };
        app_state.unengaged();
        to_save
    }

    /// Whether someone is signed in with a token still valid at `now_ms`.
    pub fn is_authenticated_at(&self, role: &Option<UserRole>, now_ms: i64) -> (valid: bool)
        ensures
            valid == self.valid_at(now_ms),
    {
        if let Some(auth_info) = &self.inner {
            auth_info.is_authenticated_at(role, now_ms)
        } else {
            false
        }
    }

    /// Whether someone is signed in with a token still valid by the system
    /// clock: the verdict of [`Self::is_authenticated_at`] at the instant the
    /// clock was read. Nobody is where there are no credentials.
    pub fn is_authenticated(&self, role: &Option<UserRole>) -> (valid: bool)
        ensures
            exists|now_ms: i64| valid == #[trigger] self.valid_at(now_ms),
            self.inner() is None ==> !valid,
    {
        if let Some(auth_info) = &self.inner {
            let valid = auth_info.is_authenticated(role);
            proof {
                let now_ms = choose|now_ms: i64| valid == #[trigger] auth_info.valid_at(now_ms);
                assert(valid == self.valid_at(now_ms));
            }
            valid
        } else {
            assert(!self.valid_at(0));
            false
        }
    }

    /// Whether someone is signed in with a token valid at `now_ms`.
    pub open spec fn valid_at(&self, now_ms: i64) -> bool {
        *self.inner() matches Some(info) && info.valid_at(now_ms)
    }

    /// The current credentials.
    pub closed spec fn spec_inner(&self) -> &Option<AuthInfo> {
        &self.inner
    }

    /// The current credentials.
    #[verifier::when_used_as_spec(spec_inner)]
    pub fn inner(&self) -> (info: &Option<AuthInfo>)
        ensures
            info == self.spec_inner(),
    {
        &self.inner
    }

    /// Signs the user in with `info`, in place of whoever was signed in.
    pub fn sign_in(&mut self, info: AuthInfo)
        ensures
            *final(self).inner() == Some(info),
    {
        self.inner = Some(info);
    }

    /// Signs the user out.
    pub fn clear(&mut self)
        ensures
            final(self).inner() is None,
    {
        self.inner = None;
    }
}

} // verus!
