//! Session state: host, client identifier, user identity and the token pair.
//!
//! Exactly one session exists per run. Login and refresh replace the stored
//! tokens on success and clear them on any failure; every authenticated
//! request reads the access token through [`KidsnoteOptions::get_access_token_or_error`].

use vstd::prelude::*;
use vstd::string::StringExecFns;

use crate::errors::{AuthError, AuthErrorCode};

verus! {

/// Access-token record handed out by the token endpoint.
#[derive(Debug)]
pub struct KidsnoteAccessToken {
    pub token_type: String,
    pub token: String,
    pub expires_in: i32,
}

/// Mathematical value of an access-token record.
pub ghost struct AccessTokenModel {
    pub token_type: Seq<char>,
    pub token: Seq<char>,
    pub expires_in: int,
}

impl View for KidsnoteAccessToken {
    type V = AccessTokenModel;

    open spec fn view(&self) -> AccessTokenModel {
        AccessTokenModel {
            token_type: self.token_type@,
            token: self.token@,
            expires_in: self.expires_in as int,
        }
    }
}

impl Clone for KidsnoteAccessToken {
    fn clone(&self) -> (r: Self)
        ensures
            r@ == self@,
    {
        KidsnoteAccessToken {
            token_type: self.token_type.clone(),
            token: self.token.clone(),
            expires_in: self.expires_in,
        }
    }
}

/// Body of a successful token-endpoint response.
#[derive(Debug)]
pub struct OAuthTokenResponse {
    pub token_type: String,
    pub access_token: String,
    pub scope: String,
    pub expires_in: i32,
    pub refresh_token: String,
}

/// Mathematical value of a token-endpoint response.
pub ghost struct OAuthTokenModel {
    pub token_type: Seq<char>,
    pub access_token: Seq<char>,
    pub scope: Seq<char>,
    pub expires_in: int,
    pub refresh_token: Seq<char>,
}

impl View for OAuthTokenResponse {
    type V = OAuthTokenModel;

    open spec fn view(&self) -> OAuthTokenModel {
        OAuthTokenModel {
            token_type: self.token_type@,
            access_token: self.access_token@,
            scope: self.scope@,
            expires_in: self.expires_in as int,
            refresh_token: self.refresh_token@,
        }
    }
}

impl Clone for OAuthTokenResponse {
    fn clone(&self) -> (r: Self)
        ensures
            r@ == self@,
    {
        OAuthTokenResponse {
            token_type: self.token_type.clone(),
            access_token: self.access_token.clone(),
            scope: self.scope.clone(),
            expires_in: self.expires_in,
            refresh_token: self.refresh_token.clone(),
        }
    }
}

/// Configuration and mutable session state of one run.
#[derive(Debug)]
pub struct KidsnoteOptions {
    host: String,
    client_id: String,
    user_id: Option<String>,
    refresh_token: Option<String>,
    access_token: Option<KidsnoteAccessToken>,
}

/// Mathematical value of the session state.
pub ghost struct OptionsModel {
    pub host: Seq<char>,
    pub client_id: Seq<char>,
    pub user_id: Option<Seq<char>>,
    pub refresh_token: Option<Seq<char>>,
    pub access_token: Option<AccessTokenModel>,
}

impl View for KidsnoteOptions {
    type V = OptionsModel;

    closed spec fn view(&self) -> OptionsModel {
        OptionsModel {
            host: self.host@,
            client_id: self.client_id@,
            user_id: self.user_id.deep_view(),
            refresh_token: self.refresh_token.deep_view(),
            access_token: match self.access_token {
                Some(t) => Some(t@),
                None => None,
            },
        }
    }
}

/// Address of the vendor's API host.
pub open spec fn spec_default_host() -> Seq<char> {
    "https://kapi.kidsnote.com"@
}

/// Client identifier sent on the token endpoint when none is supplied.
pub open spec fn spec_default_client_id() -> Seq<char> {
    "eTU0bU4xbHBhWTcyTmlQTEZPQnp5WlNkS2FMV0h4ZUNUV0VoUXp4RzpleENKNVQ5TmlzaGc2NkpEQzh1b1NZN29PM1hTVVVVcjlHRG5penVWaGd3TDJyWkpNVkJHY0hYYTh1UDZ2VmlHbGE2VERGVE8ybDFIMEw3cEdIckFRQ1lpMWsyakEwVTVVT2RmQ2pXeDdSVVJDMk0xZlhhd1ZNRXBIdGJDZExQbQ=="@
}

impl KidsnoteOptions {
    /// Fresh session: default host, the given client identifier (or the
    /// built-in one), no user, no tokens.
    pub fn new(client_id: Option<String>) -> (r: KidsnoteOptions)
        ensures
            r@.host == spec_default_host(),
            r@.client_id == (match client_id {
                Some(c) => c@,
                None => spec_default_client_id(),
            }),
            r@.user_id is None,
            r@.refresh_token is None,
            r@.access_token is None,
    {
        let cid: String = match client_id {
            Some(c) => c,
            None => String::from_str(
                "eTU0bU4xbHBhWTcyTmlQTEZPQnp5WlNkS2FMV0h4ZUNUV0VoUXp4RzpleENKNVQ5TmlzaGc2NkpEQzh1b1NZN29PM1hTVVVVcjlHRG5penVWaGd3TDJyWkpNVkJHY0hYYTh1UDZ2VmlHbGE2VERGVE8ybDFIMEw3cEdIckFRQ1lpMWsyakEwVTVVT2RmQ2pXeDdSVVJDMk0xZlhhd1ZNRXBIdGJDZExQbQ==",
            ),
        };
        KidsnoteOptions {
            host: String::from_str("https://kapi.kidsnote.com"),
            client_id: cid,
            user_id: None,
            refresh_token: None,
            access_token: None,
        }
    }

    pub fn set_client_id(&mut self, client_id: String)
        ensures
            final(self)@ == (OptionsModel { client_id: client_id@, ..old(self)@ }),
    {
        self.client_id = client_id;
    }

    pub fn set_host(&mut self, host: String)
        ensures
            final(self)@ == (OptionsModel { host: host@, ..old(self)@ }),
    {
        self.host = host;
    }

    pub fn get_client_id(&self) -> (r: String)
        ensures
            r@ == self@.client_id,
    {
        self.client_id.clone()
    }

    pub fn get_client_id_ref(&self) -> (r: &str)
        ensures
            r@ == self@.client_id,
    {
        self.client_id.as_str()
    }

    pub fn get_host(&self) -> (r: String)
        ensures
            r@ == self@.host,
    {
        self.host.clone()
    }

    pub fn get_host_ref(&self) -> (r: &str)
        ensures
            r@ == self@.host,
    {
        self.host.as_str()
    }

    pub fn get_refresh_token(&self) -> (r: Option<String>)
        ensures
            r.deep_view() == self@.refresh_token,
    {
        match &self.refresh_token {
            Some(t) => Some(t.clone()),
            None => None,
        }
    }

    /// The current access token, or `Unauthorized` when no login has
    /// succeeded since the session was created or last cleared.
    pub fn get_access_token_or_error(&self) -> (r: Result<KidsnoteAccessToken, AuthError>)
        ensures
            match r {
                Ok(t) => self@.access_token == Some(t@),
                Err(e) => self@.access_token is None && (e matches AuthError::ErrorWithCode(
                    AuthErrorCode::Unauthorized,
                )),
            },
    {
        match &self.access_token {
            Some(access_token) => Ok(access_token.clone()),
            None => Err(AuthError::ErrorWithCode(AuthErrorCode::Unauthorized)),
        }
    }

    pub fn set_user_id(&mut self, user_id: String)
        ensures
            final(self)@ == (OptionsModel { user_id: Some(user_id@), ..old(self)@ }),
    {
        self.user_id = Some(user_id);
    }

    pub fn set_refresh_token(&mut self, refresh_token: String)
        ensures
            final(self)@ == (OptionsModel { refresh_token: Some(refresh_token@), ..old(self)@ }),
    {
        self.refresh_token = Some(refresh_token);
    }

    /// Install the token pair of a successful login or refresh.
    pub fn set_session_by_oauth(&mut self, data: OAuthTokenResponse)
        ensures
            final(self)@ == (OptionsModel {
                refresh_token: Some(data@.refresh_token),
                access_token: Some(
                    AccessTokenModel {
                        token_type: data@.token_type,
                        token: data@.access_token,
                        expires_in: data@.expires_in,
                    },
                ),
                ..old(self)@
            }),
    {
        self.refresh_token = Some(data.refresh_token);
        self.access_token = Some(
            KidsnoteAccessToken {
                token_type: data.token_type,
                token: data.access_token,
                expires_in: data.expires_in,
            },
        );
    }

    /// Clear both tokens; every later authenticated call fails until a
    /// new login succeeds.
    pub fn remove_session(&mut self)
        ensures
            final(self)@ == (OptionsModel {
                refresh_token: None,
                access_token: None,
                ..old(self)@
            }),
    {
        self.refresh_token = None;
        self.access_token = None;
    }

    pub fn is_refresh_token(&self) -> (r: bool)
        ensures
            r == (self@.refresh_token is Some),
    {
        self.refresh_token.is_some()
    }
}

impl Clone for KidsnoteOptions {
    fn clone(&self) -> (r: Self)
        ensures
            r@ == self@,
    {
        KidsnoteOptions {
            host: self.host.clone(),
            client_id: self.client_id.clone(),
            user_id: match &self.user_id {
                Some(u) => Some(u.clone()),
                None => None,
            },
            refresh_token: match &self.refresh_token {
                Some(t) => Some(t.clone()),
                None => None,
            },
            access_token: match &self.access_token {
                Some(t) => Some(t.clone()),
                None => None,
            },
        }
    }
}

} // verus!
