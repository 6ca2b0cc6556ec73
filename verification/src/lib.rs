//! Verified core of a backup tool for a childcare-notification web service.
//!
//! The library holds the logic that can be checked: session and token state,
//! request preparation, pagination over the report feed, output path
//! planning, and the skip/retry decisions of the asset downloader. All
//! network and filesystem work is left to the surrounding application,
//! which drives the state machines defined here.

pub mod errors;
pub mod options;
pub mod strutil;
pub mod dates;
pub mod urlenc;
pub mod tool;
pub mod resource;
pub mod http;
pub mod auth;
pub mod user;
pub mod child;
pub mod config;
pub mod login;
pub mod download;
pub mod cli;
pub mod paths;
pub mod fetcher;

use vstd::prelude::*;

use crate::auth::KidsnoteAuthSdk;
use crate::child::{ChildReportResponse, GetReportsParam, KidsnoteChildSdk};
use crate::errors::AuthError;
use crate::http::{HttpFailure, PreparedRequest};
use crate::options::{KidsnoteOptions, OAuthTokenResponse, OptionsModel};
use crate::resource::KidsnoteResourceSdk;
use crate::user::{KidsnoteUserSdk, MeInfoResponse};

verus! {

/// The service client: the session, shared by every endpoint client.
pub struct KidsnoteSdk {
    options: KidsnoteOptions,
    auth: KidsnoteAuthSdk,
    resource: KidsnoteResourceSdk,
    user: KidsnoteUserSdk,
    child: KidsnoteChildSdk,
}

impl View for KidsnoteSdk {
    type V = OptionsModel;

    closed spec fn view(&self) -> OptionsModel {
        self.options@
    }
}

impl KidsnoteSdk {
    /// Wrap a session.
    pub fn new(config: KidsnoteOptions) -> (r: KidsnoteSdk)
        ensures
            r@ == config@,
    {
        KidsnoteSdk {
            options: config,
            auth: KidsnoteAuthSdk::new(),
            resource: KidsnoteResourceSdk::new(),
            user: KidsnoteUserSdk::new(),
            child: KidsnoteChildSdk::new(),
        }
    }

    /// Copy of the current session state.
    pub fn get_options_clone(&self) -> (r: KidsnoteOptions)
        ensures
            r@ == self@,
    {
        self.options.clone()
    }

    pub fn is_refresh_token(&self) -> (r: bool)
        ensures
            r == (self@.refresh_token is Some),
    {
        self.options.is_refresh_token()
    }

    /// Install a refresh token (and, when given, the user id) before any
    /// login.
    pub fn set_refresh_token(&mut self, refresh_token: String, user_id: Option<String>)
        ensures
            final(self)@ == (OptionsModel {
                refresh_token: Some(refresh_token@),
                user_id: match user_id {
                    Some(u) => Some(u@),
                    None => old(self)@.user_id,
                },
                ..old(self)@
            }),
    {
        self.options.set_refresh_token(refresh_token);
        if let Some(user_id) = user_id {
            self.options.set_user_id(user_id);
        }
    }

    /// auth sdk
    pub fn auth(&self) -> &KidsnoteAuthSdk {
        &self.auth
    }

    /// resource sdk
    pub fn resource(&self) -> &KidsnoteResourceSdk {
        &self.resource
    }

    /// child sdk
    pub fn child(&self) -> &KidsnoteChildSdk {
        &self.child
    }

    /// user sdk
    pub fn user(&self) -> &KidsnoteUserSdk {
        &self.user
    }

    pub fn get_client_id(&self) -> (r: String)
        ensures
            r@ == self@.client_id,
    {
        self.options.get_client_id()
    }

    pub fn get_host(&self) -> (r: String)
        ensures
            r@ == self@.host,
    {
        self.options.get_host()
    }

    /// The token request for a password login.
    pub fn login_request(&self, username: &str, password: &str) -> (req: PreparedRequest)
        ensures
            req.url@ == self@.host + "/o/token/"@,
            req.authorization@ == "Basic "@ + self@.client_id,
            req.content_type@ == "application/x-www-form-urlencoded"@,
            req.body matches Some(b) && b@ == urlenc::urlencoded_of(
                auth::spec_login_pairs(username@, password@),
            ),
    {
        let params = self.auth.login_params(username, password);
        self.auth.oauth_token_request(&self.options, &params)
    }

    /// The token request for a refresh-token login.
    pub fn refresh_token_request(&self, refresh_token: &str) -> (req: PreparedRequest)
        ensures
            req.url@ == self@.host + "/o/token/"@,
            req.authorization@ == "Basic "@ + self@.client_id,
            req.content_type@ == "application/x-www-form-urlencoded"@,
            req.body matches Some(b) && b@ == urlenc::urlencoded_of(
                auth::spec_refresh_pairs(refresh_token@),
            ),
    {
        let params = self.auth.refresh_token_params(refresh_token);
        self.auth.oauth_token_request(&self.options, &params)
    }

    /// Apply a token-endpoint outcome to the session.
    pub fn apply_token_outcome(&mut self, outcome: Result<OAuthTokenResponse, HttpFailure>) -> (r:
        Result<OAuthTokenResponse, AuthError>)
        ensures
            match outcome {
                Ok(tok) => {
                    &&& final(self)@ == (OptionsModel {
                        refresh_token: Some(tok@.refresh_token),
                        access_token: Some(
                            options::AccessTokenModel {
                                token_type: tok@.token_type,
                                token: tok@.access_token,
                                expires_in: tok@.expires_in,
                            },
                        ),
                        ..old(self)@
                    })
                    &&& r matches Ok(out) && out@ == tok@
                },
                Err(f) => {
                    &&& final(self)@ == (OptionsModel {
                        refresh_token: None,
                        access_token: None,
                        ..old(self)@
                    })
                    &&& r matches Err(AuthError::GeneralErrorStr(m)) && m@
                        == http::spec_http_failure_text(f)
                },
            },
    {
        self.auth.apply_token_outcome(&mut self.options, outcome)
    }

    /// The profile request (see [`KidsnoteUserSdk::myinfo_request`]).
    pub fn myinfo_request(&self) -> (r: Result<PreparedRequest, AuthError>)
        ensures
            match self@.access_token {
                Some(tok) => r matches Ok(req) && {
                    &&& req.url@ == self@.host + "/v1/me/info/"@
                    &&& req.authorization@ == tok.token_type + " "@ + tok.token
                    &&& req.content_type@ == "application/json"@
                    &&& req.body is None
                },
                None => r matches Err(
                    AuthError::ErrorWithCode(errors::AuthErrorCode::Unauthorized),
                ),
            },
    {
        self.user.myinfo_request(&self.options)
    }

    /// Map a profile outcome (see [`KidsnoteUserSdk::apply_myinfo_outcome`]).
    pub fn apply_myinfo_outcome(&self, outcome: Result<MeInfoResponse, HttpFailure>) -> (r: Result<
        MeInfoResponse,
        AuthError,
    >)
        ensures
            match outcome {
                Ok(me) => r matches Ok(out) && out == me,
                Err(f) => r matches Err(AuthError::GeneralErrorStr(m)) && m@
                    == http::spec_http_failure_text(f),
            },
    {
        self.user.apply_myinfo_outcome(outcome)
    }

    /// The reports-page request (see [`KidsnoteChildSdk::reports_request`]).
    pub fn reports_request(&self, child_id: u64, param: Option<&GetReportsParam>) -> (r: Result<
        PreparedRequest,
        AuthError,
    >)
        ensures
            match self@.access_token {
                Some(tok) => r matches Ok(req) && {
                    &&& req.url@ == self@.host + "/v1_2/children/"@
                        + strutil::spec_dec_digits(child_id as int) + "/reports/?"@
                        + urlenc::urlencoded_of(
                        match param {
                            Some(p) => child::spec_query_pairs(p@),
                            None => Seq::empty(),
                        },
                    )
                    &&& req.authorization@ == tok.token_type + " "@ + tok.token
                    &&& req.content_type@ == "application/json"@
                    &&& req.body is None
                },
                None => r matches Err(
                    AuthError::ErrorWithCode(errors::AuthErrorCode::Unauthorized),
                ),
            },
    {
        self.child.reports_request(&self.options, child_id, param)
    }

    /// Map a reports-page outcome (see
    /// [`KidsnoteChildSdk::apply_reports_outcome`]).
    pub fn apply_reports_outcome(&self, outcome: Result<ChildReportResponse, HttpFailure>) -> (r:
        Result<ChildReportResponse, AuthError>)
        ensures
            match outcome {
                Ok(page) => r matches Ok(out) && out == page,
                Err(f) => r matches Err(AuthError::GeneralErrorStr(m)) && m@
                    == http::spec_http_failure_text(f),
            },
    {
        self.child.apply_reports_outcome(outcome)
    }
}

} // verus!
