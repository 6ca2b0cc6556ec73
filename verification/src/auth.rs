//! The auth manager: builds token-endpoint requests and applies their
//! outcomes to the session, replacing the stored tokens on success and
//! clearing them on any failure.

use vstd::prelude::*;
use vstd::string::StringExecFns;

use crate::errors::AuthError;
use crate::http::{spec_http_failure_text, HttpFailure, PreparedRequest};
use crate::options::{AccessTokenModel, KidsnoteOptions, OAuthTokenResponse, OptionsModel};
use crate::urlenc::{urlencode_pairs, urlencoded_of};

verus! {

/// Client for the token endpoint.
pub struct KidsnoteAuthSdk {}

/// The form parameters of a password login.
pub open spec fn spec_login_pairs(username: Seq<char>, password: Seq<char>) -> Seq<
    (Seq<char>, Seq<char>),
> {
    seq![
        ("grant_type"@, "password"@),
        ("username"@, username),
        ("password"@, password),
        ("scope"@, "read write"@),
    ]
}

/// The form parameters of a refresh-token login.
pub open spec fn spec_refresh_pairs(refresh_token: Seq<char>) -> Seq<(Seq<char>, Seq<char>)> {
    seq![
        ("grant_type"@, "refresh_token"@),
        ("refresh_token"@, refresh_token),
        ("scope"@, "read write"@),
    ]
}

impl KidsnoteAuthSdk {
    pub fn new() -> (r: KidsnoteAuthSdk) {
        KidsnoteAuthSdk {  }
    }

    /// Form parameters for `grant_type=password`.
    pub fn login_params(&self, username: &str, password: &str) -> (r: Vec<(String, String)>)
        ensures
            r.deep_view() == spec_login_pairs(username@, password@),
    {
        let mut params: Vec<(String, String)> = Vec::new();
        params.push((String::from_str("grant_type"), String::from_str("password")));
        params.push((String::from_str("username"), String::from_str(username)));
        params.push((String::from_str("password"), String::from_str(password)));
        params.push((String::from_str("scope"), String::from_str("read write")));
        proof {
            assert(params.deep_view() =~= spec_login_pairs(username@, password@));
        }
        params
    }

    /// Form parameters for `grant_type=refresh_token`.
    pub fn refresh_token_params(&self, refresh_token: &str) -> (r: Vec<(String, String)>)
        ensures
            r.deep_view() == spec_refresh_pairs(refresh_token@),
    {
        let mut params: Vec<(String, String)> = Vec::new();
        params.push((String::from_str("grant_type"), String::from_str("refresh_token")));
        params.push((String::from_str("refresh_token"), String::from_str(refresh_token)));
        params.push((String::from_str("scope"), String::from_str("read write")));
        proof {
            assert(params.deep_view() =~= spec_refresh_pairs(refresh_token@));
        }
        params
    }

    /// The `POST {host}/o/token/` request for the given form parameters:
    /// form-encoded body, `Authorization: Basic {client_id}`.
    pub fn oauth_token_request(
        &self,
        options: &KidsnoteOptions,
        params: &Vec<(String, String)>,
    ) -> (req: PreparedRequest)
        ensures
            req.url@ == options@.host + "/o/token/"@,
            req.authorization@ == "Basic "@ + options@.client_id,
            req.content_type@ == "application/x-www-form-urlencoded"@,
            req.body matches Some(b) && b@ == urlencoded_of(params.deep_view()),
    {
        let body = urlencode_pairs(params);
        let mut url = options.get_host();
        url.append("/o/token/");
        let mut authorization = String::from_str("Basic ");
        authorization.append(options.get_client_id_ref());
        PreparedRequest {
            url,
            authorization,
            content_type: String::from_str("application/x-www-form-urlencoded"),
            body: Some(body),
        }
    }

    /// Apply a token-endpoint outcome to the session: install the new token
    /// pair on success, clear the session on any failure.
    pub fn apply_token_outcome(
        &self,
        options: &mut KidsnoteOptions,
        outcome: Result<OAuthTokenResponse, HttpFailure>,
    ) -> (r: Result<OAuthTokenResponse, AuthError>)
        ensures
            match outcome {
                Ok(tok) => {
                    &&& final(options)@ == (OptionsModel {
                        refresh_token: Some(tok@.refresh_token),
                        access_token: Some(
                            AccessTokenModel {
                                token_type: tok@.token_type,
                                token: tok@.access_token,
                                expires_in: tok@.expires_in,
                            },
                        ),
                        ..old(options)@
                    })
                    &&& r matches Ok(out) && out@ == tok@
                },
                Err(f) => {
                    &&& final(options)@ == (OptionsModel {
                        refresh_token: None,
                        access_token: None,
                        ..old(options)@
                    })
                    &&& r matches Err(AuthError::GeneralErrorStr(m)) && m@
                        == spec_http_failure_text(f)
                },
            },
    {
        match outcome {
            Ok(tok) => {
                let out = tok.clone();
                options.set_session_by_oauth(tok);
                Ok(out)
            },
            Err(f) => {
                options.remove_session();
                Err(crate::http::http_failure_error(&f))
            },
        }
    }
}

} // verus!
