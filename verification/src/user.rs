//! The profile lookup: account, children and each child's enrollment.

use vstd::prelude::*;
use vstd::string::StringExecFns;

use crate::errors::{AuthError, AuthErrorCode};
use crate::http::{http_failure_error, spec_http_failure_text, HttpFailure, PreparedRequest};
use crate::options::KidsnoteOptions;
use crate::resource::ResourceImageResponse;

verus! {

/// The profile response: the account and its children.
#[derive(Debug, Clone)]
pub struct MeInfoResponse {
    pub user: MeInfoUserResponse,
    pub children: Vec<MeInfoChildrenResponse>,
}

/// The account of the logged-in guardian.
#[derive(Debug, Clone)]
pub struct MeInfoUserResponse {
    pub id: u64,
    pub username: String,
    pub user_type: String,
    pub name: String,
    pub country_code: String,
    pub phone: String,
    pub email: String,
    pub description: String,
    pub picture: Option<String>,
    pub date_joined: String,
    pub subscription: bool,
    pub subscription_updated_at: String,
    pub third_party_consent: bool,
    pub date_store_allowed: String,
    pub is_staff: bool,
    pub show_change_password: bool,
    pub use_privacy: bool,
}

/// One child of the guardian, with the enrollments that link the child to
/// a center and class.
#[derive(Debug, Clone)]
pub struct MeInfoChildrenResponse {
    pub id: u64,
    pub created: String,
    pub name: String,
    pub date_birth: String,
    pub gender: String,
    pub family_type: String,
    pub picture: Option<ResourceImageResponse>,
    pub parent: MeInfoChildParentResponse,
    pub enrollment: Vec<MeInfoChildEnrollment>,
}

/// The guardian record attached to a child.
#[derive(Debug, Clone)]
pub struct MeInfoChildParentResponse {
    pub id: u64,
    pub parent_type: String,
    pub name: String,
    pub picture: Option<ResourceImageResponse>,
    pub username: String,
}

/// One enrollment: the link from a child to a center and class.
#[derive(Debug, Clone)]
pub struct MeInfoChildEnrollment {
    pub id: u64,
    pub created: String,
    pub modified: String,
    pub child: u64,
    pub child_id: u64,
    pub child_name: String,
    pub child_birth: String,
    pub child_picture: Option<ResourceImageResponse>,
    pub parent_name: String,
    pub center_id: u64,
    pub center_name: String,
    pub belong_to_class: u64,
    pub class_name: String,
    pub is_approved: bool,
    pub removed_child: bool,
    pub is_extra_parent: bool,
}

/// Client for the profile endpoint.
pub struct KidsnoteUserSdk {}

impl KidsnoteUserSdk {
    pub fn new() -> (r: KidsnoteUserSdk) {
        KidsnoteUserSdk {  }
    }

    /// The `GET {host}/v1/me/info/` request, authenticated with the current
    /// access token; `Unauthorized` when the session has none.
    pub fn myinfo_request(&self, options: &KidsnoteOptions) -> (r: Result<
        PreparedRequest,
        AuthError,
    >)
        ensures
            match options@.access_token {
                Some(tok) => r matches Ok(req) && {
                    &&& req.url@ == options@.host + "/v1/me/info/"@
                    &&& req.authorization@ == tok.token_type + " "@ + tok.token
                    &&& req.content_type@ == "application/json"@
                    &&& req.body is None
                },
                None => r matches Err(AuthError::ErrorWithCode(AuthErrorCode::Unauthorized)),
            },
    {
        let access_token = match options.get_access_token_or_error() {
            Ok(t) => t,
            Err(e) => {
                return Err(e);
            },
        };
        let mut url = options.get_host();
        url.append("/v1/me/info/");
        let mut authorization = access_token.token_type;
        authorization.append(" ");
        authorization.append(access_token.token.as_str());
        Ok(
            PreparedRequest {
                url,
                authorization,
                content_type: String::from_str("application/json"),
                body: None,
            },
        )
    }

    /// Map the profile call's outcome: the parsed response passes through,
    /// every failure becomes the corresponding error. The session is not
    /// touched.
    pub fn apply_myinfo_outcome(&self, outcome: Result<MeInfoResponse, HttpFailure>) -> (r: Result<
        MeInfoResponse,
        AuthError,
    >)
        ensures
            match outcome {
                Ok(me) => r matches Ok(out) && out == me,
                Err(f) => r matches Err(AuthError::GeneralErrorStr(m)) && m@
                    == spec_http_failure_text(f),
            },
    {
        match outcome {
            Ok(me) => Ok(me),
            Err(f) => Err(http_failure_error(&f)),
        }
    }
}

} // verus!
