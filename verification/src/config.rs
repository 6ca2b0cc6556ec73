//! The persisted profile: user id and refresh token. Reading and writing
//! the file is the application's job; the state and its update rule live
//! here.

use vstd::prelude::*;

use crate::strutil::clone_opt_string;

verus! {

/// One stored profile.
#[derive(Debug)]
pub struct KidsnoteConfigProfile {
    pub user_id: Option<String>,
    pub refresh_token: Option<String>,
}

/// Mathematical value of a profile.
pub ghost struct ProfileModel {
    pub user_id: Option<Seq<char>>,
    pub refresh_token: Option<Seq<char>>,
}

impl View for KidsnoteConfigProfile {
    type V = ProfileModel;

    open spec fn view(&self) -> ProfileModel {
        ProfileModel {
            user_id: self.user_id.deep_view(),
            refresh_token: self.refresh_token.deep_view(),
        }
    }
}

impl Clone for KidsnoteConfigProfile {
    fn clone(&self) -> (r: Self)
        ensures
            r@ == self@,
    {
        KidsnoteConfigProfile {
            user_id: clone_opt_string(&self.user_id),
            refresh_token: clone_opt_string(&self.refresh_token),
        }
    }
}

/// The configuration file's content.
#[derive(Debug)]
pub struct KnBackupConfig {
    pub default: Option<KidsnoteConfigProfile>,
}

impl View for KnBackupConfig {
    type V = Option<ProfileModel>;

    open spec fn view(&self) -> Option<ProfileModel> {
        match self.default {
            Some(p) => Some(p@),
            None => None,
        }
    }
}

impl Clone for KnBackupConfig {
    fn clone(&self) -> (r: Self)
        ensures
            r@ == self@,
    {
        KnBackupConfig {
            default: match &self.default {
                Some(p) => Some(p.clone()),
                None => None,
            },
        }
    }
}

impl KnBackupConfig {
    /// Empty configuration, as a missing or unreadable file loads.
    pub fn new_empty() -> (r: KnBackupConfig)
        ensures
            r@ is None,
    {
        KnBackupConfig { default: None }
    }

    /// Replace the default profile with the resolved username and the
    /// freshly issued refresh token.
    pub fn set_default(&mut self, user_id: String, refresh_token: String)
        ensures
            final(self)@ == Some(
                ProfileModel { user_id: Some(user_id@), refresh_token: Some(refresh_token@) },
            ),
    {
        self.default = Some(
            KidsnoteConfigProfile { user_id: Some(user_id), refresh_token: Some(refresh_token) },
        );
    }
}

} // verus!
