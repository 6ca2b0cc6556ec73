//! The login command: merge stored profile into the arguments, pick the
//! login method, and keep the session client.

use vstd::prelude::*;

use crate::config::{KidsnoteConfigProfile, KnBackupConfig, ProfileModel};
use crate::options::KidsnoteOptions;
use crate::strutil::clone_opt_string;
use crate::KidsnoteSdk;

verus! {

/// Arguments of the login command.
#[derive(Debug)]
pub struct LoginArgs {
    /// Client ID
    pub client_id: Option<String>,
    /// UserID of the account
    pub user_id: Option<String>,
    /// Password of the account
    pub user_pass: Option<String>,
    /// RefreshToken of the account
    pub refresh_token: Option<String>,
    /// Config file path
    pub config_path: String,
}

impl LoginArgs {
    /// Fill user id and refresh token from a stored profile, where the
    /// arguments do not already carry them.
    pub fn update_profile(&mut self, profile: &KidsnoteConfigProfile)
        ensures
            final(self).refresh_token.deep_view() == spec_merged_opt(
                old(self).refresh_token.deep_view(),
                profile@.refresh_token,
            ),
            final(self).user_id.deep_view() == spec_merged_opt(
                old(self).user_id.deep_view(),
                profile@.user_id,
            ),
            final(self).client_id == old(self).client_id,
            final(self).user_pass == old(self).user_pass,
            final(self).config_path == old(self).config_path,
    {
        if self.refresh_token.is_none() && profile.refresh_token.is_some() {
            self.refresh_token = clone_opt_string(&profile.refresh_token);
        }
        if self.user_id.is_none() && profile.user_id.is_some() {
            self.user_id = clone_opt_string(&profile.user_id);
        }
    }
}

impl Clone for LoginArgs {
    fn clone(&self) -> (r: Self)
        ensures
            r.client_id.deep_view() == self.client_id.deep_view(),
            r.user_id.deep_view() == self.user_id.deep_view(),
            r.user_pass.deep_view() == self.user_pass.deep_view(),
            r.refresh_token.deep_view() == self.refresh_token.deep_view(),
            r.config_path@ == self.config_path@,
    {
        LoginArgs {
            client_id: clone_opt_string(&self.client_id),
            user_id: clone_opt_string(&self.user_id),
            user_pass: clone_opt_string(&self.user_pass),
            refresh_token: clone_opt_string(&self.refresh_token),
            config_path: self.config_path.clone(),
        }
    }
}

/// An argument that keeps its value and falls back to the stored profile
/// only when absent.
pub open spec fn spec_merged_opt(arg: Option<Seq<char>>, stored: Option<Seq<char>>) -> Option<
    Seq<char>,
> {
    if arg is None && stored is Some {
        stored
    } else {
        arg
    }
}

/// Which login flow a run attempts. A supplied refresh token takes
/// precedence; a password login needs both user id and password; with
/// neither input the run fails before any network call.
#[derive(Debug)]
pub enum LoginPlan {
    UseRefreshToken(String),
    UsePassword(String, String),
    InvalidArgs,
}

/// Pick the login method from the (merged) arguments.
pub fn plan_login(
    refresh_token: &Option<String>,
    user_id: &Option<String>,
    user_pass: &Option<String>,
) -> (r: LoginPlan)
    ensures
        match refresh_token.deep_view() {
            Some(rt) => r matches LoginPlan::UseRefreshToken(t) && t@ == rt,
            None => match (user_id.deep_view(), user_pass.deep_view()) {
                (Some(u), Some(p)) => r matches LoginPlan::UsePassword(ru, rp) && ru@ == u && rp@
                    == p,
                _ => r is InvalidArgs,
            },
        },
{
    if let Some(rt) = refresh_token {
        LoginPlan::UseRefreshToken(rt.clone())
    } else if let (Some(u), Some(p)) = (user_id, user_pass) {
        LoginPlan::UsePassword(u.clone(), p.clone())
    } else {
        LoginPlan::InvalidArgs
    }
}

/// The login command: its arguments after the profile merge, the loaded
/// configuration, and the session client.
pub struct LoginCommand {
    pub args: LoginArgs,
    pub config: KnBackupConfig,
    pub kidsnote_sdk: KidsnoteSdk,
}

impl LoginCommand {
    /// Set up a login run: merge the stored profile into the arguments,
    /// create the session from the client id, and install a supplied
    /// refresh token.
    pub fn new(args: LoginArgs, config: KnBackupConfig) -> (r: LoginCommand)
        ensures
            r.config@ == config@,
            r.args.client_id.deep_view() == args.client_id.deep_view(),
            r.args.user_pass.deep_view() == args.user_pass.deep_view(),
            r.args.config_path@ == args.config_path@,
            r.args.refresh_token.deep_view() == spec_merged_opt(
                args.refresh_token.deep_view(),
                match config@ {
                    Some(p) => p.refresh_token,
                    None => None,
                },
            ),
            r.args.user_id.deep_view() == spec_merged_opt(
                args.user_id.deep_view(),
                match config@ {
                    Some(p) => p.user_id,
                    None => None,
                },
            ),
            r.kidsnote_sdk@.host == crate::options::spec_default_host(),
            r.kidsnote_sdk@.client_id == (match args.client_id.deep_view() {
                Some(c) => c,
                None => crate::options::spec_default_client_id(),
            }),
            r.kidsnote_sdk@.refresh_token == r.args.refresh_token.deep_view(),
            r.kidsnote_sdk@.user_id == (if r.args.refresh_token.deep_view() is Some {
                r.args.user_id.deep_view()
            } else {
                None
            }),
            r.kidsnote_sdk@.access_token is None,
    {
        let mut args = args;
        if let Some(profile) = &config.default {
            args.update_profile(profile);
        }
        let kidsnote_options = KidsnoteOptions::new(clone_opt_string(&args.client_id));
        let mut kidsnote_sdk = KidsnoteSdk::new(kidsnote_options);
        if let Some(refresh_token) = clone_opt_string(&args.refresh_token) {
            kidsnote_sdk.set_refresh_token(refresh_token, clone_opt_string(&args.user_id));
        }
        LoginCommand { args, config, kidsnote_sdk }
    }

    /// The login method this run attempts.
    pub fn login_plan(&self) -> (r: LoginPlan)
        ensures
            match self.args.refresh_token.deep_view() {
                Some(rt) => r matches LoginPlan::UseRefreshToken(t) && t@ == rt,
                None => match (self.args.user_id.deep_view(), self.args.user_pass.deep_view()) {
                    (Some(u), Some(p)) => r matches LoginPlan::UsePassword(ru, rp) && ru@ == u
                        && rp@ == p,
                    _ => r is InvalidArgs,
                },
            },
    {
        plan_login(&self.args.refresh_token, &self.args.user_id, &self.args.user_pass)
    }
}

} // verus!
