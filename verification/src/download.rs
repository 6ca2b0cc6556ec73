//! The download command: its arguments, the per-report download source,
//! and the run setup that merges the stored profile and builds the session.

use vstd::prelude::*;
use vstd::string::StringExecFns;

use crate::child::GetReportsParam;
use crate::config::{KidsnoteConfigProfile, KnBackupConfig};
use crate::login::{plan_login, spec_merged_opt, LoginPlan};
use crate::options::KidsnoteOptions;
use crate::resource::{ResourceImageModel, ResourceImageResponse};
use crate::strutil::clone_opt_string;
use crate::KidsnoteSdk;

verus! {

/// Arguments of the download command.
#[derive(Debug)]
pub struct DownloadArgs {
    /// Client ID
    pub client_id: Option<String>,
    /// UserID of the account
    pub user_id: Option<String>,
    /// Password of the account
    pub user_pass: Option<String>,
    /// RefreshToken of the account
    pub refresh_token: Option<String>,
    /// Config file path
    pub config_path: String,
    /// Backup start date
    pub date_start: Option<String>,
    /// Backup end date
    pub date_end: Option<String>,
    /// Output directory
    pub output_dir: String,
    /// Dry run: log intended actions, write nothing
    pub test: bool,
}

impl DownloadArgs {
    /// Defaults: config under the home directory, output under `./output`,
    /// no credentials, no date filter, real writes.
    pub fn new() -> (r: DownloadArgs)
        ensures
            r.client_id is None,
            r.user_id is None,
            r.user_pass is None,
            r.refresh_token is None,
            r.config_path@ == "~/.knbackup/config.toml"@,
            r.date_start is None,
            r.date_end is None,
            r.output_dir@ == "./output"@,
            r.test == false,
    {
        DownloadArgs {
            client_id: None,
            user_id: None,
            user_pass: None,
            refresh_token: None,
            config_path: String::from_str("~/.knbackup/config.toml"),
            date_start: None,
            date_end: None,
            output_dir: String::from_str("./output"),
            test: false,
        }
    }

    /// Fill user id and refresh token from a stored profile, where the
    /// arguments do not already carry them.
    pub fn update_profile(&mut self, profile: &KidsnoteConfigProfile)
        ensures
            final(self).refresh_token.deep_view() == spec_merged_opt(
                old(self).refresh_token.deep_view(),
                profile@.refresh_token,
            ),
            final(self).user_id.deep_view() == spec_merged_opt(
                old(self).user_id.deep_view(),
                profile@.user_id,
            ),
            final(self).client_id == old(self).client_id,
            final(self).user_pass == old(self).user_pass,
            final(self).config_path == old(self).config_path,
            final(self).date_start == old(self).date_start,
            final(self).date_end == old(self).date_end,
            final(self).output_dir == old(self).output_dir,
            final(self).test == old(self).test,
    {
        if self.refresh_token.is_none() && profile.refresh_token.is_some() {
            self.refresh_token = clone_opt_string(&profile.refresh_token);
        }
        if self.user_id.is_none() && profile.user_id.is_some() {
            self.user_id = clone_opt_string(&profile.user_id);
        }
    }
}

impl Clone for DownloadArgs {
    fn clone(&self) -> (r: Self)
        ensures
            r.client_id.deep_view() == self.client_id.deep_view(),
            r.user_id.deep_view() == self.user_id.deep_view(),
            r.user_pass.deep_view() == self.user_pass.deep_view(),
            r.refresh_token.deep_view() == self.refresh_token.deep_view(),
            r.config_path@ == self.config_path@,
            r.date_start.deep_view() == self.date_start.deep_view(),
            r.date_end.deep_view() == self.date_end.deep_view(),
            r.output_dir@ == self.output_dir@,
            r.test == self.test,
    {
        DownloadArgs {
            client_id: clone_opt_string(&self.client_id),
            user_id: clone_opt_string(&self.user_id),
            user_pass: clone_opt_string(&self.user_pass),
            refresh_token: clone_opt_string(&self.refresh_token),
            config_path: self.config_path.clone(),
            date_start: clone_opt_string(&self.date_start),
            date_end: clone_opt_string(&self.date_end),
            output_dir: self.output_dir.clone(),
            test: self.test,
        }
    }
}

impl Default for DownloadArgs {
    fn default() -> (r: Self)
        ensures
            r.client_id is None,
            r.user_id is None,
            r.user_pass is None,
            r.refresh_token is None,
            r.config_path@ == "~/.knbackup/config.toml"@,
            r.date_start is None,
            r.date_end is None,
            r.output_dir@ == "./output"@,
            r.test == false,
    {
        Self::new()
    }
}

/// Everything the asset downloader needs for one report: metadata for the
/// output layout, the text content, and the attached images.
#[derive(Debug)]
pub struct DownloadSource {
    /// Label of the feed the report came from (the notification journal).
    pub source_type: String,
    pub source_id: u64,
    /// Creation time of the report, as non-leap seconds since the Unix
    /// epoch (UTC).
    pub report_date: i64,
    pub report_content: Option<String>,
    pub author_name: String,
    /// Resolved center name; empty when the lookup knows no name.
    pub center_name: Option<String>,
    pub class_id: u64,
    pub class_name: String,
    pub child_id: u64,
    pub child_name: String,
    pub attached_images: Vec<ResourceImageResponse>,
}

/// Mathematical value of a download source.
pub ghost struct SourceModel {
    pub source_type: Seq<char>,
    pub source_id: u64,
    pub report_date: int,
    pub report_content: Option<Seq<char>>,
    pub author_name: Seq<char>,
    pub center_name: Option<Seq<char>>,
    pub class_id: u64,
    pub class_name: Seq<char>,
    pub child_id: u64,
    pub child_name: Seq<char>,
    pub attached_images: Seq<ResourceImageModel>,
}

impl View for DownloadSource {
    type V = SourceModel;

    open spec fn view(&self) -> SourceModel {
        SourceModel {
            source_type: self.source_type@,
            source_id: self.source_id,
            report_date: self.report_date as int,
            report_content: self.report_content.deep_view(),
            author_name: self.author_name@,
            center_name: self.center_name.deep_view(),
            class_id: self.class_id,
            class_name: self.class_name@,
            child_id: self.child_id,
            child_name: self.child_name@,
            attached_images: self.attached_images.deep_view(),
        }
    }
}

impl DeepView for DownloadSource {
    type V = SourceModel;

    open spec fn deep_view(&self) -> SourceModel {
        self@
    }
}

/// The download command: its arguments after the profile merge, the loaded
/// configuration, and the session client.
pub struct DownloadCommand {
    pub args: DownloadArgs,
    pub config: KnBackupConfig,
    pub kidsnote_sdk: KidsnoteSdk,
}

impl DownloadCommand {
    /// Set up a download run: merge the stored profile into the arguments,
    /// create the session from the client id, and install a supplied
    /// refresh token.
    pub fn new(args: DownloadArgs, config: KnBackupConfig) -> (r: DownloadCommand)
        ensures
            r.config@ == config@,
            r.args.client_id.deep_view() == args.client_id.deep_view(),
            r.args.user_pass.deep_view() == args.user_pass.deep_view(),
            r.args.config_path@ == args.config_path@,
            r.args.date_start.deep_view() == args.date_start.deep_view(),
            r.args.date_end.deep_view() == args.date_end.deep_view(),
            r.args.output_dir@ == args.output_dir@,
            r.args.test == args.test,
            r.args.refresh_token.deep_view() == spec_merged_opt(
                args.refresh_token.deep_view(),
                match config@ {
                    Some(p) => p.refresh_token,
                    None => None,
                },
            ),
            r.args.user_id.deep_view() == spec_merged_opt(
                args.user_id.deep_view(),
                match config@ {
                    Some(p) => p.user_id,
                    None => None,
                },
            ),
            r.kidsnote_sdk@.host == crate::options::spec_default_host(),
            r.kidsnote_sdk@.client_id == (match args.client_id.deep_view() {
                Some(c) => c,
                None => crate::options::spec_default_client_id(),
            }),
            r.kidsnote_sdk@.refresh_token == r.args.refresh_token.deep_view(),
            r.kidsnote_sdk@.user_id == (if r.args.refresh_token.deep_view() is Some {
                r.args.user_id.deep_view()
            } else {
                None
            }),
            r.kidsnote_sdk@.access_token is None,
    {
        let mut args = args;
        if let Some(profile) = &config.default {
            args.update_profile(profile);
        }
        let kidsnote_options = KidsnoteOptions::new(clone_opt_string(&args.client_id));
        let mut kidsnote_sdk = KidsnoteSdk::new(kidsnote_options);
        if let Some(refresh_token) = clone_opt_string(&args.refresh_token) {
            kidsnote_sdk.set_refresh_token(refresh_token, clone_opt_string(&args.user_id));
        }
        DownloadCommand { args, config, kidsnote_sdk }
    }

    /// The login method this run attempts.
    pub fn login_plan(&self) -> (r: LoginPlan)
        ensures
            match self.args.refresh_token.deep_view() {
                Some(rt) => r matches LoginPlan::UseRefreshToken(t) && t@ == rt,
                None => match (self.args.user_id.deep_view(), self.args.user_pass.deep_view()) {
                    (Some(u), Some(p)) => r matches LoginPlan::UsePassword(ru, rp) && ru@ == u
                        && rp@ == p,
                    _ => r is InvalidArgs,
                },
            },
    {
        plan_login(&self.args.refresh_token, &self.args.user_id, &self.args.user_pass)
    }

    /// The reports query of this run, with the date filter normalized.
    pub fn report_param(&self) -> (r: GetReportsParam)
        ensures
            r@.page is None,
            r@.page_size == Some(10int),
            r@.center_id is None,
            r@.cls is None,
            match (self.args.date_start.deep_view(), self.args.date_end.deep_view()) {
                (Some(ds), Some(de)) => r@.date_start == Some(ds) && r@.date_end == Some(de)
                    && r@.tz == Some(crate::child::spec_filter_timezone()),
                (Some(ds), None) => r@.date_start == Some(ds) && r@.date_end == Some(ds) && r@.tz
                    == Some(crate::child::spec_filter_timezone()),
                (None, Some(de)) => r@.date_start == Some(de) && r@.date_end == Some(de) && r@.tz
                    == Some(crate::child::spec_filter_timezone()),
                (None, None) => r@.date_start is None && r@.date_end is None && r@.tz is None,
            },
    {
        GetReportsParam::new_with_date_filter(&self.args.date_start, &self.args.date_end)
    }
}

} // verus!
