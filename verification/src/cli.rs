//! The command-line surface: which subcommand a run executes. Parsing the
//! actual command line is the application's job.

use vstd::prelude::*;

use crate::download::DownloadArgs;
use crate::login::LoginArgs;

verus! {

/// A chosen subcommand with its arguments.
#[derive(Debug)]
pub enum CliCommand {
    Login(LoginArgs),
    Download(DownloadArgs),
}

/// A parsed invocation.
#[derive(Debug)]
pub struct Cli {
    pub debug: bool,
    pub command: CliCommand,
}

} // verus!
