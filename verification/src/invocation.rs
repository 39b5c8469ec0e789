//! From a game to the process that starts it.
//!
//! The library decides what is run, with which arguments and where. Running
//! it is left to the caller, who neither waits for the process nor restarts
//! it.

use crate::error::TwitchError;
use crate::launch::LaunchModel;
use crate::paths::{joined_path, path_join};
use crate::text::clone_texts;
use crate::twitch_game::{GameModel, TwitchGame};
use vstd::prelude::*;
use vstd::string::*;

verus! {

/// A process to start.
#[derive(Debug, PartialEq, Eq)]
pub struct Invocation {
    pub program: String,
    pub args: Vec<String>,
    /// Where to run the program; `None` keeps the caller's directory.
    pub working_directory: Option<String>,
}

/// What an `Invocation` holds, as mathematical values.
pub ghost struct InvocationModel {
    pub program: Seq<char>,
    pub args: Seq<Seq<char>>,
    pub working_directory: Option<Seq<char>>,
}

impl View for Invocation {
    type V = InvocationModel;

    open spec fn view(&self) -> InvocationModel {
        InvocationModel {
            program: self.program@,
            args: self.args.deep_view(),
            working_directory: self.working_directory.deep_view(),
        }
    }
}

/// The directory in which a title is run: the override of its manifest,
/// placed under the install directory, or else the install directory itself.
pub open spec fn working_directory_of(
    install_directory: Seq<char>,
    working_subdir_override: Option<Seq<char>>,
) -> Seq<char> {
    match working_subdir_override {
        Some(subdir) => joined_path(install_directory, subdir),
        None => install_directory,
    }
}

/// Runs `command` with `args` in `working_directory`.
pub open spec fn direct_invocation_of(
    command: Seq<char>,
    args: Seq<Seq<char>>,
    working_directory: Seq<char>,
) -> InvocationModel {
    InvocationModel { program: command, args, working_directory: Some(working_directory) }
}

/// Hands `launch_url` to the shell, which passes it on to the program that
/// is registered for its scheme.
pub open spec fn protocol_invocation_of(launch_url: Seq<char>) -> InvocationModel {
    InvocationModel {
        program: "cmd"@,
        args: seq!["/C"@, "start"@, launch_url],
        working_directory: None,
    }
}

/// The process that starts the game, none where its descriptor is
/// unresolved.
pub open spec fn invocation_of(game: GameModel) -> Option<InvocationModel> {
    match game.launch() {
        LaunchModel::Direct { command, args, working_subdir_override } => Some(
            direct_invocation_of(
                command,
                args,
                working_directory_of(game.install_directory->0, working_subdir_override),
            ),
        ),
        LaunchModel::Indirect { launch_url } => Some(protocol_invocation_of(launch_url)),
        LaunchModel::Unresolved => None,
    }
}

/// The directory in which a title is run.
pub fn working_directory(
    install_directory: &String,
    working_subdir_override: &Option<String>,
) -> (directory: String)
    ensures
        directory@ == working_directory_of(
            install_directory@,
            working_subdir_override.deep_view(),
        ),
{
    match working_subdir_override {
        Some(subdir) => path_join(install_directory.as_str(), subdir.as_str()),
        None => install_directory.clone(),
    }
}

/// The invocation of an executable: `command` with the arguments of the
/// game, none where it lists none, run in `working_directory`.
pub fn direct_invocation(
    command: &String,
    args: &Option<Vec<String>>,
    working_directory: String,
) -> (invocation: Invocation)
    ensures
        invocation@ == direct_invocation_of(
            command@,
            match args.deep_view() {
                Some(args) => args,
                None => Seq::empty(),
            },
            working_directory@,
        ),
{
    let list = match args {
        Some(args) => clone_texts(args),
        None => Vec::new(),
    };
    let invocation = Invocation {
        program: command.clone(),
        args: list,
        working_directory: Some(working_directory),
    };
    proof {
        assert(invocation@.args =~= match args.deep_view() {
            Some(args) => args,
            None => Seq::empty(),
        });
    }
    invocation
}

/// The invocation that hands a protocol URL to the shell.
pub fn protocol_invocation(launch_url: &String) -> (invocation: Invocation)
    ensures
        invocation@ == protocol_invocation_of(launch_url@),
{
    let mut args: Vec<String> = Vec::new();
    args.push(String::from_str("/C"));
    args.push(String::from_str("start"));
    args.push(launch_url.clone());
    let invocation = Invocation {
        program: String::from_str("cmd"),
        args,
        working_directory: None,
    };
    proof {
        assert(invocation@.args =~= seq!["/C"@, "start"@, launch_url@]);
    }
    invocation
}

impl TwitchGame {
    /// Decides how the game is started.
    ///
    /// A game with an install directory and a command is run as that command,
    /// in its working directory. Otherwise a game with a protocol URL is
    /// started through the shell. A game with neither cannot be started:
    /// the result is `MissingLaunchInformation`, and nothing is to be run.
    pub fn launch(&self) -> (result: Result<Invocation, TwitchError>)
        ensures
            match invocation_of(self@) {
                Some(invocation) => result matches Ok(i) && i@ == invocation,
                None => result matches Err(e) && e@ is MissingLaunchInformation,
            },
            self.command is None && self.launch_url is None ==> result is Err,
            result is Err <==> self@.launch() is Unresolved,
    {
        match (&self.install_directory, &self.command) {
            (Some(install_directory), Some(command)) => {
                return Ok(
                    direct_invocation(
                        command,
                        &self.args,
                        working_directory(install_directory, &self.working_subdir_override),
                    ),
                );
            },
            _ => {},
        }
        match &self.launch_url {
            Some(launch_url) => Ok(protocol_invocation(launch_url)),
            None => Err(TwitchError::MissingLaunchInformation),
        }
    }
}

} // verus!
