//! How an installed title is started: the launch descriptor that its manifest
//! resolves to.

use crate::fuel::{Fuel, FuelCommand, FuelCommandModel, FuelModel};
use crate::paths::{base_name, joined_path, path_file_name, path_join};
use crate::text::{clone_text, clone_texts};
use vstd::prelude::*;
use vstd::string::*;

verus! {

/// The way to start a title.
#[derive(Debug, PartialEq, Eq)]
pub enum LaunchDescriptor {
    /// Run an executable.
    Direct {
        /// The executable, with the install directory in front.
        command: String,
        args: Vec<String>,
        /// Where to run it, relative to the install directory.
        working_subdir_override: Option<String>,
    },
    /// Hand a protocol URL to the Twitch client.
    Indirect { launch_url: String },
    /// Nothing is known: the title cannot be started.
    Unresolved,
}

/// What a `LaunchDescriptor` holds, as mathematical values.
pub ghost enum LaunchModel {
    Direct { command: Seq<char>, args: Seq<Seq<char>>, working_subdir_override: Option<Seq<char>> },
    Indirect { launch_url: Seq<char> },
    Unresolved,
}

impl View for LaunchDescriptor {
    type V = LaunchModel;

    open spec fn view(&self) -> LaunchModel {
        match self {
            LaunchDescriptor::Direct { command, args, working_subdir_override } => {
                LaunchModel::Direct {
                    command: command@,
                    args: args.deep_view(),
                    working_subdir_override: working_subdir_override.deep_view(),
                }
            },
            LaunchDescriptor::Indirect { launch_url } => LaunchModel::Indirect {
                launch_url: launch_url@,
            },
            LaunchDescriptor::Unresolved => LaunchModel::Unresolved,
        }
    }
}

/// What every protocol URL starts with: the scheme and the launch action.
pub open spec fn launch_url_prefix() -> Seq<char> {
    "twitch://fuel-launch/"@
}

/// The protocol URL that starts the title with this identifier.
pub open spec fn protocol_url_of(game_id: Seq<char>) -> Seq<char> {
    launch_url_prefix() + game_id
}

/// The descriptor of a title that the Twitch client starts. Its identifier is
/// the name of its install directory; without one it cannot be started.
pub open spec fn indirect_launch_of(game_id: Option<Seq<char>>) -> LaunchModel {
    match game_id {
        Some(id) => LaunchModel::Indirect { launch_url: protocol_url_of(id) },
        None => LaunchModel::Unresolved,
    }
}

/// The descriptor of a title that is run as the executable `command`:
/// the arguments of the manifest, none where it lists none, and its working
/// directory override.
pub open spec fn direct_launch_of(main: FuelCommandModel, command: Seq<char>) -> LaunchModel {
    LaunchModel::Direct {
        command,
        args: match main.args {
            Some(args) => args,
            None => Seq::empty(),
        },
        working_subdir_override: main.working_subdir_override,
    }
}

/// The descriptor that the manifest `fuel`, found in `install_directory`,
/// resolves to: a client identifier asks for the protocol URL, and anything
/// else for the executable.
pub open spec fn resolved_launch(install_directory: Seq<char>, fuel: FuelModel) -> LaunchModel {
    if fuel.main.client_id is Some {
        indirect_launch_of(base_name(install_directory))
    } else {
        direct_launch_of(fuel.main, joined_path(install_directory, fuel.main.command))
    }
}

/// A resolved descriptor never is both direct and indirect, and is direct
/// exactly where the manifest names no client identifier.
pub proof fn lemma_resolved_launch_kind(install_directory: Seq<char>, fuel: FuelModel)
    ensures
        resolved_launch(install_directory, fuel) is Direct <==> fuel.main.client_id is None,
        resolved_launch(install_directory, fuel) is Indirect <==> fuel.main.client_id is Some
            && base_name(install_directory) is Some,
        resolved_launch(install_directory, fuel) is Indirect ==> resolved_launch(
            install_directory,
            fuel,
        )->launch_url == protocol_url_of(base_name(install_directory)->0),
{
}

/// Builds the protocol URL of the title with this identifier.
pub fn protocol_url(game_id: &str) -> (url: String)
    ensures
        url@ == protocol_url_of(game_id@),
{
    let mut url = String::from_str("twitch://fuel-launch/");
    url.append(game_id);
    url
}

/// The descriptor of a title that the Twitch client starts, from the name of
/// its install directory.
pub fn indirect_launch(game_id: Option<String>) -> (launch: LaunchDescriptor)
    ensures
        launch@ == indirect_launch_of(game_id.deep_view()),
{
    match game_id {
        Some(id) => LaunchDescriptor::Indirect { launch_url: protocol_url(id.as_str()) },
        None => LaunchDescriptor::Unresolved,
    }
}

/// The descriptor of a title that is run as the executable `command`, which
/// is the manifest's command with the install directory in front.
pub fn direct_launch(main: &FuelCommand, command: String) -> (launch: LaunchDescriptor)
    ensures
        launch@ == direct_launch_of(main@, command@),
{
    let args = match &main.args {
        Some(args) => clone_texts(args),
        None => Vec::new(),
    };
    let launch = LaunchDescriptor::Direct {
        command,
        args,
        working_subdir_override: clone_text(&main.working_subdir_override),
    };
    proof {
        assert(launch@->args =~= direct_launch_of(main@, command@)->args);
    }
    launch
}

/// Resolves the manifest `fuel` of the title installed in
/// `install_directory`.
pub fn resolve(install_directory: &str, fuel: &Fuel) -> (launch: LaunchDescriptor)
    ensures
        launch@ == resolved_launch(install_directory@, fuel@),
{
    if fuel.main.client_id.is_some() {
        indirect_launch(path_file_name(install_directory))
    } else {
        direct_launch(&fuel.main, path_join(install_directory, fuel.main.command.as_str()))
    }
}

} // verus!
