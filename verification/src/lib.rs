//! Catalog of the titles that the Twitch desktop client knows and has installed.
//!
//! The library joins the client's product registry with its install registry
//! into a set of games, resolves how each installed game is started from its
//! launch manifest, reconciles a freshly built set with a persisted one, and
//! turns a game into the process invocation that starts it. It performs no
//! I/O: callers read the registries and manifests and run the invocations.
//!
//! A refresh goes in these steps:
//!
//! 1. read the two registries into a [`TwitchDb`];
//! 2. ask [`twitch_game::manifest_directories`] which install directories
//!    hold a manifest that matters, read the file at [`fuel::manifest_path`]
//!    of each, and collect those that parse as [`Manifest`]s;
//! 3. build the fresh catalog with [`TwitchGame::from_db`];
//! 4. reconcile it with the persisted one by [`merge`].
//!
//! [`TwitchGame::launch`] then says what to run for a game.
//!
//! Every function is verified against a contract over the mathematical
//! models of its arguments (`Seq<char>` for text). Paths and URLs are taken
//! apart by `std::path` and the `url` crate; what these return is known to
//! the proofs by name only, see [`paths`] and [`image`].

pub mod catalog;
pub mod error;
pub mod fuel;
pub mod image;
pub mod invocation;
pub mod launch;
pub mod listing;
pub mod paths;
mod text;
pub mod twitch_db;
pub mod twitch_game;

pub use catalog::{merge, Twitch};
pub use error::TwitchError;
pub use fuel::{Fuel, FuelCommand, Manifest};
pub use invocation::Invocation;
pub use launch::LaunchDescriptor;
pub use twitch_db::{Install, Product, TwitchDb};
pub use twitch_game::TwitchGame;
