//! What can go wrong, and the message that tells the user.

use vstd::prelude::*;
use vstd::string::*;

verus! {

/// A failure that the library reports.
#[derive(Debug, PartialEq, Eq)]
pub enum TwitchError {
    /// The product registry is not where the Twitch client keeps it.
    ProductInfoMissing { path: String },
    /// The install registry is not where the Twitch client keeps it.
    InstallInfoMissing { path: String },
    /// The game has neither a command nor a protocol URL.
    MissingLaunchInformation,
    /// The icon URL of the game is no URL.
    ImageUrlInvalid,
    /// The icon URL of the game has no path, so it names no file.
    ImageUrlWithoutPath,
    /// The persisted catalog cannot be read, and no refresh was asked for
    /// that would build it anew.
    CatalogUnreadable,
}

/// What a `TwitchError` holds, as mathematical values.
pub ghost enum ErrorModel {
    ProductInfoMissing { path: Seq<char> },
    InstallInfoMissing { path: Seq<char> },
    MissingLaunchInformation,
    ImageUrlInvalid,
    ImageUrlWithoutPath,
    CatalogUnreadable,
}

impl View for TwitchError {
    type V = ErrorModel;

    open spec fn view(&self) -> ErrorModel {
        match self {
            TwitchError::ProductInfoMissing { path } => ErrorModel::ProductInfoMissing {
                path: path@,
            },
            TwitchError::InstallInfoMissing { path } => ErrorModel::InstallInfoMissing {
                path: path@,
            },
            TwitchError::MissingLaunchInformation => ErrorModel::MissingLaunchInformation,
            TwitchError::ImageUrlInvalid => ErrorModel::ImageUrlInvalid,
            TwitchError::ImageUrlWithoutPath => ErrorModel::ImageUrlWithoutPath,
            TwitchError::CatalogUnreadable => ErrorModel::CatalogUnreadable,
        }
    }
}

impl ErrorModel {
    /// The message of the error: for a missing registry it names the path
    /// that was tried.
    pub open spec fn message(self) -> Seq<char> {
        match self {
            ErrorModel::ProductInfoMissing { path } => "Product info missing: "@ + path,
            ErrorModel::InstallInfoMissing { path } => "Install info missing: "@ + path,
            ErrorModel::MissingLaunchInformation => {
                "Unable to launch: Missing launch_url or command"@
            },
            ErrorModel::ImageUrlInvalid => "Unable to parse url for image"@,
            ErrorModel::ImageUrlWithoutPath => "Unable to get filename from image url"@,
            ErrorModel::CatalogUnreadable => {
                "Unable to read the game cache: run with --refresh to rebuild it"@
            },
        }
    }
}

impl TwitchError {
    /// The message to show to the user.
    pub fn message(&self) -> (text: String)
        ensures
            text@ == self@.message(),
    {
        match self {
            TwitchError::ProductInfoMissing { path } => {
                let mut text = String::from_str("Product info missing: ");
                text.append(path.as_str());
                text
            },
            TwitchError::InstallInfoMissing { path } => {
                let mut text = String::from_str("Install info missing: ");
                text.append(path.as_str());
                text
            },
            TwitchError::MissingLaunchInformation => {
                String::from_str("Unable to launch: Missing launch_url or command")
            },
            TwitchError::ImageUrlInvalid => String::from_str("Unable to parse url for image"),
            TwitchError::ImageUrlWithoutPath => {
                String::from_str("Unable to get filename from image url")
            },
            TwitchError::CatalogUnreadable => {
                String::from_str("Unable to read the game cache: run with --refresh to rebuild it")
            },
        }
    }
}

} // verus!
