//! Where the icon of a game is kept on disk.
//!
//! The icon is stored under the name that its URL ends in. Taking a URL
//! apart is the work of the `url` crate.

use crate::error::{ErrorModel, TwitchError};
use crate::paths::{joined_path, path_join};
use crate::twitch_game::TwitchGame;
use url::Url;
use vstd::prelude::*;

verus! {

/// The path of a URL, as the `url` crate reads it.
#[derive(Debug, PartialEq, Eq)]
pub enum UrlPath {
    /// The text is no URL.
    Invalid,
    /// The URL cannot be a base (`data:`, `mailto:`): it has no path segments.
    Opaque,
    /// The segments of the path, between its slashes.
    Segments(Vec<String>),
}

/// What a `UrlPath` holds, as mathematical values.
pub ghost enum UrlPathModel {
    Invalid,
    Opaque,
    Segments(Seq<Seq<char>>),
}

impl View for UrlPath {
    type V = UrlPathModel;

    open spec fn view(&self) -> UrlPathModel {
        match self {
            UrlPath::Invalid => UrlPathModel::Invalid,
            UrlPath::Opaque => UrlPathModel::Opaque,
            UrlPath::Segments(segments) => UrlPathModel::Segments(segments.deep_view()),
        }
    }
}

/// What `Url::parse` and then `Url::path_segments` make of a text.
pub uninterp spec fn url_path(input: Seq<char>) -> UrlPathModel;

/// Calls `url::Url::parse` and, on the URL it gives, `url::Url::path_segments`.
///
/// Trusted: the result is `url_path` of the text: `Invalid` where the parser
/// rejects it, `Opaque` where the URL has no path segments, and else the
/// segments, percent-encoded as the parser leaves them. There is always at
/// least one segment, which may be empty.
#[verifier::external_body]
pub(crate) fn parse_url_path(input: &str) -> (path: UrlPath)
    ensures
        path@ == url_path(input@),
        path matches UrlPath::Segments(segments) ==> segments.len() >= 1,
{
    match Url::parse(input) {
        Ok(url) => match url.path_segments() {
            Some(segments) => UrlPath::Segments(segments.map(|s| s.to_owned()).collect()),
            None => UrlPath::Opaque,
        },
        Err(_) => UrlPath::Invalid,
    }
}

/// The file name that a URL path ends in: its last segment.
pub open spec fn file_name_of_path(path: UrlPathModel) -> Result<Seq<char>, ErrorModel> {
    match path {
        UrlPathModel::Invalid => Err(ErrorModel::ImageUrlInvalid),
        UrlPathModel::Opaque => Err(ErrorModel::ImageUrlWithoutPath),
        UrlPathModel::Segments(segments) => if segments.len() > 0 {
            Ok(segments.last())
        } else {
            Err(ErrorModel::ImageUrlWithoutPath)
        },
    }
}

/// The text of a file name, or the error.
pub open spec fn name_model(name: Result<String, TwitchError>) -> Result<Seq<char>, ErrorModel> {
    match name {
        Ok(name) => Ok(name@),
        Err(e) => Err(e@),
    }
}

/// The file name that a URL path ends in.
pub fn file_name_of(path: UrlPath) -> (name: Result<String, TwitchError>)
    ensures
        name_model(name) == file_name_of_path(path@),
{
    match path {
        UrlPath::Invalid => Err(TwitchError::ImageUrlInvalid),
        UrlPath::Opaque => Err(TwitchError::ImageUrlWithoutPath),
        UrlPath::Segments(mut segments) => {
            let ghost before = segments.deep_view();
            match segments.pop() {
                Some(last) => {
                    assert(last@ == before.last());
                    Ok(last)
                },
                None => Err(TwitchError::ImageUrlWithoutPath),
            }
        },
    }
}

/// The name of the file that the icon at `image_url` is kept in.
pub fn image_file_name(image_url: &str) -> (name: Result<String, TwitchError>)
    ensures
        name_model(name) == file_name_of_path(url_path(image_url@)),
        name is Ok <==> url_path(image_url@) is Segments,
{
    file_name_of(parse_url_path(image_url))
}

impl TwitchGame {
    /// The path of the file in `image_folder` that the icon of the game is
    /// kept in.
    pub fn image_file(&self, image_folder: &str) -> (path: Result<String, TwitchError>)
        ensures
            name_model(path) == match file_name_of_path(url_path(self.image_url@)) {
                Ok(name) => Ok(joined_path(image_folder@, name)),
                Err(e) => Err(e),
            },
    {
        match image_file_name(self.image_url.as_str()) {
            Ok(name) => Ok(path_join(image_folder, name.as_str())),
            Err(e) => Err(e),
        }
    }
}

} // verus!
