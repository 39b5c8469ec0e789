//! The two registries of the Twitch client, as flat records.

use crate::error::{ErrorModel, TwitchError};
use crate::paths::{joined_path, path_join};
use vstd::prelude::*;

verus! {

/// One row of the product registry: a title that the account owns.
#[derive(Debug, PartialEq, Eq)]
pub struct Product {
    pub id: String,
    pub date_time: String,
    pub background: String,
    pub background2: String,
    pub is_developer: isize,
    pub product_asin: String,
    pub product_asin_version: String,
    pub product_description: Option<String>,
    pub product_domain: String,
    pub product_icon_url: String,
    pub product_id_str: String,
    pub product_line: String,
    pub product_publisher: String,
    pub product_sku: String,
    pub product_title: String,
    pub screenshots_json: String,
    pub state: String,
    pub videos_json: String,
}

/// What a `Product` holds, as mathematical values.
pub ghost struct ProductModel {
    pub id: Seq<char>,
    pub date_time: Seq<char>,
    pub background: Seq<char>,
    pub background2: Seq<char>,
    pub is_developer: int,
    pub product_asin: Seq<char>,
    pub product_asin_version: Seq<char>,
    pub product_description: Option<Seq<char>>,
    pub product_domain: Seq<char>,
    pub product_icon_url: Seq<char>,
    pub product_id_str: Seq<char>,
    pub product_line: Seq<char>,
    pub product_publisher: Seq<char>,
    pub product_sku: Seq<char>,
    pub product_title: Seq<char>,
    pub screenshots_json: Seq<char>,
    pub state: Seq<char>,
    pub videos_json: Seq<char>,
}

impl View for Product {
    type V = ProductModel;

    open spec fn view(&self) -> ProductModel {
        ProductModel {
            id: self.id@,
            date_time: self.date_time@,
            background: self.background@,
            background2: self.background2@,
            is_developer: self.is_developer as int,
            product_asin: self.product_asin@,
            product_asin_version: self.product_asin_version@,
            product_description: self.product_description.deep_view(),
            product_domain: self.product_domain@,
            product_icon_url: self.product_icon_url@,
            product_id_str: self.product_id_str@,
            product_line: self.product_line@,
            product_publisher: self.product_publisher@,
            product_sku: self.product_sku@,
            product_title: self.product_title@,
            screenshots_json: self.screenshots_json@,
            state: self.state@,
            videos_json: self.videos_json@,
        }
    }
}

/// One row of the install registry: a title that is, or was, on this machine.
#[derive(Debug, PartialEq, Eq)]
pub struct Install {
    pub id: String,
    pub install_date: String,
    pub install_directory: String,
    pub install_version: Option<String>,
    pub install_version_name: Option<String>,
    pub installed: isize,
    pub last_known_latest_version: String,
    pub last_known_latest_version_timestamp: String,
    pub last_updated: String,
    pub last_played: String,
    pub product_asin: String,
    pub product_title: String,
}

/// What an `Install` holds, as mathematical values.
pub ghost struct InstallModel {
    pub id: Seq<char>,
    pub install_date: Seq<char>,
    pub install_directory: Seq<char>,
    pub install_version: Option<Seq<char>>,
    pub install_version_name: Option<Seq<char>>,
    pub installed: int,
    pub last_known_latest_version: Seq<char>,
    pub last_known_latest_version_timestamp: Seq<char>,
    pub last_updated: Seq<char>,
    pub last_played: Seq<char>,
    pub product_asin: Seq<char>,
    pub product_title: Seq<char>,
}

impl View for Install {
    type V = InstallModel;

    open spec fn view(&self) -> InstallModel {
        InstallModel {
            id: self.id@,
            install_date: self.install_date@,
            install_directory: self.install_directory@,
            install_version: self.install_version.deep_view(),
            install_version_name: self.install_version_name.deep_view(),
            installed: self.installed as int,
            last_known_latest_version: self.last_known_latest_version@,
            last_known_latest_version_timestamp: self.last_known_latest_version_timestamp@,
            last_updated: self.last_updated@,
            last_played: self.last_played@,
            product_asin: self.product_asin@,
            product_title: self.product_title@,
        }
    }
}

/// The value of `Install::installed` that marks a title as installed.
pub const INSTALLED: isize = 1;

/// A snapshot of both registries.
#[derive(Debug, PartialEq, Eq)]
pub struct TwitchDb {
    pub products: Vec<Product>,
    pub installs: Vec<Install>,
}

/// What a `TwitchDb` holds, as mathematical values.
pub ghost struct TwitchDbModel {
    pub products: Seq<ProductModel>,
    pub installs: Seq<InstallModel>,
}

/// The models of a sequence of products, in order.
pub open spec fn product_models(products: Seq<Product>) -> Seq<ProductModel> {
    Seq::new(products.len(), |i: int| products[i]@)
}

/// The models of a sequence of installs, in order.
pub open spec fn install_models(installs: Seq<Install>) -> Seq<InstallModel> {
    Seq::new(installs.len(), |i: int| installs[i]@)
}

impl View for TwitchDb {
    type V = TwitchDbModel;

    open spec fn view(&self) -> TwitchDbModel {
        TwitchDbModel {
            products: product_models(self.products@),
            installs: install_models(self.installs@),
        }
    }
}

/// Where the Twitch client keeps the product registry, below the
/// configuration directory of the user.
pub open spec fn product_info_file() -> Seq<char> {
    "Twitch\\Games\\Sql\\GameProductInfo.sqlite"@
}

/// Where the Twitch client keeps the install registry, below the program
/// data directory of the machine.
pub open spec fn install_info_file() -> Seq<char> {
    "Twitch\\Games\\Sql\\GameInstallInfo.sqlite"@
}

/// The name of the file in which a registry snapshot is cached.
pub open spec fn snapshot_file() -> Seq<char> {
    "twitchdb.json"@
}

/// The path of a registry that is there, or the error that names the path
/// where it is missing.
pub open spec fn source_model(source: Result<String, TwitchError>) -> Result<
    Seq<char>,
    ErrorModel,
> {
    match source {
        Ok(path) => Ok(path@),
        Err(e) => Err(e@),
    }
}

impl TwitchDb {
    /// The path of the product registry.
    pub fn product_info_path(config: &str) -> (path: String)
        ensures
            path@ == joined_path(config@, product_info_file()),
    {
        path_join(config, "Twitch\\Games\\Sql\\GameProductInfo.sqlite")
    }

    /// The path of the install registry.
    pub fn install_info_path(program_data: &str) -> (path: String)
        ensures
            path@ == joined_path(program_data@, install_info_file()),
    {
        path_join(program_data, "Twitch\\Games\\Sql\\GameInstallInfo.sqlite")
    }

    /// The path of the cached registry snapshot.
    pub fn cache_path(cache_dir: &str) -> (path: String)
        ensures
            path@ == joined_path(cache_dir@, snapshot_file()),
    {
        path_join(cache_dir, "twitchdb.json")
    }

    /// Decides whether the product registry at `path` can be loaded: a
    /// registry that is not there ends the refresh with an error that names
    /// the path.
    pub fn require_product_info(path: String, present: bool) -> (source: Result<
        String,
        TwitchError,
    >)
        ensures
            source_model(source) == if present {
                Ok::<Seq<char>, ErrorModel>(path@)
            } else {
                Err(ErrorModel::ProductInfoMissing { path: path@ })
            },
    {
        if present {
            Ok(path)
        } else {
            Err(TwitchError::ProductInfoMissing { path })
        }
    }

    /// Decides whether the install registry at `path` can be loaded: a
    /// registry that is not there ends the refresh with an error that names
    /// the path.
    pub fn require_install_info(path: String, present: bool) -> (source: Result<
        String,
        TwitchError,
    >)
        ensures
            source_model(source) == if present {
                Ok::<Seq<char>, ErrorModel>(path@)
            } else {
                Err(ErrorModel::InstallInfoMissing { path: path@ })
            },
    {
        if present {
            Ok(path)
        } else {
            Err(TwitchError::InstallInfoMissing { path })
        }
    }

    /// Whether the registries have to be read again: on request, and
    /// whenever no snapshot is cached.
    pub fn refresh_needed(requested: bool, snapshot_present: bool) -> (needed: bool)
        ensures
            needed == (requested || !snapshot_present),
    {
        requested || !snapshot_present
    }
}

} // verus!
