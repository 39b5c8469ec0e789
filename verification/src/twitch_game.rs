//! The game: a product of the registry joined with its install record and
//! with the way to start it.

use crate::fuel::{find_manifest, manifest_for, manifest_models, Manifest, ManifestModel};
use crate::launch::{resolve, resolved_launch, LaunchDescriptor, LaunchModel};
use crate::twitch_db::{
    install_models, product_models, Install, InstallModel, Product, ProductModel, TwitchDb,
    TwitchDbModel, INSTALLED,
};
use vstd::prelude::*;

verus! {

/// A title of the catalog.
///
/// The fields up to `launch_url` come from the registries and the manifest
/// and are rewritten by every refresh. `image_path`, `kids` and `players` are
/// kept by the user or the front end: no registry supplies them, and a
/// refresh leaves them alone.
#[derive(Debug, PartialEq, Eq)]
pub struct TwitchGame {
    /// The key that the product and install registries share.
    pub asin: String,
    pub title: String,
    pub image_url: String,
    pub installed: bool,
    pub install_directory: Option<String>,
    pub working_subdir_override: Option<String>,
    pub command: Option<String>,
    pub args: Option<Vec<String>>,
    pub launch_url: Option<String>,
    /// Where the front end keeps the downloaded icon.
    pub image_path: Option<String>,
    /// Whether the title is shown in the launcher for children.
    pub kids: Option<bool>,
    /// For how many players the title is.
    pub players: Option<usize>,
}

/// What a `TwitchGame` holds, as mathematical values.
pub ghost struct GameModel {
    pub asin: Seq<char>,
    pub title: Seq<char>,
    pub image_url: Seq<char>,
    pub installed: bool,
    pub install_directory: Option<Seq<char>>,
    pub working_subdir_override: Option<Seq<char>>,
    pub command: Option<Seq<char>>,
    pub args: Option<Seq<Seq<char>>>,
    pub launch_url: Option<Seq<char>>,
    pub image_path: Option<Seq<char>>,
    pub kids: Option<bool>,
    pub players: Option<usize>,
}

impl View for TwitchGame {
    type V = GameModel;

    open spec fn view(&self) -> GameModel {
        GameModel {
            asin: self.asin@,
            title: self.title@,
            image_url: self.image_url@,
            installed: self.installed,
            install_directory: self.install_directory.deep_view(),
            working_subdir_override: self.working_subdir_override.deep_view(),
            command: self.command.deep_view(),
            args: self.args.deep_view(),
            launch_url: self.launch_url.deep_view(),
            image_path: self.image_path.deep_view(),
            kids: self.kids,
            players: self.players,
        }
    }
}

/// The models of a sequence of games, in order.
pub open spec fn game_models(games: Seq<TwitchGame>) -> Seq<GameModel> {
    Seq::new(games.len(), |i: int| games[i]@)
}

impl GameModel {
    /// The launch descriptor that the fields of the game spell out. A command
    /// counts only together with an install directory, and goes before a
    /// protocol URL.
    pub open spec fn launch(self) -> LaunchModel {
        if self.install_directory is Some && self.command is Some {
            LaunchModel::Direct {
                command: self.command->0,
                args: match self.args {
                    Some(args) => args,
                    None => Seq::empty(),
                },
                working_subdir_override: self.working_subdir_override,
            }
        } else if self.launch_url is Some {
            LaunchModel::Indirect { launch_url: self.launch_url->0 }
        } else {
            LaunchModel::Unresolved
        }
    }

    /// At most one of command and protocol URL is there.
    pub open spec fn launch_exclusive(self) -> bool {
        !(self.command is Some && self.launch_url is Some)
    }

    /// What holds of every game that the catalog builds: the two ways to
    /// start it exclude each other, only an installed game can be started,
    /// an installed game has its directory, and arguments and working
    /// directory come with a command only.
    pub open spec fn well_formed(self) -> bool {
        &&& self.launch_exclusive()
        &&& (self.command is Some || self.launch_url is Some) ==> self.installed
        &&& self.installed ==> self.install_directory is Some
        &&& self.command is None ==> self.args is None && self.working_subdir_override is None
    }
}

/// No two games of the sequence share a key: the sequence is a catalog.
pub open spec fn distinct_keys(games: Seq<GameModel>) -> bool {
    forall|i: int, j: int|
        0 <= i < games.len() && 0 <= j < games.len() && games[i].asin == games[j].asin ==> i == j
}

/// Install `i` is the one and only record of the product `asin`.
pub open spec fn is_only_match(installs: Seq<InstallModel>, asin: Seq<char>, i: int) -> bool {
    &&& 0 <= i < installs.len()
    &&& installs[i].product_asin == asin
    &&& forall|j: int|
        0 <= j < installs.len() && installs[j].product_asin == asin ==> j == i
}

/// The install record of the product `asin`, where exactly one record names
/// it. With none the product was never installed; with several nobody can say
/// which one holds, and the product counts as not installed.
pub open spec fn sole_install(installs: Seq<InstallModel>, asin: Seq<char>) -> Option<
    InstallModel,
> {
    if exists|i: int| is_only_match(installs, asin, i) {
        Some(installs[choose|i: int| is_only_match(installs, asin, i)])
    } else {
        None
    }
}

/// Whether the record, if there is one, says that the title is installed.
pub open spec fn is_installed(record: Option<InstallModel>) -> bool {
    record matches Some(r) && r.installed == INSTALLED
}

/// The descriptor of a title with this install record: that of its manifest
/// where the title is installed and the manifest of its directory was read,
/// and unresolved otherwise.
pub open spec fn built_launch(
    record: Option<InstallModel>,
    manifests: Seq<ManifestModel>,
) -> LaunchModel {
    if is_installed(record) {
        match manifest_for(manifests, record->0.install_directory) {
            Some(fuel) => resolved_launch(record->0.install_directory, fuel),
            None => LaunchModel::Unresolved,
        }
    } else {
        LaunchModel::Unresolved
    }
}

/// The game of a product, given its install record and the descriptor that
/// its manifest resolved to. The descriptor counts only where the record says
/// that the title is installed. The fields that no registry supplies start
/// out empty.
pub open spec fn new_game(
    product: ProductModel,
    record: Option<InstallModel>,
    resolved: LaunchModel,
) -> GameModel {
    let launch = if is_installed(record) {
        resolved
    } else {
        LaunchModel::Unresolved
    };
    GameModel {
        asin: product.product_asin,
        title: product.product_title,
        image_url: product.product_icon_url,
        installed: is_installed(record),
        install_directory: match record {
            Some(r) => Some(r.install_directory),
            None => None,
        },
        working_subdir_override: match launch {
            LaunchModel::Direct { working_subdir_override, .. } => working_subdir_override,
            _ => None,
        },
        command: match launch {
            LaunchModel::Direct { command, .. } => Some(command),
            _ => None,
        },
        args: match launch {
            LaunchModel::Direct { args, .. } => Some(args),
            _ => None,
        },
        launch_url: match launch {
            LaunchModel::Indirect { launch_url } => Some(launch_url),
            _ => None,
        },
        image_path: None,
        kids: None,
        players: None,
    }
}

/// The game that the catalog builds for a product.
pub open spec fn built_game(
    product: ProductModel,
    installs: Seq<InstallModel>,
    manifests: Seq<ManifestModel>,
) -> GameModel {
    let record = sole_install(installs, product.product_asin);
    new_game(product, record, built_launch(record, manifests))
}

/// The games of a product registry: one game for each product, in the order
/// of the products.
pub open spec fn built_games(
    products: Seq<ProductModel>,
    installs: Seq<InstallModel>,
    manifests: Seq<ManifestModel>,
) -> Seq<GameModel> {
    Seq::new(products.len(), |i: int| built_game(products[i], installs, manifests))
}

/// The catalog of a registry snapshot.
pub open spec fn built_catalog(db: TwitchDbModel, manifests: Seq<ManifestModel>) -> Seq<
    GameModel,
> {
    built_games(db.products, db.installs, manifests)
}

/// The model of an install record that may be missing.
pub open spec fn record_model(record: Option<&Install>) -> Option<InstallModel> {
    match record {
        Some(r) => Some(r@),
        None => None,
    }
}

/// Only one install can be the only match of a product.
pub proof fn lemma_only_match_unique(installs: Seq<InstallModel>, asin: Seq<char>, i: int, j: int)
    requires
        is_only_match(installs, asin, i),
        is_only_match(installs, asin, j),
    ensures
        i == j,
{
}

/// Finds the install record of the product `asin`, if exactly one record
/// names it.
pub fn find_install(installs: &Vec<Install>, asin: &String) -> (found: Option<usize>)
    ensures
        match found {
            Some(i) => is_only_match(install_models(installs@), asin@, i as int),
            None => forall|i: int| !is_only_match(install_models(installs@), asin@, i),
        },
        sole_install(install_models(installs@), asin@) == match found {
            Some(i) => Some(installs[i as int]@),
            None => None,
        },
{
    let ghost models = install_models(installs@);
    let mut first: Option<usize> = None;
    let mut several = false;
    let ghost mut second: int = 0;
    let mut i: usize = 0;
    while i < installs.len()
        invariant
            i <= installs.len(),
            models == install_models(installs@),
            first is None ==> !several,
            first is None ==> forall|j: int| 0 <= j < i ==> models[j].product_asin != asin@,
            first matches Some(f) ==> f < i && models[f as int].product_asin == asin@,
            first is Some && !several ==> forall|j: int|
                0 <= j < i && models[j].product_asin == asin@ ==> j == first->0,
            several ==> first is Some && 0 <= second < i && second != first->0
                && models[second].product_asin == asin@,
        decreases installs.len() - i,
    {
        if installs[i].product_asin == *asin {
            match first {
                None => {
                    first = Some(i);
                },
                Some(_) => {
                    if !several {
                        proof {
                            second = i as int;
                        }
                    }
                    several = true;
                },
            }
        }
        i = i + 1;
    }
    if several {
        proof {
            assert forall|c: int| !is_only_match(models, asin@, c) by {
                if is_only_match(models, asin@, c) {
                    assert(models[first->0 as int].product_asin == asin@);
                    assert(models[second].product_asin == asin@);
                }
            }
        }
        None
    } else {
        match first {
            Some(f) => {
                proof {
                    assert(is_only_match(models, asin@, f as int));
                    let c = choose|c: int| is_only_match(models, asin@, c);
                    lemma_only_match_unique(models, asin@, c, f as int);
                }
                Some(f)
            },
            None => {
                proof {
                    assert forall|c: int| !is_only_match(models, asin@, c) by {
                        if 0 <= c < models.len() {
                            assert(models[c].product_asin != asin@);
                        }
                    }
                }
                None
            },
        }
    }
}

impl TwitchGame {
    /// The game of a product, given its install record and the descriptor
    /// that its manifest resolved to. A title that is not installed is left
    /// unresolved whatever the descriptor.
    pub fn new(
        product: &Product,
        record: Option<&Install>,
        launch: LaunchDescriptor,
    ) -> (game: TwitchGame)
        ensures
            game@ == new_game(product@, record_model(record), launch@),
            game@.well_formed(),
    {
        let (installed, install_directory) = match record {
            Some(r) => (r.installed == INSTALLED, Some(r.install_directory.clone())),
            None => (false, None),
        };
        let launch = if installed {
            launch
        } else {
            LaunchDescriptor::Unresolved
        };
        let (command, args, working_subdir_override, launch_url) = match launch {
            LaunchDescriptor::Direct { command, args, working_subdir_override } => (
                Some(command),
                Some(args),
                working_subdir_override,
                None,
            ),
            LaunchDescriptor::Indirect { launch_url } => (None, None, None, Some(launch_url)),
            LaunchDescriptor::Unresolved => (None, None, None, None),
        };
        TwitchGame {
            asin: product.product_asin.clone(),
            title: product.product_title.clone(),
            image_url: product.product_icon_url.clone(),
            installed,
            install_directory,
            working_subdir_override,
            command,
            args,
            launch_url,
            image_path: None,
            kids: None,
            players: None,
        }
    }

    /// Builds the game of one product from the install registry and the
    /// manifests that were read.
    pub fn from_product(
        product: &Product,
        installs: &Vec<Install>,
        manifests: &Vec<Manifest>,
    ) -> (game: TwitchGame)
        ensures
            game@ == built_game(product@, install_models(installs@), manifest_models(manifests@)),
            game@.well_formed(),
    {
        match find_install(installs, &product.product_asin) {
            Some(i) => {
                let record = &installs[i];
                assert(install_models(installs@)[i as int] == record@);
                let launch = if record.installed == INSTALLED {
                    match find_manifest(manifests, &record.install_directory) {
                        Some(m) => resolve(record.install_directory.as_str(), &manifests[m].fuel),
                        None => LaunchDescriptor::Unresolved,
                    }
                } else {
                    LaunchDescriptor::Unresolved
                };
                TwitchGame::new(product, Some(record), launch)
            },
            None => TwitchGame::new(product, None, LaunchDescriptor::Unresolved),
        }
    }

    /// Builds the games of a product registry: one game for each product, in
    /// the order of the products. No order by title is promised.
    ///
    /// `manifests` holds the manifests of the install directories that could
    /// be read and parsed. A title whose manifest is not among them is left
    /// unresolved; the build goes on.
    pub fn build(
        products: &Vec<Product>,
        installs: &Vec<Install>,
        manifests: &Vec<Manifest>,
    ) -> (games: Vec<TwitchGame>)
        ensures
            games.len() == products.len(),
            game_models(games@) == built_games(
                product_models(products@),
                install_models(installs@),
                manifest_models(manifests@),
            ),
            forall|i: int| 0 <= i < games.len() ==> (#[trigger] games[i])@.well_formed(),
    {
        let mut games: Vec<TwitchGame> = Vec::new();
        let mut i: usize = 0;
        while i < products.len()
            invariant
                i <= products.len(),
                games.len() == i,
                forall|k: int|
                    0 <= k < i ==> (#[trigger] games[k])@ == built_game(
                        products[k]@,
                        install_models(installs@),
                        manifest_models(manifests@),
                    ),
            decreases products.len() - i,
        {
            let game = TwitchGame::from_product(&products[i], installs, manifests);
            games.push(game);
            i = i + 1;
        }
        proof {
            assert(game_models(games@) =~= built_games(
                product_models(products@),
                install_models(installs@),
                manifest_models(manifests@),
            ));
            assert forall|k: int| 0 <= k < games.len() implies (#[trigger] games[k])@.well_formed(
            ) by {
                lemma_built_game_well_formed(
                    products[k]@,
                    install_models(installs@),
                    manifest_models(manifests@),
                );
            }
        }
        games
    }

    /// Builds the catalog of a registry snapshot. See `build`.
    pub fn from_db(twitch_db: &TwitchDb, manifests: &Vec<Manifest>) -> (games: Vec<TwitchGame>)
        ensures
            games.len() == twitch_db.products.len(),
            game_models(games@) == built_catalog(twitch_db@, manifest_models(manifests@)),
            forall|i: int| 0 <= i < games.len() ==> (#[trigger] games[i])@.well_formed(),
    {
        TwitchGame::build(&twitch_db.products, &twitch_db.installs, manifests)
    }
}

/// Join law, one record: where exactly one install record names the product
/// and marks it installed, the game is installed in the directory of that
/// record.
pub proof fn lemma_join_exactly_one(
    product: ProductModel,
    installs: Seq<InstallModel>,
    manifests: Seq<ManifestModel>,
    i: int,
)
    requires
        is_only_match(installs, product.product_asin, i),
        installs[i].installed == INSTALLED,
    ensures
        built_game(product, installs, manifests).installed,
        built_game(product, installs, manifests).install_directory == Some(
            installs[i].install_directory,
        ),
{
    lemma_join_record(product, installs, manifests, i);
}

/// Join law, one record with any flag: the game has the directory of the
/// record, and is installed exactly if the record says so.
pub proof fn lemma_join_record(
    product: ProductModel,
    installs: Seq<InstallModel>,
    manifests: Seq<ManifestModel>,
    i: int,
)
    requires
        is_only_match(installs, product.product_asin, i),
    ensures
        built_game(product, installs, manifests).installed == (installs[i].installed
            == INSTALLED),
        built_game(product, installs, manifests).install_directory == Some(
            installs[i].install_directory,
        ),
{
    let c = choose|c: int| is_only_match(installs, product.product_asin, c);
    lemma_only_match_unique(installs, product.product_asin, c, i);
}

/// Join law, no record: a product that no install record names is not
/// installed and has no directory.
pub proof fn lemma_join_no_match(
    product: ProductModel,
    installs: Seq<InstallModel>,
    manifests: Seq<ManifestModel>,
)
    requires
        forall|i: int| 0 <= i < installs.len() ==> installs[i].product_asin != product.product_asin,
    ensures
        !built_game(product, installs, manifests).installed,
        built_game(product, installs, manifests).install_directory is None,
        built_game(product, installs, manifests).launch() is Unresolved,
{
}

/// Join law, several records: a product that two install records name is not
/// installed and has no directory, whatever the records say.
pub proof fn lemma_join_several_matches(
    product: ProductModel,
    installs: Seq<InstallModel>,
    manifests: Seq<ManifestModel>,
    i: int,
    j: int,
)
    requires
        0 <= i < installs.len(),
        0 <= j < installs.len(),
        i != j,
        installs[i].product_asin == product.product_asin,
        installs[j].product_asin == product.product_asin,
    ensures
        !built_game(product, installs, manifests).installed,
        built_game(product, installs, manifests).install_directory is None,
        built_game(product, installs, manifests).launch() is Unresolved,
{
}

/// The fields of a built game spell out the descriptor it was built with.
pub proof fn lemma_built_game_launch(
    product: ProductModel,
    installs: Seq<InstallModel>,
    manifests: Seq<ManifestModel>,
)
    ensures
        built_game(product, installs, manifests).launch() == built_launch(
            sole_install(installs, product.product_asin),
            manifests,
        ),
{
}

/// The install directories whose manifests the catalog of these registries
/// asks for: that of every product that is installed, in the order of the
/// products.
pub open spec fn wanted_manifests(
    products: Seq<ProductModel>,
    installs: Seq<InstallModel>,
) -> Seq<Seq<char>>
    decreases products.len(),
{
    if products.len() == 0 {
        Seq::empty()
    } else {
        let rest = wanted_manifests(products.drop_last(), installs);
        let record = sole_install(installs, products.last().product_asin);
        if is_installed(record) {
            rest.push(record->0.install_directory)
        } else {
            rest
        }
    }
}

/// Lists the install directories whose manifests `TwitchGame::from_db` will
/// look for, so that the caller can read them first.
pub fn manifest_directories(twitch_db: &TwitchDb) -> (directories: Vec<String>)
    ensures
        directories.deep_view() == wanted_manifests(twitch_db@.products, twitch_db@.installs),
{
    let ghost products = twitch_db@.products;
    let ghost installs = twitch_db@.installs;
    let mut directories: Vec<String> = Vec::new();
    let mut i: usize = 0;
    assert(products.take(0) =~= Seq::empty());
    while i < twitch_db.products.len()
        invariant
            i <= twitch_db.products.len(),
            products == twitch_db@.products,
            installs == twitch_db@.installs,
            directories.deep_view() == wanted_manifests(products.take(i as int), installs),
        decreases twitch_db.products.len() - i,
    {
        let ghost before = directories.deep_view();
        proof {
            assert(products.take(i + 1).drop_last() =~= products.take(i as int));
            assert(products.take(i + 1).last() == twitch_db.products[i as int]@);
        }
        match find_install(&twitch_db.installs, &twitch_db.products[i].product_asin) {
            Some(j) => {
                let record = &twitch_db.installs[j];
                assert(installs[j as int] == record@);
                if record.installed == INSTALLED {
                    directories.push(record.install_directory.clone());
                    assert(directories.deep_view() =~= before.push(record.install_directory@));
                }
            },
            None => {},
        }
        i = i + 1;
    }
    assert(products.take(i as int) =~= products);
    directories
}

/// The directory of every installed product is among the wanted ones.
pub proof fn lemma_wanted_manifests_cover(
    products: Seq<ProductModel>,
    installs: Seq<InstallModel>,
    i: int,
)
    requires
        0 <= i < products.len(),
        is_installed(sole_install(installs, products[i].product_asin)),
    ensures
        wanted_manifests(products, installs).contains(
            sole_install(installs, products[i].product_asin)->0.install_directory,
        ),
    decreases products.len(),
{
    let rest = wanted_manifests(products.drop_last(), installs);
    let all = wanted_manifests(products, installs);
    let directory = sole_install(installs, products[i].product_asin)->0.install_directory;
    if i == products.len() - 1 {
        assert(all[all.len() - 1] == directory);
    } else {
        lemma_wanted_manifests_cover(products.drop_last(), installs, i);
        let k = choose|k: int| 0 <= k < rest.len() && rest[k] == directory;
        assert(all[k] == directory);
    }
}

/// Manifest law: the catalog depends on the manifests of the wanted
/// directories only. Two sets of manifests that hold the same manifest for
/// each of them give the same games, so a caller who reads the directories
/// that `manifest_directories` lists has read enough.
pub proof fn lemma_wanted_manifests_suffice(
    products: Seq<ProductModel>,
    installs: Seq<InstallModel>,
    a: Seq<ManifestModel>,
    b: Seq<ManifestModel>,
)
    requires
        forall|k: int|
            0 <= k < wanted_manifests(products, installs).len() ==> manifest_for(
                a,
                #[trigger] wanted_manifests(products, installs)[k],
            ) == manifest_for(b, wanted_manifests(products, installs)[k]),
    ensures
        built_games(products, installs, a) == built_games(products, installs, b),
{
    let wanted = wanted_manifests(products, installs);
    assert forall|i: int| 0 <= i < products.len() implies built_game(products[i], installs, a)
        == built_game(products[i], installs, b) by {
        let record = sole_install(installs, products[i].product_asin);
        if is_installed(record) {
            lemma_wanted_manifests_cover(products, installs, i);
            let k = choose|k: int| 0 <= k < wanted.len() && wanted[k] == record->0.install_directory;
            assert(manifest_for(a, wanted[k]) == manifest_for(b, wanted[k]));
        }
    }
    assert(built_games(products, installs, a) =~= built_games(products, installs, b));
}

/// Launch law, exclusivity: every game that the catalog builds is well
/// formed; in particular it never has both a command and a protocol URL.
pub proof fn lemma_built_game_well_formed(
    product: ProductModel,
    installs: Seq<InstallModel>,
    manifests: Seq<ManifestModel>,
)
    ensures
        built_game(product, installs, manifests).well_formed(),
        built_game(product, installs, manifests).launch_exclusive(),
        built_game(product, installs, manifests).asin == product.product_asin,
{
}

/// Key law: the games of products with distinct keys have distinct keys.
pub proof fn lemma_built_keys_distinct(
    products: Seq<ProductModel>,
    installs: Seq<InstallModel>,
    manifests: Seq<ManifestModel>,
)
    requires
        forall|i: int, j: int|
            0 <= i < products.len() && 0 <= j < products.len() && products[i].product_asin
                == products[j].product_asin ==> i == j,
    ensures
        distinct_keys(built_games(products, installs, manifests)),
{
}

} // verus!
