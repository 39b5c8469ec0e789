//! The persisted catalog and its reconciliation with a freshly built one.
//!
//! A refresh never replaces the persisted games: it rewrites the fields that
//! the registries supply, keeps what the user added, keeps the games that the
//! registries no longer list, and appends the games that are new.

use crate::error::{ErrorModel, TwitchError};
use crate::fuel::{manifest_models, Manifest};
use crate::paths::{joined_path, path_join};
use crate::text::{clone_text, clone_text_list};
use crate::twitch_db::{install_models, product_models, Install, Product, TwitchDb};
use crate::twitch_game::{
    built_catalog, built_games, distinct_keys, game_models, GameModel, TwitchGame,
};
use vstd::prelude::*;

verus! {

impl GameModel {
    /// The game after a refresh that found `fresh` under its key: title,
    /// icon, install state and launch descriptor are those of `fresh`, and
    /// every other field is kept.
    pub open spec fn refreshed_from(self, fresh: GameModel) -> GameModel {
        GameModel {
            asin: self.asin,
            title: fresh.title,
            image_url: fresh.image_url,
            installed: fresh.installed,
            install_directory: fresh.install_directory,
            working_subdir_override: fresh.working_subdir_override,
            command: fresh.command,
            args: fresh.args,
            launch_url: fresh.launch_url,
            image_path: self.image_path,
            kids: self.kids,
            players: self.players,
        }
    }
}

/// Some game of the sequence has this key.
pub open spec fn has_key(games: Seq<GameModel>, asin: Seq<char>) -> bool {
    exists|i: int| 0 <= i < games.len() && games[i].asin == asin
}

/// The last game of the sequence with this key.
pub open spec fn last_with_key(games: Seq<GameModel>, asin: Seq<char>) -> Option<GameModel>
    decreases games.len(),
{
    if games.len() == 0 {
        None
    } else if games.last().asin == asin {
        Some(games.last())
    } else {
        last_with_key(games.drop_last(), asin)
    }
}

/// A persisted game after the refresh `fresh`: rewritten from the fresh game
/// of its key (from the last one, should several share the key), and
/// untouched where the fresh catalog has no such game.
pub open spec fn refreshed(game: GameModel, fresh: Seq<GameModel>) -> GameModel {
    match last_with_key(fresh, game.asin) {
        Some(f) => game.refreshed_from(f),
        None => game,
    }
}

/// Tells the games whose key the persisted catalog does not hold.
pub open spec fn is_newcomer(persisted: Seq<GameModel>) -> spec_fn(GameModel) -> bool {
    |game: GameModel| !has_key(persisted, game.asin)
}

/// The fresh games that the persisted catalog does not know, in their order.
pub open spec fn newcomers(persisted: Seq<GameModel>, fresh: Seq<GameModel>) -> Seq<GameModel> {
    fresh.filter(is_newcomer(persisted))
}

/// The persisted games, each one refreshed, in their order.
pub open spec fn refreshed_all(persisted: Seq<GameModel>, fresh: Seq<GameModel>) -> Seq<
    GameModel,
> {
    Seq::new(persisted.len(), |i: int| refreshed(persisted[i], fresh))
}

/// The reconciled catalog: the persisted games in their order, refreshed,
/// and then the newcomers.
pub open spec fn merged(persisted: Seq<GameModel>, fresh: Seq<GameModel>) -> Seq<GameModel> {
    refreshed_all(persisted, fresh) + newcomers(persisted, fresh)
}

impl Clone for TwitchGame {
    fn clone(&self) -> (copy: TwitchGame)
        ensures
            copy@ == self@,
    {
        TwitchGame {
            asin: self.asin.clone(),
            title: self.title.clone(),
            image_url: self.image_url.clone(),
            installed: self.installed,
            install_directory: clone_text(&self.install_directory),
            working_subdir_override: clone_text(&self.working_subdir_override),
            command: clone_text(&self.command),
            args: clone_text_list(&self.args),
            launch_url: clone_text(&self.launch_url),
            image_path: clone_text(&self.image_path),
            kids: self.kids,
            players: self.players,
        }
    }
}

impl TwitchGame {
    /// The game after a refresh that found `fresh` under its key.
    pub fn refreshed_from(&self, fresh: &TwitchGame) -> (game: TwitchGame)
        ensures
            game@ == self@.refreshed_from(fresh@),
    {
        TwitchGame {
            asin: self.asin.clone(),
            title: fresh.title.clone(),
            image_url: fresh.image_url.clone(),
            installed: fresh.installed,
            install_directory: clone_text(&fresh.install_directory),
            working_subdir_override: clone_text(&fresh.working_subdir_override),
            command: clone_text(&fresh.command),
            args: clone_text_list(&fresh.args),
            launch_url: clone_text(&fresh.launch_url),
            image_path: clone_text(&self.image_path),
            kids: self.kids,
            players: self.players,
        }
    }
}

/// Whether some game has this key.
pub fn contains_key(games: &Vec<TwitchGame>, asin: &String) -> (found: bool)
    ensures
        found == has_key(game_models(games@), asin@),
{
    let ghost models = game_models(games@);
    let mut i: usize = 0;
    while i < games.len()
        invariant
            i <= games.len(),
            models == game_models(games@),
            forall|j: int| 0 <= j < i ==> models[j].asin != asin@,
        decreases games.len() - i,
    {
        if games[i].asin == *asin {
            assert(models[i as int].asin == asin@);
            return true;
        }
        i = i + 1;
    }
    false
}

/// Finds the last game with this key.
pub fn find_last_with_key(games: &Vec<TwitchGame>, asin: &String) -> (found: Option<usize>)
    ensures
        match found {
            Some(i) => i < games.len() && last_with_key(game_models(games@), asin@) == Some(
                games[i as int]@,
            ) && games[i as int].asin@ == asin@,
            None => last_with_key(game_models(games@), asin@) is None,
        },
{
    let ghost models = game_models(games@);
    let mut i: usize = games.len();
    assert(models.take(i as int) =~= models);
    while i > 0
        invariant
            i <= games.len(),
            models == game_models(games@),
            last_with_key(models, asin@) == last_with_key(models.take(i as int), asin@),
        decreases i,
    {
        proof {
            assert(models.take(i as int).drop_last() =~= models.take(i - 1));
            assert(models.take(i as int).last() == models[i - 1]);
        }
        i = i - 1;
        if games[i].asin == *asin {
            return Some(i);
        }
    }
    None
}

/// Reconciles the persisted catalog with a freshly built one.
///
/// Every persisted game stays, in its place; where the fresh catalog has a
/// game of the same key, the fields that the registries supply are rewritten
/// from it. The fresh games of unknown keys follow, in their order.
pub fn merge(persisted: &Vec<TwitchGame>, fresh: &Vec<TwitchGame>) -> (games: Vec<TwitchGame>)
    ensures
        game_models(games@) == merged(game_models(persisted@), game_models(fresh@)),
        persisted.len() <= games.len() <= persisted.len() + fresh.len(),
{
    let ghost old_models = game_models(persisted@);
    let ghost new_models = game_models(fresh@);
    let mut games: Vec<TwitchGame> = Vec::new();
    let mut i: usize = 0;
    while i < persisted.len()
        invariant
            i <= persisted.len(),
            old_models == game_models(persisted@),
            new_models == game_models(fresh@),
            games.len() == i,
            forall|k: int|
                0 <= k < i ==> (#[trigger] games[k])@ == refreshed(old_models[k], new_models),
        decreases persisted.len() - i,
    {
        let game = match find_last_with_key(fresh, &persisted[i].asin) {
            Some(j) => persisted[i].refreshed_from(&fresh[j]),
            None => persisted[i].clone(),
        };
        games.push(game);
        i = i + 1;
    }
    assert(game_models(games@) =~= refreshed_all(old_models, new_models));
    let mut j: usize = 0;
    proof {
        reveal(Seq::filter);
        assert(new_models.take(0) =~= Seq::empty());
        assert(game_models(games@) =~= refreshed_all(old_models, new_models) + newcomers(
            old_models,
            new_models.take(0),
        ));
    }
    while j < fresh.len()
        invariant
            j <= fresh.len(),
            old_models == game_models(persisted@),
            new_models == game_models(fresh@),
            game_models(games@) == refreshed_all(old_models, new_models) + newcomers(
                old_models,
                new_models.take(j as int),
            ),
        decreases fresh.len() - j,
    {
        let ghost before = game_models(games@);
        proof {
            reveal(Seq::filter);
            assert(new_models.take(j + 1).drop_last() =~= new_models.take(j as int));
            assert(new_models.take(j + 1).last() == fresh[j as int]@);
        }
        if !contains_key(persisted, &fresh[j].asin) {
            games.push(fresh[j].clone());
            assert(game_models(games@) =~= before.push(fresh[j as int]@));
            assert(game_models(games@) =~= refreshed_all(old_models, new_models) + newcomers(
                old_models,
                new_models.take(j + 1),
            ));
        }
        j = j + 1;
    }
    assert(new_models.take(j as int) =~= new_models);
    proof {
        lemma_merged_shape(old_models, new_models);
        assert(game_models(games@).len() == games.len());
    }
    games
}

/// Where `j` is the last game with the key, `last_with_key` finds it.
pub proof fn lemma_last_with_key_found(games: Seq<GameModel>, asin: Seq<char>, j: int)
    requires
        0 <= j < games.len(),
        games[j].asin == asin,
        forall|k: int| j < k < games.len() ==> games[k].asin != asin,
    ensures
        last_with_key(games, asin) == Some(games[j]),
    decreases games.len(),
{
    if j < games.len() - 1 {
        lemma_last_with_key_found(games.drop_last(), asin, j);
    }
}

/// What `last_with_key` finds is a game of the sequence, with the key; it
/// finds none only where no game has the key.
pub proof fn lemma_last_with_key_member(games: Seq<GameModel>, asin: Seq<char>)
    ensures
        last_with_key(games, asin) matches Some(g) ==> g.asin == asin && exists|j: int|
            0 <= j < games.len() && games[j] == g,
        last_with_key(games, asin) is None <==> !has_key(games, asin),
    decreases games.len(),
{
    if games.len() > 0 {
        let rest = games.drop_last();
        lemma_last_with_key_member(rest, asin);
        if games.last().asin == asin {
            assert(games[games.len() - 1] == games.last());
        } else {
            if last_with_key(rest, asin) is Some {
                let j = choose|j: int|
                    0 <= j < rest.len() && rest[j] == last_with_key(rest, asin)->0;
                assert(games[j] == rest[j]);
            }
            if has_key(games, asin) {
                let j = choose|j: int| 0 <= j < games.len() && games[j].asin == asin;
                assert(rest[j].asin == asin);
            }
            if has_key(rest, asin) {
                let j = choose|j: int| 0 <= j < rest.len() && rest[j].asin == asin;
                assert(games[j].asin == asin);
            }
        }
    }
}

/// Every game that a filter lets through meets the predicate and is a game
/// of the sequence.
proof fn lemma_filter_from(games: Seq<GameModel>, pred: spec_fn(GameModel) -> bool)
    ensures
        forall|k: int|
            0 <= k < games.filter(pred).len() ==> pred(#[trigger] games.filter(pred)[k])
                && games.contains(games.filter(pred)[k]),
    decreases games.len(),
{
    reveal(Seq::filter);
    if games.len() > 0 {
        let rest = games.drop_last();
        let sub = rest.filter(pred);
        let out = games.filter(pred);
        lemma_filter_from(rest, pred);
        assert forall|k: int| 0 <= k < out.len() implies pred(#[trigger] out[k]) && games.contains(
            out[k],
        ) by {
            if k < sub.len() {
                assert(out[k] == sub[k]);
                assert(rest.contains(sub[k]));
                let j = choose|j: int| 0 <= j < rest.len() && rest[j] == sub[k];
                assert(games[j] == out[k]);
            } else {
                assert(games[games.len() - 1] == out[k]);
            }
        }
    }
}

/// A filter lets every game through that meets the predicate.
proof fn lemma_filter_keeps(games: Seq<GameModel>, pred: spec_fn(GameModel) -> bool, j: int)
    requires
        0 <= j < games.len(),
        pred(games[j]),
    ensures
        games.filter(pred).contains(games[j]),
    decreases games.len(),
{
    reveal(Seq::filter);
    let rest = games.drop_last();
    let sub = rest.filter(pred);
    let out = games.filter(pred);
    if j < rest.len() {
        lemma_filter_keeps(rest, pred, j);
        let k = choose|k: int| 0 <= k < sub.len() && sub[k] == rest[j];
        assert(out[k] == games[j]);
    } else {
        assert(out[out.len() - 1] == games[j]);
    }
}

/// A filter lets nothing through where no game meets the predicate.
proof fn lemma_filter_none(games: Seq<GameModel>, pred: spec_fn(GameModel) -> bool)
    requires
        forall|j: int| 0 <= j < games.len() ==> !pred(#[trigger] games[j]),
    ensures
        games.filter(pred).len() == 0,
    decreases games.len(),
{
    reveal(Seq::filter);
    if games.len() > 0 {
        let rest = games.drop_last();
        assert forall|j: int| 0 <= j < rest.len() implies !pred(#[trigger] rest[j]) by {
            assert(rest[j] == games[j]);
        }
        lemma_filter_none(rest, pred);
        assert(!pred(games[games.len() - 1]));
    }
}

/// A filter keeps the keys of a catalog distinct.
proof fn lemma_filter_distinct(games: Seq<GameModel>, pred: spec_fn(GameModel) -> bool)
    requires
        distinct_keys(games),
    ensures
        distinct_keys(games.filter(pred)),
    decreases games.len(),
{
    reveal(Seq::filter);
    if games.len() > 0 {
        let rest = games.drop_last();
        let sub = rest.filter(pred);
        let out = games.filter(pred);
        assert(distinct_keys(rest)) by {
            assert forall|a: int, b: int|
                0 <= a < rest.len() && 0 <= b < rest.len() && rest[a].asin
                    == rest[b].asin implies a == b by {
                assert(games[a].asin == games[b].asin);
            }
        }
        lemma_filter_distinct(rest, pred);
        lemma_filter_from(rest, pred);
        assert forall|a: int, b: int|
            0 <= a < out.len() && 0 <= b < out.len() && out[a].asin == out[b].asin implies a
            == b by {
            if a < sub.len() && b < sub.len() {
                assert(sub[a].asin == sub[b].asin);
            } else if a < sub.len() {
                assert(rest.contains(sub[a]));
                let j = choose|j: int| 0 <= j < rest.len() && rest[j] == sub[a];
                assert(games[j].asin == games[games.len() - 1].asin);
            } else if b < sub.len() {
                assert(rest.contains(sub[b]));
                let j = choose|j: int| 0 <= j < rest.len() && rest[j] == sub[b];
                assert(games[j].asin == games[games.len() - 1].asin);
            }
        }
    }
}

/// The shape of a reconciled catalog: the persisted games keep their places
/// and their keys, and every game after them is a fresh game of a key that
/// the persisted catalog did not hold.
pub proof fn lemma_merged_shape(persisted: Seq<GameModel>, fresh: Seq<GameModel>)
    ensures
        merged(persisted, fresh).len() == persisted.len() + newcomers(persisted, fresh).len(),
        merged(persisted, fresh).len() <= persisted.len() + fresh.len(),
        forall|i: int|
            0 <= i < persisted.len() ==> #[trigger] merged(persisted, fresh)[i] == refreshed(
                persisted[i],
                fresh,
            ) && merged(persisted, fresh)[i].asin == persisted[i].asin,
        forall|i: int|
            persisted.len() <= i < merged(persisted, fresh).len() ==> !has_key(
                persisted,
                (#[trigger] merged(persisted, fresh)[i]).asin,
            ) && exists|j: int| 0 <= j < fresh.len() && fresh[j] == merged(persisted, fresh)[i],
        forall|j: int|
            0 <= j < fresh.len() ==> has_key(merged(persisted, fresh), (#[trigger] fresh[j]).asin),
{
    let pred = is_newcomer(persisted);
    let added = newcomers(persisted, fresh);
    let all = merged(persisted, fresh);
    lemma_filter_from(fresh, pred);
    fresh.lemma_filter_len(pred);
    assert forall|i: int| persisted.len() <= i < all.len() implies !has_key(
        persisted,
        (#[trigger] all[i]).asin,
    ) && exists|j: int| 0 <= j < fresh.len() && fresh[j] == all[i] by {
        let k = i - persisted.len();
        assert(all[i] == added[k]);
        assert(pred(added[k]));
        assert(fresh.contains(added[k]));
    }
    assert forall|j: int| 0 <= j < fresh.len() implies has_key(all, (#[trigger] fresh[j]).asin) by {
        if has_key(persisted, fresh[j].asin) {
            let i = choose|i: int| 0 <= i < persisted.len() && persisted[i].asin == fresh[j].asin;
            assert(all[i].asin == fresh[j].asin);
        } else {
            assert(pred(fresh[j]));
            lemma_filter_keeps(fresh, pred, j);
            let k = choose|k: int| 0 <= k < added.len() && added[k] == fresh[j];
            assert(all[persisted.len() + k] == fresh[j]);
        }
    }
}

/// Merge law, the registries win and the user's fields stay: a persisted
/// game whose key the fresh catalog holds (in `fresh[j]`, the last game
/// of that key) comes out with the title, icon, install state and launch
/// descriptor of the fresh game, and with its own other fields.
pub proof fn lemma_merge_refreshes_known(
    persisted: Seq<GameModel>,
    fresh: Seq<GameModel>,
    i: int,
    j: int,
)
    requires
        0 <= i < persisted.len(),
        0 <= j < fresh.len(),
        fresh[j].asin == persisted[i].asin,
        forall|k: int| j < k < fresh.len() ==> fresh[k].asin != persisted[i].asin,
    ensures
        merged(persisted, fresh)[i] == persisted[i].refreshed_from(fresh[j]),
        merged(persisted, fresh)[i].asin == persisted[i].asin,
        merged(persisted, fresh)[i].title == fresh[j].title,
        merged(persisted, fresh)[i].image_url == fresh[j].image_url,
        merged(persisted, fresh)[i].installed == fresh[j].installed,
        merged(persisted, fresh)[i].install_directory == fresh[j].install_directory,
        merged(persisted, fresh)[i].launch() == fresh[j].launch(),
        merged(persisted, fresh)[i].image_path == persisted[i].image_path,
        merged(persisted, fresh)[i].kids == persisted[i].kids,
        merged(persisted, fresh)[i].players == persisted[i].players,
{
    lemma_last_with_key_found(fresh, persisted[i].asin, j);
}

/// Merge law, nothing vanishes: a persisted game whose key the fresh
/// catalog does not hold is in the reconciled catalog, in its place and
/// unchanged.
pub proof fn lemma_merge_keeps_vanished(persisted: Seq<GameModel>, fresh: Seq<GameModel>, i: int)
    requires
        0 <= i < persisted.len(),
        !has_key(fresh, persisted[i].asin),
    ensures
        merged(persisted, fresh)[i] == persisted[i],
{
    lemma_last_with_key_member(fresh, persisted[i].asin);
}

/// Merge law, the newcomers: a fresh game whose key the persisted catalog
/// does not hold is in the reconciled catalog, after the persisted games and
/// as it was built.
pub proof fn lemma_merge_appends_new(persisted: Seq<GameModel>, fresh: Seq<GameModel>, j: int)
    requires
        0 <= j < fresh.len(),
        !has_key(persisted, fresh[j].asin),
    ensures
        exists|i: int|
            persisted.len() <= i < merged(persisted, fresh).len() && merged(persisted, fresh)[i]
                == fresh[j],
{
    let pred = is_newcomer(persisted);
    let added = newcomers(persisted, fresh);
    assert(pred(fresh[j]));
    lemma_filter_keeps(fresh, pred, j);
    let k = choose|k: int| 0 <= k < added.len() && added[k] == fresh[j];
    assert(merged(persisted, fresh)[persisted.len() + k] == fresh[j]);
}

/// Merge law, idempotence: reconciling a second time with the same fresh
/// catalog changes nothing. The fresh catalog is a catalog: no two of its
/// games share a key.
pub proof fn lemma_merge_idempotent(persisted: Seq<GameModel>, fresh: Seq<GameModel>)
    requires
        distinct_keys(fresh),
    ensures
        merged(merged(persisted, fresh), fresh) == merged(persisted, fresh),
{
    let once = merged(persisted, fresh);
    let twice = merged(once, fresh);
    lemma_merged_shape(persisted, fresh);
    assert(newcomers(once, fresh).len() == 0) by {
        assert forall|j: int| 0 <= j < fresh.len() implies !is_newcomer(once)(
            #[trigger] fresh[j],
        ) by {
            assert(has_key(once, fresh[j].asin));
        }
        lemma_filter_none(fresh, is_newcomer(once));
    }
    assert forall|i: int| 0 <= i < once.len() implies refreshed(once[i], fresh) == once[i] by {
        if i < persisted.len() {
            assert(once[i] == refreshed(persisted[i], fresh));
        } else {
            let j = choose|j: int| 0 <= j < fresh.len() && fresh[j] == once[i];
            lemma_last_with_key_found(fresh, fresh[j].asin, j);
        }
    }
    assert(twice =~= once);
}

/// Merge law, keys stay unique: the reconciled catalog of two catalogs is a
/// catalog.
pub proof fn lemma_merge_keeps_keys_distinct(persisted: Seq<GameModel>, fresh: Seq<GameModel>)
    requires
        distinct_keys(persisted),
        distinct_keys(fresh),
    ensures
        distinct_keys(merged(persisted, fresh)),
{
    let all = merged(persisted, fresh);
    let added = newcomers(persisted, fresh);
    lemma_merged_shape(persisted, fresh);
    lemma_filter_distinct(fresh, is_newcomer(persisted));
    assert forall|a: int, b: int|
        0 <= a < all.len() && 0 <= b < all.len() && all[a].asin == all[b].asin implies a == b by {
        if a < persisted.len() && b < persisted.len() {
            assert(persisted[a].asin == persisted[b].asin);
        } else if a < persisted.len() {
            assert(persisted[a].asin == all[b].asin);
        } else if b < persisted.len() {
            assert(persisted[b].asin == all[a].asin);
        } else {
            assert(added[a - persisted.len()].asin == added[b - persisted.len()].asin);
        }
    }
}

/// Merge law, well-formed games stay well formed: a refresh takes install
/// state and launch descriptor of a game together.
pub proof fn lemma_merge_keeps_well_formed(persisted: Seq<GameModel>, fresh: Seq<GameModel>)
    requires
        forall|i: int| 0 <= i < persisted.len() ==> (#[trigger] persisted[i]).well_formed(),
        forall|j: int| 0 <= j < fresh.len() ==> (#[trigger] fresh[j]).well_formed(),
    ensures
        forall|i: int|
            0 <= i < merged(persisted, fresh).len() ==> (#[trigger] merged(
                persisted,
                fresh,
            )[i]).well_formed(),
{
    let all = merged(persisted, fresh);
    lemma_merged_shape(persisted, fresh);
    assert forall|i: int| 0 <= i < all.len() implies (#[trigger] all[i]).well_formed() by {
        if i < persisted.len() {
            lemma_last_with_key_member(fresh, persisted[i].asin);
            assert(persisted[i].well_formed());
            if last_with_key(fresh, persisted[i].asin) is Some {
                let f = last_with_key(fresh, persisted[i].asin)->0;
                let j = choose|j: int| 0 <= j < fresh.len() && fresh[j] == f;
                assert(fresh[j].well_formed());
            }
        } else {
            let j = choose|j: int| 0 <= j < fresh.len() && fresh[j] == all[i];
            assert(fresh[j].well_formed());
        }
    }
}

/// The catalog as the front end holds it: the games, and the folder in which
/// it keeps their icons.
#[derive(Debug, PartialEq, Eq)]
pub struct Twitch {
    pub games: Vec<TwitchGame>,
    pub image_folder: String,
}

/// What a `Twitch` holds, as mathematical values.
pub ghost struct TwitchModel {
    pub games: Seq<GameModel>,
    pub image_folder: Seq<char>,
}

impl View for Twitch {
    type V = TwitchModel;

    open spec fn view(&self) -> TwitchModel {
        TwitchModel { games: game_models(self.games@), image_folder: self.image_folder@ }
    }
}

/// The name of the file in which the catalog is persisted.
pub open spec fn catalog_file() -> Seq<char> {
    "twitch_games.json"@
}

/// The name of the folder in which the icons are kept.
pub open spec fn image_folder_name() -> Seq<char> {
    "images"@
}

/// The catalog to go on with, given what was read of the persisted one
/// (`None` where the file is missing or does not parse): a refresh starts
/// from an empty catalog then, and any other run fails.
pub open spec fn persisted_catalog(
    loaded: Option<Seq<GameModel>>,
    refreshing: bool,
    image_folder: Seq<char>,
) -> Result<TwitchModel, ErrorModel> {
    match loaded {
        Some(games) => Ok(TwitchModel { games, image_folder }),
        None => if refreshing {
            Ok(TwitchModel { games: Seq::empty(), image_folder })
        } else {
            Err(ErrorModel::CatalogUnreadable)
        },
    }
}

/// The models of the games that were read, if any were.
pub open spec fn loaded_models(loaded: Option<Vec<TwitchGame>>) -> Option<Seq<GameModel>> {
    match loaded {
        Some(games) => Some(game_models(games@)),
        None => None,
    }
}

/// The model of a catalog, or of the error.
pub open spec fn catalog_model(catalog: Result<Twitch, TwitchError>) -> Result<
    TwitchModel,
    ErrorModel,
> {
    match catalog {
        Ok(catalog) => Ok(catalog@),
        Err(e) => Err(e@),
    }
}

impl Twitch {
    /// Decides what to go on with after the persisted catalog was read, or
    /// could not be read (`loaded` is `None`). A refresh heals an unreadable
    /// catalog by building it anew; without a refresh there is no catalog to
    /// work on, and the run fails.
    pub fn persisted(
        loaded: Option<Vec<TwitchGame>>,
        refreshing: bool,
        image_folder: String,
    ) -> (catalog: Result<Twitch, TwitchError>)
        ensures
            catalog_model(catalog) == persisted_catalog(
                loaded_models(loaded),
                refreshing,
                image_folder@,
            ),
    {
        match loaded {
            Some(games) => Ok(Twitch { games, image_folder }),
            None => {
                if refreshing {
                    let catalog = Twitch { games: Vec::new(), image_folder };
                    assert(catalog@.games =~= Seq::empty());
                    Ok(catalog)
                } else {
                    Err(TwitchError::CatalogUnreadable)
                }
            },
        }
    }

    /// The path of the persisted catalog.
    pub fn cache_path(cache_dir: &str) -> (path: String)
        ensures
            path@ == joined_path(cache_dir@, catalog_file()),
    {
        path_join(cache_dir, "twitch_games.json")
    }

    /// The path of the folder in which the icons are kept.
    pub fn image_folder_path(cache_dir: &str) -> (path: String)
        ensures
            path@ == joined_path(cache_dir@, image_folder_name()),
    {
        path_join(cache_dir, "images")
    }

    /// Reconciles this, the persisted catalog, with the freshly built
    /// `other`. The image folder stays.
    pub fn merge_with(self, other: Twitch) -> (merged_catalog: Twitch)
        ensures
            merged_catalog@.games == merged(self@.games, other@.games),
            merged_catalog@.image_folder == self@.image_folder,
    {
        let games = merge(&self.games, &other.games);
        Twitch { games, image_folder: self.image_folder }
    }

    /// Builds the catalog of the two registries.
    pub fn from(
        image_folder: String,
        products: &Vec<Product>,
        installs: &Vec<Install>,
        manifests: &Vec<Manifest>,
    ) -> (catalog: Twitch)
        ensures
            catalog@.games == built_games(
                product_models(products@),
                install_models(installs@),
                manifest_models(manifests@),
            ),
            catalog@.image_folder == image_folder@,
    {
        Twitch { games: TwitchGame::build(products, installs, manifests), image_folder }
    }

    /// Builds the catalog of a registry snapshot.
    pub fn from_db(
        image_folder: String,
        twitch_db: &TwitchDb,
        manifests: &Vec<Manifest>,
    ) -> (catalog: Twitch)
        ensures
            catalog@.games == built_catalog(twitch_db@, manifest_models(manifests@)),
            catalog@.image_folder == image_folder@,
    {
        Twitch::from(image_folder, &twitch_db.products, &twitch_db.installs, manifests)
    }
}

} // verus!
