//! What the front ends show: the games of an install state, the game of a
//! title, the games of the launcher.

use crate::twitch_game::{game_models, GameModel, TwitchGame};
use vstd::prelude::*;

verus! {

/// Tells the games that are, or are not, installed; with no state asked for,
/// every game.
pub open spec fn has_install_state(installed: Option<bool>) -> spec_fn(GameModel) -> bool {
    |game: GameModel|
        match installed {
            Some(state) => game.installed == state,
            None => true,
        }
}

/// Tells the games of the launcher: installed, and marked for children.
pub open spec fn in_launcher() -> spec_fn(GameModel) -> bool {
    |game: GameModel| game.installed && game.kids == Some(true)
}

/// Game `i` is the first one with this title.
pub open spec fn is_first_titled(games: Seq<GameModel>, title: Seq<char>, i: int) -> bool {
    &&& 0 <= i < games.len()
    &&& games[i].title == title
    &&& forall|j: int| 0 <= j < i ==> games[j].title != title
}

/// The games to list: those of the install state asked for, in their order.
pub fn select_by_installed(games: &Vec<TwitchGame>, installed: Option<bool>) -> (selected: Vec<
    TwitchGame,
>)
    ensures
        game_models(selected@) == game_models(games@).filter(has_install_state(installed)),
{
    let ghost models = game_models(games@);
    let ghost pred = has_install_state(installed);
    let mut selected: Vec<TwitchGame> = Vec::new();
    let mut i: usize = 0;
    proof {
        reveal(Seq::filter);
        assert(models.take(0) =~= Seq::empty());
        assert(game_models(selected@) =~= models.take(0).filter(pred));
    }
    while i < games.len()
        invariant
            i <= games.len(),
            models == game_models(games@),
            pred == has_install_state(installed),
            game_models(selected@) == models.take(i as int).filter(pred),
        decreases games.len() - i,
    {
        let ghost before = game_models(selected@);
        proof {
            reveal(Seq::filter);
            assert(models.take(i + 1).drop_last() =~= models.take(i as int));
            assert(models.take(i + 1).last() == games[i as int]@);
        }
        let wanted = match installed {
            Some(state) => games[i].installed == state,
            None => true,
        };
        if wanted {
            selected.push(games[i].clone());
            assert(game_models(selected@) =~= before.push(games[i as int]@));
        }
        i = i + 1;
    }
    assert(models.take(i as int) =~= models);
    selected
}

/// The games that the launcher shows: installed and marked for children, in
/// their order.
pub fn launcher_games(games: &Vec<TwitchGame>) -> (selected: Vec<TwitchGame>)
    ensures
        game_models(selected@) == game_models(games@).filter(in_launcher()),
{
    let ghost models = game_models(games@);
    let ghost pred = in_launcher();
    let mut selected: Vec<TwitchGame> = Vec::new();
    let mut i: usize = 0;
    proof {
        reveal(Seq::filter);
        assert(models.take(0) =~= Seq::empty());
        assert(game_models(selected@) =~= models.take(0).filter(pred));
    }
    while i < games.len()
        invariant
            i <= games.len(),
            models == game_models(games@),
            pred == in_launcher(),
            game_models(selected@) == models.take(i as int).filter(pred),
        decreases games.len() - i,
    {
        let ghost before = game_models(selected@);
        proof {
            reveal(Seq::filter);
            assert(models.take(i + 1).drop_last() =~= models.take(i as int));
            assert(models.take(i + 1).last() == games[i as int]@);
        }
        let marked = match games[i].kids {
            Some(kids) => kids,
            None => false,
        };
        if games[i].installed && marked {
            selected.push(games[i].clone());
            assert(game_models(selected@) =~= before.push(games[i as int]@));
        }
        i = i + 1;
    }
    assert(models.take(i as int) =~= models);
    selected
}

/// Finds the game to launch: the first one with this title.
pub fn find_by_title(games: &Vec<TwitchGame>, title: &String) -> (found: Option<usize>)
    ensures
        match found {
            Some(i) => is_first_titled(game_models(games@), title@, i as int),
            None => forall|i: int| 0 <= i < games.len() ==> games[i].title@ != title@,
        },
{
    let ghost models = game_models(games@);
    let mut i: usize = 0;
    while i < games.len()
        invariant
            i <= games.len(),
            models == game_models(games@),
            forall|j: int| 0 <= j < i ==> models[j].title != title@,
        decreases games.len() - i,
    {
        if games[i].title == *title {
            assert(models[i as int].title == title@);
            return Some(i);
        }
        i = i + 1;
    }
    proof {
        assert forall|k: int| 0 <= k < games.len() implies games[k].title@ != title@ by {
            assert(models[k].title != title@);
        }
    }
    None
}

} // verus!
