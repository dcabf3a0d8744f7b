//! A single-player Battleship engine: a fixed fleet is placed on a ten by ten
//! board without overlap, shots are resolved against the board, and a session
//! keeps the shot history, the score and the remaining ammunition.

use vstd::prelude::*;
use crate::runtime::{GridPoint, Play, SessionView};
use crate::storage::{ScoreView, Store, StoreView};

mod chance;
pub mod inventory;
pub mod runtime;
pub mod storage;
pub mod text;

verus! {

/// Implemented by a front end that drives the engine and can be told to stop.
pub trait App {
    fn exit(&self);
}

/// The game in progress, if any, and the store of saved games.
pub struct GamePlay {
    play: Option<Play>,
    store: Store,
}

/// A `GamePlay` as a mathematical value.
pub struct GamePlayView {
    pub play: Option<SessionView>,
    pub store: StoreView,
}

impl View for GamePlay {
    type V = GamePlayView;

    closed spec fn view(&self) -> GamePlayView {
        GamePlayView {
            play: match self.play {
                Some(play) => Some(play@),
                None => None,
            },
            store: self.store@,
        }
    }
}

impl GamePlay {
    /// No game in progress and an empty store.
    pub fn initialize() -> (game: GamePlay)
        ensures
            game@.play is None,
            game@.store.plays == Seq::<SessionView>::empty(),
            game@.store.scores == Seq::<ScoreView>::empty(),
    {
        GamePlay { play: None, store: Store::build() }
    }

    /// Starts a new game for `player_name`, its fleet placed and ready for
    /// play, in place of the game in progress. The store is not touched.
    pub fn start_new(&mut self, player_name: String) -> (play: &mut Play)
        ensures
            play.wf(),
            play@.player == player_name@,
            play@.history == Seq::<GridPoint>::empty(),
            play@.points == 0,
            play@.remaining == 10,
            play@.grid.fully_placed(),
            forall|j: int| 0 <= j < 5 ==> !(#[trigger] play@.grid.ships[j]).destroyed,
            final(self)@.play == Some(final(play)@),
            final(self)@.store == old(self)@.store,
    {
        self.play = Some(Play::init(player_name));
        match &mut self.play {
            Some(play) => play,
            None => vstd::pervasive::unreached(),
        }
    }

    /// Makes a copy of the saved game of `player_name` the game in progress;
    /// without a saved game, no game is in progress afterwards.
    pub fn load(&mut self, player_name: String) -> (play: Option<&mut Play>)
        ensures
            final(self)@.store == old(self)@.store,
            match play {
                Some(found) => old(self)@.store.get(player_name@) == Some(found@) && final(self)@.play == Some(
                    final(found)@,
                ),
                None => old(self)@.store.get(player_name@) is None && final(self)@.play is None,
            },
    {
        self.play = self.store.get_play(&player_name);
        match &mut self.play {
            Some(play) => Some(play),
            None => None,
        }
    }

    /// The names of the players with a saved game.
    pub fn list_saved(&self) -> (names: Vec<String>)
        ensures
            names@.map_values(|name: String| name@) == self@.store.names(),
    {
        self.store.get_player_names()
    }

    /// Takes the saved game of `player_name` out of the store.
    pub fn delete(&mut self, player_name: String) -> (play: Option<Play>)
        ensures
            final(self)@.store == old(self)@.store.pop(player_name@),
            final(self)@.play == old(self)@.play,
            match play {
                Some(found) => old(self)@.store.get(player_name@) == Some(found@),
                None => old(self)@.store.get(player_name@) is None,
            },
    {
        self.store.pop_play(&player_name)
    }

    /// Saves a copy of the game in progress, if there is one.
    pub fn save(&mut self)
        ensures
            final(self)@.play == old(self)@.play,
            final(self)@.store == match old(self)@.play {
                Some(play) => old(self)@.store.save(play),
                None => old(self)@.store,
            },
    {
        match &self.play {
            Some(play) => {
                let copy = play.clone();
                self.store.save_play(copy);
            },
            None => (),
        }
    }

    /// Saves the game in progress, if there is one, and ends it.
    pub fn save_and_exit(&mut self)
        ensures
            final(self)@.play is None,
            final(self)@.store == match old(self)@.play {
                Some(play) => old(self)@.store.save(play),
                None => old(self)@.store,
            },
    {
        self.save();
        self.play = None;
    }
}

} // verus!
