//! The store: saved games by player name, and the scores they were saved
//! with.

use vstd::prelude::*;
use crate::runtime::{GridPoint, Play, SessionView};

verus! {

/// A score on the board of scores: who played and the points they had when
/// the game was saved.
#[derive(Debug)]
pub struct Score {
    pub name: String,
    pub point: i32,
}

/// A score as a mathematical value.
pub struct ScoreView {
    pub name: Seq<char>,
    pub point: int,
}

impl View for Score {
    type V = ScoreView;

    open spec fn view(&self) -> ScoreView {
        ScoreView { name: self.name@, point: self.point as int }
    }
}

/// The store as a mathematical value: the saved games in the order in which
/// their players first saved, and the scores in the order in which they were
/// added.
pub struct StoreView {
    pub plays: Seq<SessionView>,
    pub scores: Seq<ScoreView>,
}

impl StoreView {
    /// Index of the first saved game of `name` at or after `from`, or the
    /// number of saved games if there is none.
    pub open spec fn first_index(self, name: Seq<char>, from: int) -> int
        decreases self.plays.len() - from,
    {
        if from < 0 || from >= self.plays.len() {
            self.plays.len() as int
        } else if self.plays[from].player == name {
            from
        } else {
            self.first_index(name, from + 1)
        }
    }

    /// Index of the saved game of `name`, or the number of saved games if
    /// the player has none.
    pub open spec fn position(self, name: Seq<char>) -> int {
        self.first_index(name, 0)
    }

    /// The saved game of `name`, if the player has one.
    pub open spec fn get(self, name: Seq<char>) -> Option<SessionView> {
        if self.position(name) < self.plays.len() {
            Some(self.plays[self.position(name)])
        } else {
            None
        }
    }

    /// The store after `play` has been saved: its score is added, and the
    /// game takes the place of the player's earlier game or, without one,
    /// comes last.
    pub open spec fn save(self, play: SessionView) -> StoreView {
        StoreView {
            plays: if self.position(play.player) < self.plays.len() {
                self.plays.update(self.position(play.player), play)
            } else {
                self.plays.push(play)
            },
            scores: self.scores.push(ScoreView { name: play.player, point: play.points }),
        }
    }

    /// The store after the saved game of `name` has been taken out.
    pub open spec fn pop(self, name: Seq<char>) -> StoreView {
        if self.position(name) < self.plays.len() {
            StoreView { plays: self.plays.remove(self.position(name)), scores: self.scores }
        } else {
            self
        }
    }

    /// The names of the players with a saved game, in the order of the
    /// games.
    pub open spec fn names(self) -> Seq<Seq<char>> {
        self.plays.map_values(|play: SessionView| play.player)
    }

    /// Whether no two saved games belong to the same player.
    pub open spec fn unique_names(self) -> bool {
        forall|i: int, j: int|
            0 <= i < self.plays.len() && 0 <= j < self.plays.len() && i != j ==> (#[trigger] self.plays[i]).player
                != (#[trigger] self.plays[j]).player
    }

    /// Whether every saved game meets the session's invariant.
    pub open spec fn sound(self) -> bool {
        forall|i: int| 0 <= i < self.plays.len() ==> (#[trigger] self.plays[i]).wf()
    }
}

/// The first saved game of a player is where `first_index` says: it lies
/// within the games or past their end, no game before it belongs to the
/// player, and the game at it does.
pub proof fn lemma_first_index(store: StoreView, name: Seq<char>, from: int)
    requires
        0 <= from <= store.plays.len(),
    ensures
        from <= store.first_index(name, from) <= store.plays.len(),
        forall|k: int| from <= k < store.first_index(name, from) ==> (#[trigger] store.plays[k]).player != name,
        store.first_index(name, from) < store.plays.len() ==> store.plays[store.first_index(name, from)].player
            == name,
    decreases store.plays.len() - from,
{
    if from < store.plays.len() && store.plays[from].player != name {
        lemma_first_index(store, name, from + 1);
    }
}

/// An index with the properties of the first saved game of a player is that
/// first game's index.
pub proof fn lemma_first_index_is(store: StoreView, name: Seq<char>, from: int, at: int)
    requires
        0 <= from <= at <= store.plays.len(),
        forall|k: int| from <= k < at ==> (#[trigger] store.plays[k]).player != name,
        at < store.plays.len() ==> store.plays[at].player == name,
    ensures
        store.first_index(name, from) == at,
    decreases at - from,
{
    if from < at {
        assert(store.plays[from].player != name);
        lemma_first_index_is(store, name, from + 1, at);
    }
}

/// A saved game comes back as it was saved: looking the player up after a
/// save gives the very session that was saved, so every shot at the
/// restored session has the outcome it would have had at the saved one.
pub proof fn saved_game_is_restored(store: StoreView, play: SessionView, p: GridPoint)
    ensures
        store.save(play).get(play.player) == Some(play),
        store.save(play).get(play.player)->Some_0.shoot(p) == play.shoot(p),
{
    let at = store.position(play.player);
    let saved = store.save(play);
    lemma_first_index(store, play.player, 0);
    if at < store.plays.len() {
        assert forall|k: int| 0 <= k < at implies (#[trigger] saved.plays[k]).player != play.player by {
            assert(saved.plays[k] == store.plays[k]);
        }
        lemma_first_index_is(saved, play.player, 0, at);
    } else {
        assert forall|k: int| 0 <= k < at implies (#[trigger] saved.plays[k]).player != play.player by {
            assert(saved.plays[k] == store.plays[k]);
        }
        lemma_first_index_is(saved, play.player, 0, at);
    }
}

/// Saving keeps the games of the other players: looking up another name
/// gives what it gave before the save.
pub proof fn save_keeps_other_games(store: StoreView, play: SessionView, other: Seq<char>)
    requires
        other != play.player,
    ensures
        store.save(play).get(other) == store.get(other),
{
    let saved = store.save(play);
    let at = store.position(other);
    lemma_first_index(store, other, 0);
    lemma_first_index(store, play.player, 0);
    if at < store.plays.len() {
        assert forall|k: int| 0 <= k < at implies (#[trigger] saved.plays[k]).player != other by {
            if k != store.position(play.player) {
                assert(saved.plays[k] == store.plays[k]);
            }
        }
        assert(saved.plays[at] == store.plays[at]);
        lemma_first_index_is(saved, other, 0, at);
    } else {
        assert forall|k: int| 0 <= k < saved.plays.len() implies (#[trigger] saved.plays[k]).player != other by {
            if k < store.plays.len() && k != store.position(play.player) {
                assert(saved.plays[k] == store.plays[k]);
            }
        }
        lemma_first_index_is(saved, other, 0, saved.plays.len() as int);
    }
}

/// A store in which no player has two games stays so when a game is saved,
/// and stays sound when the saved game is.
pub proof fn save_keeps_one_game_a_player(store: StoreView, play: SessionView)
    requires
        store.unique_names(),
    ensures
        store.save(play).unique_names(),
        store.sound() && play.wf() ==> store.save(play).sound(),
{
    let saved = store.save(play);
    let at = store.position(play.player);
    lemma_first_index(store, play.player, 0);
    assert forall|i: int, j: int|
        0 <= i < saved.plays.len() && 0 <= j < saved.plays.len() && i != j implies (#[trigger] saved.plays[i]).player
        != (#[trigger] saved.plays[j]).player by {
        if i != at && i < store.plays.len() {
            assert(saved.plays[i] == store.plays[i]);
        }
        if j != at && j < store.plays.len() {
            assert(saved.plays[j] == store.plays[j]);
        }
        if at < store.plays.len() {
            assert(store.plays[at].player == play.player);
        }
    }
    if store.sound() && play.wf() {
        assert forall|i: int| 0 <= i < saved.plays.len() implies (#[trigger] saved.plays[i]).wf() by {
            if i != at && i < store.plays.len() {
                assert(saved.plays[i] == store.plays[i]);
            }
        }
    }
}

/// Saved games and scores, kept in memory.
#[derive(Debug)]
pub struct Store {
    plays: Vec<Play>,
    scores: Vec<Score>,
}

impl View for Store {
    type V = StoreView;

    closed spec fn view(&self) -> StoreView {
        StoreView {
            plays: self.plays@.map_values(|play: Play| play@),
            scores: self.scores@.map_values(|score: Score| score@),
        }
    }
}

impl Store {
    /// An empty store.
    pub fn build() -> (store: Store)
        ensures
            store@.plays == Seq::<SessionView>::empty(),
            store@.scores == Seq::<ScoreView>::empty(),
    {
        let store = Store { plays: Vec::new(), scores: Vec::new() };
        assert(store@.plays =~= Seq::<SessionView>::empty());
        assert(store@.scores =~= Seq::<ScoreView>::empty());
        store
    }

    /// A store that holds the given games and scores.
    pub fn build_with(plays: Vec<Play>, scores: Vec<Score>) -> (store: Store)
        ensures
            store@.plays == plays@.map_values(|play: Play| play@),
            store@.scores == scores@.map_values(|score: Score| score@),
    {
        Store { plays, scores }
    }

    fn find(&self, player_name: &String) -> (at: usize)
        ensures
            at == self@.position(player_name@),
            at <= self.plays@.len(),
            self@.plays.len() == self.plays@.len(),
    {
        let total: usize = self.plays.len();
        let mut k: usize = 0;
        while k < total
            invariant
                k <= total,
                total == self.plays@.len(),
                total == self@.plays.len(),
                forall|i: int| 0 <= i < k ==> (#[trigger] self@.plays[i]).player != player_name@,
            decreases total - k,
        {
            let name = self.plays[k].get_session_as_ref().get_player_name();
            if name == *player_name {
                proof {
                    lemma_first_index_is(self@, player_name@, 0, k as int);
                }
                return k;
            }
            k += 1;
        }
        proof {
            lemma_first_index_is(self@, player_name@, 0, total as int);
        }
        total
    }

    /// Saves a game: adds its score, and stores the game in place of the
    /// player's earlier game, if there is one.
    pub fn save_play(&mut self, play: Play)
        ensures
            final(self)@ == old(self)@.save(play@),
    {
        let name = play.get_session_as_ref().get_player_name();
        let point: i32 = play.get_session_as_ref().get_points();
        let at: usize = self.find(&name);
        self.scores.push(Score { name: play.get_session_as_ref().get_player_name(), point });
        if at < self.plays.len() {
            self.plays.set(at, play);
        } else {
            self.plays.push(play);
        }
        proof {
            assert(final(self)@.plays =~= old(self)@.save(play@).plays);
            assert(final(self)@.scores =~= old(self)@.save(play@).scores);
        }
    }

    /// Takes the saved game of a player out of the store.
    pub fn pop_play(&mut self, player_name: &String) -> (play: Option<Play>)
        ensures
            final(self)@ == old(self)@.pop(player_name@),
            match play {
                Some(found) => old(self)@.get(player_name@) == Some(found@),
                None => old(self)@.get(player_name@) is None,
            },
    {
        let at: usize = self.find(player_name);
        if at < self.plays.len() {
            let found = self.plays.remove(at);
            proof {
                assert(final(self)@.plays =~= old(self)@.pop(player_name@).plays);
                assert(final(self)@.scores =~= old(self)@.scores);
            }
            Some(found)
        } else {
            None
        }
    }

    /// A copy of the saved game of a player.
    pub fn get_play(&self, player_name: &String) -> (play: Option<Play>)
        ensures
            match play {
                Some(found) => self@.get(player_name@) == Some(found@),
                None => self@.get(player_name@) is None,
            },
    {
        let at: usize = self.find(player_name);
        if at < self.plays.len() {
            Some(self.plays[at].clone())
        } else {
            None
        }
    }

    pub fn add_score(&mut self, score: Score)
        ensures
            final(self)@.scores == old(self)@.scores.push(score@),
            final(self)@.plays == old(self)@.plays,
    {
        self.scores.push(score);
        proof {
            assert(final(self)@.scores =~= old(self)@.scores.push(score@));
        }
    }

    /// Keeps the scores that differ from `score` in both name and points,
    /// in their order, and drops the others.
    pub fn remove_score(&mut self, score: Score)
        ensures
            final(self)@.scores == old(self)@.scores.filter(
                |entry: ScoreView| entry.point != score@.point && entry.name != score@.name,
            ),
            final(self)@.plays == old(self)@.plays,
    {
        let ghost keep = |entry: ScoreView| entry.point != score@.point && entry.name != score@.name;
        let ghost before = self@.scores;
        let mut kept: Vec<Score> = Vec::new();
        let total: usize = self.scores.len();
        let mut k: usize = 0;
        while k < total
            invariant
                k <= total,
                total == self.scores@.len(),
                self@ == old(self)@,
                before == self@.scores,
                before.len() == total,
                keep == |entry: ScoreView| entry.point != score@.point && entry.name != score@.name,
                kept@.map_values(|score: Score| score@) == before.take(k as int).filter(keep),
            decreases total - k,
        {
            let entry = &self.scores[k];
            proof {
                assert(before.take(k + 1).drop_last() == before.take(k as int));
                assert(before.take(k + 1).last() == entry@);
                reveal(Seq::filter);
            }
            if entry.point != score.point && entry.name != score.name {
                let ghost earlier = kept@;
                kept.push(Score { name: entry.name.clone(), point: entry.point });
                proof {
                    assert(kept@.map_values(|score: Score| score@) =~= earlier.map_values(|score: Score| score@).push(
                        entry@,
                    ));
                }
            }
            k += 1;
        }
        proof {
            assert(before.take(total as int) == before);
        }
        self.scores = kept;
    }

    /// The names of the players with a saved game, in the order of the
    /// games.
    pub fn get_player_names(&self) -> (names: Vec<String>)
        ensures
            names@.map_values(|name: String| name@) == self@.names(),
    {
        let mut names: Vec<String> = Vec::new();
        let total: usize = self.plays.len();
        let mut k: usize = 0;
        while k < total
            invariant
                k <= total,
                total == self.plays@.len(),
                names@.map_values(|name: String| name@) == self@.names().take(k as int),
            decreases total - k,
        {
            let ghost earlier = names@.map_values(|name: String| name@);
            let name = self.plays[k].get_session_as_ref().get_player_name();
            names.push(name);
            proof {
                assert(self@.plays[k as int] == self.plays@[k as int]@);
                assert(self@.names()[k as int] == name@);
                assert(names@.map_values(|name: String| name@) =~= earlier.push(name@));
                assert(self@.names().take(k + 1) =~= self@.names().take(k as int).push(name@));
            }
            k += 1;
        }
        proof {
            assert(self@.names().take(total as int) =~= self@.names());
        }
        names
    }
}

} // verus!
