//! The state that lives as long as the session: the phase, the running game,
//! the window, the high-score ledger, the restart delay, and the keys.

use vstd::prelude::*;
use crate::constants::{LEDGER_SIZE, RESTART_DELAY, WINDOW_HEIGHT, WINDOW_WIDTH};
use crate::fixed::{Fixed, ONE};

verus! {

/// The phases of a session. Exactly one is active at a time.
#[derive(Clone, Copy, Debug, PartialEq, Eq, Hash, Structural)]
pub enum GamePhase {
    StartScreen,
    Playing,
    GameOver,
}

impl Default for GamePhase {
    fn default() -> (phase: GamePhase)
        ensures
            phase == GamePhase::StartScreen,
    {
        GamePhase::StartScreen
    }
}

/// A request to change the phase. It is made during a frame and honoured
/// when the frame is over.
#[derive(Clone, Copy, Debug, PartialEq, Eq, Structural)]
pub enum NextState {
    Unchanged,
    Pending(GamePhase),
}

impl NextState {
    /// Asks for `phase`. A later request replaces an earlier one.
    pub fn set(&mut self, phase: GamePhase)
        ensures
            *final(self) == NextState::Pending(phase),
    {
        *self = NextState::Pending(phase);
    }
}

/// The keys that the rules listen to. A key that is held stays `true` from
/// frame to frame; `space_just_pressed` is `true` only in the frame in which
/// the space bar went down.
#[derive(Clone, Copy, Debug, PartialEq, Eq, Structural)]
pub struct Keys {
    pub arrow_left: bool,
    pub key_a: bool,
    pub arrow_right: bool,
    pub key_d: bool,
    pub space_just_pressed: bool,
}

impl Keys {
    /// No key is down.
    pub open spec fn idle() -> Keys {
        Keys {
            arrow_left: false,
            key_a: false,
            arrow_right: false,
            key_d: false,
            space_just_pressed: false,
        }
    }
}

impl Default for Keys {
    fn default() -> (keys: Keys)
        ensures
            keys == Keys::idle(),
    {
        Keys {
            arrow_left: false,
            key_a: false,
            arrow_right: false,
            key_d: false,
            space_just_pressed: false,
        }
    }
}

/// The running game: the score, the heading of the formation (`ONE` to the
/// right, `-ONE` to the left), the two cooldown timers, and whether the
/// player has won.
#[derive(Clone, Copy, Debug, PartialEq, Eq, Structural)]
pub struct GameState {
    pub score: u32,
    pub enemy_direction: Fixed,
    pub enemy_shoot_timer: Fixed,
    pub star_spawn_timer: Fixed,
    pub victory: bool,
}

impl GameState {
    /// The state in which every game begins.
    pub open spec fn initial() -> GameState {
        GameState {
            score: 0,
            enemy_direction: ONE,
            enemy_shoot_timer: 0,
            star_spawn_timer: 0,
            victory: false,
        }
    }

    /// Back to the state in which every game begins.
    pub fn reset(&mut self)
        ensures
            *final(self) == GameState::initial(),
    {
        self.score = 0;
        self.enemy_direction = ONE;
        self.enemy_shoot_timer = 0;
        self.star_spawn_timer = 0;
        self.victory = false;
    }
}

impl Default for GameState {
    fn default() -> (state: GameState)
        ensures
            state == GameState::initial(),
    {
        GameState {
            score: 0,
            enemy_direction: ONE,
            enemy_shoot_timer: 0,
            star_spawn_timer: 0,
            victory: false,
        }
    }
}

/// The size of the window.
#[derive(Clone, Copy, Debug, PartialEq, Eq, Structural)]
pub struct WindowDimensions {
    pub width: Fixed,
    pub height: Fixed,
}

impl WindowDimensions {
    /// 800 by 600.
    pub open spec fn standard() -> WindowDimensions {
        WindowDimensions { width: WINDOW_WIDTH, height: WINDOW_HEIGHT }
    }
}

impl Default for WindowDimensions {
    fn default() -> (dims: WindowDimensions)
        ensures
            dims == WindowDimensions::standard(),
    {
        WindowDimensions { width: WINDOW_WIDTH, height: WINDOW_HEIGHT }
    }
}

/// One line of the ledger. `is_current` marks the game that was played last.
#[derive(Clone, Copy, Debug, PartialEq, Eq, Structural)]
pub struct ScoreEntry {
    pub score: u32,
    pub is_current: bool,
}

/// The entries of `s`, none of them marked.
pub open spec fn unmarked(s: Seq<ScoreEntry>) -> Seq<ScoreEntry> {
    s.map_values(|e: ScoreEntry| ScoreEntry { score: e.score, is_current: false })
}

/// The number of entries at the head of `s` that `score` does not beat.
pub open spec fn place_of(s: Seq<ScoreEntry>, score: u32) -> nat
    decreases s.len(),
{
    if s.len() == 0 || s[0].score < score {
        0
    } else {
        1 + place_of(s.drop_first(), score)
    }
}

/// The number of marked entries.
pub open spec fn marked(s: Seq<ScoreEntry>) -> nat
    decreases s.len(),
{
    if s.len() == 0 {
        0
    } else {
        marked(s.drop_last()) + if s.last().is_current {
            1nat
        } else {
            0nat
        }
    }
}

/// No entry is followed by a higher one.
pub open spec fn descending(s: Seq<ScoreEntry>) -> bool {
    forall|i: int, j: int| 0 <= i <= j < s.len() ==> s[i].score >= s[j].score
}

/// What holds of a ledger at all times: at most five entries, the highest
/// first, at most one of them marked.
pub open spec fn ledger_ok(s: Seq<ScoreEntry>) -> bool {
    &&& s.len() <= LEDGER_SIZE
    &&& descending(s)
    &&& marked(s) <= 1
}

/// The ledger with every mark erased and a marked entry for `score` put
/// behind the entries that it does not beat, before it is cut to size.
pub open spec fn ranked(s: Seq<ScoreEntry>, score: u32) -> Seq<ScoreEntry> {
    unmarked(s).insert(place_of(s, score) as int, ScoreEntry { score, is_current: true })
}

/// The ledger after a game that ended with `score`.
pub open spec fn with_score(s: Seq<ScoreEntry>, score: u32) -> Seq<ScoreEntry> {
    let all = ranked(s, score);
    if all.len() > LEDGER_SIZE {
        all.take(LEDGER_SIZE as int)
    } else {
        all
    }
}

/// In a descending ledger the place of a score is the index `k` up to which
/// no entry is beaten and at which, if there is an entry, it is.
pub proof fn lemma_place_of(s: Seq<ScoreEntry>, score: u32, k: int)
    requires
        0 <= k <= s.len(),
        forall|i: int| 0 <= i < k ==> s[i].score >= score,
        k < s.len() ==> s[k].score < score,
    ensures
        place_of(s, score) == k,
    decreases s.len(),
{
    if k > 0 {
        let rest = s.drop_first();
        assert forall|i: int| 0 <= i < k - 1 implies rest[i].score >= score by {
            assert(rest[i] == s[i + 1]);
        }
        lemma_place_of(rest, score, k - 1);
    }
}

/// A ledger in which no entry is marked counts none.
pub proof fn lemma_marked_none(s: Seq<ScoreEntry>)
    requires
        forall|i: int| 0 <= i < s.len() ==> !s[i].is_current,
    ensures
        marked(s) == 0,
    decreases s.len(),
{
    if s.len() > 0 {
        lemma_marked_none(s.drop_last());
    }
}

/// A ledger whose only marked entry stands at `k` counts one.
pub proof fn lemma_marked_one(s: Seq<ScoreEntry>, k: int)
    requires
        0 <= k < s.len(),
        forall|i: int| 0 <= i < s.len() ==> (s[i].is_current <==> i == k),
    ensures
        marked(s) == 1,
    decreases s.len(),
{
    if k == s.len() - 1 {
        lemma_marked_none(s.drop_last());
    } else {
        lemma_marked_one(s.drop_last(), k);
    }
}

/// The high-score ledger: the best five games of the session.
#[derive(Debug)]
pub struct HighScores {
    scores: Vec<ScoreEntry>,
}

impl View for HighScores {
    type V = Seq<ScoreEntry>;

    closed spec fn view(&self) -> Seq<ScoreEntry> {
        self.scores@
    }
}

impl Default for HighScores {
    fn default() -> (ledger: HighScores)
        ensures
            ledger@ == Seq::<ScoreEntry>::empty(),
    {
        proof {
            lemma_marked_none(Seq::<ScoreEntry>::empty());
        }
        HighScores { scores: Vec::new() }
    }
}

impl HighScores {
    /// What every ledger meets: its entries are in order.
    #[verifier::type_invariant]
    pub closed spec fn well_formed(self) -> bool {
        ledger_ok(self.scores@)
    }

    /// The entries of a ledger are in order.
    pub proof fn lemma_in_order(self)
        requires
            self.well_formed(),
        ensures
            ledger_ok(self@),
    {
    }

    /// Records a finished game: every mark is erased, the score goes in
    /// behind the entries that it does not beat and is marked, and what falls
    /// below the fifth place is dropped.
    pub fn add_score(&mut self, score: u32)
        ensures
            final(self)@ == with_score(old(self)@, score),
            ledger_ok(old(self)@),
            ledger_ok(final(self)@),
    {
        proof {
            use_type_invariant(&*self);
        }
        let ghost before = self.scores@;
        let n = self.scores.len();
        let mut place: usize = 0;
        while place < n && self.scores[place].score >= score
            invariant
                n == self.scores.len(),
                self.scores@ == before,
                place <= n,
                forall|i: int| 0 <= i < place ==> before[i].score >= score,
            decreases n - place,
        {
            place = place + 1;
        }
        proof {
            lemma_place_of(before, score, place as int);
        }
        let mut next: Vec<ScoreEntry> = Vec::new();
        let mut i: usize = 0;
        while i < n
            invariant
                n == self.scores.len(),
                self.scores@ == before,
                i <= n,
                next@ == unmarked(before.take(i as int)),
            decreases n - i,
        {
            let entry = self.scores[i];
            next.push(ScoreEntry { score: entry.score, is_current: false });
            assert(next@ =~= unmarked(before.take(i + 1)));
            i = i + 1;
        }
        assert(before.take(n as int) =~= before);
        next.insert(place, ScoreEntry { score, is_current: true });
        assert(next@ == ranked(before, score));
        next.truncate(LEDGER_SIZE);
        assert(next@ =~= with_score(before, score));
        proof {
            lemma_with_score_keeps_order(before, score);
        }
        self.scores = next;
    }

    /// The entries, the best first.
    pub fn get_top_scores(&self) -> (top: &[ScoreEntry])
        ensures
            top@ == self@,
            ledger_ok(top@),
    {
        proof {
            use_type_invariant(self);
        }
        self.scores.as_slice()
    }
}

/// Whether an entry for `score` finds room in the ledger `s`.
pub open spec fn makes_the_board(s: Seq<ScoreEntry>, score: u32) -> bool {
    place_of(s, score) < LEDGER_SIZE
}

/// Recording a game keeps the ledger in order: at most five entries, none
/// followed by a higher one, and one marked entry, which holds the new score,
/// if the score found room, else none.
pub proof fn lemma_with_score_keeps_order(s: Seq<ScoreEntry>, score: u32)
    requires
        ledger_ok(s),
    ensures
        ledger_ok(with_score(s, score)),
        with_score(s, score).len() == if s.len() < LEDGER_SIZE {
            s.len() + 1
        } else {
            LEDGER_SIZE as nat
        },
        marked(with_score(s, score)) == if makes_the_board(s, score) {
            1nat
        } else {
            0nat
        },
        makes_the_board(s, score) ==> {
            let k = place_of(s, score) as int;
            &&& k < with_score(s, score).len()
            &&& with_score(s, score)[k] == ScoreEntry { score, is_current: true }
        },
        forall|i: int|
            0 <= i < with_score(s, score).len() && i != place_of(s, score)
                ==> !(#[trigger] with_score(s, score)[i]).is_current,
{
    let k = place_of(s, score) as int;
    lemma_place_bounds(s, score);
    let all = ranked(s, score);
    let kept = with_score(s, score);
    assert(all.len() == s.len() + 1);
    assert forall|i: int, j: int| 0 <= i <= j < all.len() implies all[i].score
        >= all[j].score by {
        if j < k {
            assert(all[i].score == s[i].score && all[j].score == s[j].score);
        } else if j == k {
            if i < k {
                assert(all[i].score == s[i].score);
            }
        } else {
            assert(all[j].score == s[j - 1].score);
            if i < k {
                assert(all[i].score == s[i].score);
            } else if i == k {
                assert(s[k].score < score);
                assert(s[k].score >= s[j - 1].score);
            } else {
                assert(all[i].score == s[i - 1].score);
            }
        }
    }
    assert forall|i: int| 0 <= i < all.len() implies (all[i].is_current <==> i == k) by {
        if i < k {
            assert(all[i] == unmarked(s)[i]);
        } else if i > k {
            assert(all[i] == unmarked(s)[i - 1]);
        }
    }
    if k < kept.len() {
        lemma_marked_one(kept, k);
    } else {
        lemma_marked_none(kept);
    }
}

/// The place of a score lies within the ledger, behind entries that the score
/// does not beat and before one that it does.
pub proof fn lemma_place_bounds(s: Seq<ScoreEntry>, score: u32)
    ensures
        place_of(s, score) <= s.len(),
        forall|i: int| 0 <= i < place_of(s, score) ==> s[i].score >= score,
        place_of(s, score) < s.len() ==> s[place_of(s, score) as int].score < score,
    decreases s.len(),
{
    if s.len() == 0 || s[0].score < score {
    } else {
        let rest = s.drop_first();
        lemma_place_bounds(rest, score);
        assert forall|i: int| 0 <= i < place_of(s, score) implies s[i].score >= score by {
            if i > 0 {
                assert(s[i] == rest[i - 1]);
            }
        }
        if place_of(s, score) < s.len() {
            assert(s[place_of(s, score) as int] == rest[place_of(rest, score) as int]);
        }
    }
}

/// Counts the time since the game ended: a restart is accepted only after
/// `required_delay`.
#[derive(Clone, Copy, Debug, PartialEq, Eq, Structural)]
pub struct GameOverTimer {
    pub elapsed: Fixed,
    pub required_delay: Fixed,
}

impl GameOverTimer {
    /// A timer at zero that asks for the standard delay.
    pub open spec fn fresh() -> GameOverTimer {
        GameOverTimer { elapsed: 0, required_delay: RESTART_DELAY }
    }

    /// Whether the delay has passed.
    pub open spec fn ready(self) -> bool {
        self.elapsed >= self.required_delay
    }

    /// Starts counting again.
    pub fn reset(&mut self)
        ensures
            final(self).elapsed == 0,
            final(self).required_delay == old(self).required_delay,
    {
        self.elapsed = 0;
    }

    /// Whether the delay has passed.
    pub fn can_restart(&self) -> (allowed: bool)
        ensures
            allowed == self.ready(),
    {
        self.elapsed >= self.required_delay
    }
}

impl Default for GameOverTimer {
    fn default() -> (timer: GameOverTimer)
        ensures
            timer == GameOverTimer::fresh(),
    {
        GameOverTimer { elapsed: 0, required_delay: RESTART_DELAY }
    }
}

} // verus!
