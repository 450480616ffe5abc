//! The store of live game objects, one list for each kind.

use vstd::prelude::*;
use crate::components::{
    BackgroundMusic, Bullet, Enemy, EnemyBullet, ExplosionParticle, GameOverUI, Player, Score,
    Sound, Star, StartScreenUI,
};

verus! {

/// Everything that is alive. Objects of one kind keep the order in which they
/// were spawned. `sounds` holds the clips that wait to be played once; the
/// audio side removes them as it plays them.
#[derive(Debug)]
pub struct World {
    pub player: Option<Player>,
    pub enemies: Vec<Enemy>,
    pub bullets: Vec<Bullet>,
    pub enemy_bullets: Vec<EnemyBullet>,
    pub stars: Vec<Star>,
    pub particles: Vec<ExplosionParticle>,
    pub score_text: Option<Score>,
    pub music: Option<BackgroundMusic>,
    pub start_screen: Vec<StartScreenUI>,
    pub game_over_screen: Vec<GameOverUI>,
    pub sounds: Vec<Sound>,
}

/// The content of a [`World`].
pub struct WorldView {
    pub player: Option<Player>,
    pub enemies: Seq<Enemy>,
    pub bullets: Seq<Bullet>,
    pub enemy_bullets: Seq<EnemyBullet>,
    pub stars: Seq<Star>,
    pub particles: Seq<ExplosionParticle>,
    pub score_text: Option<Score>,
    pub music: Option<BackgroundMusic>,
    pub start_screen: Seq<StartScreenUI>,
    pub game_over_screen: Seq<GameOverUI>,
    pub sounds: Seq<Sound>,
}

impl View for World {
    type V = WorldView;

    open spec fn view(&self) -> WorldView {
        WorldView {
            player: self.player,
            enemies: self.enemies@,
            bullets: self.bullets@,
            enemy_bullets: self.enemy_bullets@,
            stars: self.stars@,
            particles: self.particles@,
            score_text: self.score_text,
            music: self.music,
            start_screen: self.start_screen@,
            game_over_screen: self.game_over_screen@,
            sounds: self.sounds@,
        }
    }
}

impl WorldView {
    /// The world in which nothing lives.
    pub open spec fn empty() -> WorldView {
        WorldView {
            player: None,
            enemies: Seq::empty(),
            bullets: Seq::empty(),
            enemy_bullets: Seq::empty(),
            stars: Seq::empty(),
            particles: Seq::empty(),
            score_text: None,
            music: None,
            start_screen: Seq::empty(),
            game_over_screen: Seq::empty(),
            sounds: Seq::empty(),
        }
    }
}

impl World {
    /// A world in which nothing lives.
    pub fn new() -> (world: World)
        ensures
            world@ == WorldView::empty(),
    {
        World {
            player: None,
            enemies: Vec::new(),
            bullets: Vec::new(),
            enemy_bullets: Vec::new(),
            stars: Vec::new(),
            particles: Vec::new(),
            score_text: None,
            music: None,
            start_screen: Vec::new(),
            game_over_screen: Vec::new(),
            sounds: Vec::new(),
        }
    }
}

/// Filtering the first `i + 1` items of a sequence keeps what filtering the
/// first `i` kept, and the item at `i` if it passes.
pub proof fn lemma_filter_next<T>(s: Seq<T>, keep: spec_fn(T) -> bool, i: int)
    requires
        0 <= i < s.len(),
    ensures
        s.take(i + 1).filter(keep) == if keep(s[i]) {
            s.take(i).filter(keep).push(s[i])
        } else {
            s.take(i).filter(keep)
        },
{
    reveal(Seq::filter);
    assert(s.take(i + 1).drop_last() =~= s.take(i));
    assert(s.take(i + 1).last() == s[i]);
}

} // verus!
