//! The live entities, each optionally tagged with the screen that owns it,
//! and the bulk removal of everything a screen owns.
use vstd::prelude::*;
use crate::physics::{Player, Position};

verus! {

/// Marks an entity as owned by one screen, to be removed when that screen
/// is left.
#[derive(Clone, Copy, Debug, PartialEq, Eq, Structural)]
pub enum ScreenTag {
    OnGameScreen,
    OnGameOverScreen,
}

/// What an entity is.
#[derive(Clone, Copy, Debug, PartialEq, Eq, Structural)]
pub enum Body {
    /// The view onto the world; it belongs to no screen.
    Camera,
    /// The falling square, with where it is.
    Player { player: Player, pos: Position },
    /// The centered "Game Over" text.
    Banner,
}

#[derive(Clone, Copy, Debug, PartialEq, Eq, Structural)]
pub struct Entity {
    pub tag: Option<ScreenTag>,
    pub body: Body,
}

/// The live entities, in the order they were spawned.
pub struct World {
    pub entities: Vec<Entity>,
}

/// The test that keeps an entity through the teardown of `tag`.
pub open spec fn kept_by(tag: ScreenTag) -> spec_fn(Entity) -> bool {
    |e: Entity| e.tag != Some(tag)
}

/// `s` with every entity tagged `tag` taken out, the rest in order.
pub open spec fn despawned(s: Seq<Entity>, tag: ScreenTag) -> Seq<Entity> {
    s.filter(kept_by(tag))
}

pub open spec fn is_player(e: Entity) -> bool {
    e.body is Player
}

pub open spec fn is_banner(e: Entity) -> bool {
    e.body is Banner
}

/// The player state that `e` carries, if it is a player.
pub open spec fn player_of(e: Entity) -> Player {
    match e.body {
        Body::Player { player, .. } => player,
        _ => Player { falling: false, y_velocity: 0 },
    }
}

/// Where `e` is, if it is a player.
pub open spec fn pos_of(e: Entity) -> Position {
    match e.body {
        Body::Player { pos, .. } => pos,
        _ => Position { x: 0, y: 0 },
    }
}

/// Keeping what passes `p` from one more element.
proof fn lemma_filter_take_step(s: Seq<Entity>, p: spec_fn(Entity) -> bool, i: int)
    requires
        0 <= i < s.len(),
    ensures
        s.take(i + 1).filter(p) == if p(s[i]) {
            s.take(i).filter(p).push(s[i])
        } else {
            s.take(i).filter(p)
        },
{
    reveal(Seq::filter);
    assert(s.take(i + 1).drop_last() =~= s.take(i));
    assert(s.take(i + 1).last() == s[i]);
}

/// After the teardown of `tag`, no entity carries it.
pub proof fn lemma_teardown_complete(s: Seq<Entity>, tag: ScreenTag)
    ensures
        forall|j: int|
            0 <= j < despawned(s, tag).len() ==> #[trigger] despawned(s, tag)[j].tag != Some(
                tag,
            ),
{
    broadcast use Seq::lemma_filter_pred;

}

impl World {
    pub open spec fn view(&self) -> Seq<Entity> {
        self.entities@
    }

    /// A world that holds nothing.
    pub fn new() -> (r: World)
        ensures
            r@ == Seq::<Entity>::empty(),
    {
        World { entities: Vec::new() }
    }

    /// Adds `e` after the entities already there.
    pub fn spawn(&mut self, e: Entity)
        ensures
            final(self)@ == old(self)@.push(e),
    {
        self.entities.push(e);
    }

    /// The index of the first player, if there is one.
    pub fn find_player(&self) -> (r: Option<usize>)
        ensures
            r matches Some(i) ==> i < self@.len() && is_player(self@[i as int]) && forall|j: int|
                0 <= j < i ==> !is_player(#[trigger] self@[j]),
            r is None ==> forall|j: int| 0 <= j < self@.len() ==> !is_player(#[trigger] self@[j]),
    {
        let mut i: usize = 0;
        while i < self.entities.len()
            invariant
                0 <= i <= self@.len(),
                forall|j: int| 0 <= j < i ==> !is_player(#[trigger] self@[j]),
            decreases self@.len() - i,
        {
            if let Body::Player { .. } = self.entities[i].body {
                return Some(i);
            }
            i = i + 1;
        }
        None
    }

    /// Removes every entity tagged `tag` and keeps the others in order.
    /// Nothing tagged `tag` is no error.
    pub fn despawn_all_tagged(&mut self, tag: ScreenTag)
        ensures
            final(self)@ == despawned(old(self)@, tag),
            forall|j: int|
                0 <= j < final(self)@.len() ==> #[trigger] final(self)@[j].tag != Some(tag),
    {
        let mut kept: Vec<Entity> = Vec::new();
        let n = self.entities.len();
        let mut i: usize = 0;
        while i < n
            invariant
                n == self.entities@.len(),
                0 <= i <= n,
                kept@ == self.entities@.take(i as int).filter(kept_by(tag)),
            decreases n - i,
        {
            let e = self.entities[i];
            proof {
                lemma_filter_take_step(self.entities@, kept_by(tag), i as int);
            }
            if e.tag != Some(tag) {
                kept.push(e);
            }
            i = i + 1;
        }
        assert(self.entities@.take(n as int) =~= self.entities@);
        self.entities = kept;
        proof {
            lemma_teardown_complete(old(self)@, tag);
        }
    }
}

} // verus!
