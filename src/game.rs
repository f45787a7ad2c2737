//! The two screens, the pending transition between them, and one frame of
//! the game: the current screen's update, then the transition with its
//! teardown and setup.
use vstd::prelude::*;
use crate::physics::{
    below_floor, fallen, moved, next_velocity, spec_horizontal_speed, step, Player, Position,
};
use crate::world::{
    despawned, is_banner, is_player, player_of, pos_of, Body, Entity, ScreenTag, World,
};

verus! {

/// The screen that is showing; the game starts in `Game`.
#[derive(Clone, Copy, Debug, PartialEq, Eq, Structural, Hash)]
pub enum GameState {
    Game,
    GameOver,
}

/// What the host hands to one frame: its duration and the input.
#[derive(Clone, Copy, Debug, PartialEq, Eq, Structural)]
pub struct FrameInput {
    pub dt_ms: u32,
    pub left: bool,
    pub right: bool,
    /// The restart key went down during this frame.
    pub restart: bool,
}

/// The whole game: the screen, the transition asked for during the
/// current frame, and the live entities.
pub struct Game {
    pub state: GameState,
    pub pending: Option<GameState>,
    pub world: World,
}

/// The game as a mathematical value.
pub struct GameView {
    pub state: GameState,
    pub pending: Option<GameState>,
    pub entities: Seq<Entity>,
}

/// The tag of what `s` owns.
pub open spec fn tag_of(s: GameState) -> ScreenTag {
    match s {
        GameState::Game => ScreenTag::OnGameScreen,
        GameState::GameOver => ScreenTag::OnGameOverScreen,
    }
}

pub open spec fn camera() -> Entity {
    Entity { tag: None, body: Body::Camera }
}

/// A player at rest at the origin, owned by the game screen.
pub open spec fn fresh_player() -> Entity {
    Entity {
        tag: Some(ScreenTag::OnGameScreen),
        body: Body::Player {
            player: Player { falling: true, y_velocity: 0 },
            pos: Position { x: 0, y: 0 },
        },
    }
}

/// The "Game Over" text, owned by the game-over screen.
pub open spec fn banner() -> Entity {
    Entity { tag: Some(ScreenTag::OnGameOverScreen), body: Body::Banner }
}

/// What entering `s` spawns.
pub open spec fn screen_entities(s: GameState) -> Seq<Entity> {
    match s {
        GameState::Game => seq![fresh_player()],
        GameState::GameOver => seq![banner()],
    }
}

/// The game as it starts: a camera, and the game screen set up.
pub open spec fn initial() -> GameView {
    GameView { state: GameState::Game, pending: None, entities: seq![camera(), fresh_player()] }
}

/// `v` with a transition to `target` asked for.
pub open spec fn requested(v: GameView, target: GameState) -> GameView {
    GameView { state: v.state, pending: Some(target), entities: v.entities }
}

/// `v` after the pending transition is applied: a transition to another
/// screen tears the current one down and sets the new one up; one to the
/// current screen, or none, changes nothing but clearing the request.
pub open spec fn applied(v: GameView) -> GameView {
    match v.pending {
        Some(t) => if t != v.state {
            GameView {
                state: t,
                pending: None,
                entities: despawned(v.entities, tag_of(v.state)) + screen_entities(t),
            }
        } else {
            GameView { state: v.state, pending: None, entities: v.entities }
        },
        None => GameView { state: v.state, pending: None, entities: v.entities },
    }
}

/// Whether `i` is the place of the one player of `s`.
pub open spec fn sole_player(s: Seq<Entity>, i: int) -> bool {
    &&& 0 <= i < s.len()
    &&& is_player(s[i])
    &&& forall|j: int| 0 <= j < s.len() && j != i ==> !is_player(#[trigger] s[j])
}

/// The place of the player of `s`.
pub open spec fn player_index(s: Seq<Entity>) -> int {
    choose|i: int| sole_player(s, i)
}

/// The player of `s` and where it is, if `s` has one.
pub open spec fn player_in(s: Seq<Entity>) -> Option<(Player, Position)> {
    if has_player(s) {
        let e = s[player_index(s)];
        Some((player_of(e), pos_of(e)))
    } else {
        None
    }
}

/// The player entity `e` after one frame of motion.
pub open spec fn player_moved(e: Entity, dt_ms: u32, left: bool, right: bool) -> Entity {
    Entity {
        tag: e.tag,
        body: Body::Player {
            player: fallen(player_of(e)),
            pos: moved(
                pos_of(e),
                spec_horizontal_speed(left, right),
                next_velocity(player_of(e)),
                dt_ms,
            ),
        },
    }
}

/// One frame of the game screen: the player moves, and the game-over
/// screen is asked for when the player was below the floor before moving.
pub open spec fn game_frame(v: GameView, dt_ms: u32, left: bool, right: bool) -> GameView {
    let i = player_index(v.entities);
    let e = v.entities[i];
    GameView {
        state: v.state,
        pending: if below_floor(pos_of(e)) {
            Some(GameState::GameOver)
        } else {
            v.pending
        },
        entities: v.entities.update(i, player_moved(e, dt_ms, left, right)),
    }
}

/// One frame of the game-over screen: the game screen is asked for when
/// the restart key went down.
pub open spec fn over_frame(v: GameView, restart: bool) -> GameView {
    if restart {
        requested(v, GameState::Game)
    } else {
        v
    }
}

/// The update of the screen that is showing.
pub open spec fn updated(v: GameView, input: FrameInput) -> GameView {
    match v.state {
        GameState::Game => game_frame(v, input.dt_ms, input.left, input.right),
        GameState::GameOver => over_frame(v, input.restart),
    }
}

/// A whole frame: the update, then the transition.
pub open spec fn framed(v: GameView, input: FrameInput) -> GameView {
    applied(updated(v, input))
}

/// What may stand beside the screen `s`: only what `s` owns or nobody
/// owns; players, well-formed, only on the game screen; banners only on
/// the game-over screen.
pub open spec fn entity_ok(e: Entity, s: GameState) -> bool {
    &&& e.tag is Some ==> e.tag == Some(tag_of(s))
    &&& is_player(e) ==> e.tag == Some(ScreenTag::OnGameScreen) && player_of(e).wf()
    &&& is_banner(e) ==> e.tag == Some(ScreenTag::OnGameOverScreen)
}

/// Every entity of `s` may stand beside the screen `state`.
pub open spec fn all_ok(s: Seq<Entity>, state: GameState) -> bool {
    forall|j: int| 0 <= j < s.len() ==> entity_ok(#[trigger] s[j], state)
}

/// `s` holds at most one player.
pub open spec fn one_player_at_most(s: Seq<Entity>) -> bool {
    forall|j: int, k: int|
        0 <= j < s.len() && 0 <= k < s.len() && is_player(#[trigger] s[j]) && is_player(
            #[trigger] s[k],
        ) ==> j == k
}

/// `s` holds at most one banner.
pub open spec fn one_banner_at_most(s: Seq<Entity>) -> bool {
    forall|j: int, k: int|
        0 <= j < s.len() && 0 <= k < s.len() && is_banner(#[trigger] s[j]) && is_banner(
            #[trigger] s[k],
        ) ==> j == k
}

/// `s` holds a player.
pub open spec fn has_player(s: Seq<Entity>) -> bool {
    exists|i: int| 0 <= i < s.len() && is_player(#[trigger] s[i])
}

impl GameView {
    /// At most one player and one banner live; the game screen has its
    /// player; nothing of another screen outlives it.
    pub open spec fn wf(self) -> bool {
        &&& all_ok(self.entities, self.state)
        &&& one_player_at_most(self.entities)
        &&& one_banner_at_most(self.entities)
        &&& self.state == GameState::Game ==> has_player(self.entities)
    }
}

/// The one player of a well-formed game screen.
pub proof fn lemma_player_index(v: GameView)
    requires
        v.wf(),
        v.state == GameState::Game,
    ensures
        sole_player(v.entities, player_index(v.entities)),
{
    let i = choose|i: int| 0 <= i < v.entities.len() && is_player(#[trigger] v.entities[i]);
    assert(sole_player(v.entities, i));
}

/// Asking for a transition keeps a game well-formed.
pub proof fn lemma_requested_wf(v: GameView, t: GameState)
    requires
        v.wf(),
    ensures
        requested(v, t).wf(),
{
}

/// Applying the pending transition keeps a game well-formed.
pub proof fn lemma_applied_wf(v: GameView)
    requires
        v.wf(),
    ensures
        applied(v).wf(),
{
    broadcast use Seq::lemma_filter_pred, Seq::lemma_filter_contains_rev;

    if let Some(t) = v.pending {
        if t != v.state {
            let d = despawned(v.entities, tag_of(v.state));
            let r = applied(v).entities;
            assert forall|j: int| 0 <= j < d.len() implies #[trigger] d[j].tag is None && !is_player(
                d[j],
            ) && !is_banner(d[j]) by {
                assert(d.contains(d[j]));
                let k = choose|k: int| 0 <= k < v.entities.len() && v.entities[k] == d[j];
                assert(entity_ok(v.entities[k], v.state));
            }
            assert forall|j: int| 0 <= j < r.len() implies entity_ok(#[trigger] r[j], t) by {
                if j < d.len() {
                    assert(r[j] == d[j]);
                } else {
                    assert(r[j] == screen_entities(t)[0]);
                }
            }
            assert forall|j: int| 0 <= j < r.len() - 1 implies !is_player(#[trigger] r[j])
                && !is_banner(r[j]) by {
                assert(r[j] == d[j]);
            }
            assert(r[r.len() - 1] == screen_entities(t)[0]);
            if t == GameState::Game {
                assert(is_player(r[r.len() - 1]));
            }
        }
    }
}

/// A frame of the game screen keeps a game well-formed.
pub proof fn lemma_game_frame_wf(v: GameView, dt_ms: u32, left: bool, right: bool)
    requires
        v.wf(),
        v.state == GameState::Game,
    ensures
        game_frame(v, dt_ms, left, right).wf(),
{
    lemma_player_index(v);
    let i = player_index(v.entities);
    assert(entity_ok(v.entities[i], v.state));
    let r = game_frame(v, dt_ms, left, right).entities;
    assert(is_player(r[i]));
}

/// A frame of the game-over screen keeps a game well-formed.
pub proof fn lemma_over_frame_wf(v: GameView, restart: bool)
    requires
        v.wf(),
    ensures
        over_frame(v, restart).wf(),
{
    if restart {
        lemma_requested_wf(v, GameState::Game);
    }
}

impl GameState {
    /// The tag of what this screen owns.
    pub fn tag(self) -> (r: ScreenTag)
        ensures
            r == tag_of(self),
    {
        match self {
            GameState::Game => ScreenTag::OnGameScreen,
            GameState::GameOver => ScreenTag::OnGameOverScreen,
        }
    }
}

/// Spawns the camera, which belongs to no screen.
pub fn setup(world: &mut World)
    ensures
        final(world)@ == old(world)@.push(camera()),
{
    world.spawn(Entity { tag: None, body: Body::Camera });
}

/// Sets the game screen up: a fresh player at the origin.
pub fn game_setup(world: &mut World)
    ensures
        final(world)@ == old(world)@.push(fresh_player()),
{
    world.spawn(
        Entity {
            tag: Some(ScreenTag::OnGameScreen),
            body: Body::Player { player: Player::new(), pos: Position::origin() },
        },
    );
}

/// Sets the game-over screen up: the "Game Over" banner.
pub fn gameover_setup(world: &mut World)
    ensures
        final(world)@ == old(world)@.push(banner()),
{
    world.spawn(Entity { tag: Some(ScreenTag::OnGameOverScreen), body: Body::Banner });
}

/// Sets the screen `s` up.
pub fn setup_screen(world: &mut World, s: GameState)
    ensures
        final(world)@ == old(world)@ + screen_entities(s),
{
    match s {
        GameState::Game => game_setup(world),
        GameState::GameOver => gameover_setup(world),
    }
    assert(final(world)@ =~= old(world)@ + screen_entities(s));
}

impl Game {
    pub open spec fn view(&self) -> GameView {
        GameView { state: self.state, pending: self.pending, entities: self.world@ }
    }

    /// The game as it starts: the camera, then the game screen set up.
    pub fn new() -> (r: Game)
        ensures
            r@ == initial(),
            r@.wf(),
    {
        let mut world = World::new();
        setup(&mut world);
        game_setup(&mut world);
        let r = Game { state: GameState::Game, pending: None, world };
        assert(r@.entities =~= seq![camera(), fresh_player()]);
        assert(is_player(r@.entities[1]));
        r
    }

    /// Asks for a transition to `target` at the end of the frame. Asking
    /// again for the same target changes nothing more.
    pub fn request_transition(&mut self, target: GameState)
        requires
            old(self)@.wf(),
        ensures
            final(self)@ == requested(old(self)@, target),
            final(self)@.wf(),
    {
        self.pending = Some(target);
        proof {
            lemma_requested_wf(old(self)@, target);
        }
    }

    /// Applies the transition asked for during the frame, if it leads to
    /// another screen: tears the current screen down, switches, and sets
    /// the new screen up. The request is cleared in any case.
    pub fn apply_pending(&mut self)
        requires
            old(self)@.wf(),
        ensures
            final(self)@ == applied(old(self)@),
            final(self)@.wf(),
    {
        let p = self.pending;
        self.pending = None;
        if let Some(t) = p {
            if t != self.state {
                self.world.despawn_all_tagged(self.state.tag());
                self.state = t;
                setup_screen(&mut self.world, t);
            }
        }
        proof {
            lemma_applied_wf(old(self)@);
        }
    }

    /// One frame of the game screen: moves the player and asks for the
    /// game-over screen if the player was below the floor before moving.
    pub fn update_game(&mut self, dt_ms: u32, left: bool, right: bool)
        requires
            old(self)@.wf(),
            old(self).state == GameState::Game,
        ensures
            final(self)@ == game_frame(old(self)@, dt_ms, left, right),
            final(self)@.wf(),
    {
        proof {
            lemma_player_index(self@);
            lemma_game_frame_wf(self@, dt_ms, left, right);
        }
        if let Some(i) = self.world.find_player() {
            let e = self.world.entities[i];
            assert(entity_ok(e, self.state));
            if let Body::Player { player, pos } = e.body {
                let mut player = player;
                let mut pos = pos;
                let over = step(&mut player, &mut pos, dt_ms, left, right);
                self.world.entities[i] = Entity { tag: e.tag, body: Body::Player { player, pos } };
                if over {
                    self.pending = Some(GameState::GameOver);
                }
            }
        }
    }

    /// One frame of the game-over screen: asks for the game screen when
    /// the restart key went down during the frame.
    pub fn update_game_over(&mut self, restart: bool)
        requires
            old(self)@.wf(),
            old(self).state == GameState::GameOver,
        ensures
            final(self)@ == over_frame(old(self)@, restart),
            final(self)@.wf(),
    {
        if restart {
            self.request_transition(GameState::Game);
        }
    }

    /// Runs the update of the screen that is showing.
    pub fn update(&mut self, input: FrameInput)
        requires
            old(self)@.wf(),
        ensures
            final(self)@ == updated(old(self)@, input),
            final(self)@.wf(),
    {
        match self.state {
            GameState::Game => self.update_game(input.dt_ms, input.left, input.right),
            GameState::GameOver => self.update_game_over(input.restart),
        }
    }

    /// A whole frame: the update of the screen that is showing, then the
    /// transition it asked for.
    pub fn frame(&mut self, input: FrameInput)
        requires
            old(self)@.wf(),
        ensures
            final(self)@ == framed(old(self)@, input),
            final(self)@.wf(),
    {
        self.update(input);
        self.apply_pending();
    }

    /// The player and where it is, if one is live.
    pub fn player(&self) -> (r: Option<(Player, Position)>)
        requires
            self@.wf(),
        ensures
            r == player_in(self@.entities),
    {
        match self.world.find_player() {
            Some(i) => {
                assert(sole_player(self@.entities, i as int));
                match self.world.entities[i].body {
                    Body::Player { player, pos } => Some((player, pos)),
                    _ => None,
                }
            },
            None => None,
        }
    }
}

} // verus!
