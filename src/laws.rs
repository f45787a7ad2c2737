//! What holds of every frame and every run of frames.
use vstd::prelude::*;
use crate::game::{
    applied, entity_ok, framed, lemma_applied_wf, lemma_game_frame_wf, lemma_over_frame_wf,
    over_frame, player_index, requested, screen_entities, tag_of, updated, FrameInput, GameState,
    GameView,
};
use crate::physics::{below_floor, MAX_Y_VEL};
use crate::world::{despawned, is_player, player_of, pos_of};

verus! {

/// A frame of the game screen that starts with the player at or above
/// the floor asks for no transition, whatever the input; a frame that
/// starts with nothing asked for then stays on the game screen.
pub proof fn lemma_no_transition_above_floor(v: GameView, input: FrameInput)
    requires
        v.wf(),
        v.state == GameState::Game,
        !below_floor(pos_of(v.entities[player_index(v.entities)])),
    ensures
        updated(v, input).pending == v.pending,
        v.pending is None ==> framed(v, input).state == GameState::Game,
{
}

/// A frame of the game screen that starts with the player below the
/// floor asks for the game-over screen, whatever the input, and the frame
/// ends on that screen.
pub proof fn lemma_transition_below_floor(v: GameView, input: FrameInput)
    requires
        v.wf(),
        v.state == GameState::Game,
        below_floor(pos_of(v.entities[player_index(v.entities)])),
    ensures
        updated(v, input).pending == Some(GameState::GameOver),
        framed(v, input).state == GameState::GameOver,
        framed(v, input).pending is None,
{
}

/// Asking twice for the same transition is the same as asking once.
pub proof fn lemma_request_idempotent(v: GameView, t: GameState)
    ensures
        requested(requested(v, t), t) == requested(v, t),
        applied(requested(requested(v, t), t)) == applied(requested(v, t)),
{
}

/// Once the current screen is left, nothing tagged for it is live.
pub proof fn lemma_leaving_clears_screen(v: GameView)
    requires
        v.wf(),
        v.pending is Some,
        v.pending != Some(v.state),
    ensures
        applied(v).state != v.state,
        forall|j: int|
            0 <= j < applied(v).entities.len() ==> #[trigger] applied(v).entities[j].tag != Some(
                tag_of(v.state),
            ),
{
    broadcast use Seq::lemma_filter_pred;

    let t = v.pending.unwrap();
    let d = despawned(v.entities, tag_of(v.state));
    assert forall|j: int| 0 <= j < applied(v).entities.len() implies #[trigger] applied(
        v,
    ).entities[j].tag != Some(tag_of(v.state)) by {
        if j < d.len() {
            assert(applied(v).entities[j] == d[j]);
        } else {
            assert(applied(v).entities[j] == screen_entities(t)[0]);
        }
    }
}

/// A whole frame keeps a game well-formed.
pub proof fn lemma_framed_wf(v: GameView, input: FrameInput)
    requires
        v.wf(),
    ensures
        framed(v, input).wf(),
{
    match v.state {
        GameState::Game => lemma_game_frame_wf(v, input.dt_ms, input.left, input.right),
        GameState::GameOver => lemma_over_frame_wf(v, input.restart),
    }
    lemma_applied_wf(updated(v, input));
}

/// The game after the frames `inputs`, one after another.
pub open spec fn run(v: GameView, inputs: Seq<FrameInput>) -> GameView
    decreases inputs.len(),
{
    if inputs.len() == 0 {
        v
    } else {
        framed(run(v, inputs.drop_last()), inputs.last())
    }
}

/// Over any run of frames, no player's vertical speed goes below
/// `-MAX_Y_VEL`.
pub proof fn lemma_velocity_floor(v: GameView, inputs: Seq<FrameInput>)
    requires
        v.wf(),
    ensures
        run(v, inputs).wf(),
        forall|j: int|
            0 <= j < run(v, inputs).entities.len() && is_player(#[trigger] run(v, inputs).entities[j])
                ==> player_of(run(v, inputs).entities[j]).y_velocity >= -MAX_Y_VEL,
    decreases inputs.len(),
{
    if inputs.len() > 0 {
        lemma_velocity_floor(v, inputs.drop_last());
        lemma_framed_wf(run(v, inputs.drop_last()), inputs.last());
    }
    let r = run(v, inputs);
    assert forall|j: int| 0 <= j < r.entities.len() && is_player(#[trigger] r.entities[j]) implies player_of(
        r.entities[j],
    ).y_velocity >= -MAX_Y_VEL by {
        assert(entity_ok(r.entities[j], r.state));
    }
}

/// Whether the key went down at frame `i` of `held`, where `held` says
/// whether the key is down on each frame and `prev` whether it was down
/// before the first.
pub open spec fn pressed_at(prev: bool, held: Seq<bool>, i: int) -> bool {
    held[i] && !(if i == 0 {
        prev
    } else {
        held[i - 1]
    })
}

/// How many of the first `n` frames of the game-over screen `v` ask for
/// the game screen, the restart key being down as `held` says.
pub open spec fn restart_requests(v: GameView, prev: bool, held: Seq<bool>, n: int) -> nat
    decreases n,
{
    if n <= 0 {
        0
    } else {
        restart_requests(v, prev, held, n - 1) + if over_frame(
            v,
            pressed_at(prev, held, n - 1),
        ).pending is Some {
            1nat
        } else {
            0nat
        }
    }
}

/// Holding the restart key over any number of frames of the game-over
/// screen asks for the game screen at most once: on the frame it went
/// down.
pub proof fn lemma_held_restart_fires_once(v: GameView, prev: bool, held: Seq<bool>, n: int)
    requires
        v.pending is None,
        0 <= n <= held.len(),
        forall|i: int| 0 <= i < held.len() ==> #[trigger] held[i],
    ensures
        restart_requests(v, prev, held, n) <= 1,
        restart_requests(v, prev, held, n) == 1 <==> n > 0 && !prev,
    decreases n,
{
    if n > 1 {
        lemma_held_restart_fires_once(v, prev, held, n - 1);
        assert(held[n - 2]);
    } else if n == 1 {
        assert(held[0]);
        assert(restart_requests(v, prev, held, 0) == 0);
    }
}

} // verus!
