use jumper::game::{FrameInput, Game, GameState};
use jumper::physics::{advance, horizontal_speed, step, Player, Position};
use jumper::world::{Body, Entity, ScreenTag, World};

fn idle(dt_ms: u32) -> FrameInput {
    FrameInput { dt_ms, left: false, right: false, restart: false }
}

fn tagged(g: &Game, tag: ScreenTag) -> usize {
    g.world.entities.iter().filter(|e| e.tag == Some(tag)).count()
}

fn banners(g: &Game) -> usize {
    g.world.entities.iter().filter(|e| e.body == Body::Banner).count()
}

fn set_player_y(g: &mut Game, y: i64) {
    for e in g.world.entities.iter_mut() {
        if let Body::Player { pos, .. } = &mut e.body {
            pos.y = y;
        }
    }
}

#[test]
fn new_game_has_camera_and_fresh_player() {
    let g = Game::new();
    assert_eq!(g.state, GameState::Game);
    assert_eq!(g.pending, None);
    assert_eq!(g.world.entities.len(), 2);
    assert_eq!(g.world.entities[0], Entity { tag: None, body: Body::Camera });
    let (p, pos) = g.player().unwrap();
    assert_eq!(p, Player { falling: true, y_velocity: 0 });
    assert_eq!(pos, Position { x: 0, y: 0 });
}

#[test]
fn one_second_frame_falls_ten() {
    let mut g = Game::new();
    g.frame(idle(1000));
    let (p, pos) = g.player().unwrap();
    assert_eq!(p.y_velocity, -10);
    assert_eq!(pos.y, -10_000);
    assert_eq!(pos.x, 0);
    assert_eq!(g.state, GameState::Game);
}

#[test]
fn fifteen_frames_clamp_at_floor_speed() {
    let mut player = Player::new();
    let mut pos = Position::origin();
    let mut prev_y = pos.y;
    for frame in 1..=15i64 {
        step(&mut player, &mut pos, 1000, false, false);
        let expected = if frame >= 10 { -100 } else { -10 * frame };
        assert_eq!(player.y_velocity, expected);
        assert_eq!(prev_y - pos.y, -expected * 1000);
        if frame > 10 {
            assert_eq!(prev_y - pos.y, 100_000);
        }
        prev_y = pos.y;
    }
}

#[test]
fn fifteen_game_updates_clamp_at_floor_speed() {
    let mut g = Game::new();
    for frame in 1..=15i64 {
        let before = g.player().unwrap().1.y;
        g.update_game(1000, false, false);
        let (p, pos) = g.player().unwrap();
        assert_eq!(p.y_velocity, (-10 * frame).max(-100));
        assert_eq!(before - pos.y, -p.y_velocity * 1000);
    }
}

#[test]
fn below_floor_ends_game() {
    let mut g = Game::new();
    set_player_y(&mut g, -260_000);
    g.update(idle(16));
    assert_eq!(g.pending, Some(GameState::GameOver));
    g.apply_pending();
    assert_eq!(g.state, GameState::GameOver);
    assert_eq!(g.pending, None);
    assert!(g.player().is_none());
    assert_eq!(banners(&g), 1);
    assert_eq!(tagged(&g, ScreenTag::OnGameScreen), 0);
    assert_eq!(g.world.entities[0], Entity { tag: None, body: Body::Camera });
}

#[test]
fn restart_press_returns_to_fresh_game() {
    let mut g = Game::new();
    set_player_y(&mut g, -260_000);
    g.frame(idle(16));
    assert_eq!(g.state, GameState::GameOver);
    g.update(FrameInput { dt_ms: 16, left: false, right: false, restart: true });
    assert_eq!(g.pending, Some(GameState::Game));
    g.apply_pending();
    assert_eq!(g.state, GameState::Game);
    assert_eq!(banners(&g), 0);
    assert_eq!(tagged(&g, ScreenTag::OnGameOverScreen), 0);
    let (p, pos) = g.player().unwrap();
    assert_eq!(p, Player { falling: true, y_velocity: 0 });
    assert_eq!(pos, Position { x: 0, y: 0 });
}

#[test]
fn at_floor_asks_nothing() {
    for (left, right) in [(false, false), (true, false), (false, true), (true, true)] {
        let mut g = Game::new();
        set_player_y(&mut g, -250_000);
        g.update_game(1000, left, right);
        assert_eq!(g.pending, None);
        g.apply_pending();
        assert_eq!(g.state, GameState::Game);
    }
}

#[test]
fn below_floor_asks_whatever_the_input() {
    for (left, right) in [(false, false), (true, false), (false, true), (true, true)] {
        let mut g = Game::new();
        set_player_y(&mut g, -250_001);
        g.update_game(0, left, right);
        assert_eq!(g.pending, Some(GameState::GameOver));
        g.apply_pending();
        assert_eq!(g.state, GameState::GameOver);
        assert_eq!(banners(&g), 1);
    }
}

#[test]
fn speed_never_below_floor_speed() {
    let mut g = Game::new();
    for _ in 0..200 {
        g.update_game(1, true, false);
        assert!(g.player().unwrap().0.y_velocity >= -100);
    }
    assert_eq!(g.player().unwrap().0.y_velocity, -100);
}

#[test]
fn asking_twice_is_asking_once() {
    let mut once = Game::new();
    let mut twice = Game::new();
    once.request_transition(GameState::GameOver);
    twice.request_transition(GameState::GameOver);
    twice.request_transition(GameState::GameOver);
    assert_eq!(once.pending, twice.pending);
    once.apply_pending();
    twice.apply_pending();
    assert_eq!(once.state, twice.state);
    assert_eq!(once.world.entities, twice.world.entities);
    assert_eq!(banners(&twice), 1);
}

#[test]
fn held_restart_key_fires_once() {
    let mut g = Game::new();
    set_player_y(&mut g, -260_000);
    g.frame(idle(16));
    assert_eq!(g.state, GameState::GameOver);
    // The key is down on every frame and went down on the first only.
    let held = [true; 6];
    let mut prev = false;
    let mut fired = 0;
    for &down in held.iter() {
        let pressed = down && !prev;
        prev = down;
        g.update_game_over(pressed);
        if g.pending.is_some() {
            fired += 1;
            g.pending = None;
        }
    }
    assert_eq!(fired, 1);
    assert_eq!(g.state, GameState::GameOver);
    // A key that was already down before the screen showed never fires.
    let mut fired_again = 0;
    for &down in held.iter() {
        let pressed = down && !prev;
        prev = down;
        g.update_game_over(pressed);
        if g.pending.is_some() {
            fired_again += 1;
        }
    }
    assert_eq!(fired_again, 0);
    g.frame(FrameInput { dt_ms: 16, left: false, right: false, restart: true });
    assert_eq!(g.state, GameState::Game);
}

#[test]
fn leaving_a_screen_clears_its_tag() {
    let mut g = Game::new();
    g.request_transition(GameState::GameOver);
    g.apply_pending();
    assert_eq!(tagged(&g, ScreenTag::OnGameScreen), 0);
    g.request_transition(GameState::Game);
    g.apply_pending();
    assert_eq!(tagged(&g, ScreenTag::OnGameOverScreen), 0);
    assert_eq!(tagged(&g, ScreenTag::OnGameScreen), 1);
}

#[test]
fn transition_to_same_screen_changes_nothing() {
    let mut g = Game::new();
    g.frame(idle(1000));
    let before = g.world.entities.clone();
    g.request_transition(GameState::Game);
    g.apply_pending();
    assert_eq!(g.state, GameState::Game);
    assert_eq!(g.pending, None);
    assert_eq!(g.world.entities, before);
}

#[test]
fn no_request_no_transition() {
    let mut g = Game::new();
    let before = g.world.entities.clone();
    g.apply_pending();
    assert_eq!(g.state, GameState::Game);
    assert_eq!(g.world.entities, before);
}

#[test]
fn horizontal_input_speeds() {
    assert_eq!(horizontal_speed(false, false), 0);
    assert_eq!(horizontal_speed(true, false), -100);
    assert_eq!(horizontal_speed(false, true), 100);
    assert_eq!(horizontal_speed(true, true), 100);
}

#[test]
fn sideways_motion_scales_with_frame_time() {
    let mut g = Game::new();
    g.frame(FrameInput { dt_ms: 500, left: true, right: false, restart: false });
    let (p, pos) = g.player().unwrap();
    assert_eq!(pos.x, -50_000);
    assert_eq!(p.y_velocity, -10);
    assert_eq!(pos.y, -5_000);
    g.frame(FrameInput { dt_ms: 250, left: true, right: true, restart: false });
    let (p, pos) = g.player().unwrap();
    assert_eq!(pos.x, -25_000);
    assert_eq!(p.y_velocity, -20);
    assert_eq!(pos.y, -10_000);
}

#[test]
fn gravity_step_ignores_frame_time() {
    let mut g = Game::new();
    g.frame(idle(0));
    let (p, pos) = g.player().unwrap();
    assert_eq!(p.y_velocity, -10);
    assert_eq!(pos.y, 0);
}

#[test]
fn grounded_player_keeps_speed() {
    let mut player = Player { falling: false, y_velocity: -30 };
    let mut pos = Position::origin();
    assert!(!step(&mut player, &mut pos, 1000, false, false));
    assert_eq!(player.y_velocity, -30);
    assert_eq!(pos.y, -30_000);
}

#[test]
fn positions_saturate() {
    assert_eq!(advance(i64::MIN + 5, -100, 1000), i64::MIN);
    assert_eq!(advance(i64::MAX - 5, 100, 1000), i64::MAX);
    assert_eq!(advance(7, 100, 3), 307);
    assert_eq!(advance(7, -100, u32::MAX), 7 - 100 * u32::MAX as i64);
}

#[test]
fn despawn_on_untagged_world_is_noop() {
    let mut w = World::new();
    w.despawn_all_tagged(ScreenTag::OnGameScreen);
    assert!(w.entities.is_empty());
    let cam = Entity { tag: None, body: Body::Camera };
    w.spawn(cam);
    w.despawn_all_tagged(ScreenTag::OnGameOverScreen);
    assert_eq!(w.entities, vec![cam]);
}

#[test]
fn despawn_removes_every_tagged_entity() {
    let mut w = World::new();
    let cam = Entity { tag: None, body: Body::Camera };
    let b = Entity { tag: Some(ScreenTag::OnGameOverScreen), body: Body::Banner };
    let p = Entity {
        tag: Some(ScreenTag::OnGameScreen),
        body: Body::Player { player: Player::new(), pos: Position::origin() },
    };
    for e in [b, cam, p, b, b, p] {
        w.spawn(e);
    }
    w.despawn_all_tagged(ScreenTag::OnGameOverScreen);
    assert_eq!(w.entities, vec![cam, p, p]);
    assert_eq!(w.find_player(), Some(1));
    w.despawn_all_tagged(ScreenTag::OnGameScreen);
    assert_eq!(w.entities, vec![cam]);
    assert_eq!(w.find_player(), None);
}

#[test]
fn screens_own_their_tags() {
    assert_eq!(GameState::Game.tag(), ScreenTag::OnGameScreen);
    assert_eq!(GameState::GameOver.tag(), ScreenTag::OnGameOverScreen);
}
