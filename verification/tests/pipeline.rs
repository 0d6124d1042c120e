//! The tick pipeline: deferred command application, destroy idempotence,
//! quiet ticks, the end-to-end wall turn, the win condition, and the phase
//! machine.

use invade_rs::beam::BeamColor;
use invade_rs::character::{GameCharacter, GameCommand, Id, IdGen};
use invade_rs::event::{Event, Key};
use invade_rs::ferris::{Ferris, FerrisColor, FerrisState};
use invade_rs::fsm::StateMachineRunner;
use invade_rs::game_state::{GameStateMachine, PhaseKind};
use invade_rs::geometry::{Point, Rect};
use invade_rs::in_game::{InGame, TURBO_FISH_APPEAR_THRESHOLD};
use invade_rs::out_game::OutGame;
use invade_rs::random::Prng;
use invade_rs::shield::create_shield;
use invade_rs::ship::Ship;
use invade_rs::sprite::{Cell, CellName, SheetEntry, SpriteSheet};
use invade_rs::wall::{Wall, WallType};

fn sheet() -> SpriteSheet {
    let mut cells: Vec<SheetEntry> = Vec::new();
    let mut add = |name: CellName, w: i16, h: i16| {
        cells.push(SheetEntry { name, cell: Cell { frame: Rect::new_from_x_y_w_h(0, 0, w, h) } });
    };
    for color in [FerrisColor::Blue, FerrisColor::Green, FerrisColor::Magenta] {
        for i in 0..5u8 {
            add(CellName::Ferris(color, i), 96, 64);
        }
    }
    for color in [BeamColor::Blue, BeamColor::Green, BeamColor::Magenta] {
        add(CellName::Beam(color), 8, 16);
    }
    add(CellName::Missile, 8, 16);
    add(CellName::Ship, 64, 32);
    add(CellName::Shield(0), 32, 16);
    add(CellName::Shield(4), 32, 16);
    add(CellName::Shield(5), 32, 16);
    add(CellName::TurboFish(0), 80, 40);
    add(CellName::TurboFish(1), 80, 40);
    drop(add);
    SpriteSheet::new(cells)
}

fn screen() -> Rect {
    Rect::new_from_x_y_w_h(0, 0, 600, 600)
}

fn ids_of(roster: &[GameCharacter]) -> Vec<Id> {
    roster.iter().map(|c| c.id()).collect()
}

/// A seed whose first `draws` outputs all miss every spawn threshold.
fn quiet_seed(draws: usize) -> u64 {
    let mut seed: u64 = 1;
    loop {
        let mut p = Prng::new(seed);
        let quiet = (0..draws).all(|_| p.next_u32() >= TURBO_FISH_APPEAR_THRESHOLD);
        if quiet {
            return seed;
        }
        seed += 1;
    }
}

#[test]
fn destroying_twice_equals_destroying_once() {
    let s = sheet();
    let mut gen = IdGen::new(0);
    let shields = create_shield(&s, &Point { x: 100, y: 490 }, &mut gen);
    let roster: Vec<GameCharacter> = shields
        .iter()
        .map(|e| GameCharacter::ShieldElement(*e))
        .collect();
    let victim = roster[3].id();
    let player = Ship::new(&s, Point { x: 300, y: 560 }, &mut gen);

    let mut once = InGame::new(s.duplicate(), screen(), roster.clone(), player, Prng::new(5), gen);
    once.apply_command(GameCommand::DestroyCharacter(victim));
    let mut twice = InGame::new(s, screen(), roster, player, Prng::new(5), gen);
    twice.apply_command(GameCommand::DestroyCharacter(victim));
    twice.apply_command(GameCommand::DestroyCharacter(victim));

    assert_eq!(once.characters.len(), 11);
    assert_eq!(ids_of(&once.characters), ids_of(&twice.characters));
}

#[test]
fn destroying_an_absent_id_changes_nothing() {
    let s = sheet();
    let mut gen = IdGen::new(0);
    let roster = vec![GameCharacter::Ship(Ship::new(&s, Point { x: 0, y: 0 }, &mut gen))];
    let before = ids_of(&roster);
    let mut g = InGame::new(s, screen(), roster, Ship::new(&sheet(), Point { x: 0, y: 0 }, &mut gen),
        Prng::new(5), gen);
    g.apply_command(GameCommand::DestroyCharacter(Id(12345)));
    assert_eq!(ids_of(&g.characters), before);
}

#[test]
fn turn_fleet_turns_every_ferris_and_nothing_else() {
    let s = sheet();
    let mut gen = IdGen::new(0);
    let f1 = Ferris::new(&s, Point { x: 100, y: 0 }, FerrisColor::Blue, &mut gen);
    let mut f2 = Ferris::new(&s, Point { x: 200, y: 10 }, FerrisColor::Green, &mut gen);
    f2.move_right();
    let shield = create_shield(&s, &Point { x: 100, y: 490 }, &mut gen)[0];
    let roster = vec![
        GameCharacter::Ferris(f1),
        GameCharacter::Ferris(f2),
        GameCharacter::ShieldElement(shield),
    ];
    let player = Ship::new(&s, Point { x: 300, y: 560 }, &mut gen);
    let mut g = InGame::new(s, screen(), roster, player, Prng::new(5), gen);
    g.apply_command(GameCommand::TurnFerris);
    match &g.characters[0] {
        GameCharacter::Ferris(f) => assert_eq!(f.state, FerrisState::TurnRight(64)),
        _ => panic!("slot 0 must stay a ferris"),
    }
    match &g.characters[1] {
        GameCharacter::Ferris(f) => assert_eq!(f.state, FerrisState::TurnLeft(74)),
        _ => panic!("slot 1 must stay a ferris"),
    }
    assert!(matches!(g.characters[2], GameCharacter::ShieldElement(_)));
}

#[test]
fn destroy_player_sets_the_game_over_flag_only() {
    let s = sheet();
    let mut gen = IdGen::new(0);
    let roster = vec![GameCharacter::Ferris(
        Ferris::new(&s, Point { x: 100, y: 100 }, FerrisColor::Blue, &mut gen),
    )];
    let before = ids_of(&roster);
    let player = Ship::new(&s, Point { x: 300, y: 560 }, &mut gen);
    let mut g = InGame::new(s, screen(), roster, player, Prng::new(5), gen);
    g.apply_command(GameCommand::DestroyPlayer);
    assert!(g.is_game_over);
    assert_eq!(ids_of(&g.characters), before);
    assert_eq!(g.player.id, player.id);
}

#[test]
fn quiet_tick_keeps_roster_ids() {
    let s = sheet();
    let mut gen = IdGen::new(0);
    // One ferris well inside the screen, no walls: a short quiet tick moves
    // it without emitting any command.
    let seed = quiet_seed(2);
    let f = Ferris::new(&s, Point { x: 300, y: 100 }, FerrisColor::Blue, &mut gen);
    let roster = vec![GameCharacter::Ferris(f)];
    let before = ids_of(&roster);
    let player = Ship::new(&s, Point { x: 300, y: 560 }, &mut gen);
    let g = InGame::new(s, screen(), roster, player, Prng::new(seed), gen);
    match g.update(100, &Vec::new()) {
        GameStateMachine::InGame(next) => {
            assert_eq!(ids_of(&next.characters), before);
            match &next.characters[0] {
                GameCharacter::Ferris(moved) => {
                    assert_eq!((moved.position.x, moved.position.y), (292, 100));
                },
                _ => panic!("the ferris must survive"),
            }
        },
        _ => panic!("a tick with a live fleet stays in game"),
    }
}

#[test]
fn wall_turn_end_to_end() {
    let s = sheet();
    let mut gen = IdGen::new(0);
    // One ferris at the origin marching left, walls at both edges,
    // 0.08 px/ms for 1000 ms: it overlaps the left wall and the emitted
    // fleet turn leaves it descending, not yet marching right.
    let seed = quiet_seed(4);
    let f = Ferris::new(&s, Point { x: 0, y: 0 }, FerrisColor::Blue, &mut gen);
    let left = Wall::new(WallType::Left, Rect::new_from_x_y_w_h(0, 0, 1, 600), &mut gen);
    let right = Wall::new(WallType::Right, Rect::new_from_x_y_w_h(599, 0, 1, 600), &mut gen);
    let roster = vec![
        GameCharacter::Ferris(f),
        GameCharacter::Wall(left),
        GameCharacter::Wall(right),
    ];
    let player = Ship::new(&s, Point { x: 300, y: 560 }, &mut gen);
    let g = InGame::new(s, screen(), roster, player, Prng::new(seed), gen);
    match g.update(1000, &Vec::new()) {
        GameStateMachine::InGame(next) => {
            match &next.characters[0] {
                GameCharacter::Ferris(turned) => {
                    assert_eq!(turned.position.x, -80);
                    assert_eq!(turned.state, FerrisState::TurnRight(64));
                },
                _ => panic!("the ferris must survive the turn"),
            }
        },
        _ => panic!("the fleet is alive: the game stays in play"),
    }
}

#[test]
fn zero_ferris_forces_out_game() {
    let s = sheet();
    let mut gen = IdGen::new(0);
    // Shields, walls and a missile in flight, but no fleet member: the tick
    // must fall back to the attract phase whatever else happens.
    let shield = create_shield(&s, &Point { x: 100, y: 490 }, &mut gen)[0];
    let left = Wall::new(WallType::Left, Rect::new_from_x_y_w_h(0, 0, 1, 600), &mut gen);
    let missile = invade_rs::missile::Missile::new(&s, Point { x: 300, y: 300 }, &mut gen);
    let roster = vec![
        GameCharacter::ShieldElement(shield),
        GameCharacter::Wall(left),
        GameCharacter::Missile(missile),
    ];
    let player = Ship::new(&s, Point { x: 300, y: 560 }, &mut gen);
    let g = InGame::new(s, screen(), roster, player, Prng::new(9), gen);
    assert!(matches!(g.update(16, &Vec::new()), GameStateMachine::OutGame(_)));
}

#[test]
fn game_over_flag_forces_out_game() {
    let s = sheet();
    let mut gen = IdGen::new(0);
    let seed = quiet_seed(3);
    // A beam overlapping the player destroys the player; the flag set by
    // command application ends the phase on the same tick.
    let f = Ferris::new(&s, Point { x: 300, y: 100 }, FerrisColor::Blue, &mut gen);
    let beam = invade_rs::beam::Beam::new(&s, Point { x: 310, y: 560 }, BeamColor::Blue, &mut gen);
    let roster = vec![GameCharacter::Ferris(f), GameCharacter::Beam(beam)];
    let player = Ship::new(&s, Point { x: 300, y: 560 }, &mut gen);
    let g = InGame::new(s, screen(), roster, player, Prng::new(seed), gen);
    assert!(matches!(g.update(0, &Vec::new()), GameStateMachine::OutGame(_)));
}

#[test]
fn input_events_reach_only_the_player() {
    let s = sheet();
    let mut gen = IdGen::new(0);
    let seed = quiet_seed(2);
    let f = Ferris::new(&s, Point { x: 300, y: 100 }, FerrisColor::Blue, &mut gen);
    let roster = vec![GameCharacter::Ferris(f)];
    let player = Ship::new(&s, Point { x: 300, y: 560 }, &mut gen);
    let g = InGame::new(s, screen(), roster, player, Prng::new(seed), gen);
    let events = vec![Event::KeyDown(Key::ArrowRight)];
    match g.update(1000, &events) {
        GameStateMachine::InGame(next) => {
            assert_eq!(next.player.position.x, 390);
            match &next.characters[0] {
                GameCharacter::Ferris(moved) => assert_eq!(moved.position.x, 220),
                _ => panic!("roster order is kept"),
            }
        },
        _ => panic!("the fleet is alive: the game stays in play"),
    }
}

#[test]
fn fire_key_spawns_a_missile_through_the_tick() {
    let s = sheet();
    let mut gen = IdGen::new(0);
    let seed = quiet_seed(2);
    let f = Ferris::new(&s, Point { x: 300, y: 100 }, FerrisColor::Blue, &mut gen);
    let roster = vec![GameCharacter::Ferris(f)];
    let player = Ship::new(&s, Point { x: 300, y: 560 }, &mut gen);
    let g = InGame::new(s, screen(), roster, player, Prng::new(seed), gen);
    let events = vec![Event::KeyDown(Key::Space)];
    match g.update(0, &events) {
        GameStateMachine::InGame(next) => {
            assert_eq!(next.characters.len(), 2);
            match &next.characters[1] {
                GameCharacter::Missile(m) => {
                    assert_eq!((m.position.x, m.position.y), (328, 560));
                },
                _ => panic!("the fired missile joins the roster"),
            }
            assert!(!next.player.has_bullet);
        },
        _ => panic!("the fleet is alive: the game stays in play"),
    }
}

#[test]
fn empty_roster_ends_the_game_at_once() {
    let s = sheet();
    let mut gen = IdGen::new(0);
    let player = Ship::new(&s, Point { x: 300, y: 560 }, &mut gen);
    let g = InGame::new(s, screen(), Vec::new(), player, Prng::new(17), gen);
    assert!(matches!(g.update(16, &Vec::new()), GameStateMachine::OutGame(_)));
}

#[test]
fn entities_sharing_an_id_skip_their_pair() {
    let s = sheet();
    let mut gen = IdGen::new(0);
    // The collision scan excludes pairs by identifier equality, so two
    // overlapping entities carrying the same identifier never collide.
    let seed = quiet_seed(3);
    let mut f = Ferris::new(&s, Point { x: 300, y: 100 }, FerrisColor::Blue, &mut gen);
    let mut m = invade_rs::missile::Missile::new(&s, Point { x: 310, y: 110 }, &mut gen);
    f.id = Id(77);
    m.id = Id(77);
    let roster = vec![GameCharacter::Ferris(f), GameCharacter::Missile(m)];
    let player = Ship::new(&s, Point { x: 100, y: 560 }, &mut gen);
    let g = InGame::new(s, screen(), roster, player, Prng::new(seed), gen);
    match g.update(0, &Vec::new()) {
        GameStateMachine::InGame(next) => {
            assert_eq!(next.characters.len(), 2);
            assert!(matches!(next.characters[0], GameCharacter::Ferris(_)));
            assert!(matches!(next.characters[1], GameCharacter::Missile(_)));
        },
        _ => panic!("nothing was destroyed, so the fleet is still alive"),
    }
}

#[test]
fn attract_phase_hands_its_tableau_to_the_active_phase() {
    let og = OutGame::new(sheet(), screen(), Prng::new(21), IdGen::new(0));
    let roster_ids: Vec<Id> = og.characters.iter().map(|c| c.id()).collect();
    let player_id = og.player.id;
    match og.update(16, &Vec::new()) {
        GameStateMachine::InGame(g) => {
            assert_eq!(ids_of(&g.characters), roster_ids);
            assert_eq!(g.player.id, player_id);
            assert!(!g.is_game_over);
        },
        _ => panic!("the attract phase advances unconditionally"),
    }
}

#[test]
fn minted_identifiers_are_consecutive_and_distinct() {
    let mut gen = IdGen::new(7);
    let s = sheet();
    let a = Ship::new(&s, Point { x: 0, y: 0 }, &mut gen);
    let b = Ship::new(&s, Point { x: 0, y: 0 }, &mut gen);
    assert_eq!(a.id, Id(7));
    assert_eq!(b.id, Id(8));
    assert_ne!(a.id, b.id);
    assert_eq!(gen.next, 9);
}

#[test]
fn tableau_identifiers_are_pairwise_distinct() {
    let og = OutGame::new(sheet(), screen(), Prng::new(3), IdGen::new(100));
    let mut ids: Vec<Id> = og.characters.iter().map(|c| c.id()).collect();
    ids.push(og.player.id);
    assert_eq!(ids.len(), 105);
    for i in 0..ids.len() {
        assert_eq!(ids[i], Id(100 + i as u128));
        for j in (i + 1)..ids.len() {
            assert_ne!(ids[i], ids[j]);
        }
    }
    assert_eq!(og.id_gen.next, 205);
}

#[test]
fn tick_spawned_missile_carries_a_fresh_id() {
    let s = sheet();
    let mut gen = IdGen::new(0);
    let seed = quiet_seed(2);
    let f = Ferris::new(&s, Point { x: 300, y: 100 }, FerrisColor::Blue, &mut gen);
    let roster = vec![GameCharacter::Ferris(f)];
    let player = Ship::new(&s, Point { x: 300, y: 560 }, &mut gen);
    let g = InGame::new(s, screen(), roster, player, Prng::new(seed), gen);
    let events = vec![Event::KeyDown(Key::Space)];
    match g.update(0, &events) {
        GameStateMachine::InGame(next) => {
            let mut ids: Vec<Id> = next.characters.iter().map(|c| c.id()).collect();
            ids.push(next.player.id);
            for i in 0..ids.len() {
                for j in (i + 1)..ids.len() {
                    assert_ne!(ids[i], ids[j]);
                }
            }
            // The missile's identifier was minted past everything existing.
            assert_eq!(next.characters[1].id(), Id(2));
            assert_eq!(next.id_gen.next, 3);
        },
        _ => panic!("the fleet is alive: the game stays in play"),
    }
}

#[test]
fn out_game_builds_the_full_tableau() {
    let og = OutGame::new(sheet(), screen(), Prng::new(3), IdGen::new(0));
    assert_eq!(og.characters.len(), 104);
    let ferris_count = og
        .characters
        .iter()
        .filter(|c| matches!(c, GameCharacter::Ferris(_)))
        .count();
    assert_eq!(ferris_count, 54);
    let shield_count = og
        .characters
        .iter()
        .filter(|c| matches!(c, GameCharacter::ShieldElement(_)))
        .count();
    assert_eq!(shield_count, 48);
    match &og.characters[0] {
        GameCharacter::Ferris(f) => {
            // Centered fleet: (600 - 9 * 106) / 2 + 5.
            assert_eq!((f.position.x, f.position.y), (-172, 100));
            assert!(matches!(f.color, FerrisColor::Magenta));
        },
        _ => panic!("the tableau starts with the fleet"),
    }
    match &og.characters[102] {
        GameCharacter::Wall(w) => {
            assert_eq!(w.wall_type(), WallType::Left);
            let bb = w.bounding_box();
            assert_eq!((bb.x(), bb.y(), bb.width(), bb.height()), (0, 0, 1, 600));
        },
        _ => panic!("the left wall stands before the right one"),
    }
    match &og.characters[103] {
        GameCharacter::Wall(w) => assert_eq!(w.wall_type(), WallType::Right),
        _ => panic!("the tableau ends with the right wall"),
    }
    // Player centered: (600 - 64) / 2.
    assert_eq!((og.player.position.x, og.player.position.y), (268, 560));
    assert!(og.player.has_bullet);
}

#[test]
fn phase_machine_runs_created_to_out_game_to_in_game() {
    let mut runner = StateMachineRunner::new();
    assert_eq!(runner.state.kind(), PhaseKind::Created);
    // The initial phase stays put on its own.
    assert!(runner.update(16, &Vec::new()).is_ok());
    assert_eq!(runner.state.kind(), PhaseKind::Created);
    // An explicit transition starts the attract phase, as the host does
    // once assets are loaded.
    let og = OutGame::new(sheet(), screen(), Prng::new(11), IdGen::new(0));
    assert!(runner.transition(GameStateMachine::OutGame(og)).is_ok());
    assert_eq!(runner.state.kind(), PhaseKind::OutGame);
    // The attract phase advances unconditionally into play.
    assert!(runner.update(16, &Vec::new()).is_ok());
    assert_eq!(runner.state.kind(), PhaseKind::InGame);
    assert!(runner.update(16, &Vec::new()).is_ok());
    assert_ne!(runner.state.kind(), PhaseKind::Created);
}

#[test]
fn draw_pass_orders_roster_then_player() {
    let s = sheet();
    let mut gen = IdGen::new(0);
    let f = Ferris::new(&s, Point { x: 10, y: 10 }, FerrisColor::Blue, &mut gen);
    let wall = Wall::new(WallType::Left, Rect::new_from_x_y_w_h(0, 0, 1, 600), &mut gen);
    let roster = vec![GameCharacter::Ferris(f), GameCharacter::Wall(wall)];
    let player = Ship::new(&s, Point { x: 300, y: 560 }, &mut gen);
    let g = InGame::new(s, screen(), roster, player, Prng::new(5), gen);
    let draws = g.draw();
    // The wall contributes nothing; the player comes last.
    assert_eq!(draws.len(), 2);
    assert_eq!(draws[0].layer, invade_rs::layers::ENEMY);
    assert_eq!(draws[1].layer, invade_rs::layers::SHIP);
    assert_eq!(draws[1].position, Point { x: 300, y: 560 });
}

#[test]
fn turbo_fish_spawn_command_enters_at_the_left_edge() {
    let s = sheet();
    let mut gen = IdGen::new(0);
    let mut g = InGame::new(
        s,
        screen(),
        Vec::new(),
        Ship::new(&sheet(), Point { x: 0, y: 0 }, &mut gen),
        Prng::new(5),
        gen,
    );
    match g.create_spawn_turbo_fish_command() {
        GameCommand::SpawnCharacter(GameCharacter::TurboFish(t)) => {
            assert_eq!((t.position.x, t.position.y), (-80, 50));
        },
        _ => panic!("expected a bonus-enemy spawn"),
    }
}
