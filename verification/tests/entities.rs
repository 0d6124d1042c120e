//! Entity construction, bounding boxes, per-kind motion, the collision
//! table, and the player's fire-and-reload behavior.

use invade_rs::beam::{Beam, BeamColor};
use invade_rs::character::{GameCharacter, GameCommand, IdGen};
use invade_rs::ferris::{Ferris, FerrisColor, FerrisState};
use invade_rs::geometry::{Point, Rect};
use invade_rs::layers;
use invade_rs::missile::Missile;
use invade_rs::shield::create_shield;
use invade_rs::ship::Ship;
use invade_rs::sprite::{Cell, CellName, SheetEntry, SpriteSheet};
use invade_rs::turbo_fish::TurboFish;
use invade_rs::wall::{Wall, WallType};

fn sheet() -> SpriteSheet {
    let mut cells: Vec<SheetEntry> = Vec::new();
    let mut add = |name: CellName, w: i16, h: i16| {
        cells.push(SheetEntry { name, cell: Cell { frame: Rect::new_from_x_y_w_h(0, 0, w, h) } });
    };
    for color in [FerrisColor::Blue, FerrisColor::Green, FerrisColor::Magenta] {
        for i in 0..5u8 {
            add(CellName::Ferris(color, i), 96, 64);
        }
    }
    for color in [BeamColor::Blue, BeamColor::Green, BeamColor::Magenta] {
        add(CellName::Beam(color), 8, 16);
    }
    add(CellName::Missile, 8, 16);
    add(CellName::Ship, 64, 32);
    add(CellName::Shield(0), 32, 16);
    add(CellName::Shield(4), 32, 16);
    add(CellName::Shield(5), 32, 16);
    add(CellName::TurboFish(0), 80, 40);
    add(CellName::TurboFish(1), 80, 40);
    drop(add);
    SpriteSheet::new(cells)
}

#[test]
fn ferris_bounding_box_reflects_construction() {
    let s = sheet();
    let mut gen = IdGen::new(0);
    let f = Ferris::new(&s, Point { x: 10, y: 20 }, FerrisColor::Blue, &mut gen);
    let bb = f.bounding_box();
    assert_eq!(bb.x(), 10);
    assert_eq!(bb.y(), 20);
    assert_eq!(bb.width(), 96);
    assert_eq!(bb.height(), 64);
    assert_eq!(f.state, FerrisState::MovingLeft);
}

#[test]
fn beam_bounding_box_reflects_construction() {
    let s = sheet();
    let mut gen = IdGen::new(0);
    let b = Beam::new(&s, Point { x: 5, y: 6 }, BeamColor::Green, &mut gen);
    let bb = b.bounding_box();
    assert_eq!((bb.x(), bb.y(), bb.width(), bb.height()), (5, 6, 8, 16));
}

#[test]
fn missile_bounding_box_reflects_construction() {
    let s = sheet();
    let mut gen = IdGen::new(0);
    let m = Missile::new(&s, Point { x: 7, y: 8 }, &mut gen);
    let bb = m.bounding_box();
    assert_eq!((bb.x(), bb.y(), bb.width(), bb.height()), (7, 8, 8, 16));
}

#[test]
fn ship_bounding_box_reflects_construction() {
    let s = sheet();
    let mut gen = IdGen::new(0);
    let p = Ship::new(&s, Point { x: 100, y: 560 }, &mut gen);
    let bb = p.bounding_box();
    assert_eq!((bb.x(), bb.y(), bb.width(), bb.height()), (100, 560, 64, 32));
}

#[test]
fn turbo_fish_bounding_box_reflects_construction() {
    let s = sheet();
    let mut gen = IdGen::new(0);
    let t = TurboFish::new(&s, Point { x: -80, y: 50 }, &mut gen);
    let bb = t.bounding_box();
    assert_eq!((bb.x(), bb.y(), bb.width(), bb.height()), (-80, 50, 80, 40));
}

#[test]
fn shield_elements_tile_their_grid() {
    let s = sheet();
    let mut gen = IdGen::new(0);
    let elements = create_shield(&s, &Point { x: 100, y: 490 }, &mut gen);
    assert_eq!(elements.len(), 12);
    let bb = elements[0].bounding_box();
    assert_eq!((bb.x(), bb.y(), bb.width(), bb.height()), (100, 490, 32, 16));
    // Row-major: element 5 is row 1, column 1.
    let bb5 = elements[5].bounding_box();
    assert_eq!((bb5.x(), bb5.y()), (132, 506));
}

#[test]
fn wall_bounding_box_reflects_construction() {
    let mut gen = IdGen::new(0);
    let w = Wall::new(WallType::Right, Rect::new_from_x_y_w_h(599, 0, 1, 600), &mut gen);
    let bb = w.bounding_box();
    assert_eq!((bb.x(), bb.y(), bb.width(), bb.height()), (599, 0, 1, 600));
    assert_eq!(w.wall_type(), WallType::Right);
}

#[test]
fn beam_descends_and_missile_rises() {
    let s = sheet();
    let mut gen = IdGen::new(0);
    let mut b = Beam::new(&s, Point { x: 0, y: 100 }, BeamColor::Blue, &mut gen);
    assert!(b.update(1000).is_none());
    assert_eq!(b.position.y, 180);
    let mut m = Missile::new(&s, Point { x: 0, y: 100 }, &mut gen);
    assert!(m.update(1000).is_none());
    assert_eq!(m.position.y, -20);
}

#[test]
fn turbo_fish_swims_right() {
    let s = sheet();
    let mut gen = IdGen::new(0);
    let mut t = TurboFish::new(&s, Point { x: -80, y: 50 }, &mut gen);
    assert!(t.update(1000).is_none());
    assert_eq!(t.position.x, 20);
    assert_eq!(t.position.y, 50);
}

#[test]
fn idle_ferris_does_not_move() {
    let s = sheet();
    let mut gen = IdGen::new(0);
    let mut f = Ferris::new(&s, Point { x: 10, y: 20 }, FerrisColor::Blue, &mut gen);
    f.stop();
    let cmd = f.update(1000, u32::MAX, &mut gen);
    assert!(cmd.is_none());
    assert_eq!((f.position.x, f.position.y), (10, 20));
}

#[test]
fn turning_ferris_descends_to_its_target_then_marches() {
    let s = sheet();
    let mut gen = IdGen::new(0);
    let mut f = Ferris::new(&s, Point { x: 10, y: 0 }, FerrisColor::Blue, &mut gen);
    f.turn();
    assert_eq!(f.state, FerrisState::TurnRight(64));
    // Descends at 0.08 px/ms; 500 ms moves 40 pixels, still short of 64.
    assert!(f.update(500, u32::MAX, &mut gen).is_none());
    assert_eq!(f.position.y, 40);
    assert_eq!(f.state, FerrisState::TurnRight(64));
    // Another 500 ms would reach 80; it snaps to 64 and marches right.
    assert!(f.update(500, u32::MAX, &mut gen).is_none());
    assert_eq!(f.position.y, 64);
    assert_eq!(f.state, FerrisState::MovingRight);
    assert_eq!(f.position.x, 10);
}

#[test]
fn turning_ferris_resumes_on_exact_landing() {
    let s = sheet();
    let mut gen = IdGen::new(0);
    // 0.08 px/ms for 800 ms is exactly one frame height of 64: the descent
    // reaches its target on the tick and marching resumes at once.
    let mut f = Ferris::new(&s, Point { x: 10, y: 0 }, FerrisColor::Blue, &mut gen);
    f.turn();
    assert_eq!(f.state, FerrisState::TurnRight(64));
    assert!(f.update(800, u32::MAX, &mut gen).is_none());
    assert_eq!(f.position.y, 64);
    assert_eq!(f.state, FerrisState::MovingRight);
}

#[test]
fn beam_fire_threshold_is_one_in_ten_thousand() {
    let s = sheet();
    let mut gen = IdGen::new(0);
    // The random draw is uniform on the 31-bit space; the firing chance of
    // one in ten thousand puts the boundary exactly at 214748.
    let mut f = Ferris::new(&s, Point { x: 100, y: 100 }, FerrisColor::Blue, &mut gen);
    assert!(f.update(0, 214748, &mut gen).is_none());
    let mut g = Ferris::new(&s, Point { x: 100, y: 100 }, FerrisColor::Blue, &mut gen);
    assert!(g.update(0, 214747, &mut gen).is_some());
}

#[test]
fn ferris_fires_beam_under_threshold_draw() {
    let s = sheet();
    let mut gen = IdGen::new(0);
    let mut f = Ferris::new(&s, Point { x: 100, y: 100 }, FerrisColor::Magenta, &mut gen);
    let cmd = f.update(0, 0, &mut gen);
    match cmd {
        Some(GameCommand::SpawnCharacter(GameCharacter::Beam(b))) => {
            // Centered under the frame: 100 + 96/2 - 8/2, just below it.
            assert_eq!(b.position.x, 144);
            assert_eq!(b.position.y, 164);
        },
        _ => panic!("expected a beam spawn"),
    }
}

#[test]
fn missile_and_ferris_destroy_themselves_on_overlap() {
    let s = sheet();
    let mut gen = IdGen::new(0);
    let f = Ferris::new(&s, Point { x: 0, y: 0 }, FerrisColor::Blue, &mut gen);
    let m = Missile::new(&s, Point { x: 10, y: 10 }, &mut gen);
    let fc = GameCharacter::Ferris(f);
    let mc = GameCharacter::Missile(m);
    assert!(fc.bounding_box().intersects(&mc.bounding_box()));
    match mc.on_collide(&fc) {
        Some(GameCommand::DestroyCharacter(id)) => assert_eq!(id, mc.id()),
        _ => panic!("missile must destroy itself"),
    }
    match fc.on_collide(&mc) {
        Some(GameCommand::DestroyCharacter(id)) => assert_eq!(id, fc.id()),
        _ => panic!("ferris must destroy itself"),
    }
}

#[test]
fn collision_table_matches_the_rules() {
    let s = sheet();
    let mut gen = IdGen::new(0);
    let ferris = GameCharacter::Ferris(Ferris::new(&s, Point { x: 0, y: 0 }, FerrisColor::Blue, &mut gen));
    let ship = GameCharacter::Ship(Ship::new(&s, Point { x: 0, y: 0 }, &mut gen));
    let beam = GameCharacter::Beam(Beam::new(&s, Point { x: 0, y: 0 }, BeamColor::Blue, &mut gen));
    let missile = GameCharacter::Missile(Missile::new(&s, Point { x: 0, y: 0 }, &mut gen));
    let fish = GameCharacter::TurboFish(TurboFish::new(&s, Point { x: 0, y: 0 }, &mut gen));
    let shield = GameCharacter::ShieldElement(create_shield(&s, &Point { x: 0, y: 0 }, &mut gen)[0]);
    let wall = GameCharacter::Wall(Wall::new(WallType::Left, Rect::new_from_x_y_w_h(0, 0, 1, 600), &mut gen));

    assert!(matches!(ship.on_collide(&beam), Some(GameCommand::DestroyPlayer)));
    assert!(matches!(ship.on_collide(&ferris), Some(GameCommand::DestroyPlayer)));
    assert!(ship.on_collide(&missile).is_none());
    assert!(matches!(fish.on_collide(&missile), Some(GameCommand::DestroyCharacter(_))));
    assert!(fish.on_collide(&beam).is_none());
    assert!(matches!(shield.on_collide(&beam), Some(GameCommand::DestroyCharacter(_))));
    assert!(matches!(shield.on_collide(&ferris), Some(GameCommand::DestroyCharacter(_))));
    // A missile burns out against a shield segment, but only beams and
    // fleet members destroy the segment itself.
    assert!(shield.on_collide(&missile).is_none());
    assert!(matches!(beam.on_collide(&shield), Some(GameCommand::DestroyCharacter(_))));
    assert!(matches!(beam.on_collide(&ship), Some(GameCommand::DestroyCharacter(_))));
    assert!(beam.on_collide(&ferris).is_none());
    assert!(wall.on_collide(&ferris).is_none());
}

#[test]
fn ferris_turns_only_toward_its_wall() {
    let s = sheet();
    let mut gen = IdGen::new(0);
    let left = GameCharacter::Wall(Wall::new(WallType::Left, Rect::new_from_x_y_w_h(0, 0, 1, 600), &mut gen));
    let right = GameCharacter::Wall(
        Wall::new(WallType::Right, Rect::new_from_x_y_w_h(599, 0, 1, 600), &mut gen),
    );
    let mut f = Ferris::new(&s, Point { x: 0, y: 0 }, FerrisColor::Blue, &mut gen);
    assert!(matches!(f.on_collide(&left), Some(GameCommand::TurnFerris)));
    assert!(f.on_collide(&right).is_none());
    f.move_right();
    assert!(f.on_collide(&left).is_none());
    assert!(matches!(f.on_collide(&right), Some(GameCommand::TurnFerris)));
    f.stop();
    assert!(f.on_collide(&left).is_none());
    assert!(f.on_collide(&right).is_none());
}

#[test]
fn ship_fires_once_and_reloads_on_release() {
    let s = sheet();
    let mut gen = IdGen::new(0);
    let mut p = Ship::new(&s, Point { x: 100, y: 560 }, &mut gen);
    p.shot();
    let cmd = p.update(0, &mut gen);
    match cmd {
        Some(GameCommand::SpawnCharacter(GameCharacter::Missile(m))) => {
            // Centered above the ship: 100 + 64/2 - 8/2, at the ship's top.
            assert_eq!(m.position.x, 128);
            assert_eq!(m.position.y, 560);
        },
        _ => panic!("expected a missile spawn"),
    }
    // The single shot is spent: firing again without a release does nothing.
    p.shot();
    assert!(p.update(0, &mut gen).is_none());
    // Releasing the fire control reloads.
    p.reload();
    p.shot();
    assert!(p.update(0, &mut gen).is_some());
}

#[test]
fn ship_moves_by_velocity() {
    let s = sheet();
    let mut gen = IdGen::new(0);
    let mut p = Ship::new(&s, Point { x: 100, y: 560 }, &mut gen);
    p.move_right();
    assert!(p.update(1000, &mut gen).is_none());
    assert_eq!(p.position.x, 190);
    p.move_left();
    assert!(p.update(500, &mut gen).is_none());
    assert_eq!(p.position.x, 145);
    p.stop();
    assert!(p.update(1000, &mut gen).is_none());
    assert_eq!(p.position.x, 145);
}

#[test]
fn draw_commands_carry_their_layers() {
    let s = sheet();
    let mut gen = IdGen::new(0);
    let beam = Beam::new(&s, Point { x: 0, y: 0 }, BeamColor::Blue, &mut gen);
    assert_eq!(beam.draw().unwrap().layer, layers::BEAM);
    let missile = Missile::new(&s, Point { x: 0, y: 0 }, &mut gen);
    assert_eq!(missile.draw().unwrap().layer, layers::MISSILE);
    let ship = Ship::new(&s, Point { x: 0, y: 0 }, &mut gen);
    assert_eq!(ship.draw().unwrap().layer, layers::SHIP);
    let ferris = Ferris::new(&s, Point { x: 0, y: 0 }, FerrisColor::Blue, &mut gen);
    assert_eq!(ferris.draw().unwrap().layer, layers::ENEMY);
    let fish = TurboFish::new(&s, Point { x: 0, y: 0 }, &mut gen);
    assert_eq!(fish.draw().unwrap().layer, layers::ENEMY);
    let shield = create_shield(&s, &Point { x: 0, y: 0 }, &mut gen)[0];
    assert_eq!(shield.draw().unwrap().layer, layers::SHIELD);
    let wall = Wall::new(WallType::Left, Rect::new_from_x_y_w_h(0, 0, 1, 600), &mut gen);
    assert!(wall.draw().is_none());
    assert!(layers::BACKGROUND < layers::SHIELD);
    assert!(layers::SHIELD < layers::BEAM);
    assert!(layers::BEAM < layers::MISSILE);
    assert!(layers::MISSILE < layers::SHIP);
    assert!(layers::SHIP < layers::ENEMY);
}

#[test]
fn exit_screen_destroys_all_but_walls() {
    let s = sheet();
    let mut gen = IdGen::new(0);
    let mut beam = Beam::new(&s, Point { x: 0, y: 700 }, BeamColor::Blue, &mut gen);
    let id = beam.id();
    match beam.on_exit_screen() {
        Some(GameCommand::DestroyCharacter(d)) => assert_eq!(d, id),
        _ => panic!("beam must destroy itself off screen"),
    }
    let mut wall = Wall::new(WallType::Left, Rect::new_from_x_y_w_h(0, 0, 1, 600), &mut gen);
    assert!(wall.on_exit_screen().is_none());
}
