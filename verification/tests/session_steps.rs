use blademaster::{
    CellKind, Color, Command, Direction, GameCell, Player, Registry, Session, StepOutcome,
    Viewport,
};

fn session_with(cells: &[(i32, i32, CellKind)]) -> Session {
    let mut registry = Registry::new();
    for (x, y, kind) in cells {
        registry.insert(GameCell::new(*x, *y, *kind)).unwrap();
    }
    let viewport = Viewport::new(45, 28).unwrap();
    Session::new(viewport, Player::new(10, 10), registry)
}

/// Identity and position of every cell, by identity.
fn positions(session: &Session) -> Vec<(u64, i32, i32)> {
    let mut all: Vec<(u64, i32, i32)> =
        session.registry.entries().iter().map(|e| (e.id, e.cell.x, e.cell.y)).collect();
    all.sort();
    all
}

/// The identity of the first entry, in registry order, of one of the kinds.
fn first_of(session: &Session, kinds: &[CellKind]) -> u64 {
    session.registry.entries().iter().find(|e| kinds.contains(&e.cell.kind)).unwrap().id
}

fn texts(session: &Session) -> Vec<(String, Color)> {
    session.events.events().iter().map(|e| (e.text.clone(), e.color)).collect()
}

#[test]
fn wall_above_blocks_up() {
    let mut s = session_with(&[(10, 9, CellKind::Wall)]);
    assert!(s.accepts(Command::Up));
    let outcome = s.step(Command::Up);
    assert_eq!(outcome, StepOutcome::Continue);
    assert_eq!(
        texts(&s),
        vec![(String::from("You ran into the Wall.          "), Color::Blue)]
    );
    assert_eq!(positions(&s), vec![(0, 10, 9)]);
    assert_eq!(s.player, Player::new(10, 10));
    assert_eq!(s.inventory.len(), 0);
}

#[test]
fn hard_armor_under_player_is_collected() {
    let mut s = session_with(&[(10, 10, CellKind::HardArmor)]);
    s.step(Command::Other);
    assert_eq!(s.inventory.list(), vec![String::from("Hard Armor")]);
    assert_eq!(s.registry.len(), 0);
    assert_eq!(
        texts(&s),
        vec![(String::from("You now have the Hard Armor.          "), Color::Green)]
    );
    assert_eq!(s.player, Player::new(10, 10));
}

#[test]
fn hard_armor_is_collected_after_a_free_move() {
    let mut s = session_with(&[(10, 9, CellKind::HardArmor), (3, 4, CellKind::Wall)]);
    s.step(Command::Up);
    assert_eq!(s.inventory.list(), vec![String::from("Hard Armor")]);
    assert_eq!(s.inventory.items()[0], GameCell::new(10, 10, CellKind::HardArmor));
    assert_eq!(positions(&s), vec![(1, 3, 5)]);
    assert_eq!(texts(&s).len(), 1);
    assert_eq!(texts(&s)[0].1, Color::Green);
}

#[test]
fn empty_registry_moves_freely() {
    for command in [Command::Up, Command::Down, Command::Left, Command::Right] {
        let mut s = session_with(&[]);
        assert!(s.accepts(command));
        assert_eq!(s.step(command), StepOutcome::Continue);
        assert_eq!(s.registry.len(), 0);
        assert_eq!(s.events.len(), 0);
        assert_eq!(s.inventory.len(), 0);
        assert_eq!(s.player, Player::new(10, 10));
    }
}

#[test]
fn free_moves_translate_every_cell() {
    let cells = [(0, 0, CellKind::Wall), (-3, 7, CellKind::EdgedWeapon), (20, 20, CellKind::OpenedDoor)];
    let mut s = session_with(&cells);
    s.step(Command::Up);
    assert_eq!(positions(&s), vec![(0, 0, 1), (1, -3, 8), (2, 20, 21)]);
    let mut s = session_with(&cells);
    s.step(Command::Down);
    assert_eq!(positions(&s), vec![(0, 0, -1), (1, -3, 6), (2, 20, 19)]);
    let mut s = session_with(&cells);
    s.step(Command::Left);
    assert_eq!(positions(&s), vec![(0, 1, 0), (1, -2, 7), (2, 21, 20)]);
    let mut s = session_with(&cells);
    s.step(Command::Right);
    assert_eq!(positions(&s), vec![(0, -1, 0), (1, -4, 7), (2, 19, 20)]);
    assert_eq!(s.events.len(), 0);
    assert_eq!(s.player, Player::new(10, 10));
}

#[test]
fn each_direction_probes_its_own_neighbor() {
    let probes = [
        (Direction::Up, (10, 9)),
        (Direction::Down, (10, 11)),
        (Direction::Left, (11, 10)),
        (Direction::Right, (9, 10)),
    ];
    for (direction, (x, y)) in probes {
        let s = session_with(&[(1, 1, CellKind::Wall), (x, y, CellKind::ClosedDoor)]);
        let at = s.registry.entries().iter().position(|e| e.cell.kind == CellKind::ClosedDoor);
        assert_eq!(s.blocker(direction), at);
        assert!(at.is_some());
        for (other, _) in probes {
            if other != direction {
                assert_eq!(s.blocker(other), None);
            }
        }
    }
}

#[test]
fn blocked_move_changes_only_the_log() {
    let mut s = session_with(&[(5, 5, CellKind::SoftArmor), (11, 10, CellKind::ClosedDoor)]);
    let moved = s.resolve_move(Direction::Left);
    assert!(!moved);
    assert_eq!(positions(&s), vec![(0, 5, 5), (1, 11, 10)]);
    assert_eq!(
        texts(&s),
        vec![(String::from("You ran into the Closed Door.          "), Color::Blue)]
    );
    assert!(texts(&s)[0].0.contains("Closed Door"));
}

#[test]
fn first_blocking_cell_is_named() {
    let mut s = session_with(&[(10, 11, CellKind::ClosedDoor), (10, 11, CellKind::Wall)]);
    let first = s.registry.entries()[0].cell;
    s.resolve_move(Direction::Down);
    assert_eq!(texts(&s)[0].0, format!("You ran into the {}.          ", first.name()));
    assert_eq!(s.events.len(), 1);
}

#[test]
fn resolve_move_reports_a_free_move() {
    let mut s = session_with(&[(10, 9, CellKind::OpenedDoor), (10, 8, CellKind::RangedWeapon)]);
    assert!(s.resolve_move(Direction::Up));
    assert_eq!(positions(&s), vec![(0, 10, 10), (1, 10, 9)]);
    assert_eq!(s.events.len(), 0);
    assert_eq!(s.inventory.len(), 0);
}

#[test]
fn only_the_first_candidate_is_collected() {
    let mut s = session_with(&[
        (10, 10, CellKind::Wall),
        (10, 10, CellKind::BluntWeapon),
        (10, 10, CellKind::PointedWeapon),
    ]);
    let weapons = [CellKind::BluntWeapon, CellKind::PointedWeapon];
    let first = first_of(&s, &weapons);
    let second = 3 - first;
    assert_eq!(s.take_items(), Some(first));
    assert_eq!(s.inventory.len(), 1);
    assert_eq!(positions(&s), vec![(0, 10, 10), (second, 10, 10)]);
    assert_eq!(s.events.len(), 1);
    assert_eq!(s.take_items(), Some(second));
    let mut names = s.inventory.list();
    if first == 2 {
        names.reverse();
    }
    assert_eq!(names, vec![String::from("Blunt Weapon"), String::from("Pointed Weapon")]);
    assert_eq!(s.take_items(), None);
    assert_eq!(s.events.len(), 2);
    assert_eq!(positions(&s), vec![(0, 10, 10)]);
}

#[test]
fn second_scan_finds_nothing() {
    let mut s = session_with(&[(10, 10, CellKind::SoftArmor), (10, 11, CellKind::RangedWeapon)]);
    assert_eq!(s.take_items(), Some(0));
    assert_eq!(s.take_items(), None);
    assert_eq!(s.inventory.list(), vec![String::from("Soft Armor")]);
    assert_eq!(s.events.len(), 1);
    assert_eq!(positions(&s), vec![(1, 10, 11)]);
    assert!(!s.registry.entries().iter().any(|e| e.id == 0));
}

#[test]
fn quit_changes_nothing() {
    let mut s = session_with(&[(10, 10, CellKind::HardArmor), (10, 9, CellKind::Wall)]);
    assert!(s.accepts(Command::Quit));
    assert_eq!(s.step(Command::Quit), StepOutcome::Quit);
    assert_eq!(positions(&s), vec![(0, 10, 10), (1, 10, 9)]);
    assert_eq!(s.inventory.len(), 0);
    assert_eq!(s.events.len(), 0);
    assert_eq!(s.player, Player::new(10, 10));
}

#[test]
fn other_input_only_scans_for_pickup() {
    let mut s = session_with(&[(10, 9, CellKind::Wall), (4, 4, CellKind::EdgedWeapon)]);
    assert_eq!(s.step(Command::Other), StepOutcome::Continue);
    assert_eq!(positions(&s), vec![(0, 10, 9), (1, 4, 4)]);
    assert_eq!(s.events.len(), 0);
}

#[test]
fn blocked_move_and_pickup_post_one_event_each() {
    let mut s = session_with(&[(10, 9, CellKind::Wall), (10, 10, CellKind::EdgedWeapon)]);
    s.step(Command::Up);
    let log = texts(&s);
    assert_eq!(log.len(), 2);
    assert_eq!(log[0], (String::from("You ran into the Wall.          "), Color::Blue));
    assert_eq!(log[1], (String::from("You now have the Edged Weapon.          "), Color::Green));
    assert_eq!(s.inventory.len(), 1);
    assert_eq!(positions(&s), vec![(0, 10, 9)]);
}

#[test]
fn hidden_cell_is_not_collected() {
    let mut registry = Registry::new();
    registry.insert(GameCell::new(30, 5, CellKind::HardArmor)).unwrap();
    let viewport = Viewport::new(25, 8).unwrap();
    let mut s = Session::new(viewport, Player::new(30, 5), registry);
    assert_eq!(s.take_items(), None);
    assert_eq!(s.registry.len(), 1);
    assert_eq!(s.inventory.len(), 0);
    assert_eq!(s.events.len(), 0);
}

#[test]
fn cell_on_the_border_of_the_terminal_is_collected() {
    let mut registry = Registry::new();
    registry.insert(GameCell::new(25, 8, CellKind::HardArmor)).unwrap();
    let viewport = Viewport::new(25, 8).unwrap();
    let mut s = Session::new(viewport, Player::new(25, 8), registry);
    assert_eq!(s.take_items(), Some(0));
    assert_eq!(s.events.events()[0].text, "You now have the Hard Armor. ");
    assert_eq!(s.events.events()[0].color, Color::Green);
}

#[test]
fn walls_and_doors_are_never_collected() {
    let mut s = session_with(&[
        (10, 10, CellKind::Wall),
        (10, 10, CellKind::ClosedDoor),
        (10, 10, CellKind::OpenedDoor),
    ]);
    assert_eq!(s.take_items(), None);
    assert_eq!(s.registry.len(), 3);
}

#[test]
fn opened_door_and_items_do_not_block() {
    let s = session_with(&[(10, 9, CellKind::OpenedDoor), (10, 9, CellKind::HardArmor)]);
    assert_eq!(s.blocker(Direction::Up), None);
    assert!(s.can_resolve(Direction::Up));
}

#[test]
fn move_is_refused_at_the_edge_of_the_coordinates() {
    let s = session_with(&[(i32::MAX, 0, CellKind::Wall)]);
    assert!(!s.accepts(Command::Left));
    assert!(!s.can_resolve(Direction::Left));
    assert!(s.accepts(Command::Right));
    assert!(s.accepts(Command::Up));
    assert!(s.accepts(Command::Other));
    let s = session_with(&[(0, i32::MIN, CellKind::Wall)]);
    assert!(!s.accepts(Command::Down));
    assert!(s.accepts(Command::Up));
    let s = session_with(&[(i32::MAX, 0, CellKind::SoftArmor), (11, 10, CellKind::Wall)]);
    assert!(s.accepts(Command::Left));
}

#[test]
fn commands_name_their_direction() {
    assert_eq!(Command::Up.direction(), Some(Direction::Up));
    assert_eq!(Command::Down.direction(), Some(Direction::Down));
    assert_eq!(Command::Left.direction(), Some(Direction::Left));
    assert_eq!(Command::Right.direction(), Some(Direction::Right));
    assert_eq!(Command::Quit.direction(), None);
    assert_eq!(Command::Other.direction(), None);
}
