use turmite::{Color, Decision, DecisionTable, Fill, Orientation, Rotate, Turmite};

fn table(name: &str) -> DecisionTable {
    let all = DecisionTable::catalog();
    let mut i = 0;
    while all[i].name != name {
        i += 1;
    }
    all[i]
}

fn fill(color: Color, x: usize, y: usize, size: usize) -> Fill {
    Fill { color, x, y, size }
}

fn assert_dump_matches_cells(t: &Turmite) {
    let dump = t.debug_dump();
    let chars: Vec<char> = dump.chars().collect();
    assert_eq!(chars.len(), t.width() * t.height());
    for y in 0..t.height() {
        for x in 0..t.width() {
            let c = chars[y * t.width() + x];
            assert!(c == '0' || c == '1');
            assert_eq!(c == '1', t.cell(x, y));
        }
    }
}

#[test]
fn colors_have_fixed_rgb() {
    assert_eq!(Color::Empty.rgb(), "rgb(255, 255, 255)");
    assert_eq!(Color::Filled.rgb(), "rgb(0, 0, 0)");
    assert_eq!(Color::Agent.rgb(), "rgb(200, 0, 0)");
}

#[test]
fn start_is_centered_heading_right() {
    let t = Turmite::with_choices(20, 20, 2, table("langton"), true, true);
    assert_eq!(t.width(), 10);
    assert_eq!(t.height(), 10);
    assert_eq!(t.position(), (5, 5));
    assert_eq!(t.orientation(), Orientation::Right);
    assert!(t.state());
    assert!(t.is_active());
    assert_eq!(t.pixel_ratio(), 2);
    assert_eq!(t.behavior().name, "langton");
    assert!(t.cell(5, 5));
    let dump = t.debug_dump();
    assert_eq!(dump.len(), 100);
    assert_eq!(dump.chars().filter(|c| *c == '1').count(), 1);
    assert_eq!(dump.chars().nth(55), Some('1'));
}

#[test]
fn grid_size_rounds_down() {
    let t = Turmite::with_choices(25, 13, 4, table("coral"), false, false);
    assert_eq!(t.width(), 6);
    assert_eq!(t.height(), 3);
    assert_eq!(t.position(), (3, 1));
    assert_eq!(t.debug_dump(), "000000000000000000");
}

#[test]
fn random_start_is_centered() {
    let t = Turmite::new(10, 10, 1);
    assert_eq!(t.width(), 10);
    assert_eq!(t.height(), 10);
    assert_eq!(t.position(), (5, 5));
    assert_eq!(t.orientation(), Orientation::Right);
    assert!(t.is_active());
    let names: Vec<&str> = DecisionTable::catalog().iter().map(|t| t.name).collect();
    assert!(names.contains(&t.behavior().name));
    assert_dump_matches_cells(&t);
}

#[test]
fn first_tick_draws_cell_then_agent() {
    let mut t = Turmite::with_choices(20, 20, 2, table("langton"), false, false);
    let draws = t.tick();
    assert_eq!(
        draws,
        vec![fill(Color::Filled, 10, 10, 2), fill(Color::Agent, 10, 12, 2)]
    );
    assert_eq!(t.orientation(), Orientation::Down);
    assert_eq!(t.position(), (5, 6));
    assert!(!t.state());
    assert!(t.cell(5, 5));
    assert!(t.is_active());
}

#[test]
fn first_tick_follows_decision_two() {
    for table in DecisionTable::catalog() {
        let mut t = Turmite::with_choices(10, 10, 1, table, true, false);
        let d: Decision = table.table[2];
        t.tick();
        assert_eq!(t.state(), d.state);
        assert_eq!(t.cell(5, 5), d.color);
        assert_eq!(t.orientation(), Orientation::Right.rotate(d.rotate));
    }
}

#[test]
fn left_exit_stops_and_freezes() {
    let mut t = Turmite::with_choices(1, 1, 1, table("square_two"), true, true);
    assert_eq!(t.position(), (0, 0));
    let draws = t.tick();
    assert_eq!(t.orientation(), Orientation::Left);
    assert_eq!(draws, vec![fill(Color::Filled, 0, 0, 1)]);
    assert!(!t.is_active());
    assert_eq!(t.position(), (0, 0));
    let dump = t.debug_dump();
    for _ in 0..10 {
        assert!(t.tick().is_empty());
        assert!(!t.is_active());
        assert_eq!(t.position(), (0, 0));
        assert_eq!(t.debug_dump(), dump);
    }
}

#[test]
fn left_exit_with_custom_table() {
    let turn_back = DecisionTable {
        name: "turn_back",
        table: [Decision::new(Rotate::Uturn, true, false); 4],
    };
    let mut t = Turmite::with_choices(1, 3, 1, turn_back, false, false);
    assert_eq!(t.position(), (0, 1));
    assert_eq!(t.tick(), vec![fill(Color::Filled, 0, 1, 1)]);
    assert!(!t.is_active());
    assert_eq!(t.debug_dump(), "010");
    assert!(t.tick().is_empty());
    assert_eq!(t.debug_dump(), "010");
}

#[test]
fn up_exit_stops() {
    let mut t = Turmite::with_choices(1, 1, 1, table("langton"), false, true);
    let draws = t.tick();
    assert_eq!(t.orientation(), Orientation::Up);
    assert_eq!(draws, vec![fill(Color::Empty, 0, 0, 1)]);
    assert!(!t.is_active());
    assert_eq!(t.position(), (0, 0));
}

#[test]
fn right_exit_stops_on_next_tick() {
    let mut t = Turmite::with_choices(1, 1, 1, table("fibonacci"), true, true);
    let draws = t.tick();
    assert_eq!(
        draws,
        vec![fill(Color::Empty, 0, 0, 1), fill(Color::Agent, 1, 0, 1)]
    );
    assert!(t.is_active());
    assert_eq!(t.position(), (1, 0));
    assert!(t.tick().is_empty());
    assert!(!t.is_active());
    assert_eq!(t.position(), (1, 0));
    assert_eq!(t.debug_dump(), "0");
}

#[test]
fn long_run_stays_sound() {
    let mut t = Turmite::new(10, 10, 1);
    assert_eq!((t.width(), t.height()), (10, 10));
    let mut ticks = 0;
    while t.is_active() && ticks < 10 * 10 * 100 {
        t.tick();
        ticks += 1;
        let (x, y) = t.position();
        assert!(x <= t.width() && y <= t.height());
    }
    assert_dump_matches_cells(&t);
}

#[test]
fn every_table_runs_soundly() {
    for table in DecisionTable::catalog() {
        for (state, color) in [(false, false), (false, true), (true, false), (true, true)] {
            let mut t = Turmite::with_choices(10, 10, 1, table, state, color);
            let mut ticks = 0;
            while t.is_active() && ticks < 10 * 10 * 50 {
                let draws = t.tick();
                assert!(draws.len() <= 2);
                ticks += 1;
            }
            assert_dump_matches_cells(&t);
            if !t.is_active() {
                let dump = t.debug_dump();
                assert!(t.tick().is_empty());
                assert_eq!(t.debug_dump(), dump);
            }
        }
    }
}

#[test]
fn langton_leaves_the_grid() {
    let mut t = Turmite::with_choices(10, 10, 1, table("langton"), false, false);
    let mut ticks = 0;
    while t.is_active() && ticks < 10 * 10 * 100 {
        t.tick();
        ticks += 1;
    }
    assert!(!t.is_active());
    assert_dump_matches_cells(&t);
}
