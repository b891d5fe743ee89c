use turmite::{Decision, DecisionTable, Rotate, CATALOG_LEN};

const NAMES: [&str; 16] = [
    "fibonacci",
    "langton",
    "chaotic_one",
    "chaotic_two",
    "chaotic_three",
    "chaotic_four",
    "coral",
    "square_one",
    "square_two",
    "counter_one",
    "counter_two",
    "spiral_one",
    "spiral_two",
    "spiral_three",
    "ladder",
    "dixie",
];

fn table(name: &str) -> DecisionTable {
    let all = DecisionTable::catalog();
    let mut i = 0;
    while all[i].name != name {
        i += 1;
    }
    all[i]
}

#[test]
fn catalog_holds_every_named_table_in_order() {
    let all = DecisionTable::catalog();
    assert_eq!(all.len(), CATALOG_LEN);
    assert_eq!(all.len(), NAMES.len());
    for (t, name) in all.iter().zip(NAMES.iter()) {
        assert_eq!(t.name, *name);
    }
}

#[test]
fn decide_reads_state_as_high_bit() {
    for t in DecisionTable::catalog() {
        assert_eq!(t.decide(false, false), t.table[0]);
        assert_eq!(t.decide(false, true), t.table[1]);
        assert_eq!(t.decide(true, false), t.table[2]);
        assert_eq!(t.decide(true, true), t.table[3]);
    }
}

#[test]
fn langton_entries() {
    let t = table("langton");
    assert_eq!(t.table[0], Decision::new(Rotate::Clockwise, true, false));
    assert_eq!(t.table[1], Decision::new(Rotate::CounterClockwise, false, false));
    assert_eq!(t.table[2], Decision::new(Rotate::Clockwise, true, false));
    assert_eq!(t.table[3], Decision::new(Rotate::CounterClockwise, false, false));
}

#[test]
fn fibonacci_and_dixie_entries() {
    let f = table("fibonacci");
    assert_eq!(f.decide(false, false), Decision::new(Rotate::CounterClockwise, true, true));
    assert_eq!(f.decide(true, false), Decision::new(Rotate::Clockwise, true, true));
    assert_eq!(f.decide(true, true), Decision::new(Rotate::Noop, false, false));
    let d = table("dixie");
    assert_eq!(d.decide(true, false), Decision::new(Rotate::Uturn, true, true));
    assert_eq!(d.decide(true, true), Decision::new(Rotate::Clockwise, false, false));
}

#[test]
fn square_two_and_spiral_three_entries() {
    let s = table("square_two");
    assert_eq!(s.table[3], Decision::new(Rotate::Uturn, true, true));
    assert_eq!(s.table[0], Decision::new(Rotate::Clockwise, false, true));
    let p = table("spiral_three");
    assert_eq!(p.table[0], Decision::new(Rotate::Uturn, true, false));
    assert_eq!(p.table[2], Decision::new(Rotate::CounterClockwise, false, false));
}

#[test]
fn random_picks_a_catalog_table() {
    for _ in 0..50 {
        let t = DecisionTable::random();
        assert!(NAMES.contains(&t.name));
        assert_eq!(table(t.name).table, t.table);
    }
}

#[test]
fn decision_new_keeps_fields() {
    let d = Decision::new(Rotate::Uturn, true, false);
    assert_eq!(d.rotate, Rotate::Uturn);
    assert!(d.color);
    assert!(!d.state);
}
