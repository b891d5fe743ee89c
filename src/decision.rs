use rand::seq::SliceRandom;
use vstd::prelude::*;

verus! {

use crate::orientation::Rotate;
use crate::orientation::Rotate::{Clockwise, CounterClockwise, Noop, Uturn};

/// What to do for one pair of internal state and cell color: how to turn,
/// which color to write and which state to take.
#[derive(Clone, Copy, Debug, PartialEq, Eq, Structural)]
pub struct Decision {
    pub rotate: Rotate,
    pub color: bool,
    pub state: bool,
}

impl Decision {
    pub fn new(rotate: Rotate, color: bool, state: bool) -> (r: Decision)
        ensures
            r == (Decision { rotate, color, state }),
    {
        Decision { rotate, color, state }
    }
}

/// A named behavior: one decision for each of the four pairs of internal
/// state and cell color.
#[derive(Clone, Copy, Debug)]
pub struct DecisionTable {
    pub name: &'static str,
    pub table: [Decision; 4],
}

/// The number of tables in the catalog.
pub const CATALOG_LEN: usize = 16;

/// The position of the decision for internal state `state` and cell color
/// `color`: the state is the high bit, the color the low bit.
pub open spec fn key(state: bool, color: bool) -> int {
    (if state { 2int } else { 0int }) + (if color { 1int } else { 0int })
}

/// The decision that table `t` takes for internal state `state` and cell
/// color `color`.
pub open spec fn decision_of(t: DecisionTable, state: bool, color: bool) -> Decision {
    t.table@[key(state, color)]
}

/// Table `i` of the catalog, for `0 <= i < CATALOG_LEN`.
pub open spec fn catalog_table(i: int) -> DecisionTable {
    if i == 0 {
        DecisionTable {
            name: "fibonacci",
            table: [
                Decision { rotate: CounterClockwise, color: true, state: true },
                Decision { rotate: CounterClockwise, color: true, state: true },
                Decision { rotate: Clockwise, color: true, state: true },
                Decision { rotate: Noop, color: false, state: false },
            ],
        }
    } else if i == 1 {
        DecisionTable {
            name: "langton",
            table: [
                Decision { rotate: Clockwise, color: true, state: false },
                Decision { rotate: CounterClockwise, color: false, state: false },
                Decision { rotate: Clockwise, color: true, state: false },
                Decision { rotate: CounterClockwise, color: false, state: false },
            ],
        }
    } else if i == 2 {
        DecisionTable {
            name: "chaotic_one",
            table: [
                Decision { rotate: Clockwise, color: true, state: false },
                Decision { rotate: Clockwise, color: true, state: true },
                Decision { rotate: Noop, color: false, state: false },
                Decision { rotate: Noop, color: false, state: true },
            ],
        }
    } else if i == 3 {
        DecisionTable {
            name: "chaotic_two",
            table: [
                Decision { rotate: Clockwise, color: true, state: true },
                Decision { rotate: CounterClockwise, color: false, state: true },
                Decision { rotate: Noop, color: true, state: false },
                Decision { rotate: Noop, color: false, state: true },
            ],
        }
    } else if i == 4 {
        DecisionTable {
            name: "chaotic_three",
            table: [
                Decision { rotate: CounterClockwise, color: true, state: true },
                Decision { rotate: CounterClockwise, color: false, state: true },
                Decision { rotate: Clockwise, color: true, state: true },
                Decision { rotate: CounterClockwise, color: false, state: false },
            ],
        }
    } else if i == 5 {
        DecisionTable {
            name: "chaotic_four",
            table: [
                Decision { rotate: CounterClockwise, color: true, state: true },
                Decision { rotate: CounterClockwise, color: false, state: true },
                Decision { rotate: Noop, color: true, state: false },
                Decision { rotate: Noop, color: true, state: true },
            ],
        }
    } else if i == 6 {
        DecisionTable {
            name: "coral",
            table: [
                Decision { rotate: Clockwise, color: true, state: true },
                Decision { rotate: CounterClockwise, color: true, state: true },
                Decision { rotate: Clockwise, color: true, state: true },
                Decision { rotate: CounterClockwise, color: false, state: false },
            ],
        }
    } else if i == 7 {
        DecisionTable {
            name: "square_one",
            table: [
                Decision { rotate: CounterClockwise, color: true, state: false },
                Decision { rotate: Clockwise, color: true, state: true },
                Decision { rotate: Clockwise, color: false, state: false },
                Decision { rotate: CounterClockwise, color: false, state: true },
            ],
        }
    } else if i == 8 {
        DecisionTable {
            name: "square_two",
            table: [
                Decision { rotate: Clockwise, color: false, state: true },
                Decision { rotate: CounterClockwise, color: false, state: false },
                Decision { rotate: Noop, color: true, state: false },
                Decision { rotate: Uturn, color: true, state: true },
            ],
        }
    } else if i == 9 {
        DecisionTable {
            name: "counter_one",
            table: [
                Decision { rotate: Noop, color: false, state: true },
                Decision { rotate: Uturn, color: false, state: true },
                Decision { rotate: Clockwise, color: true, state: true },
                Decision { rotate: Noop, color: false, state: true },
            ],
        }
    } else if i == 10 {
        DecisionTable {
            name: "counter_two",
            table: [
                Decision { rotate: Clockwise, color: true, state: true },
                Decision { rotate: Noop, color: false, state: true },
                Decision { rotate: Noop, color: false, state: false },
                Decision { rotate: CounterClockwise, color: true, state: true },
            ],
        }
    } else if i == 11 {
        DecisionTable {
            name: "spiral_one",
            table: [
                Decision { rotate: Noop, color: true, state: true },
                Decision { rotate: CounterClockwise, color: true, state: false },
                Decision { rotate: Clockwise, color: true, state: true },
                Decision { rotate: Noop, color: false, state: false },
            ],
        }
    } else if i == 12 {
        DecisionTable {
            name: "spiral_two",
            table: [
                Decision { rotate: CounterClockwise, color: true, state: false },
                Decision { rotate: Clockwise, color: false, state: true },
                Decision { rotate: Clockwise, color: true, state: false },
                Decision { rotate: CounterClockwise, color: false, state: true },
            ],
        }
    } else if i == 13 {
        DecisionTable {
            name: "spiral_three",
            table: [
                Decision { rotate: Uturn, color: true, state: false },
                Decision { rotate: Noop, color: false, state: true },
                Decision { rotate: CounterClockwise, color: false, state: false },
                Decision { rotate: Clockwise, color: false, state: true },
            ],
        }
    } else if i == 14 {
        DecisionTable {
            name: "ladder",
            table: [
                Decision { rotate: Noop, color: false, state: true },
                Decision { rotate: Uturn, color: true, state: true },
                Decision { rotate: CounterClockwise, color: true, state: false },
                Decision { rotate: Noop, color: true, state: true },
            ],
        }
    } else {
        DecisionTable {
            name: "dixie",
            table: [
            Decision { rotate: Clockwise, color: false, state: true },
            Decision { rotate: CounterClockwise, color: false, state: false },
            Decision { rotate: Uturn, color: true, state: true },
            Decision { rotate: Clockwise, color: false, state: false },
            ],
        }
    }
}

/// Relies on rand's `SliceRandom::choose` with the thread-local generator: it
/// gives `None` exactly for an empty slice, and otherwise one of its elements,
/// copied out.
#[verifier::external_body]
fn choose_table(tables: &[DecisionTable]) -> (r: Option<DecisionTable>)
    ensures
        r is None <==> tables@.len() == 0,
        r matches Some(t) ==> exists|i: int| 0 <= i < tables@.len() && tables@[i] == t,
{
    tables.choose(&mut rand::thread_rng()).copied()
}

impl DecisionTable {
    /// Every table of the catalog, in catalog order.
    pub fn catalog() -> (r: Vec<DecisionTable>)
        ensures
            r@.len() == CATALOG_LEN,
            forall|i: int| 0 <= i < CATALOG_LEN ==> #[trigger] r@[i] == catalog_table(i),
    {
        let tables = vec![
        DecisionTable {
            name: "fibonacci",
            table: [
                Decision::new(CounterClockwise, true, true),
                Decision::new(CounterClockwise, true, true),
                Decision::new(Clockwise, true, true),
                Decision::new(Noop, false, false),
            ],
        },
        DecisionTable {
            name: "langton",
            table: [
                Decision::new(Clockwise, true, false),
                Decision::new(CounterClockwise, false, false),
                Decision::new(Clockwise, true, false),
                Decision::new(CounterClockwise, false, false),
            ],
        },
        DecisionTable {
            name: "chaotic_one",
            table: [
                Decision::new(Clockwise, true, false),
                Decision::new(Clockwise, true, true),
                Decision::new(Noop, false, false),
                Decision::new(Noop, false, true),
            ],
        },
        DecisionTable {
            name: "chaotic_two",
            table: [
                Decision::new(Clockwise, true, true),
                Decision::new(CounterClockwise, false, true),
                Decision::new(Noop, true, false),
                Decision::new(Noop, false, true),
            ],
        },
        DecisionTable {
            name: "chaotic_three",
            table: [
                Decision::new(CounterClockwise, true, true),
                Decision::new(CounterClockwise, false, true),
                Decision::new(Clockwise, true, true),
                Decision::new(CounterClockwise, false, false),
            ],
        },
        DecisionTable {
            name: "chaotic_four",
            table: [
                Decision::new(CounterClockwise, true, true),
                Decision::new(CounterClockwise, false, true),
                Decision::new(Noop, true, false),
                Decision::new(Noop, true, true),
            ],
        },
        DecisionTable {
            name: "coral",
            table: [
                Decision::new(Clockwise, true, true),
                Decision::new(CounterClockwise, true, true),
                Decision::new(Clockwise, true, true),
                Decision::new(CounterClockwise, false, false),
            ],
        },
        DecisionTable {
            name: "square_one",
            table: [
                Decision::new(CounterClockwise, true, false),
                Decision::new(Clockwise, true, true),
                Decision::new(Clockwise, false, false),
                Decision::new(CounterClockwise, false, true),
            ],
        },
        DecisionTable {
            name: "square_two",
            table: [
                Decision::new(Clockwise, false, true),
                Decision::new(CounterClockwise, false, false),
                Decision::new(Noop, true, false),
                Decision::new(Uturn, true, true),
            ],
        },
        DecisionTable {
            name: "counter_one",
            table: [
                Decision::new(Noop, false, true),
                Decision::new(Uturn, false, true),
                Decision::new(Clockwise, true, true),
                Decision::new(Noop, false, true),
            ],
        },
        DecisionTable {
            name: "counter_two",
            table: [
                Decision::new(Clockwise, true, true),
                Decision::new(Noop, false, true),
                Decision::new(Noop, false, false),
                Decision::new(CounterClockwise, true, true),
            ],
        },
        DecisionTable {
            name: "spiral_one",
            table: [
                Decision::new(Noop, true, true),
                Decision::new(CounterClockwise, true, false),
                Decision::new(Clockwise, true, true),
                Decision::new(Noop, false, false),
            ],
        },
        DecisionTable {
            name: "spiral_two",
            table: [
                Decision::new(CounterClockwise, true, false),
                Decision::new(Clockwise, false, true),
                Decision::new(Clockwise, true, false),
                Decision::new(CounterClockwise, false, true),
            ],
        },
        DecisionTable {
            name: "spiral_three",
            table: [
                Decision::new(Uturn, true, false),
                Decision::new(Noop, false, true),
                Decision::new(CounterClockwise, false, false),
                Decision::new(Clockwise, false, true),
            ],
        },
        DecisionTable {
            name: "ladder",
            table: [
                Decision::new(Noop, false, true),
                Decision::new(Uturn, true, true),
                Decision::new(CounterClockwise, true, false),
                Decision::new(Noop, true, true),
            ],
        },
        DecisionTable {
            name: "dixie",
            table: [
                Decision::new(Clockwise, false, true),
                Decision::new(CounterClockwise, false, false),
                Decision::new(Uturn, true, true),
                Decision::new(Clockwise, false, false),
            ],
        },
        ];
        tables
    }

    /// A table of the catalog, picked at random.
    pub fn random() -> (r: DecisionTable)
        ensures
            exists|i: int| 0 <= i < CATALOG_LEN && r == #[trigger] catalog_table(i),
    {
        let tables = DecisionTable::catalog();
        let chosen = choose_table(tables.as_slice());
        chosen.unwrap()
    }

    /// The decision for internal state `state` and cell color `color`.
    pub fn decide(&self, state: bool, color: bool) -> (r: Decision)
        ensures
            r == decision_of(*self, state, color),
    {
        let i: usize = if state { 2 } else { 0 };
        let j: usize = if color { 1 } else { 0 };
        self.table[i + j]
    }
}

/// The internal state that position `i` of a table answers.
pub open spec fn state_of_key(i: int) -> bool {
    i >= 2
}

/// The cell color that position `i` of a table answers.
pub open spec fn color_of_key(i: int) -> bool {
    i % 2 == 1
}

/// The key maps the four pairs of internal state and cell color one to one
/// onto the four positions of a table (with `state_of_key` and
/// `color_of_key` as its inverse), so every table of the catalog gives
/// exactly one decision for each pair, and each of its entries is the
/// decision for exactly one pair.
pub proof fn lemma_key_bijective()
    ensures
        forall|s: bool, c: bool| 0 <= #[trigger] key(s, c) < 4,
        forall|s: bool, c: bool|
            state_of_key(#[trigger] key(s, c)) == s && color_of_key(key(s, c)) == c,
        forall|i: int|
            0 <= i < 4 ==> #[trigger] key(state_of_key(i), color_of_key(i)) == i,
        forall|i: int, s: bool, c: bool|
            0 <= i < CATALOG_LEN ==> (#[trigger] decision_of(catalog_table(i), s, c))
                == catalog_table(i).table@[key(s, c)],
        forall|i: int| 0 <= i < CATALOG_LEN ==> (#[trigger] catalog_table(i)).table@.len() == 4,
{
}

} // verus!
