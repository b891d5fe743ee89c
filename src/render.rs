use vstd::prelude::*;

verus! {

/// A fill color of the drawing surface.
#[derive(Clone, Copy, Debug, PartialEq, Eq, Structural)]
pub enum Color {
    /// A cell whose value is `false`.
    Empty,
    /// A cell whose value is `true`.
    Filled,
    /// The cell the turmite stands on.
    Agent,
}

/// The RGB string of a color, as the drawing surface takes it.
pub open spec fn rgb_of(c: Color) -> Seq<char> {
    match c {
        Color::Empty => "rgb(255, 255, 255)"@,
        Color::Filled => "rgb(0, 0, 0)"@,
        Color::Agent => "rgb(200, 0, 0)"@,
    }
}

impl Color {
    pub fn rgb(&self) -> (r: &'static str)
        ensures
            r@ == rgb_of(*self),
    {
        match self {
            Color::Empty => "rgb(255, 255, 255)",
            Color::Filled => "rgb(0, 0, 0)",
            Color::Agent => "rgb(200, 0, 0)",
        }
    }
}

/// A command to the drawing surface: fill the square whose top-left pixel is
/// `(x, y)` and whose side is `size` pixels with `color`.
#[derive(Clone, Copy, Debug, PartialEq, Eq, Structural)]
pub struct Fill {
    pub color: Color,
    pub x: usize,
    pub y: usize,
    pub size: usize,
}

} // verus!
