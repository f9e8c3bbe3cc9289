use vstd::prelude::*;

verus! {

/// A circle given by its center `(x, y)` and its `radius`.
///
/// No relation between the fields is enforced: a negative radius is accepted.
#[derive(Clone, Copy, Debug, PartialEq)]
pub struct Circle<T> {
    pub x: T,
    pub y: T,
    pub radius: T,
}

impl<T: Copy> Circle<T> {
    /// The points that represent the circle: its center alone.
    pub fn points(&self) -> (r: Vec<(T, T)>)
        ensures
            r@ == seq![(self.x, self.y)],
    {
        let mut r: Vec<(T, T)> = Vec::new();
        r.push((self.x, self.y));
        r
    }
}

} // verus!
