use glam::Vec2;
use vstd::prelude::*;

verus! {

/// A filled outline: its outer boundary and the boundaries of its holes.
#[derive(Debug)]
pub struct Shape {
    pub regular: Vec<Vec2>,
    pub holes: Vec<Vec<Vec2>>,
}

impl Default for Shape {
    fn default() -> (r: Shape)
        ensures
            r.regular@.len() == 0,
            r.holes@.len() == 0,
    {
        Shape { regular: Vec::new(), holes: Vec::new() }
    }
}

impl Shape {
    /// A shape with the outline `regular` and no holes.
    pub fn from_regular(regular: Vec<Vec2>) -> (r: Shape)
        ensures
            r.regular@ == regular@,
            r.holes@.len() == 0,
    {
        Shape { regular, holes: Vec::new() }
    }
}

} // verus!
