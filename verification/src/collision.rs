//! The record of a contact between two bodies of a simulation.

use vstd::prelude::*;

verus! {

/// A contact between the bodies at indices `body_a` and `body_b`, with the
/// contact points of each body and the normal, in whatever point type `P`
/// the simulation uses.
#[derive(Clone, Copy, Debug)]
pub struct Contact<P> {
    pub body_a: usize,
    pub body_b: usize,
    pub pt_a_world: P,
    pub pt_b_world: P,
    /// Normal pointing from B to A (the direction that pushes A away).
    pub normal: P,
    pub has_collision: bool,
}

impl<P: Copy> Contact<P> {
    /// A contact between `a` and `b` that records no collision, with every
    /// point and the normal at `origin`.
    pub fn new(a: usize, b: usize, origin: P) -> (r: Self)
        ensures
            r.body_a == a,
            r.body_b == b,
            r.pt_a_world == origin,
            r.pt_b_world == origin,
            r.normal == origin,
            !r.has_collision,
    {
        Contact {
            body_a: a,
            body_b: b,
            pt_a_world: origin,
            pt_b_world: origin,
            normal: origin,
            has_collision: false,
        }
    }
}

} // verus!
