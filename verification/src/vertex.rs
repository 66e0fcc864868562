//! A sampled point of the trajectory.

use vstd::prelude::*;

verus! {

/// A point in world space.
///
/// Each coordinate is kept as the bit pattern of an IEEE-754
/// single-precision number. The history only stores and hands on points; it
/// never computes with their coordinates.
#[derive(Clone, Copy, Debug)]
pub struct Vertex {
    position: [u32; 3],
}

impl Vertex {
    pub closed spec fn spec_position(&self) -> [u32; 3] {
        self.position
    }

    /// The point with the coordinates `position`, in the order x, y, z.
    pub fn new(position: [u32; 3]) -> (vertex: Vertex)
        ensures
            vertex.position() == position,
    {
        Vertex { position }
    }

    /// The coordinates, in the order x, y, z.
    #[verifier::when_used_as_spec(spec_position)]
    pub fn position(&self) -> (position: [u32; 3])
        ensures
            position == self.spec_position(),
    {
        self.position
    }
}

} // verus!
