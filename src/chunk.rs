use vstd::prelude::*;

use crate::geometry::ChunkCoordinate;
use crate::object::SceneObject;

verus! {

/// A spatial bucket of scene objects at a discrete coordinate.
pub struct Chunk {
    pub coordinates: ChunkCoordinate,
    pub objects: Vec<SceneObject>,
}

impl Chunk {
    pub fn new(coordinates: ChunkCoordinate) -> (r: Self)
        ensures
            r.coordinates == coordinates,
            r.objects@.len() == 0,
    {
        Chunk { coordinates, objects: Vec::new() }
    }

    /// Appends an object and returns its position in the chunk.
    pub fn add_object(&mut self, object: SceneObject) -> (r: usize)
        ensures
            r == old(self).objects@.len(),
            final(self).coordinates == old(self).coordinates,
            final(self).objects@ == old(self).objects@.push(object),
    {
        let index = self.objects.len();
        self.objects.push(object);
        index
    }
}

} // verus!
