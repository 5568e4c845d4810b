use vstd::prelude::*;

use crate::chunk::Chunk;
use crate::geometry::{ChunkCoordinate, Point2, Point3};
use crate::object::SceneObject;
use crate::renderer::RenderView;

verus! {

/// A rectangular region of the horizontal plane, bounds included, that
/// resolves to the chunk at `chunk`.
#[derive(Clone, Copy, Debug, PartialEq, Eq, Structural)]
pub struct ChunkCorners {
    pub begin: Point2,
    pub end: Point2,
    pub chunk: ChunkCoordinate,
}

impl ChunkCorners {
    pub open spec fn contains(&self, p: Point2) -> bool {
        self.begin.x <= p.x && self.begin.y <= p.y && p.x <= self.end.x && p.y <= self.end.y
    }

    pub fn check_range(&self, coordinates: Point2) -> (r: bool)
        ensures
            r == self.contains(coordinates),
    {
        coordinates.x >= self.begin.x && coordinates.y >= self.begin.y && coordinates.x
            <= self.end.x && coordinates.y <= self.end.y
    }
}

/// Why no chunk could be resolved for a point.
#[derive(Clone, Copy, Debug, PartialEq, Eq, Structural)]
pub enum ChunkError {
    /// No registered range contains the point.
    NoMatchingRange,
    /// The first range containing the point names a coordinate that holds no chunk.
    ChunkMissing,
}

/// The background color of a scene.
#[derive(Clone, Copy, Debug, PartialEq, Eq, Structural)]
pub struct RgbaAttachment {
    pub r: u8,
    pub g: u8,
    pub b: u8,
    pub a: u8,
}

/// `i` is the earliest range in `s` that contains `p`.
pub open spec fn is_first_range(s: Seq<ChunkCorners>, p: Point2, i: int) -> bool {
    &&& 0 <= i < s.len()
    &&& s[i].contains(p)
    &&& forall|j: int| 0 <= j < i ==> !(#[trigger] s[j]).contains(p)
}

/// The position of the earliest range that contains `p`, if any does.
pub open spec fn first_range(s: Seq<ChunkCorners>, p: Point2) -> Option<int> {
    if exists|i: int| is_first_range(s, p, i) {
        Some(choose|i: int| is_first_range(s, p, i))
    } else {
        None
    }
}

/// `i` is the earliest chunk in `s` at coordinate `c`.
pub open spec fn is_first_chunk(s: Seq<Chunk>, c: ChunkCoordinate, i: int) -> bool {
    &&& 0 <= i < s.len()
    &&& s[i].coordinates == c
    &&& forall|j: int| 0 <= j < i ==> (#[trigger] s[j]).coordinates != c
}

/// The chunk stored at coordinate `c`, if any.
pub open spec fn stored_chunk(s: Seq<Chunk>, c: ChunkCoordinate) -> Option<Chunk> {
    if exists|i: int| is_first_chunk(s, c, i) {
        Some(s[choose|i: int| is_first_chunk(s, c, i)])
    } else {
        None
    }
}

pub proof fn lemma_first_range_is(s: Seq<ChunkCorners>, p: Point2, i: int)
    requires
        is_first_range(s, p, i),
    ensures
        first_range(s, p) == Some(i),
{
    let k = choose|k: int| is_first_range(s, p, k);
    if k < i {
        assert(!s[k].contains(p));
    } else if k > i {
        assert(!s[i].contains(p));
    }
}

pub proof fn lemma_first_chunk_is(s: Seq<Chunk>, c: ChunkCoordinate, i: int)
    requires
        is_first_chunk(s, c, i),
    ensures
        stored_chunk(s, c) == Some(s[i]),
{
    let k = choose|k: int| is_first_chunk(s, c, k);
    if k < i {
        assert(s[k].coordinates != c);
    } else if k > i {
        assert(s[i].coordinates != c);
    }
}

pub proof fn lemma_replace_chunk(before: Seq<Chunk>, after: Seq<Chunk>, c: ChunkCoordinate, k: int, x: Chunk)
    requires
        is_first_chunk(before, c, k),
        x.coordinates == c,
        after == before.update(k, x),
    ensures
        stored_chunk(after, c) == Some(x),
        forall|d: ChunkCoordinate|
            d != c ==> #[trigger] stored_chunk(after, d) == stored_chunk(before, d),
{
    assert(is_first_chunk(after, c, k));
    lemma_first_chunk_is(after, c, k);
    assert forall|d: ChunkCoordinate| d != c implies #[trigger] stored_chunk(after, d)
        == stored_chunk(before, d) by {
        if exists|i: int| is_first_chunk(before, d, i) {
            let i = choose|i: int| is_first_chunk(before, d, i);
            assert(is_first_chunk(after, d, i));
            lemma_first_chunk_is(before, d, i);
            lemma_first_chunk_is(after, d, i);
        } else {
            if exists|i: int| is_first_chunk(after, d, i) {
                let i = choose|i: int| is_first_chunk(after, d, i);
                assert(i != k);
                assert(before[i] == after[i]);
                assert forall|j: int| 0 <= j < i implies (#[trigger] before[j]).coordinates != d by {
                    if j != k {
                        assert(before[j] == after[j]);
                    }
                }
                assert(is_first_chunk(before, d, i));
            }
        }
    }
}

/// Some range at or before `i` is the earliest to contain `p`.
pub proof fn lemma_some_first_range(s: Seq<ChunkCorners>, p: Point2, i: int)
    requires
        0 <= i < s.len(),
        s[i].contains(p),
    ensures
        exists|k: int| 0 <= k <= i && is_first_range(s, p, k),
    decreases i,
{
    if exists|j: int| 0 <= j < i && (#[trigger] s[j]).contains(p) {
        let j = choose|j: int| 0 <= j < i && (#[trigger] s[j]).contains(p);
        lemma_some_first_range(s, p, j);
    } else {
        assert(is_first_range(s, p, i));
    }
}

/// A named world: chunks by coordinate, the ranges that resolve points to
/// them (earliest registered first), a camera and a background color.
pub struct Scene {
    pub name: String,
    pub chunk_map: Vec<Chunk>,
    pub chunk_corners: Vec<ChunkCorners>,
    pub camera: RenderView,
    pub color_attachment: RgbaAttachment,
}

/// The relation between a scene before and after `add_chunk(chunk, begin, end)`.
pub open spec fn chunk_added(before: Scene, after: Scene, chunk: Chunk, begin: Point2, end: Point2) -> bool {
    &&& after.name@ == before.name@
    &&& after.camera == before.camera
    &&& after.color_attachment == before.color_attachment
    &&& after.corners() == before.corners().push(
        ChunkCorners { begin, end, chunk: chunk.coordinates },
    )
    &&& stored_chunk(after.chunks(), chunk.coordinates) == Some(chunk)
    &&& forall|c: ChunkCoordinate|
        c != chunk.coordinates ==> #[trigger] stored_chunk(after.chunks(), c) == stored_chunk(
            before.chunks(),
            c,
        )
}

impl Scene {
    pub open spec fn chunks(&self) -> Seq<Chunk> {
        self.chunk_map@
    }

    pub open spec fn corners(&self) -> Seq<ChunkCorners> {
        self.chunk_corners@
    }

    /// What a lookup of point `p` yields: the chunk of the earliest range that
    /// contains `p`.
    pub open spec fn lookup(&self, p: Point2) -> Result<Chunk, ChunkError> {
        match first_range(self.corners(), p) {
            None => Err(ChunkError::NoMatchingRange),
            Some(i) => match stored_chunk(self.chunks(), self.corners()[i].chunk) {
                Some(c) => Ok(c),
                None => Err(ChunkError::ChunkMissing),
            },
        }
    }

    /// The point where the camera looks, projected on the horizontal plane.
    pub open spec fn focus(&self) -> Point2 {
        Point2 { x: self.camera.at.x, y: self.camera.at.z }
    }

    pub open spec fn current_lookup(&self) -> Result<Chunk, ChunkError> {
        self.lookup(self.focus())
    }

    pub fn new(name: String, camera: RenderView) -> (r: Self)
        ensures
            r.name@ == name@,
            r.camera == camera,
            r.color_attachment == (RgbaAttachment { r: 0, g: 0, b: 0, a: 255 }),
            r.chunks().len() == 0,
            r.corners().len() == 0,
    {
        Scene {
            name,
            chunk_map: Vec::new(),
            chunk_corners: Vec::new(),
            camera,
            color_attachment: RgbaAttachment { r: 0, g: 0, b: 0, a: 255 },
        }
    }

    /// A scene with a camera at the origin looking at the origin.
    pub fn with_name(name: String) -> (r: Self)
        ensures
            r.name@ == name@,
            r.camera.eye == (Point3 { x: 0, y: 0, z: 0 }),
            r.camera.at == (Point3 { x: 0, y: 0, z: 0 }),
            r.camera.up == (Point3 { x: 0, y: 0, z: 0 }),
            r.color_attachment == (RgbaAttachment { r: 0, g: 0, b: 0, a: 255 }),
            r.chunks().len() == 0,
            r.corners().len() == 0,
    {
        Scene::new(name, RenderView::new(Point3::zero(), Point3::zero(), Point3::zero()))
    }

    pub fn chunk_count(&self) -> (r: usize)
        ensures
            r == self.chunks().len(),
    {
        self.chunk_map.len()
    }

    pub fn range_count(&self) -> (r: usize)
        ensures
            r == self.corners().len(),
    {
        self.chunk_corners.len()
    }

    /// Position of the earliest stored chunk at `c`, if any.
    fn find_chunk(&self, c: ChunkCoordinate) -> (r: Option<usize>)
        ensures
            match r {
                Some(i) => is_first_chunk(self.chunks(), c, i as int),
                None => forall|j: int|
                    0 <= j < self.chunks().len() ==> (#[trigger] self.chunks()[j]).coordinates != c,
            },
    {
        let n = self.chunk_map.len();
        let mut i: usize = 0;
        while i < n
            invariant
                n == self.chunks().len(),
                i <= n,
                forall|j: int| 0 <= j < i ==> (#[trigger] self.chunks()[j]).coordinates != c,
            decreases n - i,
        {
            if self.chunk_map[i].coordinates == c {
                return Some(i);
            }
            i = i + 1;
        }
        None
    }

    /// The chunk stored at coordinate `c`, if any.
    pub fn chunk_at(&self, c: ChunkCoordinate) -> (r: Option<&Chunk>)
        ensures
            match r {
                Some(chunk) => stored_chunk(self.chunks(), c) == Some(*chunk),
                None => stored_chunk(self.chunks(), c) is None,
            },
    {
        match self.find_chunk(c) {
            Some(k) => {
                proof {
                    lemma_first_chunk_is(self.chunks(), c, k as int);
                }
                Some(&self.chunk_map[k])
            },
            None => {
                proof {
                    if exists|i: int| is_first_chunk(self.chunks(), c, i) {
                        let i = choose|i: int| is_first_chunk(self.chunks(), c, i);
                        assert(self.chunks()[i].coordinates == c);
                    }
                }
                None
            },
        }
    }

    /// The chunk of the earliest registered range that contains `coordinates`.
    pub fn get_chunk(&self, coordinates: Point2) -> (r: Result<&Chunk, ChunkError>)
        ensures
            match r {
                Ok(c) => self.lookup(coordinates) == Ok::<Chunk, ChunkError>(*c),
                Err(e) => self.lookup(coordinates) == Err::<Chunk, ChunkError>(e),
            },
    {
        let n = self.chunk_corners.len();
        let mut i: usize = 0;
        while i < n
            invariant
                n == self.corners().len(),
                i <= n,
                forall|j: int| 0 <= j < i ==> !(#[trigger] self.corners()[j]).contains(coordinates),
            decreases n - i,
        {
            if self.chunk_corners[i].check_range(coordinates) {
                proof {
                    lemma_first_range_is(self.corners(), coordinates, i as int);
                }
                let target = self.chunk_corners[i].chunk;
                match self.find_chunk(target) {
                    Some(k) => {
                        proof {
                            lemma_first_chunk_is(self.chunks(), target, k as int);
                        }
                        return Ok(&self.chunk_map[k]);
                    },
                    None => {
                        return Err(ChunkError::ChunkMissing);
                    },
                }
            }
            i = i + 1;
        }
        Err(ChunkError::NoMatchingRange)
    }

    /// The chunk under the camera's focus: the "at" point's x and z components.
    pub fn get_current_chunk(&self) -> (r: Result<&Chunk, ChunkError>)
        ensures
            match r {
                Ok(c) => self.current_lookup() == Ok::<Chunk, ChunkError>(*c),
                Err(e) => self.current_lookup() == Err::<Chunk, ChunkError>(e),
            },
    {
        let coordinates = Point2::new(self.camera.at.x, self.camera.at.z);
        self.get_chunk(coordinates)
    }

    /// Stores `chunk` at its coordinate, replacing any chunk there, and
    /// registers the range from `begin` to `end` after all earlier ones.
    pub fn add_chunk(&mut self, chunk: Chunk, begin: Point2, end: Point2)
        ensures
            chunk_added(*old(self), *final(self), chunk, begin, end),
    {
        let c = chunk.coordinates;
        let corners = ChunkCorners { begin, end, chunk: c };
        let ghost before = self.chunks();
        match self.find_chunk(c) {
            Some(k) => {
                self.chunk_map.set(k, chunk);
                proof {
                    lemma_replace_chunk(before, self.chunks(), c, k as int, chunk);
                }
            },
            None => {
                self.chunk_map.push(chunk);
                proof {
                    let after = self.chunks();
                    assert(is_first_chunk(after, c, before.len() as int));
                    lemma_first_chunk_is(after, c, before.len() as int);
                    assert forall|d: ChunkCoordinate| d != c implies #[trigger] stored_chunk(
                        after,
                        d,
                    ) == stored_chunk(before, d) by {
                        if exists|i: int| is_first_chunk(before, d, i) {
                            let i = choose|i: int| is_first_chunk(before, d, i);
                            assert(is_first_chunk(after, d, i));
                            lemma_first_chunk_is(before, d, i);
                            lemma_first_chunk_is(after, d, i);
                        } else {
                            if exists|i: int| is_first_chunk(after, d, i) {
                                let i = choose|i: int| is_first_chunk(after, d, i);
                                assert(i != before.len() as int);
                                assert(before[i] == after[i]);
                                assert forall|j: int| 0 <= j < i implies (#[trigger] before[j]).coordinates
                                    != d by {
                                    assert(before[j] == after[j]);
                                }
                                assert(is_first_chunk(before, d, i));
                            }
                        }
                    }
                }
            },
        }
        self.chunk_corners.push(corners);
    }

    /// Appends an object to the chunk stored at `coordinates` and returns its
    /// position there; a coordinate without a chunk is refused.
    pub fn add_object(&mut self, coordinates: ChunkCoordinate, object: SceneObject) -> (r: Result<
        usize,
        ChunkError,
    >)
        ensures
            final(self).name@ == old(self).name@,
            final(self).camera == old(self).camera,
            final(self).color_attachment == old(self).color_attachment,
            final(self).corners() == old(self).corners(),
            forall|d: ChunkCoordinate|
                d != coordinates ==> #[trigger] stored_chunk(final(self).chunks(), d)
                    == stored_chunk(old(self).chunks(), d),
            match stored_chunk(old(self).chunks(), coordinates) {
                None => r == Err::<usize, ChunkError>(ChunkError::ChunkMissing) && final(self).chunks()
                    == old(self).chunks(),
                Some(c) => r == Ok::<usize, ChunkError>(c.objects@.len() as usize) && match stored_chunk(
                    final(self).chunks(),
                    coordinates,
                ) {
                    Some(c2) => c2.coordinates == coordinates && c2.objects@ == c.objects@.push(object),
                    None => false,
                },
            },
    {
        let ghost before = self.chunks();
        match self.find_chunk(coordinates) {
            Some(k) => {
                proof {
                    lemma_first_chunk_is(before, coordinates, k as int);
                }
                let index = self.chunk_map[k].add_object(object);
                proof {
                    let after = self.chunks();
                    assert(after == before.update(k as int, after[k as int]));
                    lemma_replace_chunk(before, after, coordinates, k as int, after[k as int]);
                }
                Ok(index)
            },
            None => {
                proof {
                    if exists|i: int| is_first_chunk(before, coordinates, i) {
                        let i = choose|i: int| is_first_chunk(before, coordinates, i);
                        assert(before[i].coordinates == coordinates);
                    }
                }
                Err(ChunkError::ChunkMissing)
            },
        }
    }
}

/// A chunk added with a range is what a lookup yields for every point inside
/// that range, when no earlier range contains the point.
pub proof fn lemma_added_chunk_resolves(
    before: Scene,
    after: Scene,
    chunk: Chunk,
    begin: Point2,
    end: Point2,
    p: Point2,
)
    requires
        chunk_added(before, after, chunk, begin, end),
        (ChunkCorners { begin, end, chunk: chunk.coordinates }).contains(p),
        forall|j: int| 0 <= j < before.corners().len() ==> !(#[trigger] before.corners()[j]).contains(p),
    ensures
        after.lookup(p) == Ok::<Chunk, ChunkError>(chunk),
{
    let s = after.corners();
    let n = before.corners().len() as int;
    assert forall|j: int| 0 <= j < n implies !(#[trigger] s[j]).contains(p) by {
        assert(s[j] == before.corners()[j]);
    }
    assert(is_first_range(s, p, n));
    lemma_first_range_is(s, p, n);
}

/// A point that no registered range contains resolves to no chunk.
pub proof fn lemma_outside_all_ranges(s: Scene, p: Point2)
    requires
        forall|j: int| 0 <= j < s.corners().len() ==> !(#[trigger] s.corners()[j]).contains(p),
    ensures
        s.lookup(p) == Err::<Chunk, ChunkError>(ChunkError::NoMatchingRange),
{
    assert(!exists|i: int| is_first_range(s.corners(), p, i));
}

/// Of two ranges that both contain a point, the later one never decides the
/// lookup: the range that does was registered no later than the earlier one.
pub proof fn lemma_first_inserted_wins(s: Scene, p: Point2, i: int, j: int)
    requires
        0 <= i < j < s.corners().len(),
        s.corners()[i].contains(p),
        s.corners()[j].contains(p),
    ensures
        first_range(s.corners(), p) is Some,
        first_range(s.corners(), p).unwrap() <= i,
        first_range(s.corners(), p).unwrap() != j,
{
    lemma_some_first_range(s.corners(), p, i);
    let k = choose|k: int| 0 <= k <= i && is_first_range(s.corners(), p, k);
    lemma_first_range_is(s.corners(), p, k);
}

/// Two chunks added in turn with ranges that both contain a point, where no
/// earlier range does: the lookup yields the chunk added first.
pub proof fn lemma_overlap_resolves_to_first(
    s0: Scene,
    s1: Scene,
    s2: Scene,
    a: Chunk,
    a_begin: Point2,
    a_end: Point2,
    b: Chunk,
    b_begin: Point2,
    b_end: Point2,
    p: Point2,
)
    requires
        chunk_added(s0, s1, a, a_begin, a_end),
        chunk_added(s1, s2, b, b_begin, b_end),
        a.coordinates != b.coordinates,
        (ChunkCorners { begin: a_begin, end: a_end, chunk: a.coordinates }).contains(p),
        (ChunkCorners { begin: b_begin, end: b_end, chunk: b.coordinates }).contains(p),
        forall|j: int| 0 <= j < s0.corners().len() ==> !(#[trigger] s0.corners()[j]).contains(p),
    ensures
        s2.lookup(p) == Ok::<Chunk, ChunkError>(a),
{
    let n = s0.corners().len() as int;
    let s = s2.corners();
    assert(s[n] == s1.corners()[n]);
    assert forall|j: int| 0 <= j < n implies !(#[trigger] s[j]).contains(p) by {
        assert(s[j] == s1.corners()[j]);
        assert(s1.corners()[j] == s0.corners()[j]);
    }
    assert(is_first_range(s, p, n));
    lemma_first_range_is(s, p, n);
    assert(stored_chunk(s2.chunks(), a.coordinates) == stored_chunk(s1.chunks(), a.coordinates));
}

/// The chunk under the camera depends on the x and z of its focus alone: the
/// height of the "at" point never changes it.
pub proof fn lemma_current_chunk_ignores_height(s1: Scene, s2: Scene)
    requires
        s1.chunks() == s2.chunks(),
        s1.corners() == s2.corners(),
        s1.camera.at.x == s2.camera.at.x,
        s1.camera.at.z == s2.camera.at.z,
    ensures
        s1.current_lookup() == s2.current_lookup(),
{
    assert(s1.focus() == s2.focus());
}

} // verus!
