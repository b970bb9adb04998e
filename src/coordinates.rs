//! Strongly typed coordinate wrappers for positions in the voxel world, and
//! the chunk size constants.

use vstd::prelude::*;

verus! {

/// Length of a side of a chunk in blocks.
pub const CHUNK_DIM: i32 = 32;

/// Length of a side of a chunk in blocks.
pub const CHUNK_DIMZ: usize = 32;

/// Number of blocks on the face of a chunk.
pub const CHUNK_DIM2: i32 = 1024;

/// Number of blocks on the face of a chunk.
pub const CHUNK_DIM2Z: usize = 1024;

/// Number of blocks in the volume of a chunk.
pub const CHUNK_DIM3: i32 = 32768;

/// Number of blocks in the volume of a chunk.
pub const CHUNK_DIM3Z: usize = 32768;

/// A vector of three signed integers.
#[derive(Copy, Clone, PartialEq, Eq, Structural, Hash, Debug, Default)]
pub struct Vec3i {
    pub x: i32,
    pub y: i32,
    pub z: i32,
}

impl Vec3i {
    /// The vector `(x, y, z)`.
    pub fn new(x: i32, y: i32, z: i32) -> (r: Self)
        ensures
            r == (Vec3i { x, y, z }),
    {
        Vec3i { x, y, z }
    }
}

/// Whether every component of `v` lies in `[0, CHUNK_DIM)`.
pub open spec fn in_chunk(v: Vec3i) -> bool {
    &&& 0 <= v.x < 32
    &&& 0 <= v.y < 32
    &&& 0 <= v.z < 32
}

/// The XZY-strided index of an in-chunk vector: X varies fastest, then Z, then Y.
pub open spec fn xzy_index(v: Vec3i) -> int {
    v.x + 32 * v.z + 1024 * v.y
}

/// The in-chunk vector at an XZY-strided index.
pub open spec fn xzy_vec(i: int) -> Vec3i {
    Vec3i { x: (i % 32) as i32, y: ((i / 1024) % 32) as i32, z: ((i / 32) % 32) as i32 }
}

/// The componentwise minimum.
pub open spec fn vec_min(a: Vec3i, b: Vec3i) -> Vec3i {
    Vec3i {
        x: if a.x <= b.x { a.x } else { b.x },
        y: if a.y <= b.y { a.y } else { b.y },
        z: if a.z <= b.z { a.z } else { b.z },
    }
}

/// The componentwise maximum.
pub open spec fn vec_max(a: Vec3i, b: Vec3i) -> Vec3i {
    Vec3i {
        x: if a.x >= b.x { a.x } else { b.x },
        y: if a.y >= b.y { a.y } else { b.y },
        z: if a.z >= b.z { a.z } else { b.z },
    }
}

/// The error of building an in-chunk position from a vector outside the chunk.
#[derive(Copy, Clone, PartialEq, Eq, Structural, Debug)]
pub struct InChunkVecError(pub Vec3i);

/// The error of building an in-chunk position from an index outside the chunk.
#[derive(Copy, Clone, PartialEq, Eq, Structural, Debug)]
pub struct InChunkIndexError(pub usize);

/// A block position inside a chunk, each component in `[0, CHUNK_DIM)`.
#[derive(Copy, Clone, PartialEq, Eq, Structural, Hash, Debug, Default)]
pub struct InChunkPos(Vec3i);

impl View for InChunkPos {
    type V = Vec3i;

    closed spec fn view(&self) -> Vec3i {
        self.0
    }
}

impl InChunkPos {
    /// Every position built by this module lies inside the chunk.
    pub open spec fn wf(self) -> bool {
        in_chunk(self@)
    }

    /// The position of an in-chunk vector.
    pub closed spec fn from_vec_spec(v: Vec3i) -> InChunkPos {
        InChunkPos(v)
    }

    /// The position with the given coordinates; fails iff a component is
    /// negative or at least `CHUNK_DIM`.
    pub fn try_from(value: Vec3i) -> (r: Result<InChunkPos, InChunkVecError>)
        ensures
            r is Ok <==> in_chunk(value),
            r is Ok ==> r->Ok_0@ == value && r->Ok_0.wf(),
            r is Err ==> r == Err::<InChunkPos, InChunkVecError>(InChunkVecError(value)),
    {
        if value.x < 0 || value.y < 0 || value.z < 0 || value.x >= CHUNK_DIM || value.y
            >= CHUNK_DIM || value.z >= CHUNK_DIM {
            Err(InChunkVecError(value))
        } else {
            Ok(InChunkPos(value))
        }
    }

    /// The coordinates.
    pub fn vec(self) -> (r: Vec3i)
        ensures
            r == self@,
    {
        self.0
    }

    /// Decodes an XZY-strided index into a chunk storage array; fails iff the
    /// index is at least `CHUNK_DIM3Z`.
    pub fn try_from_index(idx: usize) -> (r: Result<Self, InChunkIndexError>)
        ensures
            r is Ok <==> idx < CHUNK_DIM3Z,
            r is Ok ==> r->Ok_0@ == xzy_vec(idx as int) && r->Ok_0.wf() && xzy_index(r->Ok_0@)
                == idx,
            r is Err ==> r == Err::<Self, InChunkIndexError>(InChunkIndexError(idx)),
    {
        if idx >= CHUNK_DIM3Z {
            return Err(InChunkIndexError(idx));
        }
        let i: i32 = idx as i32;
        let p = InChunkPos(Vec3i { x: i % CHUNK_DIM, y: (i / CHUNK_DIM2) % CHUNK_DIM, z: (i / CHUNK_DIM) % CHUNK_DIM });
        proof {
            lemma_xzy_decode(i as int);
        }
        Ok(p)
    }

    /// The XZY-strided index of this position into a chunk storage array.
    pub fn as_index(self) -> (r: usize)
        requires
            self.wf(),
        ensures
            r as int == xzy_index(self@),
            r < CHUNK_DIM3Z,
    {
        (self.0.x + (CHUNK_DIM * self.0.z) + (CHUNK_DIM2 * self.0.y)) as usize
    }

    /// The componentwise sum, as a relative block position.
    pub fn add(self, rhs: InChunkPos) -> (r: RelBlockPos)
        requires
            self.wf(),
            rhs.wf(),
        ensures
            r@ == (Vec3i { x: (self@.x + rhs@.x) as i32, y: (self@.y + rhs@.y) as i32, z: (self@.z + rhs@.z) as i32 }),
    {
        RelBlockPos(Vec3i { x: self.0.x + rhs.0.x, y: self.0.y + rhs.0.y, z: self.0.z + rhs.0.z })
    }
}

/// Decoding an index below `CHUNK_DIM3` gives an in-chunk vector whose index
/// is that index.
proof fn lemma_xzy_decode(i: int)
    requires
        0 <= i < 32768,
    ensures
        in_chunk(xzy_vec(i)),
        xzy_index(xzy_vec(i)) == i,
{
    let x = i % 32;
    let z = (i / 32) % 32;
    let y = (i / 1024) % 32;
    assert(i / 1024 < 32);
    assert((i / 32) / 32 == i / 1024) by (nonlinear_arith)
        requires
            0 <= i,
    ;
    assert(i == x + 32 * (i / 32)) by (nonlinear_arith)
        requires
            x == i % 32,
    ;
    assert(i / 32 == z + 32 * (i / 1024)) by (nonlinear_arith)
        requires
            z == (i / 32) % 32,
            (i / 32) / 32 == i / 1024,
    ;
}

/// For every in-chunk position, decoding its index gives the position back.
pub proof fn lemma_index_round_trip(p: InChunkPos)
    requires
        p.wf(),
    ensures
        xzy_vec(xzy_index(p@)) == p@,
        InChunkPos::from_vec_spec(xzy_vec(xzy_index(p@))) == p,
{
    let v = p@;
    let i = xzy_index(v);
    assert(i % 32 == v.x && (i / 32) % 32 == v.z && (i / 1024) % 32 == v.y) by (nonlinear_arith)
        requires
            i == v.x + 32 * v.z + 1024 * v.y,
            0 <= v.x < 32,
            0 <= v.y < 32,
            0 <= v.z < 32,
    ;
}

/// A box of block positions inside a chunk, with inclusive bounds.
#[derive(Copy, Clone, PartialEq, Eq, Structural, Hash, Debug, Default)]
pub struct InChunkRange {
    min: InChunkPos,
    max: InChunkPos,
}

impl View for InChunkRange {
    type V = (Vec3i, Vec3i);

    closed spec fn view(&self) -> (Vec3i, Vec3i) {
        (self.min@, self.max@)
    }
}

/// The number of positions of the inclusive box from `lo` to `hi`, along each axis.
pub open spec fn span(lo: i32, hi: i32) -> int {
    hi - lo + 1
}

/// Where the cell at offsets `(y, z, x)` from the corner `lo` comes in a walk
/// of the box from `lo` to `hi` in Y-outer, Z-middle, X-inner order.
pub open spec fn box_pos_at(lo: Vec3i, hi: Vec3i, y: int, z: int, x: int) -> int {
    (y * span(lo.z, hi.z) + z) * span(lo.x, hi.x) + x
}

impl InChunkRange {
    /// Both corners lie in the chunk and `min <= max` componentwise.
    pub open spec fn wf(self) -> bool {
        &&& in_chunk(self@.0)
        &&& in_chunk(self@.1)
        &&& self@.0.x <= self@.1.x
        &&& self@.0.y <= self@.1.y
        &&& self@.0.z <= self@.1.z
    }

    /// The range spanned by two arbitrary corners.
    pub fn from_corners(a: InChunkPos, b: InChunkPos) -> (r: Self)
        requires
            a.wf(),
            b.wf(),
        ensures
            r@ == (vec_min(a@, b@), vec_max(a@, b@)),
            r.wf(),
    {
        let lo = Vec3i {
            x: if a.0.x <= b.0.x { a.0.x } else { b.0.x },
            y: if a.0.y <= b.0.y { a.0.y } else { b.0.y },
            z: if a.0.z <= b.0.z { a.0.z } else { b.0.z },
        };
        let hi = Vec3i {
            x: if a.0.x >= b.0.x { a.0.x } else { b.0.x },
            y: if a.0.y >= b.0.y { a.0.y } else { b.0.y },
            z: if a.0.z >= b.0.z { a.0.z } else { b.0.z },
        };
        InChunkRange { min: InChunkPos(lo), max: InChunkPos(hi) }
    }

    /// Whether the range holds no position, that is, whether `min > max` on
    /// some axis. A range with `min == max` on an axis is one block thick
    /// there, not empty.
    pub fn is_empty(self) -> (r: bool)
        ensures
            r == (self@.0.x > self@.1.x || self@.0.y > self@.1.y || self@.0.z > self@.1.z),
    {
        self.min.0.x > self.max.0.x || self.min.0.y > self.max.0.y || self.min.0.z > self.max.0.z
    }

    /// The lower corner.
    pub fn min(self) -> (r: InChunkPos)
        ensures
            r@ == self@.0,
    {
        self.min
    }

    /// The upper corner.
    pub fn max(self) -> (r: InChunkPos)
        ensures
            r@ == self@.1,
    {
        self.max
    }

    /// Every position of the range, Y outermost, then Z, X innermost: the
    /// order of the chunk storage arrays.
    pub fn iter_xzy(self) -> (r: Vec<InChunkPos>)
        requires
            self.wf(),
        ensures
            r@.len() == span(self@.0.x, self@.1.x) * span(self@.0.y, self@.1.y) * span(
                self@.0.z,
                self@.1.z,
            ),
            forall|y: int, z: int, x: int|
                0 <= y < span(self@.0.y, self@.1.y) && 0 <= z < span(self@.0.z, self@.1.z) && 0
                    <= x < span(self@.0.x, self@.1.x) ==> (#[trigger] r@[box_pos_at(
                    self@.0,
                    self@.1,
                    y,
                    z,
                    x,
                )])@ == (Vec3i {
                    x: (self@.0.x + x) as i32,
                    y: (self@.0.y + y) as i32,
                    z: (self@.0.z + z) as i32,
                }),
    {
        let lo = self.min.0;
        let hi = self.max.0;
        let ghost sx = span(lo.x, hi.x);
        let ghost sz = span(lo.z, hi.z);
        let ghost sy = span(lo.y, hi.y);
        let mut out: Vec<InChunkPos> = Vec::new();
        let mut y: i32 = lo.y;
        assert((y - lo.y) * sz * sx == 0) by (nonlinear_arith)
            requires
                y == lo.y,
        ;
        while y <= hi.y
            invariant
                in_chunk(lo),
                in_chunk(hi),
                lo.x <= hi.x,
                lo.y <= hi.y,
                lo.z <= hi.z,
                sx == span(lo.x, hi.x),
                sz == span(lo.z, hi.z),
                sy == span(lo.y, hi.y),
                lo.y <= y <= hi.y + 1,
                out@.len() == (y - lo.y) * sz * sx,
                forall|yy: int, zz: int, xx: int|
                    0 <= yy < y - lo.y && 0 <= zz < sz && 0 <= xx < sx ==> (#[trigger] out@[box_pos_at(
                        lo,
                        hi,
                        yy,
                        zz,
                        xx,
                    )])@ == (Vec3i {
                        x: (lo.x + xx) as i32,
                        y: (lo.y + yy) as i32,
                        z: (lo.z + zz) as i32,
                    }),
            decreases hi.y + 1 - y,
        {
            let mut z: i32 = lo.z;
            while z <= hi.z
                invariant
                    in_chunk(lo),
                    in_chunk(hi),
                    lo.x <= hi.x,
                    lo.y <= y <= hi.y,
                    lo.z <= hi.z,
                    sx == span(lo.x, hi.x),
                    sz == span(lo.z, hi.z),
                    lo.z <= z <= hi.z + 1,
                    out@.len() == ((y - lo.y) * sz + (z - lo.z)) * sx,
                    forall|yy: int, zz: int, xx: int|
                        0 <= yy <= y - lo.y && 0 <= zz < sz && 0 <= xx < sx && (yy < y - lo.y
                            || (yy == y - lo.y && zz < z - lo.z)) ==> (#[trigger] out@[box_pos_at(
                            lo,
                            hi,
                            yy,
                            zz,
                            xx,
                        )])@ == (Vec3i {
                            x: (lo.x + xx) as i32,
                            y: (lo.y + yy) as i32,
                            z: (lo.z + zz) as i32,
                        }),
                decreases hi.z + 1 - z,
            {
                let mut x: i32 = lo.x;
                while x <= hi.x
                    invariant
                        in_chunk(lo),
                        in_chunk(hi),
                        lo.x <= hi.x,
                        lo.y <= y <= hi.y,
                        lo.z <= z <= hi.z,
                        sx == span(lo.x, hi.x),
                        sz == span(lo.z, hi.z),
                        lo.x <= x <= hi.x + 1,
                        out@.len() == ((y - lo.y) * sz + (z - lo.z)) * sx + (x - lo.x),
                        forall|yy: int, zz: int, xx: int|
                            0 <= yy <= y - lo.y && 0 <= zz < sz && 0 <= xx < sx && (yy < y
                                - lo.y || (yy == y - lo.y && zz < z - lo.z) || (yy == y - lo.y
                                && zz == z - lo.z && xx < x - lo.x)) ==> (#[trigger] out@[box_pos_at(
                                lo,
                                hi,
                                yy,
                                zz,
                                xx,
                            )])@ == (Vec3i {
                                x: (lo.x + xx) as i32,
                                y: (lo.y + yy) as i32,
                                z: (lo.z + zz) as i32,
                            }),
                    decreases hi.x + 1 - x,
                {
                    let ghost before = out@;
                    out.push(InChunkPos(Vec3i { x, y, z }));
                    proof {
                        assert forall|yy: int, zz: int, xx: int|
                            0 <= yy <= y - lo.y && 0 <= zz < sz && 0 <= xx < sx && (yy < y
                                - lo.y || (yy == y - lo.y && zz < z - lo.z) || (yy == y - lo.y
                                && zz == z - lo.z && xx < x + 1 - lo.x)) implies (#[trigger] out@[box_pos_at(
                                lo,
                                hi,
                                yy,
                                zz,
                                xx,
                            )])@ == (Vec3i {
                                x: (lo.x + xx) as i32,
                                y: (lo.y + yy) as i32,
                                z: (lo.z + zz) as i32,
                            }) by {
                            lemma_box_pos_order(sz, sx, y - lo.y, z - lo.z, x - lo.x, yy, zz, xx);
                            if yy < y - lo.y || (yy == y - lo.y && zz < z - lo.z) || (yy == y
                                - lo.y && zz == z - lo.z && xx < x - lo.x) {
                                assert(out@[box_pos_at(lo, hi, yy, zz, xx)] == before[box_pos_at(lo, hi, yy, zz, xx)]);
                            }
                        }
                    }
                    x = x + 1;
                }
                proof {
                    assert(((y - lo.y) * sz + (z - lo.z)) * sx + sx == ((y - lo.y) * sz + (z + 1 - lo.z)) * sx) by (nonlinear_arith);
                }
                z = z + 1;
            }
            proof {
                assert(((y - lo.y) * sz + sz) * sx == (y + 1 - lo.y) * sz * sx) by (nonlinear_arith);
            }
            y = y + 1;
        }
        proof {
            assert(sy * sz * sx == sx * sy * sz) by (nonlinear_arith);
        }
        out
    }
}

/// Where the cell `(yy, zz, xx)` stands among the cells written so far, the
/// current one being `(y, z, x)`: before it when it comes earlier in
/// Y-outer, Z-middle, X-inner order, and at it when it is the same cell.
proof fn lemma_box_pos_order(sz: int, sx: int, y: int, z: int, x: int, yy: int, zz: int, xx: int)
    requires
        0 < sz,
        0 < sx,
        0 <= y,
        0 <= z < sz,
        0 <= x < sx,
        0 <= yy <= y,
        0 <= zz < sz,
        0 <= xx < sx,
        yy < y || (yy == y && zz < z) || (yy == y && zz == z && xx <= x),
    ensures
        0 <= (yy * sz + zz) * sx + xx <= (y * sz + z) * sx + x,
        (yy * sz + zz) * sx + xx == (y * sz + z) * sx + x ==> yy == y && zz == z && xx == x,
{
    assert(0 <= (yy * sz + zz) * sx + xx) by (nonlinear_arith)
        requires
            0 < sz,
            0 < sx,
            0 <= yy,
            0 <= zz,
            0 <= xx,
    ;
    if yy < y {
        assert((yy * sz + zz) * sx + xx < (y * sz) * sx) by (nonlinear_arith)
            requires
                0 < sz,
                0 < sx,
                yy < y,
                0 <= zz < sz,
                0 <= xx < sx,
        ;
        assert((y * sz) * sx <= (y * sz + z) * sx + x) by (nonlinear_arith)
            requires
                0 < sx,
                0 <= z,
                0 <= x,
        ;
    } else if zz < z {
        assert(yy == y);
        assert((yy * sz + zz) * sx + xx < (y * sz + z) * sx) by (nonlinear_arith)
            requires
                yy == y,
                0 < sx,
                zz < z,
                0 <= xx < sx,
        ;
    } else {
        assert(yy == y && zz == z);
    }
}

/// An absolute chunk position in a voxel world.
#[derive(Copy, Clone, PartialEq, Eq, Structural, Hash, Debug, Default)]
pub struct AbsChunkPos(Vec3i);

/// A chunk position relative to another chunk position.
#[derive(Copy, Clone, PartialEq, Eq, Structural, Hash, Debug, Default)]
pub struct RelChunkPos(Vec3i);

/// An absolute block position in a voxel world.
#[derive(Copy, Clone, PartialEq, Eq, Structural, Hash, Debug, Default)]
pub struct AbsBlockPos(Vec3i);

/// A block position relative to another block position.
#[derive(Copy, Clone, PartialEq, Eq, Structural, Hash, Debug, Default)]
pub struct RelBlockPos(Vec3i);

impl View for AbsChunkPos {
    type V = Vec3i;

    closed spec fn view(&self) -> Vec3i {
        self.0
    }
}

impl View for RelChunkPos {
    type V = Vec3i;

    closed spec fn view(&self) -> Vec3i {
        self.0
    }
}

impl View for AbsBlockPos {
    type V = Vec3i;

    closed spec fn view(&self) -> Vec3i {
        self.0
    }
}

impl View for RelBlockPos {
    type V = Vec3i;

    closed spec fn view(&self) -> Vec3i {
        self.0
    }
}

impl From<Vec3i> for AbsChunkPos {
    fn from(value: Vec3i) -> (r: Self) {
        AbsChunkPos(value)
    }
}

impl vstd::std_specs::convert::FromSpecImpl<Vec3i> for AbsChunkPos {
    open spec fn obeys_from_spec() -> bool {
        true
    }

    closed spec fn from_spec(v: Vec3i) -> Self {
        AbsChunkPos(v)
    }
}

impl From<AbsChunkPos> for Vec3i {
    fn from(value: AbsChunkPos) -> (r: Self) {
        value.0
    }
}

impl vstd::std_specs::convert::FromSpecImpl<AbsChunkPos> for Vec3i {
    open spec fn obeys_from_spec() -> bool {
        true
    }

    open spec fn from_spec(v: AbsChunkPos) -> Self {
        v@
    }
}

impl From<Vec3i> for RelChunkPos {
    fn from(value: Vec3i) -> (r: Self) {
        RelChunkPos(value)
    }
}

impl vstd::std_specs::convert::FromSpecImpl<Vec3i> for RelChunkPos {
    open spec fn obeys_from_spec() -> bool {
        true
    }

    closed spec fn from_spec(v: Vec3i) -> Self {
        RelChunkPos(v)
    }
}

impl From<RelChunkPos> for Vec3i {
    fn from(value: RelChunkPos) -> (r: Self) {
        value.0
    }
}

impl vstd::std_specs::convert::FromSpecImpl<RelChunkPos> for Vec3i {
    open spec fn obeys_from_spec() -> bool {
        true
    }

    open spec fn from_spec(v: RelChunkPos) -> Self {
        v@
    }
}

impl From<Vec3i> for AbsBlockPos {
    fn from(value: Vec3i) -> (r: Self) {
        AbsBlockPos(value)
    }
}

impl vstd::std_specs::convert::FromSpecImpl<Vec3i> for AbsBlockPos {
    open spec fn obeys_from_spec() -> bool {
        true
    }

    closed spec fn from_spec(v: Vec3i) -> Self {
        AbsBlockPos(v)
    }
}

impl From<AbsBlockPos> for Vec3i {
    fn from(value: AbsBlockPos) -> (r: Self) {
        value.0
    }
}

impl vstd::std_specs::convert::FromSpecImpl<AbsBlockPos> for Vec3i {
    open spec fn obeys_from_spec() -> bool {
        true
    }

    open spec fn from_spec(v: AbsBlockPos) -> Self {
        v@
    }
}

impl From<Vec3i> for RelBlockPos {
    fn from(value: Vec3i) -> (r: Self) {
        RelBlockPos(value)
    }
}

impl vstd::std_specs::convert::FromSpecImpl<Vec3i> for RelBlockPos {
    open spec fn obeys_from_spec() -> bool {
        true
    }

    closed spec fn from_spec(v: Vec3i) -> Self {
        RelBlockPos(v)
    }
}

impl From<RelBlockPos> for Vec3i {
    fn from(value: RelBlockPos) -> (r: Self) {
        value.0
    }
}

impl vstd::std_specs::convert::FromSpecImpl<RelBlockPos> for Vec3i {
    open spec fn obeys_from_spec() -> bool {
        true
    }

    open spec fn from_spec(v: RelBlockPos) -> Self {
        v@
    }
}

impl From<InChunkPos> for Vec3i {
    fn from(value: InChunkPos) -> (r: Self) {
        value.0
    }
}

impl vstd::std_specs::convert::FromSpecImpl<InChunkPos> for Vec3i {
    open spec fn obeys_from_spec() -> bool {
        true
    }

    open spec fn from_spec(v: InChunkPos) -> Self {
        v@
    }
}

} // verus!
