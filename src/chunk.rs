//! Chunk storage: a palette-compressed store of block identifiers whose index
//! width grows with the number of distinct values, and an array store of
//! light levels. Both collapse to a single value for homogeneous chunks.

use vstd::prelude::*;

use crate::coordinates::CHUNK_DIM3Z;
use crate::voxeltypes::BlockId;

verus! {

/// A value that chunk storage can hold: a copyable value that can be
/// compared with another one.
pub trait PaletteValue: Copy {
    /// Whether the two values are equal.
    fn same_as(&self, other: &Self) -> (r: bool)
        ensures
            r == (*self == *other),
    ;
}

/// An unsigned integer type used to index a palette.
pub trait PaletteIndex: Copy {
    /// The palette position this index stands for.
    spec fn index_spec(&self) -> nat;

    /// How many distinct positions the type can express.
    spec fn limit() -> nat;

    /// The position as a `usize`.
    fn to_usize(&self) -> (r: usize)
        ensures
            r as nat == self.index_spec(),
            (r as nat) < Self::limit(),
    ;

    /// The index of position `i`.
    fn from_usize(i: usize) -> (r: Self)
        requires
            (i as nat) < Self::limit(),
        ensures
            r.index_spec() == i as nat,
    ;
}

impl PaletteIndex for u8 {
    open spec fn index_spec(&self) -> nat {
        *self as nat
    }

    open spec fn limit() -> nat {
        256
    }

    fn to_usize(&self) -> (r: usize) {
        *self as usize
    }

    fn from_usize(i: usize) -> (r: Self) {
        i as u8
    }
}

impl PaletteIndex for u16 {
    open spec fn index_spec(&self) -> nat {
        *self as nat
    }

    open spec fn limit() -> nat {
        65536
    }

    fn to_usize(&self) -> (r: usize) {
        *self as usize
    }

    fn from_usize(i: usize) -> (r: Self) {
        i as u16
    }
}

/// The light level of a block.
#[derive(Copy, Clone, Default, PartialEq, Eq, Structural, PartialOrd, Ord, Hash, Debug)]
pub struct BlockLight(u16);

impl View for BlockLight {
    type V = u16;

    closed spec fn view(&self) -> u16 {
        self.0
    }
}

impl BlockLight {
    /// The light level `level`.
    pub fn new(level: u16) -> (r: Self)
        ensures
            r@ == level,
    {
        BlockLight(level)
    }

    /// The raw light level.
    pub fn level(self) -> (r: u16)
        ensures
            r == self@,
    {
        self.0
    }
}

impl PaletteValue for BlockLight {
    fn same_as(&self, other: &Self) -> (r: bool) {
        self.0 == other.0
    }
}

impl PaletteValue for BlockId {
    fn same_as(&self, other: &Self) -> (r: bool) {
        *self == *other
    }
}

/// The number of cells of a chunk, as a spec value.
pub open spec fn cells() -> nat {
    CHUNK_DIM3Z as nat
}

/// A palette of distinct values and one palette index per cell of a chunk.
#[derive(Clone, PartialEq, Eq)]
pub struct PaletteStorage<DataType, IndexType> {
    palette: Vec<DataType>,
    data: Vec<IndexType>,
}

/// Palette storage for at most 16 distinct values.
pub type PaletteStorage16<T> = PaletteStorage<T, u8>;

/// Palette storage for at most 256 distinct values.
pub type PaletteStorage256<T> = PaletteStorage<T, u8>;

/// Palette storage for at most 32768 distinct values.
pub type PaletteStorage32k<T> = PaletteStorage<T, u16>;

impl<T, I: PaletteIndex> View for PaletteStorage<T, I> {
    type V = Seq<T>;

    /// The value of each cell.
    closed spec fn view(&self) -> Seq<T> {
        Seq::new(cells(), |i: int| self.palette@[self.data@[i].index_spec() as int])
    }
}

impl<T: PaletteValue, I: PaletteIndex> PaletteStorage<T, I> {
    /// The distinct values, in order of first use.
    pub closed spec fn palette(&self) -> Seq<T> {
        self.palette@
    }

    /// One index per cell, each pointing into a non-empty palette of distinct
    /// values that the index type can address.
    pub closed spec fn wf(&self) -> bool {
        &&& self.data@.len() == cells()
        &&& 1 <= self.palette@.len() <= I::limit()
        &&& forall|i: int| 0 <= i < cells() ==> (#[trigger] self.data@[i]).index_spec() < self.palette@.len()
        &&& forall|i: int, j: int|
            0 <= i < j < self.palette@.len() ==> self.palette@[i] != self.palette@[j]
    }

    /// Storage in which every cell holds `value`.
    pub fn new_filled(value: T) -> (r: Self)
        requires
            1 <= I::limit(),
        ensures
            r.wf(),
            r@ == Seq::new(cells(), |i: int| value),
            r.palette() == seq![value],
    {
        let mut palette: Vec<T> = Vec::new();
        palette.push(value);
        let mut data: Vec<I> = Vec::new();
        let zero = I::from_usize(0);
        while data.len() < CHUNK_DIM3Z
            invariant
                data@.len() <= cells(),
                zero.index_spec() == 0,
                forall|i: int| 0 <= i < data@.len() ==> #[trigger] data@[i] == zero,
            decreases cells() - data@.len(),
        {
            data.push(zero);
        }
        let r = PaletteStorage { palette, data };
        assert(r@ =~= Seq::new(cells(), |i: int| value));
        r
    }

    /// The number of distinct values in the palette.
    pub fn palette_len(&self) -> (r: usize)
        ensures
            r == self.palette().len(),
    {
        self.palette.len()
    }

    /// The value of cell `index`.
    pub fn get(&self, index: usize) -> (r: T)
        requires
            self.wf(),
            index < CHUNK_DIM3Z,
        ensures
            r == self@[index as int],
    {
        let k = self.data[index].to_usize();
        self.palette[k]
    }

    /// The palette position of `value`, if it is there.
    pub fn find(&self, value: &T) -> (r: Option<usize>)
        ensures
            r is None <==> !self.palette().contains(*value),
            r is Some ==> r->Some_0 < self.palette().len() && self.palette()[r->Some_0 as int]
                == *value,
    {
        let mut k: usize = 0;
        while k < self.palette.len()
            invariant
                k <= self.palette@.len(),
                forall|j: int| 0 <= j < k ==> self.palette@[j] != *value,
            decreases self.palette@.len() - k,
        {
            if self.palette[k].same_as(value) {
                return Some(k);
            }
            k = k + 1;
        }
        None
    }

    /// Sets cell `index` to `value` when the palette has room for it, that is
    /// when `value` is in the palette already or the palette holds fewer than
    /// `capacity` values. Otherwise leaves the storage unchanged and returns
    /// false.
    pub fn try_set(&mut self, index: usize, value: T, capacity: usize) -> (r: bool)
        requires
            old(self).wf(),
            index < CHUNK_DIM3Z,
            capacity as nat <= I::limit(),
        ensures
            r == (old(self).palette().contains(value) || old(self).palette().len() < capacity),
            !r ==> *final(self) == *old(self),
            r ==> final(self).wf() && final(self)@ == old(self)@.update(index as int, value)
                && final(self).palette() == (if old(self).palette().contains(value) {
                old(self).palette()
            } else {
                old(self).palette().push(value)
            }),
    {
        let k = match self.find(&value) {
            Some(k) => k,
            None => {
                if self.palette.len() >= capacity {
                    return false;
                }
                self.palette.push(value);
                proof {
                    assert(self.palette@[self.palette@.len() - 1] == value);
                }
                self.palette.len() - 1
            },
        };
        self.data.set(index, I::from_usize(k));
        proof {
            assert forall|i: int, j: int|
                0 <= i < j < self.palette@.len() implies self.palette@[i] != self.palette@[j] by {
                if j == old(self).palette@.len() {
                    assert(old(self).palette@[i] == self.palette@[i]);
                }
            }
            assert forall|i: int| 0 <= i < cells() implies (#[trigger] self.data@[i]).index_spec() < self.palette@.len() by {
                if i != index {
                    assert(self.data@[i] == old(self).data@[i]);
                }
            }
            assert forall|i: int| 0 <= i < cells() implies #[trigger] self@[i] == old(self)@.update(index as int, value)[i] by {
                if i != index {
                    assert(self.data@[i] == old(self).data@[i]);
                    assert(self.palette@[old(self).data@[i].index_spec() as int] == old(self).palette@[old(self).data@[i].index_spec() as int]);
                }
            }
            assert(self@ =~= old(self)@.update(index as int, value));
        }
        true
    }

    /// The same cells and palette, with the index type `J`.
    pub fn widen<J: PaletteIndex>(self) -> (r: PaletteStorage<T, J>)
        requires
            self.wf(),
            self.palette().len() <= J::limit(),
        ensures
            r.wf(),
            r@ == self@,
            r.palette() == self.palette(),
    {
        let mut data: Vec<J> = Vec::new();
        let mut i: usize = 0;
        while i < CHUNK_DIM3Z
            invariant
                self.wf(),
                self.palette().len() <= J::limit(),
                i <= cells(),
                data@.len() == i,
                forall|j: int| 0 <= j < i ==> (#[trigger] data@[j]).index_spec() == self.data@[j].index_spec(),
            decreases cells() - i,
        {
            let k = self.data[i].to_usize();
            data.push(J::from_usize(k));
            i = i + 1;
        }
        let r = PaletteStorage { palette: self.palette, data };
        assert(r@ =~= self@);
        r
    }
}

/// How many distinct values each tier holds: the singleton, then the 16-,
/// 256- and 32768-entry palettes.
pub open spec fn tier_capacity(tier: nat) -> nat {
    if tier == 0 {
        1
    } else if tier == 1 {
        16
    } else if tier == 2 {
        256
    } else {
        32768
    }
}

/// The error of writing a new value into storage whose largest palette is full.
#[derive(Copy, Clone, PartialEq, Eq, Structural, Debug)]
pub struct PaletteFullError;

/// The block storage of a chunk: one value for a homogeneous chunk, or a
/// palette storage whose capacity grows as distinct values are written.
#[derive(Clone, PartialEq, Eq)]
pub enum PaletteData<T> {
    Singleton(T),
    Type16(Box<PaletteStorage16<T>>),
    Type256(Box<PaletteStorage256<T>>),
    Type32k(Box<PaletteStorage32k<T>>),
}

impl<T: PaletteValue> View for PaletteData<T> {
    type V = Seq<T>;

    /// The value of each cell.
    open spec fn view(&self) -> Seq<T> {
        match self {
            PaletteData::Singleton(v) => Seq::new(cells(), |i: int| *v),
            PaletteData::Type16(s) => s@,
            PaletteData::Type256(s) => s@,
            PaletteData::Type32k(s) => s@,
        }
    }
}

impl<T: PaletteValue> PaletteData<T> {
    /// The tier: 0 for a singleton, then 1, 2 and 3 for the 16-, 256- and
    /// 32768-entry palettes.
    pub open spec fn tier(&self) -> nat {
        match self {
            PaletteData::Singleton(_) => 0,
            PaletteData::Type16(_) => 1,
            PaletteData::Type256(_) => 2,
            PaletteData::Type32k(_) => 3,
        }
    }

    /// The distinct values that the storage has been given, in order of first use.
    pub open spec fn palette(&self) -> Seq<T> {
        match self {
            PaletteData::Singleton(v) => seq![*v],
            PaletteData::Type16(s) => s.palette(),
            PaletteData::Type256(s) => s.palette(),
            PaletteData::Type32k(s) => s.palette(),
        }
    }

    /// Each palette storage is well formed and within its tier's capacity.
    pub open spec fn wf(&self) -> bool {
        match self {
            PaletteData::Singleton(_) => true,
            PaletteData::Type16(s) => s.wf() && s.palette().len() <= 16,
            PaletteData::Type256(s) => s.wf() && s.palette().len() <= 256,
            PaletteData::Type32k(s) => s.wf() && s.palette().len() <= 32768,
        }
    }

    /// Whether a write of `value` has room: `value` is in the palette already,
    /// or the largest palette is not full.
    pub open spec fn has_room_for(&self, value: T) -> bool {
        self.palette().contains(value) || self.palette().len() < 32768
    }

    /// Storage in which every cell holds `value`.
    pub fn new(value: T) -> (r: Self)
        ensures
            r.wf(),
            r@ == Seq::new(cells(), |i: int| value),
            r.tier() == 0,
            r.palette() == seq![value],
    {
        PaletteData::Singleton(value)
    }

    /// The value of cell `index`.
    pub fn get(&self, index: usize) -> (r: T)
        requires
            self.wf(),
            index < CHUNK_DIM3Z,
        ensures
            r == self@[index as int],
    {
        match self {
            PaletteData::Singleton(v) => *v,
            PaletteData::Type16(s) => s.get(index),
            PaletteData::Type256(s) => s.get(index),
            PaletteData::Type32k(s) => s.get(index),
        }
    }

    /// The tier of this storage; see `tier`.
    pub fn tier_index(&self) -> (r: usize)
        ensures
            r == self.tier(),
    {
        match self {
            PaletteData::Singleton(_) => 0,
            PaletteData::Type16(_) => 1,
            PaletteData::Type256(_) => 2,
            PaletteData::Type32k(_) => 3,
        }
    }

    /// Consumes the storage and returns it with cell `index` set to `value`,
    /// moving to the next tier when the palette is full; see `set`.
    pub fn with_set(self, index: usize, value: T) -> (r: (Self, Result<(), PaletteFullError>))
        requires
            self.wf(),
            index < CHUNK_DIM3Z,
        ensures
            r.0.wf(),
            r.1 is Ok <==> self.has_room_for(value),
            r.1 is Err ==> r.0 == self,
            r.1 is Ok ==> r.0@ == self@.update(index as int, value) && r.0.palette() == (if self.palette().contains(value) {
                self.palette()
            } else {
                self.palette().push(value)
            }) && r.0.tier() == (if r.0.palette().len() <= tier_capacity(self.tier()) {
                self.tier()
            } else {
                self.tier() + 1
            }),
    {
        match self {
            PaletteData::Singleton(v) => {
                if v.same_as(&value) {
                    assert(seq![v][0] == value);
                    assert(Seq::new(cells(), |i: int| v) =~= Seq::new(cells(), |i: int| v).update(index as int, value));
                    (PaletteData::Singleton(v), Ok(()))
                } else {
                    let mut s = PaletteStorage16::<T>::new_filled(v);
                    let added = s.try_set(index, value, 16);
                    assert(added);
                    proof {
                        assert(!seq![v].contains(value)) by {
                            if seq![v].contains(value) {
                                let k = choose|k: int| 0 <= k < 1 && seq![v][k] == value;
                                assert(k == 0);
                            }
                        }
                        assert(s.palette() =~= seq![v].push(value));
                    }
                    (PaletteData::Type16(Box::new(s)), Ok(()))
                }
            },
            PaletteData::Type16(b) => {
                let mut s = *b;
                if s.try_set(index, value, 16) {
                    (PaletteData::Type16(Box::new(s)), Ok(()))
                } else {
                    let added = s.try_set(index, value, 256);
                    assert(added);
                    (PaletteData::Type256(Box::new(s)), Ok(()))
                }
            },
            PaletteData::Type256(b) => {
                let mut s = *b;
                if s.try_set(index, value, 256) {
                    (PaletteData::Type256(Box::new(s)), Ok(()))
                } else {
                    let mut w = s.widen::<u16>();
                    let added = w.try_set(index, value, 32768);
                    assert(added);
                    (PaletteData::Type32k(Box::new(w)), Ok(()))
                }
            },
            PaletteData::Type32k(b) => {
                let mut s = *b;
                if s.try_set(index, value, 32768) {
                    (PaletteData::Type32k(Box::new(s)), Ok(()))
                } else {
                    (PaletteData::Type32k(Box::new(s)), Err(PaletteFullError))
                }
            },
        }
    }

    /// Sets cell `index` to `value`. A singleton turns into a 16-entry palette
    /// when a second distinct value arrives, and a full palette is moved to the
    /// next larger tier before the new value is added; every other cell keeps
    /// its value. Fails, leaving the storage unchanged, only when the largest
    /// palette is full and does not hold `value`.
    pub fn set(&mut self, index: usize, value: T) -> (r: Result<(), PaletteFullError>)
        requires
            old(self).wf(),
            index < CHUNK_DIM3Z,
        ensures
            final(self).wf(),
            r is Ok <==> old(self).has_room_for(value),
            r is Err ==> *final(self) == *old(self),
            r is Ok ==> final(self)@ == old(self)@.update(index as int, value) && final(self).palette() == (if old(self).palette().contains(value) {
                old(self).palette()
            } else {
                old(self).palette().push(value)
            }) && final(self).tier() == (if final(self).palette().len() <= tier_capacity(
                old(self).tier(),
            ) {
                old(self).tier()
            } else {
                old(self).tier() + 1
            }),
    {
        let mut taken = PaletteData::Singleton(value);
        core::mem::swap(self, &mut taken);
        let (next, r) = taken.with_set(index, value);
        *self = next;
        r
    }
}

/// After any sequence of writes, each cell holds the value of the last write
/// to it, or its first value if it was never written; tier changes along the
/// way do not matter, since `set` states its effect on the cells alone.
pub open spec fn after_writes<T>(cells: Seq<T>, writes: Seq<(int, T)>) -> Seq<T>
    decreases writes.len(),
{
    if writes.len() == 0 {
        cells
    } else {
        after_writes(cells, writes.drop_last()).update(writes.last().0, writes.last().1)
    }
}

/// The value of cell `i` after the writes: that of the last write to `i`, if any.
pub open spec fn last_write<T>(cells: Seq<T>, writes: Seq<(int, T)>, i: int) -> T
    decreases writes.len(),
{
    if writes.len() == 0 {
        cells[i]
    } else if writes.last().0 == i {
        writes.last().1
    } else {
        last_write(cells, writes.drop_last(), i)
    }
}

/// A read after any sequence of writes returns the most recently written value
/// of that cell, or its original value if no write touched it.
pub proof fn lemma_read_after_writes<T>(cells: Seq<T>, writes: Seq<(int, T)>, i: int)
    requires
        0 <= i < cells.len(),
        forall|k: int| 0 <= k < writes.len() ==> 0 <= #[trigger] writes[k].0 < cells.len(),
    ensures
        after_writes(cells, writes).len() == cells.len(),
        after_writes(cells, writes)[i] == last_write(cells, writes, i),
    decreases writes.len(),
{
    if writes.len() > 0 {
        let rest = writes.drop_last();
        assert forall|k: int| 0 <= k < rest.len() implies 0 <= #[trigger] rest[k].0 < cells.len() by {
            assert(rest[k] == writes[k]);
        }
        assert(0 <= writes[writes.len() - 1].0 < cells.len());
        lemma_read_after_writes(cells, rest, i);
    }
}

/// A write moves storage up at most one tier, and only when the palette of
/// its tier is full: the cells that were already there keep their values.
pub proof fn lemma_upgrade_keeps_cells<T: PaletteValue>(
    before: PaletteData<T>,
    index: int,
    value: T,
    after: PaletteData<T>,
)
    requires
        before.wf(),
        after.wf(),
        0 <= index < cells(),
        before.has_room_for(value),
        after@ == before@.update(index, value),
        after.palette() == (if before.palette().contains(value) {
            before.palette()
        } else {
            before.palette().push(value)
        }),
        after.tier() == (if after.palette().len() <= tier_capacity(before.tier()) {
            before.tier()
        } else {
            before.tier() + 1
        }),
    ensures
        after.tier() > before.tier() ==> !before.palette().contains(value)
            && before.palette().len() == tier_capacity(before.tier()),
        forall|j: int| 0 <= j < cells() && j != index ==> after@[j] == before@[j],
{
}

/// The light storage of a chunk: one value for a homogeneous chunk, or one
/// value per cell.
#[derive(Clone, PartialEq, Eq)]
pub enum ArrayData<T> {
    Singleton(T),
    Array(Vec<T>),
}

impl<T: PaletteValue> View for ArrayData<T> {
    type V = Seq<T>;

    /// The value of each cell.
    open spec fn view(&self) -> Seq<T> {
        match self {
            ArrayData::Singleton(v) => Seq::new(cells(), |i: int| *v),
            ArrayData::Array(a) => a@,
        }
    }
}

impl<T: PaletteValue> ArrayData<T> {
    /// An array holds one value per cell.
    pub open spec fn wf(&self) -> bool {
        match self {
            ArrayData::Singleton(_) => true,
            ArrayData::Array(a) => a@.len() == cells(),
        }
    }

    /// Storage in which every cell holds `value`.
    pub fn new(value: T) -> (r: Self)
        ensures
            r.wf(),
            r@ == Seq::new(cells(), |i: int| value),
    {
        ArrayData::Singleton(value)
    }

    /// The value of cell `index`.
    pub fn get(&self, index: usize) -> (r: T)
        requires
            self.wf(),
            index < CHUNK_DIM3Z,
        ensures
            r == self@[index as int],
    {
        match self {
            ArrayData::Singleton(v) => *v,
            ArrayData::Array(a) => a[index],
        }
    }

    /// Sets cell `index` to `value`; a singleton becomes a full array when a
    /// different value arrives. Every other cell keeps its value.
    pub fn set(&mut self, index: usize, value: T)
        requires
            old(self).wf(),
            index < CHUNK_DIM3Z,
        ensures
            final(self).wf(),
            final(self)@ == old(self)@.update(index as int, value),
    {
        let mut taken = ArrayData::Singleton(value);
        core::mem::swap(self, &mut taken);
        let next = match taken {
            ArrayData::Singleton(v) => {
                if v.same_as(&value) {
                    assert(Seq::new(cells(), |i: int| v) =~= Seq::new(cells(), |i: int| v).update(index as int, value));
                    ArrayData::Singleton(v)
                } else {
                    let mut a: Vec<T> = Vec::new();
                    while a.len() < CHUNK_DIM3Z
                        invariant
                            a@.len() <= cells(),
                            forall|i: int| 0 <= i < a@.len() ==> #[trigger] a@[i] == v,
                        decreases cells() - a@.len(),
                    {
                        a.push(v);
                    }
                    a.set(index, value);
                    assert(a@ =~= Seq::new(cells(), |i: int| v).update(index as int, value));
                    ArrayData::Array(a)
                }
            },
            ArrayData::Array(mut a) => {
                a.set(index, value);
                ArrayData::Array(a)
            },
        };
        *self = next;
    }
}

/// A chunk: the block identifiers and the light levels of its cells.
#[derive(Clone, PartialEq, Eq)]
pub struct Chunk {
    blocks: PaletteData<BlockId>,
    light_level: ArrayData<BlockLight>,
}

impl Chunk {
    /// Both stores are well formed.
    pub closed spec fn wf(&self) -> bool {
        self.blocks.wf() && self.light_level.wf()
    }

    /// The block storage.
    pub closed spec fn blocks_spec(&self) -> PaletteData<BlockId> {
        self.blocks
    }

    /// The light storage.
    pub closed spec fn light_spec(&self) -> ArrayData<BlockLight> {
        self.light_level
    }

    /// A chunk filled with one block and one light level.
    pub fn new(block: BlockId, light: BlockLight) -> (r: Self)
        ensures
            r.wf(),
            r.blocks_spec()@ == Seq::new(cells(), |i: int| block),
            r.blocks_spec().tier() == 0,
            r.blocks_spec().palette() == seq![block],
            r.light_spec()@ == Seq::new(cells(), |i: int| light),
    {
        Chunk { blocks: PaletteData::new(block), light_level: ArrayData::new(light) }
    }

    /// The block storage.
    pub fn blocks(&self) -> (r: &PaletteData<BlockId>)
        ensures
            *r == self.blocks_spec(),
    {
        &self.blocks
    }

    /// The light storage.
    pub fn light_level(&self) -> (r: &ArrayData<BlockLight>)
        ensures
            *r == self.light_spec(),
    {
        &self.light_level
    }

    /// The block at cell `index`.
    pub fn get_block(&self, index: usize) -> (r: BlockId)
        requires
            self.wf(),
            index < CHUNK_DIM3Z,
        ensures
            r == self.blocks_spec()@[index as int],
    {
        self.blocks.get(index)
    }

    /// Sets the block at cell `index`; see `PaletteData::set`.
    pub fn set_block(&mut self, index: usize, block: BlockId) -> (r: Result<(), PaletteFullError>)
        requires
            old(self).wf(),
            index < CHUNK_DIM3Z,
        ensures
            final(self).wf(),
            r is Ok <==> old(self).blocks_spec().has_room_for(block),
            r is Err ==> *final(self) == *old(self),
            r is Ok ==> final(self).blocks_spec()@ == old(self).blocks_spec()@.update(
                index as int,
                block,
            ),
            r is Ok ==> final(self).blocks_spec().tier() == (if final(self).blocks_spec().palette().len() <= tier_capacity(old(self).blocks_spec().tier()) {
                old(self).blocks_spec().tier()
            } else {
                old(self).blocks_spec().tier() + 1
            }),
            final(self).light_spec() == old(self).light_spec(),
    {
        self.blocks.set(index, block)
    }

    /// The light level at cell `index`.
    pub fn get_light(&self, index: usize) -> (r: BlockLight)
        requires
            self.wf(),
            index < CHUNK_DIM3Z,
        ensures
            r == self.light_spec()@[index as int],
    {
        self.light_level.get(index)
    }

    /// Sets the light level at cell `index`.
    pub fn set_light(&mut self, index: usize, light: BlockLight)
        requires
            old(self).wf(),
            index < CHUNK_DIM3Z,
        ensures
            final(self).wf(),
            final(self).light_spec()@ == old(self).light_spec()@.update(index as int, light),
            final(self).blocks_spec() == old(self).blocks_spec(),
    {
        self.light_level.set(index, light)
    }
}

} // verus!
