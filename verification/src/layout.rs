//! The layout engine: per-item dimension and transform state, and the three
//! packing routines (vertical, horizontal, grid).
//!
//! The engine keeps an ordered collection of `N` dimension records and `N`
//! transform records, indexed `0..N`. `resize` only ever grows the allocated
//! storage; entries beyond the new logical length stay allocated but inert.

use vstd::prelude::*;

verus! {

/// Source dimensions of one item, in whole pixels.
#[derive(Clone, Copy, PartialEq, Eq, Structural, Debug)]
pub struct Dimension {
    pub width: u32,
    pub height: u32,
}

/// Placement of one item: its size and its offset from the container origin.
#[derive(Clone, Copy, PartialEq, Eq, Structural, Debug)]
pub struct Transform {
    pub width: u64,
    pub height: u64,
    pub top: u64,
    pub left: u64,
}

/// Largest logical item count the packing routines accept. The bound keeps
/// every accumulated offset comfortably inside `u64`: each packing step adds
/// at most `u32::MAX + u16::MAX < 0x2_0000_0000` to an offset.
pub const MAX_ITEMS: usize = 0x4000_0000;

/// The layout engine state: `num_items` is the logical item count set by the
/// last `resize`; the two vectors are the allocated storage, always at least
/// `num_items` long and always of equal length.
pub struct Layout {
    num_items: usize,
    dims: Vec<Dimension>,
    transforms: Vec<Transform>,
    thumbnail_size: u16,
    padding: u16,
}

impl Layout {
    /// Logical item count, as set by construction or the last `resize`.
    pub closed spec fn len(&self) -> nat {
        self.num_items as nat
    }

    /// All allocated dimension records (the first `len()` are live).
    pub closed spec fn dims(&self) -> Seq<Dimension> {
        self.dims@
    }

    /// All allocated transform records (the first `len()` are live).
    pub closed spec fn transforms(&self) -> Seq<Transform> {
        self.transforms@
    }

    pub closed spec fn thumbnail_size(&self) -> u16 {
        self.thumbnail_size
    }

    pub closed spec fn padding(&self) -> u16 {
        self.padding
    }

    /// Structural invariant: both storage vectors have the same length and
    /// cover at least the logical item count.
    pub open spec fn wf(&self) -> bool {
        &&& self.dims().len() == self.transforms().len()
        &&& self.len() <= self.dims().len()
    }

    pub fn new(num_items: usize, thumbnail_size: u16, padding: u16) -> (l: Layout)
        ensures
            l.wf(),
            l.len() == num_items,
            l.dims().len() == num_items,
            l.transforms().len() == num_items,
            forall|i: int|
                0 <= i < num_items ==> l.dims()[i] == (Dimension { width: 0, height: 0 }),
            forall|i: int|
                0 <= i < num_items ==> l.transforms()[i] == (Transform {
                    width: 0,
                    height: 0,
                    top: 0,
                    left: 0,
                }),
            l.thumbnail_size() == thumbnail_size,
            l.padding() == padding,
    {
        let mut dims: Vec<Dimension> = Vec::new();
        let mut transforms: Vec<Transform> = Vec::new();
        let mut i: usize = 0;
        while i < num_items
            invariant
                i <= num_items,
                dims@.len() == i,
                transforms@.len() == i,
                forall|j: int| 0 <= j < i ==> dims@[j] == (Dimension { width: 0, height: 0 }),
                forall|j: int|
                    0 <= j < i ==> transforms@[j] == (Transform {
                        width: 0,
                        height: 0,
                        top: 0,
                        left: 0,
                    }),
            decreases num_items - i,
        {
            dims.push(Dimension { width: 0, height: 0 });
            transforms.push(Transform { width: 0, height: 0, top: 0, left: 0 });
            i = i + 1;
        }
        Layout { num_items, dims, transforms, thumbnail_size, padding }
    }

    /// Grow the logical item count to `new_len`. Storage is monotonic: no
    /// entry is ever freed, so shrinking the logical count keeps every
    /// previously allocated record intact, and growing past the allocated
    /// length appends zeroed records.
    pub fn resize(&mut self, new_len: usize)
        requires
            old(self).wf(),
        ensures
            resize_rel(*old(self), *final(self), new_len),
    {
        self.num_items = new_len;
        while self.dims.len() < new_len
            invariant
                old(self).dims().len() == old(self).transforms().len(),
                self.dims@.len() == self.transforms@.len(),
                old(self).dims().len() <= self.dims@.len(),
                self.dims@.len() <= if new_len >= old(self).dims().len() {
                    new_len as int
                } else {
                    old(self).dims().len() as int
                },
                self.dims@.subrange(0, old(self).dims().len() as int) == old(self).dims(),
                self.transforms@.subrange(0, old(self).transforms().len() as int) == old(self).transforms(),
                forall|i: int|
                    old(self).dims().len() <= i < self.dims@.len() ==> self.dims@[i]
                        == (Dimension { width: 0, height: 0 }),
                forall|i: int|
                    old(self).transforms().len() <= i < self.transforms@.len()
                        ==> self.transforms@[i] == (Transform {
                        width: 0,
                        height: 0,
                        top: 0,
                        left: 0,
                    }),
                self.num_items == new_len,
                self.thumbnail_size == old(self).thumbnail_size(),
                self.padding == old(self).padding(),
            decreases new_len - self.dims.len(),
        {
            self.dims.push(Dimension { width: 0, height: 0 });
            self.transforms.push(Transform { width: 0, height: 0, top: 0, left: 0 });
            assert(self.dims@.subrange(0, old(self).dims().len() as int) =~= old(self).dims());
            assert(self.transforms@.subrange(0, old(self).transforms().len() as int) =~= old(self).transforms());
        }
    }

    /// Record the source dimensions of the item at `index`.
    ///
    /// An index at or past the last `resize` argument is a fatal bounds
    /// violation in the service contract, so it is excluded here.
    pub fn set_dimension(&mut self, index: usize, src_width: u32, src_height: u32)
        requires
            old(self).wf(),
            index < old(self).len(),
        ensures
            final(self).wf(),
            final(self).len() == old(self).len(),
            final(self).dims() == old(self).dims().update(
                index as int,
                Dimension { width: src_width, height: src_height },
            ),
            final(self).transforms() == old(self).transforms(),
            final(self).thumbnail_size() == old(self).thumbnail_size(),
            final(self).padding() == old(self).padding(),
    {
        self.dims[index] = Dimension { width: src_width, height: src_height };
    }

    /// Read back the transform of the item at `index`.
    ///
    /// An index at or past the last `resize` argument is a fatal bounds
    /// violation in the service contract, so it is excluded here.
    pub fn get_transform(&self, index: usize) -> (t: Transform)
        requires
            self.wf(),
            index < self.len(),
        ensures
            t == self.transforms()[index as int],
    {
        self.transforms[index]
    }

    /// Pack the first `len()` items into a single column: each item keeps its
    /// own dimensions, sits at `left == 0`, and is stacked `padding` pixels
    /// below its predecessor. Returns the total extent along the packing
    /// axis. The container width does not influence this variant.
    pub fn compute_vertical(&mut self, _width: u16) -> (extent: u64)
        requires
            old(self).wf(),
            old(self).len() <= MAX_ITEMS,
        ensures
            final(self).wf(),
            final(self).len() == old(self).len(),
            final(self).dims() == old(self).dims(),
            final(self).thumbnail_size() == old(self).thumbnail_size(),
            final(self).padding() == old(self).padding(),
            final(self).transforms().len() == old(self).transforms().len(),
            forall|i: int|
                0 <= i < old(self).len() ==> final(self).transforms()[i] == vertical_transform(
                    old(self).dims(),
                    old(self).padding(),
                    i,
                ),
            forall|i: int|
                old(self).len() <= i < old(self).transforms().len() ==> final(self).transforms()[i]
                    == old(self).transforms()[i],
            extent == vertical_extent(old(self).dims(), old(self).padding(), old(self).len() as int),
    {
        let n = self.num_items;
        let pad = self.padding;
        let mut i: usize = 0;
        let mut top: u64 = 0;
        while i < n
            invariant
                i <= n,
                n == self.num_items,
                n <= MAX_ITEMS,
                n == old(self).len(),
                pad == self.padding,
                self.wf(),
                self.dims@ == old(self).dims(),
                self.padding == old(self).padding(),
                self.thumbnail_size == old(self).thumbnail_size(),
                self.transforms@.len() == old(self).transforms().len(),
                top == vertical_top(self.dims@, self.padding, i as int),
                forall|j: int|
                    0 <= j < i ==> self.transforms@[j] == vertical_transform(
                        self.dims@,
                        self.padding,
                        j,
                    ),
                forall|j: int|
                    i <= j < self.transforms@.len() ==> self.transforms@[j] == old(
                        self,
                    ).transforms()[j],
            decreases n - i,
        {
            proof {
                lemma_vertical_top_bound(self.dims@, self.padding, i as int);
                assert((i as int) * 0x2_0000_0000 <= 0x4000_0000 * 0x2_0000_0000)
                    by (nonlinear_arith)
                    requires
                        0 <= i <= 0x4000_0000,
                ;
            }
            let dim = self.dims[i];
            let t = Transform { width: dim.width as u64, height: dim.height as u64, top, left: 0 };
            self.transforms[i] = t;
            top = top + dim.height as u64 + pad as u64;
            i = i + 1;
        }
        if n == 0 {
            0
        } else {
            proof {
                lemma_vertical_top_bound(self.dims@, self.padding, n as int - 1);
                assert(vertical_top(self.dims@, self.padding, n as int) == vertical_top(
                    self.dims@,
                    self.padding,
                    n as int - 1,
                ) + self.dims@[n as int - 1].height + self.padding);
            }
            top - pad as u64
        }
    }

    /// Pack the first `len()` items into a single row: each item keeps its
    /// own dimensions, sits at `top == 0`, and is placed `padding` pixels to
    /// the right of its predecessor. Returns the total extent along the
    /// packing axis. The container width does not influence this variant.
    pub fn compute_horizontal(&mut self, _width: u16) -> (extent: u64)
        requires
            old(self).wf(),
            old(self).len() <= MAX_ITEMS,
        ensures
            final(self).wf(),
            final(self).len() == old(self).len(),
            final(self).dims() == old(self).dims(),
            final(self).thumbnail_size() == old(self).thumbnail_size(),
            final(self).padding() == old(self).padding(),
            final(self).transforms().len() == old(self).transforms().len(),
            forall|i: int|
                0 <= i < old(self).len() ==> final(self).transforms()[i] == horizontal_transform(
                    old(self).dims(),
                    old(self).padding(),
                    i,
                ),
            forall|i: int|
                old(self).len() <= i < old(self).transforms().len() ==> final(self).transforms()[i]
                    == old(self).transforms()[i],
            extent == horizontal_extent(
                old(self).dims(),
                old(self).padding(),
                old(self).len() as int,
            ),
    {
        let n = self.num_items;
        let pad = self.padding;
        let mut i: usize = 0;
        let mut left: u64 = 0;
        while i < n
            invariant
                i <= n,
                n == self.num_items,
                n <= MAX_ITEMS,
                n == old(self).len(),
                pad == self.padding,
                self.wf(),
                self.dims@ == old(self).dims(),
                self.padding == old(self).padding(),
                self.thumbnail_size == old(self).thumbnail_size(),
                self.transforms@.len() == old(self).transforms().len(),
                left == horizontal_left(self.dims@, self.padding, i as int),
                forall|j: int|
                    0 <= j < i ==> self.transforms@[j] == horizontal_transform(
                        self.dims@,
                        self.padding,
                        j,
                    ),
                forall|j: int|
                    i <= j < self.transforms@.len() ==> self.transforms@[j] == old(
                        self,
                    ).transforms()[j],
            decreases n - i,
        {
            proof {
                lemma_horizontal_left_bound(self.dims@, self.padding, i as int);
                assert((i as int) * 0x2_0000_0000 <= 0x4000_0000 * 0x2_0000_0000)
                    by (nonlinear_arith)
                    requires
                        0 <= i <= 0x4000_0000,
                ;
            }
            let dim = self.dims[i];
            let t = Transform { width: dim.width as u64, height: dim.height as u64, top: 0, left };
            self.transforms[i] = t;
            left = left + dim.width as u64 + pad as u64;
            i = i + 1;
        }
        if n == 0 {
            0
        } else {
            proof {
                lemma_horizontal_left_bound(self.dims@, self.padding, n as int - 1);
                assert(horizontal_left(self.dims@, self.padding, n as int) == horizontal_left(
                    self.dims@,
                    self.padding,
                    n as int - 1,
                ) + self.dims@[n as int - 1].width + self.padding);
            }
            left - pad as u64
        }
    }

    /// Pack the first `len()` items into a grid of fixed cells. Every cell is
    /// `thumbnail_size` square; the number of columns is how many strides of
    /// `thumbnail_size + padding` fit in the container width, and at least
    /// one. Item dimensions are ignored. Returns the total extent along the
    /// packing axis (the vertical span of the occupied rows).
    pub fn compute_grid(&mut self, width: u16) -> (extent: u64)
        requires
            old(self).wf(),
            old(self).len() <= MAX_ITEMS,
        ensures
            final(self).wf(),
            final(self).len() == old(self).len(),
            final(self).dims() == old(self).dims(),
            final(self).thumbnail_size() == old(self).thumbnail_size(),
            final(self).padding() == old(self).padding(),
            final(self).transforms().len() == old(self).transforms().len(),
            forall|i: int|
                0 <= i < old(self).len() ==> final(self).transforms()[i] == grid_transform(
                    width,
                    old(self).thumbnail_size(),
                    old(self).padding(),
                    i,
                ),
            forall|i: int|
                old(self).len() <= i < old(self).transforms().len() ==> final(self).transforms()[i]
                    == old(self).transforms()[i],
            extent == grid_extent(
                width,
                old(self).thumbnail_size(),
                old(self).padding(),
                old(self).len() as int,
            ),
    {
        let n = self.num_items;
        let tsize = self.thumbnail_size;
        let pad = self.padding;
        let stride: u32 = tsize as u32 + pad as u32;
        let columns: usize = if stride == 0 {
            1
        } else {
            let c: u32 = width as u32 / stride;
            if c == 0 {
                1
            } else {
                c as usize
            }
        };
        assert(columns as int == grid_columns(width, tsize, pad));
        assert(columns >= 1);
        let mut i: usize = 0;
        while i < n
            invariant
                i <= n,
                n == self.num_items,
                n <= MAX_ITEMS,
                n == old(self).len(),
                tsize == self.thumbnail_size,
                pad == self.padding,
                stride == tsize as u32 + pad as u32,
                columns >= 1,
                columns as int == grid_columns(width, tsize, pad),
                self.wf(),
                self.dims@ == old(self).dims(),
                self.padding == old(self).padding(),
                self.thumbnail_size == old(self).thumbnail_size(),
                self.transforms@.len() == old(self).transforms().len(),
                forall|j: int|
                    0 <= j < i ==> self.transforms@[j] == grid_transform(width, tsize, pad, j),
                forall|j: int|
                    i <= j < self.transforms@.len() ==> self.transforms@[j] == old(
                        self,
                    ).transforms()[j],
            decreases n - i,
        {
            let row: usize = i / columns;
            let col: usize = i % columns;
            proof {
                assert(i as int / columns as int <= i as int) by (nonlinear_arith)
                    requires
                        columns as int >= 1,
                        i as int >= 0,
                ;
                assert(0 <= i as int % columns as int && (i as int % columns as int) < (
                columns as int)) by (nonlinear_arith)
                    requires
                        columns as int >= 1,
                        i as int >= 0,
                ;
                lemma_grid_cell_bound(row as int, stride as int);
                lemma_grid_cell_bound(col as int, stride as int);
            }
            let t = Transform {
                width: tsize as u64,
                height: tsize as u64,
                top: row as u64 * stride as u64,
                left: col as u64 * stride as u64,
            };
            self.transforms[i] = t;
            i = i + 1;
        }
        if n == 0 {
            0
        } else {
            let last_row: usize = (n - 1) / columns;
            proof {
                assert((n - 1) as int / columns as int <= (n - 1) as int) by (nonlinear_arith)
                    requires
                        columns as int >= 1,
                        (n - 1) as int >= 0,
                ;
                lemma_grid_cell_bound(last_row as int, stride as int);
            }
            last_row as u64 * stride as u64 + tsize as u64
        }
    }

    pub fn set_thumbnail_size(&mut self, thumbnail_size: u16)
        ensures
            final(self).thumbnail_size() == thumbnail_size,
            final(self).padding() == old(self).padding(),
            final(self).len() == old(self).len(),
            final(self).dims() == old(self).dims(),
            final(self).transforms() == old(self).transforms(),
    {
        self.thumbnail_size = thumbnail_size;
    }

    pub fn set_padding(&mut self, padding: u16)
        ensures
            final(self).padding() == padding,
            final(self).thumbnail_size() == old(self).thumbnail_size(),
            final(self).len() == old(self).len(),
            final(self).dims() == old(self).dims(),
            final(self).transforms() == old(self).transforms(),
    {
        self.padding = padding;
    }
}

/// Vertical offset of item `i` in a single-column stack: the heights of all
/// earlier items plus one `padding` gap per earlier item.
pub open spec fn vertical_top(dims: Seq<Dimension>, padding: u16, i: int) -> int
    decreases i,
{
    if i <= 0 {
        0
    } else {
        vertical_top(dims, padding, i - 1) + dims[i - 1].height + padding
    }
}

/// Transform of item `i` under vertical packing: its own size, stacked below
/// its predecessors in a single column.
pub open spec fn vertical_transform(dims: Seq<Dimension>, padding: u16, i: int) -> Transform {
    Transform {
        width: dims[i].width as u64,
        height: dims[i].height as u64,
        top: vertical_top(dims, padding, i) as u64,
        left: 0,
    }
}

/// Total vertical extent of `n` stacked items: the last item's offset plus
/// its height (no trailing padding), or zero when there is no item.
pub open spec fn vertical_extent(dims: Seq<Dimension>, padding: u16, n: int) -> int {
    if n <= 0 {
        0
    } else {
        vertical_top(dims, padding, n - 1) + dims[n - 1].height
    }
}

/// Every vertical offset is non-negative and grows by less than
/// `0x2_0000_0000` per item, so offsets of up to `MAX_ITEMS` items fit in
/// `u64`.
pub proof fn lemma_vertical_top_bound(dims: Seq<Dimension>, padding: u16, i: int)
    requires
        0 <= i,
    ensures
        0 <= vertical_top(dims, padding, i),
        vertical_top(dims, padding, i) <= i * 0x2_0000_0000,
    decreases i,
{
    if i > 0 {
        lemma_vertical_top_bound(dims, padding, i - 1);
        assert((i - 1) * 0x2_0000_0000 + 0x2_0000_0000 == i * 0x2_0000_0000) by (nonlinear_arith);
    }
}

/// How `resize` relates the engine's state before and after growing the
/// logical item count to `new_len`: the configuration is kept, storage only
/// ever grows, every previously allocated record is preserved, and records
/// allocated by the call start zeroed.
pub open spec fn resize_rel(pre: Layout, post: Layout, new_len: usize) -> bool {
    &&& post.wf()
    &&& post.len() == new_len
    &&& post.thumbnail_size() == pre.thumbnail_size()
    &&& post.padding() == pre.padding()
    &&& post.dims().len() == post.transforms().len()
    &&& post.dims().len() == if new_len >= pre.dims().len() {
        new_len as int
    } else {
        pre.dims().len() as int
    }
    &&& post.dims().subrange(0, pre.dims().len() as int) == pre.dims()
    &&& post.transforms().subrange(0, pre.transforms().len() as int) == pre.transforms()
    &&& forall|i: int|
        pre.dims().len() <= i < post.dims().len() ==> post.dims()[i] == (Dimension {
            width: 0,
            height: 0,
        })
    &&& forall|i: int|
        pre.transforms().len() <= i < post.transforms().len() ==> post.transforms()[i]
            == (Transform { width: 0, height: 0, top: 0, left: 0 })
}

/// Law (capacity monotonicity): growing the item count to `n` and then
/// shrinking it to `m < n` keeps the dimension and transform records of
/// every index below `n` — in particular of all of `[0, m)` — because
/// storage is never freed.
pub proof fn lemma_capacity_monotonic(l0: Layout, l1: Layout, l2: Layout, n: usize, m: usize)
    requires
        l0.wf(),
        resize_rel(l0, l1, n),
        resize_rel(l1, l2, m),
        m < n,
    ensures
        l2.len() == m,
        forall|i: int|
            0 <= i < n ==> l2.dims()[i] == l1.dims()[i] && l2.transforms()[i]
                == l1.transforms()[i],
{
    assert forall|i: int| 0 <= i < n implies l2.dims()[i] == l1.dims()[i]
        && l2.transforms()[i] == l1.transforms()[i] by {
        assert(l2.dims().subrange(0, l1.dims().len() as int)[i] == l2.dims()[i]);
        assert(l2.transforms().subrange(0, l1.transforms().len() as int)[i]
            == l2.transforms()[i]);
    }
}

/// Horizontal offset of item `i` in a single-row arrangement: the widths of
/// all earlier items plus one `padding` gap per earlier item.
pub open spec fn horizontal_left(dims: Seq<Dimension>, padding: u16, i: int) -> int
    decreases i,
{
    if i <= 0 {
        0
    } else {
        horizontal_left(dims, padding, i - 1) + dims[i - 1].width + padding
    }
}

/// Transform of item `i` under horizontal packing: its own size, placed to
/// the right of its predecessors in a single row.
pub open spec fn horizontal_transform(dims: Seq<Dimension>, padding: u16, i: int) -> Transform {
    Transform {
        width: dims[i].width as u64,
        height: dims[i].height as u64,
        top: 0,
        left: horizontal_left(dims, padding, i) as u64,
    }
}

/// Total horizontal extent of `n` items in a row: the last item's offset plus
/// its width (no trailing padding), or zero when there is no item.
pub open spec fn horizontal_extent(dims: Seq<Dimension>, padding: u16, n: int) -> int {
    if n <= 0 {
        0
    } else {
        horizontal_left(dims, padding, n - 1) + dims[n - 1].width
    }
}

/// Every horizontal offset is non-negative and grows by less than
/// `0x2_0000_0000` per item, so offsets of up to `MAX_ITEMS` items fit in
/// `u64`.
pub proof fn lemma_horizontal_left_bound(dims: Seq<Dimension>, padding: u16, i: int)
    requires
        0 <= i,
    ensures
        0 <= horizontal_left(dims, padding, i),
        horizontal_left(dims, padding, i) <= i * 0x2_0000_0000,
    decreases i,
{
    if i > 0 {
        lemma_horizontal_left_bound(dims, padding, i - 1);
        assert((i - 1) * 0x2_0000_0000 + 0x2_0000_0000 == i * 0x2_0000_0000) by (nonlinear_arith);
    }
}

/// Distance between the origins of two neighbouring grid cells.
pub open spec fn grid_stride(thumbnail_size: u16, padding: u16) -> int {
    thumbnail_size + padding
}

/// Number of grid columns: how many whole strides fit in the container
/// width, and at least one.
pub open spec fn grid_columns(width: u16, thumbnail_size: u16, padding: u16) -> int {
    let stride = grid_stride(thumbnail_size, padding);
    if stride == 0 {
        1
    } else if width as int / stride == 0 {
        1
    } else {
        width as int / stride
    }
}

/// Transform of item `i` under grid packing: a `thumbnail_size` square cell,
/// filling rows left to right.
pub open spec fn grid_transform(width: u16, thumbnail_size: u16, padding: u16, i: int) -> Transform {
    let stride = grid_stride(thumbnail_size, padding);
    let columns = grid_columns(width, thumbnail_size, padding);
    Transform {
        width: thumbnail_size as u64,
        height: thumbnail_size as u64,
        top: ((i / columns) * stride) as u64,
        left: ((i % columns) * stride) as u64,
    }
}

/// Total vertical extent of `n` grid cells: the last row's offset plus one
/// cell height, or zero when there is no item.
pub open spec fn grid_extent(width: u16, thumbnail_size: u16, padding: u16, n: int) -> int {
    if n <= 0 {
        0
    } else {
        ((n - 1) / grid_columns(width, thumbnail_size, padding)) * grid_stride(
            thumbnail_size,
            padding,
        ) + thumbnail_size
    }
}

/// A grid cell offset is the product of a row or column index by the stride;
/// for indices up to `MAX_ITEMS` and strides under `0x2_0000` it fits in
/// `u64`.
pub proof fn lemma_grid_cell_bound(index: int, stride: int)
    requires
        0 <= index <= 0x4000_0000,
        0 <= stride < 0x2_0000,
    ensures
        0 <= index * stride <= 0x8000_0000_0000,
{
    assert(0 <= index * stride <= 0x4000_0000 * 0x2_0000) by (nonlinear_arith)
        requires
            0 <= index <= 0x4000_0000,
            0 <= stride < 0x2_0000,
    ;
}

} // verus!
