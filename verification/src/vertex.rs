//! Batching of filled rectangles into one vertex list and one index list, ready
//! to be drawn as a triangle list, and the sizing of the buffers they go to.

use vstd::prelude::*;

verus! {

/// How many vertices the vertex buffer holds before it first has to grow.
pub const INITIAL_VERTEX_CAPACITY: usize = 1024;

/// How many indices the index buffer holds before it first has to grow:
/// one and a half times the vertex capacity.
pub const INITIAL_INDEX_CAPACITY: usize = 1536;

/// The vertex, among the four of a rectangle, that the `slot`-th of its six
/// indices names: the triangles are (0, 1, 2) and (0, 2, 3).
pub open spec fn quad_corner(slot: int) -> int {
    if slot == 0 || slot == 3 {
        0
    } else if slot == 1 {
        1
    } else if slot == 2 || slot == 4 {
        2
    } else {
        3
    }
}

/// The index list of `quads` rectangles drawn one after the other: the
/// rectangle `q` owns vertices `4q .. 4q + 4` and indices `6q .. 6q + 6`.
pub open spec fn quad_indices(quads: nat) -> Seq<u32> {
    Seq::new(6 * quads, |i: int| (4 * (i / 6) + quad_corner(i % 6)) as u32)
}

/// The six indices of the rectangle whose first vertex is `start`.
pub open spec fn rectangle_indices(start: u32) -> Seq<u32> {
    seq![
        start,
        (start + 1) as u32,
        (start + 2) as u32,
        start,
        (start + 2) as u32,
        (start + 3) as u32,
    ]
}

/// Appending one rectangle's indices to those of `quads` rectangles gives those
/// of `quads + 1`.
proof fn lemma_quad_indices_push(quads: nat)
    requires
        4 * quads + 3 <= u32::MAX,
    ensures
        quad_indices(quads + 1) == quad_indices(quads) + rectangle_indices((4 * quads) as u32),
{
    let next = quad_indices(quads) + rectangle_indices((4 * quads) as u32);
    assert forall|i: int| 0 <= i < 6 * (quads + 1) implies #[trigger] quad_indices(quads + 1)[i] == next[i] by {
        if i >= 6 * quads {
            let r = i - 6 * quads;
            assert(i / 6 == quads && i % 6 == r) by (nonlinear_arith)
                requires
                    i == 6 * quads + r,
                    0 <= r < 6,
            ;
        }
    }
    assert(quad_indices(quads + 1) =~= next);
}

/// The capacity a buffer is given when `len` items must fit and it holds `capacity`:
/// unchanged while they fit, else twice the length, and never less than `initial`.
pub open spec fn grown_capacity(len: nat, capacity: nat, initial: nat) -> nat {
    if len <= capacity {
        capacity
    } else if len * 2 >= initial {
        len * 2
    } else {
        initial
    }
}

/// The four bytes of `word`, least significant first.
pub open spec fn le_bytes(word: u32) -> Seq<u8> {
    seq![
        (word % 0x100) as u8,
        ((word / 0x100) % 0x100) as u8,
        ((word / 0x1_0000) % 0x100) as u8,
        (word / 0x100_0000) as u8,
    ]
}

/// The four bytes of `word`, most significant first.
pub open spec fn be_bytes(word: u32) -> Seq<u8> {
    seq![
        (word / 0x100_0000) as u8,
        ((word / 0x1_0000) % 0x100) as u8,
        ((word / 0x100) % 0x100) as u8,
        (word % 0x100) as u8,
    ]
}

/// `bytes` is `words` laid out in memory, four bytes each, in one byte order:
/// least significant byte first when `little_endian`, else most significant first.
pub open spec fn words_as_bytes(bytes: Seq<u8>, words: Seq<u32>, little_endian: bool) -> bool {
    &&& bytes.len() == 4 * words.len()
    &&& forall|i: int|
        0 <= i < words.len() ==> #[trigger] bytes.subrange(4 * i, 4 * i + 4) == if little_endian {
            le_bytes(words[i])
        } else {
            be_bytes(words[i])
        }
}

/// Calls `bytemuck::cast_slice::<u32, u8>`, which shows the memory of the
/// words byte by byte. For these two types it cannot fail (a `u8` needs no
/// alignment and every byte length is a whole number of bytes), so it does
/// not panic. The contract says that each word appears as its four bytes in
/// the byte order of the machine the code runs on (`vstd::endian::endianness()`).
#[verifier::external_body]
fn cast_words_to_bytes(words: &[u32]) -> (bytes: &[u8])
    ensures
        words_as_bytes(bytes@, words@, vstd::endian::endianness() is Little),
{
    bytemuck::cast_slice(words)
}

/// Which GPU buffers must be made anew, larger, before an upload.
#[derive(Clone, Copy, Debug, PartialEq, Eq, Structural)]
pub struct BufferGrowth {
    pub vertex_buffer: bool,
    pub index_buffer: bool,
}

/// Rectangles waiting to be drawn, with the capacities of the buffers that hold
/// them on the GPU. `V` is the vertex type.
pub struct ShapeBatcher<V> {
    vertices: Vec<V>,
    indices: Vec<u32>,
    vertex_capacity: usize,
    index_capacity: usize,
}

impl<V> ShapeBatcher<V> {
    /// Every rectangle has four vertices and six indices, laid out as
    /// `quad_indices` says, every index fits in a `u32`, and neither
    /// capacity is below its initial value.
    #[verifier::type_invariant]
    pub closed spec fn well_formed(&self) -> bool {
        &&& self.vertices@.len() % 4 == 0
        &&& self.vertices@.len() <= u32::MAX + 1
        &&& self.indices@ == quad_indices(self.vertices@.len() / 4)
        &&& self.vertex_capacity >= INITIAL_VERTEX_CAPACITY
        &&& self.index_capacity >= INITIAL_INDEX_CAPACITY
    }

    pub closed spec fn vertex_seq(&self) -> Seq<V> {
        self.vertices@
    }

    pub closed spec fn index_seq(&self) -> Seq<u32> {
        self.indices@
    }

    pub closed spec fn vertex_cap(&self) -> nat {
        self.vertex_capacity as nat
    }

    pub closed spec fn index_cap(&self) -> nat {
        self.index_capacity as nat
    }

    /// The number of rectangles in the batch.
    pub closed spec fn quads(&self) -> nat {
        self.vertices@.len() / 4
    }

    /// What well-formedness tells of the batch.
    pub proof fn lemma_well_formed(&self)
        requires
            self.well_formed(),
        ensures
            self.vertex_seq().len() == 4 * self.quads(),
            self.vertex_seq().len() <= u32::MAX + 1,
            self.index_seq() == quad_indices(self.quads()),
            self.vertex_cap() >= INITIAL_VERTEX_CAPACITY,
            self.index_cap() >= INITIAL_INDEX_CAPACITY,
    {
    }

    pub fn new() -> (b: Self)
        ensures
            b.well_formed(),
            b.vertex_seq() == Seq::<V>::empty(),
            b.index_seq() == Seq::<u32>::empty(),
            b.vertex_cap() == INITIAL_VERTEX_CAPACITY,
            b.index_cap() == INITIAL_INDEX_CAPACITY,
    {
        proof {
            assert(quad_indices(0) =~= Seq::<u32>::empty());
        }
        ShapeBatcher {
            vertices: Vec::new(),
            indices: Vec::new(),
            vertex_capacity: INITIAL_VERTEX_CAPACITY,
            index_capacity: INITIAL_INDEX_CAPACITY,
        }
    }
}

impl<V> ShapeBatcher<V> {
    /// Adds one rectangle, given its corners in the order top left, bottom left,
    /// bottom right, top right, as two triangles that share the diagonal from the
    /// top left corner to the bottom right one.
    pub fn draw_rectangle(&mut self, top_left: V, bottom_left: V, bottom_right: V, top_right: V)
        requires
            old(self).vertex_seq().len() + 4 <= u32::MAX + 1,
        ensures
            final(self).well_formed(),
            final(self).vertex_seq() == old(self).vertex_seq() + seq![top_left, bottom_left, bottom_right, top_right],
            final(self).index_seq() == old(self).index_seq() + rectangle_indices(old(self).vertex_seq().len() as u32),
            final(self).index_seq().len() == old(self).index_seq().len() + 6,
            forall|i: int| 0 <= i < old(self).index_seq().len() ==> #[trigger] final(self).index_seq()[i] == old(self).index_seq()[i],
            final(self).index_seq()[old(self).index_seq().len() as int] == old(self).vertex_seq().len(),
            final(self).index_seq()[old(self).index_seq().len() + 1int] == old(self).vertex_seq().len() + 1,
            final(self).index_seq()[old(self).index_seq().len() + 2int] == old(self).vertex_seq().len() + 2,
            final(self).index_seq()[old(self).index_seq().len() + 3int] == old(self).vertex_seq().len(),
            final(self).index_seq()[old(self).index_seq().len() + 4int] == old(self).vertex_seq().len() + 2,
            final(self).index_seq()[old(self).index_seq().len() + 5int] == old(self).vertex_seq().len() + 3,
            final(self).vertex_cap() == old(self).vertex_cap(),
            final(self).index_cap() == old(self).index_cap(),
    {
        proof {
            use_type_invariant(&*self);
        }
        let mut taken = ShapeBatcher::new();
        std::mem::swap(self, &mut taken);
        proof {
            use_type_invariant(&taken);
        }
        let ShapeBatcher { mut vertices, mut indices, vertex_capacity, index_capacity } = taken;
        let start_index = vertices.len() as u32;
        proof {
            lemma_quad_indices_push(vertices@.len() / 4);
        }
        vertices.push(top_left);
        vertices.push(bottom_left);
        vertices.push(bottom_right);
        vertices.push(top_right);
        indices.push(start_index);
        indices.push(start_index + 1);
        indices.push(start_index + 2);
        indices.push(start_index);
        indices.push(start_index + 2);
        indices.push(start_index + 3);
        proof {
            assert(vertices@ =~= old(self).vertices@ + seq![top_left, bottom_left, bottom_right, top_right]);
            assert(indices@ =~= old(self).indices@ + rectangle_indices(start_index));
            assert(vertices@.len() / 4 == old(self).vertices@.len() / 4 + 1);
        }
        *self = ShapeBatcher { vertices, indices, vertex_capacity, index_capacity };
    }

    /// Removes every rectangle; the buffers keep their capacities.
    pub fn clear(&mut self)
        ensures
            final(self).well_formed(),
            final(self).vertex_seq() == Seq::<V>::empty(),
            final(self).index_seq() == Seq::<u32>::empty(),
            final(self).vertex_cap() == old(self).vertex_cap(),
            final(self).index_cap() == old(self).index_cap(),
    {
        proof {
            use_type_invariant(&*self);
            assert(quad_indices(0) =~= Seq::<u32>::empty());
        }
        let mut taken = ShapeBatcher::new();
        std::mem::swap(self, &mut taken);
        let ShapeBatcher { mut vertices, mut indices, vertex_capacity, index_capacity } = taken;
        vertices.clear();
        indices.clear();
        *self = ShapeBatcher { vertices, indices, vertex_capacity, index_capacity };
    }
}

/// A grown capacity holds the items it was grown for, never shrinks, and never
/// falls below the initial capacity once the old one was at least that.
pub proof fn lemma_grown_capacity_covers(len: nat, capacity: nat, initial: nat)
    ensures
        grown_capacity(len, capacity, initial) >= len,
        grown_capacity(len, capacity, initial) >= capacity,
        capacity >= initial ==> grown_capacity(len, capacity, initial) >= initial,
{
}

/// A buffer too small for `len` items gets twice `len`, or `initial` if that
/// is more, whatever it held before; one large enough keeps its capacity.
pub proof fn lemma_grown_capacity_doubles(len: nat, capacity: nat, initial: nat)
    ensures
        len > capacity ==> grown_capacity(len, capacity, initial) == if 2 * len >= initial { 2 * len } else { initial },
        len <= capacity ==> grown_capacity(len, capacity, initial) == capacity,
{
}

fn grow_capacity(len: usize, capacity: usize, initial: usize) -> (grown: usize)
    requires
        len > capacity ==> len * 2 <= usize::MAX,
    ensures
        grown == grown_capacity(len as nat, capacity as nat, initial as nat),
        len <= capacity ==> grown == capacity,
        len > capacity ==> grown == if 2 * len >= initial { 2 * len } else { initial as int },
{
    if len > capacity {
        let doubled = len * 2;
        if doubled >= initial {
            doubled
        } else {
            initial
        }
    } else {
        capacity
    }
}

impl<V> ShapeBatcher<V> {
    /// Gets the batch ready for upload. With no rectangle there is nothing to
    /// upload and nothing changes (`None`). Otherwise each buffer too small for
    /// what it must hold gets the capacity `grown_capacity` gives, and the
    /// result says which buffers must be made anew.
    pub fn prepare_buffers(&mut self) -> (growth: Option<BufferGrowth>)
        requires
            old(self).index_seq().len() > 0 && old(self).vertex_seq().len() > old(self).vertex_cap()
                ==> old(self).vertex_seq().len() * 2 <= usize::MAX,
            old(self).index_seq().len() > 0 && old(self).index_seq().len() > old(self).index_cap()
                ==> old(self).index_seq().len() * 2 <= usize::MAX,
        ensures
            final(self).well_formed(),
            final(self).vertex_seq() == old(self).vertex_seq(),
            final(self).index_seq() == old(self).index_seq(),
            old(self).index_seq().len() == 0 ==> growth is None && *final(self) == *old(self),
            old(self).index_seq().len() > 0 ==> growth == Some(BufferGrowth {
                vertex_buffer: old(self).vertex_seq().len() > old(self).vertex_cap(),
                index_buffer: old(self).index_seq().len() > old(self).index_cap(),
            }),
            final(self).vertex_cap() >= old(self).vertex_cap(),
            final(self).index_cap() >= old(self).index_cap(),
            old(self).index_seq().len() > 0 ==> final(self).vertex_cap() >= final(self).vertex_seq().len()
                && final(self).index_cap() >= final(self).index_seq().len(),
            old(self).index_seq().len() > 0 && old(self).vertex_seq().len() > old(self).vertex_cap()
                ==> final(self).vertex_cap() == if 2 * old(self).vertex_seq().len() >= INITIAL_VERTEX_CAPACITY {
                    2 * old(self).vertex_seq().len()
                } else {
                    INITIAL_VERTEX_CAPACITY as nat
                },
            old(self).index_seq().len() > 0 && old(self).index_seq().len() > old(self).index_cap()
                ==> final(self).index_cap() == if 2 * old(self).index_seq().len() >= INITIAL_INDEX_CAPACITY {
                    2 * old(self).index_seq().len()
                } else {
                    INITIAL_INDEX_CAPACITY as nat
                },
            old(self).vertex_seq().len() <= old(self).vertex_cap() ==> final(self).vertex_cap() == old(self).vertex_cap(),
            old(self).index_seq().len() <= old(self).index_cap() ==> final(self).index_cap() == old(self).index_cap(),
            old(self).index_seq().len() > 0 ==> final(self).vertex_cap() == grown_capacity(
                old(self).vertex_seq().len(),
                old(self).vertex_cap(),
                INITIAL_VERTEX_CAPACITY as nat,
            ),
            old(self).index_seq().len() > 0 ==> final(self).index_cap() == grown_capacity(
                old(self).index_seq().len(),
                old(self).index_cap(),
                INITIAL_INDEX_CAPACITY as nat,
            ),
    {
        proof {
            use_type_invariant(&*self);
        }
        if self.indices.is_empty() {
            return None;
        }
        let grow_vertices = self.vertices.len() > self.vertex_capacity;
        let grow_indices = self.indices.len() > self.index_capacity;
        self.vertex_capacity = grow_capacity(self.vertices.len(), self.vertex_capacity, INITIAL_VERTEX_CAPACITY);
        self.index_capacity = grow_capacity(self.indices.len(), self.index_capacity, INITIAL_INDEX_CAPACITY);
        Some(BufferGrowth { vertex_buffer: grow_vertices, index_buffer: grow_indices })
    }

    /// The number of indices to draw, as the draw call takes it: `None` when
    /// there is nothing to draw.
    pub fn draw_count(&self) -> (count: Option<u32>)
        ensures
            self.well_formed(),
            self.index_seq().len() == 0 ==> count is None,
            self.index_seq().len() > 0 ==> count == Some(self.index_seq().len() as u32),
    {
        proof {
            use_type_invariant(self);
        }
        if self.indices.is_empty() {
            None
        } else {
            Some(self.indices.len() as u32)
        }
    }

    pub fn vertices(&self) -> (vertices: &[V])
        ensures
            vertices@ == self.vertex_seq(),
    {
        self.vertices.as_slice()
    }

    /// The indices; each names one of the vertices.
    pub fn indices(&self) -> (indices: &[u32])
        ensures
            self.well_formed(),
            indices@ == self.index_seq(),
            forall|i: int| 0 <= i < indices@.len() ==> (#[trigger] indices@[i]) < self.vertex_seq().len(),
    {
        proof {
            use_type_invariant(self);
            lemma_indices_in_range(self);
        }
        self.indices.as_slice()
    }

    /// The index list as the bytes that go to the GPU: each index as its four
    /// bytes in the machine's byte order.
    pub fn index_bytes(&self) -> (bytes: &[u8])
        ensures
            words_as_bytes(bytes@, self.index_seq(), vstd::endian::endianness() is Little),
    {
        cast_words_to_bytes(self.indices.as_slice())
    }

    pub fn vertex_capacity(&self) -> (capacity: usize)
        ensures
            capacity == self.vertex_cap(),
    {
        self.vertex_capacity
    }

    pub fn index_capacity(&self) -> (capacity: usize)
        ensures
            capacity == self.index_cap(),
    {
        self.index_capacity
    }
}

/// Every rectangle of a well-formed batch has the same six indices, shifted to
/// its own first vertex: rectangle `q` draws the triangles `(4q, 4q+1, 4q+2)`
/// and `(4q, 4q+2, 4q+3)`, so all rectangles wind the same way.
pub proof fn lemma_rectangle_winding<V>(batch: &ShapeBatcher<V>)
    requires
        batch.well_formed(),
    ensures
        batch.index_seq().len() == 6 * batch.quads(),
        forall|q: int| 0 <= q < batch.quads() ==> {
            &&& #[trigger] batch.index_seq()[6 * q] == 4 * q
            &&& batch.index_seq()[6 * q + 1] == 4 * q + 1
            &&& batch.index_seq()[6 * q + 2] == 4 * q + 2
            &&& batch.index_seq()[6 * q + 3] == 4 * q
            &&& batch.index_seq()[6 * q + 4] == 4 * q + 2
            &&& batch.index_seq()[6 * q + 5] == 4 * q + 3
        },
{
    let n = batch.quads();
    assert forall|q: int| 0 <= q < n implies {
        &&& #[trigger] batch.index_seq()[6 * q] == 4 * q
        &&& batch.index_seq()[6 * q + 1] == 4 * q + 1
        &&& batch.index_seq()[6 * q + 2] == 4 * q + 2
        &&& batch.index_seq()[6 * q + 3] == 4 * q
        &&& batch.index_seq()[6 * q + 4] == 4 * q + 2
        &&& batch.index_seq()[6 * q + 5] == 4 * q + 3
    } by {
        assert(6 * q + 5 < 6 * n) by (nonlinear_arith)
            requires
                0 <= q < n,
        ;
        assert(4 * q + 3 <= u32::MAX) by (nonlinear_arith)
            requires
                0 <= q < n,
                4 * n <= u32::MAX + 1,
        ;
        assert((6 * q + 0) / 6 == q && (6 * q + 0) % 6 == 0) by (nonlinear_arith)
            requires
                0 <= q,
        ;
        assert((6 * q + 1) / 6 == q && (6 * q + 1) % 6 == 1) by (nonlinear_arith)
            requires
                0 <= q,
        ;
        assert((6 * q + 2) / 6 == q && (6 * q + 2) % 6 == 2) by (nonlinear_arith)
            requires
                0 <= q,
        ;
        assert((6 * q + 3) / 6 == q && (6 * q + 3) % 6 == 3) by (nonlinear_arith)
            requires
                0 <= q,
        ;
        assert((6 * q + 4) / 6 == q && (6 * q + 4) % 6 == 4) by (nonlinear_arith)
            requires
                0 <= q,
        ;
        assert((6 * q + 5) / 6 == q && (6 * q + 5) % 6 == 5) by (nonlinear_arith)
            requires
                0 <= q,
        ;
    }
}

/// Every index of a well-formed batch names one of its vertices, so a draw
/// call over the index list never reads past the vertex list.
pub proof fn lemma_indices_in_range<V>(batch: &ShapeBatcher<V>)
    requires
        batch.well_formed(),
    ensures
        forall|i: int| 0 <= i < batch.index_seq().len() ==> (#[trigger] batch.index_seq()[i]) < batch.vertex_seq().len(),
{
    let n = batch.quads();
    assert forall|i: int| 0 <= i < batch.index_seq().len() implies (#[trigger] batch.index_seq()[i]) < batch.vertex_seq().len() by {
        let q = i / 6;
        let r = i % 6;
        assert(0 <= q < n && 0 <= r < 6 && 4 * q + 3 < 4 * n) by (nonlinear_arith)
            requires
                0 <= i < 6 * n,
                q == i / 6,
                r == i % 6,
        ;
    }
}

} // verus!
