//! Chunks of pixels and the sparse store that holds them.

use vstd::prelude::*;
use crate::state::{blank_pixel, PixelInfo, CHUNK_SIZE};

verus! {

/// The cells of a chunk, indexed first by `x` and then by `y`.
pub open spec fn grid_view(g: &Vec<Vec<PixelInfo>>) -> Seq<Seq<PixelInfo>> {
    g@.map_values(|row: Vec<PixelInfo>| row@)
}

/// A chunk has `CHUNK_SIZE` columns of `CHUNK_SIZE` cells each.
pub open spec fn is_chunk(s: Seq<Seq<PixelInfo>>) -> bool {
    &&& s.len() == CHUNK_SIZE
    &&& forall|i: int| 0 <= i < CHUNK_SIZE ==> #[trigger] s[i].len() == CHUNK_SIZE
}

/// The chunk that nothing has been drawn on: every cell blank.
pub open spec fn default_grid() -> Seq<Seq<PixelInfo>> {
    Seq::new(CHUNK_SIZE as nat, |i: int| Seq::new(CHUNK_SIZE as nat, |j: int| blank_pixel()))
}

/// The chunk `g` with cell (`x`, `y`) replaced by `p`.
pub open spec fn painted(g: Seq<Seq<PixelInfo>>, x: int, y: int, p: PixelInfo) -> Seq<Seq<PixelInfo>> {
    g.update(x, g[x].update(y, p))
}

pub proof fn lemma_default_is_chunk()
    ensures
        is_chunk(default_grid()),
{
}

pub proof fn lemma_painted_is_chunk(g: Seq<Seq<PixelInfo>>, x: int, y: int, p: PixelInfo)
    requires
        is_chunk(g),
        0 <= x < CHUNK_SIZE,
        0 <= y < CHUNK_SIZE,
    ensures
        is_chunk(painted(g, x, y, p)),
{
    assert forall|i: int| 0 <= i < CHUNK_SIZE implies #[trigger] painted(g, x, y, p)[i].len()
        == CHUNK_SIZE by {
        if i != x {
            assert(painted(g, x, y, p)[i] == g[i]);
        }
    }
}

/// A fresh chunk with every cell blank.
pub fn default_chunk() -> (r: Vec<Vec<PixelInfo>>)
    ensures
        grid_view(&r) == default_grid(),
{
    let n = CHUNK_SIZE as usize;
    let mut g: Vec<Vec<PixelInfo>> = Vec::new();
    for i in 0..n
        invariant
            n == CHUNK_SIZE,
            g@.len() == i,
            forall|k: int|
                0 <= k < i ==> #[trigger] g@[k]@ == Seq::new(
                    CHUNK_SIZE as nat,
                    |j: int| blank_pixel(),
                ),
    {
        let mut row: Vec<PixelInfo> = Vec::new();
        for j in 0..n
            invariant
                n == CHUNK_SIZE,
                row@.len() == j,
                forall|k: int| 0 <= k < j ==> #[trigger] row@[k] == blank_pixel(),
        {
            row.push(PixelInfo::blank());
        }
        assert(row@ =~= Seq::new(CHUNK_SIZE as nat, |j: int| blank_pixel()));
        g.push(row);
    }
    assert(grid_view(&g) =~= default_grid());
    g
}

/// Whether `g` has the shape of a chunk.
pub fn has_chunk_shape(g: &Vec<Vec<PixelInfo>>) -> (r: bool)
    ensures
        r == is_chunk(grid_view(g)),
{
    if g.len() != CHUNK_SIZE as usize {
        return false;
    }
    let n = CHUNK_SIZE as usize;
    for i in 0..n
        invariant
            n == CHUNK_SIZE,
            g@.len() == CHUNK_SIZE,
            forall|k: int| 0 <= k < i ==> #[trigger] g@[k]@.len() == CHUNK_SIZE,
    {
        if g[i].len() != n {
            assert(grid_view(g)[i as int].len() != CHUNK_SIZE);
            return false;
        }
    }
    assert forall|k: int| 0 <= k < CHUNK_SIZE implies #[trigger] grid_view(g)[k].len()
        == CHUNK_SIZE by {
        assert(grid_view(g)[k] == g@[k]@);
    }
    true
}

/// Replaces cell (`x`, `y`) of chunk `g` by `p`.
pub fn paint(g: &mut Vec<Vec<PixelInfo>>, x: u64, y: u64, p: PixelInfo)
    requires
        is_chunk(grid_view(old(g))),
        x < CHUNK_SIZE,
        y < CHUNK_SIZE,
    ensures
        grid_view(final(g)) == painted(grid_view(old(g)), x as int, y as int, p),
        is_chunk(grid_view(final(g))),
{
    let xi = x as usize;
    let yi = y as usize;
    assert(g@[xi as int]@ == grid_view(g)[xi as int]);
    let mut row: Vec<PixelInfo> = Vec::new();
    std::mem::swap(&mut row, &mut g[xi]);
    row.set(yi, p);
    std::mem::swap(&mut row, &mut g[xi]);
    proof {
        lemma_painted_is_chunk(grid_view(old(g)), x as int, y as int, p);
    }
    assert(grid_view(g) =~= painted(grid_view(old(g)), x as int, y as int, p));
}

/// An equal chunk, owned separately.
pub fn copy_grid(g: &Vec<Vec<PixelInfo>>) -> (r: Vec<Vec<PixelInfo>>)
    ensures
        grid_view(&r) == grid_view(g),
{
    let mut out: Vec<Vec<PixelInfo>> = Vec::new();
    for i in 0..g.len()
        invariant
            out@.len() == i,
            forall|k: int| 0 <= k < i ==> #[trigger] out@[k]@ == g@[k]@,
    {
        let src = &g[i];
        let mut row: Vec<PixelInfo> = Vec::new();
        for j in 0..src.len()
            invariant
                row@.len() == j,
                forall|k: int| 0 <= k < j ==> #[trigger] row@[k] == src@[k],
        {
            row.push(src[j].duplicate());
        }
        assert(row@ =~= src@);
        out.push(row);
    }
    assert(grid_view(&out) =~= grid_view(g));
    out
}

/// A chunk that has been drawn on, with its chunk coordinates.
struct ChunkEntry {
    x: u64,
    y: u64,
    grid: Vec<Vec<PixelInfo>>,
}

/// What the stored chunk at (`cx`, `cy`) reads as: the stored one, or the
/// default chunk where nothing has been drawn.
pub open spec fn chunk_of(m: Map<(u64, u64), Seq<Seq<PixelInfo>>>, cx: u64, cy: u64) -> Seq<Seq<PixelInfo>> {
    if m.contains_key((cx, cy)) {
        m[(cx, cy)]
    } else {
        default_grid()
    }
}

/// Every stored chunk has the shape of a chunk.
pub open spec fn chunks_wf(m: Map<(u64, u64), Seq<Seq<PixelInfo>>>) -> bool {
    forall|k: (u64, u64)| #[trigger] m.contains_key(k) ==> is_chunk(m[k])
}

/// The chunks drawn on so far, keyed by their chunk coordinates. A chunk
/// enters the store the first time one of its cells is painted, and never
/// leaves it.
pub struct ChunkStore {
    entries: Vec<ChunkEntry>,
    chunks: Ghost<Map<(u64, u64), Seq<Seq<PixelInfo>>>>,
}

impl View for ChunkStore {
    type V = Map<(u64, u64), Seq<Seq<PixelInfo>>>;

    closed spec fn view(&self) -> Self::V {
        self.chunks@
    }
}

impl ChunkStore {
    #[verifier::type_invariant]
    pub closed spec fn inv(&self) -> bool {
        &&& forall|i: int, j: int|
            0 <= i < j < self.entries@.len() ==> !(self.entries@[i].x == self.entries@[j].x
                && self.entries@[i].y == self.entries@[j].y)
        &&& forall|i: int|
            0 <= i < self.entries@.len() ==> {
                let e = #[trigger] self.entries@[i];
                &&& self.chunks@.contains_key((e.x, e.y))
                &&& self.chunks@[(e.x, e.y)] == grid_view(&e.grid)
            }
        &&& forall|k: (u64, u64)|
            #[trigger] self.chunks@.contains_key(k) ==> exists|i: int|
                0 <= i < self.entries@.len() && self.entries@[i].x == k.0 && self.entries@[i].y
                    == k.1
        &&& chunks_wf(self.chunks@)
    }

    /// Every chunk in a valid store has the shape of a chunk.
    pub proof fn lemma_chunks_wf(&self)
        requires
            self.inv(),
        ensures
            chunks_wf(self@),
    {
    }

    /// A store without chunks.
    pub fn new() -> (r: ChunkStore)
        ensures
            r@ == Map::<(u64, u64), Seq<Seq<PixelInfo>>>::empty(),
            chunks_wf(r@),
    {
        ChunkStore { entries: Vec::new(), chunks: Ghost(Map::empty()) }
    }

    fn find(&self, cx: u64, cy: u64) -> (r: Option<usize>)
        ensures
            match r {
                Some(i) => {
                    &&& i < self.entries@.len()
                    &&& self.entries@[i as int].x == cx
                    &&& self.entries@[i as int].y == cy
                },
                None => !self@.contains_key((cx, cy)),
            },
    {
        proof {
            use_type_invariant(self);
        }
        let mut i: usize = 0;
        while i < self.entries.len()
            invariant
                i <= self.entries@.len(),
                forall|j: int|
                    0 <= j < i ==> !(#[trigger] self.entries@[j].x == cx && self.entries@[j].y
                        == cy),
            decreases self.entries@.len() - i,
        {
            if self.entries[i].x == cx && self.entries[i].y == cy {
                return Some(i);
            }
            i = i + 1;
        }
        None
    }

    /// The chunk at (`cx`, `cy`): a copy of the stored one, or the default
    /// chunk where nothing has been drawn.
    pub fn chunk(&self, cx: u64, cy: u64) -> (r: Vec<Vec<PixelInfo>>)
        ensures
            grid_view(&r) == chunk_of(self@, cx, cy),
            chunks_wf(self@),
    {
        proof {
            use_type_invariant(self);
        }
        match self.find(cx, cy) {
            Some(i) => copy_grid(&self.entries[i].grid),
            None => default_chunk(),
        }
    }

    /// Replaces cell (`x`, `y`) of the chunk at (`cx`, `cy`) by `p`,
    /// storing the chunk first if it was not there.
    pub fn paint(&mut self, cx: u64, cy: u64, x: u64, y: u64, p: PixelInfo)
        requires
            x < CHUNK_SIZE,
            y < CHUNK_SIZE,
        ensures
            final(self)@ == old(self)@.insert(
                (cx, cy),
                painted(chunk_of(old(self)@, cx, cy), x as int, y as int, p),
            ),
            chunks_wf(final(self)@),
    {
        proof {
            use_type_invariant(&*self);
        }
        let ghost old_map = self@;
        let ghost new_grid = painted(chunk_of(old_map, cx, cy), x as int, y as int, p);
        let ghost new_map = old_map.insert((cx, cy), new_grid);
        let found = self.find(cx, cy);
        // The entries are changed outside the store and the store rebuilt
        // from them, so that its invariant is only checked once all of it
        // holds again.
        let mut taken = ChunkStore::new();
        std::mem::swap(self, &mut taken);
        proof {
            use_type_invariant(&taken);
        }
        let ChunkStore { entries: mut entries, chunks: _ } = taken;
        let ghost old_entries = entries@;
        match found {
            Some(i) => {
                let mut g: Vec<Vec<PixelInfo>> = Vec::new();
                std::mem::swap(&mut g, &mut entries[i].grid);
                proof {
                    assert(grid_view(&g) == old_map[(cx, cy)]);
                    assert(is_chunk(old_map[(cx, cy)]));
                }
                paint(&mut g, x, y, p);
                std::mem::swap(&mut g, &mut entries[i].grid);
                proof {
                    assert forall|j: int| 0 <= j < entries@.len() && j != i implies #[trigger] entries@[j]
                        == old_entries[j] by {}
                    assert forall|k: (u64, u64)| #[trigger] new_map.contains_key(k) implies exists|j: int|
                        0 <= j < entries@.len() && entries@[j].x == k.0 && entries@[j].y == k.1 by {
                        if k == (cx, cy) {
                            assert(entries@[i as int].x == k.0 && entries@[i as int].y == k.1);
                        } else {
                            assert(old_map.contains_key(k));
                            let j = choose|j: int|
                                0 <= j < old_entries.len() && old_entries[j].x == k.0
                                    && old_entries[j].y == k.1;
                            assert(entries@[j].x == k.0 && entries@[j].y == k.1);
                        }
                    }
                }
            },
            None => {
                let mut g = default_chunk();
                proof {
                    lemma_default_is_chunk();
                }
                paint(&mut g, x, y, p);
                entries.push(ChunkEntry { x: cx, y: cy, grid: g });
                proof {
                    assert forall|j: int| 0 <= j < old_entries.len() implies #[trigger] entries@[j]
                        == old_entries[j] && !(old_entries[j].x == cx && old_entries[j].y == cy) by {
                        assert(old_map.contains_key((old_entries[j].x, old_entries[j].y)));
                    }
                    let n = old_entries.len() as int;
                    assert(entries@[n].x == cx && entries@[n].y == cy);
                    assert forall|k: (u64, u64)| #[trigger] new_map.contains_key(k) implies exists|j: int|
                        0 <= j < entries@.len() && entries@[j].x == k.0 && entries@[j].y == k.1 by {
                        if k == (cx, cy) {
                            assert(entries@[n].x == k.0 && entries@[n].y == k.1);
                        } else {
                            assert(old_map.contains_key(k));
                            let j = choose|j: int|
                                0 <= j < old_entries.len() && old_entries[j].x == k.0
                                    && old_entries[j].y == k.1;
                            assert(entries@[j].x == k.0 && entries@[j].y == k.1);
                        }
                    }
                }
            },
        }
        proof {
            lemma_painted_is_chunk(chunk_of(old_map, cx, cy), x as int, y as int, p);
            let r = ChunkStore { entries, chunks: Ghost(new_map) };
            assert(r.entries@ == entries@);
            assert(r.chunks@ == new_map);
            assert(r.inv());
        }
        *self = ChunkStore { entries, chunks: Ghost(new_map) };
    }
}

} // verus!
