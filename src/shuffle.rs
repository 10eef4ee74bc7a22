use vstd::prelude::*;

verus! {

/// Seed of the generator that `default` builds.
pub const DEFAULT_SEED: u64 = 0x2545F4914F6CDD1D;

/// Every entry of `s` is below `bound`.
pub open spec fn all_below(s: Seq<usize>, bound: int) -> bool {
    forall|k: int| 0 <= k < s.len() ==> #[trigger] s[k] < bound
}

/// `0, 1, ..., len - 1`, with `first` moved to the front and 0 put in its slot.
pub open spec fn picking_first(len: nat, first: usize) -> Seq<usize> {
    Seq::new(
        len,
        |k: int|
            if first < len && k == 0 {
                first
            } else if first < len && k == first {
                0
            } else {
                k as usize
            },
    )
}

/// `s` names each slot below `len` exactly once and nothing else.
pub open spec fn covers(s: Seq<usize>, len: usize) -> bool {
    &&& s.no_duplicates()
    &&& all_below(s, len as int)
    &&& forall|v: usize| v < len ==> #[trigger] s.contains(v)
}

/// Pushing a slot below `len` that `s` lacks keeps `s` free of repeats and
/// below `len`, and adds just that slot.
proof fn lemma_push_fresh(s: Seq<usize>, e: usize, len: usize)
    requires
        s.no_duplicates(),
        all_below(s, len as int),
        !s.contains(e),
        e < len,
    ensures
        s.push(e).no_duplicates(),
        all_below(s.push(e), len as int),
        forall|u: usize| #[trigger] s.push(e).contains(u) <==> (s.contains(u) || u == e),
{
    assert forall|u: usize| #[trigger] s.push(e).contains(u) <==> (s.contains(u) || u == e) by {
        if s.push(e).contains(u) {
            let k = choose|k: int| 0 <= k < s.push(e).len() && s.push(e)[k] == u;
            if k < s.len() {
                assert(s[k] == u);
            }
        }
        if s.contains(u) {
            let k = choose|k: int| 0 <= k < s.len() && s[k] == u;
            assert(s.push(e)[k] == u);
        }
        if u == e {
            assert(s.push(e)[s.len() as int] == u);
        }
    }
    assert forall|i: int, j: int| 0 <= i < s.push(e).len() && 0 <= j < s.push(e).len() && i != j
        implies s.push(e)[i] != s.push(e)[j] by {
        if i == s.len() && j < s.len() {
            assert(s.contains(s[j]));
        } else if j == s.len() && i < s.len() {
            assert(s.contains(s[i]));
        }
    }
}

/// An order that names each slot below `len` exactly once has `len` entries.
pub proof fn lemma_covering_len(s: Seq<usize>, len: usize)
    requires
        s.no_duplicates(),
        all_below(s, len as int),
        forall|v: usize| v < len ==> #[trigger] s.contains(v),
    ensures
        s.len() == len,
{
    s.unique_seq_to_set();
    assert(s.to_set() =~= <usize as vstd::set_lib::FiniteRange>::range_set(0, len)) by {
        assert forall|x: usize| s.to_set().contains(x) implies x < len by {
            let k = choose|k: int| 0 <= k < s.len() && s[k] == x;
            assert(s[k] < len);
        }
    }
    vstd::set_lib::range_set_properties::<usize>(0, len);
}

/// The order that `picking_first` builds names only slots below `len`.
pub proof fn lemma_picking_first_below(len: nat, first: usize)
    ensures
        all_below(picking_first(len, first), len as int),
{
}

/// The order that `picking_first` builds names no slot twice.
pub proof fn lemma_picking_first_distinct(len: nat, first: usize)
    requires
        len <= usize::MAX,
    ensures
        picking_first(len, first).no_duplicates(),
{
    let s = picking_first(len, first);
    assert forall|i: int, j: int| 0 <= i < s.len() && 0 <= j < s.len() && i != j
        implies s[i] != s[j] by {
        assert(s[i] == (if first < len && i == 0 { first as int } else if first < len && i == first { 0 } else { i }));
        assert(s[j] == (if first < len && j == 0 { first as int } else if first < len && j == first { 0 } else { j }));
    }
}

/// A shuffled order over the slots of a list, drawn lazily: the first
/// `picked` entries are fixed, the rest are drawn when they are reached.
#[derive(Debug)]
pub struct LazyRandomIndex {
    indices: Vec<usize>,
    picked: usize,
    state: u64,
}

impl LazyRandomIndex {
    pub closed spec fn view(&self) -> Seq<usize> {
        self.indices@
    }

    /// How many entries from the front are already drawn.
    pub closed spec fn spec_picked(&self) -> nat {
        self.picked as nat
    }

    pub open spec fn wf(&self) -> bool {
        self.spec_picked() <= self@.len()
    }

    /// An empty order whose draws start from `seed`.
    pub fn new(seed: u64) -> (r: Self)
        ensures
            r.wf(),
            r@ == Seq::<usize>::empty(),
    {
        LazyRandomIndex { indices: Vec::new(), picked: 0, state: seed }
    }

    /// The slot at shuffled position `i`.
    pub fn get(&self, i: usize) -> (r: Option<usize>)
        ensures
            r == (if i < self@.len() { Some(self@[i as int]) } else { None::<usize> }),
    {
        if i < self.indices.len() {
            Some(self.indices[i])
        } else {
            None
        }
    }

    fn draw(&mut self) -> (r: u64)
        ensures
            final(self).indices == old(self).indices,
            final(self).picked == old(self).picked,
    {
        self.state = self.state.wrapping_mul(6364136223846793005).wrapping_add(1442695040888963407);
        self.state >> 33
    }

    /// Extends the order to `len` slots; the new slots come last, in order.
    pub fn grow(&mut self, len: usize)
        requires
            old(self).wf(),
        ensures
            final(self).wf(),
            final(self)@ == (if len <= old(self)@.len() {
                old(self)@
            } else {
                old(self)@ + Seq::new((len - old(self)@.len()) as nat, |k: int| (k + old(self)@.len()) as usize)
            }),
            final(self).spec_picked() == old(self).spec_picked(),
            old(self)@.no_duplicates() && all_below(old(self)@, old(self)@.len() as int)
                ==> final(self)@.no_duplicates(),
    {
        let ghost start = self.indices@;
        let mut next = self.indices.len();
        while next < len
            invariant
                start.len() <= next <= len || (next == start.len() && len <= next),
                self.indices@ == start + Seq::new((next - start.len()) as nat, |k: int| (k + start.len()) as usize),
                self.picked == old(self).picked,
                self.picked <= start.len(),
            decreases len - next,
        {
            self.indices.push(next);
            next = next + 1;
        }
        proof {
            if len <= start.len() {
                assert(self.indices@ =~= start);
            }
            if start.no_duplicates() && all_below(start, start.len() as int) {
                let f = self.indices@;
                assert forall|i: int, j: int| 0 <= i < f.len() && 0 <= j < f.len() && i != j
                    implies f[i] != f[j] by {
                    if i < start.len() && j >= start.len() {
                        assert(f[i] == start[i]);
                    } else if j < start.len() && i >= start.len() {
                        assert(f[j] == start[j]);
                    } else if i < start.len() && j < start.len() {
                        assert(f[i] == start[i] && f[j] == start[j]);
                    }
                }
            }
        }
    }

    /// Cuts the order down to the slots below `len`: the entries below `len`
    /// keep their order (a repeated one counts once), and any slot below `len`
    /// that is missing follows, in increasing order. The result is an order
    /// over exactly `len` slots.
    pub fn shrink(&mut self, len: usize)
        requires
            old(self).wf(),
        ensures
            final(self).wf(),
            covers(final(self)@, len),
            final(self)@.len() == len,
    {
        let mut seen: Vec<bool> = Vec::new();
        let mut v: usize = 0;
        while v < len
            invariant
                v <= len,
                seen@.len() == v,
                forall|u: int| 0 <= u < v ==> !#[trigger] seen@[u],
            decreases len - v,
        {
            seen.push(false);
            v = v + 1;
        }
        let mut out: Vec<usize> = Vec::new();
        let mut kept: usize = 0;
        let mut i: usize = 0;
        while i < self.indices.len()
            invariant
                i <= self.indices@.len(),
                seen@.len() == len,
                out@.len() <= i,
                kept <= out@.len(),
                out@.no_duplicates(),
                all_below(out@, len as int),
                forall|u: int| 0 <= u < len ==> (#[trigger] seen@[u] <==> out@.contains(u as usize)),
            decreases self.indices@.len() - i,
        {
            let e = self.indices[i];
            if e < len && !seen[e] {
                let ghost before = out@;
                out.push(e);
                seen.set(e, true);
                proof {
                    lemma_push_fresh(before, e, len);
                }
                if i < self.picked {
                    kept = kept + 1;
                }
            }
            i = i + 1;
        }
        let mut v: usize = 0;
        while v < len
            invariant
                v <= len,
                seen@.len() == len,
                kept <= out@.len(),
                out@.no_duplicates(),
                all_below(out@, len as int),
                forall|u: int| 0 <= u < len ==> (#[trigger] seen@[u] <==> out@.contains(u as usize)),
                forall|u: int| 0 <= u < v ==> #[trigger] seen@[u],
            decreases len - v,
        {
            if !seen[v] {
                let ghost before = out@;
                out.push(v);
                seen.set(v, true);
                proof {
                    lemma_push_fresh(before, v, len);
                }
            }
            v = v + 1;
        }
        proof {
            assert forall|u: usize| u < len implies out@.contains(u) by {
                assert(seen@[u as int]);
            }
            lemma_covering_len(out@, len);
        }
        self.indices = out;
        self.picked = kept;
    }

    /// Grows or shrinks the order to `len` slots.
    pub fn resize(&mut self, len: usize)
        requires
            old(self).wf(),
        ensures
            final(self).wf(),
            len >= old(self)@.len() ==> final(self)@ == old(self)@ + Seq::new(
                (len - old(self)@.len()) as nat,
                |k: int| (k + old(self)@.len()) as usize,
            ),
            len < old(self)@.len() ==> covers(final(self)@, len),
            final(self)@.len() == len,
            all_below(old(self)@, len as int) ==> all_below(final(self)@, len as int),
            old(self)@.no_duplicates() && all_below(old(self)@, old(self)@.len() as int)
                ==> final(self)@.no_duplicates(),
    {
        if len >= self.indices.len() {
            self.grow(len);
        } else {
            self.shrink(len);
        }
    }

    /// Starts a new order over the same number of slots whose first entry is
    /// `first`; that entry counts as drawn.
    pub fn reset_picking_first(&mut self, first: usize)
        ensures
            final(self).wf(),
            final(self)@ == picking_first(old(self)@.len(), first),
            final(self)@.no_duplicates(),
            final(self).spec_picked() == (if old(self)@.len() > 0 { 1nat } else { 0nat }),
    {
        let len = self.indices.len();
        let mut out: Vec<usize> = Vec::new();
        let mut k: usize = 0;
        while k < len
            invariant
                k <= len,
                len == old(self)@.len(),
                out@ == picking_first(len as nat, first).take(k as int),
            decreases len - k,
        {
            let v = if first < len && k == 0 {
                first
            } else if first < len && k == first {
                0
            } else {
                k
            };
            out.push(v);
            assert(picking_first(len as nat, first).take(k + 1) == picking_first(len as nat, first).take(k as int).push(v));
            k = k + 1;
        }
        assert(picking_first(len as nat, first).take(len as int) == picking_first(len as nat, first));
        self.indices = out;
        self.picked = if len > 0 { 1 } else { 0 };
        proof {
            lemma_picking_first_distinct(len as nat, first);
        }
    }

    /// Draws entries until the first `n` are fixed or none is left to draw.
    /// Entries already drawn stay where they are; the others are exchanged
    /// among themselves.
    pub fn next_until(&mut self, n: usize)
        requires
            old(self).wf(),
        ensures
            final(self).wf(),
            final(self)@.len() == old(self)@.len(),
            forall|k: int| 0 <= k < old(self).spec_picked() ==> final(self)@[k] == old(self)@[k],
            forall|b: int| #[trigger] all_below(old(self)@, b) ==> all_below(final(self)@, b),
            final(self)@.to_multiset() == old(self)@.to_multiset(),
            old(self)@.no_duplicates() ==> final(self)@.no_duplicates(),
            final(self).spec_picked() == (if n <= old(self).spec_picked() {
                old(self).spec_picked()
            } else if n <= old(self)@.len() {
                n as nat
            } else {
                old(self)@.len()
            }),
    {
        let ghost start = self.indices@;
        while self.picked < n && self.picked < self.indices.len()
            invariant
                self.picked <= self.indices@.len(),
                self.indices@.len() == start.len(),
                old(self).picked <= self.picked,
                forall|k: int| 0 <= k < old(self).picked ==> self.indices@[k] == start[k],
                forall|b: int| #[trigger] all_below(start, b) ==> all_below(self.indices@, b),
                self.indices@.to_multiset() == start.to_multiset(),
                self.picked == old(self).picked || self.picked <= n,
                start.no_duplicates() ==> self.indices@.no_duplicates(),
            decreases self.indices@.len() - self.picked,
        {
            let p = self.picked;
            let span = (self.indices.len() - p) as u64;
            let j = p + (self.draw() % span) as usize;
            let a = self.indices[p];
            let b = self.indices[j];
            let ghost before = self.indices@;
            self.indices.set(p, b);
            let ghost middle = self.indices@;
            self.indices.set(j, a);
            proof {
                broadcast use vstd::seq_lib::to_multiset_update;
                broadcast use vstd::multiset::group_multiset_properties;
                assert(middle.to_multiset() == before.to_multiset().insert(b).remove(a));
                assert(middle[j as int] == b);
                assert(self.indices@.to_multiset() == middle.to_multiset().insert(a).remove(b));
                assert(before.to_multiset().count(a) > 0) by {
                    vstd::seq_lib::to_multiset_contains(before, a);
                }
                assert(self.indices@.to_multiset() =~= before.to_multiset());
                if before.no_duplicates() {
                    let f = self.indices@;
                    assert forall|x: int, y: int| 0 <= x < f.len() && 0 <= y < f.len() && x != y
                        implies f[x] != f[y] by {
                        let sx = if x == p as int { j as int } else if x == j as int { p as int } else { x };
                        let sy = if y == p as int { j as int } else if y == j as int { p as int } else { y };
                        assert(f[x] == before[sx]);
                        assert(f[y] == before[sy]);
                    }
                }
            }
            assert forall|bound: int| #[trigger] all_below(start, bound) implies all_below(self.indices@, bound) by {
                assert(all_below(before, bound));
                assert forall|k: int| 0 <= k < self.indices@.len() implies #[trigger] self.indices@[k] < bound by {
                    if k == p as int {
                        assert(before[j as int] < bound);
                    } else if k == j as int {
                        assert(before[p as int] < bound);
                    } else {
                        assert(before[k] < bound);
                    }
                }
            }
            self.picked = p + 1;
        }
    }
}

impl Default for LazyRandomIndex {
    fn default() -> (r: Self)
        ensures
            r.wf(),
            r@ == Seq::<usize>::empty(),
    {
        LazyRandomIndex::new(DEFAULT_SEED)
    }
}

} // verus!
