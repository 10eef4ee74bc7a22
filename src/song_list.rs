use vstd::prelude::*;
use crate::song::{Batch, SongBatch, SongDescription};

verus! {

/// An ordered, paginated list of songs. Its length is the length of the
/// whole list; a slot whose page has not been loaded yet holds `None`.
#[derive(Debug)]
pub struct SongListModel {
    entries: Vec<Option<SongDescription>>,
    batch_size: usize,
}

/// Slot `i` holds a loaded song with id `id`.
pub open spec fn has_id(s: Seq<Option<SongDescription>>, i: int, id: Seq<char>) -> bool {
    0 <= i < s.len() && s[i] is Some && s[i]->Some_0.id@ == id
}

/// Some entry of `ids` is `id`.
pub open spec fn listed(ids: Seq<String>, id: Seq<char>) -> bool {
    exists|k: int| 0 <= k < ids.len() && #[trigger] ids[k]@ == id
}

/// Slot `e` is a loaded song whose id is listed in `ids`.
pub open spec fn is_removed(e: Option<SongDescription>, ids: Seq<String>) -> bool {
    e is Some && listed(ids, e->Some_0.id@)
}

/// `s` without the loaded songs whose ids are listed in `ids`, order kept.
pub open spec fn without_ids(s: Seq<Option<SongDescription>>, ids: Seq<String>) -> Seq<
    Option<SongDescription>,
>
    decreases s.len(),
{
    if s.len() == 0 {
        s
    } else {
        let rest = without_ids(s.drop_last(), ids);
        if is_removed(s.last(), ids) {
            rest
        } else {
            rest.push(s.last())
        }
    }
}

/// The loaded songs of `s`, order kept.
pub open spec fn loaded(s: Seq<Option<SongDescription>>) -> Seq<SongDescription>
    decreases s.len(),
{
    if s.len() == 0 {
        Seq::empty()
    } else {
        let rest = loaded(s.drop_last());
        match s.last() {
            Some(song) => rest.push(song),
            None => rest,
        }
    }
}

/// `s` with slots `i` and `i + 1` exchanged.
pub open spec fn swapped(s: Seq<Option<SongDescription>>, i: int) -> Seq<Option<SongDescription>> {
    s.update(i, s[i + 1]).update(i + 1, s[i])
}

/// Length of the list once `b` has been added to a list of length `len`.
pub open spec fn len_with_batch(len: int, b: SongBatch) -> int {
    let end = b.batch.offset + b.songs@.len();
    let l = if len < b.batch.total { b.batch.total as int } else { len };
    if l < end { end } else { l }
}

/// `s` with the songs of `b` placed from its offset on, grown to fit.
pub open spec fn with_batch(s: Seq<Option<SongDescription>>, b: SongBatch) -> Seq<
    Option<SongDescription>,
> {
    Seq::new(
        len_with_batch(s.len() as int, b) as nat,
        |j: int|
            if b.batch.offset <= j < b.batch.offset + b.songs@.len() {
                Some(b.songs@[j - b.batch.offset])
            } else if j < s.len() {
                s[j]
            } else {
                None
            },
    )
}

/// Adding `b` to `s` grows it or fills a slot that was not loaded.
pub open spec fn batch_changes(s: Seq<Option<SongDescription>>, b: SongBatch) -> bool {
    len_with_batch(s.len() as int, b) > s.len() || exists|j: int|
        b.batch.offset <= j < b.batch.offset + b.songs@.len() && j < s.len() && #[trigger] s[j]
            is None
}

/// Whether `id` is one of `ids`.
fn is_listed(ids: &[String], id: &String) -> (r: bool)
    ensures
        r == listed(ids@, id@),
{
    let mut k: usize = 0;
    while k < ids.len()
        invariant
            k <= ids@.len(),
            forall|m: int| 0 <= m < k ==> ids@[m]@ != id@,
        decreases ids@.len() - k,
    {
        if ids[k] == *id {
            return true;
        }
        k = k + 1;
    }
    false
}

impl SongListModel {
    pub closed spec fn view(&self) -> Seq<Option<SongDescription>> {
        self.entries@
    }

    pub closed spec fn spec_batch_size(&self) -> usize {
        self.batch_size
    }

    pub open spec fn wf(&self) -> bool {
        self.spec_batch_size() > 0
    }

    /// An empty list whose pages are `batch_size` songs long.
    pub fn new(batch_size: usize) -> (r: Self)
        requires
            batch_size > 0,
        ensures
            r.wf(),
            r@ == Seq::<Option<SongDescription>>::empty(),
            r.spec_batch_size() == batch_size,
    {
        SongListModel { entries: Vec::new(), batch_size }
    }

    pub fn len(&self) -> (r: usize)
        ensures
            r == self@.len(),
    {
        self.entries.len()
    }

    /// The song in slot `i`, if that slot exists and is loaded.
    pub fn index(&self, i: usize) -> (r: Option<&SongDescription>)
        ensures
            r == (if i < self@.len() {
                match self@[i as int] {
                    Some(s) => Some(&s),
                    None => None::<&SongDescription>,
                }
            } else {
                None::<&SongDescription>
            }),
    {
        if i < self.entries.len() {
            match &self.entries[i] {
                Some(s) => Some(s),
                None => None,
            }
        } else {
            None
        }
    }

    /// The first slot that holds a song with id `id`.
    pub fn find_index(&self, id: &str) -> (r: Option<usize>)
        ensures
            match r {
                Some(i) => has_id(self@, i as int, id@) && forall|j: int|
                    0 <= j < i ==> !has_id(self@, j, id@),
                None => forall|j: int| 0 <= j < self@.len() ==> !has_id(self@, j, id@),
            },
    {
        let key = id.to_owned();
        let mut i: usize = 0;
        while i < self.entries.len()
            invariant
                i <= self@.len(),
                key@ == id@,
                forall|j: int| 0 <= j < i ==> !has_id(self@, j, id@),
            decreases self@.len() - i,
        {
            if let Some(s) = &self.entries[i] {
                if s.id == key {
                    return Some(i);
                }
            }
            i = i + 1;
        }
        None
    }

    /// The page that holds slot `i`, when that slot exists and is not loaded.
    pub open spec fn spec_needed_batch_for(&self, i: usize) -> Option<Batch> {
        if i < self@.len() && self@[i as int] is None {
            Some(
                Batch {
                    offset: ((i / self.spec_batch_size()) * self.spec_batch_size()) as usize,
                    batch_size: self.spec_batch_size(),
                    total: self@.len() as usize,
                },
            )
        } else {
            None
        }
    }

    /// The page that has to be fetched for slot `i` to hold a song.
    pub fn needed_batch_for(&self, i: usize) -> (r: Option<Batch>)
        requires
            self.wf(),
        ensures
            r == self.spec_needed_batch_for(i),
    {
        if i < self.entries.len() && self.entries[i].is_none() {
            let page: usize = i / self.batch_size;
            assert(page * self.batch_size <= i) by (nonlinear_arith)
                requires
                    page == i / self.batch_size,
                    self.batch_size > 0,
            ;
            Some(
                Batch {
                    offset: page * self.batch_size,
                    batch_size: self.batch_size,
                    total: self.entries.len(),
                },
            )
        } else {
            None
        }
    }

    /// Empties the list.
    pub fn clear(&mut self)
        ensures
            final(self)@ == Seq::<Option<SongDescription>>::empty(),
            final(self).spec_batch_size() == old(self).spec_batch_size(),
    {
        self.entries = Vec::new();
    }

    /// Appends `tracks`, all loaded.
    pub fn append(&mut self, tracks: Vec<SongDescription>)
        ensures
            final(self)@ == old(self)@ + tracks@.map_values(|s: SongDescription| Some(s)),
            final(self).spec_batch_size() == old(self).spec_batch_size(),
    {
        let ghost start = self.entries@;
        let mut rest = tracks;
        while rest.len() > 0
            invariant
                rest@.len() <= tracks@.len(),
                self.batch_size == old(self).batch_size,
                rest@ == tracks@.skip(tracks@.len() - rest@.len()),
                self.entries@ == start + tracks@.take(tracks@.len() - rest@.len()).map_values(
                    |s: SongDescription| Some(s),
                ),
            decreases rest@.len(),
        {
            let ghost k = tracks@.len() - rest@.len();
            let s = rest.remove(0);
            assert(tracks@.take(k + 1) == tracks@.take(k).push(s));
            assert(rest@ == tracks@.skip(k + 1));
            self.entries.push(Some(s));
            assert(self.entries@ == start + tracks@.take(k + 1).map_values(
                |s: SongDescription| Some(s),
            ));
        }
        assert(tracks@.take(tracks@.len() as int) == tracks@);
    }

    /// Adds the songs of one page at its offset, growing the list to the
    /// page's total and to its end. Returns whether the list grew or a slot
    /// that was not loaded got a song.
    pub fn add(&mut self, batch: SongBatch) -> (r: bool)
        requires
            batch.batch.offset + batch.songs@.len() <= usize::MAX,
        ensures
            final(self)@ == with_batch(old(self)@, batch),
            r == batch_changes(old(self)@, batch),
            final(self).spec_batch_size() == old(self).spec_batch_size(),
    {
        let ghost start = self.entries@;
        let off = batch.batch.offset;
        let n = batch.songs.len();
        let end = off + n;
        let mut target = self.entries.len();
        if target < batch.batch.total {
            target = batch.batch.total;
        }
        if target < end {
            target = end;
        }
        let mut changed = target > self.entries.len();
        while self.entries.len() < target
            invariant
                start.len() <= self.entries@.len() <= target,
                self.batch_size == old(self).batch_size,
                forall|j: int| 0 <= j < start.len() ==> self.entries@[j] == start[j],
                forall|j: int| start.len() <= j < self.entries@.len() ==> self.entries@[j] is None,
            decreases target - self.entries@.len(),
        {
            self.entries.push(None);
        }
        let ghost songs0 = batch.songs@;
        let mut songs = batch.songs;
        let mut k: usize = 0;
        while songs.len() > 0
            invariant
                k + songs@.len() == n,
                n == songs0.len(),
                end == off + n,
                end <= target,
                target == len_with_batch(start.len() as int, batch),
                songs0 == batch.songs@,
                off == batch.batch.offset,
                songs@ == songs0.skip(k as int),
                self.batch_size == old(self).batch_size,
                self.entries@.len() == target,
                forall|j: int|
                    0 <= j < target ==> #[trigger] self.entries@[j] == (if off <= j < off + k {
                        Some(songs0[j - off])
                    } else if j < start.len() {
                        start[j]
                    } else {
                        None
                    }),
                changed == (target > start.len() || exists|j: int|
                    off <= j < off + k && j < start.len() && #[trigger] start[j] is None),
            decreases songs@.len(),
        {
            let s = songs.remove(0);
            assert(songs@ == songs0.skip(k as int + 1));
            let j = off + k;
            if self.entries[j].is_none() {
                changed = true;
            }
            self.entries.set(j, Some(s));
            k = k + 1;
        }
        assert(self.entries@ == with_batch(start, batch));
        changed
    }

    /// Removes the loaded songs whose ids are listed in `ids`. Returns whether
    /// any was removed.
    pub fn remove(&mut self, ids: &[String]) -> (r: bool)
        ensures
            final(self)@ == without_ids(old(self)@, ids@),
            r == (final(self)@.len() < old(self)@.len()),
            final(self).spec_batch_size() == old(self).spec_batch_size(),
    {
        let ghost start = self.entries@;
        let old_len = self.entries.len();
        let mut rest: Vec<Option<SongDescription>> = Vec::new();
        std::mem::swap(&mut self.entries, &mut rest);
        while rest.len() > 0
            invariant
                rest@.len() <= start.len(),
                rest@ == start.skip(start.len() - rest@.len()),
                self.batch_size == old(self).batch_size,
                self.entries@ == without_ids(start.take(start.len() - rest@.len()), ids@),
                self.entries@.len() <= start.len() - rest@.len(),
            decreases rest@.len(),
        {
            let ghost k = start.len() - rest@.len();
            let e = rest.remove(0);
            assert(rest@ == start.skip(k + 1));
            assert(start.take(k + 1).drop_last() == start.take(k));
            let drop = match &e {
                Some(song) => is_listed(ids, &song.id),
                None => false,
            };
            if !drop {
                self.entries.push(e);
            }
        }
        assert(start.take(start.len() as int) == start);
        self.entries.len() < old_len
    }

    /// Exchanges slot `i` with the one after it; nothing happens when `i` is
    /// the last slot or past the end.
    pub fn move_down(&mut self, i: usize)
        ensures
            final(self)@ == (if i + 1 < old(self)@.len() {
                swapped(old(self)@, i as int)
            } else {
                old(self)@
            }),
            final(self).spec_batch_size() == old(self).spec_batch_size(),
    {
        if i < self.entries.len() && i + 1 < self.entries.len() {
            let e = self.entries.remove(i + 1);
            self.entries.insert(i, e);
            assert(self.entries@ =~= swapped(old(self)@, i as int));
        }
    }

    /// Exchanges slot `i` with the one before it; nothing happens when `i` is
    /// the first slot or past the end.
    pub fn move_up(&mut self, i: usize)
        ensures
            final(self)@ == (if 0 < i < old(self)@.len() {
                swapped(old(self)@, i - 1)
            } else {
                old(self)@
            }),
            final(self).spec_batch_size() == old(self).spec_batch_size(),
    {
        if 0 < i && i < self.entries.len() {
            let e = self.entries.remove(i);
            self.entries.insert(i - 1, e);
            assert(self.entries@ =~= swapped(old(self)@, i - 1));
        }
    }

    /// Copies of the loaded songs, in order.
    pub fn collect(&self) -> (r: Vec<SongDescription>)
        ensures
            r@.len() == loaded(self@).len(),
            forall|k: int| 0 <= k < r@.len() ==> r@[k].same_as(&loaded(self@)[k]),
    {
        let mut out: Vec<SongDescription> = Vec::new();
        let mut i: usize = 0;
        while i < self.entries.len()
            invariant
                i <= self@.len(),
                out@.len() == loaded(self@.take(i as int)).len(),
                forall|k: int|
                    0 <= k < out@.len() ==> out@[k].same_as(&loaded(self@.take(i as int))[k]),
            decreases self@.len() - i,
        {
            assert(self@.take(i + 1).drop_last() == self@.take(i as int));
            if let Some(s) = &self.entries[i] {
                out.push(s.copied());
            }
            i = i + 1;
        }
        assert(self@.take(i as int) == self@);
        out
    }
}

} // verus!
