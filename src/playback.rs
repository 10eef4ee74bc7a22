use vstd::prelude::*;
use crate::action::{next_repeat, reports_track_change, PlaybackAction, PlaybackEvent};
use crate::position::{PositionMillis, NORMAL_RATE};
use crate::shuffle::{DEFAULT_SEED, all_below, lemma_picking_first_below, picking_first, LazyRandomIndex};
use crate::song::{
    BatchQuery, ConnectDevice, Device, RepeatMode, SongBatch, SongDescription, SongsSource,
};
use crate::song_list::{has_id, with_batch, without_ids, batch_changes, SongListModel};

verus! {

/// Songs per page of a paginated list.
pub const BATCH_SIZE: usize = 50;

/// Up to this position (milliseconds) going back selects the previous
/// track; past it, going back restarts the current one.
pub const RESTART_THRESHOLD: u64 = 2000;

/// Logical index of the next track, from the position, the repeat mode and
/// the length of the list.
pub open spec fn next_of(pos: Option<usize>, repeat: RepeatMode, len: int) -> Option<usize> {
    match pos {
        None => None,
        Some(p) => match repeat {
            RepeatMode::Song => Some(p),
            RepeatMode::Playlist => if len > 0 {
                Some(((p + 1) % len) as usize)
            } else {
                None
            },
            RepeatMode::Off => if p + 1 < len {
                Some((p + 1) as usize)
            } else {
                None
            },
        },
    }
}

/// Logical index of the previous track.
pub open spec fn prev_of(pos: Option<usize>, repeat: RepeatMode, len: int) -> Option<usize> {
    match pos {
        None => None,
        Some(p) => match repeat {
            RepeatMode::Song => Some(p),
            RepeatMode::Playlist => if len > 0 {
                Some(if p == 0 { (len - 1) as usize } else { (p - 1) as usize })
            } else {
                None
            },
            RepeatMode::Off => if p > 0 {
                Some((p - 1) as usize)
            } else {
                None
            },
        },
    }
}

/// The id of a song, if there is one.
pub open spec fn id_of(s: Option<SongDescription>) -> Option<Seq<char>> {
    match s {
        Some(song) => Some(song.id@),
        None => None,
    }
}

/// `r` holds a string exactly when `id` does, with the same characters.
pub open spec fn same_id(r: Option<String>, id: Option<Seq<char>>) -> bool {
    match r {
        Some(s) => id == Some(s@),
        None => id is None,
    }
}

/// The state of the player: what is loaded, what plays, in which order,
/// and where.
#[derive(Debug)]
pub struct PlaybackState {
    available_devices: Vec<ConnectDevice>,
    current_device: Device,
    index: LazyRandomIndex,
    songs: SongListModel,
    list_position: Option<usize>,
    seek_position: PositionMillis,
    source: Option<SongsSource>,
    repeat: RepeatMode,
    is_playing: bool,
    is_shuffled: bool,
}

impl PlaybackState {
    pub closed spec fn spec_songs(&self) -> Seq<Option<SongDescription>> {
        self.songs@
    }

    pub closed spec fn spec_list(&self) -> SongListModel {
        self.songs
    }

    /// The current logical index.
    pub closed spec fn spec_position(&self) -> Option<usize> {
        self.list_position
    }

    /// Whether playback is wanted; it happens only while a track is loaded.
    pub closed spec fn spec_playing_flag(&self) -> bool {
        self.is_playing
    }

    pub closed spec fn spec_shuffled(&self) -> bool {
        self.is_shuffled
    }

    pub closed spec fn spec_repeat(&self) -> RepeatMode {
        self.repeat
    }

    /// The shuffled order: slot of the list at each logical index.
    pub closed spec fn spec_order(&self) -> Seq<usize> {
        self.index@
    }

    pub closed spec fn spec_order_picked(&self) -> nat {
        self.index.spec_picked()
    }

    pub closed spec fn spec_source(&self) -> Option<SongsSource> {
        self.source
    }

    pub closed spec fn spec_clock(&self) -> PositionMillis {
        self.seek_position
    }

    pub closed spec fn spec_devices(&self) -> Seq<ConnectDevice> {
        self.available_devices@
    }

    pub closed spec fn spec_device(&self) -> Device {
        self.current_device
    }

    /// The position is `None` or a slot of the list, and the shuffled order
    /// is a permutation of the slots of the list.
    pub open spec fn wf(&self) -> bool {
        &&& self.spec_list().wf()
        &&& self.spec_order_picked() <= self.spec_order().len()
        &&& self.spec_order().len() == self.spec_songs().len()
        &&& self.spec_order().no_duplicates()
        &&& all_below(self.spec_order(), self.spec_songs().len() as int)
        &&& match self.spec_position() {
            Some(p) => p < self.spec_songs().len(),
            None => true,
        }
    }

    pub open spec fn spec_len(&self) -> int {
        self.spec_songs().len() as int
    }

    pub open spec fn spec_is_playing(&self) -> bool {
        self.spec_playing_flag() && self.spec_position() is Some
    }

    pub open spec fn spec_next_index(&self) -> Option<usize> {
        next_of(self.spec_position(), self.spec_repeat(), self.spec_len())
    }

    pub open spec fn spec_prev_index(&self) -> Option<usize> {
        prev_of(self.spec_position(), self.spec_repeat(), self.spec_len())
    }

    /// The slot of the list that logical index `i` plays.
    pub open spec fn physical(&self, i: usize) -> Option<usize> {
        if self.spec_shuffled() {
            if i < self.spec_order().len() {
                Some(self.spec_order()[i as int])
            } else {
                None
            }
        } else {
            Some(i)
        }
    }

    /// The loaded song that logical index `i` plays.
    pub open spec fn song_at(&self, i: usize) -> Option<SongDescription> {
        match self.physical(i) {
            Some(p) => if p < self.spec_len() {
                self.spec_songs()[p as int]
            } else {
                None
            },
            None => None,
        }
    }

    pub open spec fn spec_current_song(&self) -> Option<SongDescription> {
        match self.spec_position() {
            Some(p) => self.song_at(p),
            None => None,
        }
    }

    pub open spec fn spec_current_id(&self) -> Option<Seq<char>> {
        id_of(self.spec_current_song())
    }

    /// The page to fetch so that the next track can play, with the source
    /// it belongs to.
    pub open spec fn spec_next_query(&self) -> Option<BatchQuery> {
        match self.spec_next_index() {
            None => None,
            Some(n) => match self.physical(n) {
                None => None,
                Some(p) => match self.spec_list().spec_needed_batch_for(p) {
                    None => None,
                    Some(batch) => match self.spec_source() {
                        None => None,
                        Some(source) => Some(BatchQuery { source, batch }),
                    },
                },
            },
        }
    }

    /// The list of songs.
    pub fn songs(&self) -> (r: &SongListModel)
        ensures
            *r == self.spec_list(),
    {
        &self.songs
    }

    /// Whether a track is loaded and playing.
    pub fn is_playing(&self) -> (r: bool)
        ensures
            r == self.spec_is_playing(),
    {
        self.is_playing && self.list_position.is_some()
    }

    pub fn is_shuffled(&self) -> (r: bool)
        ensures
            r == self.spec_shuffled(),
    {
        self.is_shuffled
    }

    pub fn repeat_mode(&self) -> (r: RepeatMode)
        ensures
            r == self.spec_repeat(),
    {
        self.repeat
    }

    /// The page to fetch before the next track can play, if it is missing.
    pub fn next_query(&self) -> (r: Option<BatchQuery>)
        requires
            self.wf(),
        ensures
            r == self.spec_next_query(),
    {
        let next_index = match self.next_index() {
            Some(i) => i,
            None => return None,
        };
        let next_index = if self.is_shuffled {
            match self.index.get(next_index) {
                Some(i) => i,
                None => return None,
            }
        } else {
            next_index
        };
        let batch = self.songs.needed_batch_for(next_index);
        if let Some(batch) = batch {
            match &self.source {
                Some(source) => Some(BatchQuery { source: source.copied(), batch }),
                None => None,
            }
        } else {
            None
        }
    }

    /// A copy of the song that logical index `i` plays.
    fn index(&self, i: usize) -> (r: Option<SongDescription>)
        ensures
            r is Some == self.song_at(i) is Some,
            r is Some ==> r->Some_0.same_as(&self.song_at(i)->Some_0),
    {
        let p = if self.is_shuffled {
            match self.index.get(i) {
                Some(p) => p,
                None => return None,
            }
        } else {
            i
        };
        match self.songs.index(p) {
            Some(song) => Some(song.copied()),
            None => None,
        }
    }

    pub fn current_source(&self) -> (r: Option<&SongsSource>)
        ensures
            r == (match self.spec_source() {
                Some(s) => Some(&s),
                None => None::<&SongsSource>,
            }),
    {
        self.source.as_ref()
    }

    pub fn current_song_index(&self) -> (r: Option<usize>)
        ensures
            r == self.spec_position(),
    {
        self.list_position
    }

    pub fn current_song_id(&self) -> (r: Option<String>)
        ensures
            same_id(r, self.spec_current_id()),
    {
        match self.list_position {
            Some(p) => match self.index(p) {
                Some(song) => Some(song.id),
                None => None,
            },
            None => None,
        }
    }

    pub fn current_song(&self) -> (r: Option<SongDescription>)
        ensures
            r is Some == self.spec_current_song() is Some,
            r is Some ==> r->Some_0.same_as(&self.spec_current_song()->Some_0),
    {
        match self.list_position {
            Some(p) => self.index(p),
            None => None,
        }
    }

    /// The id in the slot of the list that the next logical index names,
    /// read without going through the shuffled order.
    fn next_id(&self) -> (r: Option<String>)
        requires
            self.wf(),
        ensures
            same_id(r, self.spec_next_id()),
    {
        match self.next_index() {
            Some(i) => match self.songs.index(i) {
                Some(song) => Some(song.id.clone()),
                None => None,
            },
            None => None,
        }
    }

    pub fn next_index(&self) -> (r: Option<usize>)
        requires
            self.wf(),
        ensures
            r == self.spec_next_index(),
    {
        let len = self.songs.len();
        match self.list_position {
            None => None,
            Some(p) => match self.repeat {
                RepeatMode::Song => Some(p),
                RepeatMode::Playlist => if len != 0 {
                    Some((p + 1) % len)
                } else {
                    None
                },
                RepeatMode::Off => if p + 1 < len {
                    Some(p + 1)
                } else {
                    None
                },
            },
        }
    }

    pub fn prev_index(&self) -> (r: Option<usize>)
        requires
            self.wf(),
        ensures
            r == self.spec_prev_index(),
    {
        let len = self.songs.len();
        match self.list_position {
            None => None,
            Some(p) => match self.repeat {
                RepeatMode::Song => Some(p),
                RepeatMode::Playlist => if len != 0 {
                    let q = if p == 0 { len } else { p };
                    Some(q - 1)
                } else {
                    None
                },
                RepeatMode::Off => if p > 0 {
                    Some(p - 1)
                } else {
                    None
                },
            },
        }
    }

    /// Devices, source, repeat mode and shuffling are as they were.
    pub open spec fn keeps_settings(&self, other: &PlaybackState) -> bool {
        &&& self.spec_devices() == other.spec_devices()
        &&& self.spec_device() == other.spec_device()
        &&& self.spec_source() == other.spec_source()
        &&& self.spec_repeat() == other.spec_repeat()
        &&& self.spec_shuffled() == other.spec_shuffled()
    }

    /// Position, playing flag and shuffled order are as they were.
    pub open spec fn keeps_play(&self, other: &PlaybackState) -> bool {
        &&& self.spec_position() == other.spec_position()
        &&& self.spec_playing_flag() == other.spec_playing_flag()
        &&& self.spec_order() == other.spec_order()
        &&& self.spec_order_picked() == other.spec_order_picked()
    }

    /// Everything but the repeat mode is as it was.
    pub open spec fn keeps_all_but_repeat(&self, other: &PlaybackState) -> bool {
        &&& self.keeps_play(other)
        &&& self.keeps_list(other)
        &&& self.spec_clock() == other.spec_clock()
        &&& self.spec_devices() == other.spec_devices()
        &&& self.spec_device() == other.spec_device()
        &&& self.spec_source() == other.spec_source()
        &&& self.spec_shuffled() == other.spec_shuffled()
    }

    /// Everything but the clock is as it was.
    pub open spec fn keeps_all_but_clock(&self, other: &PlaybackState) -> bool {
        &&& self.keeps_play(other)
        &&& self.keeps_list(other)
        &&& self.keeps_settings(other)
    }

    /// The list and its batch size are as they were.
    pub open spec fn keeps_list(&self, other: &PlaybackState) -> bool {
        &&& self.spec_songs() == other.spec_songs()
        &&& self.spec_list().spec_batch_size() == other.spec_list().spec_batch_size()
    }

    /// The clock was pinned at 0 at `now`, running when `playing`.
    pub open spec fn clock_reset(&self, old_clock: PositionMillis, now: u64, playing: bool) -> bool {
        &&& self.spec_clock().last_known_position == 0
        &&& self.spec_clock().last_resume_instant == (if playing { Some(now) } else { None::<u64> })
        &&& self.spec_clock().rate == old_clock.rate
    }

    /// Drops the list and the shuffled order, forgets the position and
    /// records `source` as where the next list comes from.
    fn clear(&mut self, source: Option<SongsSource>)
        requires
            old(self).wf(),
        ensures
            final(self).wf(),
            final(self).spec_songs() == Seq::<Option<SongDescription>>::empty(),
            final(self).spec_list().spec_batch_size() == old(self).spec_list().spec_batch_size(),
            final(self).spec_source() == source,
            final(self).spec_position() is None,
            final(self).spec_order() == Seq::<usize>::empty(),
            final(self).spec_playing_flag() == old(self).spec_playing_flag(),
            final(self).spec_clock() == old(self).spec_clock(),
            final(self).spec_devices() == old(self).spec_devices(),
            final(self).spec_device() == old(self).spec_device(),
            final(self).spec_repeat() == old(self).spec_repeat(),
            final(self).spec_shuffled() == old(self).spec_shuffled(),
    {
        self.source = source;
        self.index = LazyRandomIndex::default();
        self.list_position = None;
        self.songs.clear();
    }

    /// Replaces the list with one page loaded from `source`. Returns whether
    /// the page brought anything.
    pub fn set_batch(&mut self, source: Option<SongsSource>, song_batch: SongBatch) -> (r: bool)
        requires
            old(self).wf(),
            song_batch.batch.offset + song_batch.songs@.len() <= usize::MAX,
        ensures
            final(self).wf(),
            final(self).spec_songs() == with_batch(Seq::empty(), song_batch),
            r == batch_changes(Seq::empty(), song_batch),
            final(self).spec_source() == source,
            final(self).spec_position() is None,
            final(self).spec_playing_flag() == old(self).spec_playing_flag(),
            final(self).spec_clock() == old(self).spec_clock(),
            final(self).spec_devices() == old(self).spec_devices(),
            final(self).spec_device() == old(self).spec_device(),
            final(self).spec_repeat() == old(self).spec_repeat(),
            final(self).spec_shuffled() == old(self).spec_shuffled(),
    {
        self.clear(source);
        let ok = self.songs.add(song_batch);
        let len = self.songs.len();
        self.index.resize(len);
        ok
    }

    /// Adds one page to the list, keeping the position. Returns whether the
    /// page brought anything.
    pub fn add_batch(&mut self, song_batch: SongBatch) -> (r: bool)
        requires
            old(self).wf(),
            song_batch.batch.offset + song_batch.songs@.len() <= usize::MAX,
        ensures
            final(self).wf(),
            final(self).spec_songs() == with_batch(old(self).spec_songs(), song_batch),
            r == batch_changes(old(self).spec_songs(), song_batch),
            final(self).keeps_settings(old(self)),
            final(self).spec_position() == old(self).spec_position(),
            final(self).spec_playing_flag() == old(self).spec_playing_flag(),
            final(self).spec_clock() == old(self).spec_clock(),
    {
        let ok = self.songs.add(song_batch);
        let len = self.songs.len();
        self.index.resize(len);
        ok
    }

    /// Replaces the list with `tracks`, which come from no source.
    pub fn set_queue(&mut self, tracks: Vec<SongDescription>)
        requires
            old(self).wf(),
        ensures
            final(self).wf(),
            final(self).spec_songs() == tracks@.map_values(|s: SongDescription| Some(s)),
            final(self).spec_source() is None,
            final(self).spec_position() is None,
            final(self).spec_playing_flag() == old(self).spec_playing_flag(),
            final(self).spec_clock() == old(self).spec_clock(),
            final(self).spec_devices() == old(self).spec_devices(),
            final(self).spec_device() == old(self).spec_device(),
            final(self).spec_repeat() == old(self).spec_repeat(),
            final(self).spec_shuffled() == old(self).spec_shuffled(),
    {
        self.clear(None);
        self.songs.append(tracks);
        let len = self.songs.len();
        self.index.grow(len);
        assert(self.songs@ =~= tracks@.map_values(|s: SongDescription| Some(s)));
    }

    /// Appends `tracks` to the list, keeping the position and the source.
    pub fn queue(&mut self, tracks: Vec<SongDescription>)
        requires
            old(self).wf(),
        ensures
            final(self).wf(),
            final(self).spec_songs() == old(self).spec_songs() + tracks@.map_values(
                |s: SongDescription| Some(s),
            ),
            final(self).keeps_settings(old(self)),
            final(self).spec_position() == old(self).spec_position(),
            final(self).spec_current_id() == old(self).spec_current_id(),
            final(self).spec_playing_flag() == old(self).spec_playing_flag(),
            final(self).spec_clock() == old(self).spec_clock(),
    {
        self.songs.append(tracks);
        let len = self.songs.len();
        self.index.grow(len);
    }

    /// Removes the songs whose ids are listed in `ids`. The position follows
    /// the current song to its new slot, or is cleared when it was removed.
    pub fn dequeue(&mut self, ids: &[String])
        requires
            old(self).wf(),
        ensures
            final(self).wf(),
            final(self).spec_songs() == without_ids(old(self).spec_songs(), ids@),
            final(self).keeps_settings(old(self)),
            final(self).spec_playing_flag() == old(self).spec_playing_flag(),
            final(self).spec_clock() == old(self).spec_clock(),
            match old(self).spec_current_id() {
                None => final(self).spec_position() is None,
                Some(id) => match final(self).spec_position() {
                    Some(i) => has_id(final(self).spec_songs(), i as int, id) && forall|j: int|
                        0 <= j < i ==> !has_id(final(self).spec_songs(), j, id),
                    None => forall|j: int|
                        0 <= j < final(self).spec_len() ==> !has_id(final(self).spec_songs(), j, id),
                },
            },
    {
        let current_id = self.current_song_id();
        self.songs.remove(ids);
        self.list_position = match current_id {
            Some(id) => self.songs.find_index(id.as_str()),
            None => None,
        };
        let len = self.songs.len();
        self.index.shrink(len);
    }

    /// The position after exchanging slots `index` and `other_index`, kept
    /// inside the list.
    pub open spec fn swapped_position(pos: Option<usize>, index: usize, other_index: usize, len: int) -> Option<usize> {
        match pos {
            None => None,
            Some(p) => {
                let q = if p == index { other_index } else if p == other_index { index } else { p };
                Some(if q < len - 1 { q } else { (len - 1) as usize })
            },
        }
    }

    fn swap_pos(&mut self, index: usize, other_index: usize)
        requires
            old(self).wf(),
        ensures
            final(self).wf(),
            final(self).spec_position() == Self::swapped_position(
                old(self).spec_position(),
                index,
                other_index,
                old(self).spec_len(),
            ),
            final(self).keeps_settings(old(self)),
            final(self).keeps_list(old(self)),
            final(self).spec_order() == old(self).spec_order(),
            final(self).spec_playing_flag() == old(self).spec_playing_flag(),
            final(self).spec_clock() == old(self).spec_clock(),
    {
        let len = self.songs.len();
        self.list_position = match self.list_position {
            Some(position) => {
                let q = if position == index {
                    other_index
                } else if position == other_index {
                    index
                } else {
                    position
                };
                Some(if q < len - 1 { q } else { len - 1 })
            },
            None => None,
        };
    }

    /// Moves the song with id `id` one slot down; the position follows the
    /// songs it pointed at. Returns the slot the song was in.
    pub fn move_down(&mut self, id: &str) -> (r: Option<usize>)
        requires
            old(self).wf(),
        ensures
            final(self).wf(),
            final(self).keeps_settings(old(self)),
            final(self).spec_playing_flag() == old(self).spec_playing_flag(),
            final(self).spec_clock() == old(self).spec_clock(),
            match r {
                Some(i) => {
                    &&& has_id(old(self).spec_songs(), i as int, id@)
                    &&& forall|j: int| 0 <= j < i ==> !has_id(old(self).spec_songs(), j, id@)
                    &&& final(self).spec_songs() == (if i + 1 < old(self).spec_len() {
                        crate::song_list::swapped(old(self).spec_songs(), i as int)
                    } else {
                        old(self).spec_songs()
                    })
                    &&& final(self).spec_position() == Self::swapped_position(
                        old(self).spec_position(),
                        (i + 1) as usize,
                        i,
                        old(self).spec_len(),
                    )
                },
                None => {
                    &&& forall|j: int|
                        0 <= j < old(self).spec_len() ==> !has_id(old(self).spec_songs(), j, id@)
                    &&& *final(self) == *old(self)
                },
            },
    {
        let index = match self.songs.find_index(id) {
            Some(i) => i,
            None => return None,
        };
        let len = self.songs.len();
        assert(index < len);
        self.songs.move_down(index);
        self.swap_pos(index + 1, index);
        Some(index)
    }

    /// Moves the song with id `id` one slot up; the position follows the
    /// songs it pointed at. Returns the slot the song was in; nothing happens
    /// for the first song.
    pub fn move_up(&mut self, id: &str) -> (r: Option<usize>)
        requires
            old(self).wf(),
        ensures
            final(self).wf(),
            final(self).keeps_settings(old(self)),
            final(self).spec_playing_flag() == old(self).spec_playing_flag(),
            final(self).spec_clock() == old(self).spec_clock(),
            match r {
                Some(i) => {
                    &&& 0 < i
                    &&& has_id(old(self).spec_songs(), i as int, id@)
                    &&& forall|j: int| 0 <= j < i ==> !has_id(old(self).spec_songs(), j, id@)
                    &&& final(self).spec_songs() == crate::song_list::swapped(
                        old(self).spec_songs(),
                        i - 1,
                    )
                    &&& final(self).spec_position() == Self::swapped_position(
                        old(self).spec_position(),
                        (i - 1) as usize,
                        i,
                        old(self).spec_len(),
                    )
                },
                None => {
                    &&& forall|j: int|
                        0 < j < old(self).spec_len() && has_id(old(self).spec_songs(), j, id@)
                            ==> exists|k: int| 0 <= k < j && has_id(old(self).spec_songs(), k, id@)
                    &&& *final(self) == *old(self)
                },
            },
    {
        let index = match self.songs.find_index(id) {
            Some(i) => i,
            None => return None,
        };
        if index == 0 {
            return None;
        }
        self.songs.move_up(index);
        self.swap_pos(index - 1, index);
        Some(index)
    }

    /// Some slot of the list holds a song with id `id`.
    pub open spec fn holds_id(&self, id: Seq<char>) -> bool {
        exists|i: int| has_id(self.spec_songs(), i, id)
    }

    /// Plays the song with id `id` from the start, unless it is the current
    /// song already or is not in the list. When shuffled, a new order starts
    /// with that song. Returns whether playback changed.
    pub fn play(&mut self, id: &str, now: u64) -> (r: bool)
        requires
            old(self).wf(),
        ensures
            final(self).wf(),
            r == (old(self).spec_current_id() != Some(id@) && old(self).holds_id(id@)),
            !r ==> *final(self) == *old(self),
            r ==> {
                &&& final(self).spec_playing_flag()
                &&& final(self).clock_reset(old(self).spec_clock(), now, true)
                &&& final(self).keeps_settings(old(self))
                &&& final(self).keeps_list(old(self))
                &&& final(self).spec_current_id() == Some(id@)
                &&& !old(self).spec_shuffled() ==> match final(self).spec_position() {
                    Some(i) => has_id(old(self).spec_songs(), i as int, id@) && forall|j: int|
                        0 <= j < i ==> !has_id(old(self).spec_songs(), j, id@),
                    None => false,
                }
                &&& old(self).spec_shuffled() ==> final(self).spec_position() == Some(0usize)
            },
    {
        let current = self.current_song_id();
        let key = id.to_owned();
        if let Some(cur) = current {
            if cur == key {
                return false;
            }
        }
        let found_index = self.songs.find_index(id);
        if let Some(index) = found_index {
            if self.is_shuffled {
                self.index.reset_picking_first(index);
                proof {
                    lemma_picking_first_below(old(self).spec_order().len(), index);
                }
                self.play_index(0, now);
            } else {
                self.play_index(index, now);
            }
            true
        } else {
            false
        }
    }

    /// Forgets the position and stops the clock at 0.
    pub fn stop(&mut self, now: u64)
        requires
            old(self).wf(),
        ensures
            final(self).wf(),
            final(self).spec_position() is None,
            !final(self).spec_playing_flag(),
            final(self).clock_reset(old(self).spec_clock(), now, false),
            final(self).keeps_settings(old(self)),
            final(self).keeps_list(old(self)),
            final(self).spec_order() == old(self).spec_order(),
    {
        self.list_position = None;
        self.is_playing = false;
        self.seek_position.set(0, false, now);
    }

    /// Plays logical index `index` from the start and draws the shuffled
    /// order up to it. Returns the id of the song now current.
    fn play_index(&mut self, index: usize, now: u64) -> (r: Option<String>)
        requires
            old(self).wf(),
            index < old(self).spec_len(),
        ensures
            final(self).wf(),
            final(self).spec_position() == Some(index),
            final(self).spec_playing_flag(),
            final(self).clock_reset(old(self).spec_clock(), now, true),
            final(self).keeps_settings(old(self)),
            final(self).keeps_list(old(self)),
            final(self).spec_order().len() == old(self).spec_order().len(),
            forall|k: int|
                0 <= k < old(self).spec_order_picked() ==> final(self).spec_order()[k]
                    == old(self).spec_order()[k],
            final(self).spec_order_picked() > index,
            final(self).spec_shuffled() ==> final(self).spec_order_picked() >= old(self).spec_order_picked(),
            same_id(r, final(self).spec_current_id()),
    {
        let len = self.songs.len();
        assert(index < len);
        self.is_playing = true;
        self.list_position = Some(index);
        self.seek_position.set(0, true, now);
        self.index.next_until(index + 1);
        self.current_song_id()
    }

    /// Plays the next track, if there is one. Returns the id of the song now
    /// current.
    pub fn play_next(&mut self, now: u64) -> (r: Option<String>)
        requires
            old(self).wf(),
        ensures
            final(self).wf(),
            final(self).keeps_settings(old(self)),
            final(self).keeps_list(old(self)),
            match old(self).spec_next_index() {
                None => r is None && *final(self) == *old(self),
                Some(i) => {
                    &&& final(self).spec_position() == Some(i)
                    &&& final(self).spec_playing_flag()
                    &&& final(self).clock_reset(old(self).spec_clock(), now, true)
                    &&& same_id(r, final(self).spec_current_id())
                },
            },
    {
        match self.next_index() {
            Some(i) => {
                self.seek_position.set(0, true, now);
                self.play_index(i, now)
            },
            None => None,
        }
    }

    /// Goes back: to the previous track when at most `RESTART_THRESHOLD`
    /// milliseconds of the current one have played, otherwise to the start of
    /// the current track. Nothing happens when there is no previous track.
    /// Returns the id of the song now current when the track changed.
    pub fn play_prev(&mut self, now: u64) -> (r: Option<String>)
        requires
            old(self).wf(),
        ensures
            final(self).wf(),
            final(self).keeps_settings(old(self)),
            final(self).keeps_list(old(self)),
            match old(self).spec_prev_index() {
                None => r is None && *final(self) == *old(self),
                Some(i) => if old(self).spec_clock().spec_current(now) <= RESTART_THRESHOLD {
                    &&& final(self).spec_position() == Some(i)
                    &&& final(self).spec_playing_flag()
                    &&& final(self).clock_reset(old(self).spec_clock(), now, true)
                    &&& same_id(r, final(self).spec_current_id())
                } else {
                    &&& r is None
                    &&& final(self).spec_position() == old(self).spec_position()
                    &&& final(self).spec_playing_flag() == old(self).spec_playing_flag()
                    &&& final(self).spec_order() == old(self).spec_order()
                    &&& final(self).clock_reset(old(self).spec_clock(), now, true)
                },
            },
    {
        match self.prev_index() {
            Some(i) => {
                if self.seek_position.current(now) <= RESTART_THRESHOLD {
                    self.seek_position.set(0, true, now);
                    self.play_index(i, now)
                } else {
                    self.seek_position.set(0, true, now);
                    None
                }
            },
            None => None,
        }
    }

    /// Flips between playing and paused while a track is loaded, pausing or
    /// resuming the clock to match. Returns whether it now plays; nothing
    /// happens when no track is loaded.
    pub fn toggle_play(&mut self, now: u64) -> (r: Option<bool>)
        requires
            old(self).wf(),
        ensures
            final(self).wf(),
            old(self).spec_position() is None ==> r is None && *final(self) == *old(self),
            old(self).spec_position() is Some ==> {
                &&& r == Some(!old(self).spec_playing_flag())
                &&& final(self).spec_playing_flag() == !old(self).spec_playing_flag()
                &&& final(self).spec_position() == old(self).spec_position()
                &&& final(self).spec_order() == old(self).spec_order()
                &&& final(self).keeps_settings(old(self))
                &&& final(self).keeps_list(old(self))
                &&& final(self).spec_clock().rate == old(self).spec_clock().rate
                &&& if final(self).spec_playing_flag() {
                    &&& final(self).spec_clock().last_known_position
                        == old(self).spec_clock().last_known_position
                    &&& final(self).spec_clock().last_resume_instant == Some(now)
                } else {
                    &&& final(self).spec_clock().last_known_position == old(
                        self,
                    ).spec_clock().spec_current(now)
                    &&& final(self).spec_clock().last_resume_instant is None
                }
            },
    {
        if self.list_position.is_some() {
            self.is_playing = !self.is_playing;
            if self.is_playing {
                self.seek_position.resume(now);
            } else {
                self.seek_position.pause(now);
            }
            Some(self.is_playing)
        } else {
            None
        }
    }

    /// Turns shuffling on or off. Either way a new shuffled order starts with
    /// the slot at the current position (slot 0 when there is none), and the
    /// position goes to 0, or stays `None` while the list is empty.
    pub fn set_shuffled(&mut self, shuffled: bool)
        requires
            old(self).wf(),
        ensures
            final(self).wf(),
            final(self).spec_shuffled() == shuffled,
            final(self).spec_position() == (if old(self).spec_len() > 0 {
                Some(0usize)
            } else {
                None::<usize>
            }),
            final(self).spec_order() == picking_first(
                old(self).spec_order().len(),
                match old(self).spec_position() {
                    Some(p) => p,
                    None => 0,
                },
            ),
            !old(self).spec_shuffled() && shuffled && old(self).spec_position() is Some
                ==> final(self).spec_current_id() == old(self).spec_current_id(),
            final(self).keeps_list(old(self)),
            final(self).spec_playing_flag() == old(self).spec_playing_flag(),
            final(self).spec_clock() == old(self).spec_clock(),
            final(self).spec_devices() == old(self).spec_devices(),
            final(self).spec_device() == old(self).spec_device(),
            final(self).spec_source() == old(self).spec_source(),
            final(self).spec_repeat() == old(self).spec_repeat(),
    {
        self.is_shuffled = shuffled;
        let first = match self.list_position {
            Some(p) => p,
            None => 0,
        };
        self.list_position = if self.songs.len() > 0 { Some(0) } else { None };
        self.index.reset_picking_first(first);
        proof {
            lemma_picking_first_below(old(self).spec_order().len(), first);
        }
    }

    /// The id that `next_id` reports.
    pub open spec fn spec_next_id(&self) -> Option<Seq<char>> {
        match self.spec_next_index() {
            Some(i) => if i < self.spec_len() {
                id_of(self.spec_songs()[i as int])
            } else {
                None
            },
            None => None,
        }
    }

    /// Applies one action and returns the events it gives, in order. An
    /// action that does not apply changes nothing and gives no event; so does
    /// a page whose offset and length do not fit in a `usize`. Going back with
    /// no previous track pins the clock at 0, running only while playing.
    /// `now` is the time in milliseconds of the caller's monotonic clock.
    pub fn update_with(&mut self, action: PlaybackAction, now: u64) -> (r: Vec<PlaybackEvent>)
        requires
            old(self).wf(),
        ensures
            final(self).wf(),
            match action {
                PlaybackAction::TogglePlay => match old(self).spec_position() {
                    None => r@ == Seq::<PlaybackEvent>::empty() && *final(self) == *old(self),
                    Some(_) => {
                        &&& final(self).spec_playing_flag() == !old(self).spec_playing_flag()
                        &&& final(self).spec_position() == old(self).spec_position()
                        &&& r@ == seq![
                            if final(self).spec_playing_flag() {
                                PlaybackEvent::PlaybackResumed
                            } else {
                                PlaybackEvent::PlaybackPaused
                            },
                        ]
                    },
                },
                PlaybackAction::Play => if old(self).spec_is_playing() || old(
                    self,
                ).spec_position() is None {
                    r@ == Seq::<PlaybackEvent>::empty() && *final(self) == *old(self)
                } else {
                    &&& final(self).spec_is_playing()
                    &&& final(self).spec_position() == old(self).spec_position()
                    &&& r@ == seq![PlaybackEvent::PlaybackResumed]
                },
                PlaybackAction::Pause => if !old(self).spec_is_playing() {
                    r@ == Seq::<PlaybackEvent>::empty() && *final(self) == *old(self)
                } else {
                    &&& !final(self).spec_is_playing()
                    &&& final(self).spec_position() == old(self).spec_position()
                    &&& r@ == seq![PlaybackEvent::PlaybackPaused]
                },
                PlaybackAction::Stop => {
                    &&& final(self).spec_position() is None
                    &&& !final(self).spec_playing_flag()
                    &&& final(self).clock_reset(old(self).spec_clock(), now, false)
                    &&& final(self).keeps_list(old(self))
                    &&& r@ == seq![PlaybackEvent::PlaybackStopped]
                },
                PlaybackAction::SetRepeatMode(mode) => if mode != old(self).spec_repeat() {
                    &&& final(self).spec_repeat() == mode
                    &&& final(self).keeps_all_but_repeat(old(self))
                    &&& r@ == seq![PlaybackEvent::RepeatModeChanged(mode)]
                } else {
                    r@ == Seq::<PlaybackEvent>::empty() && *final(self) == *old(self)
                },
                PlaybackAction::ToggleRepeat => {
                    &&& final(self).spec_repeat() == next_repeat(old(self).spec_repeat())
                    &&& final(self).keeps_all_but_repeat(old(self))
                    &&& r@ == seq![PlaybackEvent::RepeatModeChanged(final(self).spec_repeat())]
                },
                PlaybackAction::SetShuffled(shuffled) => if shuffled != old(self).spec_shuffled() {
                    &&& final(self).spec_shuffled() == shuffled
                    &&& final(self).keeps_list(old(self))
                    &&& r@ == seq![PlaybackEvent::ShuffleChanged(shuffled)]
                } else {
                    r@ == Seq::<PlaybackEvent>::empty() && *final(self) == *old(self)
                },
                PlaybackAction::ToggleShuffle => {
                    &&& final(self).spec_shuffled() == !old(self).spec_shuffled()
                    &&& final(self).keeps_list(old(self))
                    &&& r@ == seq![PlaybackEvent::ShuffleChanged(!old(self).spec_shuffled())]
                },
                PlaybackAction::Seek(pos) => {
                    &&& final(self).spec_clock().last_known_position == pos as u64 * 1000
                    &&& final(self).spec_clock().last_resume_instant == Some(now)
                    &&& final(self).spec_clock().rate == old(self).spec_clock().rate
                    &&& final(self).keeps_all_but_clock(old(self))
                    &&& r@ == seq![PlaybackEvent::TrackSeeked(pos)]
                },
                PlaybackAction::SyncSeek(pos) => {
                    &&& final(self).spec_clock().last_known_position == pos as u64 * 1000
                    &&& final(self).spec_clock().last_resume_instant == Some(now)
                    &&& final(self).spec_clock().rate == old(self).spec_clock().rate
                    &&& final(self).keeps_all_but_clock(old(self))
                    &&& r@ == seq![PlaybackEvent::SeekSynced(pos)]
                },
                PlaybackAction::Load(id) => if old(self).spec_current_id() != Some(id@) && old(
                    self,
                ).holds_id(id@) {
                    &&& final(self).spec_playing_flag()
                    &&& final(self).spec_current_id() == Some(id@)
                    &&& final(self).clock_reset(old(self).spec_clock(), now, true)
                    &&& final(self).keeps_settings(old(self))
                    &&& final(self).keeps_list(old(self))
                    &&& old(self).spec_shuffled() ==> final(self).spec_position() == Some(0usize)
                    &&& r@ == seq![PlaybackEvent::TrackChanged(id), PlaybackEvent::PlaybackResumed]
                } else {
                    r@ == Seq::<PlaybackEvent>::empty() && *final(self) == *old(self)
                },
                PlaybackAction::LoadSongs(tracks) => {
                    &&& final(self).spec_songs() == tracks@.map_values(|s: SongDescription| Some(s))
                    &&& final(self).spec_source() is None
                    &&& final(self).spec_position() is None
                    &&& r@ == seq![PlaybackEvent::PlaylistChanged, PlaybackEvent::SourceChanged]
                },
                PlaybackAction::LoadPagedSongs(source, batch) => if batch.batch.offset
                    + batch.songs@.len() > usize::MAX {
                    r@ == Seq::<PlaybackEvent>::empty() && *final(self) == *old(self)
                } else if old(self).spec_source() is Some
                    && old(self).spec_source()->Some_0.same_as(&source) {
                    &&& final(self).spec_songs() == with_batch(old(self).spec_songs(), batch)
                    &&& final(self).spec_position() == old(self).spec_position()
                    &&& final(self).spec_source() == old(self).spec_source()
                    &&& r@ == (if batch_changes(old(self).spec_songs(), batch) {
                        seq![PlaybackEvent::PlaylistChanged]
                    } else {
                        Seq::<PlaybackEvent>::empty()
                    })
                } else {
                    &&& final(self).spec_songs() == with_batch(Seq::empty(), batch)
                    &&& final(self).spec_position() is None
                    &&& final(self).spec_source() == Some(source)
                    &&& r@ == seq![PlaybackEvent::PlaylistChanged, PlaybackEvent::SourceChanged]
                },
                PlaybackAction::SetVolume(volume) => {
                    r@ == seq![PlaybackEvent::VolumeSet(volume)] && *final(self) == *old(self)
                },
                PlaybackAction::Next => {
                    &&& final(self).keeps_list(old(self))
                    &&& if final(self).spec_position() is Some {
                        &&& final(self).spec_position() == old(self).spec_next_index()
                        &&& final(self).spec_playing_flag()
                        &&& reports_track_change(r@, final(self).spec_current_id())
                    } else {
                        &&& !final(self).spec_playing_flag()
                        &&& r@ == seq![PlaybackEvent::PlaybackStopped]
                    }
                    &&& old(self).spec_next_index() is None ==> final(self).spec_position() is None
                    &&& old(self).spec_next_index() is Some && final(self).spec_position() is None
                        ==> final(self).song_at(old(self).spec_next_index()->Some_0) is None
                    &&& !old(self).spec_shuffled() && old(self).spec_next_index() is Some ==> (
                    final(self).spec_position() is Some <==> old(self).spec_songs()[old(
                        self,
                    ).spec_next_index()->Some_0 as int] is Some)
                },
                PlaybackAction::Previous => {
                    &&& final(self).keeps_list(old(self))
                    &&& match old(self).spec_prev_index() {
                        None => {
                            &&& r@ == seq![PlaybackEvent::TrackSeeked(0)]
                            &&& final(self).keeps_all_but_clock(old(self))
                            &&& final(self).clock_reset(
                                old(self).spec_clock(),
                                now,
                                old(self).spec_is_playing(),
                            )
                        },
                        Some(i) => if old(self).spec_clock().spec_current(now) <= RESTART_THRESHOLD {
                            &&& final(self).spec_position() == Some(i)
                            &&& final(self).spec_playing_flag()
                            &&& if final(self).spec_current_id() is Some {
                                reports_track_change(r@, final(self).spec_current_id())
                            } else {
                                r@ == seq![PlaybackEvent::TrackSeeked(0)]
                            }
                        } else {
                            &&& final(self).spec_position() == old(self).spec_position()
                            &&& final(self).clock_reset(old(self).spec_clock(), now, true)
                            &&& r@ == seq![PlaybackEvent::TrackSeeked(0)]
                        },
                    }
                },
                PlaybackAction::Preload => {
                    &&& *final(self) == *old(self)
                    &&& match old(self).spec_next_id() {
                        None => r@ == Seq::<PlaybackEvent>::empty(),
                        Some(id) => r@.len() == 1 && r@[0] is Preload && r@[0]->Preload_0@ == id,
                    }
                },
                PlaybackAction::Queue(tracks) => {
                    &&& final(self).spec_songs() == old(self).spec_songs() + tracks@.map_values(
                        |s: SongDescription| Some(s),
                    )
                    &&& final(self).spec_position() == old(self).spec_position()
                    &&& final(self).spec_source() == old(self).spec_source()
                    &&& r@ == seq![PlaybackEvent::PlaylistChanged]
                },
                PlaybackAction::Dequeue(id) => {
                    &&& final(self).spec_songs() == without_ids(old(self).spec_songs(), seq![id])
                    &&& final(self).keeps_settings(old(self))
                    &&& final(self).spec_playing_flag() == old(self).spec_playing_flag()
                    &&& match old(self).spec_current_id() {
                        None => final(self).spec_position() is None,
                        Some(cur) => match final(self).spec_position() {
                            Some(i) => has_id(final(self).spec_songs(), i as int, cur) && forall|j: int|
                                0 <= j < i ==> !has_id(final(self).spec_songs(), j, cur),
                            None => forall|j: int|
                                0 <= j < final(self).spec_len() ==> !has_id(
                                    final(self).spec_songs(),
                                    j,
                                    cur,
                                ),
                        },
                    }
                    &&& r@ == seq![PlaybackEvent::PlaylistChanged]
                },
                PlaybackAction::SwitchDevice(device) => {
                    &&& final(self).spec_device() == device
                    &&& final(self).spec_position() == old(self).spec_position()
                    &&& final(self).keeps_list(old(self))
                    &&& r@ == seq![PlaybackEvent::SwitchedDevice(device)]
                },
                PlaybackAction::SetAvailableDevices(list) => {
                    &&& final(self).spec_devices() == list@
                    &&& final(self).spec_position() == old(self).spec_position()
                    &&& final(self).keeps_list(old(self))
                    &&& r@ == seq![PlaybackEvent::AvailableDevicesChanged]
                },
            },
    {
        match action {
            PlaybackAction::TogglePlay => {
                match self.toggle_play(now) {
                    Some(playing) => if playing {
                        vec![PlaybackEvent::PlaybackResumed]
                    } else {
                        vec![PlaybackEvent::PlaybackPaused]
                    },
                    None => vec![],
                }
            },
            PlaybackAction::Play => {
                if !self.is_playing() && self.list_position.is_some() {
                    self.toggle_play(now);
                    vec![PlaybackEvent::PlaybackResumed]
                } else {
                    vec![]
                }
            },
            PlaybackAction::Pause => {
                if self.is_playing() {
                    self.toggle_play(now);
                    vec![PlaybackEvent::PlaybackPaused]
                } else {
                    vec![]
                }
            },
            PlaybackAction::ToggleRepeat => {
                self.repeat = match self.repeat {
                    RepeatMode::Song => RepeatMode::Off,
                    RepeatMode::Playlist => RepeatMode::Song,
                    RepeatMode::Off => RepeatMode::Playlist,
                };
                vec![PlaybackEvent::RepeatModeChanged(self.repeat)]
            },
            PlaybackAction::SetRepeatMode(mode) => {
                if self.repeat != mode {
                    self.repeat = mode;
                    vec![PlaybackEvent::RepeatModeChanged(mode)]
                } else {
                    vec![]
                }
            },
            PlaybackAction::SetShuffled(shuffled) => {
                if self.is_shuffled != shuffled {
                    self.set_shuffled(shuffled);
                    vec![PlaybackEvent::ShuffleChanged(shuffled)]
                } else {
                    vec![]
                }
            },
            PlaybackAction::ToggleShuffle => {
                let shuffled = !self.is_shuffled;
                self.set_shuffled(shuffled);
                vec![PlaybackEvent::ShuffleChanged(shuffled)]
            },
            PlaybackAction::Next => {
                match self.play_next(now) {
                    Some(id) => vec![PlaybackEvent::TrackChanged(id), PlaybackEvent::PlaybackResumed],
                    None => {
                        self.stop(now);
                        vec![PlaybackEvent::PlaybackStopped]
                    },
                }
            },
            PlaybackAction::Stop => {
                self.stop(now);
                vec![PlaybackEvent::PlaybackStopped]
            },
            PlaybackAction::Previous => {
                if self.prev_index().is_none() {
                    let playing = self.is_playing();
                    self.seek_position.set(0, playing, now);
                    return vec![PlaybackEvent::TrackSeeked(0)];
                }
                match self.play_prev(now) {
                    Some(id) => vec![PlaybackEvent::TrackChanged(id), PlaybackEvent::PlaybackResumed],
                    None => vec![PlaybackEvent::TrackSeeked(0)],
                }
            },
            PlaybackAction::Load(id) => {
                if self.play(id.as_str(), now) {
                    vec![PlaybackEvent::TrackChanged(id), PlaybackEvent::PlaybackResumed]
                } else {
                    vec![]
                }
            },
            PlaybackAction::Preload => {
                match self.next_id() {
                    Some(id) => vec![PlaybackEvent::Preload(id)],
                    None => vec![],
                }
            },
            PlaybackAction::LoadPagedSongs(source, batch) => {
                if batch.batch.offset > usize::MAX - batch.songs.len() {
                    return vec![];
                }
                let same = match &self.source {
                    Some(current) => current.is_same(&source),
                    None => false,
                };
                if same {
                    if self.add_batch(batch) {
                        vec![PlaybackEvent::PlaylistChanged]
                    } else {
                        vec![]
                    }
                } else {
                    self.set_batch(Some(source), batch);
                    vec![PlaybackEvent::PlaylistChanged, PlaybackEvent::SourceChanged]
                }
            },
            PlaybackAction::LoadSongs(tracks) => {
                self.set_queue(tracks);
                vec![PlaybackEvent::PlaylistChanged, PlaybackEvent::SourceChanged]
            },
            PlaybackAction::Queue(tracks) => {
                self.queue(tracks);
                vec![PlaybackEvent::PlaylistChanged]
            },
            PlaybackAction::Dequeue(id) => {
                let ghost named = id;
                let ids = vec![id];
                let slice = ids.as_slice();
                assert(slice@ =~= seq![named]);
                self.dequeue(slice);
                vec![PlaybackEvent::PlaylistChanged]
            },
            PlaybackAction::Seek(pos) => {
                self.seek_position.set(pos as u64 * 1000, true, now);
                vec![PlaybackEvent::TrackSeeked(pos)]
            },
            PlaybackAction::SyncSeek(pos) => {
                self.seek_position.set(pos as u64 * 1000, true, now);
                vec![PlaybackEvent::SeekSynced(pos)]
            },
            PlaybackAction::SetVolume(volume) => vec![PlaybackEvent::VolumeSet(volume)],
            PlaybackAction::SetAvailableDevices(list) => {
                self.available_devices = list;
                vec![PlaybackEvent::AvailableDevicesChanged]
            },
            PlaybackAction::SwitchDevice(new_device) => {
                self.current_device = new_device.copied();
                vec![PlaybackEvent::SwitchedDevice(new_device)]
            },
        }
    }

    pub fn available_devices(&self) -> (r: &Vec<ConnectDevice>)
        ensures
            r@ == self.spec_devices(),
    {
        &self.available_devices
    }

    pub fn current_device(&self) -> (r: &Device)
        ensures
            *r == self.spec_device(),
    {
        &self.current_device
    }
}

impl PlaybackState {
    /// Nothing loaded, local playback, no repeat, not playing, not shuffled.
    pub open spec fn is_initial(&self) -> bool {
        &&& self.wf()
        &&& self.spec_songs() == Seq::<Option<SongDescription>>::empty()
        &&& self.spec_list().spec_batch_size() == BATCH_SIZE
        &&& self.spec_position() is None
        &&& self.spec_order() == Seq::<usize>::empty()
        &&& self.spec_source() is None
        &&& self.spec_repeat() == RepeatMode::Off
        &&& !self.spec_playing_flag()
        &&& !self.spec_shuffled()
        &&& self.spec_devices() == Seq::<ConnectDevice>::empty()
        &&& self.spec_device() == Device::Local
        &&& self.spec_clock().last_known_position == 0
        &&& self.spec_clock().last_resume_instant is None
        &&& self.spec_clock().rate == NORMAL_RATE
    }

    /// The initial state, with shuffled orders drawn from `seed`.
    pub fn with_shuffle_seed(seed: u64) -> (r: Self)
        ensures
            r.is_initial(),
    {
        PlaybackState {
            available_devices: Vec::new(),
            current_device: Device::Local,
            index: LazyRandomIndex::new(seed),
            songs: SongListModel::new(BATCH_SIZE),
            list_position: None,
            seek_position: PositionMillis::new(NORMAL_RATE),
            source: None,
            repeat: RepeatMode::Off,
            is_playing: false,
            is_shuffled: false,
        }
    }
}

impl Default for PlaybackState {
    /// The initial state, with shuffled orders drawn from a fixed seed.
    fn default() -> (r: Self)
        ensures
            r.is_initial(),
    {
        PlaybackState::with_shuffle_seed(DEFAULT_SEED)
    }
}

} // verus!
