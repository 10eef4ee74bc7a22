use vstd::prelude::*;

verus! {

#[derive(Debug, Clone)]
pub struct ArtistRef {
    pub id: String,
    pub name: String,
}

#[derive(Debug, Clone)]
pub struct AlbumRef {
    pub id: String,
    pub name: String,
}

/// A track as the player knows it.
#[derive(Debug, Clone)]
pub struct SongDescription {
    pub id: String,
    pub uri: String,
    pub title: String,
    pub artists: Vec<ArtistRef>,
    pub album: AlbumRef,
    pub duration: u32,
    pub art: Option<String>,
    pub track_number: Option<u32>,
}

impl ArtistRef {
    pub fn copied(&self) -> (r: Self)
        ensures
            r == *self,
    {
        ArtistRef { id: self.id.clone(), name: self.name.clone() }
    }
}

impl SongDescription {
    /// Every field of `self` and `other` holds the same value.
    pub open spec fn same_as(&self, other: &SongDescription) -> bool {
        &&& self.id == other.id
        &&& self.uri == other.uri
        &&& self.title == other.title
        &&& self.artists@ == other.artists@
        &&& self.album == other.album
        &&& self.duration == other.duration
        &&& self.art == other.art
        &&& self.track_number == other.track_number
    }

    /// A copy of the song.
    pub fn copied(&self) -> (r: Self)
        ensures
            r.same_as(self),
    {
        let mut artists: Vec<ArtistRef> = Vec::new();
        let mut i: usize = 0;
        while i < self.artists.len()
            invariant
                i <= self.artists.len(),
                artists@ == self.artists@.take(i as int),
            decreases self.artists.len() - i,
        {
            artists.push(self.artists[i].copied());
            assert(self.artists@.take(i as int + 1) == self.artists@.take(i as int).push(
                self.artists@[i as int],
            ));
            i = i + 1;
        }
        assert(self.artists@.take(i as int) == self.artists@);
        let art = match &self.art {
            Some(a) => Some(a.clone()),
            None => None,
        };
        SongDescription {
            id: self.id.clone(),
            uri: self.uri.clone(),
            title: self.title.clone(),
            artists,
            album: AlbumRef { id: self.album.id.clone(), name: self.album.name.clone() },
            duration: self.duration,
            art,
            track_number: self.track_number,
        }
    }
}

/// A slice of a paginated list: where it starts, how long a page is, and how
/// long the whole list is.
#[derive(Debug, Clone, Copy, PartialEq, Eq, Structural)]
pub struct Batch {
    pub offset: usize,
    pub batch_size: usize,
    pub total: usize,
}

/// The songs of one page, with the page they fill.
#[derive(Debug, Clone)]
pub struct SongBatch {
    pub songs: Vec<SongDescription>,
    pub batch: Batch,
}

#[derive(Debug, Clone, Copy, PartialEq, Eq, Structural)]
pub enum SourceKind {
    Playlist,
    Album,
    SavedTracks,
    Search,
}

/// Where a song list was loaded from.
#[derive(Debug, Clone)]
pub struct SongsSource {
    pub kind: SourceKind,
    pub id: String,
}

impl SongsSource {
    pub open spec fn same_as(&self, other: &SongsSource) -> bool {
        self.kind == other.kind && self.id@ == other.id@
    }

    pub fn is_same(&self, other: &SongsSource) -> (r: bool)
        ensures
            r == self.same_as(other),
    {
        self.kind == other.kind && self.id == other.id
    }

    pub fn copied(&self) -> (r: Self)
        ensures
            r == *self,
    {
        SongsSource { kind: self.kind, id: self.id.clone() }
    }
}

/// A page that has to be fetched, and the list it belongs to.
#[derive(Debug, Clone)]
pub struct BatchQuery {
    pub source: SongsSource,
    pub batch: Batch,
}

#[derive(Debug, Clone, Copy, PartialEq, Eq, Structural)]
pub enum RepeatMode {
    Song,
    Playlist,
    Off,
}

#[derive(Debug, Clone, Copy, PartialEq, Eq, Structural)]
pub enum ConnectDeviceKind {
    Phone,
    Computer,
    Speaker,
    Other,
}

/// A device that playback can be handed to.
#[derive(Debug, Clone)]
pub struct ConnectDevice {
    pub id: String,
    pub label: String,
    pub kind: ConnectDeviceKind,
}

/// Where playback happens.
#[derive(Debug, Clone)]
pub enum Device {
    Local,
    Connect(ConnectDevice),
}

impl ConnectDevice {
    pub fn copied(&self) -> (r: Self)
        ensures
            r == *self,
    {
        ConnectDevice { id: self.id.clone(), label: self.label.clone(), kind: self.kind }
    }
}

impl Device {
    pub fn copied(&self) -> (r: Self)
        ensures
            r == *self,
    {
        match self {
            Device::Local => Device::Local,
            Device::Connect(d) => Device::Connect(d.copied()),
        }
    }
}

} // verus!
