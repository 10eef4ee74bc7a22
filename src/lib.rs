pub mod action;
pub mod laws;
pub mod playback;
pub mod position;
pub mod shuffle;
pub mod song;
pub mod song_list;

pub use action::{PlaybackAction, PlaybackEvent};
pub use playback::PlaybackState;
pub use position::PositionMillis;
pub use shuffle::LazyRandomIndex;
pub use song::{
    AlbumRef, ArtistRef, Batch, BatchQuery, ConnectDevice, ConnectDeviceKind, Device, RepeatMode,
    SongBatch, SongDescription, SongsSource, SourceKind,
};
pub use song_list::SongListModel;
