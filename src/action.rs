use vstd::prelude::*;
use crate::song::{ConnectDevice, Device, RepeatMode, SongBatch, SongDescription, SongsSource};

verus! {

/// What the player is asked to do. Positions of `Seek` and `SyncSeek` are
/// seconds; volumes are thousandths of full scale.
#[derive(Debug, Clone)]
pub enum PlaybackAction {
    TogglePlay,
    Play,
    Pause,
    Stop,
    SetRepeatMode(RepeatMode),
    SetShuffled(bool),
    ToggleRepeat,
    ToggleShuffle,
    Seek(u32),
    SyncSeek(u32),
    Load(String),
    LoadSongs(Vec<SongDescription>),
    LoadPagedSongs(SongsSource, SongBatch),
    SetVolume(u32),
    Next,
    Previous,
    Preload,
    Queue(Vec<SongDescription>),
    Dequeue(String),
    SwitchDevice(Device),
    SetAvailableDevices(Vec<ConnectDevice>),
}

/// What the player reports after an action.
#[derive(Debug, Clone)]
pub enum PlaybackEvent {
    PlaybackPaused,
    PlaybackResumed,
    RepeatModeChanged(RepeatMode),
    TrackSeeked(u32),
    SeekSynced(u32),
    VolumeSet(u32),
    TrackChanged(String),
    SourceChanged,
    Preload(String),
    ShuffleChanged(bool),
    PlaylistChanged,
    PlaybackStopped,
    SwitchedDevice(Device),
    AvailableDevicesChanged,
}

/// The repeat mode that follows `m`: song, then none, then playlist.
pub open spec fn next_repeat(m: RepeatMode) -> RepeatMode {
    match m {
        RepeatMode::Song => RepeatMode::Off,
        RepeatMode::Playlist => RepeatMode::Song,
        RepeatMode::Off => RepeatMode::Playlist,
    }
}

/// `r` reports a change to the track with id `id`, then that playback runs.
pub open spec fn reports_track_change(r: Seq<PlaybackEvent>, id: Option<Seq<char>>) -> bool {
    &&& id is Some
    &&& r.len() == 2
    &&& r[0] is TrackChanged
    &&& r[0]->TrackChanged_0@ == id->Some_0
    &&& r[1] is PlaybackResumed
}

} // verus!
