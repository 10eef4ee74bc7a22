use spot_playback::{
    AlbumRef, Batch, ConnectDevice, ConnectDeviceKind, Device, LazyRandomIndex, PlaybackAction,
    PlaybackEvent, PlaybackState, PositionMillis, RepeatMode, SongBatch, SongDescription,
    SongListModel, SongsSource, SourceKind,
};

fn song(id: &str) -> SongDescription {
    SongDescription {
        id: id.to_string(),
        uri: format!("spotify:track:{}", id),
        title: "Title".to_string(),
        artists: vec![],
        album: AlbumRef {
            id: "".to_string(),
            name: "".to_string(),
        },
        duration: 1000,
        art: None,
        track_number: None,
    }
}

fn queued(ids: &[&str]) -> PlaybackState {
    let mut state = PlaybackState::default();
    state.queue(ids.iter().map(|id| song(id)).collect());
    state
}

fn song_ids(state: &PlaybackState) -> Vec<String> {
    state.songs().collect().iter().map(|s| s.id.clone()).collect()
}

fn id_at(state: &PlaybackState, i: Option<usize>) -> Option<String> {
    i.and_then(|i| state.songs().index(i).map(|s| s.id.clone()))
}

fn strings(ids: &[&str]) -> Vec<String> {
    ids.iter().map(|s| s.to_string()).collect()
}

fn is_track_change(events: &[PlaybackEvent], id: &str) -> bool {
    events.len() == 2
        && matches!(&events[0], PlaybackEvent::TrackChanged(t) if t == id)
        && matches!(events[1], PlaybackEvent::PlaybackResumed)
}

fn source(id: &str) -> SongsSource {
    SongsSource {
        kind: SourceKind::Playlist,
        id: id.to_string(),
    }
}

fn page(offset: usize, total: usize, ids: &[&str]) -> SongBatch {
    SongBatch {
        songs: ids.iter().map(|id| song(id)).collect(),
        batch: Batch {
            offset,
            batch_size: 50,
            total,
        },
    }
}

#[test]
fn position_stays_inside_list_through_edits() {
    let mut state = queued(&["1", "2", "3"]);
    state.play("3", 0);
    state.dequeue(&strings(&["1", "2", "3"]));
    assert_eq!(state.current_song_index(), None);
    state.set_shuffled(true);
    assert_eq!(state.current_song_index(), None);
    state.queue(vec![song("4")]);
    state.move_down("4");
    assert!(state.current_song_index().map_or(true, |p| p < state.songs().len()));
}

#[test]
fn playing_needs_a_loaded_track() {
    let mut state = queued(&["1", "2"]);
    state.play("2", 0);
    assert!(state.is_playing());
    state.dequeue(&strings(&["2"]));
    assert_eq!(state.current_song_index(), None);
    assert!(!state.is_playing());
}

#[test]
fn pause_when_paused_changes_nothing() {
    let mut state = queued(&["1", "2"]);
    let events = state.update_with(PlaybackAction::Pause, 0);
    assert!(events.is_empty());
    assert!(!state.is_playing());
    assert_eq!(state.current_song_index(), None);

    state.play("1", 0);
    state.toggle_play(10);
    assert!(!state.is_playing());
    let events = state.update_with(PlaybackAction::Pause, 20);
    assert!(events.is_empty());
    assert!(!state.is_playing());
    assert_eq!(state.current_song_index(), Some(0));
}

#[test]
fn play_when_playing_changes_nothing() {
    let mut state = queued(&["1", "2"]);
    state.play("2", 0);
    let events = state.update_with(PlaybackAction::Play, 5);
    assert!(events.is_empty());
    assert!(state.is_playing());
    assert_eq!(state.current_song_index(), Some(1));
}

#[test]
fn play_and_pause_report_once() {
    let mut state = queued(&["1"]);
    state.play("1", 0);
    let events = state.update_with(PlaybackAction::Pause, 0);
    assert!(matches!(events.as_slice(), [PlaybackEvent::PlaybackPaused]));
    let events = state.update_with(PlaybackAction::Play, 0);
    assert!(matches!(events.as_slice(), [PlaybackEvent::PlaybackResumed]));
    let events = state.update_with(PlaybackAction::TogglePlay, 0);
    assert!(matches!(events.as_slice(), [PlaybackEvent::PlaybackPaused]));
}

#[test]
fn repeat_song_stays_on_track() {
    let mut state = queued(&["1", "2", "3"]);
    state.update_with(PlaybackAction::SetRepeatMode(RepeatMode::Song), 0);
    for id in ["1", "2", "3"] {
        state.play(id, 0);
        let p = state.current_song_index();
        assert_eq!(state.next_index(), p);
        assert_eq!(state.prev_index(), p);
    }
}

#[test]
fn no_repeat_stops_at_ends() {
    let mut state = queued(&["1", "2", "3"]);
    state.play("3", 0);
    assert_eq!(state.next_index(), None);
    state.play("1", 0);
    assert_eq!(state.prev_index(), None);
}

#[test]
fn repeat_playlist_wraps_around() {
    let mut state = queued(&["1", "2", "3"]);
    state.update_with(PlaybackAction::SetRepeatMode(RepeatMode::Playlist), 0);
    state.play("3", 0);
    assert_eq!(state.current_song_index(), Some(2));
    assert_eq!(state.next_index(), Some(0));
    state.play("1", 0);
    assert_eq!(state.current_song_index(), Some(0));
    assert_eq!(state.prev_index(), Some(2));
}

#[test]
fn walk_through_three_songs() {
    let mut state = queued(&["1", "2", "3"]);
    state.play("2", 0);
    assert_eq!(state.current_song_id(), Some("2".to_string()));
    assert_eq!(id_at(&state, state.prev_index()), Some("1".to_string()));
    assert_eq!(id_at(&state, state.next_index()), Some("3".to_string()));
    state.toggle_play(0);
    assert!(!state.is_playing());
    state.play_next(0);
    assert!(state.is_playing());
    assert_eq!(state.current_song_id(), Some("3".to_string()));
    assert_eq!(state.next_index(), None);
    state.play_prev(100);
    assert_eq!(state.current_song_id(), Some("2".to_string()));
}

#[test]
fn going_back_at_threshold_changes_track() {
    let mut state = queued(&["1", "2", "3"]);
    state.play("2", 1000);
    let id = state.play_prev(3000);
    assert_eq!(id, Some("1".to_string()));
    assert_eq!(state.current_song_index(), Some(0));
}

#[test]
fn going_back_past_threshold_restarts_track() {
    let mut state = queued(&["1", "2", "3"]);
    state.play("2", 1000);
    let id = state.play_prev(3001);
    assert_eq!(id, None);
    assert_eq!(state.current_song_index(), Some(1));
    let events = state.update_with(PlaybackAction::Previous, 3001);
    assert!(is_track_change(&events, "1"));
}

#[test]
fn previous_past_threshold_reports_seek() {
    let mut state = queued(&["1", "2"]);
    state.play("2", 0);
    let events = state.update_with(PlaybackAction::Previous, 2001);
    assert!(matches!(events.as_slice(), [PlaybackEvent::TrackSeeked(0)]));
    assert_eq!(state.current_song_id(), Some("2".to_string()));
}

#[test]
fn shuffle_keeps_current_song_first() {
    let mut state = queued(&["1", "2", "3", "4"]);
    state.play("2", 0);
    assert_eq!(state.current_song_index(), Some(1));
    state.set_shuffled(true);
    assert_eq!(state.current_song_index(), Some(0));
    assert_eq!(state.current_song_id(), Some("2".to_string()));
    state.play_next(0);
    assert_eq!(state.current_song_index(), Some(1));
    let second = state.current_song_id().unwrap();
    assert_ne!(second, "2");
    state.set_shuffled(false);
    // Turning shuffle off moves the position to logical index 0, which is now
    // slot 0 of the list.
    assert_eq!(state.current_song_index(), Some(0));
    assert_eq!(state.current_song_id(), Some("1".to_string()));
    assert_eq!(song_ids(&state), strings(&["1", "2", "3", "4"]));
}

#[test]
fn shuffled_order_visits_every_song() {
    let mut state = queued(&["1", "2", "3", "4", "5"]);
    state.play("3", 0);
    state.set_shuffled(true);
    let mut seen = vec![state.current_song_id().unwrap()];
    for _ in 0..4 {
        seen.push(state.play_next(0).unwrap());
    }
    seen.sort();
    assert_eq!(seen, strings(&["1", "2", "3", "4", "5"]));
    assert_eq!(state.play_next(0), None);
}

#[test]
fn dequeue_follows_current_song() {
    let mut state = queued(&["1", "2", "3", "4", "5", "6"]);
    state.play("5", 0);
    assert_eq!(state.current_song_index(), Some(4));
    state.dequeue(&strings(&["1", "2", "3"]));
    assert_eq!(song_ids(&state), strings(&["4", "5", "6"]));
    assert_eq!(state.current_song_id(), Some("5".to_string()));
    assert_eq!(state.current_song_index(), Some(1));
}

#[test]
fn move_down_keeps_current_song() {
    let mut state = queued(&["1", "2", "3"]);
    state.play("2", 0);
    assert_eq!(state.move_down("1"), Some(0));
    assert_eq!(song_ids(&state), strings(&["2", "1", "3"]));
    assert_eq!(state.current_song_id(), Some("2".to_string()));
    assert_eq!(state.current_song_index(), Some(0));
}

#[test]
fn move_up_first_or_unknown_is_noop() {
    let mut state = queued(&["1", "2", "3"]);
    state.play("1", 0);
    assert_eq!(state.move_up("1"), None);
    assert_eq!(state.move_up("9"), None);
    assert_eq!(state.move_down("9"), None);
    assert_eq!(song_ids(&state), strings(&["1", "2", "3"]));
    assert_eq!(state.current_song_index(), Some(0));
}

#[test]
fn next_at_end_stops() {
    let mut state = queued(&["1", "2"]);
    state.play("2", 0);
    let events = state.update_with(PlaybackAction::Next, 0);
    assert!(matches!(events.as_slice(), [PlaybackEvent::PlaybackStopped]));
    assert_eq!(state.current_song_index(), None);
    assert!(!state.is_playing());
}

#[test]
fn next_advances_and_reports() {
    let mut state = queued(&["1", "2"]);
    state.play("1", 0);
    let events = state.update_with(PlaybackAction::Next, 0);
    assert!(is_track_change(&events, "2"));
}

#[test]
fn next_with_nothing_loaded_stops() {
    let mut state = PlaybackState::default();
    let events = state.update_with(PlaybackAction::Next, 0);
    assert!(matches!(events.as_slice(), [PlaybackEvent::PlaybackStopped]));
}

#[test]
fn load_unknown_or_current_gives_nothing() {
    let mut state = queued(&["1", "2"]);
    let events = state.update_with(PlaybackAction::Load("9".to_string()), 0);
    assert!(events.is_empty());
    let events = state.update_with(PlaybackAction::Load("2".to_string()), 0);
    assert!(is_track_change(&events, "2"));
    let events = state.update_with(PlaybackAction::Load("2".to_string()), 0);
    assert!(events.is_empty());
}

#[test]
fn toggle_repeat_cycles() {
    let mut state = PlaybackState::default();
    assert_eq!(state.repeat_mode(), RepeatMode::Off);
    let events = state.update_with(PlaybackAction::ToggleRepeat, 0);
    assert!(matches!(events.as_slice(), [PlaybackEvent::RepeatModeChanged(RepeatMode::Playlist)]));
    state.update_with(PlaybackAction::ToggleRepeat, 0);
    assert_eq!(state.repeat_mode(), RepeatMode::Song);
    state.update_with(PlaybackAction::ToggleRepeat, 0);
    assert_eq!(state.repeat_mode(), RepeatMode::Off);
    let events = state.update_with(PlaybackAction::SetRepeatMode(RepeatMode::Off), 0);
    assert!(events.is_empty());
}

#[test]
fn shuffle_actions_report() {
    let mut state = queued(&["1", "2"]);
    let events = state.update_with(PlaybackAction::SetShuffled(false), 0);
    assert!(events.is_empty());
    let events = state.update_with(PlaybackAction::ToggleShuffle, 0);
    assert!(matches!(events.as_slice(), [PlaybackEvent::ShuffleChanged(true)]));
    assert!(state.is_shuffled());
}

#[test]
fn paged_songs_extend_same_source() {
    let mut state = PlaybackState::default();
    let events = state.update_with(
        PlaybackAction::LoadPagedSongs(source("p"), page(0, 4, &["1", "2"])),
        0,
    );
    assert!(matches!(
        events.as_slice(),
        [PlaybackEvent::PlaylistChanged, PlaybackEvent::SourceChanged]
    ));
    assert_eq!(state.songs().len(), 4);
    assert_eq!(state.current_source().map(|s| s.id.clone()), Some("p".to_string()));

    state.play("2", 0);
    let query = state.next_query().unwrap();
    assert_eq!(query.source.id, "p");
    assert_eq!(query.batch, Batch { offset: 0, batch_size: 50, total: 4 });

    let events = state.update_with(
        PlaybackAction::LoadPagedSongs(source("p"), page(2, 4, &["3", "4"])),
        0,
    );
    assert!(matches!(events.as_slice(), [PlaybackEvent::PlaylistChanged]));
    assert_eq!(song_ids(&state), strings(&["1", "2", "3", "4"]));
    assert_eq!(state.current_song_id(), Some("2".to_string()));
    assert!(state.next_query().is_none());

    let events = state.update_with(
        PlaybackAction::LoadPagedSongs(source("p"), page(2, 4, &["3", "4"])),
        0,
    );
    assert!(events.is_empty());
}

#[test]
fn paged_songs_from_other_source_replace() {
    let mut state = PlaybackState::default();
    state.update_with(PlaybackAction::LoadPagedSongs(source("a"), page(0, 2, &["1", "2"])), 0);
    state.play("1", 0);
    let events =
        state.update_with(PlaybackAction::LoadPagedSongs(source("b"), page(0, 1, &["9"])), 0);
    assert!(matches!(
        events.as_slice(),
        [PlaybackEvent::PlaylistChanged, PlaybackEvent::SourceChanged]
    ));
    assert_eq!(song_ids(&state), strings(&["9"]));
    assert_eq!(state.current_song_index(), None);
    assert_eq!(state.current_source().map(|s| s.id.clone()), Some("b".to_string()));
}

#[test]
fn load_songs_and_queue_actions() {
    let mut state = PlaybackState::default();
    state.update_with(PlaybackAction::LoadPagedSongs(source("a"), page(0, 1, &["1"])), 0);
    let events = state.update_with(PlaybackAction::LoadSongs(vec![song("x"), song("y")]), 0);
    assert!(matches!(
        events.as_slice(),
        [PlaybackEvent::PlaylistChanged, PlaybackEvent::SourceChanged]
    ));
    assert!(state.current_source().is_none());
    let events = state.update_with(PlaybackAction::Queue(vec![song("z")]), 0);
    assert!(matches!(events.as_slice(), [PlaybackEvent::PlaylistChanged]));
    let events = state.update_with(PlaybackAction::Dequeue("x".to_string()), 0);
    assert!(matches!(events.as_slice(), [PlaybackEvent::PlaylistChanged]));
    assert_eq!(song_ids(&state), strings(&["y", "z"]));
}

#[test]
fn preload_names_next_song() {
    let mut state = queued(&["1", "2"]);
    state.play("1", 0);
    let events = state.update_with(PlaybackAction::Preload, 0);
    assert!(matches!(events.as_slice(), [PlaybackEvent::Preload(id)] if id == "2"));
    state.play("2", 0);
    let events = state.update_with(PlaybackAction::Preload, 0);
    assert!(events.is_empty());
}

#[test]
fn seek_actions_report_position() {
    let mut state = queued(&["1"]);
    state.play("1", 0);
    let events = state.update_with(PlaybackAction::Seek(3), 100);
    assert!(matches!(events.as_slice(), [PlaybackEvent::TrackSeeked(3)]));
    let events = state.update_with(PlaybackAction::SyncSeek(7), 100);
    assert!(matches!(events.as_slice(), [PlaybackEvent::SeekSynced(7)]));
    // Seven seconds in, going back restarts the track.
    let events = state.update_with(PlaybackAction::Previous, 100);
    assert!(matches!(events.as_slice(), [PlaybackEvent::TrackSeeked(0)]));
}

#[test]
fn volume_and_devices_pass_through() {
    let mut state = PlaybackState::default();
    let events = state.update_with(PlaybackAction::SetVolume(500), 0);
    assert!(matches!(events.as_slice(), [PlaybackEvent::VolumeSet(500)]));
    let device = ConnectDevice {
        id: "d".to_string(),
        label: "Kitchen".to_string(),
        kind: ConnectDeviceKind::Speaker,
    };
    let events = state.update_with(PlaybackAction::SetAvailableDevices(vec![device.clone()]), 0);
    assert!(matches!(events.as_slice(), [PlaybackEvent::AvailableDevicesChanged]));
    assert_eq!(state.available_devices().len(), 1);
    let events = state.update_with(PlaybackAction::SwitchDevice(Device::Connect(device)), 0);
    assert!(matches!(events.as_slice(), [PlaybackEvent::SwitchedDevice(Device::Connect(d))] if d.id == "d"));
    assert!(matches!(state.current_device(), Device::Connect(d) if d.label == "Kitchen"));
}

#[test]
fn stop_clears_position() {
    let mut state = queued(&["1"]);
    state.play("1", 0);
    let events = state.update_with(PlaybackAction::Stop, 0);
    assert!(matches!(events.as_slice(), [PlaybackEvent::PlaybackStopped]));
    assert_eq!(state.current_song_index(), None);
    assert!(!state.is_playing());
}

#[test]
fn clock_estimates_position() {
    let mut clock = PositionMillis::new(1000);
    assert_eq!(clock.current(500), 0);
    clock.set(1000, true, 100);
    assert_eq!(clock.current(350), 1250);
    clock.pause(600);
    assert_eq!(clock.current(10_000), 1500);
    clock.resume(10_000);
    assert_eq!(clock.current(10_001), 1501);
    assert_eq!(clock.current(9_000), 1500);
}

#[test]
fn clock_rounds_up_at_other_rates() {
    let mut clock = PositionMillis::new(1500);
    clock.set(0, true, 0);
    assert_eq!(clock.current(1), 2);
    assert_eq!(clock.current(2), 3);
    let mut slow = PositionMillis::new(333);
    slow.set(0, true, 0);
    assert_eq!(slow.current(3), 1);
    slow.set(u64::MAX - 1, true, 0);
    assert_eq!(slow.current(u64::MAX), u64::MAX);
}

#[test]
fn song_list_pages() {
    let mut list = SongListModel::new(2);
    assert!(list.add(page(2, 5, &["c", "d"])));
    assert_eq!(list.len(), 5);
    assert!(list.index(0).is_none());
    assert_eq!(list.index(3).map(|s| s.id.clone()), Some("d".to_string()));
    assert_eq!(list.needed_batch_for(4), Some(Batch { offset: 4, batch_size: 2, total: 5 }));
    assert_eq!(list.needed_batch_for(1), Some(Batch { offset: 0, batch_size: 2, total: 5 }));
    assert_eq!(list.needed_batch_for(2), None);
    assert_eq!(list.needed_batch_for(5), None);
    assert!(!list.add(page(2, 5, &["c", "d"])));
    assert_eq!(list.find_index("d"), Some(3));
    assert_eq!(list.find_index("z"), None);
    assert!(list.remove(&["c".to_string()]));
    assert_eq!(list.len(), 4);
    assert!(!list.remove(&["c".to_string()]));
}

#[test]
fn shuffle_index_starts_with_first_pick() {
    let mut index = LazyRandomIndex::new(7);
    index.grow(5);
    assert_eq!(index.get(4), Some(4));
    assert_eq!(index.get(5), None);
    index.reset_picking_first(3);
    assert_eq!(index.get(0), Some(3));
    index.next_until(5);
    assert_eq!(index.get(0), Some(3));
    let mut all: Vec<usize> = (0..5).map(|i| index.get(i).unwrap()).collect();
    all.sort();
    assert_eq!(all, vec![0, 1, 2, 3, 4]);
    index.shrink(3);
    let mut rest: Vec<usize> = (0..3).map(|i| index.get(i).unwrap()).collect();
    rest.sort();
    assert_eq!(rest, vec![0, 1, 2]);
    assert_eq!(index.get(3), None);
}

#[test]
fn song_copy_keeps_fields() {
    let mut state = queued(&["1"]);
    state.play("1", 0);
    let current = state.current_song().unwrap();
    assert_eq!(current.id, "1");
    assert_eq!(current.uri, "spotify:track:1");
    assert_eq!(current.duration, 1000);
}


#[test]
fn seeded_state_starts_empty() {
    let state = PlaybackState::with_shuffle_seed(42);
    assert!(!state.is_playing());
    assert!(!state.is_shuffled());
    assert_eq!(state.songs().len(), 0);
    assert_eq!(state.repeat_mode(), RepeatMode::Off);
}

#[test]
fn queue_while_shuffled_keeps_current_song() {
    let mut state = PlaybackState::with_shuffle_seed(9);
    state.queue(vec![song("1"), song("2"), song("3")]);
    state.play("3", 0);
    state.set_shuffled(true);
    assert_eq!(state.current_song_id(), Some("3".to_string()));
    state.queue(vec![song("4"), song("5")]);
    assert_eq!(state.current_song_id(), Some("3".to_string()));
    let mut seen = vec![state.current_song_id().unwrap()];
    while let Some(id) = state.play_next(0) {
        seen.push(id);
    }
    seen.sort();
    assert_eq!(seen, strings(&["1", "2", "3", "4", "5"]));
}

#[test]
fn load_while_shuffled_plays_chosen_song() {
    let mut state = queued(&["1", "2", "3", "4"]);
    state.set_shuffled(true);
    let events = state.update_with(PlaybackAction::Load("4".to_string()), 0);
    assert!(is_track_change(&events, "4"));
    assert_eq!(state.current_song_index(), Some(0));
    assert_eq!(state.current_song_id(), Some("4".to_string()));
}

#[test]
fn previous_at_first_track_reports_seek() {
    let mut state = queued(&["1", "2"]);
    state.play("1", 0);
    let events = state.update_with(PlaybackAction::Previous, 5000);
    assert!(matches!(events.as_slice(), [PlaybackEvent::TrackSeeked(0)]));
    assert_eq!(state.current_song_index(), Some(0));
    assert!(state.is_playing());
}

#[test]
fn oversized_page_is_ignored() {
    let mut state = PlaybackState::default();
    let events = state.update_with(
        PlaybackAction::LoadPagedSongs(source("p"), page(usize::MAX, 4, &["1"])),
        0,
    );
    assert!(events.is_empty());
    assert_eq!(state.songs().len(), 0);
    assert!(state.current_source().is_none());
}

#[test]
fn shrink_fills_missing_slots() {
    let mut index = LazyRandomIndex::new(3);
    index.grow(4);
    index.reset_picking_first(3);
    index.shrink(3);
    let got: Vec<usize> = (0..3).map(|i| index.get(i).unwrap()).collect();
    assert_eq!(got, vec![1, 2, 0]);
}
