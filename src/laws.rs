use vstd::prelude::*;
use crate::playback::{next_of, prev_of, PlaybackState};
use crate::song::RepeatMode;

verus! {

/// In every well-formed state (the one `default` builds, and every state
/// that the operations leave), the position is absent or a slot of the list.
pub proof fn lemma_position_in_list(s: &PlaybackState)
    requires
        s.wf(),
    ensures
        match s.spec_position() {
            Some(p) => p < s.spec_len(),
            None => true,
        },
{
}

/// The player reports that it plays only while a track is loaded.
pub proof fn lemma_playing_has_position(s: &PlaybackState)
    ensures
        s.spec_is_playing() ==> s.spec_position() is Some,
{
}

/// Repeating one song, the next and the previous track are the current one,
/// wherever it is.
pub proof fn lemma_repeat_song_stays(p: usize, len: int)
    ensures
        next_of(Some(p), RepeatMode::Song, len) == Some(p),
        prev_of(Some(p), RepeatMode::Song, len) == Some(p),
{
}

/// Without repeat, there is no next track after the last one and no
/// previous track before the first one.
pub proof fn lemma_no_repeat_ends(p: usize, len: int)
    ensures
        p + 1 == len ==> next_of(Some(p), RepeatMode::Off, len) is None,
        p == 0 ==> prev_of(Some(p), RepeatMode::Off, len) is None,
{
}

/// Repeating the playlist, the next track after the last one is the first,
/// and the previous track before the first one is the last.
pub proof fn lemma_repeat_playlist_wraps(len: int)
    requires
        0 < len <= usize::MAX,
    ensures
        next_of(Some((len - 1) as usize), RepeatMode::Playlist, len) == Some(0usize),
        prev_of(Some(0usize), RepeatMode::Playlist, len) == Some((len - 1) as usize),
{
    assert(((len - 1 + 1) % len) == 0) by {
        vstd::arithmetic::div_mod::lemma_mod_self_0(len);
    }
}

} // verus!
