use slam_viz::playback::PlaybackState;
use slam_viz::TickPhase;

#[test]
fn test_seek_clamps() {
    let mut state = PlaybackState::new(10);
    state.seek(999);
    assert_eq!(state.current_frame, 9);
}

#[test]
fn new_starts_paused_at_first_frame() {
    let s = PlaybackState::new(7);
    assert_eq!(s.current_frame, 0);
    assert_eq!(s.total_frames, 7);
    assert!(!s.is_playing);
    assert_eq!(s.last_frame(), 6);
    assert_eq!(PlaybackState::new(0).last_frame(), 0);
}

#[test]
fn seek_within_range_and_on_empty_track() {
    let mut s = PlaybackState::new(10);
    s.seek(4);
    assert_eq!(s.current_frame, 4);
    s.seek(9);
    assert_eq!(s.current_frame, 9);
    let mut e = PlaybackState::new(0);
    e.seek(3);
    assert_eq!(e.current_frame, 0);
}

#[test]
fn toggle_rewinds_from_last_frame() {
    let mut s = PlaybackState::new(5);
    s.seek(4);
    s.toggle_play();
    assert!(s.is_playing);
    assert_eq!(s.current_frame, 0);
    s.seek(2);
    s.toggle_play();
    assert!(!s.is_playing);
    assert_eq!(s.current_frame, 2);
    s.toggle_play();
    assert!(s.is_playing);
    assert_eq!(s.current_frame, 2);
}

#[test]
fn tick_phase_cases() {
    let mut s = PlaybackState::new(10);
    assert_eq!(s.tick_phase(10), TickPhase::Paused);
    s.is_playing = true;
    assert_eq!(s.tick_phase(10), TickPhase::Frame { from: 0, to: 1 });
    s.seek(9);
    assert_eq!(s.tick_phase(10), TickPhase::EndOfTrack);
    let mut e = PlaybackState::new(0);
    e.is_playing = true;
    assert_eq!(e.tick_phase(0), TickPhase::Paused);
}

#[test]
fn tick_advances_one_frame_when_time_elapsed() {
    let mut s = PlaybackState::new(10);
    s.is_playing = true;
    s.finish_tick(10, true);
    assert_eq!(s.current_frame, 1);
    assert!(s.is_playing);
    s.finish_tick(10, false);
    assert_eq!(s.current_frame, 1);
}

#[test]
fn tick_stops_at_last_frame() {
    let mut s = PlaybackState::new(3);
    s.is_playing = true;
    s.finish_tick(3, true);
    assert_eq!(s.current_frame, 1);
    assert!(s.is_playing);
    s.finish_tick(3, true);
    assert_eq!(s.current_frame, 2);
    assert!(!s.is_playing);
}

#[test]
fn tick_ends_playback_without_next_timestamp() {
    let mut s = PlaybackState::new(4);
    s.is_playing = true;
    s.finish_tick(1, true);
    assert_eq!(s.current_frame, 0);
    assert!(!s.is_playing);
}

#[test]
fn paused_tick_changes_nothing() {
    let mut s = PlaybackState::new(4);
    s.seek(2);
    let before = s;
    s.finish_tick(4, true);
    assert_eq!(s, before);
}

#[test]
fn elapsed_tick_never_lands_earlier() {
    for frame in 0..6usize {
        let mut a = PlaybackState::new(6);
        a.seek(frame);
        a.is_playing = true;
        let mut b = a;
        a.finish_tick(6, false);
        b.finish_tick(6, true);
        assert!(b.current_frame >= a.current_frame);
        assert!(b.current_frame <= frame + 1);
        assert!(b.current_frame <= b.last_frame());
    }
}
