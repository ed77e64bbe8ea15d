use bbb_queue::codec::sample_to_le;
use bbb_queue::engine::Advance;
use bbb_queue::engine::AppService;
use bbb_queue::engine::FillPlan;
use bbb_queue::errors::PlayerError;
use bbb_queue::player_queue::PlayerQueue;
use bbb_queue::slot::Slot;

fn queue_of(ids: &[&str]) -> PlayerQueue {
    let lines: Vec<String> = ids.iter().map(|s| s.to_string()).collect();
    PlayerQueue::new(lines)
}

#[test]
fn samples_serialize_little_endian() {
    assert_eq!(sample_to_le(0), (0, 0));
    assert_eq!(sample_to_le(258), (2, 1));
    assert_eq!(sample_to_le(-1), (255, 255));
    assert_eq!(sample_to_le(-32768), (0, 128));
    assert_eq!(sample_to_le(32767), (255, 127));
}

#[test]
fn empty_slot_reports_no_source() {
    let mut slot = Slot::new();
    assert_eq!(slot.duration_nanos(), 0);
    let chunk: Vec<i16> = vec![1, 2];
    let mut out: Vec<i16> = vec![0; 4];
    assert_eq!(
        slot.play(&chunk, 7, &mut out),
        Err(PlayerError::NoSourceLoaded)
    );
    assert_eq!(out, vec![0, 0, 0, 0]);
}

#[test]
fn loaded_slot_copies_chunk_and_tracks_position() {
    let mut slot = Slot::insert(1_000);
    assert!(slot.has_source());
    assert_eq!(slot.duration_nanos(), 1_000);
    assert_eq!(slot.playback_position_nanos(), 0);
    let chunk: Vec<i16> = vec![5, -6, 7];
    let mut out: Vec<i16> = vec![9; 5];
    assert_eq!(slot.play(&chunk, 42, &mut out), Ok(3));
    // the chunk at the front, silence past it
    assert_eq!(out, vec![5, -6, 7, 0, 0]);
    assert_eq!(slot.playback_position_nanos(), 42);
    assert_eq!(slot.duration_nanos(), 1_000);
}

#[test]
fn fill_crossing_a_track_boundary() {
    // the current track has 2 samples left; the buffer demands 4; the queue
    // has a next track that is long enough
    let mut svc = AppService::new(queue_of(&["t1", "t2"]));
    svc.load_track(50);
    match svc.plan_fill() {
        FillPlan::PullCurrent => {}
        other => panic!("expected a pull, got {:?}", other),
    }
    let mut out: Vec<u8> = vec![0xAA; 8];
    let first: Vec<i16> = vec![1, -1];
    let written = svc.play_chunk(&first, 50, &mut out, 0).unwrap();
    assert_eq!(written, 2);
    // the bytes past the short chunk are silenced, not left stale
    assert_eq!(out, vec![1, 0, 255, 255, 0, 0, 0, 0]);
    // short of the 4-sample demand: advance circularly and keep filling
    match svc.next_after_short(written) {
        Advance::NextTrack(id) => assert_eq!(id, "t2"),
        Advance::Done(_) => panic!("expected a next track"),
    }
    assert_eq!(svc.current_index(), 1);
    svc.load_track(80);
    let second: Vec<i16> = vec![2, 3];
    let total = svc.play_chunk(&second, 10, &mut out, written).unwrap();
    assert_eq!(total, 4);
    // tail of the old track, then head of the new one, little-endian
    assert_eq!(out, vec![1, 0, 255, 255, 2, 0, 3, 0]);
}

#[test]
fn fill_with_exhausted_queue_stays_short_without_error() {
    let mut svc = AppService::new(queue_of(&[]));
    svc.load_track(30);
    let mut out: Vec<u8> = vec![0xBB; 8];
    let chunk: Vec<i16> = vec![4];
    let written = svc.play_chunk(&chunk, 30, &mut out, 0).unwrap();
    assert_eq!(written, 1);
    match svc.next_after_short(written) {
        Advance::Done(w) => assert_eq!(w, 1),
        Advance::NextTrack(_) => panic!("queue is empty"),
    }
    assert_eq!(svc.current_index(), 0);
    // the written prefix, then silence to the end of the buffer
    assert_eq!(out, vec![4, 0, 0, 0, 0, 0, 0, 0]);
}

#[test]
fn plan_fill_loads_or_idles_when_slot_is_empty() {
    let svc = AppService::new(queue_of(&["x"]));
    match svc.plan_fill() {
        FillPlan::LoadTrack(id) => assert_eq!(id, "x"),
        other => panic!("expected a load, got {:?}", other),
    }
    let idle = AppService::new(queue_of(&[]));
    match idle.plan_fill() {
        FillPlan::Idle => {}
        other => panic!("expected idle, got {:?}", other),
    }
}

#[test]
fn play_chunk_without_source_signals_control_error() {
    let mut svc = AppService::new(queue_of(&["x"]));
    let mut out: Vec<u8> = vec![1; 4];
    let chunk: Vec<i16> = vec![2];
    assert_eq!(
        svc.play_chunk(&chunk, 0, &mut out, 0),
        Err(PlayerError::NoSourceLoaded)
    );
    assert_eq!(out, vec![1, 1, 1, 1]);
}
