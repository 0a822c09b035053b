use m3u8_downloader::{
    ChunkDecision, ChunkWaiter, MediaPlaylistInfo, ReceiverPhase, ReceiverState, SegmentInfo,
    SendDecision, StopDecision, TransferAction, TransferLoop, UrlGenerator, AppError,
};

fn playlist(first: i32, count: i32) -> MediaPlaylistInfo {
    MediaPlaylistInfo {
        media_sequence: first,
        segments: (first..first + count).map(|n| SegmentInfo { uri: format!("s{}.ts", n) }).collect(),
    }
}

fn uris(segments: &[SegmentInfo]) -> Vec<&str> {
    segments.iter().map(|s| s.uri.as_str()).collect()
}

#[test]
fn first_poll_takes_every_segment() {
    let mut g = UrlGenerator::new();
    let batch = g.take_new_segments(playlist(10, 3));
    assert_eq!(uris(&batch.segments), vec!["s10.ts", "s11.ts", "s12.ts"]);
    assert!(!batch.gap_detected);
    assert_eq!(g.previous_last_segment(), 12);
}

#[test]
fn later_polls_take_only_newer_segments() {
    let mut g = UrlGenerator::new();
    g.take_new_segments(playlist(10, 3));
    let batch = g.take_new_segments(playlist(11, 4));
    assert_eq!(uris(&batch.segments), vec!["s13.ts", "s14.ts"]);
    assert!(!batch.gap_detected);
    assert_eq!(g.previous_last_segment(), 14);
    let batch = g.take_new_segments(playlist(12, 3));
    assert!(batch.segments.is_empty());
    assert_eq!(g.previous_last_segment(), 14);
}

#[test]
fn lost_segments_are_reported() {
    let mut g = UrlGenerator::new();
    g.take_new_segments(playlist(10, 3));
    let batch = g.take_new_segments(playlist(20, 2));
    assert_eq!(uris(&batch.segments), vec!["s20.ts", "s21.ts"]);
    assert!(batch.gap_detected);
    assert_eq!(g.previous_last_segment(), 21);
}

#[test]
fn segments_numbered_zero_or_below_are_never_taken() {
    let mut g = UrlGenerator::new();
    let batch = g.take_new_segments(playlist(-1, 3));
    assert_eq!(uris(&batch.segments), vec!["s1.ts"]);
    assert_eq!(g.previous_last_segment(), 1);
}

#[test]
fn empty_playlist_changes_nothing() {
    let mut g = UrlGenerator::new();
    g.take_new_segments(playlist(5, 2));
    let batch = g.take_new_segments(playlist(9, 0));
    assert!(batch.segments.is_empty());
    assert!(!batch.gap_detected);
    assert_eq!(g.previous_last_segment(), 6);
}

#[test]
fn timeouts_shrink_from_forty_to_five() {
    let mut w = ChunkWaiter::new();
    let got: Vec<u64> = (0..10).map(|_| w.next_timeout()).collect();
    assert_eq!(got, vec![40, 35, 30, 25, 20, 15, 10, 5, 5, 5]);
}

#[test]
fn eleven_timeouts_in_a_row_stop() {
    let mut w = ChunkWaiter::new();
    for n in 1..=10 {
        w.next_timeout();
        assert_eq!(w.on_wait_finished(true), ChunkDecision::Skip);
        assert_eq!(w.skipped_in_a_row(), n);
    }
    w.next_timeout();
    assert_eq!(w.on_wait_finished(true), ChunkDecision::Stop);
}

#[test]
fn a_chunk_in_time_resets_the_count() {
    let mut w = ChunkWaiter::new();
    for _ in 0..10 {
        w.next_timeout();
        w.on_wait_finished(true);
    }
    assert_eq!(w.on_wait_finished(false), ChunkDecision::Deliver);
    assert_eq!(w.skipped_in_a_row(), 0);
    assert_eq!(w.on_wait_finished(true), ChunkDecision::Skip);
}

#[test]
fn active_receiver_takes_data() {
    let r = ReceiverState::new();
    assert_eq!(r.phase(), ReceiverPhase::Active);
    assert_eq!(r.send_decision(false).unwrap(), SendDecision::Forward);
    assert_eq!(r.send_decision(true).unwrap(), SendDecision::SkipClosed);
    assert!(!r.may_drop());
}

#[test]
fn stopped_receiver_refuses_data() {
    let mut r = ReceiverState::new();
    assert_eq!(r.stop(), StopDecision::CloseAndJoin);
    assert_eq!(r.phase(), ReceiverPhase::Complete);
    assert!(matches!(r.send_decision(false), Err(AppError::ReceiverSendError)));
    assert!(r.may_drop());
    assert_eq!(r.stop(), StopDecision::AlreadyComplete);
}

#[test]
fn transfer_delivers_until_the_end() {
    let mut l: TransferLoop<String> = TransferLoop::new();
    assert!(matches!(l.on_stream_item(Some(Ok(1u8))), TransferAction::Deliver(1)));
    assert!(matches!(l.on_delivered(true), TransferAction::Deliver(())));
    assert!(matches!(l.on_stream_item::<u8>(None), TransferAction::Finish));
    assert!(l.is_finished());
    assert_eq!(l.into_result(), Ok(()));
}

#[test]
fn transfer_keeps_the_stream_error() {
    let mut l: TransferLoop<String> = TransferLoop::new();
    l.on_stream_item(Some(Ok(1u8)));
    l.on_delivered(true);
    assert!(matches!(l.on_stream_item::<u8>(Some(Err("timeout".to_string()))), TransferAction::Finish));
    assert_eq!(l.into_result(), Err("timeout".to_string()));
}

#[test]
fn refused_delivery_ends_without_error() {
    let mut l: TransferLoop<String> = TransferLoop::new();
    l.on_stream_item(Some(Ok(1u8)));
    assert!(matches!(l.on_delivered(false), TransferAction::Finish));
    assert!(l.is_finished());
    assert_eq!(l.into_result(), Ok(()));
}

#[test]
fn numbers_over_a_stream_only_increase() {
    let mut g = UrlGenerator::new();
    let mut numbers: Vec<i32> = Vec::new();
    for (first, count) in [(10, 3), (11, 4), (9, 2), (30, 2), (31, 3)] {
        let before = g.previous_last_segment();
        let batch = g.take_new_segments(playlist(first, count));
        for s in batch.segments.iter() {
            let n: i32 = s.uri.trim_start_matches('s').trim_end_matches(".ts").parse().unwrap();
            assert!(n > before);
            numbers.push(n);
        }
    }
    assert_eq!(numbers, vec![10, 11, 12, 13, 14, 30, 31, 32, 33]);
}
