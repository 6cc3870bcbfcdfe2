use kitty_media::media_url::MediaUrl;
use kitty_media::stream::StreamEvent::{
    CacheOpened, CheckFailed, Data, End, Exited, Finalized, Forwarded, ReadFailed, Released,
    Reported, Running, Slept, StartFailed, Started, TempRemoved,
};
use kitty_media::stream::{
    ffmpeg_finalize_args, ffmpeg_stream_args, wants_cache, StreamAction, StreamError, StreamEvent,
    StreamPhase, StreamState,
};

/// Runs a download holding a slot from the first read on: ffmpeg has started and, when
/// `cache_open`, the cache file has been created.
fn run(cache_open: bool, events: &[StreamEvent]) -> (Vec<StreamAction>, StreamState) {
    let mut s = StreamState::new(true, cache_open);
    assert_eq!(s.next_action(), StreamAction::Start);
    s.on_event(Started);
    if cache_open {
        assert_eq!(s.next_action(), StreamAction::OpenCache);
        s.on_event(CacheOpened { opened: true });
    }
    let mut actions = vec![s.next_action()];
    for e in events {
        s.on_event(*e);
        actions.push(s.next_action());
    }
    (actions, s)
}

const OK: StreamEvent = StreamEvent::Forwarded { send_failed: false, write_failed: false };

#[test]
fn ffmpeg_arguments() {
    let media = MediaUrl::Separate { video_url: "V".to_string(), audio_url: "A".to_string() };
    assert_eq!(
        ffmpeg_stream_args(&media),
        vec![
            "-i", "V", "-i", "A", "-c:v", "copy", "-c:a", "copy", "-movflags",
            "frag_keyframe+empty_moov", "-f", "mp4", "pipe:1",
        ]
    );
    assert_eq!(
        ffmpeg_finalize_args("/c/x.frag.mp4", "/c/x.mp4"),
        vec!["-i", "/c/x.frag.mp4", "-c:v", "copy", "-c:a", "copy", "-movflags", "faststart", "/c/x.mp4"]
    );
}

#[test]
fn stream_errors_and_cache_choice() {
    assert_eq!(StreamError::FfmpegExecute.to_string(), "Failed to execute ffmpeg");
    assert_eq!(StreamError::FfmpegCaptureStdout.to_string(), "Failed to capture ffmpeg stdout");
    assert!(wants_cache(true, true));
    assert!(!wants_cache(false, true));
    assert!(!wants_cache(true, false));
}

#[test]
fn complete_stream_with_cache() {
    let (actions, s) = run(
        true,
        &[Data, OK, End, Running, Slept, Data, OK, End, Exited, Finalized { ran: true }, TempRemoved, Released],
    );
    assert_eq!(
        actions,
        vec![
            StreamAction::Read,
            StreamAction::Forward { send: true, write: true },
            StreamAction::Read,
            StreamAction::CheckExit,
            StreamAction::Sleep,
            StreamAction::Read,
            StreamAction::Forward { send: true, write: true },
            StreamAction::Read,
            StreamAction::CheckExit,
            StreamAction::Finalize,
            StreamAction::RemoveTemp,
            StreamAction::Release,
            StreamAction::Finish,
        ]
    );
    assert_eq!(s.phase, StreamPhase::Done);
    assert!(!s.cache_open);
}

#[test]
fn finalize_that_cannot_run_keeps_the_temp_file() {
    let (actions, _) = run(true, &[End, Exited, Finalized { ran: false }]);
    assert_eq!(
        actions,
        vec![StreamAction::Read, StreamAction::CheckExit, StreamAction::Finalize, StreamAction::Release]
    );
}

#[test]
fn complete_stream_without_cache() {
    let (actions, s) = run(false, &[Data, OK, End, Exited, Released]);
    assert_eq!(
        actions,
        vec![
            StreamAction::Read,
            StreamAction::Forward { send: true, write: false },
            StreamAction::Read,
            StreamAction::CheckExit,
            StreamAction::Release,
            StreamAction::Finish,
        ]
    );
    assert!(!s.claimed);
}

#[test]
fn client_gone_keeps_caching() {
    let gone = Forwarded { send_failed: true, write_failed: false };
    let (actions, s) = run(true, &[Data, gone, Data, OK]);
    assert_eq!(
        actions,
        vec![
            StreamAction::Read,
            StreamAction::Forward { send: true, write: true },
            StreamAction::Read,
            StreamAction::Forward { send: false, write: true },
            StreamAction::Read,
        ]
    );
    assert!(s.streaming_failed && s.cache_open);
}

#[test]
fn client_gone_without_cache_stops() {
    let gone = Forwarded { send_failed: true, write_failed: false };
    let (actions, s) = run(false, &[Data, gone]);
    assert_eq!(actions.last(), Some(&StreamAction::Release));
    let (actions, s2) = run(false, &[Data, gone, Released]);
    assert_eq!(actions.last(), Some(&StreamAction::Finish));
    assert_eq!(s2.phase, StreamPhase::Done);
    assert!(s.claimed && !s2.claimed);
}

#[test]
fn write_failure_closes_the_cache() {
    let broken = Forwarded { send_failed: false, write_failed: true };
    let (actions, s) = run(true, &[Data, broken, Data]);
    assert_eq!(actions.last(), Some(&StreamAction::Forward { send: true, write: false }));
    assert!(s.cache_failed && !s.cache_open);
    let both = Forwarded { send_failed: true, write_failed: true };
    let (actions, s) = run(true, &[Data, both]);
    assert_eq!(actions.last(), Some(&StreamAction::Release));
    assert!(!s.cache_open);
    let (actions, s) = run(true, &[Data, broken, Data, OK, End, Exited, Released]);
    assert_eq!(&actions[actions.len() - 2..], &[StreamAction::Release, StreamAction::Finish]);
    assert!(!s.claimed);
}

#[test]
fn read_failure_discards_the_cache() {
    let (actions, _) = run(true, &[Data, OK, ReadFailed, TempRemoved, Released]);
    assert_eq!(
        &actions[2..],
        &[StreamAction::Read, StreamAction::RemoveTemp, StreamAction::Release, StreamAction::Finish]
    );
    let (actions, _) = run(true, &[End, CheckFailed]);
    assert_eq!(actions.last(), Some(&StreamAction::RemoveTemp));
}

#[test]
fn unexpected_events_change_nothing() {
    let mut s = StreamState::new(true, true);
    s.on_event(StreamEvent::Released);
    assert_eq!(s, StreamState::new(true, true));
}

#[test]
fn start_failure_is_reported_and_releases_the_slot() {
    for err in [StreamError::FfmpegExecute, StreamError::FfmpegCaptureStdout] {
        let mut s = StreamState::new(true, true);
        let mut actions = vec![s.next_action()];
        for e in [StartFailed(err), Reported, Released] {
            s.on_event(e);
            actions.push(s.next_action());
        }
        assert_eq!(
            actions,
            vec![
                StreamAction::Start,
                StreamAction::Report(err),
                StreamAction::Release,
                StreamAction::Finish,
            ]
        );
    }
}

#[test]
fn cache_file_that_cannot_be_created() {
    let mut s = StreamState::new(true, true);
    s.on_event(Started);
    assert_eq!(s.next_action(), StreamAction::OpenCache);
    s.on_event(CacheOpened { opened: false });
    assert_eq!(s.next_action(), StreamAction::Read);
    s.on_event(Data);
    assert_eq!(s.next_action(), StreamAction::Forward { send: true, write: false });
}

#[test]
fn without_a_slot_nothing_is_released() {
    let mut s = StreamState::new(false, false);
    for e in [Started, End, Exited] {
        s.on_event(e);
    }
    assert_eq!(s.next_action(), StreamAction::Finish);
}
