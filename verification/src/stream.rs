//! Streaming a video to the client while it is fetched, and caching it on the way.
//!
//! The streaming task starts ffmpeg, which merges the video and audio streams into a
//! fragmented MP4 on its standard output. It reads that output chunk by chunk, forwards each
//! chunk to the client and writes it to a temporary cache file. When ffmpeg has finished, the
//! temporary file is turned into the final cached file; when streaming stops early, it is
//! removed. However the task ends, the download slot it holds is given back.
//!
//! [`StreamState`] holds the decisions: the task asks it for the next [`StreamAction`],
//! performs it, and reports the outcome as a [`StreamEvent`].

use vstd::prelude::*;

use crate::media_url::MediaUrl;
use crate::text::{push_string, strings_view};

verus! {

/// Failures reported to the client in place of video data.
#[derive(Clone, Copy, Debug, PartialEq, Eq, Hash, Structural)]
pub enum StreamError {
    /// ffmpeg could not be started.
    FfmpegExecute,
    /// ffmpeg's standard output could not be captured.
    FfmpegCaptureStdout,
}

impl StreamError {
    /// The message of this error.
    pub open spec fn message(self) -> Seq<char> {
        match self {
            StreamError::FfmpegExecute => "Failed to execute ffmpeg"@,
            StreamError::FfmpegCaptureStdout => "Failed to capture ffmpeg stdout"@,
        }
    }

    /// Renders the message of this error.
    pub fn to_string(&self) -> (r: String)
        ensures
            r@ == self.message(),
    {
        match self {
            StreamError::FfmpegExecute => String::from_str("Failed to execute ffmpeg"),
            StreamError::FfmpegCaptureStdout => String::from_str("Failed to capture ffmpeg stdout"),
        }
    }
}

/// The arguments of the ffmpeg run that merges the two streams into a fragmented MP4 on
/// standard output, without re-encoding.
pub open spec fn stream_args_of(video: Seq<char>, audio: Seq<char>) -> Seq<Seq<char>> {
    seq![
        "-i"@,
        video,
        "-i"@,
        audio,
        "-c:v"@,
        "copy"@,
        "-c:a"@,
        "copy"@,
        "-movflags"@,
        "frag_keyframe+empty_moov"@,
        "-f"@,
        "mp4"@,
        "pipe:1"@,
    ]
}

/// The arguments of the ffmpeg run that turns the temporary file into the cached file, with
/// the index moved to the front, without re-encoding.
pub open spec fn finalize_args_of(temp: Seq<char>, cached: Seq<char>) -> Seq<Seq<char>> {
    seq![
        "-i"@,
        temp,
        "-c:v"@,
        "copy"@,
        "-c:a"@,
        "copy"@,
        "-movflags"@,
        "faststart"@,
        cached,
    ]
}

/// The arguments of the ffmpeg run that streams `media`.
pub fn ffmpeg_stream_args(media: &MediaUrl) -> (r: Vec<String>)
    ensures
        strings_view(r@) == stream_args_of(media.video(), media.audio()),
{
    let (video, audio) = match media {
        MediaUrl::Separate { video_url, audio_url } => (video_url, audio_url),
    };
    let mut args: Vec<String> = Vec::new();
    push_string(&mut args, String::from_str("-i"));
    push_string(&mut args, video.clone());
    push_string(&mut args, String::from_str("-i"));
    push_string(&mut args, audio.clone());
    push_string(&mut args, String::from_str("-c:v"));
    push_string(&mut args, String::from_str("copy"));
    push_string(&mut args, String::from_str("-c:a"));
    push_string(&mut args, String::from_str("copy"));
    push_string(&mut args, String::from_str("-movflags"));
    push_string(&mut args, String::from_str("frag_keyframe+empty_moov"));
    push_string(&mut args, String::from_str("-f"));
    push_string(&mut args, String::from_str("mp4"));
    push_string(&mut args, String::from_str("pipe:1"));
    assert(strings_view(args@) =~= stream_args_of(media.video(), media.audio()));
    args
}

/// The arguments of the ffmpeg run that turns the temporary file `temp` into `cached`.
pub fn ffmpeg_finalize_args(temp: &str, cached: &str) -> (r: Vec<String>)
    ensures
        strings_view(r@) == finalize_args_of(temp@, cached@),
{
    let mut args: Vec<String> = Vec::new();
    push_string(&mut args, String::from_str("-i"));
    push_string(&mut args, temp.to_owned());
    push_string(&mut args, String::from_str("-c:v"));
    push_string(&mut args, String::from_str("copy"));
    push_string(&mut args, String::from_str("-c:a"));
    push_string(&mut args, String::from_str("copy"));
    push_string(&mut args, String::from_str("-movflags"));
    push_string(&mut args, String::from_str("faststart"));
    push_string(&mut args, cached.to_owned());
    assert(strings_view(args@) =~= finalize_args_of(temp@, cached@));
    args
}

/// Whether the streaming task caches the video: only when it is the download that caches it
/// (no other running download is caching it) and a cache directory is configured.
pub fn wants_cache(cacher: bool, caching: bool) -> (r: bool)
    ensures
        r == (cacher && caching),
{
    cacher && caching
}

/// Where the streaming task stands.
#[derive(Clone, Copy, Debug, PartialEq, Eq, Structural)]
pub enum StreamPhase {
    /// ffmpeg is to be started and its output captured.
    Starting,
    /// The temporary cache file is to be created.
    OpeningCache,
    /// Starting failed; the error is to be reported to the client.
    Reporting(StreamError),
    /// About to read the next chunk of ffmpeg's output.
    Reading,
    /// A chunk has been read and is to be forwarded.
    Chunk,
    /// ffmpeg's output has ended; has ffmpeg exited?
    Ended,
    /// ffmpeg has not exited yet; waiting a moment before reading again.
    Sleeping,
    /// ffmpeg has exited: the cache file is to be finalized.
    Finalizing,
    /// The temporary cache file is to be removed.
    RemovingTemp,
    /// The download slot is to be given back.
    Releasing,
    /// Nothing more to do.
    Done,
}

/// What the streaming task does next.
#[derive(Clone, Copy, Debug, PartialEq, Eq, Structural)]
pub enum StreamAction {
    /// Start ffmpeg and capture its standard output.
    Start,
    /// Create the temporary cache file.
    OpenCache,
    /// Send this error to the client.
    Report(StreamError),
    /// Read the next chunk of ffmpeg's output.
    Read,
    /// Send the chunk to the client (if `send`) and write it to the cache file (if `write`).
    Forward {
        /// Whether to send the chunk to the client.
        send: bool,
        /// Whether to write the chunk to the cache file.
        write: bool,
    },
    /// Check whether ffmpeg has exited.
    CheckExit,
    /// Wait a second.
    Sleep,
    /// Flush and close the cache file, then run ffmpeg to turn it into the cached file.
    Finalize,
    /// Close the cache file if it is still open, then remove the temporary file.
    RemoveTemp,
    /// Give back the download slot.
    Release,
    /// Stop.
    Finish,
}

/// The outcome of a [`StreamAction`].
#[derive(Clone, Copy, Debug, PartialEq, Eq, Structural)]
pub enum StreamEvent {
    /// `Start`: ffmpeg runs and its output is captured.
    Started,
    /// `Start` failed with this error.
    StartFailed(StreamError),
    /// `OpenCache` is done; `opened` says whether the file could be created.
    CacheOpened {
        /// The temporary cache file was created.
        opened: bool,
    },
    /// `Report` is done (whether or not the client got the error).
    Reported,
    /// `Read` gave a non-empty chunk.
    Data,
    /// `Read` found the end of the output.
    End,
    /// `Read` failed.
    ReadFailed,
    /// `Forward` is done; the flags say whether sending or writing failed.
    Forwarded {
        /// Sending the chunk to the client failed.
        send_failed: bool,
        /// Writing the chunk to the cache file failed.
        write_failed: bool,
    },
    /// `CheckExit`: ffmpeg has exited.
    Exited,
    /// `CheckExit`: ffmpeg is still running.
    Running,
    /// `CheckExit` failed.
    CheckFailed,
    /// `Sleep` is over.
    Slept,
    /// `Finalize` is done; `ran` says whether the finalizing ffmpeg could be run at all.
    Finalized {
        /// The finalizing command ran (whatever its exit status).
        ran: bool,
    },
    /// `RemoveTemp` is done (whether or not the file could be removed).
    TempRemoved,
    /// `Release` is done.
    Released,
}

/// The state of the streaming task.
#[derive(Clone, Copy, Debug, PartialEq, Eq, Structural)]
pub struct StreamState {
    /// Where the task stands.
    pub phase: StreamPhase,
    /// The task holds a download slot, not given back yet.
    pub claimed: bool,
    /// The task is to cache the video once ffmpeg has started.
    pub cache: bool,
    /// Sending to the client has failed; nothing more is sent.
    pub streaming_failed: bool,
    /// The cache file is open and being written.
    pub cache_open: bool,
    /// Writing the cache file has failed; it has been closed and is not used any more.
    pub cache_failed: bool,
}

/// The loop stops when streaming has failed and there is no cache left to complete.
pub open spec fn should_stop(streaming_failed: bool, cache_open: bool, cache_failed: bool) -> bool {
    (streaming_failed && !cache_open) || (streaming_failed && cache_open && cache_failed)
}

/// Where the task goes once its work is over: giving back its slot if it holds one.
pub open spec fn end_phase(claimed: bool) -> StreamPhase {
    if claimed {
        StreamPhase::Releasing
    } else {
        StreamPhase::Done
    }
}

/// Where a stopped loop goes: removing the incomplete cache file if there is one, else to
/// the end.
pub open spec fn stop_phase(cache_open: bool, claimed: bool) -> StreamPhase {
    if cache_open {
        StreamPhase::RemovingTemp
    } else {
        end_phase(claimed)
    }
}

/// The action of each phase.
pub open spec fn action_of(s: StreamState) -> StreamAction {
    match s.phase {
        StreamPhase::Starting => StreamAction::Start,
        StreamPhase::OpeningCache => StreamAction::OpenCache,
        StreamPhase::Reporting(err) => StreamAction::Report(err),
        StreamPhase::Reading => StreamAction::Read,
        StreamPhase::Chunk => StreamAction::Forward {
            send: !s.streaming_failed,
            write: s.cache_open,
        },
        StreamPhase::Ended => StreamAction::CheckExit,
        StreamPhase::Sleeping => StreamAction::Sleep,
        StreamPhase::Finalizing => StreamAction::Finalize,
        StreamPhase::RemovingTemp => StreamAction::RemoveTemp,
        StreamPhase::Releasing => StreamAction::Release,
        StreamPhase::Done => StreamAction::Finish,
    }
}

/// The state after event `e`; an event that does not answer the current action changes
/// nothing.
pub open spec fn after(s: StreamState, e: StreamEvent) -> StreamState {
    match (s.phase, e) {
        (StreamPhase::Starting, StreamEvent::Started) => StreamState {
            phase: if s.cache {
                StreamPhase::OpeningCache
            } else {
                StreamPhase::Reading
            },
            ..s
        },
        (StreamPhase::Starting, StreamEvent::StartFailed(err)) => StreamState {
            phase: StreamPhase::Reporting(err),
            ..s
        },
        (StreamPhase::OpeningCache, StreamEvent::CacheOpened { opened }) => StreamState {
            phase: StreamPhase::Reading,
            cache_open: opened,
            ..s
        },
        (StreamPhase::Reporting(_), StreamEvent::Reported) => StreamState {
            phase: end_phase(s.claimed),
            ..s
        },
        (StreamPhase::Reading, StreamEvent::Data) => StreamState { phase: StreamPhase::Chunk, ..s },
        (StreamPhase::Reading, StreamEvent::End) => StreamState { phase: StreamPhase::Ended, ..s },
        (StreamPhase::Reading, StreamEvent::ReadFailed) => StreamState {
            phase: stop_phase(s.cache_open, s.claimed),
            ..s
        },
        (StreamPhase::Chunk, StreamEvent::Forwarded { send_failed, write_failed }) => {
            let streaming_failed = s.streaming_failed || send_failed;
            let cache_open = s.cache_open && !write_failed;
            let cache_failed = s.cache_failed || write_failed;
            StreamState {
                phase: if should_stop(streaming_failed, cache_open, cache_failed) {
                    stop_phase(cache_open, s.claimed)
                } else {
                    StreamPhase::Reading
                },
                streaming_failed,
                cache_open,
                cache_failed,
                ..s
            }
        },
        (StreamPhase::Ended, StreamEvent::Exited) => StreamState {
            phase: if s.cache_open {
                StreamPhase::Finalizing
            } else {
                end_phase(s.claimed)
            },
            ..s
        },
        (StreamPhase::Ended, StreamEvent::Running) => StreamState {
            phase: StreamPhase::Sleeping,
            ..s
        },
        (StreamPhase::Ended, StreamEvent::CheckFailed) => StreamState {
            phase: stop_phase(s.cache_open, s.claimed),
            ..s
        },
        (StreamPhase::Sleeping, StreamEvent::Slept) => StreamState {
            phase: StreamPhase::Reading,
            ..s
        },
        (StreamPhase::Finalizing, StreamEvent::Finalized { ran }) => StreamState {
            phase: if ran {
                StreamPhase::RemovingTemp
            } else {
                end_phase(s.claimed)
            },
            cache_open: false,
            ..s
        },
        (StreamPhase::RemovingTemp, StreamEvent::TempRemoved) => StreamState {
            phase: end_phase(s.claimed),
            cache_open: false,
            ..s
        },
        (StreamPhase::Releasing, StreamEvent::Released) => StreamState {
            phase: StreamPhase::Done,
            claimed: false,
            ..s
        },
        _ => s,
    }
}

/// Whether `s` is a state that the task can be in.
pub open spec fn reachable(s: StreamState) -> bool {
    &&& s.cache_failed ==> !s.cache_open
    &&& s.phase == StreamPhase::Finalizing ==> s.cache_open
    &&& s.phase == StreamPhase::OpeningCache ==> s.cache
    &&& s.phase == StreamPhase::Releasing ==> s.claimed && !s.cache_open
    &&& s.phase == StreamPhase::Done ==> !s.claimed && !s.cache_open
    &&& (s.phase == StreamPhase::Starting || s.phase == StreamPhase::OpeningCache
        || s.phase is Reporting) ==> !s.cache_open && !s.streaming_failed && !s.cache_failed
    &&& (s.phase == StreamPhase::Reading || s.phase == StreamPhase::Chunk || s.phase
        == StreamPhase::Ended || s.phase == StreamPhase::Sleeping) ==> !should_stop(
        s.streaming_failed,
        s.cache_open,
        s.cache_failed,
    )
}

impl StreamState {
    /// The state before ffmpeg is started: `claimed` says whether the task holds a download
    /// slot, `cache` whether it is to cache the video; nothing has failed and no cache file
    /// is open yet.
    pub fn new(claimed: bool, cache: bool) -> (r: StreamState)
        ensures
            r == (StreamState {
                phase: StreamPhase::Starting,
                claimed,
                cache,
                streaming_failed: false,
                cache_open: false,
                cache_failed: false,
            }),
            reachable(r),
    {
        StreamState {
            phase: StreamPhase::Starting,
            claimed,
            cache,
            streaming_failed: false,
            cache_open: false,
            cache_failed: false,
        }
    }

    /// The action to perform next.
    pub fn next_action(&self) -> (r: StreamAction)
        ensures
            r == action_of(*self),
    {
        match self.phase {
            StreamPhase::Starting => StreamAction::Start,
            StreamPhase::OpeningCache => StreamAction::OpenCache,
            StreamPhase::Reporting(err) => StreamAction::Report(err),
            StreamPhase::Reading => StreamAction::Read,
            StreamPhase::Chunk => StreamAction::Forward {
                send: !self.streaming_failed,
                write: self.cache_open,
            },
            StreamPhase::Ended => StreamAction::CheckExit,
            StreamPhase::Sleeping => StreamAction::Sleep,
            StreamPhase::Finalizing => StreamAction::Finalize,
            StreamPhase::RemovingTemp => StreamAction::RemoveTemp,
            StreamPhase::Releasing => StreamAction::Release,
            StreamPhase::Done => StreamAction::Finish,
        }
    }

    /// Records the outcome of the last action.
    pub fn on_event(&mut self, e: StreamEvent)
        ensures
            *final(self) == after(*old(self), e),
    {
        let s = *self;
        let end = if s.claimed {
            StreamPhase::Releasing
        } else {
            StreamPhase::Done
        };
        *self = match (s.phase, e) {
            (StreamPhase::Starting, StreamEvent::Started) => StreamState {
                phase: if s.cache {
                    StreamPhase::OpeningCache
                } else {
                    StreamPhase::Reading
                },
                ..s
            },
            (StreamPhase::Starting, StreamEvent::StartFailed(err)) => StreamState {
                phase: StreamPhase::Reporting(err),
                ..s
            },
            (StreamPhase::OpeningCache, StreamEvent::CacheOpened { opened }) => StreamState {
                phase: StreamPhase::Reading,
                cache_open: opened,
                ..s
            },
            (StreamPhase::Reporting(_), StreamEvent::Reported) => StreamState { phase: end, ..s },
            (StreamPhase::Reading, StreamEvent::Data) => StreamState {
                phase: StreamPhase::Chunk,
                ..s
            },
            (StreamPhase::Reading, StreamEvent::End) => StreamState {
                phase: StreamPhase::Ended,
                ..s
            },
            (StreamPhase::Reading, StreamEvent::ReadFailed) => StreamState {
                phase: if s.cache_open {
                    StreamPhase::RemovingTemp
                } else {
                    end
                },
                ..s
            },
            (StreamPhase::Chunk, StreamEvent::Forwarded { send_failed, write_failed }) => {
                let streaming_failed = s.streaming_failed || send_failed;
                let cache_open = s.cache_open && !write_failed;
                let cache_failed = s.cache_failed || write_failed;
                let stop = (streaming_failed && !cache_open) || (streaming_failed && cache_open
                    && cache_failed);
                StreamState {
                    phase: if stop {
                        if cache_open {
                            StreamPhase::RemovingTemp
                        } else {
                            end
                        }
                    } else {
                        StreamPhase::Reading
                    },
                    streaming_failed,
                    cache_open,
                    cache_failed,
                    ..s
                }
            },
            (StreamPhase::Ended, StreamEvent::Exited) => StreamState {
                phase: if s.cache_open {
                    StreamPhase::Finalizing
                } else {
                    end
                },
                ..s
            },
            (StreamPhase::Ended, StreamEvent::Running) => StreamState {
                phase: StreamPhase::Sleeping,
                ..s
            },
            (StreamPhase::Ended, StreamEvent::CheckFailed) => StreamState {
                phase: if s.cache_open {
                    StreamPhase::RemovingTemp
                } else {
                    end
                },
                ..s
            },
            (StreamPhase::Sleeping, StreamEvent::Slept) => StreamState {
                phase: StreamPhase::Reading,
                ..s
            },
            (StreamPhase::Finalizing, StreamEvent::Finalized { ran }) => StreamState {
                phase: if ran {
                    StreamPhase::RemovingTemp
                } else {
                    end
                },
                cache_open: false,
                ..s
            },
            (StreamPhase::RemovingTemp, StreamEvent::TempRemoved) => StreamState {
                phase: end,
                cache_open: false,
                ..s
            },
            (StreamPhase::Releasing, StreamEvent::Released) => StreamState {
                phase: StreamPhase::Done,
                claimed: false,
                ..s
            },
            _ => s,
        };
    }
}

/// Every event keeps the task in a state it can be in.
pub proof fn lemma_reachable_preserved(s: StreamState, e: StreamEvent)
    requires
        reachable(s),
    ensures
        reachable(after(s, e)),
{
}

/// The download slot is given back on every way the task can end: the task never finishes
/// holding it, it stops holding it only by `Release`, and once given back it is never held
/// again. So from any state holding the slot, every run to `Finish` passes through `Release`.
pub proof fn lemma_slot_released(s: StreamState, e: StreamEvent)
    requires
        reachable(s),
    ensures
        action_of(s) == StreamAction::Finish ==> !s.claimed,
        s.claimed && !after(s, e).claimed ==> action_of(s) == StreamAction::Release && e
            == StreamEvent::Released,
        !s.claimed ==> !after(s, e).claimed,
        action_of(s) == StreamAction::Release ==> s.claimed,
{
}

/// Finishing is final: once the task has nothing more to do, no event changes its state.
pub proof fn lemma_done_is_final(s: StreamState, e: StreamEvent)
    requires
        s.phase == StreamPhase::Done,
    ensures
        after(s, e) == s,
{
}

/// A task that could not start reports the error to the client and then ends, giving back
/// its slot; it never reads, writes a cache file or finalizes one.
pub proof fn lemma_start_failure_reported(s: StreamState, err: StreamError)
    requires
        reachable(s),
        s.phase == StreamPhase::Starting,
    ensures
        action_of(after(s, StreamEvent::StartFailed(err))) == StreamAction::Report(err),
        after(after(s, StreamEvent::StartFailed(err)), StreamEvent::Reported).phase == end_phase(
            s.claimed,
        ),
{
}

/// Once sending to the client has failed, no chunk is sent again; once the cache file is
/// closed or has failed, no chunk is written to it again.
pub proof fn lemma_forward_discipline(s: StreamState, e: StreamEvent)
    requires
        reachable(s),
    ensures
        action_of(s) matches StreamAction::Forward { send, write } ==> (send
            == !s.streaming_failed && write == s.cache_open),
        s.streaming_failed ==> after(s, e).streaming_failed,
        s.cache_failed ==> after(s, e).cache_failed,
        !s.cache_open && s.phase != StreamPhase::OpeningCache ==> !after(s, e).cache_open,
{
}

/// The task never finishes with the cache file open, and it gives back its slot only once
/// the cache file is closed.
pub proof fn lemma_closed_at_release_and_finish(s: StreamState)
    requires
        reachable(s),
    ensures
        action_of(s) == StreamAction::Finish ==> !s.cache_open,
        action_of(s) == StreamAction::Release ==> !s.cache_open,
{
}

/// The cache file is finalized only after ffmpeg has exited: `Finalize` follows only the
/// `Exited` answer to `CheckExit`.
pub proof fn lemma_finalize_after_exit(s: StreamState, e: StreamEvent)
    requires
        reachable(s),
        s.phase != StreamPhase::Finalizing,
        after(s, e).phase == StreamPhase::Finalizing,
    ensures
        s.phase == StreamPhase::Ended,
        e == StreamEvent::Exited,
{
}

/// The cache file is opened only by a task that is to cache the video, right after ffmpeg
/// has started.
pub proof fn lemma_cache_opened_only_when_wanted(s: StreamState, e: StreamEvent)
    requires
        reachable(s),
        !s.cache_open,
        after(s, e).cache_open,
    ensures
        s.phase == StreamPhase::OpeningCache,
        s.cache,
        e == (StreamEvent::CacheOpened { opened: true }),
{
}

/// A complete download is cached whatever happened to the client: once ffmpeg's output has
/// ended and ffmpeg has exited, an open cache file is finalized, even when sending to the
/// client failed; without an open cache file the task goes to its end, giving back its slot
/// if it holds one.
pub proof fn lemma_exit_finalizes_open_cache(s: StreamState)
    requires
        s.phase == StreamPhase::Ended,
    ensures
        s.cache_open ==> after(s, StreamEvent::Exited).phase == StreamPhase::Finalizing,
        !s.cache_open ==> after(s, StreamEvent::Exited).phase == (if s.claimed {
            StreamPhase::Releasing
        } else {
            StreamPhase::Done
        }),
        after(s, StreamEvent::Exited).cache_open == s.cache_open,
{
}

/// A client that goes away does not stop the caching: as long as the cache file is written
/// without failure, the task goes on reading ffmpeg's output (sending nothing more), and stops
/// only once neither the client nor the cache file is served any more.
pub proof fn lemma_caching_outlives_the_client(s: StreamState, send_failed: bool)
    requires
        reachable(s),
        s.phase == StreamPhase::Chunk,
    ensures
        s.cache_open ==> {
            let t = after(s, StreamEvent::Forwarded { send_failed, write_failed: false });
            &&& t.phase == StreamPhase::Reading
            &&& t.cache_open
            &&& t.streaming_failed == (s.streaming_failed || send_failed)
        },
        (!s.cache_open && (s.streaming_failed || send_failed)) ==> after(
            s,
            StreamEvent::Forwarded { send_failed, write_failed: false },
        ).phase == (if s.claimed {
            StreamPhase::Releasing
        } else {
            StreamPhase::Done
        }),
        (!s.streaming_failed && !send_failed) ==> after(
            s,
            StreamEvent::Forwarded { send_failed, write_failed: false },
        ).phase == StreamPhase::Reading,
{
}

/// The task reads ffmpeg's output to its end: a chunk is forwarded, the end of the output
/// leads to asking whether ffmpeg has exited, a running ffmpeg is waited for and read again.
/// A finalized cache file has its temporary file removed when the finalizing command ran,
/// and every end gives back the slot held.
pub proof fn lemma_stream_progress(s: StreamState)
    ensures
        s.phase == StreamPhase::Reading ==> after(s, StreamEvent::Data).phase == StreamPhase::Chunk
            && after(s, StreamEvent::End).phase == StreamPhase::Ended,
        s.phase == StreamPhase::Ended ==> after(s, StreamEvent::Running).phase
            == StreamPhase::Sleeping,
        s.phase == StreamPhase::Sleeping ==> after(s, StreamEvent::Slept).phase
            == StreamPhase::Reading,
        s.phase == StreamPhase::Starting ==> after(s, StreamEvent::Started).phase == (if s.cache {
            StreamPhase::OpeningCache
        } else {
            StreamPhase::Reading
        }),
        s.phase == StreamPhase::OpeningCache ==> (after(
            s,
            StreamEvent::CacheOpened { opened: true },
        ).cache_open && after(s, StreamEvent::CacheOpened { opened: true }).phase
            == StreamPhase::Reading && !after(s, StreamEvent::CacheOpened { opened: false }).cache_open
            && after(s, StreamEvent::CacheOpened { opened: false }).phase == StreamPhase::Reading),
        s.phase == StreamPhase::Finalizing ==> after(s, StreamEvent::Finalized { ran: true }).phase
            == StreamPhase::RemovingTemp,
        (s.phase == StreamPhase::Finalizing || s.phase == StreamPhase::RemovingTemp) ==> {
            let e = if s.phase == StreamPhase::Finalizing {
                StreamEvent::Finalized { ran: false }
            } else {
                StreamEvent::TempRemoved
            };
            &&& after(s, e).phase == (if s.claimed {
                StreamPhase::Releasing
            } else {
                StreamPhase::Done
            })
            &&& !after(s, e).cache_open
        },
        s.phase == StreamPhase::Releasing ==> after(s, StreamEvent::Released).phase
            == StreamPhase::Done && !after(s, StreamEvent::Released).claimed,
{
}

} // verus!
