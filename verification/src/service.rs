//! The decisions of the HTTP service at `/yt/{path}`: which reply a request gets, and which
//! question about the outside world (cache, download slots, yt-dlp) must be answered first.
//!
//! The handlers ask [`plan_get`] or [`plan_head`] what to do next, answer the question it
//! asks (by looking at the cache, claiming a download slot or asking yt-dlp) and ask again,
//! until it names the reply. A `GET` that streams does so with a slot it has claimed
//! (see [`crate::downloads`]); one that claimed a slot and does not stream gives it back.

use vstd::prelude::*;

use crate::text::str_equals;

verus! {

/// How long, in seconds, clients may keep a cached video.
pub const CACHE_MAX_AGE: u32 = 31536000;

/// The `Cache-Control` policy of a reply.
#[derive(Clone, Copy, Debug, PartialEq, Eq, Structural)]
pub enum CachePolicy {
    /// `public, max-age=31536000, immutable`: a complete cached video.
    Immutable,
    /// `no-cache, no-store, must-revalidate`: a video that is not cached yet.
    NoStore,
}

/// The `x-cache` header of a reply.
#[derive(Clone, Copy, Debug, PartialEq, Eq, Structural)]
pub enum CacheStatus {
    /// Served from the cache.
    Hit,
    /// Not in the cache.
    Miss,
}

/// The reply to a request.
#[derive(Clone, Debug, PartialEq, Eq)]
pub enum Reply {
    /// 400: the path names no video.
    InvalidId,
    /// 500: the cached file exists but its size could not be read.
    CacheUnreadable,
    /// 500: the cached file exists but could not be opened.
    CacheOpenFailed,
    /// 503: every download slot is taken.
    Busy,
    /// 500: yt-dlp gave no media URL.
    MediaUrlFailed,
    /// 304: the client's copy (tagged with the video ID) is current.
    NotModified {
        /// The video ID, which is the entity tag.
        id: String,
        /// The size of the cached file.
        size: u64,
    },
    /// 200 to `HEAD`: the video is cached.
    CachedHead {
        /// The video ID, which is the entity tag.
        id: String,
        /// The size of the cached file.
        size: u64,
    },
    /// 200 to `GET`: the cached file is served.
    CachedFile {
        /// The video ID, which is the entity tag.
        id: String,
    },
    /// 200 to `HEAD`: the video is not cached.
    Uncached,
    /// 200 to `GET`: the video is streamed while it is fetched, with the download slot
    /// claimed for it.
    Stream {
        /// The video ID.
        id: String,
        /// This download is the one to cache the video.
        cacher: bool,
    },
}

impl CachePolicy {
    /// The text of the `Cache-Control` header.
    pub open spec fn text(self) -> Seq<char> {
        match self {
            CachePolicy::Immutable => "public, max-age=31536000, immutable"@,
            CachePolicy::NoStore => "no-cache, no-store, must-revalidate"@,
        }
    }

    /// Renders the `Cache-Control` header.
    pub fn to_string(&self) -> (r: String)
        ensures
            r@ == self.text(),
    {
        match self {
            CachePolicy::Immutable => String::from_str("public, max-age=31536000, immutable"),
            CachePolicy::NoStore => String::from_str("no-cache, no-store, must-revalidate"),
        }
    }
}

impl CacheStatus {
    /// The text of the `x-cache` header.
    pub open spec fn text(self) -> Seq<char> {
        match self {
            CacheStatus::Hit => "HIT"@,
            CacheStatus::Miss => "MISS"@,
        }
    }

    /// Renders the `x-cache` header.
    pub fn to_string(&self) -> (r: String)
        ensures
            r@ == self.text(),
    {
        match self {
            CacheStatus::Hit => String::from_str("HIT"),
            CacheStatus::Miss => String::from_str("MISS"),
        }
    }
}

impl Reply {
    /// The HTTP status code.
    pub open spec fn spec_status(self) -> u16 {
        match self {
            Reply::InvalidId => 400,
            Reply::CacheUnreadable => 500,
            Reply::CacheOpenFailed => 500,
            Reply::Busy => 503,
            Reply::MediaUrlFailed => 500,
            Reply::NotModified { .. } => 304,
            _ => 200,
        }
    }

    /// The HTTP status code.
    pub fn status(&self) -> (r: u16)
        ensures
            r == self.spec_status(),
    {
        match self {
            Reply::InvalidId => 400,
            Reply::CacheUnreadable => 500,
            Reply::CacheOpenFailed => 500,
            Reply::Busy => 503,
            Reply::MediaUrlFailed => 500,
            Reply::NotModified { .. } => 304,
            _ => 200,
        }
    }

    /// The text body of an error reply.
    pub open spec fn spec_message(self) -> Option<Seq<char>> {
        match self {
            Reply::InvalidId => Some("Invalid YouTube ID or URL"@),
            Reply::CacheUnreadable => Some("Failed to access cached file"@),
            Reply::CacheOpenFailed => Some("Failed to open cached file"@),
            Reply::Busy => Some(
                "Server is busy processing other requests. Please try again later."@,
            ),
            Reply::MediaUrlFailed => Some("Failed to retrieve media URL"@),
            _ => None,
        }
    }

    /// The text body of an error reply.
    pub fn message(&self) -> (r: Option<String>)
        ensures
            crate::youtube::opt_view(r) == self.spec_message(),
    {
        match self {
            Reply::InvalidId => Some(String::from_str("Invalid YouTube ID or URL")),
            Reply::CacheUnreadable => Some(String::from_str("Failed to access cached file")),
            Reply::CacheOpenFailed => Some(String::from_str("Failed to open cached file")),
            Reply::Busy => Some(
                String::from_str(
                    "Server is busy processing other requests. Please try again later.",
                ),
            ),
            Reply::MediaUrlFailed => Some(String::from_str("Failed to retrieve media URL")),
            _ => None,
        }
    }

    /// The `Cache-Control` policy, for the replies that carry media.
    pub open spec fn spec_cache_policy(self) -> Option<CachePolicy> {
        match self {
            Reply::NotModified { .. } => Some(CachePolicy::Immutable),
            Reply::CachedHead { .. } => Some(CachePolicy::Immutable),
            Reply::CachedFile { .. } => Some(CachePolicy::Immutable),
            Reply::Uncached => Some(CachePolicy::NoStore),
            Reply::Stream { .. } => Some(CachePolicy::NoStore),
            _ => None,
        }
    }

    /// The `Cache-Control` policy, for the replies that carry media.
    pub fn cache_policy(&self) -> (r: Option<CachePolicy>)
        ensures
            r == self.spec_cache_policy(),
    {
        match self {
            Reply::NotModified { .. } => Some(CachePolicy::Immutable),
            Reply::CachedHead { .. } => Some(CachePolicy::Immutable),
            Reply::CachedFile { .. } => Some(CachePolicy::Immutable),
            Reply::Uncached => Some(CachePolicy::NoStore),
            Reply::Stream { .. } => Some(CachePolicy::NoStore),
            _ => None,
        }
    }

    /// The `x-cache` header, for the replies that carry media.
    pub open spec fn spec_cache_status(self) -> Option<CacheStatus> {
        match self {
            Reply::NotModified { .. } => Some(CacheStatus::Hit),
            Reply::CachedHead { .. } => Some(CacheStatus::Hit),
            Reply::CachedFile { .. } => Some(CacheStatus::Hit),
            Reply::Uncached => Some(CacheStatus::Miss),
            Reply::Stream { .. } => Some(CacheStatus::Miss),
            _ => None,
        }
    }

    /// The `x-cache` header, for the replies that carry media.
    pub fn cache_status(&self) -> (r: Option<CacheStatus>)
        ensures
            r == self.spec_cache_status(),
    {
        match self {
            Reply::NotModified { .. } => Some(CacheStatus::Hit),
            Reply::CachedHead { .. } => Some(CacheStatus::Hit),
            Reply::CachedFile { .. } => Some(CacheStatus::Hit),
            Reply::Uncached => Some(CacheStatus::Miss),
            Reply::Stream { .. } => Some(CacheStatus::Miss),
            _ => None,
        }
    }
}

impl Reply {
    /// The video ID that tags the cached copy, for the replies about a cached video.
    pub open spec fn spec_tag(self) -> Option<String> {
        match self {
            Reply::NotModified { id, .. } => Some(id),
            Reply::CachedHead { id, .. } => Some(id),
            Reply::CachedFile { id } => Some(id),
            _ => None,
        }
    }

    /// The video ID that tags the cached copy, for the replies about a cached video.
    pub fn tag(&self) -> (r: Option<String>)
        ensures
            r == self.spec_tag(),
    {
        match self {
            Reply::NotModified { id, .. } => Some(id.clone()),
            Reply::CachedHead { id, .. } => Some(id.clone()),
            Reply::CachedFile { id } => Some(id.clone()),
            _ => None,
        }
    }

    /// The `Content-Length` that a reply states without carrying the content.
    pub open spec fn spec_content_length(self) -> Option<u64> {
        match self {
            Reply::NotModified { size, .. } => Some(size),
            Reply::CachedHead { size, .. } => Some(size),
            _ => None,
        }
    }

    /// The `Content-Length` that a reply states without carrying the content.
    pub fn content_length(&self) -> (r: Option<u64>)
        ensures
            r == self.spec_content_length(),
    {
        match self {
            Reply::NotModified { size, .. } => Some(*size),
            Reply::CachedHead { size, .. } => Some(*size),
            _ => None,
        }
    }

    /// The `Content-Type` that the reply sets itself: `video/mp4` for video replies, except
    /// a served file, whose type comes with the file.
    pub open spec fn spec_content_type(self) -> Option<Seq<char>> {
        match self {
            Reply::NotModified { .. } => Some("video/mp4"@),
            Reply::CachedHead { .. } => Some("video/mp4"@),
            Reply::Uncached => Some("video/mp4"@),
            Reply::Stream { .. } => Some("video/mp4"@),
            _ => None,
        }
    }

    /// The `Content-Type` that the reply sets itself.
    pub fn content_type(&self) -> (r: Option<String>)
        ensures
            crate::youtube::opt_view(r) == self.spec_content_type(),
    {
        match self {
            Reply::NotModified { .. } => Some(String::from_str("video/mp4")),
            Reply::CachedHead { .. } => Some(String::from_str("video/mp4")),
            Reply::Uncached => Some(String::from_str("video/mp4")),
            Reply::Stream { .. } => Some(String::from_str("video/mp4")),
            _ => None,
        }
    }
}

/// The entity tag of a cached video: its ID in double quotes.
pub open spec fn etag_of(id: Seq<char>) -> Seq<char> {
    "\""@ + id + "\""@
}

/// Renders the entity tag of a cached video.
pub fn entity_tag(id: &str) -> (r: String)
    ensures
        r@ == etag_of(id@),
{
    let mut r = String::from_str("\"");
    r.append(id);
    r.append("\"");
    r
}

/// Whether an `If-None-Match` header (its text, when it has one) names the video `id`.
pub fn etag_matches(if_none_match: &Option<String>, id: &str) -> (r: bool)
    ensures
        r == (if_none_match matches Some(h) && h@ == etag_of(id@)),
{
    match if_none_match {
        Some(h) => {
            let tag = entity_tag(id);
            str_equals(h.as_str(), tag.as_str())
        },
        None => false,
    }
}

/// The name of the cached file of a video.
pub open spec fn cache_file_name_of(id: Seq<char>) -> Seq<char> {
    id + ".mp4"@
}

/// The name of the file a video is cached into while it is fetched.
pub open spec fn temp_cache_file_name_of(id: Seq<char>) -> Seq<char> {
    id + ".frag.mp4"@
}

/// The name of the cached file of a video.
pub fn cache_file_name(id: &str) -> (r: String)
    ensures
        r@ == cache_file_name_of(id@),
{
    let mut r = id.to_owned();
    r.append(".mp4");
    r
}

/// The name of the file a video is cached into while it is fetched.
pub fn temp_cache_file_name(id: &str) -> (r: String)
    ensures
        r@ == temp_cache_file_name_of(id@),
{
    let mut r = id.to_owned();
    r.append(".frag.mp4");
    r
}

/// The cached file and the temporary file of a video lie directly in the cache directory:
/// their names, built from a video ID, hold no path separator and are neither `.` nor `..`.
pub proof fn lemma_cache_names_stay_in_dir(id: Seq<char>)
    requires
        crate::youtube::is_video_id(id),
    ensures
        forall|i: int|
            0 <= i < cache_file_name_of(id).len() ==> #[trigger] cache_file_name_of(id)[i] != '/'
                && cache_file_name_of(id)[i] != '\\',
        forall|i: int|
            0 <= i < temp_cache_file_name_of(id).len() ==> #[trigger] temp_cache_file_name_of(
                id,
            )[i] != '/' && temp_cache_file_name_of(id)[i] != '\\',
        cache_file_name_of(id).len() > 2,
        temp_cache_file_name_of(id).len() > 2,
{
    reveal_strlit(".mp4");
    reveal_strlit(".frag.mp4");
    assert forall|i: int| 0 <= i < cache_file_name_of(id).len() implies #[trigger] cache_file_name_of(
        id,
    )[i] != '/' && cache_file_name_of(id)[i] != '\\' by {
        if i < 11 {
            assert(cache_file_name_of(id)[i] == id[i]);
        }
    }
    assert forall|i: int|
        0 <= i < temp_cache_file_name_of(id).len() implies #[trigger] temp_cache_file_name_of(
        id,
    )[i] != '/' && temp_cache_file_name_of(id)[i] != '\\' by {
        if i < 11 {
            assert(temp_cache_file_name_of(id)[i] == id[i]);
        }
    }
}

/// The page that yt-dlp extracts a video from.
pub open spec fn watch_url_of(id: Seq<char>) -> Seq<char> {
    "https://youtube.com/watch?v="@ + id
}

/// Renders the page that yt-dlp extracts a video from.
pub fn watch_url(id: &str) -> (r: String)
    ensures
        r@ == watch_url_of(id@),
{
    let mut r = String::from_str("https://youtube.com/watch?v=");
    r.append(id);
    r
}

/// A question about the outside world that must be answered before deciding.
#[derive(Clone, Copy, Debug, PartialEq, Eq, Structural)]
pub enum Question {
    /// Does the cached file of the video exist?
    CacheExists,
    /// What is the size of the cached file?
    CacheSize,
    /// Can the cached file be opened?
    OpenCache,
    /// Claim a download slot for the video, if one is free: is one, and is this download
    /// the one to cache the video? (See [`crate::downloads::Downloads::try_claim`].)
    Claim,
    /// Does yt-dlp give the media URLs of the video?
    MediaUrl,
    /// Give back the download slot claimed for this request.
    ReleaseClaim,
}

/// The answers obtained so far; a question not asked yet has none.
#[derive(Clone, Copy, Debug, PartialEq, Eq, Structural)]
pub struct Answers {
    /// Whether the cached file exists.
    pub cache_exists: Option<bool>,
    /// The size of the cached file, or `None` when it could not be read.
    pub cache_size: Option<Option<u64>>,
    /// Whether the cached file could be opened.
    pub cache_opened: Option<bool>,
    /// The claim of a download slot: `None` when every slot was taken, else whether this
    /// download is the one to cache the video.
    pub claim: Option<Option<bool>>,
    /// Whether yt-dlp gave the media URLs.
    pub media_url: Option<bool>,
    /// Whether the claimed slot has been given back.
    pub released: bool,
}

impl Answers {
    /// No question answered yet.
    pub fn new() -> (r: Answers)
        ensures
            r == (Answers {
                cache_exists: None,
                cache_size: None,
                cache_opened: None,
                claim: None,
                media_url: None,
                released: false,
            }),
    {
        Answers {
            cache_exists: None,
            cache_size: None,
            cache_opened: None,
            claim: None,
            media_url: None,
            released: false,
        }
    }
}

/// What a handler does next.
#[derive(Clone, Debug, PartialEq, Eq)]
pub enum Step {
    /// Answer this question, then ask again.
    Ask(Question),
    /// Send this reply.
    Reply(Reply),
}

/// A request for a video: its ID (if the path names one), the text of its `If-None-Match`
/// header (if it has one that is text) and whether caching is configured.
pub struct Request {
    /// The video ID that the path names.
    pub id: Option<String>,
    /// The text of the `If-None-Match` header.
    pub if_none_match: Option<String>,
    /// Whether a cache directory is configured.
    pub caching: bool,
}

/// Whether the request's `If-None-Match` names the video `id`.
pub open spec fn spec_etag_matches(req: Request, id: String) -> bool {
    req.if_none_match matches Some(h) && h@ == etag_of(id@)
}

/// `GET` once the cache has been ruled out: a claimed slot, then media URLs, then the
/// stream with the slot; when yt-dlp fails, the slot is given back before the reply.
pub open spec fn get_uncached(id: String, a: Answers) -> Step {
    match a.claim {
        None => Step::Ask(Question::Claim),
        Some(None) => Step::Reply(Reply::Busy),
        Some(Some(cacher)) => match a.media_url {
            None => Step::Ask(Question::MediaUrl),
            Some(false) => if a.released {
                Step::Reply(Reply::MediaUrlFailed)
            } else {
                Step::Ask(Question::ReleaseClaim)
            },
            Some(true) => Step::Reply(Reply::Stream { id, cacher }),
        },
    }
}

/// The next step of a `GET`: no ID is a bad request; a cached video is answered from the
/// cache (304 with its size when the client's tag matches, else the file); otherwise a free
/// slot and the media URLs are needed before streaming.
pub open spec fn get_step(req: Request, a: Answers) -> Step {
    match req.id {
        None => Step::Reply(Reply::InvalidId),
        Some(id) => if req.caching {
            match a.cache_exists {
                None => Step::Ask(Question::CacheExists),
                Some(true) => if spec_etag_matches(req, id) {
                    match a.cache_size {
                        None => Step::Ask(Question::CacheSize),
                        Some(None) => Step::Reply(Reply::CacheUnreadable),
                        Some(Some(size)) => Step::Reply(Reply::NotModified { id, size }),
                    }
                } else {
                    match a.cache_opened {
                        None => Step::Ask(Question::OpenCache),
                        Some(false) => Step::Reply(Reply::CacheOpenFailed),
                        Some(true) => Step::Reply(Reply::CachedFile { id }),
                    }
                },
                Some(false) => get_uncached(id, a),
            }
        } else {
            get_uncached(id, a)
        },
    }
}

/// The next step of a `HEAD`: no ID is a bad request; a cached video needs its size and is
/// then 304 when the client's tag matches, else 200 with the size; otherwise 200 uncached.
pub open spec fn head_step(req: Request, a: Answers) -> Step {
    match req.id {
        None => Step::Reply(Reply::InvalidId),
        Some(id) => if req.caching {
            match a.cache_exists {
                None => Step::Ask(Question::CacheExists),
                Some(true) => match a.cache_size {
                    None => Step::Ask(Question::CacheSize),
                    Some(None) => Step::Reply(Reply::CacheUnreadable),
                    Some(Some(size)) => if spec_etag_matches(req, id) {
                        Step::Reply(Reply::NotModified { id, size })
                    } else {
                        Step::Reply(Reply::CachedHead { id, size })
                    },
                },
                Some(false) => Step::Reply(Reply::Uncached),
            }
        } else {
            Step::Reply(Reply::Uncached)
        },
    }
}

/// `GET` once the cache has been ruled out.
fn plan_get_uncached(id: &String, a: &Answers) -> (r: Step)
    ensures
        r == get_uncached(*id, *a),
{
    match a.claim {
        None => Step::Ask(Question::Claim),
        Some(None) => Step::Reply(Reply::Busy),
        Some(Some(cacher)) => match a.media_url {
            None => Step::Ask(Question::MediaUrl),
            Some(false) => {
                if a.released {
                    Step::Reply(Reply::MediaUrlFailed)
                } else {
                    Step::Ask(Question::ReleaseClaim)
                }
            },
            Some(true) => Step::Reply(Reply::Stream { id: id.clone(), cacher }),
        },
    }
}

/// The next step of a `GET` (see [`get_step`]).
pub fn plan_get(req: &Request, a: &Answers) -> (r: Step)
    ensures
        r == get_step(*req, *a),
{
    match &req.id {
        None => Step::Reply(Reply::InvalidId),
        Some(id) => {
            if req.caching {
                match a.cache_exists {
                    None => Step::Ask(Question::CacheExists),
                    Some(true) => {
                        if etag_matches(&req.if_none_match, id.as_str()) {
                            match a.cache_size {
                                None => Step::Ask(Question::CacheSize),
                                Some(None) => Step::Reply(Reply::CacheUnreadable),
                                Some(Some(size)) => Step::Reply(
                                    Reply::NotModified { id: id.clone(), size },
                                ),
                            }
                        } else {
                            match a.cache_opened {
                                None => Step::Ask(Question::OpenCache),
                                Some(false) => Step::Reply(Reply::CacheOpenFailed),
                                Some(true) => Step::Reply(Reply::CachedFile { id: id.clone() }),
                            }
                        }
                    },
                    Some(false) => plan_get_uncached(id, a),
                }
            } else {
                plan_get_uncached(id, a)
            }
        },
    }
}

/// The next step of a `HEAD` (see [`head_step`]).
pub fn plan_head(req: &Request, a: &Answers) -> (r: Step)
    ensures
        r == head_step(*req, *a),
{
    match &req.id {
        None => Step::Reply(Reply::InvalidId),
        Some(id) => {
            if req.caching {
                match a.cache_exists {
                    None => Step::Ask(Question::CacheExists),
                    Some(true) => match a.cache_size {
                        None => Step::Ask(Question::CacheSize),
                        Some(None) => Step::Reply(Reply::CacheUnreadable),
                        Some(Some(size)) => {
                            if etag_matches(&req.if_none_match, id.as_str()) {
                                Step::Reply(Reply::NotModified { id: id.clone(), size })
                            } else {
                                Step::Reply(Reply::CachedHead { id: id.clone(), size })
                            }
                        },
                    },
                    Some(false) => Step::Reply(Reply::Uncached),
                }
            } else {
                Step::Reply(Reply::Uncached)
            }
        },
    }
}

/// A request whose path names no video is a bad request, for `GET` and for `HEAD`, and only
/// such a request is.
pub proof fn lemma_invalid_id(req: Request, a: Answers)
    ensures
        (get_step(req, a) == Step::Reply(Reply::InvalidId)) <==> req.id is None,
        (head_step(req, a) == Step::Reply(Reply::InvalidId)) <==> req.id is None,
{
}

/// `GET` and `HEAD` agree on when the client's copy is current: with the same cache answers
/// (and the size known), both answer 304 with the same size, or neither does.
pub proof fn lemma_not_modified_agrees(req: Request, a: Answers, b: Answers, size: u64)
    requires
        a.cache_exists == b.cache_exists,
        a.cache_size == Some(Some(size)),
        b.cache_size == Some(Some(size)),
    ensures
        (get_step(req, a) matches Step::Reply(Reply::NotModified { id, size: n })) <==> (head_step(
            req,
            b,
        ) matches Step::Reply(Reply::NotModified { id: id2, size: n2 })),
        get_step(req, a) matches Step::Reply(Reply::NotModified { id, size: n }) ==> (n == size
            && req.id == Some(id) && spec_etag_matches(req, id)),
        head_step(req, b) matches Step::Reply(Reply::NotModified { id, size: n }) ==> (n == size
            && req.id == Some(id) && spec_etag_matches(req, id)),
{
}

/// A `GET` for a video whose cached file exists is answered from the cache: it never asks
/// for a download slot or for media URLs, and never streams.
pub proof fn lemma_cached_get_stays_cached(req: Request, a: Answers)
    requires
        req.caching,
        a.cache_exists == Some(true),
    ensures
        get_step(req, a) != Step::Ask(Question::Claim),
        get_step(req, a) != Step::Ask(Question::MediaUrl),
        get_step(req, a) != Step::Ask(Question::ReleaseClaim),
        !(get_step(req, a) matches Step::Reply(Reply::Stream { .. })),
        !(get_step(req, a) matches Step::Reply(Reply::Busy)),
{
}

/// A `GET` streams only with a download slot claimed for it and the media URLs from
/// yt-dlp, and asks yt-dlp only once it holds a slot. It is busy exactly when no slot could be
/// claimed. A slot claimed by a request that does not stream (yt-dlp failed) is given back
/// before the reply: every claimed slot is either handed to the stream or given back.
pub proof fn lemma_stream_needs_claim_and_media(req: Request, a: Answers)
    ensures
        get_step(req, a) matches Step::Reply(Reply::Stream { id, cacher }) ==> (a.claim == Some(
            Some(cacher),
        ) && a.media_url == Some(true) && req.id == Some(id)),
        get_step(req, a) == Step::Ask(Question::MediaUrl) ==> a.claim matches Some(Some(_)),
        get_step(req, a) == Step::Reply(Reply::Busy) ==> a.claim == Some(None::<bool>),
        get_step(req, a) == Step::Ask(Question::ReleaseClaim) ==> (a.claim matches Some(Some(_))
            && !a.released),
        get_step(req, a) == Step::Reply(Reply::MediaUrlFailed) ==> (a.claim matches Some(
            Some(_),
        ) && a.released),
{
}

/// A request that claimed no slot never gives one back, and never streams.
pub proof fn lemma_no_claim_no_release(req: Request, a: Answers)
    requires
        !(a.claim matches Some(Some(_))),
    ensures
        get_step(req, a) != Step::Ask(Question::ReleaseClaim),
        !(get_step(req, a) matches Step::Reply(Reply::Stream { .. })),
{
}

/// Every `GET` and `HEAD` ends: once each question it asked is answered, it replies. Asking
/// again with the answer recorded never repeats the question.
pub proof fn lemma_questions_not_repeated(req: Request, a: Answers)
    ensures
        get_step(req, a) == Step::Ask(Question::CacheExists) ==> a.cache_exists is None,
        get_step(req, a) == Step::Ask(Question::CacheSize) ==> a.cache_size is None,
        get_step(req, a) == Step::Ask(Question::OpenCache) ==> a.cache_opened is None,
        get_step(req, a) == Step::Ask(Question::Claim) ==> a.claim is None,
        get_step(req, a) == Step::Ask(Question::MediaUrl) ==> a.media_url is None,
        get_step(req, a) == Step::Ask(Question::ReleaseClaim) ==> !a.released,
        head_step(req, a) == Step::Ask(Question::CacheExists) ==> a.cache_exists is None,
        head_step(req, a) == Step::Ask(Question::CacheSize) ==> a.cache_size is None,
        head_step(req, a) != Step::Ask(Question::OpenCache),
        head_step(req, a) != Step::Ask(Question::Claim),
        head_step(req, a) != Step::Ask(Question::MediaUrl),
        head_step(req, a) != Step::Ask(Question::ReleaseClaim),
{
}

/// Once the cache is ruled out (no cache directory, or no cached file), a `GET` for a video
/// walks through its slot and yt-dlp: with no claim yet it claims a slot; with none free it is
/// busy; with a slot it asks yt-dlp; with the media URLs it streams with that slot, whether or
/// not a cache directory is configured; when yt-dlp failed it gives the slot back and then
/// answers the failure.
pub proof fn lemma_uncached_get_walk(req: Request, a: Answers, id: String)
    requires
        req.id == Some(id),
        !req.caching || a.cache_exists == Some(false),
    ensures
        a.claim is None ==> get_step(req, a) == Step::Ask(Question::Claim),
        a.claim == Some(None::<bool>) ==> get_step(req, a) == Step::Reply(Reply::Busy),
        forall|c: bool|
            a.claim == Some(Some(c)) ==> {
                &&& a.media_url is None ==> get_step(req, a) == Step::Ask(Question::MediaUrl)
                &&& a.media_url == Some(true) ==> get_step(req, a) == Step::Reply(
                    Reply::Stream { id, cacher: c },
                )
                &&& (a.media_url == Some(false) && !a.released) ==> get_step(req, a) == Step::Ask(
                    Question::ReleaseClaim,
                )
                &&& (a.media_url == Some(false) && a.released) ==> get_step(req, a)
                    == Step::Reply(Reply::MediaUrlFailed)
            },
{
}

/// A `GET` for a video whose cached file exists is answered from the cache: first whether the
/// file exists is asked; a client whose tag names the video gets 304 with the file's size (or
/// a failure when the size cannot be read); any other client gets the file (or a failure when
/// it cannot be opened).
pub proof fn lemma_cached_get_walk(req: Request, a: Answers, id: String)
    requires
        req.id == Some(id),
        req.caching,
    ensures
        a.cache_exists is None ==> get_step(req, a) == Step::Ask(Question::CacheExists),
        a.cache_exists == Some(true) && spec_etag_matches(req, id) ==> {
            &&& a.cache_size is None ==> get_step(req, a) == Step::Ask(Question::CacheSize)
            &&& a.cache_size == Some(None::<u64>) ==> get_step(req, a) == Step::Reply(
                Reply::CacheUnreadable,
            )
            &&& forall|n: u64|
                a.cache_size == Some(Some(n)) ==> get_step(req, a) == Step::Reply(
                    Reply::NotModified { id, size: n },
                )
        },
        a.cache_exists == Some(true) && !spec_etag_matches(req, id) ==> {
            &&& a.cache_opened is None ==> get_step(req, a) == Step::Ask(Question::OpenCache)
            &&& a.cache_opened == Some(false) ==> get_step(req, a) == Step::Reply(
                Reply::CacheOpenFailed,
            )
            &&& a.cache_opened == Some(true) ==> get_step(req, a) == Step::Reply(
                Reply::CachedFile { id },
            )
        },
{
}

/// A `HEAD` for a video reports it uncached when there is no cache directory or no cached
/// file; otherwise it needs the file's size, and then answers 304 to a client whose tag names
/// the video and 200 with the size to any other.
pub proof fn lemma_head_walk(req: Request, a: Answers, id: String)
    requires
        req.id == Some(id),
    ensures
        (!req.caching || a.cache_exists == Some(false)) ==> head_step(req, a) == Step::Reply(
            Reply::Uncached,
        ),
        req.caching && a.cache_exists is None ==> head_step(req, a) == Step::Ask(
            Question::CacheExists,
        ),
        req.caching && a.cache_exists == Some(true) ==> {
            &&& a.cache_size is None ==> head_step(req, a) == Step::Ask(Question::CacheSize)
            &&& a.cache_size == Some(None::<u64>) ==> head_step(req, a) == Step::Reply(
                Reply::CacheUnreadable,
            )
            &&& forall|n: u64|
                a.cache_size == Some(Some(n)) ==> head_step(req, a) == if spec_etag_matches(
                    req,
                    id,
                ) {
                    Step::Reply(Reply::NotModified { id, size: n })
                } else {
                    Step::Reply(Reply::CachedHead { id, size: n })
                }
        },
{
}

/// The status of a reply fits what it carries: every reply that carries a video (or its
/// headers) is 200, except 304 when the client's copy is current; every reply with an error
/// message is an error: 400 for a path that names no video, 503 when busy, 500 otherwise.
/// A reply carries either a video or an error message, never both.
pub proof fn lemma_reply_status(r: Reply)
    ensures
        r.spec_cache_policy() is Some && !(r is NotModified) ==> r.spec_status() == 200,
        r is NotModified ==> r.spec_status() == 304,
        r.spec_message() is Some ==> r.spec_status() >= 400,
        r.spec_message() is Some <==> r.spec_cache_policy() is None,
        r == Reply::InvalidId ==> r.spec_status() == 400,
        r == Reply::Busy ==> r.spec_status() == 503,
        (r.spec_message() is Some && r != Reply::InvalidId && r != Reply::Busy) ==> r.spec_status()
            == 500,
        r.spec_status() == 200 ==> r.spec_cache_policy() is Some,
{
}

/// The cache headers agree: a reply from the cache is `HIT` and may be kept for a year; a
/// reply that is not from the cache is `MISS` and may not be stored.
pub proof fn lemma_cache_headers_agree(r: Reply)
    ensures
        r.spec_cache_status() == Some(CacheStatus::Hit) <==> r.spec_cache_policy() == Some(
            CachePolicy::Immutable,
        ),
        r.spec_cache_status() == Some(CacheStatus::Miss) <==> r.spec_cache_policy() == Some(
            CachePolicy::NoStore,
        ),
        r.spec_cache_status() is None <==> r.spec_cache_policy() is None,
        r.spec_tag() is Some ==> r.spec_cache_policy() == Some(CachePolicy::Immutable),
{
}

/// An entity tag names a video exactly when it is that video's ID between double quotes:
/// a bare ID, a weak tag (`W/"..."`) or another ID does not match.
pub proof fn lemma_etag_quotes_the_id(h: Seq<char>, id: Seq<char>)
    ensures
        h == etag_of(id) <==> (h.len() == id.len() + 2 && h[0] == '"' && h[h.len() - 1] == '"'
            && h.subrange(1, h.len() - 1) == id),
{
    reveal_strlit("\"");
    if h == etag_of(id) {
        assert(h.subrange(1, h.len() - 1) =~= id);
    }
    if h.len() == id.len() + 2 && h[0] == '"' && h[h.len() - 1] == '"' && h.subrange(
        1,
        h.len() - 1,
    ) == id {
        assert(h =~= etag_of(id)) by {
            assert forall|i: int| 1 <= i < h.len() - 1 implies h[i] == id[i - 1] by {
                assert(h.subrange(1, h.len() - 1)[i - 1] == h[i]);
            }
        }
    }
}

} // verus!
