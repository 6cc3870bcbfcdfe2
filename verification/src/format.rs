//! Format selectors handed to yt-dlp: which video and audio streams to fetch.
//!
//! A [`Format`] renders as a yt-dlp format selector such as
//! `bestvideo[ext=mp4][vcodec^=avc]+bestaudio[ext=m4a]`.

use vstd::prelude::*;

verus! {

/// The container format of the video.
#[derive(Clone, Copy, Debug, PartialEq, Eq, Hash, Structural)]
pub enum Container {
    /// The MP4 container format.
    Mp4,
}

/// The video codec used for encoding the video stream.
#[derive(Clone, Copy, Debug, PartialEq, Eq, Hash, Structural)]
pub enum VideoCodec {
    /// The AVC (H.264) codec.
    Avc,
}

/// The audio codec used for encoding the audio stream.
#[derive(Clone, Copy, Debug, PartialEq, Eq, Hash, Structural)]
pub enum AudioCodec {
    /// The AAC (M4A) codec.
    Aac,
}

/// The quality of a video or audio stream.
#[derive(Clone, Copy, Debug, PartialEq, Eq, Hash, Structural)]
pub enum Quality {
    /// The best available quality.
    Best,
}

impl Container {
    /// The text yt-dlp knows this container by.
    pub open spec fn text(self) -> Seq<char> {
        match self {
            Container::Mp4 => "mp4"@,
        }
    }

    /// Renders the container as yt-dlp expects it.
    pub fn to_string(&self) -> (r: String)
        ensures
            r@ == self.text(),
    {
        match self {
            Container::Mp4 => String::from_str("mp4"),
        }
    }
}

impl VideoCodec {
    /// The text yt-dlp knows this codec by (a prefix of the codec name).
    pub open spec fn text(self) -> Seq<char> {
        match self {
            VideoCodec::Avc => "avc"@,
        }
    }

    /// Renders the codec as yt-dlp expects it.
    pub fn to_string(&self) -> (r: String)
        ensures
            r@ == self.text(),
    {
        match self {
            VideoCodec::Avc => String::from_str("avc"),
        }
    }
}

impl AudioCodec {
    /// The text yt-dlp knows this codec by (a file extension).
    pub open spec fn text(self) -> Seq<char> {
        match self {
            AudioCodec::Aac => "m4a"@,
        }
    }

    /// Renders the codec as yt-dlp expects it.
    pub fn to_string(&self) -> (r: String)
        ensures
            r@ == self.text(),
    {
        match self {
            AudioCodec::Aac => String::from_str("m4a"),
        }
    }
}

impl Quality {
    /// The text yt-dlp knows this quality by.
    pub open spec fn text(self) -> Seq<char> {
        match self {
            Quality::Best => "best"@,
        }
    }

    /// Renders the quality as yt-dlp expects it.
    pub fn to_string(&self) -> (r: String)
        ensures
            r@ == self.text(),
    {
        match self {
            Quality::Best => String::from_str("best"),
        }
    }
}

impl Default for Container {
    fn default() -> (r: Self)
        ensures
            r == Container::Mp4,
    {
        Container::Mp4
    }
}

impl Default for VideoCodec {
    fn default() -> (r: Self)
        ensures
            r == VideoCodec::Avc,
    {
        VideoCodec::Avc
    }
}

impl Default for AudioCodec {
    fn default() -> (r: Self)
        ensures
            r == AudioCodec::Aac,
    {
        AudioCodec::Aac
    }
}

impl Default for Quality {
    fn default() -> (r: Self)
        ensures
            r == Quality::Best,
    {
        Quality::Best
    }
}

/// `"[" + key + value + "]"`, or nothing when there is no value.
pub open spec fn filter_text(key: Seq<char>, value: Option<Seq<char>>) -> Seq<char> {
    match value {
        Some(v) => "["@ + key + v + "]"@,
        None => Seq::empty(),
    }
}

/// The video selector for the given properties: quality, `video`, then the filters.
pub open spec fn video_selector(
    container: Option<Container>,
    codec: Option<VideoCodec>,
    quality: Quality,
) -> Seq<char> {
    quality.text() + "video"@ + filter_text(
        "ext="@,
        match container {
            Some(c) => Some(c.text()),
            None => None,
        },
    ) + filter_text(
        "vcodec^="@,
        match codec {
            Some(c) => Some(c.text()),
            None => None,
        },
    )
}

/// The audio selector for the given properties: quality, `audio`, then the filter.
pub open spec fn audio_selector(codec: Option<AudioCodec>, quality: Quality) -> Seq<char> {
    quality.text() + "audio"@ + filter_text(
        "ext="@,
        match codec {
            Some(c) => Some(c.text()),
            None => None,
        },
    )
}

/// Appends `"[" + key + value + "]"` to `out`.
fn push_filter(out: &mut String, key: &str, value: &str)
    ensures
        final(out)@ == old(out)@ + filter_text(key@, Some(value@)),
{
    proof {
        reveal_strlit("[");
        reveal_strlit("]");
    }
    out.append("[");
    out.append(key);
    out.append(value);
    out.append("]");
    assert(final(out)@ =~= old(out)@ + filter_text(key@, Some(value@)));
}

/// Renders a video selector (shared by every format type).
pub fn render_video_selector(
    container: Option<Container>,
    codec: Option<VideoCodec>,
    quality: Quality,
) -> (r: String)
    ensures
        r@ == video_selector(container, codec, quality),
{
    let mut out = quality.to_string();
    out.append("video");
    if let Some(c) = container {
        let t = c.to_string();
        push_filter(&mut out, "ext=", t.as_str());
    }
    if let Some(c) = codec {
        let t = c.to_string();
        push_filter(&mut out, "vcodec^=", t.as_str());
    }
    assert(out@ =~= video_selector(container, codec, quality));
    out
}

/// Renders an audio selector (shared by every format type).
pub fn render_audio_selector(codec: Option<AudioCodec>, quality: Quality) -> (r: String)
    ensures
        r@ == audio_selector(codec, quality),
{
    let mut out = quality.to_string();
    out.append("audio");
    if let Some(c) = codec {
        let t = c.to_string();
        push_filter(&mut out, "ext=", t.as_str());
    }
    assert(out@ =~= audio_selector(codec, quality));
    out
}

/// Video properties of a format.
#[derive(Clone, Copy, Debug, PartialEq, Eq, Structural)]
pub struct VideoFormat {
    /// The wanted container, if any.
    pub container: Option<Container>,
    /// The wanted codec, if any.
    pub codec: Option<VideoCodec>,
    /// The wanted quality.
    pub quality: Quality,
}

impl VideoFormat {
    /// The yt-dlp selector for this video format.
    pub open spec fn selector(self) -> Seq<char> {
        video_selector(self.container, self.codec, self.quality)
    }

    /// Renders the yt-dlp selector for this video format.
    pub fn to_string(&self) -> (r: String)
        ensures
            r@ == self.selector(),
    {
        render_video_selector(self.container, self.codec, self.quality)
    }
}

impl Default for VideoFormat {
    /// The best MP4 stream encoded with AVC.
    fn default() -> (r: Self)
        ensures
            r == (VideoFormat {
                container: Some(Container::Mp4),
                codec: Some(VideoCodec::Avc),
                quality: Quality::Best,
            }),
    {
        VideoFormat {
            container: Some(Container::Mp4),
            codec: Some(VideoCodec::Avc),
            quality: Quality::Best,
        }
    }
}

/// Audio properties of a format.
#[derive(Clone, Copy, Debug, PartialEq, Eq, Structural)]
pub struct AudioFormat {
    /// The wanted codec, if any.
    pub codec: Option<AudioCodec>,
    /// The wanted quality.
    pub quality: Quality,
}

impl AudioFormat {
    /// The yt-dlp selector for this audio format.
    pub open spec fn selector(self) -> Seq<char> {
        audio_selector(self.codec, self.quality)
    }

    /// Renders the yt-dlp selector for this audio format.
    pub fn to_string(&self) -> (r: String)
        ensures
            r@ == self.selector(),
    {
        render_audio_selector(self.codec, self.quality)
    }
}

impl Default for AudioFormat {
    /// The best M4A (AAC) stream.
    fn default() -> (r: Self)
        ensures
            r == (AudioFormat { codec: Some(AudioCodec::Aac), quality: Quality::Best }),
    {
        AudioFormat { codec: Some(AudioCodec::Aac), quality: Quality::Best }
    }
}

/// Which streams to download: here, a video stream and an audio stream to be merged.
#[derive(Clone, Copy, Debug, PartialEq, Eq, Structural)]
pub enum Format {
    /// Separate video and audio streams, merged after download.
    Separate {
        /// The video stream.
        video: VideoFormat,
        /// The audio stream.
        audio: AudioFormat,
    },
}

impl Format {
    /// The yt-dlp selector: the video selector, `+`, the audio selector.
    pub open spec fn selector(self) -> Seq<char> {
        match self {
            Format::Separate { video, audio } => video.selector() + "+"@ + audio.selector(),
        }
    }

    /// Renders the yt-dlp selector for this format.
    pub fn to_string(&self) -> (r: String)
        ensures
            r@ == self.selector(),
    {
        match self {
            Format::Separate { video, audio } => {
                let mut out = video.to_string();
                out.append("+");
                let a = audio.to_string();
                out.append(a.as_str());
                out
            },
        }
    }
}

impl Default for Format {
    /// The default video and audio formats.
    fn default() -> (r: Self)
        ensures
            r == (Format::Separate {
                video: VideoFormat {
                    container: Some(Container::Mp4),
                    codec: Some(VideoCodec::Avc),
                    quality: Quality::Best,
                },
                audio: AudioFormat { codec: Some(AudioCodec::Aac), quality: Quality::Best },
            }),
            r.selector() == default_selector(),
    {
        let r = Format::Separate { video: VideoFormat::default(), audio: AudioFormat::default() };
        proof {
            lemma_default_selector(r);
        }
        r
    }
}

/// The selector of the default format.
pub open spec fn default_selector() -> Seq<char> {
    "bestvideo[ext=mp4][vcodec^=avc]+bestaudio[ext=m4a]"@
}

/// The default format renders as `bestvideo[ext=mp4][vcodec^=avc]+bestaudio[ext=m4a]`.
proof fn lemma_default_selector(f: Format)
    requires
        f == (Format::Separate {
            video: VideoFormat {
                container: Some(Container::Mp4),
                codec: Some(VideoCodec::Avc),
                quality: Quality::Best,
            },
            audio: AudioFormat { codec: Some(AudioCodec::Aac), quality: Quality::Best },
        }),
    ensures
        f.selector() == default_selector(),
{
    reveal_strlit("bestvideo[ext=mp4][vcodec^=avc]+bestaudio[ext=m4a]");
    reveal_strlit("best");
    reveal_strlit("video");
    reveal_strlit("audio");
    reveal_strlit("[");
    reveal_strlit("]");
    reveal_strlit("ext=");
    reveal_strlit("vcodec^=");
    reveal_strlit("mp4");
    reveal_strlit("avc");
    reveal_strlit("m4a");
    reveal_strlit("+");
    assert(f.selector() =~= default_selector());
}

/// Whether `s` holds neither of the characters that join selectors in yt-dlp: `+` (merge)
/// and `,` (download one after the other).
pub open spec fn free_of_joins(s: Seq<char>) -> bool {
    forall|i: int| 0 <= i < s.len() ==> s[i] != '+' && s[i] != ','
}

/// Two texts free of joining characters stay so once put together.
proof fn lemma_free_of_joins_add(a: Seq<char>, b: Seq<char>)
    requires
        free_of_joins(a),
        free_of_joins(b),
    ensures
        free_of_joins(a + b),
{
    assert forall|i: int| 0 <= i < (a + b).len() implies (a + b)[i] != '+' && (a + b)[i] != ',' by {
        if i >= a.len() {
            assert((a + b)[i] == b[i - a.len()]);
        }
    }
}

/// A filter is free of joining characters when its value is.
proof fn lemma_filter_free(key: Seq<char>, value: Option<Seq<char>>)
    requires
        key == "ext="@ || key == "vcodec^="@,
        value matches Some(v) ==> free_of_joins(v),
    ensures
        free_of_joins(filter_text(key, value)),
{
    reveal_strlit("[");
    reveal_strlit("]");
    reveal_strlit("ext=");
    reveal_strlit("vcodec^=");
    if let Some(v) = value {
        assert(free_of_joins("["@));
        assert(free_of_joins("]"@));
        assert(free_of_joins(key));
        lemma_free_of_joins_add("["@, key);
        lemma_free_of_joins_add("["@ + key, v);
        lemma_free_of_joins_add("["@ + key + v, "]"@);
    } else {
        assert(filter_text(key, value) =~= Seq::<char>::empty());
    }
}

/// Video and audio selectors hold no joining character.
pub proof fn lemma_selectors_free_of_joins(
    container: Option<Container>,
    vcodec: Option<VideoCodec>,
    acodec: Option<AudioCodec>,
    quality: Quality,
)
    ensures
        free_of_joins(video_selector(container, vcodec, quality)),
        free_of_joins(audio_selector(acodec, quality)),
{
    reveal_strlit("best");
    reveal_strlit("video");
    reveal_strlit("audio");
    reveal_strlit("mp4");
    reveal_strlit("avc");
    reveal_strlit("m4a");
    reveal_strlit("ext=");
    reveal_strlit("vcodec^=");
    assert(free_of_joins(quality.text()));
    assert(free_of_joins("video"@));
    assert(free_of_joins("audio"@));
    let c = match container {
        Some(c) => Some(c.text()),
        None => None,
    };
    let vc = match vcodec {
        Some(c) => Some(c.text()),
        None => None,
    };
    let ac = match acodec {
        Some(c) => Some(c.text()),
        None => None,
    };
    lemma_filter_free("ext="@, c);
    lemma_filter_free("vcodec^="@, vc);
    lemma_filter_free("ext="@, ac);
    lemma_free_of_joins_add(quality.text(), "video"@);
    lemma_free_of_joins_add(quality.text() + "video"@, filter_text("ext="@, c));
    lemma_free_of_joins_add(
        quality.text() + "video"@ + filter_text("ext="@, c),
        filter_text("vcodec^="@, vc),
    );
    lemma_free_of_joins_add(quality.text(), "audio"@);
    lemma_free_of_joins_add(quality.text() + "audio"@, filter_text("ext="@, ac));
}

/// A selector that joins a video selector `v` and an audio selector `a` asks yt-dlp to merge
/// the two streams into one download: it holds exactly one `+`, right after `v`, and no `,`
/// (which would ask for two separate downloads).
pub open spec fn merges(s: Seq<char>, v: Seq<char>, a: Seq<char>) -> bool {
    &&& s.len() == v.len() + 1 + a.len()
    &&& s.subrange(0, v.len() as int) == v
    &&& s[v.len() as int] == '+'
    &&& s.skip(v.len() as int + 1) == a
    &&& forall|i: int| 0 <= i < s.len() && i != v.len() ==> s[i] != '+'
    &&& forall|i: int| 0 <= i < s.len() ==> s[i] != ','
}

/// Joining two selectors free of joining characters with `+` merges them.
pub proof fn lemma_plus_merges(v: Seq<char>, a: Seq<char>)
    requires
        free_of_joins(v),
        free_of_joins(a),
    ensures
        merges(v + "+"@ + a, v, a),
{
    reveal_strlit("+");
    let s = v + "+"@ + a;
    assert(s.subrange(0, v.len() as int) =~= v);
    assert(s.skip(v.len() as int + 1) =~= a);
    assert forall|i: int| 0 <= i < s.len() implies (i != v.len() ==> s[i] != '+') && s[i] != ',' by {
        if i < v.len() {
            assert(s[i] == v[i]);
        } else if i > v.len() {
            assert(s[i] == a[i - v.len() - 1]);
        }
    }
}

/// Every format asks yt-dlp for its video and audio streams merged into one download.
pub proof fn lemma_format_merges(f: Format)
    ensures
        match f {
            Format::Separate { video, audio } => merges(
                f.selector(),
                video.selector(),
                audio.selector(),
            ),
        },
{
    match f {
        Format::Separate { video, audio } => {
            lemma_selectors_free_of_joins(video.container, video.codec, audio.codec, video.quality);
            lemma_selectors_free_of_joins(video.container, video.codec, audio.codec, audio.quality);
            lemma_plus_merges(video.selector(), audio.selector());
        },
    }
}

} // verus!
