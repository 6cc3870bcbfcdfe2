//! Format selectors of the command-line wrapper: without explicit filters by default, and
//! with video and audio selectors joined by `+`, yt-dlp's merge operator.

use vstd::prelude::*;

use crate::format::{
    audio_selector, render_audio_selector, render_video_selector, video_selector, AudioCodec,
    Container, Quality, VideoCodec,
};

verus! {

/// Video properties of a format.
#[derive(Clone, Copy, Debug, PartialEq, Eq, Structural)]
pub struct VideoFormat {
    /// The wanted container, if any.
    pub container: Option<Container>,
    /// The wanted codec, if any.
    pub codec: Option<VideoCodec>,
    /// The wanted quality.
    pub quality: Quality,
}

impl VideoFormat {
    /// The yt-dlp selector for this video format.
    pub open spec fn selector(self) -> Seq<char> {
        video_selector(self.container, self.codec, self.quality)
    }

    /// Renders the yt-dlp selector for this video format.
    pub fn to_string(&self) -> (r: String)
        ensures
            r@ == self.selector(),
    {
        render_video_selector(self.container, self.codec, self.quality)
    }
}

impl Default for VideoFormat {
    /// The best video stream, whatever its container and codec.
    fn default() -> (r: Self)
        ensures
            r == (VideoFormat { container: None, codec: None, quality: Quality::Best }),
    {
        VideoFormat { container: None, codec: None, quality: Quality::Best }
    }
}

/// Audio properties of a format.
#[derive(Clone, Copy, Debug, PartialEq, Eq, Structural)]
pub struct AudioFormat {
    /// The wanted codec, if any.
    pub codec: Option<AudioCodec>,
    /// The wanted quality.
    pub quality: Quality,
}

impl AudioFormat {
    /// The yt-dlp selector for this audio format.
    pub open spec fn selector(self) -> Seq<char> {
        audio_selector(self.codec, self.quality)
    }

    /// Renders the yt-dlp selector for this audio format.
    pub fn to_string(&self) -> (r: String)
        ensures
            r@ == self.selector(),
    {
        render_audio_selector(self.codec, self.quality)
    }
}

impl Default for AudioFormat {
    /// The best audio stream, whatever its codec.
    fn default() -> (r: Self)
        ensures
            r == (AudioFormat { codec: None, quality: Quality::Best }),
    {
        AudioFormat { codec: None, quality: Quality::Best }
    }
}

/// Which streams to download.
#[derive(Clone, Copy, Debug, PartialEq, Eq, Structural)]
pub enum Format {
    /// A video stream and an audio stream.
    Separate {
        /// The video stream.
        video: VideoFormat,
        /// The audio stream.
        audio: AudioFormat,
    },
}

impl Format {
    /// The yt-dlp selector: the video selector, `+`, the audio selector (both streams are
    /// downloaded and merged).
    pub open spec fn selector(self) -> Seq<char> {
        match self {
            Format::Separate { video, audio } => video.selector() + "+"@ + audio.selector(),
        }
    }

    /// Renders the yt-dlp selector for this format.
    pub fn to_string(&self) -> (r: String)
        ensures
            r@ == self.selector(),
    {
        match self {
            Format::Separate { video, audio } => {
                let mut out = video.to_string();
                out.append("+");
                let a = audio.to_string();
                out.append(a.as_str());
                out
            },
        }
    }
}

impl Default for Format {
    /// The default video and audio formats: `bestvideo+bestaudio`.
    fn default() -> (r: Self)
        ensures
            r == (Format::Separate {
                video: VideoFormat { container: None, codec: None, quality: Quality::Best },
                audio: AudioFormat { codec: None, quality: Quality::Best },
            }),
            r.selector() == "bestvideo+bestaudio"@,
    {
        let r = Format::Separate { video: VideoFormat::default(), audio: AudioFormat::default() };
        proof {
            reveal_strlit("bestvideo+bestaudio");
            reveal_strlit("best");
            reveal_strlit("video");
            reveal_strlit("audio");
            reveal_strlit("+");
            assert(r.selector() =~= "bestvideo+bestaudio"@);
        }
        r
    }
}

/// Every format of the command-line wrapper asks yt-dlp for its video and audio streams
/// merged into one download.
pub proof fn lemma_format_merges(f: Format)
    ensures
        match f {
            Format::Separate { video, audio } => crate::format::merges(
                f.selector(),
                video.selector(),
                audio.selector(),
            ),
        },
{
    match f {
        Format::Separate { video, audio } => {
            crate::format::lemma_selectors_free_of_joins(
                video.container,
                video.codec,
                audio.codec,
                video.quality,
            );
            crate::format::lemma_selectors_free_of_joins(
                video.container,
                video.codec,
                audio.codec,
                audio.quality,
            );
            crate::format::lemma_plus_merges(video.selector(), audio.selector());
        },
    }
}

} // verus!
