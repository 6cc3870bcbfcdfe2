//! The direct media URLs that yt-dlp reports for a video: parsing and checking them.

use pyo3::PyErr;
use vstd::prelude::*;

use crate::format::Format;
use crate::text::{
    chars_of, is_white_space, lemma_newline_at, lemma_newline_from, lemma_trim_unchanged, line_at,
    lines, lines_from, newline_from, next_line, substring, trim, trim_bounds,
};

verus! {

/// An error raised on the Python side (an exception, or a failed conversion).
#[verifier::external_type_specification]
#[verifier::external_body]
pub struct ExPyErr(PyErr);

/// Direct URLs of the streams of a video.
#[derive(Debug, Clone, PartialEq, Eq)]
pub enum MediaUrl {
    /// Separate URLs for the video and the audio stream, to be merged.
    Separate {
        /// The URL of the video stream.
        video_url: String,
        /// The URL of the audio stream.
        audio_url: String,
    },
}

/// Why no media URL could be obtained.
#[derive(Debug)]
pub enum MediaUrlError {
    /// The output does not have the expected shape.
    InvalidFormat,
    /// An error occurred on the Python side.
    Python(PyErr),
}

/// What looking up the `"url"` entry of one requested format gave.
#[derive(Debug)]
pub enum RequestedUrl {
    /// The entry holds this string.
    Url(String),
    /// The format has no `"url"` entry.
    Missing,
    /// Reading the format failed on the Python side (not a dictionary, a failed lookup,
    /// or a value that is not a string).
    Failed(PyErr),
}

impl MediaUrlError {
    /// Whether this is the `InvalidFormat` error.
    pub open spec fn is_invalid_format(self) -> bool {
        self is InvalidFormat
    }
}

/// The two URLs that a yt-dlp output names: its first two lines, trimmed, both non-blank,
/// followed by nothing or by a blank line (anything after that is not looked at).
pub open spec fn stdout_urls(s: Seq<char>) -> Option<(Seq<char>, Seq<char>)> {
    let ls = lines(s);
    if ls.len() >= 2 && trim(ls[0]).len() > 0 && trim(ls[1]).len() > 0 && (ls.len() == 2 || trim(
        ls[2],
    ).len() == 0) {
        Some((trim(ls[0]), trim(ls[1])))
    } else {
        None
    }
}

/// What `from_python_list` makes of the `"url"` entries of the requested formats.
pub open spec fn python_list_result(list: Seq<RequestedUrl>) -> Result<MediaUrl, MediaUrlError> {
    if list.len() != 2 {
        Err(MediaUrlError::InvalidFormat)
    } else {
        match list[0] {
            RequestedUrl::Failed(e) => Err(MediaUrlError::Python(e)),
            RequestedUrl::Missing => Err(MediaUrlError::InvalidFormat),
            RequestedUrl::Url(video) => match list[1] {
                RequestedUrl::Failed(e) => Err(MediaUrlError::Python(e)),
                RequestedUrl::Missing => Err(MediaUrlError::InvalidFormat),
                RequestedUrl::Url(audio) => if video@.len() == 0 || audio@.len() == 0 {
                    Err(MediaUrlError::InvalidFormat)
                } else {
                    Ok(MediaUrl::Separate { video_url: video, audio_url: audio })
                },
            },
        }
    }
}

impl MediaUrl {
    /// The URL of the video stream.
    pub open spec fn video(self) -> Seq<char> {
        match self {
            MediaUrl::Separate { video_url, .. } => video_url@,
        }
    }

    /// The URL of the audio stream.
    pub open spec fn audio(self) -> Seq<char> {
        match self {
            MediaUrl::Separate { audio_url, .. } => audio_url@,
        }
    }

    /// Parses the output of `yt-dlp --get-url`: one line for the video URL and one for the
    /// audio URL. The URLs are trimmed and must not be blank; a third line must be blank.
    pub fn from_stdout(stdout: &str, _format: Format) -> (r: Result<MediaUrl, MediaUrlError>)
        ensures
            r is Ok <==> stdout_urls(stdout@) is Some,
            r matches Ok(m) ==> stdout_urls(stdout@) == Some((m.video(), m.audio())),
            r matches Err(e) ==> e.is_invalid_format(),
    {
        let v = chars_of(stdout);
        let n = v.len();
        if n == 0 {
            proof {
                crate::text::lemma_lines_empty(v@);
            }
            return Err(MediaUrlError::InvalidFormat);
        }
        let (a0, b0, e0) = next_line(&v, 0);
        let (s0, t0) = trim_bounds(&v, a0, b0);
        if s0 == t0 {
            return Err(MediaUrlError::InvalidFormat);
        }
        if e0 >= n || e0 + 1 >= n {
            assert(lines(v@) =~= seq![crate::text::line_at(v@, 0)]);
            return Err(MediaUrlError::InvalidFormat);
        }
        let (a1, b1, e1) = next_line(&v, e0 + 1);
        let (s1, t1) = trim_bounds(&v, a1, b1);
        if s1 == t1 {
            return Err(MediaUrlError::InvalidFormat);
        }
        if e1 < n && e1 + 1 < n {
            let (a2, b2, _e2) = next_line(&v, e1 + 1);
            let (s2, t2) = trim_bounds(&v, a2, b2);
            if s2 != t2 {
                return Err(MediaUrlError::InvalidFormat);
            }
        } else {
            assert(lines(v@).len() == 2);
        }
        let video_url = substring(stdout, s0, t0);
        let audio_url = substring(stdout, s1, t1);
        Ok(MediaUrl::Separate { video_url, audio_url })
    }

    /// Reads the `"url"` entries of the formats that yt-dlp requested: there must be exactly
    /// two (video, then audio), each present and non-empty; a Python-side failure on the video
    /// entry is reported before anything about the audio entry.
    pub fn from_python_list(list: Vec<RequestedUrl>, _format: Format) -> (r: Result<
        MediaUrl,
        MediaUrlError,
    >)
        ensures
            r == python_list_result(list@),
    {
        if list.len() != 2 {
            return Err(MediaUrlError::InvalidFormat);
        }
        let ghost items = list@;
        let mut list = list;
        let audio = list.pop().unwrap();
        let video = list.pop().unwrap();
        assert(video == items[0] && audio == items[1]);
        match video {
            RequestedUrl::Failed(e) => Err(MediaUrlError::Python(e)),
            RequestedUrl::Missing => Err(MediaUrlError::InvalidFormat),
            RequestedUrl::Url(video_url) => match audio {
                RequestedUrl::Failed(e) => Err(MediaUrlError::Python(e)),
                RequestedUrl::Missing => Err(MediaUrlError::InvalidFormat),
                RequestedUrl::Url(audio_url) => {
                    if video_url.as_str().is_empty() || audio_url.as_str().is_empty() {
                        Err(MediaUrlError::InvalidFormat)
                    } else {
                        Ok(MediaUrl::Separate { video_url, audio_url })
                    }
                },
            },
        }
    }
}

/// What yt-dlp's answer gives: its requested formats (the `"url"` entry of each), or nothing
/// when the answer has no `requested_formats` entry.
pub open spec fn answer_result(requested: Option<Seq<RequestedUrl>>) -> Result<
    MediaUrl,
    MediaUrlError,
> {
    match requested {
        Some(list) => python_list_result(list),
        None => Err(MediaUrlError::InvalidFormat),
    }
}

/// The media URL in yt-dlp's answer: read from its requested formats (see
/// [`MediaUrl::from_python_list`]); an answer without requested formats has the wrong shape.
pub fn media_url_of(requested: Option<Vec<RequestedUrl>>, format: Format) -> (r: Result<
    MediaUrl,
    MediaUrlError,
>)
    ensures
        r == answer_result(
            match requested {
                Some(list) => Some(list@),
                None => None,
            },
        ),
{
    match requested {
        Some(list) => MediaUrl::from_python_list(list, format),
        None => Err(MediaUrlError::InvalidFormat),
    }
}

/// yt-dlp's answer of two lines, the video URL and the audio URL, reads as those two URLs,
/// with or without a final line end, for any URLs that hold no line break and neither start
/// nor end with white space.
pub proof fn lemma_two_lines_read(v: Seq<char>, a: Seq<char>)
    requires
        v.len() > 0,
        a.len() > 0,
        !is_white_space(v[0]) && !is_white_space(v.last()),
        !is_white_space(a[0]) && !is_white_space(a.last()),
        forall|k: int| 0 <= k < v.len() ==> v[k] != '\n',
        forall|k: int| 0 <= k < a.len() ==> a[k] != '\n',
    ensures
        stdout_urls(v + seq!['\n'] + a + seq!['\n']) == Some((v, a)),
        stdout_urls(v + seq!['\n'] + a) == Some((v, a)),
{
    lemma_trim_unchanged(v);
    lemma_trim_unchanged(a);
    assert(is_white_space('\r'));
    let n = v.len() as int;
    let s1 = v + seq!['\n'] + a + seq!['\n'];
    let s2 = v + seq!['\n'] + a;
    assert forall|k: int| 0 <= k < n implies s1[k] != '\n' && s2[k] != '\n' by {
        assert(s1[k] == v[k]);
        assert(s2[k] == v[k]);
    }
    lemma_newline_at(s1, 0, n);
    lemma_newline_at(s2, 0, n);
    assert(s1.subrange(0, n) =~= v);
    assert(s2.subrange(0, n) =~= v);
    assert(line_at(s1, 0) == v);
    assert(line_at(s2, 0) == v);
    let m = s1.len() - 1;
    assert forall|k: int| n + 1 <= k < m implies s1[k] != '\n' && s2[k] != '\n' by {
        assert(s1[k] == a[k - n - 1]);
        assert(s2[k] == a[k - n - 1]);
    }
    lemma_newline_at(s1, n + 1, m);
    lemma_newline_from(s2, n + 1);
    assert(newline_from(s2, n + 1) == s2.len());
    assert(s1.subrange(n + 1, m) =~= a);
    assert(s2.subrange(n + 1, s2.len() as int) =~= a);
    assert(line_at(s1, n + 1) == a);
    assert(line_at(s2, n + 1) == a);
    assert(lines_from(s1, m + 1) =~= Seq::<Seq<char>>::empty());
    assert(lines_from(s1, n + 1) == seq![line_at(s1, n + 1)] + lines_from(s1, m + 1));
    assert(lines_from(s1, 0) == seq![line_at(s1, 0)] + lines_from(s1, n + 1));
    assert(lines_from(s2, n + 1) == seq![line_at(s2, n + 1)]);
    assert(lines_from(s2, 0) == seq![line_at(s2, 0)] + lines_from(s2, n + 1));
    assert(lines(s1) =~= seq![v, a]);
    assert(lines(s2) =~= seq![v, a]);
}

} // verus!