//! Content URLs printed by `yt-dlp --get-url`, parsed as URLs.

use url::{ParseError, Url};
use vstd::prelude::*;

use crate::text::{chars_of, lines, next_line, substring, trim, trim_bounds};

verus! {

/// A parsed absolute URL.
#[verifier::external_type_specification]
#[verifier::external_body]
pub struct ExUrl(Url);

/// Why a string is not an absolute URL.
#[verifier::external_type_specification]
#[verifier::external_body]
pub struct ExParseError(ParseError);

/// `Url::clone`, which the `url` crate derives: the copy is equal to the value cloned.
pub assume_specification[ <url::Url as Clone>::clone ](u: &url::Url) -> (r: url::Url)
    ensures
        r == *u,
;

/// `ParseError::clone`, which the `url` crate derives for this field-less enum: the copy is
/// equal to the value cloned.
pub assume_specification[ <url::ParseError as Clone>::clone ](e: &url::ParseError) -> (r: url::ParseError)
    ensures
        r == *e,
;

/// What `Url::parse` gives for the text `text`: the parsed URL, or why the text is not one.
pub uninterp spec fn parsed_url(text: Seq<char>) -> Result<Url, ParseError>;

/// Parses an absolute URL with `Url::parse` of the `url` crate. Its outcome is a function of
/// the text alone, named `parsed_url`; what the parser accepts is not stated here.
#[verifier::external_body]
fn parse_url(text: &str) -> (r: Result<Url, ParseError>)
    ensures
        r == parsed_url(text@),
{
    Url::parse(text)
}

/// The stream URLs of a media item.
#[derive(Debug, Clone, PartialEq, Eq)]
pub enum ContentUrl {
    /// Separate URLs for the video and the audio stream, to be merged.
    Separate {
        /// The URL of the video stream.
        video_url: Url,
        /// The URL of the audio stream.
        audio_url: Url,
    },
    /// A single URL, holding both streams or only one of them.
    Single(Url),
}

/// Why an output of yt-dlp is not a content URL.
#[derive(Debug, Clone, PartialEq, Eq)]
pub enum ContentUrlError {
    /// The output does not have the expected shape.
    InvalidFormat,
    /// A line is not a valid URL.
    UrlParse(ParseError),
}

/// The content URL made of the parsed first line, the parsed second line if there is one,
/// and whether a non-blank third line follows.
pub open spec fn assemble_content_url(
    first: Result<Url, ParseError>,
    second: Option<Result<Url, ParseError>>,
    trailing: bool,
) -> Result<ContentUrl, ContentUrlError> {
    match first {
        Err(e) => Err(ContentUrlError::UrlParse(e)),
        Ok(video_url) => match second {
            None => Ok(ContentUrl::Single(video_url)),
            Some(Err(e)) => Err(ContentUrlError::UrlParse(e)),
            Some(Ok(audio_url)) => if trailing {
                Err(ContentUrlError::InvalidFormat)
            } else {
                Ok(ContentUrl::Separate { video_url, audio_url })
            },
        },
    }
}

/// What an output of yt-dlp gives: no line is an error; otherwise the trimmed first line is
/// parsed, then the trimmed second line if there is one, and a third line must be blank.
pub open spec fn content_url_result(s: Seq<char>) -> Result<ContentUrl, ContentUrlError> {
    let ls = lines(s);
    if ls.len() == 0 {
        Err(ContentUrlError::InvalidFormat)
    } else {
        assemble_content_url(
            parsed_url(trim(ls[0])),
            if ls.len() >= 2 {
                Some(parsed_url(trim(ls[1])))
            } else {
                None
            },
            ls.len() >= 3 && trim(ls[2]).len() > 0,
        )
    }
}

impl ContentUrl {
    /// Builds a content URL from the parsed first line, the parsed second line if there is one
    /// and whether a non-blank third line follows.
    pub fn from_parsed(
        first: Result<Url, ParseError>,
        second: Option<Result<Url, ParseError>>,
        trailing: bool,
    ) -> (r: Result<ContentUrl, ContentUrlError>)
        ensures
            r == assemble_content_url(first, second, trailing),
    {
        match first {
            Err(e) => Err(ContentUrlError::UrlParse(e)),
            Ok(video_url) => match second {
                None => Ok(ContentUrl::Single(video_url)),
                Some(Err(e)) => Err(ContentUrlError::UrlParse(e)),
                Some(Ok(audio_url)) => {
                    if trailing {
                        Err(ContentUrlError::InvalidFormat)
                    } else {
                        Ok(ContentUrl::Separate { video_url, audio_url })
                    }
                },
            },
        }
    }

    /// Parses the output of `yt-dlp --get-url` (see [`content_url_result`]).
    pub fn from_str(s: &str) -> (r: Result<ContentUrl, ContentUrlError>)
        ensures
            r == content_url_result(s@),
    {
        let v = chars_of(s);
        let n = v.len();
        if n == 0 {
            proof {
                crate::text::lemma_lines_empty(v@);
            }
            return Err(ContentUrlError::InvalidFormat);
        }
        let (a0, b0, e0) = next_line(&v, 0);
        let (s0, t0) = trim_bounds(&v, a0, b0);
        let first = parse_url(substring(s, s0, t0).as_str());
        if first.is_err() {
            return ContentUrl::from_parsed(first, None, false);
        }
        if e0 >= n || e0 + 1 >= n {
            assert(lines(v@) =~= seq![crate::text::line_at(v@, 0)]);
            return ContentUrl::from_parsed(first, None, false);
        }
        let (a1, b1, e1) = next_line(&v, e0 + 1);
        let (s1, t1) = trim_bounds(&v, a1, b1);
        let second = parse_url(substring(s, s1, t1).as_str());
        let mut trailing = false;
        if e1 < n && e1 + 1 < n {
            let (a2, b2, _e2) = next_line(&v, e1 + 1);
            let (s2, t2) = trim_bounds(&v, a2, b2);
            trailing = s2 != t2;
        } else {
            assert(lines(v@).len() == 2);
        }
        ContentUrl::from_parsed(first, Some(second), trailing)
    }
}

impl std::str::FromStr for ContentUrl {
    type Err = ContentUrlError;

    fn from_str(s: &str) -> (r: Result<ContentUrl, ContentUrlError>)
        ensures
            r == content_url_result(s@),
    {
        ContentUrl::from_str(s)
    }
}

/// The command-line and the embedded wrappers read yt-dlp's output alike: when the output
/// names a video URL and an audio URL for [`crate::media_url::MediaUrl::from_stdout`], the
/// content URL is made of those two texts, parsed, with no trailing line.
pub proof fn lemma_agrees_with_media_url(s: Seq<char>, video: Seq<char>, audio: Seq<char>)
    requires
        crate::media_url::stdout_urls(s) == Some((video, audio)),
    ensures
        content_url_result(s) == assemble_content_url(
            parsed_url(video),
            Some(parsed_url(audio)),
            false,
        ),
{
}

} // verus!
