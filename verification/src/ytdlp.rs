//! The embedded yt-dlp wrapper: the settings it holds and the request it makes of yt-dlp.

use vstd::prelude::*;

use crate::format::Format;
use crate::remote_components::RemoteComponents;
use crate::youtube::opt_view;

verus! {

/// A value of a yt-dlp option.
#[derive(Debug, Clone, PartialEq, Eq)]
pub enum OptionValue {
    /// A string value.
    Text(String),
    /// A boolean value.
    Flag(bool),
}

/// An option value as plain data.
pub enum OptionValueView {
    /// A string value.
    Text(Seq<char>),
    /// A boolean value.
    Flag(bool),
}

impl OptionValue {
    /// This value as plain data.
    pub open spec fn view_value(self) -> OptionValueView {
        match self {
            OptionValue::Text(s) => OptionValueView::Text(s@),
            OptionValue::Flag(b) => OptionValueView::Flag(b),
        }
    }
}

/// The options as plain data: each key's text with its value.
pub open spec fn options_view(v: Seq<(String, OptionValue)>) -> Seq<(Seq<char>, OptionValueView)> {
    v.map_values(|o: (String, OptionValue)| (o.0@, o.1.view_value()))
}

/// What to ask yt-dlp: the page to extract, the options of the extractor and whether to
/// download the media (never: only its stream URLs are wanted).
#[derive(Debug, Clone, PartialEq, Eq)]
pub struct InfoRequest {
    /// The page to extract information from.
    pub page: String,
    /// The options of the `YoutubeDL` instance, in order.
    pub options: Vec<(String, OptionValue)>,
    /// Whether to download the media.
    pub download: bool,
}

/// The settings of a [`YtDlp`], as plain values.
pub struct YtDlpView {
    /// The cookies file, if any.
    pub cookies: Option<Seq<char>>,
    /// The remote components option.
    pub remote_components: RemoteComponents,
}

/// Settings for extracting media URLs with the yt-dlp Python module.
#[derive(Debug, Clone, PartialEq, Eq)]
pub struct YtDlp {
    /// A cookies file for content that needs authentication.
    cookies: Option<String>,
    /// The remote components yt-dlp may use.
    remote_components: RemoteComponents,
}

impl View for YtDlp {
    type V = YtDlpView;

    closed spec fn view(&self) -> YtDlpView {
        YtDlpView { cookies: opt_view(self.cookies), remote_components: self.remote_components }
    }
}

/// The options for extracting in format `format`: the format selector, quiet output, then
/// the cookies file and the remote components, each only when set.
pub open spec fn extract_options(y: YtDlpView, format: Format) -> Seq<(Seq<char>, OptionValueView)> {
    seq![("format"@, OptionValueView::Text(format.selector())), ("quiet"@, OptionValueView::Flag(true))]
        + (match y.cookies {
        Some(c) => seq![("cookiefile"@, OptionValueView::Text(c))],
        None => Seq::empty(),
    }) + (match y.remote_components.arg() {
        Some(a) => seq![("remote_components"@, OptionValueView::Text(a))],
        None => Seq::empty(),
    })
}

/// Appends an option to `options`.
fn push_option(options: &mut Vec<(String, OptionValue)>, key: &str, value: OptionValue)
    ensures
        options_view(final(options)@) == options_view(old(options)@).push(
            (key@, value.view_value()),
        ),
{
    options.push((key.to_owned(), value));
    assert(options_view(final(options)@) =~= options_view(old(options)@).push(
        (key@, value.view_value()),
    ));
}

impl YtDlp {
    /// Creates the settings.
    pub fn new(remote_components: RemoteComponents, cookies: Option<String>) -> (r: Self)
        ensures
            r@ == (YtDlpView { cookies: opt_view(cookies), remote_components }),
    {
        YtDlp { cookies, remote_components }
    }

    /// The request that asks for the stream URLs of the page `page` in format `format`, without
    /// downloading anything.
    pub fn info_request(&self, page: &str, format: Format) -> (r: InfoRequest)
        ensures
            r.page@ == page@,
            options_view(r.options@) == extract_options(self@, format),
            !r.download,
    {
        let mut options: Vec<(String, OptionValue)> = Vec::new();
        push_option(&mut options, "format", OptionValue::Text(format.to_string()));
        push_option(&mut options, "quiet", OptionValue::Flag(true));
        if let Some(cookies) = &self.cookies {
            push_option(&mut options, "cookiefile", OptionValue::Text(cookies.clone()));
        }
        if let Some(remote_components) = self.remote_components.as_arg() {
            push_option(&mut options, "remote_components", OptionValue::Text(remote_components));
        }
        assert(options_view(options@) =~= extract_options(self@, format));
        InfoRequest { page: page.to_owned(), options, download: false }
    }
}

/// The extractor's options follow the settings: the format selector comes first and quiet
/// output second; the cookies file is passed exactly when one is set, and the remote
/// components exactly when they are not disabled, each whatever the other is; no other option
/// is passed.
pub proof fn lemma_options_follow_settings(y: YtDlpView, format: Format)
    ensures
        extract_options(y, format).len() >= 2,
        extract_options(y, format)[0] == ("format"@, OptionValueView::Text(format.selector())),
        extract_options(y, format)[1] == ("quiet"@, OptionValueView::Flag(true)),
        forall|v: OptionValueView|
            #[trigger] extract_options(y, format).contains(("cookiefile"@, v)) <==> (
            y.cookies matches Some(c) && v == OptionValueView::Text(c)),
        forall|v: OptionValueView|
            #[trigger] extract_options(y, format).contains(("remote_components"@, v)) <==> (
            y.remote_components.arg() matches Some(a) && v == OptionValueView::Text(a)),
        forall|i: int|
            0 <= i < extract_options(y, format).len() ==> {
                let k = #[trigger] extract_options(y, format)[i].0;
                k == "format"@ || k == "quiet"@ || k == "cookiefile"@ || k == "remote_components"@
            },
{
    reveal_strlit("format");
    reveal_strlit("quiet");
    reveal_strlit("cookiefile");
    reveal_strlit("remote_components");
    let o = extract_options(y, format);
    let f = ("format"@, OptionValueView::Text(format.selector()));
    let q = ("quiet"@, OptionValueView::Flag(true));
    assert("format"@.len() == 6 && "quiet"@.len() == 5 && "cookiefile"@.len() == 10
        && "remote_components"@.len() == 17);
    assert("cookiefile"@ != "format"@ && "cookiefile"@ != "quiet"@ && "cookiefile"@
        != "remote_components"@);
    assert("remote_components"@ != "format"@ && "remote_components"@ != "quiet"@);
    assert(o.len() <= 4);
    assert(o[0] == f && o[1] == q);
    assert forall|v: OptionValueView| #[trigger] o.contains(("cookiefile"@, v)) <==> (
    y.cookies matches Some(c) && v == OptionValueView::Text(c)) by {
        crate::text::lemma_contains_short(o, ("cookiefile"@, v));
        match y.cookies {
            Some(c) => {
                assert(o[2] == ("cookiefile"@, OptionValueView::Text(c)));
                assert(o.len() == 4 ==> o[3].0 == "remote_components"@);
            },
            None => {
                assert(o.len() == 3 ==> o[2].0 == "remote_components"@);
            },
        }
    }
    assert forall|v: OptionValueView| #[trigger] o.contains(("remote_components"@, v)) <==> (
    y.remote_components.arg() matches Some(a) && v == OptionValueView::Text(a)) by {
        crate::text::lemma_contains_short(o, ("remote_components"@, v));
        match y.remote_components.arg() {
            Some(a) => {
                assert(o[o.len() - 1] == ("remote_components"@, OptionValueView::Text(a)));
                assert(o.len() == 4 ==> o[2].0 == "cookiefile"@);
            },
            None => {
                assert(o.len() == 3 ==> o[2].0 == "cookiefile"@);
            },
        }
    }
}

} // verus!
