//! The command-line yt-dlp wrapper: which program to run with which arguments, and how its
//! output reads as content URLs.

pub mod content_url;
pub mod format;
pub mod remote_components;

pub use crate::format::{AudioCodec, Container, Quality, VideoCodec};
pub use content_url::{ContentUrl, ContentUrlError};
pub use format::{AudioFormat, Format, VideoFormat};
pub use remote_components::{RemoteComponents, RemoteComponentsError};

use vstd::prelude::*;

use crate::text::{push_string, strings_view};
use crate::youtube::opt_view;

verus! {

/// A program to run and the arguments to run it with.
#[derive(Debug, Clone, PartialEq, Eq)]
pub struct CommandLine {
    /// The program: a path or a name looked up in `PATH`.
    pub program: String,
    /// The arguments, in order.
    pub args: Vec<String>,
}

impl CommandLine {
    /// The program's text.
    pub open spec fn program_view(self) -> Seq<char> {
        self.program@
    }

    /// The arguments' texts.
    pub open spec fn args_view(self) -> Seq<Seq<char>> {
        strings_view(self.args@)
    }
}

/// The settings of a [`YtDlp`], as plain values.
pub struct YtDlpView {
    /// The command that runs yt-dlp.
    pub command: Seq<char>,
    /// The cookies file, if any.
    pub cookies: Option<Seq<char>>,
    /// The remote components option.
    pub remote_components: RemoteComponents,
}

/// Runs yt-dlp as a command to find the stream URLs of media.
#[derive(Debug, Clone, PartialEq, Eq)]
pub struct YtDlp {
    /// The command that runs yt-dlp: a path to the executable or a name in `PATH`.
    yt_dlp_command: String,
    /// A cookies file for content that needs authentication.
    cookies: Option<String>,
    /// The remote components yt-dlp may use.
    remote_components: RemoteComponents,
}

impl View for YtDlp {
    type V = YtDlpView;

    closed spec fn view(&self) -> YtDlpView {
        YtDlpView {
            command: self.yt_dlp_command@,
            cookies: opt_view(self.cookies),
            remote_components: self.remote_components,
        }
    }
}

/// The arguments every invocation starts with: the cookies file and the remote components,
/// each only when set.
pub open spec fn base_args(y: YtDlpView) -> Seq<Seq<char>> {
    (match y.cookies {
        Some(c) => seq!["--cookies"@, c],
        None => Seq::empty(),
    }) + (match y.remote_components.arg() {
        Some(a) => seq!["--remote-components"@, a],
        None => Seq::empty(),
    })
}

/// The arguments that ask for the stream URLs of the page `page` in format `format`.
pub open spec fn content_url_args(y: YtDlpView, page: Seq<char>, format: Format) -> Seq<Seq<char>> {
    base_args(y) + seq!["--format"@, format.selector(), "--get-url"@, page]
}

impl YtDlp {
    /// Creates a wrapper that runs `yt_dlp_command`.
    pub fn new(
        yt_dlp_command: String,
        remote_components: RemoteComponents,
        cookies: Option<String>,
    ) -> (r: Self)
        ensures
            r@ == (YtDlpView {
                command: yt_dlp_command@,
                cookies: opt_view(cookies),
                remote_components,
            }),
    {
        YtDlp { yt_dlp_command, cookies, remote_components }
    }

    /// The yt-dlp command with the arguments that the settings call for.
    pub fn create_command(&self) -> (r: CommandLine)
        ensures
            r.program_view() == self@.command,
            r.args_view() == base_args(self@),
    {
        let mut args: Vec<String> = Vec::new();
        if let Some(cookies) = &self.cookies {
            push_string(&mut args, String::from_str("--cookies"));
            push_string(&mut args, cookies.clone());
        }
        if let Some(remote_components) = self.remote_components.as_arg() {
            push_string(&mut args, String::from_str("--remote-components"));
            push_string(&mut args, remote_components);
        }
        assert(strings_view(args@) =~= base_args(self@));
        CommandLine { program: self.yt_dlp_command.clone(), args }
    }

    /// The command that prints the stream URLs of the page `page` in format `format`.
    pub fn content_url_command(&self, page: &str, format: Format) -> (r: CommandLine)
        ensures
            r.program_view() == self@.command,
            r.args_view() == content_url_args(self@, page@, format),
    {
        let mut command = self.create_command();
        push_string(&mut command.args, String::from_str("--format"));
        push_string(&mut command.args, format.to_string());
        push_string(&mut command.args, String::from_str("--get-url"));
        push_string(&mut command.args, page.to_owned());
        assert(strings_view(command.args@) =~= content_url_args(self@, page@, format));
        command
    }
}

/// The arguments read as (flag, value) pairs, in order.
pub open spec fn arg_pairs(args: Seq<Seq<char>>) -> Seq<(Seq<char>, Seq<char>)> {
    Seq::new(args.len() / 2, |k: int| (args[2 * k], args[2 * k + 1]))
}

/// The arguments every invocation starts with follow the settings: they are flag and value
/// pairs; `--cookies` with the cookies file is passed exactly when one is set, and
/// `--remote-components` with the components exactly when they are not disabled, each
/// whatever the other is; no other flag is passed.
pub proof fn lemma_base_args_follow_settings(y: YtDlpView)
    ensures
        base_args(y).len() % 2 == 0,
        forall|c: Seq<char>|
            #[trigger] arg_pairs(base_args(y)).contains(("--cookies"@, c)) <==> y.cookies == Some(
                c,
            ),
        forall|a: Seq<char>|
            #[trigger] arg_pairs(base_args(y)).contains(("--remote-components"@, a))
                <==> y.remote_components.arg() == Some(a),
        forall|k: int|
            0 <= k < arg_pairs(base_args(y)).len() ==> {
                let f = #[trigger] arg_pairs(base_args(y))[k].0;
                f == "--cookies"@ || f == "--remote-components"@
            },
{
    reveal_strlit("--cookies");
    reveal_strlit("--remote-components");
    assert("--cookies"@.len() == 9 && "--remote-components"@.len() == 19);
    assert("--cookies"@ != "--remote-components"@);
    let b = base_args(y);
    let p = arg_pairs(b);
    let ck: Seq<(Seq<char>, Seq<char>)> = match y.cookies {
        Some(c) => seq![("--cookies"@, c)],
        None => Seq::empty(),
    };
    let rc: Seq<(Seq<char>, Seq<char>)> = match y.remote_components.arg() {
        Some(a) => seq![("--remote-components"@, a)],
        None => Seq::empty(),
    };
    assert(p =~= ck + rc);
    assert(p.len() <= 2);
    assert forall|c: Seq<char>| #[trigger] p.contains(("--cookies"@, c)) <==> y.cookies == Some(
        c,
    ) by {
        crate::text::lemma_contains_short(p, ("--cookies"@, c));
    }
    assert forall|a: Seq<char>| #[trigger] p.contains(("--remote-components"@, a))
        <==> y.remote_components.arg() == Some(a) by {
        crate::text::lemma_contains_short(p, ("--remote-components"@, a));
    }
}

/// The command that asks for the stream URLs passes the base arguments, then the format
/// selector and the page, as flag and value pairs.
pub proof fn lemma_content_url_args_pairs(y: YtDlpView, page: Seq<char>, format: Format)
    ensures
        arg_pairs(content_url_args(y, page, format)) == arg_pairs(base_args(y)) + seq![
            ("--format"@, format.selector()),
            ("--get-url"@, page),
        ],
{
    lemma_base_args_follow_settings(y);
    let b = base_args(y);
    let s = content_url_args(y, page, format);
    assert(arg_pairs(s) =~= arg_pairs(b) + seq![
        ("--format"@, format.selector()),
        ("--get-url"@, page),
    ]) by {
        assert(s.len() == b.len() + 4);
        assert forall|k: int| 0 <= k < arg_pairs(s).len() implies arg_pairs(s)[k] == (arg_pairs(b)
            + seq![("--format"@, format.selector()), ("--get-url"@, page)])[k] by {
            if 2 * k + 1 < b.len() {
                assert(s[2 * k] == b[2 * k]);
                assert(s[2 * k + 1] == b[2 * k + 1]);
            } else {
                assert(2 * k >= b.len());
            }
        }
    }
}

} // verus!
