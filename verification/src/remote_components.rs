//! The remote components setting of yt-dlp (where its EJS challenge solver comes from).
//!
//! The setting is a comma-separated list of components, each `ejs:github` or `ejs:npm`;
//! `none` names no component.

use vstd::prelude::*;

use crate::text::{comma_fields, comma_fields_from, lemma_comma_at, lemma_no_comma, str_equals};

verus! {

/// Remote components that yt-dlp may fetch.
#[derive(Clone, Copy, Debug, PartialEq, Eq, Hash, Structural)]
pub enum RemoteComponents {
    /// EJS components from GitHub (`ejs:github`).
    EjsGitHub,
    /// EJS components from npm (`ejs:npm`).
    EjsNpm,
    /// EJS components from GitHub and from npm (`ejs:github,ejs:npm`).
    EjsGitHubAndNpm,
    /// No remote components (`none`).
    Disabled,
}

/// The string does not name remote components.
#[derive(Clone, Copy, Debug, PartialEq, Eq, Hash, Structural)]
pub enum RemoteComponentsError {
    /// The provided string does not match any valid remote components option.
    Invalid,
}

impl RemoteComponentsError {
    /// The message of this error.
    pub open spec fn message(self) -> Seq<char> {
        "The provided string does not match any valid remote components options."@
    }

    /// Renders the message of this error.
    pub fn to_string(&self) -> (r: String)
        ensures
            r@ == self.message(),
    {
        String::from_str("The provided string does not match any valid remote components options.")
    }
}

/// Whether `t` is one entry of the list: `ejs:github`, `ejs:npm` or `none`.
pub open spec fn is_component_token(t: Seq<char>) -> bool {
    t == "ejs:github"@ || t == "ejs:npm"@ || t == "none"@
}

/// The components that a comma-separated list names, as the pair (GitHub named, npm named),
/// when every entry of the list is a component or `none`.
pub open spec fn component_flags_of(s: Seq<char>) -> Option<(bool, bool)> {
    let f = comma_fields_from(s, 0);
    if forall|i: int| 0 <= i < f.len() ==> is_component_token(#[trigger] f[i]) {
        Some((f.contains("ejs:github"@), f.contains("ejs:npm"@)))
    } else {
        None
    }
}

/// Which components a comma-separated list names (see [`component_flags_of`]).
pub fn component_flags(s: &str) -> (r: Option<(bool, bool)>)
    ensures
        r == component_flags_of(s@),
{
    let fields = comma_fields(s);
    let ghost f = comma_fields_from(s@, 0);
    assert(f.len() == fields@.len());
    let mut github = false;
    let mut npm = false;
    let mut i: usize = 0;
    while i < fields.len()
        invariant
            f == comma_fields_from(s@, 0),
            crate::text::strings_view(fields@) == f,
            i <= fields@.len(),
            forall|k: int| 0 <= k < i ==> is_component_token(#[trigger] f[k]),
            github == (exists|k: int| 0 <= k < i && f[k] == "ejs:github"@),
            npm == (exists|k: int| 0 <= k < i && f[k] == "ejs:npm"@),
        decreases fields@.len() - i,
    {
        let t = fields[i].as_str();
        assert(t@ == f[i as int]);
        proof {
            lemma_component_texts();
        }
        if str_equals(t, "ejs:github") {
            github = true;
        } else if str_equals(t, "ejs:npm") {
            npm = true;
        } else if !str_equals(t, "none") {
            return None;
        }
        i = i + 1;
    }
    Some((github, npm))
}

impl RemoteComponents {
    /// The option that names the given components.
    pub open spec fn of_flags(github: bool, npm: bool) -> RemoteComponents {
        if github && npm {
            RemoteComponents::EjsGitHubAndNpm
        } else if github {
            RemoteComponents::EjsGitHub
        } else if npm {
            RemoteComponents::EjsNpm
        } else {
            RemoteComponents::Disabled
        }
    }

    /// The text of this option, as yt-dlp and the configuration write it.
    pub open spec fn text(self) -> Seq<char> {
        match self {
            RemoteComponents::EjsGitHub => "ejs:github"@,
            RemoteComponents::EjsNpm => "ejs:npm"@,
            RemoteComponents::EjsGitHubAndNpm => "ejs:github,ejs:npm"@,
            RemoteComponents::Disabled => "none"@,
        }
    }

    /// The argument to hand yt-dlp: the text of the option, or nothing when disabled.
    pub open spec fn arg(self) -> Option<Seq<char>> {
        match self {
            RemoteComponents::Disabled => None,
            _ => Some(self.text()),
        }
    }

    /// Renders the text of this option.
    pub fn to_string(&self) -> (r: String)
        ensures
            r@ == self.text(),
    {
        match self {
            RemoteComponents::EjsGitHub => String::from_str("ejs:github"),
            RemoteComponents::EjsNpm => String::from_str("ejs:npm"),
            RemoteComponents::EjsGitHubAndNpm => String::from_str("ejs:github,ejs:npm"),
            RemoteComponents::Disabled => String::from_str("none"),
        }
    }

    /// The argument to pass to yt-dlp, if any.
    pub fn as_arg(&self) -> (r: Option<String>)
        ensures
            r is Some <==> self.arg() is Some,
            r matches Some(s) ==> self.arg() == Some(s@),
    {
        match self {
            RemoteComponents::Disabled => None,
            v => Some(v.to_string()),
        }
    }

    /// Parses a comma-separated list of components (each `ejs:github`, `ejs:npm` or `none`);
    /// anything else is refused.
    pub fn from_str(s: &str) -> (r: Result<RemoteComponents, RemoteComponentsError>)
        ensures
            r == parse_remote_components(s@),
    {
        match component_flags(s) {
            Some((github, npm)) => {
                if github && npm {
                    Ok(RemoteComponents::EjsGitHubAndNpm)
                } else if github {
                    Ok(RemoteComponents::EjsGitHub)
                } else if npm {
                    Ok(RemoteComponents::EjsNpm)
                } else {
                    Ok(RemoteComponents::Disabled)
                }
            },
            None => Err(RemoteComponentsError::Invalid),
        }
    }
}

impl Default for RemoteComponents {
    /// No remote components.
    fn default() -> (r: Self)
        ensures
            r == RemoteComponents::Disabled,
    {
        RemoteComponents::Disabled
    }
}

impl std::str::FromStr for RemoteComponents {
    type Err = RemoteComponentsError;

    fn from_str(s: &str) -> (r: Result<RemoteComponents, RemoteComponentsError>)
        ensures
            r == parse_remote_components(s@),
    {
        RemoteComponents::from_str(s)
    }
}

/// The option that `s` names, if it names one: the components of its comma-separated
/// entries.
pub open spec fn parse_remote_components(s: Seq<char>) -> Result<
    RemoteComponents,
    RemoteComponentsError,
> {
    match component_flags_of(s) {
        Some((github, npm)) => Ok(RemoteComponents::of_flags(github, npm)),
        None => Err(RemoteComponentsError::Invalid),
    }
}

/// The texts of the entries, and the texts of the options, as characters.
pub proof fn lemma_component_texts()
    ensures
        "ejs:github"@ == seq!['e', 'j', 's', ':', 'g', 'i', 't', 'h', 'u', 'b'],
        "ejs:npm"@ == seq!['e', 'j', 's', ':', 'n', 'p', 'm'],
        "none"@ == seq!['n', 'o', 'n', 'e'],
        "ejs:github,ejs:npm"@ == "ejs:github"@ + seq![','] + "ejs:npm"@,
        "ejs:github"@ != "ejs:npm"@,
        "ejs:github"@ != "none"@,
        "ejs:npm"@ != "none"@,
{
    reveal_strlit("ejs:github");
    reveal_strlit("ejs:npm");
    reveal_strlit("none");
    reveal_strlit("ejs:github,ejs:npm");
    assert("ejs:github,ejs:npm"@ =~= "ejs:github"@ + seq![','] + "ejs:npm"@);
    assert("ejs:github"@.len() != "ejs:npm"@.len());
    assert("ejs:github"@.len() != "none"@.len());
    assert("ejs:npm"@.len() != "none"@.len());
}

/// A single entry, without commas, is a list of one field.
proof fn lemma_single_field(t: Seq<char>)
    requires
        t == "ejs:github"@ || t == "ejs:npm"@ || t == "none"@,
    ensures
        comma_fields_from(t, 0) == seq![t],
{
    lemma_component_texts();
    assert forall|k: int| 0 <= k < t.len() implies t[k] != ',' by {}
    lemma_no_comma(t, 0);
    assert(t.subrange(0, t.len() as int) =~= t);
}

/// Parsing the text of any option gives that option back.
pub proof fn lemma_parse_text(v: RemoteComponents)
    ensures
        parse_remote_components(v.text()) == Ok::<RemoteComponents, RemoteComponentsError>(v),
{
    lemma_component_texts();
    let gh = "ejs:github"@;
    let npm = "ejs:npm"@;
    match v {
        RemoteComponents::EjsGitHubAndNpm => {
            let s = v.text();
            assert forall|k: int| 0 <= k < 10 implies s[k] != ',' by {
                assert(s[k] == gh[k]);
            }
            assert(s[10] == ',');
            lemma_comma_at(s, 0, 10);
            assert forall|k: int| 11 <= k < s.len() implies s[k] != ',' by {
                assert(s[k] == npm[k - 11]);
            }
            lemma_no_comma(s, 11);
            assert(s.subrange(0, 10) =~= gh);
            assert(s.subrange(11, s.len() as int) =~= npm);
            let f = comma_fields_from(s, 0);
            assert(f =~= seq![gh, npm]);
            assert(f[0] == gh);
            assert(f[1] == npm);
        },
        _ => {
            lemma_single_field(v.text());
            let f = comma_fields_from(v.text(), 0);
            assert(f[0] == v.text());
        },
    }
}

/// The argument handed to yt-dlp, when there is one, parses back to the same option.
pub proof fn lemma_parse_arg(v: RemoteComponents)
    ensures
        v.arg() matches Some(a) ==> parse_remote_components(a) == Ok::<
            RemoteComponents,
            RemoteComponentsError,
        >(v),
        v.arg() is None <==> v == RemoteComponents::Disabled,
{
    lemma_parse_text(v);
}

/// The order and repetition of the entries do not matter: naming the same components, in
/// whatever order and however often, gives the same option.
pub proof fn lemma_parse_by_components(s: Seq<char>, t: Seq<char>)
    requires
        component_flags_of(s) is Some,
        component_flags_of(t) is Some,
        comma_fields_from(s, 0).contains("ejs:github"@) == comma_fields_from(t, 0).contains(
            "ejs:github"@,
        ),
        comma_fields_from(s, 0).contains("ejs:npm"@) == comma_fields_from(t, 0).contains(
            "ejs:npm"@,
        ),
    ensures
        parse_remote_components(s) == parse_remote_components(t),
{
}

} // verus!
