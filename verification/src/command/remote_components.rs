//! Remote components setting of the command-line wrapper (`--remote-components`): a
//! comma-separated list of components, each `ejs:github` or `ejs:npm`; `none` names no
//! component.

use vstd::prelude::*;

use crate::remote_components::{component_flags, component_flags_of};

verus! {

/// Remote components that yt-dlp may fetch.
#[derive(Clone, Copy, Debug, PartialEq, Eq, Hash, Structural)]
pub enum RemoteComponents {
    /// EJS components from GitHub (`ejs:github`).
    GitHub,
    /// EJS components from npm (`ejs:npm`).
    Npm,
    /// EJS components from GitHub and from npm (`ejs:github,ejs:npm`).
    GitHubAndNpm,
    /// No remote components (`none`).
    Disabled,
}

/// The string does not name remote components.
#[derive(Clone, Copy, Debug, PartialEq, Eq, Hash, Structural)]
pub enum RemoteComponentsError {
    /// The provided string does not match any valid remote component option.
    InvalidOption,
}

impl RemoteComponentsError {
    /// The message of this error.
    pub open spec fn message(self) -> Seq<char> {
        "The provided string does not match any valid remote component options."@
    }

    /// Renders the message of this error.
    pub fn to_string(&self) -> (r: String)
        ensures
            r@ == self.message(),
    {
        String::from_str("The provided string does not match any valid remote component options.")
    }
}

impl RemoteComponents {
    /// The option that names the given components.
    pub open spec fn of_flags(github: bool, npm: bool) -> RemoteComponents {
        if github && npm {
            RemoteComponents::GitHubAndNpm
        } else if github {
            RemoteComponents::GitHub
        } else if npm {
            RemoteComponents::Npm
        } else {
            RemoteComponents::Disabled
        }
    }

    /// The text of this option, as yt-dlp and the configuration write it.
    pub open spec fn text(self) -> Seq<char> {
        match self {
            RemoteComponents::GitHub => "ejs:github"@,
            RemoteComponents::Npm => "ejs:npm"@,
            RemoteComponents::GitHubAndNpm => "ejs:github,ejs:npm"@,
            RemoteComponents::Disabled => "none"@,
        }
    }

    /// The argument to hand yt-dlp: the text of the option, or nothing when disabled.
    pub open spec fn arg(self) -> Option<Seq<char>> {
        match self {
            RemoteComponents::Disabled => None,
            _ => Some(self.text()),
        }
    }

    /// Renders the text of this option.
    pub fn to_string(&self) -> (r: String)
        ensures
            r@ == self.text(),
    {
        match self {
            RemoteComponents::GitHub => String::from_str("ejs:github"),
            RemoteComponents::Npm => String::from_str("ejs:npm"),
            RemoteComponents::GitHubAndNpm => String::from_str("ejs:github,ejs:npm"),
            RemoteComponents::Disabled => String::from_str("none"),
        }
    }

    /// The argument to pass to yt-dlp, if any.
    pub fn as_arg(&self) -> (r: Option<String>)
        ensures
            r is Some <==> self.arg() is Some,
            r matches Some(s) ==> self.arg() == Some(s@),
    {
        match self {
            RemoteComponents::Disabled => None,
            v => Some(v.to_string()),
        }
    }

    /// Parses a comma-separated list of components (each `ejs:github`, `ejs:npm` or `none`);
    /// anything else is refused.
    pub fn from_str(s: &str) -> (r: Result<RemoteComponents, RemoteComponentsError>)
        ensures
            r == parse_remote_components(s@),
    {
        match component_flags(s) {
            Some((github, npm)) => {
                if github && npm {
                    Ok(RemoteComponents::GitHubAndNpm)
                } else if github {
                    Ok(RemoteComponents::GitHub)
                } else if npm {
                    Ok(RemoteComponents::Npm)
                } else {
                    Ok(RemoteComponents::Disabled)
                }
            },
            None => Err(RemoteComponentsError::InvalidOption),
        }
    }
}

impl Default for RemoteComponents {
    /// No remote components.
    fn default() -> (r: Self)
        ensures
            r == RemoteComponents::Disabled,
    {
        RemoteComponents::Disabled
    }
}

impl std::str::FromStr for RemoteComponents {
    type Err = RemoteComponentsError;

    fn from_str(s: &str) -> (r: Result<RemoteComponents, RemoteComponentsError>)
        ensures
            r == parse_remote_components(s@),
    {
        RemoteComponents::from_str(s)
    }
}

/// The option that `s` names, if it names one: the components of its comma-separated
/// entries.
pub open spec fn parse_remote_components(s: Seq<char>) -> Result<
    RemoteComponents,
    RemoteComponentsError,
> {
    match component_flags_of(s) {
        Some((github, npm)) => Ok(RemoteComponents::of_flags(github, npm)),
        None => Err(RemoteComponentsError::InvalidOption),
    }
}

/// The option of the embedded wrapper that names the same components.
pub open spec fn embedded(v: RemoteComponents) -> crate::remote_components::RemoteComponents {
    match v {
        RemoteComponents::GitHub => crate::remote_components::RemoteComponents::EjsGitHub,
        RemoteComponents::Npm => crate::remote_components::RemoteComponents::EjsNpm,
        RemoteComponents::GitHubAndNpm => crate::remote_components::RemoteComponents::EjsGitHubAndNpm,
        RemoteComponents::Disabled => crate::remote_components::RemoteComponents::Disabled,
    }
}

/// Parsing the text of any option gives that option back.
pub proof fn lemma_parse_text(v: RemoteComponents)
    ensures
        parse_remote_components(v.text()) == Ok::<RemoteComponents, RemoteComponentsError>(v),
{
    crate::remote_components::lemma_parse_text(embedded(v));
    assert(embedded(v).text() == v.text());
}

/// The argument handed to yt-dlp, when there is one, parses back to the same option.
pub proof fn lemma_parse_arg(v: RemoteComponents)
    ensures
        v.arg() matches Some(a) ==> parse_remote_components(a) == Ok::<
            RemoteComponents,
            RemoteComponentsError,
        >(v),
        v.arg() is None <==> v == RemoteComponents::Disabled,
{
    lemma_parse_text(v);
}

} // verus!
