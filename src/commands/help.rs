//! `sdk help`: choosing the page to show.
use vstd::prelude::*;
use crate::error::CliError;
use crate::path::opt_view;
use crate::text::{trim, trim_spec};

verus! {

/// Arguments of `sdk help`.
pub struct Args {
    /// The subcommand to explain, by name or alias; the overview when absent.
    pub subcommand: Option<String>,
}

/// The pages of help.
#[derive(PartialEq, Eq, Structural, Debug, Clone, Copy)]
pub enum Topic {
    Main,
    Config,
    Current,
    Default,
    Env,
    Flush,
    Home,
    Install,
    List,
    Selfupdate,
    Uninstall,
    Update,
    Upgrade,
    Use,
    Version,
}

/// The page a subcommand name or alias asks for.
pub open spec fn topic_of(t: Seq<char>) -> Option<Topic> {
    if t == "config"@ {
        Some(Topic::Config)
    } else if t == "current"@ || t == "c"@ {
        Some(Topic::Current)
    } else if t == "default"@ || t == "d"@ {
        Some(Topic::Default)
    } else if t == "env"@ || t == "e"@ {
        Some(Topic::Env)
    } else if t == "flush"@ {
        Some(Topic::Flush)
    } else if t == "home"@ || t == "h"@ {
        Some(Topic::Home)
    } else if t == "install"@ || t == "i"@ {
        Some(Topic::Install)
    } else if t == "list"@ || t == "ls"@ {
        Some(Topic::List)
    } else if t == "selfupdate"@ {
        Some(Topic::Selfupdate)
    } else if t == "uninstall"@ || t == "rm"@ {
        Some(Topic::Uninstall)
    } else if t == "update"@ {
        Some(Topic::Update)
    } else if t == "upgrade"@ || t == "ug"@ {
        Some(Topic::Upgrade)
    } else if t == "use"@ || t == "u"@ {
        Some(Topic::Use)
    } else if t == "version"@ || t == "v"@ {
        Some(Topic::Version)
    } else {
        None
    }
}

/// The page asked for: the overview when no name, or only whitespace, is given.
pub open spec fn help_topic_spec(sub: Option<Seq<char>>) -> Option<Topic> {
    match sub {
        None => Some(Topic::Main),
        Some(s) => if trim_spec(s).len() == 0 {
            Some(Topic::Main)
        } else {
            topic_of(trim_spec(s))
        },
    }
}

fn is_word(t: &String, word: &str) -> (r: bool)
    ensures
        r == (t@ == word@),
{
    t.eq(&String::from_str(word))
}

fn topic_named(t: &String) -> (r: Option<Topic>)
    ensures
        r == topic_of(t@),
{
    if is_word(t, "config") {
        Some(Topic::Config)
    } else if is_word(t, "current") || is_word(t, "c") {
        Some(Topic::Current)
    } else if is_word(t, "default") || is_word(t, "d") {
        Some(Topic::Default)
    } else if is_word(t, "env") || is_word(t, "e") {
        Some(Topic::Env)
    } else if is_word(t, "flush") {
        Some(Topic::Flush)
    } else if is_word(t, "home") || is_word(t, "h") {
        Some(Topic::Home)
    } else if is_word(t, "install") || is_word(t, "i") {
        Some(Topic::Install)
    } else if is_word(t, "list") || is_word(t, "ls") {
        Some(Topic::List)
    } else if is_word(t, "selfupdate") {
        Some(Topic::Selfupdate)
    } else if is_word(t, "uninstall") || is_word(t, "rm") {
        Some(Topic::Uninstall)
    } else if is_word(t, "update") {
        Some(Topic::Update)
    } else if is_word(t, "upgrade") || is_word(t, "ug") {
        Some(Topic::Upgrade)
    } else if is_word(t, "use") || is_word(t, "u") {
        Some(Topic::Use)
    } else if is_word(t, "version") || is_word(t, "v") {
        Some(Topic::Version)
    } else {
        None
    }
}

/// Picks the help page for the subcommand named, if there is one.
pub fn select_topic(subcommand: &Option<String>) -> (r: Result<Topic, CliError>)
    ensures
        r is Ok <==> help_topic_spec(opt_view(*subcommand)) is Some,
        r matches Ok(t) ==> help_topic_spec(opt_view(*subcommand)) == Some(t),
        r matches Err(e) ==> (e matches CliError::UnknownTopic { topic } && subcommand matches Some(
            s,
        ) && topic@ == trim_spec(s@)),
{
    match subcommand {
        None => Ok(Topic::Main),
        Some(s) => {
            let t = trim(s.as_str());
            if t.as_str().unicode_len() == 0 {
                Ok(Topic::Main)
            } else {
                match topic_named(&t) {
                    Some(topic) => Ok(topic),
                    None => Err(CliError::UnknownTopic { topic: t }),
                }
            }
        },
    }
}

} // verus!
