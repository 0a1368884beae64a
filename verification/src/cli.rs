//! The command-line surface: one positional argument selecting which
//! segment to print, everything else answered with a usage line.
use vstd::prelude::*;
use vstd::string::StringExecFns;
use crate::strutil::str_eq;
use crate::strutil::view_opt_str;

verus! {

/// The three rendering modes.
#[derive(Clone, Copy, PartialEq, Eq, Structural, Debug)]
pub enum Mode {
    Path,
    Git,
    TmuxTitle,
}

/// The mode an argument selects; a missing or unrecognized argument
/// selects none.
pub open spec fn parse_mode_spec(arg: Option<Seq<char>>) -> Option<Mode> {
    match arg {
        Some(a) => if a == "path"@ {
            Some(Mode::Path)
        } else if a == "git"@ {
            Some(Mode::Git)
        } else if a == "tmux-title"@ {
            Some(Mode::TmuxTitle)
        } else {
            None
        },
        None => None,
    }
}

/// Parses the single positional argument into a mode.
pub fn parse_mode(arg: &Option<String>) -> (r: Option<Mode>)
    ensures
        r == parse_mode_spec(view_opt_str(*arg)),
{
    match arg {
        Some(a) => {
            if str_eq(a.as_str(), "path") {
                Some(Mode::Path)
            } else if str_eq(a.as_str(), "git") {
                Some(Mode::Git)
            } else if str_eq(a.as_str(), "tmux-title") {
                Some(Mode::TmuxTitle)
            } else {
                None
            }
        },
        None => None,
    }
}

/// The usage line printed for a missing or unrecognized argument.
pub fn usage() -> (r: String)
    ensures
        r@ == "Usage: starship-segments <path|git|tmux-title>"@,
{
    String::from_str("Usage: starship-segments <path|git|tmux-title>")
}

} // verus!
