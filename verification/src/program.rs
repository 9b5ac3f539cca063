//! What the program does with its command line, and how it ends.

use vstd::prelude::*;
use vstd::string::*;
use crate::errors::ErrorKind;
use crate::pond::{Pond, PondView, ReservoirMode};
use crate::speech::{say, say_with_width, spoken, to_uppercase, uppercased};

verus! {

/// The flags of the command line.
#[derive(Debug, PartialEq, Eq, Clone, Copy)]
pub struct Flags {
    /// `-h`: show how the program is used.
    pub help: bool,
    /// `-v`: show the program's version.
    pub version: bool,
    /// `-e`: utter one of the tips that come with the program.
    pub essential: bool,
}

/// What the program was asked to do.
#[derive(Debug, PartialEq, Eq)]
pub enum Selection {
    /// Show how the program is used.
    Usage,
    /// Show the program's version.
    Version,
    /// Let the frog utter a tip from this pond.
    Say(Pond),
}

/// The first lines of the text that shows how the program is used.
pub const USAGE_HEAD: &'static str =
    "FROGSAY IS A PROGRAM THAT GENERATES AN ASCII PICTURE OF A FROG SPOUTING A FROG TIP.\n\nUSAGE: ";

/// The lines that follow the program's name in that text.
pub const USAGE_TAIL: &'static str =
    " [OPTIONS]\n\nFROG TIPS ARE FETCHED FROM HTTPS://FROG.TIPS'S API ENDPOINT. IF THE \"ESSENTIAL\" FLAG IS GIVEN, ONLY THE ESSENTIAL FROG TIPS, HARDCODED INTO THIS PROGRAM, WILL BE SHOWN AND NO NETWORK REQUESTS WILL BE MADE. THIS MAKES FROGSAY SUITABLE FOR INSTALLATION IN SECURE FACILITIES SUCH AS DATA CENTERS AND SPACECRAFT.";

/// What begins the message of a failure.
pub const ERROR_HEAD: &'static str = "error: ";

/// What `select` makes of the flags: help goes before the version, and the
/// version before a tip.
pub open spec fn selected(parsed: Option<Flags>, selection: Selection) -> bool {
    match parsed {
        None => selection is Usage,
        Some(flags) => if flags.help {
            selection is Usage
        } else if flags.version {
            selection is Version
        } else {
            selection matches Selection::Say(pond) && pond@ == (PondView {
                mode: if flags.essential {
                    ReservoirMode::EssentialCache
                } else {
                    ReservoirMode::Cache
                },
                stock: None,
            })
        },
    }
}

/// What the program is to do, given the flags of its command line, or `None`
/// where the command line could not be read. Such a command line is answered
/// like a call for help.
pub fn select(parsed: Option<Flags>) -> (r: Selection)
    ensures
        selected(parsed, r),
{
    match parsed {
        None => Selection::Usage,
        Some(flags) => if flags.help {
            Selection::Usage
        } else if flags.version {
            Selection::Version
        } else if flags.essential {
            Selection::Say(Pond::with_essential_tips())
        } else {
            Selection::Say(Pond::with_cache())
        },
    }
}

/// The status that the program ends with: 1 after it has shown how it is used,
/// 0 after it has shown its version, and after a tip 0, or 2 where that
/// `failed`.
pub fn exit_code(selection: &Selection, failed: bool) -> (r: i32)
    ensures
        r == match selection {
            Selection::Usage => 1i32,
            Selection::Version => 0i32,
            Selection::Say(_) => if failed {
                2i32
            } else {
                0i32
            },
        },
{
    match selection {
        Selection::Usage => 1,
        Selection::Version => 0,
        Selection::Say(_) => if failed {
            2
        } else {
            0
        },
    }
}

/// The text that says how `program` is used, without the list of its options.
pub fn usage_brief(program: &str) -> (r: String)
    ensures
        r@ == USAGE_HEAD@ + program@ + USAGE_TAIL@,
{
    USAGE_HEAD.to_owned().concat(program).concat(USAGE_TAIL)
}

/// The message of a failure: what went wrong, after `error: `, in upper case.
pub open spec fn spec_error_message(kind: ErrorKind) -> Seq<char> {
    uppercased(ERROR_HEAD@ + kind.spec_description())
}

/// The message of the failure `kind`.
pub fn error_message(kind: &ErrorKind) -> (r: String)
    ensures
        r@ == spec_error_message(*kind),
{
    let message = ERROR_HEAD.to_owned().concat(kind.description().as_str());
    to_uppercase(message.as_str())
}

/// The frog uttering the message of the failure `kind` on a terminal of `width`
/// columns.
pub fn lament_with_width(kind: &ErrorKind, width: usize) -> (r: String)
    ensures
        r@ == spoken(spec_error_message(*kind), width),
{
    say_with_width(error_message(kind).as_str(), width)
}

/// The frog uttering the message of the failure `kind`.
pub fn lament(kind: &ErrorKind) -> (r: String)
    ensures
        exists|width: usize| r@ == spoken(spec_error_message(*kind), width),
{
    say(error_message(kind).as_str())
}

} // verus!
