//! What the sidekick says: the lines that it prints and what each of them
//! asks for.

use vstd::prelude::*;
use crate::text::begins_with;
use crate::text::chars_of;
use crate::text::starts_with;
use crate::text::string_of;
use crate::text::strip_prefixes;
use crate::text::trim;
use crate::text::trimmed;
use crate::text::without_prefixes;

verus! {

/// What a line of the sidekick asks for.
#[derive(Debug, PartialEq, Eq)]
pub enum SidekickLine {
    /// Run a script in the Lua runtime.
    Lua { script: String },
    /// Show suggestions in the address bar.
    Omnibox { results: String },
    /// Nothing: the line is for the log.
    Other,
}

/// A [`SidekickLine`] over sequences of characters.
pub enum SidekickLineModel {
    Lua { script: Seq<char> },
    Omnibox { results: Seq<char> },
    Other,
}

impl View for SidekickLine {
    type V = SidekickLineModel;

    open spec fn view(&self) -> SidekickLineModel {
        match self {
            SidekickLine::Lua { script } => SidekickLineModel::Lua { script: script@ },
            SidekickLine::Omnibox { results } => SidekickLineModel::Omnibox { results: results@ },
            SidekickLine::Other => SidekickLineModel::Other,
        }
    }
}

/// What a line asks for: a line that begins with `LUA:` carries a script and
/// a line that begins with `OMNIBOX_RESULTS:` carries suggestions, each after
/// the mark, however often it is repeated, and without the white space
/// around it.
pub open spec fn line_of(line: Seq<char>) -> SidekickLineModel {
    if begins_with(line, "LUA:"@) {
        SidekickLineModel::Lua { script: trimmed(without_prefixes(line, "LUA:"@)) }
    } else if begins_with(line, "OMNIBOX_RESULTS:"@) {
        SidekickLineModel::Omnibox {
            results: trimmed(without_prefixes(line, "OMNIBOX_RESULTS:"@)),
        }
    } else {
        SidekickLineModel::Other
    }
}

/// Reads what a line of the sidekick asks for.
pub fn read_sidekick_line(line: &str) -> (read: SidekickLine)
    ensures
        read@ == line_of(line@),
{
    let chars = chars_of(line);
    let lua = chars_of("LUA:");
    let omnibox = chars_of("OMNIBOX_RESULTS:");
    if starts_with(&chars, &lua) {
        SidekickLine::Lua { script: string_of(&trim(&strip_prefixes(&chars, &lua))) }
    } else if starts_with(&chars, &omnibox) {
        SidekickLine::Omnibox { results: string_of(&trim(&strip_prefixes(&chars, &omnibox))) }
    } else {
        SidekickLine::Other
    }
}

} // verus!
