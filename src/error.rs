//! Errors of the mutation engine.
use vstd::prelude::*;

use crate::text::{concat, decimal, decimal_text};

verus! {

/// A place where a matching expression stands.
#[derive(Clone, Copy, Debug, PartialEq, Eq, Structural)]
pub struct MatchLocation {
    pub line: usize,
    pub column: usize,
}

/// What can go wrong while preparing, applying or running one mutation.
/// Paths are held as text.
#[derive(Debug)]
pub enum MutationError {
    /// The pattern text does not parse as an expression.
    InvalidOriginal { code: String, parse_error: String },
    /// The replacement text does not parse as an expression.
    InvalidReplacement { code: String, parse_error: String },
    FileNotFound { file: String },
    FileReadError { file: String, error: String },
    /// The source file does not parse.
    ParseError { file: String, error: String },
    /// No function or method of that name; carries every declared name.
    FunctionNotFound { file: String, function: String, available_functions: Vec<String> },
    /// The pattern occurs nowhere in the named function.
    NoMatch { file: String, function: String, original: String },
    /// The pattern occurs more than once; carries every location.
    AmbiguousMatch {
        function: String,
        original: String,
        match_count: usize,
        locations: Vec<MatchLocation>,
    },
    /// The chosen occurrence was not reached while rewriting.
    FailedToApply { reason: String },
    WriteError { file: String, error: String },
    TestExecutionError { error: String },
    ConfigError { message: String },
}

/// `line L, column C`.
pub open spec fn location_text(l: MatchLocation) -> Seq<char> {
    "line "@ + decimal(l.line as nat) + ", column "@ + decimal(l.column as nat)
}

/// The texts of `locs`, joined by `; `.
pub open spec fn locations_text(locs: Seq<MatchLocation>) -> Seq<char>
    decreases locs.len(),
{
    if locs.len() == 0 {
        seq![]
    } else if locs.len() == 1 {
        location_text(locs[0])
    } else {
        locations_text(locs.subrange(0, locs.len() - 1)) + "; "@ + location_text(locs[locs.len() - 1])
    }
}

/// Writes locations as `line 3, column 5; line 4, column 9`.
pub fn format_locations(locations: &Vec<MatchLocation>) -> (r: String)
    ensures
        r@ == locations_text(locations@),
{
    let mut out = String::new();
    let mut i: usize = 0;
    while i < locations.len()
        invariant
            i <= locations.len(),
            out@ == locations_text(locations@.subrange(0, i as int)),
        decreases locations.len() - i,
    {
        proof {
            let s = locations@.subrange(0, i + 1);
            assert(s.subrange(0, i as int) =~= locations@.subrange(0, i as int));
            assert(s[i as int] == locations@[i as int]);
        }
        if i > 0 {
            out = concat(out.as_str(), "; ");
        }
        let l = locations[i];
        out = concat(out.as_str(), "line ");
        out = concat(out.as_str(), decimal_text(l.line).as_str());
        out = concat(out.as_str(), ", column ");
        out = concat(out.as_str(), decimal_text(l.column).as_str());
        i = i + 1;
        proof {
            assert(out@ =~= locations_text(locations@.subrange(0, i as int)));
        }
    }
    assert(locations@.subrange(0, locations.len() as int) =~= locations@);
    out
}

} // verus!
