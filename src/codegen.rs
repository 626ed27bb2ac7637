//! Preparing one mutation: from the parsed file, pattern and replacement to
//! the rewritten file and the site that was rewritten.
use vstd::prelude::*;

use crate::config::MutationConfig;
use crate::error::{MatchLocation, MutationError};
use crate::expr::Expr;
use crate::matcher::{
    collect_function_names, find_expression_in_function, occurrences, site_at, FnItem,
    MatchedSite, SourceFile,
};
use crate::mutator::{rewritten_fns, Mutator};

verus! {

/// A mutation ready to be written: the rewritten file and the site rewritten.
pub struct PreparedMutation {
    pub mutated: SourceFile,
    pub site: MatchedSite,
}

/// Whether some function or method of `fns` is named `name`.
pub open spec fn declares(fns: Seq<FnItem>, name: Seq<char>) -> bool {
    exists|i: int| 0 <= i < fns.len() && (#[trigger] fns[i]).name@ == name
}

/// The locations of a list of sites, in order.
pub fn locations_of(sites: &Vec<MatchedSite>) -> (r: Vec<MatchLocation>)
    ensures
        r@.len() == sites@.len(),
        forall|i: int| 0 <= i < r@.len() ==> (#[trigger] r@[i]).line == sites@[i].line
            && r@[i].column == sites@[i].column,
{
    let mut out: Vec<MatchLocation> = Vec::new();
    let mut i: usize = 0;
    while i < sites.len()
        invariant
            i <= sites.len(),
            out@.len() == i,
            forall|j: int| 0 <= j < i ==> (#[trigger] out@[j]).line == sites@[j].line
                && out@[j].column == sites@[j].column,
        decreases sites.len() - i,
    {
        out.push(sites[i].to_location());
        i = i + 1;
    }
    out
}

fn contains_name(names: &Vec<String>, name: &String) -> (r: bool)
    ensures
        r == exists|i: int| 0 <= i < names@.len() && (#[trigger] names@[i])@ == name@,
{
    let mut i: usize = 0;
    while i < names.len()
        invariant
            i <= names.len(),
            forall|j: int| 0 <= j < i ==> (#[trigger] names@[j])@ != name@,
        decreases names.len() - i,
    {
        if names[i].eq(name) {
            return true;
        }
        i = i + 1;
    }
    false
}

/// Whether preparing `mutation` on these parse results succeeds: everything
/// parsed, the function exists, and the pattern occurs in it exactly once.
pub open spec fn prepares(
    parsed: Result<SourceFile, String>,
    original: Result<Expr, String>,
    replacement: Result<Expr, String>,
    mutation: MutationConfig,
) -> bool {
    &&& parsed is Ok
    &&& original is Ok
    &&& replacement is Ok
    &&& declares(parsed->Ok_0.functions@, mutation.function@)
    &&& occurrences(parsed->Ok_0, mutation.function@, original->Ok_0).len() == 1
}

/// `e` is the error that preparing `mutation` fails with: the first check that
/// fails, in the order file, pattern, replacement, function, occurrences.
pub open spec fn prepare_error(
    parsed: Result<SourceFile, String>,
    original: Result<Expr, String>,
    replacement: Result<Expr, String>,
    mutation: MutationConfig,
    e: MutationError,
) -> bool {
    if parsed is Err {
        e matches MutationError::ParseError { file, error } && file@ == mutation.file@ && error@
            == parsed->Err_0@
    } else if original is Err {
        e matches MutationError::InvalidOriginal { code, parse_error } && code@
            == mutation.original@ && parse_error@ == original->Err_0@
    } else if replacement is Err {
        e matches MutationError::InvalidReplacement { code, parse_error } && code@
            == mutation.replacement@ && parse_error@ == replacement->Err_0@
    } else {
        let fns = parsed->Ok_0.functions@;
        let occ = occurrences(parsed->Ok_0, mutation.function@, original->Ok_0);
        if !declares(fns, mutation.function@) {
            e matches MutationError::FunctionNotFound { file, function, available_functions }
                && file@ == mutation.file@ && function@ == mutation.function@
                && available_functions@.len() == fns.len() && forall|i: int|
                0 <= i < fns.len() ==> (#[trigger] available_functions@[i])@ == fns[i].name@
        } else if occ.len() == 0 {
            e matches MutationError::NoMatch { file, function, original } && file@
                == mutation.file@ && function@ == mutation.function@ && original@
                == mutation.original@
        } else if occ.len() > 1 {
            e matches MutationError::AmbiguousMatch { function, original, match_count, locations }
                && function@ == mutation.function@ && original@ == mutation.original@
                && match_count == occ.len() && locations@.len() == occ.len() && forall|i: int|
                0 <= i < occ.len() ==> (#[trigger] locations@[i]).line == occ[i].line
                && locations@[i].column == occ[i].column
        } else {
            false
        }
    }
}

/// Prepares `mutation` on a file, given what parsing the file, the pattern and
/// the replacement gave (each an error message where it failed). Checks, in
/// this order: the file parsed, the pattern parsed, the replacement parsed, the
/// function exists, the pattern occurs exactly once in it; then rewrites that
/// occurrence.
pub fn prepare_mutation(
    parsed: Result<SourceFile, String>,
    original: Result<Expr, String>,
    replacement: Result<Expr, String>,
    mutation: &MutationConfig,
) -> (r: Result<PreparedMutation, MutationError>)
    ensures
        !prepares(parsed, original, replacement, *mutation) ==> (r matches Err(e)
            && prepare_error(parsed, original, replacement, *mutation, e)),
        prepares(parsed, original, replacement, *mutation) ==> (r matches Ok(p) && site_at(
            p.site,
            occurrences(parsed->Ok_0, mutation.function@, original->Ok_0)[0],
            0,
        ) && rewritten_fns(
            parsed->Ok_0.functions@,
            p.mutated.functions@,
            mutation.function@,
            original->Ok_0,
            replacement->Ok_0,
            0,
        )),
{
    let mut ast = match parsed {
        Ok(a) => a,
        Err(e) => {
            return Err(MutationError::ParseError { file: mutation.file.clone(), error: e });
        },
    };
    let original_expr = match original {
        Ok(x) => x,
        Err(e) => {
            return Err(
                MutationError::InvalidOriginal { code: mutation.original.clone(), parse_error: e },
            );
        },
    };
    let replacement_expr = match replacement {
        Ok(x) => x,
        Err(e) => {
            return Err(
                MutationError::InvalidReplacement {
                    code: mutation.replacement.clone(),
                    parse_error: e,
                },
            );
        },
    };
    let functions = collect_function_names(&ast);
    if !contains_name(&functions, &mutation.function) {
        proof {
            if declares(ast.functions@, mutation.function@) {
                let i = choose|i: int| 0 <= i < ast.functions@.len() && (#[trigger] ast.functions@[i]).name@ == mutation.function@;
                assert(functions@[i]@ == mutation.function@);
            }
        }
        return Err(
            MutationError::FunctionNotFound {
                file: mutation.file.clone(),
                function: mutation.function.clone(),
                available_functions: functions,
            },
        );
    }
    proof {
        let i = choose|i: int| 0 <= i < functions@.len() && (#[trigger] functions@[i])@ == mutation.function@;
        assert(ast.functions@[i].name@ == mutation.function@);
    }
    let matches = find_expression_in_function(&ast, mutation.function.as_str(), &original_expr);
    if matches.len() == 0 {
        return Err(
            MutationError::NoMatch {
                file: mutation.file.clone(),
                function: mutation.function.clone(),
                original: mutation.original.clone(),
            },
        );
    }
    if matches.len() > 1 {
        let locations = locations_of(&matches);
        return Err(
            MutationError::AmbiguousMatch {
                function: mutation.function.clone(),
                original: mutation.original.clone(),
                match_count: matches.len(),
                locations,
            },
        );
    }
    let target = matches[0];
    assert(site_at(target, occurrences(ast, mutation.function@, original_expr)[0], 0));
    let applied = Mutator::apply(
        &mut ast,
        mutation.function.as_str(),
        &original_expr,
        replacement_expr,
        &target,
    );
    match applied {
        Ok(()) => Ok(PreparedMutation { mutated: ast, site: target }),
        Err(e) => Err(e),
    }
}

} // verus!
