//! The mutation catalogue: settings and mutation entries.
use vstd::prelude::*;

use crate::error::MutationError;
use crate::text::{concat, decimal, decimal_text};

verus! {

/// The timeout, in seconds, when the catalogue gives none.
pub fn default_timeout() -> (r: u64)
    ensures
        r == 30,
{
    30
}

/// Global settings.
pub struct Settings {
    /// Seconds allowed for each test run.
    pub timeout: u64,
}

impl Default for Settings {
    fn default() -> (r: Self)
        ensures
            r.timeout == 30,
    {
        Settings { timeout: default_timeout() }
    }
}

/// One mutation: where, what to find and what to put instead.
pub struct MutationConfig {
    /// Path of the source file, relative to the project.
    pub file: String,
    /// Name of the function or method to search.
    pub function: String,
    /// The expression to find.
    pub original: String,
    /// The expression to put in its place.
    pub replacement: String,
    pub id: String,
}

/// The catalogue.
pub struct Config {
    pub version: String,
    pub settings: Settings,
    pub mutations: Vec<MutationConfig>,
}

/// Hands out identifiers for entries that name none: `mutation_1`,
/// `mutation_2`, ... The counter belongs to one load of a catalogue.
pub struct IdCounter {
    pub next: usize,
}

impl IdCounter {
    pub fn new() -> (r: IdCounter)
        ensures
            r.next == 1,
    {
        IdCounter { next: 1 }
    }
}

/// `mutation_` followed by the counter's value; the counter moves on by one.
pub fn generate_id(counter: &mut IdCounter) -> (r: String)
    requires
        old(counter).next < usize::MAX,
    ensures
        r@ == "mutation_"@ + decimal(old(counter).next as nat),
        final(counter).next == old(counter).next + 1,
{
    let n = decimal_text(counter.next);
    counter.next = counter.next + 1;
    concat("mutation_", n.as_str())
}

/// `a -> b in file::function`.
pub open spec fn describe(original: Seq<char>, replacement: Seq<char>, file: Seq<char>, function: Seq<char>) -> Seq<char> {
    original + " -> "@ + replacement + " in "@ + file + "::"@ + function
}

/// Builds `a -> b in file::function`.
pub fn description_of(original: &String, replacement: &String, file: &String, function: &String) -> (r: String)
    ensures
        r@ == describe(original@, replacement@, file@, function@),
{
    let s = concat(original.as_str(), " -> ");
    let s = concat(s.as_str(), replacement.as_str());
    let s = concat(s.as_str(), " in ");
    let s = concat(s.as_str(), file.as_str());
    let s = concat(s.as_str(), "::");
    let s = concat(s.as_str(), function.as_str());
    s
}

impl MutationConfig {
    /// `original -> replacement in file::function`.
    pub fn description(&self) -> (r: String)
        ensures
            r@ == describe(self.original@, self.replacement@, self.file@, self.function@),
    {
        description_of(&self.original, &self.replacement, &self.file, &self.function)
    }
}

/// What the caller learned of one entry: whether its file exists, and the
/// parse error of its pattern and of its replacement, if any.
pub struct EntryScan {
    pub file_exists: bool,
    pub original_error: Option<String>,
    pub replacement_error: Option<String>,
}

/// The number of errors an entry contributes: one for a missing file (its
/// texts are then not looked at), else one per text that did not parse.
pub open spec fn scan_errors(s: EntryScan) -> nat {
    if !s.file_exists {
        1
    } else {
        (if s.original_error is Some {
            1nat
        } else {
            0nat
        }) + (if s.replacement_error is Some {
            1nat
        } else {
            0nat
        })
    }
}

pub open spec fn total_errors(scans: Seq<EntryScan>) -> nat
    decreases scans.len(),
{
    if scans.len() == 0 {
        0
    } else {
        total_errors(scans.subrange(0, scans.len() - 1)) + scan_errors(scans[scans.len() - 1])
    }
}

/// `es` are the errors of one entry, in order: a missing file alone, else an
/// unparsable pattern, then an unparsable replacement.
pub open spec fn entry_errors(m: MutationConfig, s: EntryScan, es: Seq<MutationError>) -> bool {
    &&& es.len() == scan_errors(s)
    &&& !s.file_exists ==> (es[0] matches MutationError::FileNotFound { file } && file@ == m.file@)
    &&& s.file_exists && s.original_error is Some ==> (es[0] matches MutationError::InvalidOriginal {
        code,
        parse_error,
    } && code@ == m.original@ && parse_error@ == s.original_error->Some_0@)
    &&& s.file_exists && s.replacement_error is Some ==> (es[es.len() - 1] matches MutationError::InvalidReplacement {
        code,
        parse_error,
    } && code@ == m.replacement@ && parse_error@ == s.replacement_error->Some_0@)
}

/// `errs` are the errors of every entry, entry after entry.
pub open spec fn errors_of(ms: Seq<MutationConfig>, scans: Seq<EntryScan>, errs: Seq<MutationError>) -> bool
    decreases scans.len(),
{
    if scans.len() == 0 {
        errs.len() == 0
    } else {
        let n = scans.len() - 1;
        let c = scan_errors(scans[n]) as int;
        &&& errs.len() >= c
        &&& errors_of(ms.subrange(0, n), scans.subrange(0, n), errs.subrange(0, errs.len() - c))
        &&& entry_errors(ms[n], scans[n], errs.subrange(errs.len() - c, errs.len() as int))
    }
}

proof fn lemma_total_errors_zero(scans: Seq<EntryScan>)
    ensures
        total_errors(scans) == 0 <==> forall|i: int| 0 <= i < scans.len() ==> scan_errors(
            #[trigger] scans[i],
        ) == 0,
    decreases scans.len(),
{
    if scans.len() > 0 {
        let n = scans.len() - 1;
        let p = scans.subrange(0, n);
        lemma_total_errors_zero(p);
        if total_errors(scans) == 0 {
            assert forall|i: int| 0 <= i < scans.len() implies scan_errors(#[trigger] scans[i]) == 0 by {
                if i < n {
                    assert(p[i] == scans[i]);
                }
            }
        } else if total_errors(p) > 0 {
            let w = choose|w: int| 0 <= w < p.len() && scan_errors(#[trigger] p[w]) != 0;
            assert(scans[w] == p[w]);
        } else {
            assert(scan_errors(scans[n]) != 0);
        }
    }
}

impl Config {
    /// Checks every entry: its file must exist, and its pattern and
    /// replacement must parse. Collects every error, in catalogue order.
    pub fn validate(&self, scans: Vec<EntryScan>) -> (r: Result<(), Vec<MutationError>>)
        requires
            scans@.len() == self.mutations@.len(),
        ensures
            r is Ok == forall|i: int| 0 <= i < scans@.len() ==> scan_errors(#[trigger] scans@[i]) == 0,
            r matches Err(errors) ==> errors@.len() == total_errors(scans@) && errors@.len() > 0
                && errors_of(self.mutations@, scans@, errors@),
    {
        let ghost all = scans@;
        let total = self.mutations.len();
        let mut errors: Vec<MutationError> = Vec::new();
        let mut rest = scans;
        let mut i: usize = 0;
        proof {
            assert(all.subrange(0, 0) =~= Seq::<EntryScan>::empty());
            assert(rest@.subrange(0, rest@.len() as int) =~= rest@);
        }
        while rest.len() > 0
            invariant
                i + rest@.len() == all.len(),
                all.len() == self.mutations@.len(),
                all.len() == total,
                rest@ == all.subrange(i as int, all.len() as int),
                errors@.len() == total_errors(all.subrange(0, i as int)),
                errors_of(self.mutations@.subrange(0, i as int), all.subrange(0, i as int), errors@),
            decreases rest@.len(),
        {
            let scan = rest.remove(0);
            assert(scan == all[i as int]);
            proof {
                let s = all.subrange(0, i + 1);
                assert(s.subrange(0, i as int) =~= all.subrange(0, i as int));
            }
            let m = &self.mutations[i];
            let ghost before = errors@;
            if !scan.file_exists {
                errors.push(MutationError::FileNotFound { file: m.file.clone() });
            } else {
                if let Some(e) = scan.original_error {
                    errors.push(
                        MutationError::InvalidOriginal { code: m.original.clone(), parse_error: e },
                    );
                }
                if let Some(e) = scan.replacement_error {
                    errors.push(
                        MutationError::InvalidReplacement {
                            code: m.replacement.clone(),
                            parse_error: e,
                        },
                    );
                }
            }
            proof {
                let ms = self.mutations@.subrange(0, i + 1);
                let ss = all.subrange(0, i + 1);
                let c = scan_errors(ss[i as int]) as int;
                assert(ms.subrange(0, i as int) =~= self.mutations@.subrange(0, i as int));
                assert(ss.subrange(0, i as int) =~= all.subrange(0, i as int));
                assert(errors@.subrange(0, errors@.len() - c) =~= before);
                assert(ss[i as int] == scan);
                assert(ms[i as int] == self.mutations@[i as int]);
                assert(entry_errors(ms[i as int], ss[i as int], errors@.subrange(errors@.len() - c, errors@.len() as int)));
            }
            i = i + 1;
            proof {
                assert(rest@ =~= all.subrange(i as int, all.len() as int));
            }
        }
        proof {
            assert(all.subrange(0, all.len() as int) =~= all);
            assert(self.mutations@.subrange(0, all.len() as int) =~= self.mutations@);
            lemma_total_errors_zero(all);
        }
        if errors.len() == 0 {
            Ok(())
        } else {
            Err(errors)
        }
    }
}

} // verus!
