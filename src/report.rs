//! Aggregating the outcomes of a run.
use vstd::prelude::*;

use crate::runner::{MutationResult, MutationStatus};

verus! {

/// Which outcomes a count is about.
pub enum StatusKind {
    Killed,
    Survived,
    Timeout,
    CompileError,
    ConfigError,
}

pub open spec fn is_kind(s: MutationStatus, k: StatusKind) -> bool {
    match k {
        StatusKind::Killed => s is Killed,
        StatusKind::Survived => s is Survived,
        StatusKind::Timeout => s is Timeout,
        StatusKind::CompileError => s is CompileError,
        StatusKind::ConfigError => s is ConfigError,
    }
}

/// The number of results of kind `k`.
pub open spec fn count_kind(rs: Seq<MutationResult>, k: StatusKind) -> nat
    decreases rs.len(),
{
    if rs.len() == 0 {
        0
    } else {
        count_kind(rs.subrange(0, rs.len() - 1), k) + if is_kind(rs[rs.len() - 1].status, k) {
            1nat
        } else {
            0nat
        }
    }
}

/// The sum of the results' durations.
pub open spec fn total_ms(rs: Seq<MutationResult>) -> nat
    decreases rs.len(),
{
    if rs.len() == 0 {
        0
    } else {
        total_ms(rs.subrange(0, rs.len() - 1)) + rs[rs.len() - 1].duration_ms as nat
    }
}

proof fn lemma_count_bound(rs: Seq<MutationResult>, k: StatusKind)
    ensures
        count_kind(rs, k) <= rs.len(),
    decreases rs.len(),
{
    if rs.len() > 0 {
        lemma_count_bound(rs.subrange(0, rs.len() - 1), k);
    }
}

proof fn lemma_killed_survived_bound(rs: Seq<MutationResult>)
    ensures
        count_kind(rs, StatusKind::Killed) + count_kind(rs, StatusKind::Survived) <= rs.len(),
    decreases rs.len(),
{
    if rs.len() > 0 {
        lemma_killed_survived_bound(rs.subrange(0, rs.len() - 1));
    }
}

/// The outcomes of a run and their total duration.
pub struct MutationReport {
    pub results: Vec<MutationResult>,
    /// The sum of the durations, in milliseconds, or `u64::MAX` where it does
    /// not fit.
    pub total_duration_ms: u64,
}

fn count_of(rs: &Vec<MutationResult>, k: StatusKind) -> (r: usize)
    ensures
        r == count_kind(rs@, k),
{
    let mut n: usize = 0;
    let mut i: usize = 0;
    while i < rs.len()
        invariant
            i <= rs.len(),
            n == count_kind(rs@.subrange(0, i as int), k),
        decreases rs.len() - i,
    {
        proof {
            let s = rs@.subrange(0, i + 1);
            assert(s.subrange(0, i as int) =~= rs@.subrange(0, i as int));
            lemma_count_bound(rs@.subrange(0, i as int), k);
        }
        let hit = match (&rs[i].status, &k) {
            (MutationStatus::Killed, StatusKind::Killed) => true,
            (MutationStatus::Survived, StatusKind::Survived) => true,
            (MutationStatus::Timeout, StatusKind::Timeout) => true,
            (MutationStatus::CompileError, StatusKind::CompileError) => true,
            (MutationStatus::ConfigError(_), StatusKind::ConfigError) => true,
            _ => false,
        };
        if hit {
            n = n + 1;
        }
        i = i + 1;
    }
    assert(rs@.subrange(0, rs.len() as int) =~= rs@);
    n
}

impl MutationReport {
    /// A report over `results`; the total duration is their sum, held at
    /// `u64::MAX` where it does not fit.
    pub fn new(results: Vec<MutationResult>) -> (r: MutationReport)
        ensures
            r.results@ == results@,
            r.total_duration_ms == if total_ms(results@) <= u64::MAX {
                total_ms(results@)
            } else {
                u64::MAX as nat
            },
    {
        let mut sum: u64 = 0;
        let mut i: usize = 0;
        while i < results.len()
            invariant
                i <= results.len(),
                sum == if total_ms(results@.subrange(0, i as int)) <= u64::MAX {
                    total_ms(results@.subrange(0, i as int))
                } else {
                    u64::MAX as nat
                },
            decreases results.len() - i,
        {
            proof {
                let s = results@.subrange(0, i + 1);
                assert(s.subrange(0, i as int) =~= results@.subrange(0, i as int));
            }
            sum = sum.saturating_add(results[i].duration_ms);
            i = i + 1;
        }
        assert(results@.subrange(0, results.len() as int) =~= results@);
        MutationReport { results, total_duration_ms: sum }
    }

    pub fn killed(&self) -> (r: usize)
        ensures
            r == count_kind(self.results@, StatusKind::Killed),
    {
        count_of(&self.results, StatusKind::Killed)
    }

    pub fn survived(&self) -> (r: usize)
        ensures
            r == count_kind(self.results@, StatusKind::Survived),
    {
        count_of(&self.results, StatusKind::Survived)
    }

    pub fn timeouts(&self) -> (r: usize)
        ensures
            r == count_kind(self.results@, StatusKind::Timeout),
    {
        count_of(&self.results, StatusKind::Timeout)
    }

    pub fn compile_errors(&self) -> (r: usize)
        ensures
            r == count_kind(self.results@, StatusKind::CompileError),
    {
        count_of(&self.results, StatusKind::CompileError)
    }

    pub fn config_errors(&self) -> (r: usize)
        ensures
            r == count_kind(self.results@, StatusKind::ConfigError),
    {
        count_of(&self.results, StatusKind::ConfigError)
    }

    pub fn total(&self) -> (r: usize)
        ensures
            r == self.results@.len(),
    {
        self.results.len()
    }

    /// The score in percent as a fraction `(numerator, denominator)`: killed
    /// over killed plus survived, times 100; 100 when no result was killed or
    /// survived.
    pub fn score_fraction(&self) -> (r: (u128, u128))
        ensures
            r.1 > 0,
            ({
                let k = count_kind(self.results@, StatusKind::Killed);
                let t = k + count_kind(self.results@, StatusKind::Survived);
                if t == 0 {
                    r.0 == 100 && r.1 == 1
                } else {
                    r.0 == 100 * k && r.1 == t
                }
            }),
    {
        let n = self.results.len();
        let k = self.killed();
        let s = self.survived();
        proof {
            lemma_killed_survived_bound(self.results@);
        }
        let t = k + s;
        if t == 0 {
            (100, 1)
        } else {
            (100 * (k as u128), t as u128)
        }
    }

    /// The indices of the results that survived, in order.
    pub fn surviving_mutations(&self) -> (r: Vec<usize>)
        ensures
            forall|j: int| 0 <= j < r@.len() ==> (#[trigger] r@[j]) < self.results@.len()
                && self.results@[r@[j] as int].status is Survived,
            forall|i: int| 0 <= i < self.results@.len() && (#[trigger] self.results@[i]).status is Survived
                ==> r@.contains(i as usize),
            forall|a: int, b: int| 0 <= a < b < r@.len() ==> r@[a] < r@[b],
    {
        let mut out: Vec<usize> = Vec::new();
        let mut i: usize = 0;
        while i < self.results.len()
            invariant
                i <= self.results.len(),
                forall|j: int| 0 <= j < out@.len() ==> (#[trigger] out@[j]) < i
                    && self.results@[out@[j] as int].status is Survived,
                forall|m: int| 0 <= m < i && (#[trigger] self.results@[m]).status is Survived
                    ==> out@.contains(m as usize),
                forall|a: int, b: int| 0 <= a < b < out@.len() ==> out@[a] < out@[b],
            decreases self.results.len() - i,
        {
            let ghost before = out@;
            if let MutationStatus::Survived = self.results[i].status {
                out.push(i);
                proof {
                    assert(out@[out@.len() - 1] == i);
                    assert forall|m: int| 0 <= m < i + 1 && (#[trigger] self.results@[m]).status is Survived
                        implies out@.contains(m as usize) by {
                        if m < i {
                            let w = choose|w: int| 0 <= w < before.len() && before[w] == m as usize;
                            assert(out@[w] == m as usize);
                        }
                    }
                }
            }
            i = i + 1;
        }
        out
    }
}

} // verus!
