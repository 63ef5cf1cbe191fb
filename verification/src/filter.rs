//! The filter engine: which registered cases a run executes.
//!
//! A case is *excluded* when the run's mode, the name filter or a skip
//! pattern rules it out, and *filtered* when it is excluded or marked as
//! ignored. Running the ignored cases turns the decision round for every
//! case alike: what was filtered runs, and what was not is skipped.

use vstd::prelude::*;
use crate::args::{Args, RunConfig};
use crate::test::{Descriptor, TestDesc};
use crate::text::{is_substring, lemma_substring_basics};

verus! {

/// What a run does with one case.
#[derive(Copy, Clone, Debug, PartialEq, Eq, Structural)]
pub enum Decision {
    /// Ruled out by the mode, the name filter or a skip pattern: the case
    /// is not started and only counted.
    FilteredOut,
    /// Held back because of its ignored mark and the run's handling of it:
    /// the case is not started and reported as ignored.
    WillSkip,
    /// The case is started.
    WillRun,
}

/// Whether `name` matches `pattern`: by equality when `exact`, else by
/// containing it.
pub open spec fn name_matches(name: Seq<char>, pattern: Seq<char>, exact: bool) -> bool {
    if exact {
        name == pattern
    } else {
        is_substring(pattern, name)
    }
}

/// The run is not one for cases of this kind.
pub open spec fn mode_mismatch(is_bench: bool, cfg: RunConfig) -> bool {
    (is_bench && !cfg.run_benchmarks) || (!is_bench && !cfg.run_tests)
}

/// There is a name filter and `name` does not match it.
pub open spec fn name_excluded(name: Seq<char>, filter: Option<Seq<char>>, exact: bool) -> bool {
    filter matches Some(pattern) && !name_matches(name, pattern, exact)
}

/// `name` matches one of the skip patterns.
pub open spec fn skip_excluded(name: Seq<char>, patterns: Seq<Seq<char>>, exact: bool) -> bool {
    exists|i: int| 0 <= i < patterns.len() && name_matches(name, #[trigger] patterns[i], exact)
}

/// The name filter or a skip pattern rules the name out.
pub open spec fn name_filtered(name: Seq<char>, cfg: RunConfig) -> bool {
    name_excluded(name, cfg.name_filter, cfg.filter_exact) || skip_excluded(
        name,
        cfg.skip_patterns,
        cfg.filter_exact,
    )
}

/// The mode, the name filter or a skip pattern rules the case out.
pub open spec fn excluded(desc: Descriptor, cfg: RunConfig) -> bool {
    mode_mismatch(desc.is_bench, cfg) || name_filtered(desc.name, cfg)
}

/// The case is marked as ignored or ruled out.
pub open spec fn filtered(desc: Descriptor, cfg: RunConfig) -> bool {
    desc.ignored || excluded(desc, cfg)
}

/// What a run does with a case, given whether the case is ruled out,
/// whether it is marked as ignored, and whether the run is one of the
/// ignored cases. The case is withheld when it is filtered (ruled out or
/// marked) in a plain run, and when it is not filtered in a run of the
/// ignored cases; a case that is withheld is filtered out where it is
/// ruled out, and skipped where it is not.
pub open spec fn decision_from(excluded: bool, ignored: bool, run_ignored: bool) -> Decision {
    let filtered = excluded || ignored;
    let withheld = filtered != run_ignored;
    if !withheld {
        Decision::WillRun
    } else if excluded {
        Decision::FilteredOut
    } else {
        Decision::WillSkip
    }
}

/// The case is not started: it is filtered in a plain run, or not filtered
/// in a run of the ignored cases.
pub open spec fn withheld(desc: Descriptor, cfg: RunConfig) -> bool {
    filtered(desc, cfg) != cfg.run_ignored
}

/// What the run does with the case.
pub open spec fn decision(desc: Descriptor, cfg: RunConfig) -> Decision {
    decision_from(excluded(desc, cfg), desc.ignored, cfg.run_ignored)
}

/// The decision, read off a table of the four combinations of filtered
/// and run-ignored.
pub fn decide_from(excluded: bool, ignored: bool, run_ignored: bool) -> (d: Decision)
    ensures
        d == decision_from(excluded, ignored, run_ignored),
{
    let filtered = excluded || ignored;
    match (filtered, run_ignored) {
        (false, false) => Decision::WillRun,
        (true, true) => Decision::WillRun,
        (false, true) => Decision::WillSkip,
        (true, false) => if excluded {
            Decision::FilteredOut
        } else {
            Decision::WillSkip
        },
    }
}

/// Decide what the run that `args` configures does with the case that
/// `desc` describes.
pub fn decide(desc: &TestDesc, args: &Args) -> (d: Decision)
    ensures
        d == decision(desc@, args@),
{
    let mode_mismatch = if desc.is_bench() {
        !args.run_benchmarks
    } else {
        !args.run_tests
    };
    let excluded = mode_mismatch || args.is_filtered(desc.name());
    decide_from(excluded, desc.ignored(), args.run_ignored)
}

/// Running the ignored cases inverts the decision for every case: it runs
/// with the flag exactly when it does not run without it.
pub proof fn lemma_run_ignored_inverts(desc: Descriptor, cfg: RunConfig)
    ensures
        (decision(desc, RunConfig { run_ignored: true, ..cfg }) == Decision::WillRun) <==> (
        decision(desc, RunConfig { run_ignored: false, ..cfg }) != Decision::WillRun),
{
}

/// A case that nothing rules out runs exactly when its ignored mark and
/// the run's handling of ignored cases agree, and is skipped otherwise.
pub proof fn lemma_ignored_mark_decides(desc: Descriptor, cfg: RunConfig)
    requires
        !excluded(desc, cfg),
    ensures
        decision(desc, cfg) == (if desc.ignored == cfg.run_ignored {
            Decision::WillRun
        } else {
            Decision::WillSkip
        }),
{
}

/// Whatever its ignored mark says, a case that is ruled out is filtered
/// out in a plain run, and runs in a run of the ignored cases.
pub proof fn lemma_excluded_is_filtered_out(desc: Descriptor, cfg: RunConfig)
    requires
        excluded(desc, cfg),
    ensures
        decision(desc, cfg) == (if cfg.run_ignored {
            Decision::WillRun
        } else {
            Decision::FilteredOut
        }),
{
}

/// Every case that an exact filter lets through is let through by the
/// same filter taken as a substring.
pub proof fn lemma_exact_filter_is_narrower(name: Seq<char>, filter: Option<Seq<char>>)
    requires
        !name_excluded(name, filter, true),
    ensures
        !name_excluded(name, filter, false),
{
    if filter is Some {
        lemma_substring_basics(name, name);
    }
}

} // verus!
