//! The dispatcher's sequential half: draining completed check results into
//! report lines and a running tally, and rendering the final summary line.
//! The concurrent fan-out hands every completion to this single drain, so the
//! tally has one writer.
use vstd::prelude::*;
use crate::digits::dec_str;
use crate::digits::u64_to_string;
use crate::models::LinkCheckResult;
use crate::models::is_ok_spec;
use crate::models::report_spec;

verus! {

/// The two counters of a run: every drained result counts toward `total`,
/// and those whose outcome is a 200 success toward `successful`.
#[derive(Debug, Clone, Copy, PartialEq, Eq, Structural)]
pub struct Tally {
    pub total: usize,
    pub successful: usize,
}

/// A tally never counts more successes than drained results.
pub open spec fn tally_wf(t: Tally) -> bool {
    t.successful <= t.total
}

/// How many results of `rs` are 200 successes.
pub open spec fn count_successful(rs: Seq<LinkCheckResult>) -> nat
    decreases rs.len(),
{
    if rs.len() == 0 {
        0
    } else {
        count_successful(rs.drop_last()) + if is_ok_spec(rs.last()) {
            1nat
        } else {
            0nat
        }
    }
}

/// The report lines of a drained sequence, in drain order.
pub open spec fn lines_spec(rs: Seq<LinkCheckResult>) -> Seq<Seq<char>> {
    rs.map_values(|r: LinkCheckResult| report_spec(r))
}

impl Tally {
    /// A fresh tally: nothing drained, nothing successful.
    pub fn new() -> (r: Tally)
        ensures
            r.total == 0,
            r.successful == 0,
    {
        Tally { total: 0, successful: 0 }
    }

    /// Counts one drained result: `total` always, `successful` exactly when
    /// the outcome is a 200 success.
    pub fn record(&mut self, result: &LinkCheckResult)
        requires
            tally_wf(*old(self)),
            old(self).total < usize::MAX,
        ensures
            final(self).total == old(self).total + 1,
            final(self).successful == old(self).successful + (if is_ok_spec(*result) {
                1int
            } else {
                0int
            }),
            tally_wf(*final(self)),
    {
        self.total = self.total + 1;
        if result.is_ok() {
            self.successful = self.successful + 1;
        }
    }
}

proof fn lemma_count_successful_take_step(rs: Seq<LinkCheckResult>, i: int)
    requires
        0 <= i < rs.len(),
    ensures
        count_successful(rs.take(i + 1)) == count_successful(rs.take(i)) + (if is_ok_spec(rs[i]) {
            1int
        } else {
            0int
        }),
{
    assert(rs.take(i + 1).drop_last() =~= rs.take(i));
    assert(rs.take(i + 1).last() == rs[i]);
}

/// Drains a completed run, in the order the completions arrived: one report
/// line per result, and the final tally, whose `total` is exactly the number
/// of results and whose `successful` is exactly the number of 200 successes.
pub fn drain_completions(results: Vec<LinkCheckResult>) -> (out: (Vec<String>, Tally))
    ensures
        out.0.deep_view() == lines_spec(results@),
        out.1.total == results@.len(),
        out.1.successful == count_successful(results@),
        tally_wf(out.1),
{
    let mut lines: Vec<String> = Vec::new();
    let mut tally = Tally::new();
    let n = results.len();
    let mut idx: usize = 0;
    while idx < n
        invariant
            idx <= n,
            n == results@.len(),
            lines@.len() == idx,
            forall|i: int| 0 <= i < idx ==> lines@[i]@ == report_spec(results@[i]),
            tally.total == idx,
            tally.successful == count_successful(results@.take(idx as int)),
            tally_wf(tally),
        decreases n - idx,
    {
        let r = &results[idx];
        tally.record(r);
        lines.push(r.produce_link_checker_report());
        proof {
            lemma_count_successful_take_step(results@, idx as int);
        }
        idx = idx + 1;
    }
    proof {
        assert(results@.take(n as int) =~= results@);
        assert(lines.deep_view() =~= lines_spec(results@));
    }
    (lines, tally)
}

/// The summary line of a run, exactly as `render_summary` renders it.
pub open spec fn summary_spec(t: Tally) -> Seq<char> {
    "> [Summary] "@ + dec_str(t.successful as nat) + " links worked out of "@ + dec_str(
        t.total as nat,
    ) + " total links checked."@
}

/// The one stable output line of the whole system, byte for byte:
/// `> [Summary] {successful} links worked out of {total} total links checked.`
pub fn render_summary(tally: &Tally) -> (r: String)
    ensures
        r@ == summary_spec(*tally),
{
    let mut s = "> [Summary] ".to_owned();
    let worked = u64_to_string(tally.successful as u64);
    s.append(worked.as_str());
    s.append(" links worked out of ");
    let total = u64_to_string(tally.total as u64);
    s.append(total.as_str());
    s.append(" total links checked.");
    proof {
        assert(s@ =~= summary_spec(*tally));
    }
    s
}

} // verus!
