//! The library-wide laws: the shape of report lines for successful and for
//! HTTP-failed checks, and the determinism of a run's aggregation under
//! reordering of completions.
use vstd::prelude::*;
use crate::digits::dec_str;
use crate::dispatch::count_successful;
use crate::dispatch::lines_spec;
use crate::models::LinkCheckResult;
use crate::models::LinkCheckerError;
use crate::models::error_message_spec;
use crate::models::is_ok_spec;
use crate::models::label_spec;
use crate::models::report_spec;

verus! {

/// `prefix` is the start of `s`.
pub open spec fn text_starts_with(s: Seq<char>, prefix: Seq<char>) -> bool {
    prefix.len() <= s.len() && s.take(prefix.len() as int) == prefix
}

/// `sub` occurs somewhere in `s`.
pub open spec fn text_contains(s: Seq<char>, sub: Seq<char>) -> bool {
    exists|i: int| 0 <= i && i + sub.len() <= s.len() && #[trigger] s.subrange(i, i + sub.len())
        == sub
}

/// The report line of every check whose endpoint answered 200 starts with
/// `[OK]` and contains the link's URL.
pub proof fn lemma_ok_report_shape(r: LinkCheckResult)
    requires
        is_ok_spec(r),
    ensures
        text_starts_with(report_spec(r), "[OK]"@),
        text_contains(report_spec(r), r.url@),
{
    reveal_strlit("[OK] ");
    reveal_strlit("[OK]");
    reveal_strlit(" -> ");
    let line = report_spec(r);
    assert(line.take(4) =~= "[OK]"@);
    let at: int = line.len() as int - r.url@.len() as int;
    assert(line.subrange(at, at + r.url@.len()) =~= r.url@);
}

/// The report line of every check whose endpoint answered with a status in
/// [400, 599] — a `HttpError` outcome — starts with `[FAIL]` and contains
/// `HTTP status error: {code}`.
pub proof fn lemma_http_error_report_shape(r: LinkCheckResult, code: u16)
    requires
        r.status == Err::<u16, LinkCheckerError>(LinkCheckerError::HttpError(code)),
    ensures
        text_starts_with(report_spec(r), "[FAIL]"@),
        text_contains(report_spec(r), "HTTP status error: "@ + dec_str(code as nat)),
{
    reveal_strlit("[FAIL] ");
    reveal_strlit("[FAIL]");
    reveal_strlit(" -> ");
    reveal_strlit(" (Reason: ");
    reveal_strlit(")");
    let line = report_spec(r);
    assert(line.take(6) =~= "[FAIL]"@);
    let msg = "HTTP status error: "@ + dec_str(code as nat);
    assert(error_message_spec(LinkCheckerError::HttpError(code)) == msg);
    let at: int = 7 + label_spec(r).len() as int + 4 + r.url@.len() as int + 10;
    assert(line.subrange(at, at + msg.len()) =~= msg);
}

proof fn lemma_count_successful_remove(rs: Seq<LinkCheckResult>, j: int)
    requires
        0 <= j < rs.len(),
    ensures
        count_successful(rs) == count_successful(rs.remove(j)) + (if is_ok_spec(rs[j]) {
            1int
        } else {
            0int
        }),
    decreases rs.len(),
{
    if j == rs.len() - 1 {
        assert(rs.remove(j) =~= rs.drop_last());
    } else {
        assert(rs.remove(j).drop_last() =~= rs.drop_last().remove(j));
        assert(rs.remove(j).last() == rs.last());
        lemma_count_successful_remove(rs.drop_last(), j);
        assert(rs.drop_last()[j] == rs[j]);
    }
}

proof fn lemma_lines_remove(rs: Seq<LinkCheckResult>, j: int)
    requires
        0 <= j < rs.len(),
    ensures
        lines_spec(rs.remove(j)) =~= lines_spec(rs).remove(j),
{
}

/// Idempotence of a run's aggregation. The drain order is completion order
/// and may differ between two runs over the same probe outcomes; whenever two
/// runs complete with the same multiset of results, they have the same number
/// of checks, the same number of successes — hence the same tally and the
/// same summary line — and the same multiset of report lines.
pub proof fn lemma_run_idempotent(rs1: Seq<LinkCheckResult>, rs2: Seq<LinkCheckResult>)
    requires
        rs1.to_multiset() == rs2.to_multiset(),
    ensures
        rs1.len() == rs2.len(),
        count_successful(rs1) == count_successful(rs2),
        lines_spec(rs1).to_multiset() == lines_spec(rs2).to_multiset(),
    decreases rs1.len(),
{
    broadcast use vstd::seq_lib::group_to_multiset_ensures;
    broadcast use vstd::multiset::group_multiset_axioms;

    if rs1.len() == 0 {
        assert(rs1.to_multiset().len() == 0);
        assert(rs2.len() == 0);
        assert(lines_spec(rs1) =~= lines_spec(rs2));
    } else {
        let x = rs1.last();
        let i1 = rs1.len() - 1;
        assert(rs1[i1 as int] == x);
        assert(rs1.contains(x));
        assert(rs2.to_multiset().count(x) > 0);
        assert(rs2.contains(x));
        let j = choose|j: int| 0 <= j < rs2.len() && rs2[j] == x;
        let r1 = rs1.remove(i1 as int);
        let r2 = rs2.remove(j);
        assert(r1.to_multiset() == rs1.to_multiset().remove(x));
        assert(r2.to_multiset() == rs2.to_multiset().remove(x));
        lemma_run_idempotent(r1, r2);
        lemma_count_successful_remove(rs1, i1 as int);
        lemma_count_successful_remove(rs2, j);

        lemma_lines_remove(rs1, i1 as int);
        lemma_lines_remove(rs2, j);
        let v = report_spec(x);
        let m1 = lines_spec(rs1).to_multiset();
        let m2 = lines_spec(rs2).to_multiset();
        assert(lines_spec(rs1)[i1 as int] == v);
        assert(lines_spec(rs1).contains(v));
        assert(m1.count(v) > 0);
        assert(lines_spec(rs2)[j] == v);
        assert(lines_spec(rs2).contains(v));
        assert(m2.count(v) > 0);
        assert(lines_spec(r1).to_multiset() == m1.remove(v));
        assert(lines_spec(r2).to_multiset() == m2.remove(v));
        assert forall|y: Seq<char>| m1.count(y) == m2.count(y) by {
            if y == v {
                assert(m1.remove(v).count(v) == m1.count(v) - 1);
                assert(m2.remove(v).count(v) == m2.count(v) - 1);
            } else {
                assert(m1.remove(v).count(y) == m1.count(y));
                assert(m2.remove(v).count(y) == m2.count(y));
            }
        }
        assert(m1 =~= m2);
    }
}

} // verus!
