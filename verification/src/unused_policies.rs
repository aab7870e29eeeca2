//! Classification of customer-managed policies as unused, and the policy
//! audit pipeline's decision logic.
//!
//! Only a policy whose attachment count is absent altogether counts as
//! unused: any reported count, zero included, marks the policy as attached
//! and keeps it out of the report. This polarity is deliberate and binding,
//! even though a count of zero might look unused at first sight.

use vstd::prelude::*;
use vstd::string::StringExecFns;
use crate::errors::AuditError;
use crate::errors::FetchFailure;
use crate::errors::spec_failures;
use crate::text::spec_views;

verus! {

/// One policy's detail, as the detail call reports it.
#[derive(Debug, PartialEq, Eq)]
pub struct Policy {
    pub policy_name: Option<String>,
    pub arn: Option<String>,
    pub path: Option<String>,
    pub create_date: Option<i64>,
    pub description: Option<String>,
    pub attachment_count: Option<i64>,
}

/// The reply of one per-policy detail call; the policy itself may be
/// absent.
#[derive(Debug, PartialEq, Eq)]
pub struct PolicyReply {
    pub policy: Option<Policy>,
}

/// One report row: an unused policy.
#[derive(Debug, PartialEq, Eq)]
pub struct UnusedPolicy {
    pub policy_name: Option<String>,
    pub arn: Option<String>,
    pub path: Option<String>,
    pub create_date: Option<i64>,
    pub description: Option<String>,
}

/// A policy is unused exactly when its attachment count is absent; any
/// present value, zero or even a negative one, counts as attached.
pub open spec fn spec_policy_is_unused(attachment_count: Option<i64>) -> bool {
    attachment_count is None
}

/// Decides whether an attachment count marks a policy unused.
pub fn is_unused(attachment_count: &Option<i64>) -> (b: bool)
    ensures
        b == spec_policy_is_unused(*attachment_count),
{
    match attachment_count {
        None => true,
        Some(_) => false,
    }
}

/// Decides whether a policy counts as attached, which keeps it out of the
/// unused-policy report.
pub fn is_attached(p: &Policy) -> (b: bool)
    ensures
        b == !spec_policy_is_unused(p.attachment_count),
{
    !is_unused(&p.attachment_count)
}

/// A policy is unused if and only if its attachment count is absent: every
/// present value, zero included, yields "attached".
pub proof fn lemma_policy_unused_iff_count_absent(attachment_count: Option<i64>)
    ensures
        spec_policy_is_unused(attachment_count) <==> attachment_count is None,
        forall|count: i64| !spec_policy_is_unused(Some(count)),
{
}

/// The report row made from one policy's detail.
pub open spec fn spec_policy_row(p: Policy) -> UnusedPolicy {
    UnusedPolicy {
        policy_name: p.policy_name,
        arn: p.arn,
        path: p.path,
        create_date: p.create_date,
        description: p.description,
    }
}

/// The report rows selected from a sequence of per-policy fetch results, in
/// order: the successfully fetched policies whose attachment count is
/// absent. A reply without a policy yields no row.
pub open spec fn spec_unused_policies(
    rs: Seq<Result<PolicyReply, FetchFailure>>,
) -> Seq<UnusedPolicy>
    decreases rs.len(),
{
    if rs.len() == 0 {
        Seq::empty()
    } else {
        let init = spec_unused_policies(rs.drop_last());
        match rs.last() {
            Ok(g) => match g.policy {
                Some(p) => if spec_policy_is_unused(p.attachment_count) {
                    init.push(spec_policy_row(p))
                } else {
                    init
                },
                None => init,
            },
            Err(_) => init,
        }
    }
}

/// Moves one policy's detail into its report row.
fn policy_row_of(p: Policy) -> (u: UnusedPolicy)
    ensures
        u == spec_policy_row(p),
{
    UnusedPolicy {
        policy_name: p.policy_name,
        arn: p.arn,
        path: p.path,
        create_date: p.create_date,
        description: p.description,
    }
}

/// Turns the collected per-policy fetch results into the unused-policy
/// report.
///
/// The report holds exactly the successfully fetched policies whose
/// attachment count is absent, in input order. If any fetch failed, the
/// whole run fails instead with one aggregated error naming every failure:
/// a partial report is never returned.
pub fn collect_unused_policies(
    details: Vec<Result<PolicyReply, FetchFailure>>,
) -> (r: Result<Vec<UnusedPolicy>, AuditError>)
    ensures
        r is Ok <==> spec_failures(details@).len() == 0,
        r is Ok ==> r->Ok_0@ == spec_unused_policies(details@),
        r is Err ==> (r->Err_0 matches AuditError::AggregatedFailure { failures }
            && failures@ == spec_failures(details@)),
{
    let ghost orig = details@;
    let mut rest = details;
    let mut rows: Vec<UnusedPolicy> = Vec::new();
    let mut failures: Vec<FetchFailure> = Vec::new();
    let ghost mut k: int = 0;
    proof {
        assert(orig.skip(0) =~= orig);
    }
    while rest.len() > 0
        invariant
            0 <= k <= orig.len(),
            rest@ == orig.skip(k),
            rows@ == spec_unused_policies(orig.take(k)),
            failures@ == spec_failures(orig.take(k)),
        decreases rest.len(),
    {
        proof {
            assert(rest@[0] == orig[k]);
            assert(orig.take(k + 1).drop_last() =~= orig.take(k));
            assert(orig.take(k + 1).last() == orig[k]);
            assert(orig.skip(k).remove(0) =~= orig.skip(k + 1));
        }
        let d = rest.remove(0);
        match d {
            Ok(g) => match g.policy {
                Some(p) => {
                    if is_unused(&p.attachment_count) {
                        rows.push(policy_row_of(p));
                    }
                },
                None => {},
            },
            Err(e) => failures.push(e),
        }
        proof {
            k = k + 1;
        }
    }
    proof {
        assert(orig.take(k) =~= orig);
    }
    if failures.len() > 0 {
        Err(AuditError::AggregatedFailure { failures })
    } else {
        Ok(rows)
    }
}

/// The ARNs to fetch details for, one per listed policy and in order, each
/// as the listing carried it; the listing itself may be absent, which
/// yields no fetches at all.
pub open spec fn spec_policy_arns(policies: Seq<Policy>) -> Seq<Option<String>>
    decreases policies.len(),
{
    if policies.len() == 0 {
        Seq::empty()
    } else {
        spec_policy_arns(policies.drop_last()).push(policies.last().arn)
    }
}

/// Extracts the policy ARNs to fetch details for from the primary listing,
/// which may itself be absent.
pub fn policy_arns(policies: Option<Vec<Policy>>) -> (arns: Vec<Option<String>>)
    ensures
        arns@ == (match policies {
            Some(v) => spec_policy_arns(v@),
            None => Seq::<Option<String>>::empty(),
        }),
{
    match policies {
        None => Vec::new(),
        Some(v) => {
            let ghost orig = v@;
            let mut rest = v;
            let mut arns: Vec<Option<String>> = Vec::new();
            let ghost mut k: int = 0;
            proof {
                assert(orig.skip(0) =~= orig);
            }
            while rest.len() > 0
                invariant
                    0 <= k <= orig.len(),
                    rest@ == orig.skip(k),
                    arns@ == spec_policy_arns(orig.take(k)),
                decreases rest.len(),
            {
                proof {
                    assert(rest@[0] == orig[k]);
                    assert(orig.take(k + 1).drop_last() =~= orig.take(k));
                    assert(orig.take(k + 1).last() == orig[k]);
                    assert(orig.skip(k).remove(0) =~= orig.skip(k + 1));
                }
                let p = rest.remove(0);
                arns.push(p.arn);
                proof {
                    k = k + 1;
                }
            }
            proof {
                assert(orig.take(k) =~= orig);
            }
            arns
        },
    }
}

/// The command that deletes one policy.
pub open spec fn spec_delete_policy_line(arn: Seq<char>) -> Seq<char> {
    "aws iam delete-policy --policy-arn '"@ + arn + "'"@
}

/// The whole remediation script for the unused policies: one delete
/// command per policy with an ARN, in order; a row without an ARN yields
/// nothing.
pub open spec fn spec_policy_script_lines(ups: Seq<UnusedPolicy>) -> Seq<Seq<char>>
    decreases ups.len(),
{
    if ups.len() == 0 {
        Seq::empty()
    } else {
        let init = spec_policy_script_lines(ups.drop_last());
        match ups.last().arn {
            Some(arn) => init.push(spec_delete_policy_line(arn@)),
            None => init,
        }
    }
}

/// Builds one delete command.
fn delete_policy_line(arn: &String) -> (line: String)
    ensures
        line@ == spec_delete_policy_line(arn@),
{
    let mut line: String = "aws iam delete-policy --policy-arn '".to_owned();
    line.append(arn.as_str());
    line.append("'");
    proof {
        assert(line@ =~= spec_delete_policy_line(arn@));
    }
    line
}

/// Renders the remediation script for the unused policies: one delete
/// command per policy that carries an ARN.
pub fn render_delete_policies_scripts(
    unused_policies: &Vec<UnusedPolicy>,
) -> (lines: Vec<String>)
    ensures
        spec_views(lines@) == spec_policy_script_lines(unused_policies@),
{
    let mut lines: Vec<String> = Vec::new();
    let mut i: usize = 0;
    proof {
        assert(spec_views(lines@) =~= spec_policy_script_lines(unused_policies@.take(0)));
    }
    while i < unused_policies.len()
        invariant
            i <= unused_policies@.len(),
            spec_views(lines@) == spec_policy_script_lines(unused_policies@.take(i as int)),
        decreases unused_policies@.len() - i,
    {
        proof {
            assert(unused_policies@.take(i as int + 1).drop_last() =~= unused_policies@.take(
                i as int,
            ));
            assert(unused_policies@.take(i as int + 1).last() == unused_policies@[i as int]);
        }
        match &unused_policies[i].arn {
            Some(arn) => {
                let line = delete_policy_line(arn);
                let ghost lv = line@;
                let ghost prev = lines@;
                lines.push(line);
                proof {
                    assert(spec_views(lines@) =~= spec_views(prev).push(lv));
                    assert(spec_views(lines@) =~= spec_policy_script_lines(unused_policies@.take(
                        i as int + 1,
                    )));
                }
            },
            None => {},
        }
        i = i + 1;
    }
    proof {
        assert(unused_policies@.take(i as int) =~= unused_policies@);
    }
    lines
}

} // verus!
