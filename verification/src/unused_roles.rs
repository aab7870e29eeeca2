//! Classification of IAM roles as unused, and the role audit pipeline's
//! decision logic.
//!
//! A role is unused when the account has not assumed it for at least a given
//! number of whole days (90 by default), or has never assumed it at all.
//! Timestamps are Unix epoch nanoseconds; the caller supplies the evaluation
//! time. The fetching itself happens outside the library: the functions here
//! take the collected per-role fetch results and produce either the report
//! rows or the aggregated error.

use vstd::prelude::*;
use vstd::string::StringExecFns;
use crate::arn::is_service_role_arn;
use crate::text::spec_views;
use crate::arn::spec_is_service_role_arn;
use crate::errors::AuditError;
use crate::errors::FetchFailure;
use crate::errors::spec_failures;

verus! {

/// Nanoseconds in one day.
pub const NANOS_PER_DAY: u64 = 86_400_000_000_000;

/// Days of inactivity after which a role counts as unused, when the caller
/// names no threshold.
pub const DEFAULT_STALENESS_DAYS: u64 = 90;

/// A role's last-used record: when it was last assumed (epoch nanoseconds),
/// and in which region. A role that was never assumed may carry a record
/// whose timestamp is absent.
#[derive(Debug, PartialEq, Eq)]
pub struct RoleLastUsed {
    pub last_used_date: Option<i64>,
    pub region: Option<String>,
}

/// One role's detail, as the detail call reports it.
#[derive(Debug, PartialEq, Eq)]
pub struct Role {
    pub role_name: Option<String>,
    pub arn: Option<String>,
    pub path: Option<String>,
    pub create_date: Option<i64>,
    pub role_last_used: Option<RoleLastUsed>,
    pub description: Option<String>,
}

/// The reply of one per-role detail call; the role itself may be absent.
#[derive(Debug, PartialEq, Eq)]
pub struct RoleReply {
    pub role: Option<Role>,
}

/// One report row: an unused role.
#[derive(Debug, PartialEq, Eq)]
pub struct UnusedRole {
    pub role_name: Option<String>,
    pub arn: Option<String>,
    pub path: Option<String>,
    pub created_date: Option<i64>,
    pub role_last_used: Option<RoleLastUsed>,
    pub description: Option<String>,
}

/// One policy attached to a role, as the attachment listing reports it.
#[derive(Debug, PartialEq, Eq)]
pub struct AttachedPolicy {
    pub policy_arn: Option<String>,
}

/// The reply of one per-role attachment listing.
#[derive(Debug, PartialEq, Eq)]
pub struct AttachedPolicies {
    pub attached_policies: Option<Vec<AttachedPolicy>>,
}

/// The number of whole days in a duration of `diff` nanoseconds, truncating
/// toward zero: partial days do not count, in either direction.
pub open spec fn spec_whole_days(diff: int) -> int {
    if diff >= 0 {
        diff / (NANOS_PER_DAY as int)
    } else {
        -((-diff) / (NANOS_PER_DAY as int))
    }
}

/// The staleness threshold in days: the caller's value, or the default.
pub open spec fn spec_staleness(last_accessed: Option<u64>) -> int {
    match last_accessed {
        Some(days) => days as int,
        None => DEFAULT_STALENESS_DAYS as int,
    }
}

/// A last-used timestamp marks a role unused exactly when the whole days
/// elapsed from it to `now` reach the staleness threshold.
pub open spec fn spec_is_unused(last_accessed: Option<u64>, last_used_date: int, now: int) -> bool {
    spec_whole_days(now - last_used_date) >= spec_staleness(last_accessed)
}

/// Decides whether a last-used timestamp (epoch nanoseconds) is at least the
/// staleness threshold of whole days before `now`.
pub fn is_unused(last_accessed: &Option<u64>, last_used_date: i64, now: i64) -> (b: bool)
    ensures
        b == spec_is_unused(*last_accessed, last_used_date as int, now as int),
{
    let staleness: u64 = match last_accessed {
        Some(days) => *days,
        None => DEFAULT_STALENESS_DAYS,
    };
    let diff: i128 = (now as i128) - (last_used_date as i128);
    if diff >= 0 {
        let days: u128 = (diff as u128) / (NANOS_PER_DAY as u128);
        days >= staleness as u128
    } else {
        let behind: u128 = (-diff) as u128;
        proof {
            if behind < NANOS_PER_DAY {
                assert(behind as int / (NANOS_PER_DAY as int) == 0) by (nonlinear_arith)
                    requires 0 <= behind < NANOS_PER_DAY;
            } else {
                assert(behind as int / (NANOS_PER_DAY as int) >= 1) by (nonlinear_arith)
                    requires behind >= NANOS_PER_DAY > 0;
            }
        }
        staleness == 0 && behind < NANOS_PER_DAY as u128
    }
}

/// A fetched role is unused when it has a role and its last-used timestamp
/// is stale; a role without a last-used record, or with a record whose
/// timestamp is absent, counts as never used, which marks it unused unless
/// the caller excluded never-used roles.
pub open spec fn spec_is_unused_role(
    g: RoleReply,
    last_accessed: Option<u64>,
    exclude_last_accessed_none: bool,
    now: int,
) -> bool {
    match g.role {
        None => false,
        Some(role) => match role.role_last_used {
            None => !exclude_last_accessed_none,
            Some(last_used) => match last_used.last_used_date {
                None => !exclude_last_accessed_none,
                Some(date) => spec_is_unused(last_accessed, date as int, now),
            },
        },
    }
}

/// Decides whether one fetched role is unused.
pub fn is_unused_role(
    g: &RoleReply,
    last_accessed: &Option<u64>,
    exclude_last_accessed_none: bool,
    now: i64,
) -> (b: bool)
    ensures
        b == spec_is_unused_role(*g, *last_accessed, exclude_last_accessed_none, now as int),
{
    match &g.role {
        None => false,
        Some(role) => match &role.role_last_used {
            None => !exclude_last_accessed_none,
            Some(last_used) => match last_used.last_used_date {
                None => !exclude_last_accessed_none,
                Some(date) => is_unused(last_accessed, date, now),
            },
        },
    }
}

/// A role that has never been used — its last-used record is absent, or the
/// record's timestamp is — is unused exactly when never-used roles are not
/// excluded, whatever the staleness threshold.
pub proof fn lemma_never_used_role(
    g: RoleReply,
    last_accessed: Option<u64>,
    exclude_last_accessed_none: bool,
    now: int,
)
    requires
        g.role is Some,
        g.role->Some_0.role_last_used is None
            || g.role->Some_0.role_last_used->Some_0.last_used_date is None,
    ensures
        spec_is_unused_role(g, last_accessed, exclude_last_accessed_none, now)
            == !exclude_last_accessed_none,
{
}

/// A role last used exactly the staleness threshold of days before `now` is
/// unused; one day less, and it is not: the threshold is inclusive.
pub proof fn lemma_staleness_boundary(last_accessed: Option<u64>, now: int)
    ensures
        spec_is_unused(
            last_accessed,
            now - spec_staleness(last_accessed) * (NANOS_PER_DAY as int),
            now,
        ),
        !spec_is_unused(
            last_accessed,
            now - (spec_staleness(last_accessed) - 1) * (NANOS_PER_DAY as int),
            now,
        ),
{
    let s = spec_staleness(last_accessed);
    assert(s >= 0);
    assert((s * (NANOS_PER_DAY as int)) >= 0 && (s * (NANOS_PER_DAY as int))
        / (NANOS_PER_DAY as int) == s) by (nonlinear_arith)
        requires s >= 0;
    if s >= 1 {
        assert(((s - 1) * (NANOS_PER_DAY as int)) >= 0 && ((s - 1) * (NANOS_PER_DAY as int))
            / (NANOS_PER_DAY as int) == s - 1) by (nonlinear_arith)
            requires s >= 1;
    } else {
        assert((s - 1) * (NANOS_PER_DAY as int) == -1 * (NANOS_PER_DAY as int));
        assert((NANOS_PER_DAY as int) / (NANOS_PER_DAY as int) == 1) by (nonlinear_arith);
    }
}

/// The fetched role carries an ARN that marks it as managed by a service.
pub open spec fn spec_service_marked(g: RoleReply) -> bool {
    &&& g.role is Some
    &&& g.role->Some_0.arn is Some
    &&& spec_is_service_role_arn(g.role->Some_0.arn->Some_0@)
}

/// Decides whether the fetched role carries a service-role ARN.
pub fn service_marked(g: &RoleReply) -> (b: bool)
    ensures
        b == spec_service_marked(*g),
{
    match &g.role {
        Some(role) => match &role.arn {
            Some(arn) => is_service_role_arn(arn.as_str()),
            None => false,
        },
        None => false,
    }
}

/// The fetched role enters the report: it is unused, and it is not set
/// aside as a service role (unless service roles are included).
pub open spec fn spec_keep_role(
    g: RoleReply,
    last_accessed: Option<u64>,
    include_service_roles: bool,
    exclude_last_accessed_none: bool,
    now: int,
) -> bool {
    &&& spec_is_unused_role(g, last_accessed, exclude_last_accessed_none, now)
    &&& (include_service_roles || !spec_service_marked(g))
}

/// The report row made from one role's detail.
pub open spec fn spec_row(role: Role) -> UnusedRole {
    UnusedRole {
        role_name: role.role_name,
        arn: role.arn,
        path: role.path,
        created_date: role.create_date,
        role_last_used: role.role_last_used,
        description: role.description,
    }
}

/// The report rows selected from a sequence of per-role fetch results, in
/// order: the successfully fetched roles that pass the classification and
/// the service-role filter.
pub open spec fn spec_unused_roles(
    rs: Seq<Result<RoleReply, FetchFailure>>,
    last_accessed: Option<u64>,
    include_service_roles: bool,
    exclude_last_accessed_none: bool,
    now: int,
) -> Seq<UnusedRole>
    decreases rs.len(),
{
    if rs.len() == 0 {
        Seq::empty()
    } else {
        let init = spec_unused_roles(
            rs.drop_last(),
            last_accessed,
            include_service_roles,
            exclude_last_accessed_none,
            now,
        );
        match rs.last() {
            Ok(g) => if spec_keep_role(
                g,
                last_accessed,
                include_service_roles,
                exclude_last_accessed_none,
                now,
            ) {
                init.push(spec_row(g.role->Some_0))
            } else {
                init
            },
            Err(_) => init,
        }
    }
}

/// Moves one role's detail into its report row.
fn row_of(role: Role) -> (u: UnusedRole)
    ensures
        u == spec_row(role),
{
    UnusedRole {
        role_name: role.role_name,
        arn: role.arn,
        path: role.path,
        created_date: role.create_date,
        role_last_used: role.role_last_used,
        description: role.description,
    }
}

/// Turns the collected per-role fetch results into the unused-role report.
///
/// The report holds exactly the successfully fetched roles that the
/// classifier marks unused and the service-role filter keeps, in input
/// order. If any fetch failed, the whole run fails instead with one
/// aggregated error naming every failure: a partial report is never
/// returned.
pub fn collect_unused_roles(
    details: Vec<Result<RoleReply, FetchFailure>>,
    last_accessed: &Option<u64>,
    include_service_roles: bool,
    exclude_last_accessed_none: bool,
    now: i64,
) -> (r: Result<Vec<UnusedRole>, AuditError>)
    ensures
        r is Ok <==> spec_failures(details@).len() == 0,
        r is Ok ==> r->Ok_0@ == spec_unused_roles(
            details@,
            *last_accessed,
            include_service_roles,
            exclude_last_accessed_none,
            now as int,
        ),
        r is Err ==> (r->Err_0 matches AuditError::AggregatedFailure { failures }
            && failures@ == spec_failures(details@)),
{
    let ghost orig = details@;
    let mut rest = details;
    let mut rows: Vec<UnusedRole> = Vec::new();
    let mut failures: Vec<FetchFailure> = Vec::new();
    let ghost mut k: int = 0;
    proof {
        assert(orig.skip(0) =~= orig);
    }
    while rest.len() > 0
        invariant
            0 <= k <= orig.len(),
            rest@ == orig.skip(k),
            rows@ == spec_unused_roles(
                orig.take(k),
                *last_accessed,
                include_service_roles,
                exclude_last_accessed_none,
                now as int,
            ),
            failures@ == spec_failures(orig.take(k)),
        decreases rest.len(),
    {
        proof {
            assert(rest@[0] == orig[k]);
            assert(orig.take(k + 1).drop_last() =~= orig.take(k));
            assert(orig.take(k + 1).last() == orig[k]);
            assert(orig.skip(k).remove(0) =~= orig.skip(k + 1));
        }
        let d = rest.remove(0);
        match d {
            Ok(g) => {
                let keep = is_unused_role(&g, last_accessed, exclude_last_accessed_none, now)
                    && (include_service_roles || !service_marked(&g));
                if keep {
                    match g.role {
                        Some(role) => rows.push(row_of(role)),
                        None => {
                            proof {
                                assert(false);
                            }
                        },
                    }
                }
            },
            Err(e) => failures.push(e),
        }
        proof {
            k = k + 1;
        }
    }
    proof {
        assert(orig.take(k) =~= orig);
    }
    if failures.len() > 0 {
        Err(AuditError::AggregatedFailure { failures })
    } else {
        Ok(rows)
    }
}

/// The names of the listed roles, in order; a listed role without a name is
/// passed over.
pub open spec fn spec_role_names(roles: Seq<Role>) -> Seq<String>
    decreases roles.len(),
{
    if roles.len() == 0 {
        Seq::empty()
    } else {
        let init = spec_role_names(roles.drop_last());
        match roles.last().role_name {
            Some(name) => init.push(name),
            None => init,
        }
    }
}

/// Extracts the role names to fetch details for from the primary listing,
/// which may itself be absent.
pub fn role_names(roles: Option<Vec<Role>>) -> (names: Vec<String>)
    ensures
        names@ == (match roles {
            Some(v) => spec_role_names(v@),
            None => Seq::<String>::empty(),
        }),
{
    match roles {
        None => Vec::new(),
        Some(v) => {
            let ghost orig = v@;
            let mut rest = v;
            let mut names: Vec<String> = Vec::new();
            let ghost mut k: int = 0;
            proof {
                assert(orig.skip(0) =~= orig);
            }
            while rest.len() > 0
                invariant
                    0 <= k <= orig.len(),
                    rest@ == orig.skip(k),
                    names@ == spec_role_names(orig.take(k)),
                decreases rest.len(),
            {
                proof {
                    assert(rest@[0] == orig[k]);
                    assert(orig.take(k + 1).drop_last() =~= orig.take(k));
                    assert(orig.take(k + 1).last() == orig[k]);
                    assert(orig.skip(k).remove(0) =~= orig.skip(k + 1));
                }
                let role = rest.remove(0);
                match role.role_name {
                    Some(name) => names.push(name),
                    None => {},
                }
                proof {
                    k = k + 1;
                }
            }
            proof {
                assert(orig.take(k) =~= orig);
            }
            names
        },
    }
}

/// The failures among the per-role attachment listings, in order.
pub open spec fn spec_attachment_failures(
    rs: Seq<(Option<String>, Result<AttachedPolicies, FetchFailure>)>,
) -> Seq<FetchFailure>
    decreases rs.len(),
{
    if rs.len() == 0 {
        Seq::empty()
    } else {
        let init = spec_attachment_failures(rs.drop_last());
        match rs.last().1 {
            Ok(_) => init,
            Err(e) => init.push(e),
        }
    }
}

/// The successful per-role attachment listings, in order, each beside the
/// role name it was fetched for.
pub open spec fn spec_attachment_pairs(
    rs: Seq<(Option<String>, Result<AttachedPolicies, FetchFailure>)>,
) -> Seq<(Option<String>, AttachedPolicies)>
    decreases rs.len(),
{
    if rs.len() == 0 {
        Seq::empty()
    } else {
        let init = spec_attachment_pairs(rs.drop_last());
        match rs.last().1 {
            Ok(l) => init.push((rs.last().0, l)),
            Err(_) => init,
        }
    }
}

/// Turns the collected per-role attachment listings into the list handed to
/// the script renderer.
///
/// On success the pairs keep their input order. If any listing failed, the
/// whole run fails instead with one aggregated error naming every failure,
/// exactly as the detail stage does.
pub fn collect_role_policies(
    results: Vec<(Option<String>, Result<AttachedPolicies, FetchFailure>)>,
) -> (r: Result<Vec<(Option<String>, AttachedPolicies)>, AuditError>)
    ensures
        r is Ok <==> spec_attachment_failures(results@).len() == 0,
        r is Ok ==> r->Ok_0@ == spec_attachment_pairs(results@),
        r is Err ==> (r->Err_0 matches AuditError::AggregatedFailure { failures }
            && failures@ == spec_attachment_failures(results@)),
{
    let ghost orig = results@;
    let mut rest = results;
    let mut pairs: Vec<(Option<String>, AttachedPolicies)> = Vec::new();
    let mut failures: Vec<FetchFailure> = Vec::new();
    let ghost mut k: int = 0;
    proof {
        assert(orig.skip(0) =~= orig);
    }
    while rest.len() > 0
        invariant
            0 <= k <= orig.len(),
            rest@ == orig.skip(k),
            pairs@ == spec_attachment_pairs(orig.take(k)),
            failures@ == spec_attachment_failures(orig.take(k)),
        decreases rest.len(),
    {
        proof {
            assert(rest@[0] == orig[k]);
            assert(orig.take(k + 1).drop_last() =~= orig.take(k));
            assert(orig.take(k + 1).last() == orig[k]);
            assert(orig.skip(k).remove(0) =~= orig.skip(k + 1));
        }
        let entry = rest.remove(0);
        let (key, outcome) = entry;
        match outcome {
            Ok(listing) => pairs.push((key, listing)),
            Err(e) => failures.push(e),
        }
        proof {
            k = k + 1;
        }
    }
    proof {
        assert(orig.take(k) =~= orig);
    }
    if failures.len() > 0 {
        Err(AuditError::AggregatedFailure { failures })
    } else {
        Ok(pairs)
    }
}

/// The command that detaches one policy from one role.
pub open spec fn spec_detach_line(name: Seq<char>, arn: Seq<char>) -> Seq<char> {
    "aws iam detach-role-policy --role-name '"@ + name + "' --policy-arn '"@ + arn + "'"@
}

/// The command that deletes one role.
pub open spec fn spec_delete_role_line(name: Seq<char>) -> Seq<char> {
    "aws iam delete-role --role-name '"@ + name + "'"@
}

/// The detach commands for a role's attached policies, in order; an entry
/// without a policy ARN yields no command.
pub open spec fn spec_detach_lines(name: Seq<char>, ps: Seq<AttachedPolicy>) -> Seq<Seq<char>>
    decreases ps.len(),
{
    if ps.len() == 0 {
        Seq::empty()
    } else {
        let init = spec_detach_lines(name, ps.drop_last());
        match ps.last().policy_arn {
            Some(arn) => init.push(spec_detach_line(name, arn@)),
            None => init,
        }
    }
}

/// The script block for one unused role: one detach command per attached
/// policy, the delete command, then one blank separator line. A role
/// without a name yields nothing.
pub open spec fn spec_role_entry_lines(e: (Option<String>, AttachedPolicies)) -> Seq<Seq<char>> {
    match e.0 {
        None => Seq::empty(),
        Some(name) => spec_detach_lines(
            name@,
            match e.1.attached_policies {
                Some(v) => v@,
                None => Seq::<AttachedPolicy>::empty(),
            },
        ).push(spec_delete_role_line(name@)).push(Seq::<char>::empty()),
    }
}

/// The whole remediation script for the unused roles, line by line.
pub open spec fn spec_role_script_lines(
    urpr: Seq<(Option<String>, AttachedPolicies)>,
) -> Seq<Seq<char>>
    decreases urpr.len(),
{
    if urpr.len() == 0 {
        Seq::empty()
    } else {
        spec_role_script_lines(urpr.drop_last()) + spec_role_entry_lines(urpr.last())
    }
}

/// Builds one detach command.
fn detach_line(name: &String, arn: &String) -> (line: String)
    ensures
        line@ == spec_detach_line(name@, arn@),
{
    let mut line: String = "aws iam detach-role-policy --role-name '".to_owned();
    line.append(name.as_str());
    line.append("' --policy-arn '");
    line.append(arn.as_str());
    line.append("'");
    proof {
        assert(line@ =~= spec_detach_line(name@, arn@));
    }
    line
}

/// Builds one delete command.
fn delete_role_line(name: &String) -> (line: String)
    ensures
        line@ == spec_delete_role_line(name@),
{
    let mut line: String = "aws iam delete-role --role-name '".to_owned();
    line.append(name.as_str());
    line.append("'");
    proof {
        assert(line@ =~= spec_delete_role_line(name@));
    }
    line
}

/// Renders the remediation script for the unused roles.
///
/// For each role with a name: one detach command per attached policy, in
/// order, then the delete command, then a blank separator line, so that
/// each role stands as its own block of independent commands.
pub fn render_delete_roles_scripts(
    urpr: &Vec<(Option<String>, AttachedPolicies)>,
) -> (lines: Vec<String>)
    ensures
        spec_views(lines@) == spec_role_script_lines(urpr@),
{
    let mut lines: Vec<String> = Vec::new();
    let mut i: usize = 0;
    proof {
        assert(spec_views(lines@) =~= spec_role_script_lines(urpr@.take(0)));
    }
    while i < urpr.len()
        invariant
            i <= urpr@.len(),
            spec_views(lines@) == spec_role_script_lines(urpr@.take(i as int)),
        decreases urpr@.len() - i,
    {
        proof {
            assert(urpr@.take(i as int + 1).drop_last() =~= urpr@.take(i as int));
            assert(urpr@.take(i as int + 1).last() == urpr@[i as int]);
        }
        let ghost base = spec_role_script_lines(urpr@.take(i as int));
        let entry = &urpr[i];
        match &entry.0 {
            None => {
                proof {
                    assert(spec_role_script_lines(urpr@.take(i as int + 1)) =~= base);
                }
            },
            Some(name) => {
                let ghost ps_view = match urpr@[i as int].1.attached_policies {
                    Some(v) => v@,
                    None => Seq::<AttachedPolicy>::empty(),
                };
                match &entry.1.attached_policies {
                    Some(ps) => {
                        let mut j: usize = 0;
                        proof {
                            assert(spec_detach_lines(name@, ps@.take(0)) =~= Seq::<
                                Seq<char>,
                            >::empty());
                            assert(spec_views(lines@) =~= base + spec_detach_lines(
                                name@,
                                ps@.take(0),
                            ));
                        }
                        while j < ps.len()
                            invariant
                                j <= ps@.len(),
                                spec_views(lines@) == base + spec_detach_lines(
                                    name@,
                                    ps@.take(j as int),
                                ),
                            decreases ps@.len() - j,
                        {
                            proof {
                                assert(ps@.take(j as int + 1).drop_last() =~= ps@.take(j as int));
                                assert(ps@.take(j as int + 1).last() == ps@[j as int]);
                            }
                            match &ps[j].policy_arn {
                                Some(arn) => {
                                    let line = detach_line(name, arn);
                                    let ghost lv = line@;
                                    let ghost prev = lines@;
                                    lines.push(line);
                                    proof {
                                        assert(spec_views(lines@) =~= spec_views(prev).push(lv));
                                        assert(spec_views(lines@) =~= base + spec_detach_lines(
                                            name@,
                                            ps@.take(j as int + 1),
                                        ));
                                    }
                                },
                                None => {},
                            }
                            j = j + 1;
                        }
                        proof {
                            assert(ps@.take(j as int) =~= ps@);
                        }
                    },
                    None => {
                        proof {
                            assert(spec_detach_lines(name@, ps_view) =~= Seq::<Seq<char>>::empty());
                            assert(spec_views(lines@) =~= base + spec_detach_lines(name@, ps_view));
                        }
                    },
                }
                let dline = delete_role_line(name);
                let ghost dv = dline@;
                let ghost prev = lines@;
                lines.push(dline);
                lines.push(String::new());
                proof {
                    assert(spec_views(lines@) =~= spec_views(prev).push(dv).push(
                        Seq::<char>::empty(),
                    ));
                    assert(spec_views(lines@) =~= base + spec_role_entry_lines(urpr@[i as int]));
                    assert(spec_role_script_lines(urpr@.take(i as int + 1)) =~= base
                        + spec_role_entry_lines(urpr@[i as int]));
                }
            },
        }
        i = i + 1;
    }
    proof {
        assert(urpr@.take(i as int) =~= urpr@);
    }
    lines
}

} // verus!
