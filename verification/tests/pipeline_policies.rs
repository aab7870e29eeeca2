use identify_unused_iam::errors::AuditError;
use identify_unused_iam::errors::FetchFailure;
use identify_unused_iam::unused_policies::collect_unused_policies;
use identify_unused_iam::unused_policies::is_attached;
use identify_unused_iam::unused_policies::is_unused;
use identify_unused_iam::unused_policies::policy_arns;
use identify_unused_iam::unused_policies::Policy;
use identify_unused_iam::unused_policies::PolicyReply;

fn policy_with_count(name: &str, attachment_count: Option<i64>) -> PolicyReply {
    PolicyReply {
        policy: Some(Policy {
            policy_name: Some(name.to_string()),
            arn: Some(format!("arn:aws:iam::123456789012:policy/{}", name)),
            path: Some("/".to_string()),
            create_date: Some(0),
            description: Some("a policy".to_string()),
            attachment_count,
        }),
    }
}

fn failure(key: &str) -> FetchFailure {
    FetchFailure {
        operation: "get-policy".to_string(),
        key: Some(key.to_string()),
        message: "throttled".to_string(),
    }
}

#[test]
fn only_an_absent_count_is_unused() {
    assert!(is_unused(&None));
    assert!(!is_unused(&Some(0)));
    assert!(!is_unused(&Some(7)));
    assert!(!is_unused(&Some(-2)));
}

#[test]
fn any_present_count_counts_as_attached() {
    let p = |attachment_count| Policy {
        policy_name: None,
        arn: None,
        path: None,
        create_date: None,
        description: None,
        attachment_count,
    };
    assert!(!is_attached(&p(None)));
    assert!(is_attached(&p(Some(0))));
    assert!(is_attached(&p(Some(3))));
    assert!(is_attached(&p(Some(-1))));
}

#[test]
fn report_holds_only_policies_without_a_count() {
    let details = vec![
        Ok(policy_with_count("orphan", None)),
        Ok(policy_with_count("zero", Some(0))),
        Ok(policy_with_count("in-use", Some(4))),
    ];
    let rows = collect_unused_policies(details).expect("no fetch failed");
    assert_eq!(rows.len(), 1);
    assert_eq!(rows[0].policy_name, Some("orphan".to_string()));
    assert_eq!(rows[0].arn, Some("arn:aws:iam::123456789012:policy/orphan".to_string()));
}

#[test]
fn one_failure_fails_the_policy_run() {
    let details = vec![
        Ok(policy_with_count("orphan", None)),
        Err(failure("p1")),
        Err(failure("p2")),
    ];
    let err = collect_unused_policies(details).expect_err("two fetches failed");
    assert_eq!(
        err,
        AuditError::AggregatedFailure { failures: vec![failure("p1"), failure("p2")] }
    );
}

#[test]
fn reply_without_policy_yields_no_row() {
    let rows = collect_unused_policies(vec![Ok(PolicyReply { policy: None })])
        .expect("no fetch failed");
    assert_eq!(rows, vec![]);
}

#[test]
fn policy_arns_keeps_every_listed_policy() {
    let stub = |arn: Option<&str>| Policy {
        policy_name: None,
        arn: arn.map(|s| s.to_string()),
        path: None,
        create_date: None,
        description: None,
        attachment_count: None,
    };
    let arns = policy_arns(Some(vec![stub(Some("arn:p1")), stub(None), stub(Some("arn:p2"))]));
    assert_eq!(
        arns,
        vec![Some("arn:p1".to_string()), None, Some("arn:p2".to_string())]
    );
    assert_eq!(policy_arns(None), Vec::<Option<String>>::new());
}

#[test]
fn empty_input_yields_empty_policy_report() {
    let rows = collect_unused_policies(vec![]).expect("nothing to fail");
    assert_eq!(rows, vec![]);
}
