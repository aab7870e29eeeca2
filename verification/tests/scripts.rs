use identify_unused_iam::unused_policies::render_delete_policies_scripts;
use identify_unused_iam::unused_policies::UnusedPolicy;
use identify_unused_iam::unused_roles::render_delete_roles_scripts;
use identify_unused_iam::unused_roles::AttachedPolicies;
use identify_unused_iam::unused_roles::AttachedPolicy;

fn attached(arns: Vec<Option<&str>>) -> AttachedPolicies {
    AttachedPolicies {
        attached_policies: Some(
            arns.into_iter()
                .map(|a| AttachedPolicy { policy_arn: a.map(|s| s.to_string()) })
                .collect(),
        ),
    }
}

#[test]
fn role_block_detaches_then_deletes_then_separates() {
    let urpr = vec![(Some("r".to_string()), attached(vec![Some("p1"), Some("p2")]))];
    let lines = render_delete_roles_scripts(&urpr);
    assert_eq!(
        lines,
        vec![
            "aws iam detach-role-policy --role-name 'r' --policy-arn 'p1'".to_string(),
            "aws iam detach-role-policy --role-name 'r' --policy-arn 'p2'".to_string(),
            "aws iam delete-role --role-name 'r'".to_string(),
            "".to_string(),
        ]
    );
}

#[test]
fn unnamed_role_yields_no_commands() {
    let urpr = vec![(None, attached(vec![Some("p1")]))];
    assert_eq!(render_delete_roles_scripts(&urpr), Vec::<String>::new());
}

#[test]
fn role_without_attachment_listing_is_deleted_directly() {
    let urpr = vec![(Some("r".to_string()), AttachedPolicies { attached_policies: None })];
    assert_eq!(
        render_delete_roles_scripts(&urpr),
        vec!["aws iam delete-role --role-name 'r'".to_string(), "".to_string()]
    );
}

#[test]
fn attachment_without_arn_yields_no_detach_command() {
    let urpr = vec![(Some("r".to_string()), attached(vec![None, Some("p2")]))];
    assert_eq!(
        render_delete_roles_scripts(&urpr),
        vec![
            "aws iam detach-role-policy --role-name 'r' --policy-arn 'p2'".to_string(),
            "aws iam delete-role --role-name 'r'".to_string(),
            "".to_string(),
        ]
    );
}

#[test]
fn role_blocks_follow_the_input_order() {
    let urpr = vec![
        (Some("a".to_string()), attached(vec![])),
        (Some("b".to_string()), attached(vec![Some("p")])),
    ];
    assert_eq!(
        render_delete_roles_scripts(&urpr),
        vec![
            "aws iam delete-role --role-name 'a'".to_string(),
            "".to_string(),
            "aws iam detach-role-policy --role-name 'b' --policy-arn 'p'".to_string(),
            "aws iam delete-role --role-name 'b'".to_string(),
            "".to_string(),
        ]
    );
}

fn unused_policy(arn: Option<&str>) -> UnusedPolicy {
    UnusedPolicy {
        policy_name: Some("p".to_string()),
        arn: arn.map(|s| s.to_string()),
        path: None,
        create_date: None,
        description: None,
    }
}

#[test]
fn policy_script_deletes_by_arn() {
    let ups = vec![
        unused_policy(Some("arn:aws:iam::123456789012:policy/p1")),
        unused_policy(Some("arn:aws:iam::123456789012:policy/p2")),
    ];
    assert_eq!(
        render_delete_policies_scripts(&ups),
        vec![
            "aws iam delete-policy --policy-arn 'arn:aws:iam::123456789012:policy/p1'".to_string(),
            "aws iam delete-policy --policy-arn 'arn:aws:iam::123456789012:policy/p2'".to_string(),
        ]
    );
}

#[test]
fn policy_without_arn_yields_no_command() {
    assert_eq!(render_delete_policies_scripts(&vec![unused_policy(None)]), Vec::<String>::new());
}
