use policy_server::admission::{
    AdmissionResponse, ResponseStatus, StatusCause, StatusDetails,
};
use policy_server::group::{Expression, GroupMember, PolicyGroup};
use policy_server::policy::{
    LoadedPolicy, Module, PolicyMode, PolicyRef, SandboxOutcome, Verdict,
};

fn member(name: &str, mode: PolicyMode) -> GroupMember {
    GroupMember {
        name: name.to_string(),
        policy: LoadedPolicy {
            reference: PolicyRef {
                artifact_url: format!("registry://{name}"),
                mode,
                allowed_to_mutate: false,
                settings: String::new(),
                context_aware_resources: vec![],
            },
            module: Module::Compiled(0),
        },
    }
}

fn named(name: &str) -> Expression {
    Expression::Member(name.to_string())
}

fn not(inner: Expression) -> Expression {
    Expression::Not(Box::new(inner))
}

fn and(left: Expression, right: Expression) -> Expression {
    Expression::And(Box::new(left), Box::new(right))
}

fn or(left: Expression, right: Expression) -> Expression {
    Expression::Or(Box::new(left), Box::new(right))
}

fn group(names: &[&str], expression: Expression) -> PolicyGroup {
    PolicyGroup {
        members: names.iter().map(|name| member(name, PolicyMode::Protect)).collect(),
        expression,
        message: "The group policy rejected your request".to_string(),
    }
}

fn allow() -> AdmissionResponse {
    AdmissionResponse::accept("uid".to_string())
}

fn deny(message: &str) -> AdmissionResponse {
    AdmissionResponse::reject("uid".to_string(), Some(message.to_string()), None)
}

fn cause(member: &str, message: &str) -> StatusCause {
    StatusCause { member: member.to_string(), message: Some(message.to_string()) }
}

#[test]
fn group_of_one_denies_with_its_own_message_and_the_cause() {
    let just = group(&["pod_privileged"], named("pod_privileged"));
    assert!(just.is_well_formed());
    let response =
        just.respond("uid".to_string(), &vec![deny("Privileged container is not allowed")]).unwrap();
    assert!(!response.allowed);
    let status = response.status.clone().expect("status should be filled");
    assert_eq!(status.message, Some("The group policy rejected your request".to_string()));
    assert_eq!(status.code, None);
    let causes = status.details.expect("details should be filled").causes;
    assert_eq!(causes.len(), 1);
    assert_eq!(causes[0].message, Some("Privileged container is not allowed".to_string()));
    assert_eq!(causes[0].member, "pod_privileged");
    assert_eq!(response.warnings, None);
    assert_eq!(response.patch, None);
    assert_eq!(response.patch_type, None);
    assert_eq!(response.uid, "uid");
}

#[test]
fn group_of_one_allows_without_status() {
    let just = group(&["pod_privileged"], named("pod_privileged"));
    let response = just.respond("uid".to_string(), &vec![allow()]).unwrap();
    assert_eq!(response, allow());
    assert_eq!(response.status, None);
    assert_eq!(response.warnings, None);
}

#[test]
fn member_that_mutates_fails_with_a_fixed_error() {
    let raw = member("raw_mutation", PolicyMode::Protect);
    let verdict = Verdict {
        accepted: true,
        message: None,
        code: None,
        patch: Some("W10=".to_string()),
        warnings: vec![],
    };
    let response = raw.respond("uid".to_string(), SandboxOutcome::Verdict(verdict));
    assert_eq!(
        response,
        AdmissionResponse::reject_internal_server_error(
            "uid".to_string(),
            "mutation is not allowed inside of policy group".to_string()
        )
    );
}

#[test]
fn group_rejects_a_mutation_attempt() {
    let just = group(&["raw_mutation"], named("raw_mutation"));
    let verdict = Verdict {
        accepted: true,
        message: None,
        code: None,
        patch: Some("W10=".to_string()),
        warnings: vec![],
    };
    let of_member = just.members[0].respond("uid".to_string(), SandboxOutcome::Verdict(verdict));
    let response = just.respond("uid".to_string(), &vec![of_member]).unwrap();
    assert!(!response.allowed);
    assert_eq!(response.patch, None);
    assert_eq!(
        response.status,
        Some(ResponseStatus {
            message: Some("The group policy rejected your request".to_string()),
            code: None,
            details: Some(StatusDetails {
                causes: vec![cause("raw_mutation", "mutation is not allowed inside of policy group")],
            }),
        })
    );
    assert_eq!(response.warnings, None);
}

#[test]
fn member_without_mutation_is_answered_like_a_policy() {
    let protect = member("a", PolicyMode::Protect);
    let verdict = Verdict {
        accepted: false,
        message: Some("no".to_string()),
        code: Some(400),
        patch: None,
        warnings: vec!["w".to_string()],
    };
    let response = protect.respond("uid".to_string(), SandboxOutcome::Verdict(verdict.clone()));
    assert!(!response.allowed);
    assert_eq!(response.status.unwrap().code, Some(400));
    assert_eq!(response.warnings, Some(vec!["w".to_string()]));
    let monitor = member("a", PolicyMode::Monitor);
    let rewritten = monitor.respond("uid".to_string(), SandboxOutcome::Verdict(verdict));
    assert!(rewritten.allowed);
    assert_eq!(rewritten.warnings, Some(vec!["w".to_string(), "no".to_string()]));
    let late = protect.respond("uid".to_string(), SandboxOutcome::DeadlineExceeded);
    assert_eq!(late.status.unwrap().code, Some(500));
}

#[test]
fn every_denying_member_is_a_cause_once_and_in_order() {
    let all = group(&["a", "b", "c", "d"], and(and(named("a"), named("b")), and(named("c"), named("d"))));
    let response = all
        .respond(
            "uid".to_string(),
            &vec![deny("first"), allow(), deny("third"), AdmissionResponse {
                status: None,
                ..deny("")
            }],
        )
        .unwrap();
    assert!(!response.allowed);
    let causes = response.status.unwrap().details.unwrap().causes;
    assert_eq!(
        causes,
        vec![
            cause("a", "first"),
            cause("c", "third"),
            StatusCause { member: "d".to_string(), message: None },
        ]
    );
}

#[test]
fn expression_decides_not_the_number_of_denials() {
    let either = group(&["a", "b"], or(named("a"), named("b")));
    let response = either.respond("uid".to_string(), &vec![deny("first"), allow()]).unwrap();
    assert!(response.allowed);
    assert_eq!(response.status, None);
    let both = either.respond("uid".to_string(), &vec![deny("first"), deny("second")]).unwrap();
    assert!(!both.allowed);
    assert_eq!(
        both.status.unwrap().details.unwrap().causes,
        vec![cause("a", "first"), cause("b", "second")]
    );
}

#[test]
fn negation_rejects_when_its_member_allows() {
    let negated = group(&["a"], not(named("a")));
    let response = negated.respond("uid".to_string(), &vec![allow()]).unwrap();
    assert!(!response.allowed);
    let status = response.status.unwrap();
    assert_eq!(status.message, Some("The group policy rejected your request".to_string()));
    assert_eq!(status.details, Some(StatusDetails { causes: vec![] }));
    let allowed = negated.respond("uid".to_string(), &vec![deny("no")]).unwrap();
    assert!(allowed.allowed);
    assert_eq!(allowed.status, None);
}

#[test]
fn warnings_of_all_members_are_passed_on() {
    let either = group(&["a", "b", "c"], or(named("a"), or(named("b"), named("c"))));
    let warn = |response: AdmissionResponse, warnings: &[&str]| AdmissionResponse {
        warnings: Some(warnings.iter().map(|w| w.to_string()).collect()),
        ..response
    };
    let responses = vec![warn(allow(), &["one", "two"]), deny("no"), warn(deny("no"), &["three"])];
    let response = either.respond("uid".to_string(), &responses).unwrap();
    assert!(response.allowed);
    assert_eq!(
        response.warnings,
        Some(vec!["one".to_string(), "two".to_string(), "three".to_string()])
    );
    let rejecting = group(&["a", "b", "c"], and(named("a"), named("b")));
    let rejected = rejecting.respond("uid".to_string(), &responses).unwrap();
    assert!(!rejected.allowed);
    assert_eq!(
        rejected.warnings,
        Some(vec!["one".to_string(), "two".to_string(), "three".to_string()])
    );
}

#[test]
fn expression_is_evaluated_by_member_name() {
    let members: Vec<GroupMember> =
        ["a", "b"].iter().map(|name| member(name, PolicyMode::Protect)).collect();
    let responses = vec![allow(), deny("no")];
    assert!(named("a").evaluate(&members, &responses));
    assert!(!named("b").evaluate(&members, &responses));
    assert!(not(named("b")).evaluate(&members, &responses));
    assert!(!and(named("a"), named("b")).evaluate(&members, &responses));
    assert!(or(named("b"), named("a")).evaluate(&members, &responses));
    assert!(and(named("a"), not(named("b"))).evaluate(&members, &responses));
}

#[test]
fn malformed_groups_are_recognised() {
    assert!(group(&["a", "b"], and(named("a"), not(named("b")))).is_well_formed());
    assert!(!group(&["a", "b"], and(named("a"), named("c"))).is_well_formed());
    assert!(!group(&["a", "a"], named("a")).is_well_formed());
    assert!(!group(&[], named("a")).is_well_formed());
    assert!(named("a").knows_names(&vec![member("a", PolicyMode::Protect)]));
    assert!(!or(named("a"), named("b")).knows_names(&vec![member("a", PolicyMode::Protect)]));
}

#[test]
fn copy_of_an_expression_is_equal_to_it() {
    let expression = or(and(named("a"), not(named("b"))), named("c"));
    assert_eq!(expression.duplicate(), expression);
}

#[test]
fn group_answers_only_to_one_response_for_each_member() {
    let either = group(&["a", "b"], or(named("a"), named("b")));
    assert_eq!(either.respond("uid".to_string(), &vec![allow()]), None);
    assert_eq!(either.respond("uid".to_string(), &vec![allow(), allow(), allow()]), None);
    assert_eq!(either.respond("uid".to_string(), &vec![]), None);
    assert!(either.respond("uid".to_string(), &vec![allow(), allow()]).is_some());
    assert_eq!(group(&[], not(named("a"))).respond("uid".to_string(), &vec![]), Some(allow()));
}

#[test]
fn unknown_name_allows_nothing_and_the_first_of_a_name_decides() {
    let members: Vec<GroupMember> =
        ["a", "b", "a"].iter().map(|name| member(name, PolicyMode::Protect)).collect();
    let responses = vec![deny("no"), allow(), allow()];
    assert!(!named("a").evaluate(&members, &responses));
    assert!(named("b").evaluate(&members, &responses));
    assert!(!named("c").evaluate(&members, &responses));
    assert!(not(named("c")).evaluate(&members, &responses));
    // a member without a response allows nothing
    assert!(!named("b").evaluate(&members, &vec![allow()]));
    assert!(named("a").evaluate(&members, &vec![allow()]));
}
