use policy_server::admission::AdmissionResponse;
use policy_server::api::{
    api_routes, read_review, readiness_routes, receive, Admission, Handler, Method, Reply,
    ReviewFields, Route,
};
use policy_server::environment::{
    BuildError, EnvironmentEntry, EvaluationEnvironment, Plan, PolicyEntry, Ran,
};
use policy_server::group::{Expression, GroupMember, PolicyGroup};
use policy_server::policy::{
    Dispatch, EntryPoint, LoadedPolicy, Module, PolicyMode, PolicyRef, ReviewRequest,
    SandboxOutcome, Verdict,
};

fn loaded(mode: PolicyMode, allowed_to_mutate: bool, module: Module) -> LoadedPolicy {
    LoadedPolicy {
        reference: PolicyRef {
            artifact_url: "registry://artifact".to_string(),
            mode,
            allowed_to_mutate,
            settings: String::new(),
            context_aware_resources: vec![],
        },
        module,
    }
}

fn single(id: &str, policy: LoadedPolicy) -> EnvironmentEntry {
    EnvironmentEntry { id: id.to_string(), entry: PolicyEntry::Policy(policy) }
}

fn group_of(id: &str, members: Vec<(&str, LoadedPolicy)>, expression: Expression) -> EnvironmentEntry {
    EnvironmentEntry {
        id: id.to_string(),
        entry: PolicyEntry::Group(PolicyGroup {
            members: members
                .into_iter()
                .map(|(name, policy)| GroupMember { name: name.to_string(), policy })
                .collect(),
            expression,
            message: "The group policy rejected your request".to_string(),
        }),
    }
}

fn leaf(name: &str) -> Expression {
    Expression::Member(name.to_string())
}

fn entries() -> Vec<EnvironmentEntry> {
    vec![
        single("pod-privileged", loaded(PolicyMode::Protect, false, Module::Compiled(0))),
        single("raw-mutation", loaded(PolicyMode::Protect, true, Module::Compiled(1))),
        single("sleep", loaded(PolicyMode::Protect, false, Module::Compiled(2))),
        group_of(
            "group-policy-just-pod-privileged",
            vec![("pod_privileged", loaded(PolicyMode::Protect, false, Module::Compiled(0)))],
            leaf("pod_privileged"),
        ),
        group_of(
            "group-policy-just-raw-mutation",
            vec![("raw_mutation", loaded(PolicyMode::Protect, false, Module::Compiled(1)))],
            leaf("raw_mutation"),
        ),
    ]
}

fn environment() -> EvaluationEnvironment {
    EvaluationEnvironment::build(entries(), None, Some(2), false).unwrap()
}

fn pod_review() -> ReviewRequest {
    ReviewRequest { uid: "uid-7".to_string(), namespace: Some("default".to_string()) }
}

fn verdict(accepted: bool, message: Option<&str>, patch: Option<&str>) -> SandboxOutcome {
    SandboxOutcome::Verdict(Verdict {
        accepted,
        message: message.map(|m| m.to_string()),
        code: None,
        patch: patch.map(|p| p.to_string()),
        warnings: vec![],
    })
}

fn carry_out(dispatch: Dispatch, outcome: SandboxOutcome) -> Ran {
    match dispatch {
        Dispatch::Respond(response) => Ran::Answered(response),
        Dispatch::Invoke { .. } => Ran::Outcome(outcome),
    }
}

fn evaluate(
    environment: &EvaluationEnvironment,
    entry_point: EntryPoint,
    id: &str,
    review: Option<&ReviewRequest>,
    outcome: SandboxOutcome,
) -> Reply {
    let admission = receive(environment, entry_point, &id.to_string(), review);
    if let Some(reply) = admission.refusal() {
        return reply;
    }
    let uid = review.unwrap().uid.clone();
    match admission {
        Admission::Evaluate(Plan::Respond(response)) => Reply::Review(response),
        Admission::Evaluate(Plan::Policy { index, dispatch }) => {
            let ran = vec![carry_out(dispatch, outcome)];
            Reply::Review(environment.conclude(index, uid, ran).unwrap())
        }
        Admission::Evaluate(Plan::Group { index, dispatches }) => {
            let ran = dispatches.into_iter().map(|d| carry_out(d, outcome.clone())).collect();
            Reply::Review(environment.conclude(index, uid, ran).unwrap())
        }
        _ => unreachable!(),
    }
}

fn reviewed(reply: Reply) -> AdmissionResponse {
    match reply {
        Reply::Review(response) => response,
        other => panic!("no review: {other:?}"),
    }
}

#[test]
fn deny_path() {
    let reply = evaluate(
        &environment(),
        EntryPoint::Validate,
        "pod-privileged",
        Some(&pod_review()),
        verdict(false, Some("Privileged container is not allowed"), None),
    );
    assert_eq!(reply.status(), 200);
    let response = reviewed(reply);
    assert!(!response.allowed);
    assert_eq!(response.uid, "uid-7");
    let status = response.status.unwrap();
    assert_eq!(status.message, Some("Privileged container is not allowed".to_string()));
    assert_eq!(status.code, None);
    assert_eq!(status.details, None);
}

#[test]
fn allow_path() {
    let reply = evaluate(
        &environment(),
        EntryPoint::Validate,
        "pod-privileged",
        Some(&pod_review()),
        verdict(true, None, None),
    );
    assert_eq!(reply.status(), 200);
    let response = reviewed(reply);
    assert!(response.allowed);
    assert_eq!(response.status, None);
}

#[test]
fn audit_path_answers_like_validation() {
    let reply = evaluate(
        &environment(),
        EntryPoint::Audit,
        "pod-privileged",
        Some(&pod_review()),
        verdict(false, Some("Privileged container is not allowed"), None),
    );
    assert_eq!(reply.status(), 200);
    let response = reviewed(reply);
    assert!(!response.allowed);
    assert_eq!(
        response.status.unwrap().message,
        Some("Privileged container is not allowed".to_string())
    );
}

#[test]
fn raw_mutation() {
    let reply = evaluate(
        &environment(),
        EntryPoint::ValidateRaw,
        "raw-mutation",
        Some(&pod_review()),
        verdict(true, None, Some("W10=")),
    );
    assert_eq!(reply.status(), 200);
    let response = reviewed(reply);
    assert!(response.allowed);
    assert_eq!(response.status, None);
    assert!(response.patch.is_some());
    assert_eq!(response.patch_type, Some(policy_server::admission::PatchType::JSONPatch));
}

#[test]
fn group_denies_privileged_pod() {
    let reply = evaluate(
        &environment(),
        EntryPoint::Validate,
        "group-policy-just-pod-privileged",
        Some(&pod_review()),
        verdict(false, Some("Privileged container is not allowed"), None),
    );
    assert_eq!(reply.status(), 200);
    let response = reviewed(reply);
    assert!(!response.allowed);
    let status = response.status.clone().expect("status should be filled");
    assert_eq!(status.message, Some("The group policy rejected your request".to_string()));
    assert_eq!(response.warnings, None);
    let causes = status.details.expect("details should be filled").causes;
    assert_eq!(causes.len(), 1);
    assert_eq!(causes[0].message, Some("Privileged container is not allowed".to_string()));
}

#[test]
fn group_allows_unprivileged_pod() {
    let reply = evaluate(
        &environment(),
        EntryPoint::Validate,
        "group-policy-just-pod-privileged",
        Some(&pod_review()),
        verdict(true, None, None),
    );
    let response = reviewed(reply);
    assert!(response.allowed);
    assert_eq!(response.status, None);
    assert_eq!(response.warnings, None);
}

#[test]
fn group_rejects_mutation_attempt() {
    let reply = evaluate(
        &environment(),
        EntryPoint::ValidateRaw,
        "group-policy-just-raw-mutation",
        Some(&pod_review()),
        verdict(true, None, Some("W10=")),
    );
    assert_eq!(reply.status(), 200);
    let response = reviewed(reply);
    assert!(!response.allowed);
    assert!(response.patch.is_none());
    assert_eq!(response.patch_type, None);
    assert_eq!(response.warnings, None);
    let status = response.status.expect("status should be filled");
    assert_eq!(status.message, Some("The group policy rejected your request".to_string()));
    let causes = status.details.expect("details should be filled").causes;
    assert_eq!(causes.len(), 1);
    assert_eq!(
        causes[0].message,
        Some("mutation is not allowed inside of policy group".to_string())
    );
}

#[test]
fn deadline() {
    let reply = evaluate(
        &environment(),
        EntryPoint::Validate,
        "sleep",
        Some(&pod_review()),
        SandboxOutcome::DeadlineExceeded,
    );
    assert_eq!(reply.status(), 200);
    let response = reviewed(reply);
    assert!(!response.allowed);
    let status = response.status.unwrap();
    assert_eq!(status.code, Some(500));
    assert_eq!(
        status.message,
        Some(
            "internal server error: Guest call failure: guest code interrupted, execution deadline exceeded"
                .to_string()
        )
    );
}

#[test]
fn policy_within_its_deadline_is_answered() {
    let reply = evaluate(
        &environment(),
        EntryPoint::Validate,
        "sleep",
        Some(&pod_review()),
        verdict(true, None, None),
    );
    assert_eq!(reply.status(), 200);
    assert!(reviewed(reply).allowed);
}

#[test]
fn unknown_policy() {
    for entry_point in [EntryPoint::Validate, EntryPoint::ValidateRaw, EntryPoint::Audit] {
        let reply = evaluate(
            &environment(),
            entry_point,
            "does_not_exist",
            Some(&pod_review()),
            verdict(true, None, None),
        );
        assert_eq!(reply, Reply::NotFound);
        assert_eq!(reply.status(), 404);
    }
    assert_eq!(environment().find(&"does_not_exist".to_string()), None);
    assert_eq!(environment().validate(&"does_not_exist".to_string(), &pod_review()), Plan::NotFound);
}

#[test]
fn members_of_a_group_are_not_addressable() {
    let reply = evaluate(
        &environment(),
        EntryPoint::Validate,
        "pod_privileged",
        Some(&pod_review()),
        verdict(true, None, None),
    );
    assert_eq!(reply.status(), 404);
}

#[test]
fn malformed_body() {
    for (entry_point, id) in [
        (EntryPoint::Validate, "pod-privileged"),
        (EntryPoint::ValidateRaw, "raw-mutation"),
        (EntryPoint::Audit, "pod-privileged"),
        (EntryPoint::Validate, "does_not_exist"),
    ] {
        let reply = evaluate(&environment(), entry_point, id, None, verdict(true, None, None));
        assert_eq!(reply, Reply::Unprocessable);
        assert_eq!(reply.status(), 422);
    }
}

#[test]
fn broken_policy_answers_with_its_error() {
    let error = "Error while downloading policy 'wrong_url' from ghcr.io/kubewarden/tests/not_existing:v0.1.0: not found";
    let mut all = entries();
    all.push(single("wrong_url", loaded(PolicyMode::Protect, false, Module::Broken(error.to_string()))));
    let environment = EvaluationEnvironment::build(all, None, None, true).unwrap();
    let reply = evaluate(
        &environment,
        EntryPoint::Audit,
        "wrong_url",
        Some(&pod_review()),
        verdict(true, None, None),
    );
    assert_eq!(reply.status(), 200);
    let response = reviewed(reply);
    assert!(!response.allowed);
    let status = response.status.unwrap();
    assert_eq!(status.code, Some(500));
    assert_eq!(status.message, Some(error.to_string()));
}

#[test]
fn repeated_request_gets_the_same_response() {
    let first = evaluate(
        &environment(),
        EntryPoint::Validate,
        "group-policy-just-pod-privileged",
        Some(&pod_review()),
        verdict(false, Some("no"), None),
    );
    let again = ReviewRequest { uid: "uid-8".to_string(), ..pod_review() };
    let second = evaluate(
        &environment(),
        EntryPoint::Validate,
        "group-policy-just-pod-privileged",
        Some(&again),
        verdict(false, Some("no"), None),
    );
    let (first, second) = (reviewed(first), reviewed(second));
    assert_eq!(second.uid, "uid-8");
    assert_eq!(AdmissionResponse { uid: "uid-8".to_string(), ..first }, second);
}

#[test]
fn always_accepted_namespace_is_let_through() {
    let environment =
        EvaluationEnvironment::build(entries(), Some("default".to_string()), None, false).unwrap();
    let plan = environment.validate(&"pod-privileged".to_string(), &pod_review());
    assert_eq!(
        plan,
        Plan::Policy {
            index: 0,
            dispatch: Dispatch::Respond(AdmissionResponse::accept("uid-7".to_string())),
        }
    );
    let reply = evaluate(
        &environment,
        EntryPoint::Validate,
        "pod-privileged",
        Some(&pod_review()),
        verdict(false, Some("no"), None),
    );
    assert!(reviewed(reply).allowed);
    // another namespace is evaluated
    let elsewhere = ReviewRequest { namespace: Some("kube-system".to_string()), ..pod_review() };
    let reply = evaluate(
        &environment,
        EntryPoint::Validate,
        "pod-privileged",
        Some(&elsewhere),
        verdict(false, Some("no"), None),
    );
    assert!(!reviewed(reply).allowed);
}

#[test]
fn always_accepted_namespace_is_let_through_by_groups() {
    let mut all = entries();
    all.push(group_of(
        "negated",
        vec![("a", loaded(PolicyMode::Protect, false, Module::Compiled(0)))],
        Expression::Not(Box::new(leaf("a"))),
    ));
    let environment =
        EvaluationEnvironment::build(all, Some("default".to_string()), None, false).unwrap();
    assert_eq!(
        environment.validate(&"negated".to_string(), &pod_review()),
        Plan::Respond(AdmissionResponse::accept("uid-7".to_string()))
    );
    for outcome in [verdict(true, None, None), verdict(false, Some("no"), None)] {
        let reply = evaluate(
            &environment,
            EntryPoint::Validate,
            "negated",
            Some(&pod_review()),
            outcome,
        );
        assert_eq!(reviewed(reply), AdmissionResponse::accept("uid-7".to_string()));
    }
    let cluster_wide = ReviewRequest { namespace: None, ..pod_review() };
    let reply = evaluate(
        &environment,
        EntryPoint::Validate,
        "negated",
        Some(&cluster_wide),
        verdict(true, None, None),
    );
    assert!(!reviewed(reply).allowed);
}

#[test]
fn plan_names_the_module_and_the_entry_point() {
    let environment = environment();
    assert_eq!(
        environment.validate_raw(&"raw-mutation".to_string(), &pod_review()),
        Plan::Policy {
            index: 1,
            dispatch: Dispatch::Invoke {
                module: 1,
                entry_point: EntryPoint::ValidateRaw,
                settings: String::new(),
                deadline_seconds: Some(2),
                context_aware_resources: vec![],
            },
        }
    );
    assert_eq!(
        environment.audit(&"group-policy-just-raw-mutation".to_string(), &pod_review()),
        Plan::Group {
            index: 4,
            dispatches: vec![Dispatch::Invoke {
                module: 1,
                entry_point: EntryPoint::Audit,
                settings: String::new(),
                deadline_seconds: Some(2),
                context_aware_resources: vec![],
            }],
        }
    );
    assert_eq!(environment.find(&"sleep".to_string()), Some(2));
}

#[test]
fn duplicate_identifier_is_refused() {
    let mut all = entries();
    all.push(single("sleep", loaded(PolicyMode::Protect, false, Module::Compiled(9))));
    assert_eq!(
        EvaluationEnvironment::build(all, None, None, true),
        Err(BuildError::DuplicateId("sleep".to_string()))
    );
}

#[test]
fn malformed_group_is_refused() {
    let mut all = entries();
    all.push(group_of(
        "broken-group",
        vec![("a", loaded(PolicyMode::Protect, false, Module::Compiled(0)))],
        leaf("b"),
    ));
    assert_eq!(
        EvaluationEnvironment::build(all, None, None, true),
        Err(BuildError::MalformedGroup("broken-group".to_string()))
    );
}

#[test]
fn broken_policy_is_refused_unless_errors_are_tolerated() {
    let broken = || {
        let mut all = entries();
        all.push(group_of(
            "group",
            vec![
                ("a", loaded(PolicyMode::Protect, false, Module::Compiled(0))),
                ("b", loaded(PolicyMode::Protect, false, Module::Broken("second".to_string()))),
            ],
            leaf("a"),
        ));
        all.push(single("late", loaded(PolicyMode::Protect, false, Module::Broken("third".to_string()))));
        all
    };
    assert_eq!(
        EvaluationEnvironment::build(broken(), None, None, false),
        Err(BuildError::BrokenPolicy("second".to_string()))
    );
    let environment =
        EvaluationEnvironment::build(broken(), Some("ns".to_string()), Some(5), true).unwrap();
    assert_eq!(environment.entries, broken());
    assert_eq!(environment.always_accept_admission_reviews_on_namespace, Some("ns".to_string()));
    assert_eq!(environment.policy_evaluation_limit_seconds, Some(5));
    assert_eq!(environment.entries[5].entry.fault(), Some("second".to_string()));
    assert_eq!(environment.entries[0].entry.fault(), None);
    assert!(environment.entries[5].entry.is_well_formed());
}

#[test]
fn main_listener_routes() {
    let evaluation = vec![
        Route { method: Method::Post, path: "/audit/{policy_id}", handler: Handler::Audit },
        Route { method: Method::Post, path: "/validate/{policy_id}", handler: Handler::Validate },
        Route { method: Method::Post, path: "/validate_raw/{policy_id}", handler: Handler::ValidateRaw },
    ];
    assert_eq!(api_routes(false), evaluation);
    let mut with_pprof = evaluation.clone();
    with_pprof.push(Route { method: Method::Get, path: "/debug/pprof/cpu", handler: Handler::PprofCpu });
    with_pprof.push(Route { method: Method::Get, path: "/debug/pprof/heap", handler: Handler::PprofHeap });
    assert_eq!(api_routes(true), with_pprof);
}

#[test]
fn readiness_listener_routes() {
    assert_eq!(
        readiness_routes(),
        vec![Route { method: Method::Get, path: "/readiness", handler: Handler::Readiness }]
    );
}

#[test]
fn handlers_choose_the_entry_point() {
    assert_eq!(Handler::Audit.entry_point(), Some(EntryPoint::Audit));
    assert_eq!(Handler::Validate.entry_point(), Some(EntryPoint::Validate));
    assert_eq!(Handler::ValidateRaw.entry_point(), Some(EntryPoint::ValidateRaw));
    assert_eq!(Handler::Readiness.entry_point(), None);
    assert_eq!(Handler::PprofCpu.entry_point(), None);
    assert_eq!(Handler::PprofHeap.entry_point(), None);
}

#[test]
fn reply_statuses() {
    assert_eq!(Reply::NotFound.status(), 404);
    assert_eq!(Reply::Unprocessable.status(), 422);
    assert_eq!(Reply::Review(AdmissionResponse::accept("u".to_string())).status(), 200);
    assert_eq!(
        Reply::Review(AdmissionResponse::reject_internal_server_error(
            "u".to_string(),
            "boom".to_string()
        ))
        .status(),
        200
    );
}

#[test]
fn admission_review_needs_a_request_with_a_uid() {
    let fields = |has_request: bool, request_is_object: bool, uid: Option<&str>| ReviewFields {
        has_request,
        request_is_object,
        uid: uid.map(|u| u.to_string()),
        namespace: Some("default".to_string()),
    };
    for entry_point in [EntryPoint::Validate, EntryPoint::Audit] {
        assert_eq!(
            read_review(entry_point, fields(true, true, Some("uid-7"))),
            Some(pod_review())
        );
        // the body `{}`
        assert_eq!(read_review(entry_point, fields(false, false, None)), None);
        assert_eq!(read_review(entry_point, fields(true, true, None)), None);
        assert_eq!(read_review(entry_point, fields(true, false, Some("uid-7"))), None);
        assert_eq!(read_review(entry_point, fields(false, true, Some("uid-7"))), None);
    }
}

#[test]
fn raw_review_needs_a_request_only() {
    let fields = |has_request: bool, uid: Option<&str>| ReviewFields {
        has_request,
        request_is_object: false,
        uid: uid.map(|u| u.to_string()),
        namespace: None,
    };
    assert_eq!(
        read_review(EntryPoint::ValidateRaw, fields(true, Some("uid-7"))),
        Some(ReviewRequest { uid: "uid-7".to_string(), namespace: None })
    );
    assert_eq!(
        read_review(EntryPoint::ValidateRaw, fields(true, None)),
        Some(ReviewRequest { uid: String::new(), namespace: None })
    );
    assert_eq!(read_review(EntryPoint::ValidateRaw, fields(false, Some("uid-7"))), None);
}

#[test]
fn malformed_body_is_unprocessable_on_every_route() {
    let empty = ReviewFields { has_request: false, request_is_object: false, uid: None, namespace: None };
    for (entry_point, id) in [
        (EntryPoint::Validate, "pod-privileged"),
        (EntryPoint::ValidateRaw, "raw-mutation"),
        (EntryPoint::Audit, "pod-privileged"),
    ] {
        let review = read_review(entry_point, empty.clone());
        let admission = receive(&environment(), entry_point, &id.to_string(), review.as_ref());
        assert_eq!(admission, Admission::Unprocessable);
        assert_eq!(admission.refusal().map(|reply| reply.status()), Some(422));
    }
}

#[test]
fn conclusion_needs_one_outcome_for_each_dispatch() {
    let environment = environment();
    let ran = || Ran::Outcome(verdict(true, None, None));
    assert_eq!(environment.conclude(0, "u".to_string(), vec![]), None);
    assert_eq!(environment.conclude(0, "u".to_string(), vec![ran(), ran()]), None);
    assert_eq!(environment.conclude(3, "u".to_string(), vec![]), None);
    assert_eq!(environment.conclude(5, "u".to_string(), vec![ran()]), None);
    assert_eq!(
        environment.conclude(0, "u".to_string(), vec![ran()]),
        Some(AdmissionResponse::accept("u".to_string()))
    );
    assert_eq!(
        environment.conclude(3, "u".to_string(), vec![ran()]),
        Some(AdmissionResponse::accept("u".to_string()))
    );
}
