use policy_server::admission::{AdmissionResponse, PatchType, ResponseStatus};
use policy_server::policy::{
    deadline_text, has_prefix, respond_as, ContextAwareResource, Dispatch, EntryPoint, LoadedPolicy, Module,
    PolicyMode, PolicyRef, ReviewRequest, SandboxOutcome, Verdict,
};

fn policy(mode: PolicyMode, allowed_to_mutate: bool, module: Module) -> LoadedPolicy {
    LoadedPolicy {
        reference: PolicyRef {
            artifact_url: "ghcr.io/kubewarden/tests/pod-privileged:v0.2.1".to_string(),
            mode,
            allowed_to_mutate,
            settings: "{}".to_string(),
            context_aware_resources: vec![],
        },
        module,
    }
}

fn review(namespace: Option<&str>) -> ReviewRequest {
    ReviewRequest { uid: "uid-1".to_string(), namespace: namespace.map(|n| n.to_string()) }
}

fn accepts() -> Verdict {
    Verdict { accepted: true, message: None, code: None, patch: None, warnings: vec![] }
}

fn rejects(message: &str) -> Verdict {
    Verdict {
        accepted: false,
        message: Some(message.to_string()),
        code: None,
        patch: None,
        warnings: vec![],
    }
}

#[test]
fn privileged_pod_is_denied() {
    let protect = policy(PolicyMode::Protect, false, Module::Compiled(0));
    let response = protect.respond(
        "uid-1".to_string(),
        SandboxOutcome::Verdict(rejects("Privileged container is not allowed")),
    );
    assert!(!response.allowed);
    assert_eq!(
        response.status,
        Some(ResponseStatus {
            message: Some("Privileged container is not allowed".to_string()),
            code: None,
            details: None,
        })
    );
    assert_eq!(response.uid, "uid-1");
    assert_eq!(response.patch, None);
    assert_eq!(response.patch_type, None);
    assert_eq!(response.warnings, None);
}

#[test]
fn unprivileged_pod_is_allowed() {
    let protect = policy(PolicyMode::Protect, false, Module::Compiled(0));
    let response = protect.respond("uid-1".to_string(), SandboxOutcome::Verdict(accepts()));
    assert_eq!(response, AdmissionResponse::accept("uid-1".to_string()));
    assert!(response.allowed);
    assert_eq!(response.status, None);
}

#[test]
fn rejection_keeps_the_code_of_the_verdict() {
    let verdict = Verdict { code: Some(403), ..rejects("forbidden") };
    let response =
        respond_as(PolicyMode::Protect, true, "u".to_string(), SandboxOutcome::Verdict(verdict));
    assert_eq!(
        response,
        AdmissionResponse::reject("u".to_string(), Some("forbidden".to_string()), Some(403))
    );
}

#[test]
fn mutation_is_kept_where_the_policy_may_mutate() {
    let verdict = Verdict { patch: Some("W10=".to_string()), ..accepts() };
    let response =
        respond_as(PolicyMode::Protect, true, "u".to_string(), SandboxOutcome::Verdict(verdict));
    assert!(response.allowed);
    assert_eq!(response.status, None);
    assert_eq!(response.patch, Some("W10=".to_string()));
    assert_eq!(response.patch_type, Some(PatchType::JSONPatch));
}

#[test]
fn mutation_is_dropped_where_the_policy_may_not_mutate() {
    let verdict = Verdict { patch: Some("W10=".to_string()), ..accepts() };
    let response =
        respond_as(PolicyMode::Protect, false, "u".to_string(), SandboxOutcome::Verdict(verdict));
    assert!(response.allowed);
    assert_eq!(response.patch, None);
    assert_eq!(response.patch_type, None);
}

#[test]
fn rejection_never_carries_a_mutation() {
    let verdict = Verdict { patch: Some("W10=".to_string()), ..rejects("no") };
    let response =
        respond_as(PolicyMode::Protect, true, "u".to_string(), SandboxOutcome::Verdict(verdict));
    assert!(!response.allowed);
    assert_eq!(response.patch, None);
    assert_eq!(response.patch_type, None);
}

#[test]
fn monitor_mode_turns_a_rejection_into_a_warning() {
    let verdict = Verdict { warnings: vec!["deprecated".to_string()], ..rejects("not allowed") };
    let response =
        respond_as(PolicyMode::Monitor, false, "u".to_string(), SandboxOutcome::Verdict(verdict));
    assert!(response.allowed);
    assert_eq!(response.status, None);
    assert_eq!(
        response.warnings,
        Some(vec!["deprecated".to_string(), "not allowed".to_string()])
    );
}

#[test]
fn monitor_mode_without_message_adds_no_warning() {
    let verdict = Verdict { message: None, ..rejects("") };
    let response =
        respond_as(PolicyMode::Monitor, false, "u".to_string(), SandboxOutcome::Verdict(verdict));
    assert_eq!(response, AdmissionResponse::accept("u".to_string()));
}

#[test]
fn monitor_mode_leaves_an_acceptance_alone() {
    let verdict = Verdict { warnings: vec!["deprecated".to_string()], ..accepts() };
    let response =
        respond_as(PolicyMode::Monitor, false, "u".to_string(), SandboxOutcome::Verdict(verdict));
    assert!(response.allowed);
    assert_eq!(response.warnings, Some(vec!["deprecated".to_string()]));
}

#[test]
fn deadline_is_a_rejection_with_code_500() {
    for mode in [PolicyMode::Protect, PolicyMode::Monitor] {
        let response = respond_as(mode, false, "u".to_string(), SandboxOutcome::DeadlineExceeded);
        assert!(!response.allowed);
        assert_eq!(
            response.status,
            Some(ResponseStatus {
                message: Some(
                    "internal server error: Guest call failure: guest code interrupted, execution deadline exceeded"
                        .to_string()
                ),
                code: Some(500),
                details: None,
            })
        );
    }
    assert!(deadline_text().contains("execution deadline exceeded"));
}

#[test]
fn sandbox_fault_is_a_rejection_with_the_message_of_the_engine() {
    let response = respond_as(
        PolicyMode::Monitor,
        true,
        "u".to_string(),
        SandboxOutcome::Failed("guest trapped".to_string()),
    );
    assert_eq!(
        response,
        AdmissionResponse::reject_internal_server_error("u".to_string(), "guest trapped".to_string())
    );
    assert_eq!(response.status.unwrap().code, Some(500));
}

#[test]
fn request_reaches_the_sandbox_of_a_compiled_policy() {
    let protect = policy(PolicyMode::Protect, false, Module::Compiled(7));
    let invoke = |entry_point: EntryPoint, deadline_seconds: Option<u64>| Dispatch::Invoke {
        module: 7,
        entry_point,
        settings: "{}".to_string(),
        deadline_seconds,
        context_aware_resources: vec![],
    };
    assert_eq!(
        protect.dispatch(EntryPoint::Validate, &review(Some("default")), &None, None),
        invoke(EntryPoint::Validate, None)
    );
    assert_eq!(
        protect.dispatch(
            EntryPoint::Audit,
            &review(Some("default")),
            &Some("kube-system".to_string()),
            Some(2)
        ),
        invoke(EntryPoint::Audit, Some(2))
    );
    assert_eq!(
        protect.dispatch(
            EntryPoint::ValidateRaw,
            &review(None),
            &Some("kube-system".to_string()),
            Some(2)
        ),
        invoke(EntryPoint::ValidateRaw, Some(2))
    );
}

#[test]
fn always_accepted_namespace_skips_the_sandbox() {
    let protect = policy(PolicyMode::Protect, false, Module::Compiled(7));
    assert_eq!(
        protect.dispatch(
            EntryPoint::Validate,
            &review(Some("kube-system")),
            &Some("kube-system".to_string()),
            Some(2)
        ),
        Dispatch::Respond(AdmissionResponse::accept("uid-1".to_string()))
    );
}

#[test]
fn broken_policy_rejects_every_request_with_its_error() {
    let error = "Error while downloading policy 'wrong_url' from ghcr.io/kubewarden/tests/not_existing:v0.1.0";
    let broken = policy(PolicyMode::Protect, false, Module::Broken(error.to_string()));
    let expected = Dispatch::Respond(AdmissionResponse::reject_internal_server_error(
        "uid-1".to_string(),
        error.to_string(),
    ));
    assert_eq!(
        broken.dispatch(EntryPoint::Audit, &review(Some("default")), &None, None),
        expected
    );
    // also from the always-accepted namespace, and in monitor mode
    let monitored = policy(PolicyMode::Monitor, false, Module::Broken(error.to_string()));
    assert_eq!(
        monitored.dispatch(
            EntryPoint::Validate,
            &review(Some("kube-system")),
            &Some("kube-system".to_string()),
            None
        ),
        expected
    );
}

#[test]
fn cluster_reads_are_limited_to_the_granted_kinds() {
    let kind = |group: &str, version: &str, resource: &str| ContextAwareResource {
        group: group.to_string(),
        version: version.to_string(),
        resource: resource.to_string(),
    };
    let mut reference = policy(PolicyMode::Protect, false, Module::Compiled(0)).reference;
    assert!(!reference.may_read(&kind("", "v1", "pods")));
    reference.context_aware_resources = vec![kind("", "v1", "namespaces"), kind("apps", "v1", "deployments")];
    assert!(reference.may_read(&kind("apps", "v1", "deployments")));
    assert!(reference.may_read(&kind("", "v1", "namespaces")));
    assert!(!reference.may_read(&kind("", "v1", "pods")));
    assert!(!reference.may_read(&kind("apps", "v1beta1", "deployments")));
    assert!(!reference.may_read(&kind("batch", "v1", "deployments")));
}

#[test]
fn answer_of_the_engine_is_told_from_a_fault() {
    let answer = |accepted: bool, message: Option<&str>, code: Option<u16>| Verdict {
        accepted,
        message: message.map(|m| m.to_string()),
        code,
        patch: None,
        warnings: vec![],
    };
    let deadline = "internal server error: Guest call failure: guest code interrupted, execution deadline exceeded";
    assert_eq!(
        SandboxOutcome::from_engine(answer(false, Some(deadline), Some(500))),
        SandboxOutcome::DeadlineExceeded
    );
    assert_eq!(
        SandboxOutcome::from_engine(answer(false, Some("internal server error: guest trapped"), Some(500))),
        SandboxOutcome::Failed("internal server error: guest trapped".to_string())
    );
    // a rejection of the policy itself, also with code 500
    for verdict in [
        answer(false, Some("Privileged container is not allowed"), None),
        answer(false, Some("out of quota"), Some(500)),
        answer(false, Some("internal server error: no"), Some(503)),
        answer(false, Some("internal server error: no"), None),
        answer(false, None, Some(500)),
        answer(true, Some("internal server error: no"), Some(500)),
        answer(true, None, None),
    ] {
        assert_eq!(
            SandboxOutcome::from_engine(verdict.clone()),
            SandboxOutcome::Verdict(verdict)
        );
    }
}

#[test]
fn prefix_is_compared_by_characters() {
    assert!(has_prefix(&"internal server error: x".to_string(), "internal server error: "));
    assert!(has_prefix(&"abc".to_string(), "abc"));
    assert!(has_prefix(&"abc".to_string(), ""));
    assert!(!has_prefix(&"ab".to_string(), "abc"));
    assert!(!has_prefix(&"abd".to_string(), "abc"));
    assert!(has_prefix(&"\u{e9}t\u{e9}".to_string(), "\u{e9}t"));
    assert!(!has_prefix(&"\u{e9}".to_string(), "e"));
}

#[test]
fn refused_settings_break_the_policy() {
    let mut compiled = policy(PolicyMode::Protect, false, Module::Compiled(3));
    let reference = compiled.reference.clone();
    compiled.refuse_settings("Error decoding validation payload: invalid type: string, expected u64");
    assert_eq!(
        compiled.module,
        Module::Broken(
            "Policy settings are invalid: Error decoding validation payload: invalid type: string, expected u64"
                .to_string()
        )
    );
    assert_eq!(compiled.reference, reference);
    // the policy then answers every request with that error
    assert_eq!(
        compiled.dispatch(EntryPoint::Validate, &review(Some("default")), &None, None),
        Dispatch::Respond(AdmissionResponse::reject_internal_server_error(
            "uid-1".to_string(),
            "Policy settings are invalid: Error decoding validation payload: invalid type: string, expected u64"
                .to_string()
        ))
    );
    let mut broken = policy(PolicyMode::Protect, false, Module::Broken("cannot compile".to_string()));
    broken.refuse_settings("no");
    assert_eq!(broken.module, Module::Broken("cannot compile".to_string()));
}

#[test]
fn sandbox_is_given_the_granted_kinds() {
    let kind = |group: &str, version: &str, resource: &str| ContextAwareResource {
        group: group.to_string(),
        version: version.to_string(),
        resource: resource.to_string(),
    };
    let granted = vec![kind("", "v1", "namespaces"), kind("apps", "v1", "deployments")];
    let mut compiled = policy(PolicyMode::Protect, false, Module::Compiled(7));
    compiled.reference.context_aware_resources = granted.clone();
    assert_eq!(
        compiled.dispatch(EntryPoint::Validate, &review(Some("default")), &None, Some(2)),
        Dispatch::Invoke {
            module: 7,
            entry_point: EntryPoint::Validate,
            settings: "{}".to_string(),
            deadline_seconds: Some(2),
            context_aware_resources: granted.clone(),
        }
    );
    assert_eq!(policy_server::policy::copy_resources(&granted), granted);
}

#[test]
fn api_version_joins_group_and_version() {
    let kind = |group: &str, version: &str| ContextAwareResource {
        group: group.to_string(),
        version: version.to_string(),
        resource: "things".to_string(),
    };
    assert_eq!(kind("", "v1").api_version(), "v1");
    assert_eq!(kind("apps", "v1").api_version(), "apps/v1");
    assert_eq!(kind("networking.k8s.io", "v1beta1").api_version(), "networking.k8s.io/v1beta1");
}
