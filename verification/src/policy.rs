//! Evaluation of a single policy: when its sandbox is invoked, and how what
//! the sandbox returns becomes an admission response.
//!
//! The sandbox itself is outside work. [`LoadedPolicy::dispatch`] says whether
//! a request reaches it, and [`LoadedPolicy::respond`] shapes its outcome:
//! mutations are kept only where the policy may mutate, a policy in monitor
//! mode never rejects by its own verdict, and faults become rejections with
//! code 500.

use crate::admission::messages_of;
use crate::admission::some_if_any;
use crate::admission::text_of;
use crate::admission::texts;
use crate::admission::AdmissionResponse;
use crate::admission::PatchType;
use crate::admission::INTERNAL_ERROR_CODE;
use crate::admission::ResponseStatus;
use crate::admission::ResponseView;
use crate::admission::StatusView;
use vstd::prelude::*;
use vstd::string::StrSliceExecFns;
use vstd::string::StringExecFns;

verus! {

/// Whether a rejection is enforced or only reported.
#[derive(Clone, Copy, Debug, PartialEq, Eq, Structural)]
pub enum PolicyMode {
    Protect,
    Monitor,
}

/// The entry point of a policy, chosen by the route of the request.
#[derive(Clone, Copy, Debug, PartialEq, Eq, Structural)]
pub enum EntryPoint {
    Validate,
    ValidateRaw,
    Audit,
}

/// A kind of cluster resource.
#[derive(Clone, Debug, PartialEq, Eq)]
pub struct ContextAwareResource {
    pub group: String,
    pub version: String,
    pub resource: String,
}

/// A policy as the operator configured it.
#[derive(Clone, Debug, PartialEq, Eq)]
pub struct PolicyRef {
    /// Where the artifact was fetched from.
    pub artifact_url: String,
    pub mode: PolicyMode,
    pub allowed_to_mutate: bool,
    /// The settings handed to every sandbox of this policy, as encoded text.
    pub settings: String,
    /// The kinds of cluster resources the policy may read.
    pub context_aware_resources: Vec<ContextAwareResource>,
}

/// What became of the artifact of a policy at boot.
#[derive(Clone, Debug, PartialEq, Eq)]
pub enum Module {
    /// It was compiled; the number is the handle of the compiled module.
    Compiled(usize),
    /// It could not be fetched or compiled; the text is the error.
    Broken(String),
}

/// A policy together with its module.
#[derive(Clone, Debug, PartialEq, Eq)]
pub struct LoadedPolicy {
    pub reference: PolicyRef,
    pub module: Module,
}

/// What the request under review says about itself.
#[derive(Clone, Debug, PartialEq, Eq)]
pub struct ReviewRequest {
    pub uid: String,
    pub namespace: Option<String>,
}

/// What a policy returned from its sandbox.
#[derive(Clone, Debug, PartialEq, Eq)]
pub struct Verdict {
    pub accepted: bool,
    pub message: Option<String>,
    pub code: Option<u16>,
    /// The mutation the policy asks for, as an encoded JSON patch.
    pub patch: Option<String>,
    pub warnings: Vec<String>,
}

/// How one sandbox invocation ended.
#[derive(Clone, Debug, PartialEq, Eq)]
pub enum SandboxOutcome {
    /// The policy ran to its end.
    Verdict(Verdict),
    /// The engine interrupted the policy because its deadline had passed.
    DeadlineExceeded,
    /// The sandbox failed; the text is the engine's message.
    Failed(String),
}

/// What to do with a request addressed to a policy.
#[derive(Clone, Debug, PartialEq, Eq)]
pub enum Dispatch {
    /// Answer without invoking the sandbox.
    Respond(AdmissionResponse),
    /// Invoke the entry point in a fresh sandbox of the module, which is given
    /// the settings of the policy, where there is a limit the number of
    /// seconds after which it is interrupted, and the kinds of cluster
    /// resources it may read.
    Invoke {
        module: usize,
        entry_point: EntryPoint,
        settings: String,
        deadline_seconds: Option<u64>,
        context_aware_resources: Vec<ContextAwareResource>,
    },
}

/// The first part of the message of a rejection caused by the deadline.
pub const DEADLINE_CONTEXT: &'static str =
    "internal server error: Guest call failure: guest code interrupted, ";

/// The part of that message that names the cause.
pub const DEADLINE_PHRASE: &'static str = "execution deadline exceeded";

/// What is said before the reason why a policy refuses its settings.
pub const INVALID_SETTINGS_CONTEXT: &'static str = "Policy settings are invalid: ";

/// What the engine puts in front of the message of a fault.
pub const INTERNAL_ERROR_PREFIX: &'static str = "internal server error: ";

/// The mathematical content of [`Verdict`].
pub struct VerdictView {
    pub accepted: bool,
    pub message: Option<Seq<char>>,
    pub code: Option<u16>,
    pub patch: Option<Seq<char>>,
    pub warnings: Seq<Seq<char>>,
}

/// The mathematical content of [`SandboxOutcome`].
pub enum OutcomeView {
    Verdict(VerdictView),
    DeadlineExceeded,
    Failed(Seq<char>),
}

/// The mathematical content of [`Dispatch`].
pub enum DispatchView {
    Respond(ResponseView),
    Invoke {
        module: usize,
        entry_point: EntryPoint,
        settings: Seq<char>,
        deadline_seconds: Option<u64>,
        context_aware_resources: Seq<ContextAwareResource>,
    },
}

impl View for Verdict {
    type V = VerdictView;

    open spec fn view(&self) -> VerdictView {
        VerdictView {
            accepted: self.accepted,
            message: text_of(self.message),
            code: self.code,
            patch: text_of(self.patch),
            warnings: texts(self.warnings@),
        }
    }
}

impl View for SandboxOutcome {
    type V = OutcomeView;

    open spec fn view(&self) -> OutcomeView {
        match self {
            SandboxOutcome::Verdict(verdict) => OutcomeView::Verdict(verdict@),
            SandboxOutcome::DeadlineExceeded => OutcomeView::DeadlineExceeded,
            SandboxOutcome::Failed(text) => OutcomeView::Failed(text@),
        }
    }
}

impl View for Dispatch {
    type V = DispatchView;

    open spec fn view(&self) -> DispatchView {
        match self {
            Dispatch::Respond(response) => DispatchView::Respond(response@),
            Dispatch::Invoke {
                module,
                entry_point,
                settings,
                deadline_seconds,
                context_aware_resources,
            } => DispatchView::Invoke {
                module: *module,
                entry_point: *entry_point,
                settings: settings@,
                deadline_seconds: *deadline_seconds,
                context_aware_resources: context_aware_resources@,
            },
        }
    }
}

/// The message of a rejection caused by the deadline.
pub open spec fn deadline_message() -> Seq<char> {
    DEADLINE_CONTEXT@ + DEADLINE_PHRASE@
}

/// Whether `needle` occurs in `text`.
pub open spec fn contains_text(text: Seq<char>, needle: Seq<char>) -> bool {
    exists|at: int|
        0 <= at && at + needle.len() <= text.len() && #[trigger] text.subrange(
            at,
            at + needle.len(),
        ) == needle
}

/// Whether `text` starts with `prefix`.
pub open spec fn starts_with(text: Seq<char>, prefix: Seq<char>) -> bool {
    prefix.len() <= text.len() && text.subrange(0, prefix.len() as int) == prefix
}

/// Whether an answer of the engine reports a fault instead of a verdict of
/// the policy: a rejection with code 500 whose message starts with the
/// engine's prefix.
pub open spec fn reports_fault(answer: VerdictView) -> bool {
    !answer.accepted && answer.code == Some(500u16) && answer.message is Some && starts_with(
        answer.message->Some_0,
        INTERNAL_ERROR_PREFIX@,
    )
}

/// What an answer of the engine stands for. The engine reports a fault in
/// the shape of a rejection; it is told from a verdict of the policy by its
/// code and the prefix of its message, and the interruption at the deadline
/// by its fixed message.
pub open spec fn engine_outcome(answer: VerdictView) -> OutcomeView {
    if reports_fault(answer) {
        if answer.message->Some_0 == deadline_message() {
            OutcomeView::DeadlineExceeded
        } else {
            OutcomeView::Failed(answer.message->Some_0)
        }
    } else {
        OutcomeView::Verdict(answer)
    }
}

/// The messages a policy in monitor mode shows in place of a rejection: the
/// warnings of the verdict, then the message the rejection would have had.
pub open spec fn monitor_warnings(verdict: VerdictView) -> Seq<Seq<char>> {
    match verdict.message {
        Some(message) => verdict.warnings.push(message),
        None => verdict.warnings,
    }
}

/// The response to a verdict of the policy itself.
pub open spec fn verdict_response(
    mode: PolicyMode,
    allowed_to_mutate: bool,
    uid: Seq<char>,
    verdict: VerdictView,
) -> ResponseView {
    if verdict.accepted {
        let patch = if allowed_to_mutate {
            verdict.patch
        } else {
            None
        };
        ResponseView {
            uid,
            allowed: true,
            status: None,
            patch,
            patch_type: if patch is Some {
                Some(PatchType::JSONPatch)
            } else {
                None
            },
            warnings: some_if_any(verdict.warnings),
        }
    } else if mode == PolicyMode::Monitor {
        ResponseView {
            uid,
            allowed: true,
            status: None,
            patch: None,
            patch_type: None,
            warnings: some_if_any(monitor_warnings(verdict)),
        }
    } else {
        ResponseView {
            uid,
            allowed: false,
            status: Some(StatusView { message: verdict.message, code: verdict.code, causes: None }),
            patch: None,
            patch_type: None,
            warnings: some_if_any(verdict.warnings),
        }
    }
}

/// The response to the outcome of a sandbox invocation.
pub open spec fn policy_response(
    mode: PolicyMode,
    allowed_to_mutate: bool,
    uid: Seq<char>,
    outcome: OutcomeView,
) -> ResponseView {
    match outcome {
        OutcomeView::Verdict(verdict) => verdict_response(mode, allowed_to_mutate, uid, verdict),
        OutcomeView::DeadlineExceeded => ResponseView::internal_error(uid, deadline_message()),
        OutcomeView::Failed(text) => ResponseView::internal_error(uid, text),
    }
}

/// Whether requests of this namespace are accepted without evaluation.
pub open spec fn always_accepted(namespace: Option<Seq<char>>, always_accept: Option<Seq<char>>) -> bool {
    always_accept is Some && namespace == always_accept
}

/// What a sandbox is given, besides the request.
pub struct SandboxInputs {
    /// The settings of the policy.
    pub settings: Seq<char>,
    /// The limit of one evaluation, if there is one.
    pub deadline_seconds: Option<u64>,
    /// The kinds of cluster resources the policy was granted.
    pub context_aware_resources: Seq<ContextAwareResource>,
}

/// What happens to a request before any sandbox runs: a policy whose module
/// is broken rejects with the error of its module; otherwise a request from
/// the always-accepted namespace is let through; otherwise the sandbox runs.
pub open spec fn policy_dispatch(
    module: Result<usize, Seq<char>>,
    entry_point: EntryPoint,
    uid: Seq<char>,
    namespace: Option<Seq<char>>,
    always_accept: Option<Seq<char>>,
    inputs: SandboxInputs,
) -> DispatchView {
    match module {
        Err(error) => DispatchView::Respond(ResponseView::internal_error(uid, error)),
        Ok(module) => if always_accepted(namespace, always_accept) {
            DispatchView::Respond(ResponseView::accepted(uid))
        } else {
            DispatchView::Invoke {
                module,
                entry_point,
                settings: inputs.settings,
                deadline_seconds: inputs.deadline_seconds,
                context_aware_resources: inputs.context_aware_resources,
            }
        },
    }
}

/// Whether a resource of this kind is among those of the list.
pub open spec fn lists_kind(list: Seq<ContextAwareResource>, resource: ContextAwareResource) -> bool {
    exists|i: int| 0 <= i < list.len() && #[trigger] list[i].same_kind(resource)
}

impl View for Module {
    type V = Result<usize, Seq<char>>;

    open spec fn view(&self) -> Result<usize, Seq<char>> {
        match self {
            Module::Compiled(handle) => Ok(*handle),
            Module::Broken(error) => Err(error@),
        }
    }
}

impl ContextAwareResource {
    /// The API version of the kind: the version alone for the core group,
    /// which has no name, and the group and the version joined by a slash for
    /// any other.
    pub open spec fn spec_api_version(self) -> Seq<char> {
        if self.group@.len() == 0 {
            self.version@
        } else {
            self.group@ + "/"@ + self.version@
        }
    }

    /// The API version of the kind.
    pub fn api_version(&self) -> (text: String)
        ensures
            text@ == self.spec_api_version(),
    {
        if self.group.as_str().unicode_len() == 0 {
            self.version.clone()
        } else {
            self.group.clone().concat("/").concat(self.version.as_str())
        }
    }

    /// Whether two resources are of the same kind.
    pub open spec fn same_kind(self, other: ContextAwareResource) -> bool {
        self.group@ == other.group@ && self.version@ == other.version@ && self.resource@
            == other.resource@
    }
}

impl PolicyRef {
    /// Whether the policy was granted reading resources of this kind.
    pub open spec fn grants(self, resource: ContextAwareResource) -> bool {
        lists_kind(self.context_aware_resources@, resource)
    }

    /// What a sandbox of this policy is given.
    pub open spec fn sandbox_inputs(self, deadline_seconds: Option<u64>) -> SandboxInputs {
        SandboxInputs {
            settings: self.settings@,
            deadline_seconds,
            context_aware_resources: self.context_aware_resources@,
        }
    }

    /// Whether a cluster read asked for by a sandbox of this policy is
    /// honoured: only resources of the kinds the policy was granted are.
    pub fn may_read(&self, resource: &ContextAwareResource) -> (granted: bool)
        ensures
            granted == self.grants(*resource),
    {
        let mut i: usize = 0;
        while i < self.context_aware_resources.len()
            invariant
                i <= self.context_aware_resources.len(),
                forall|j: int| 0 <= j < i ==> !self.context_aware_resources[j].same_kind(*resource),
            decreases self.context_aware_resources.len() - i,
        {
            let granted = &self.context_aware_resources[i];
            if granted.group == resource.group && granted.version == resource.version
                && granted.resource == resource.resource {
                assert(self.context_aware_resources[i as int].same_kind(*resource));
                return true;
            }
            i += 1;
        }
        false
    }
}

/// A copy of a list of resource kinds.
pub fn copy_resources(list: &Vec<ContextAwareResource>) -> (copy: Vec<ContextAwareResource>)
    ensures
        copy@ == list@,
{
    let mut copy: Vec<ContextAwareResource> = Vec::new();
    let mut i: usize = 0;
    while i < list.len()
        invariant
            i <= list.len(),
            copy@ == list@.take(i as int),
        decreases list.len() - i,
    {
        let resource = &list[i];
        copy.push(
            ContextAwareResource {
                group: resource.group.clone(),
                version: resource.version.clone(),
                resource: resource.resource.clone(),
            },
        );
        assert(copy@ =~= list@.take(i + 1));
        i += 1;
    }
    assert(list@.take(list.len() as int) =~= list@);
    copy
}

/// The message of a rejection caused by the deadline.
pub fn deadline_text() -> (text: String)
    ensures
        text@ == deadline_message(),
{
    DEADLINE_CONTEXT.to_string().concat(DEADLINE_PHRASE)
}

/// Whether `text` starts with `prefix`.
pub fn has_prefix(text: &String, prefix: &str) -> (found: bool)
    ensures
        found == starts_with(text@, prefix@),
{
    let wanted = prefix.unicode_len();
    if text.as_str().unicode_len() < wanted {
        return false;
    }
    let head = text.as_str().substring_char(0, wanted);
    head.to_string() == prefix.to_string()
}

impl SandboxOutcome {
    /// Reads an answer of the engine: a fault, the interruption at the
    /// deadline, or a verdict of the policy.
    pub fn from_engine(answer: Verdict) -> (outcome: SandboxOutcome)
        ensures
            outcome@ == engine_outcome(answer@),
    {
        let fault = match (&answer.message, answer.code) {
            (Some(message), Some(code)) => !answer.accepted && code == INTERNAL_ERROR_CODE
                && has_prefix(message, INTERNAL_ERROR_PREFIX),
            _ => false,
        };
        if !fault {
            return SandboxOutcome::Verdict(answer);
        }
        let Verdict { message, .. } = answer;
        let message = message.unwrap();
        if message == deadline_text() {
            SandboxOutcome::DeadlineExceeded
        } else {
            SandboxOutcome::Failed(message)
        }
    }
}

/// The list of messages as a response carries it.
pub fn optional_list(messages: Vec<String>) -> (list: Option<Vec<String>>)
    ensures
        match list {
            Some(list) => Some(texts(list@)),
            None => None,
        } == some_if_any(texts(messages@)),
{
    if messages.len() == 0 {
        None
    } else {
        Some(messages)
    }
}

impl LoadedPolicy {
    /// Records that the policy refuses its settings, for the given reason:
    /// its module, if it has one, is replaced by the error. A policy whose
    /// module is broken already keeps the error it has.
    pub fn refuse_settings(&mut self, reason: &str)
        ensures
            final(self).reference == old(self).reference,
            final(self).module@ == match old(self).module@ {
                Ok(_) => Err::<usize, Seq<char>>(INVALID_SETTINGS_CONTEXT@ + reason@),
                Err(error) => Err::<usize, Seq<char>>(error),
            },
    {
        let compiled = match &self.module {
            Module::Compiled(_) => true,
            Module::Broken(_) => false,
        };
        if compiled {
            self.module = Module::Broken(INVALID_SETTINGS_CONTEXT.to_string().concat(reason));
        }
    }

    /// Decides whether a request reaches the sandbox of this policy.
    pub fn dispatch(
        &self,
        entry_point: EntryPoint,
        request: &ReviewRequest,
        always_accept_namespace: &Option<String>,
        deadline_seconds: Option<u64>,
    ) -> (dispatch: Dispatch)
        ensures
            dispatch@ == policy_dispatch(
                self.module@,
                entry_point,
                request.uid@,
                text_of(request.namespace),
                text_of(*always_accept_namespace),
                self.reference.sandbox_inputs(deadline_seconds),
            ),
    {
        match &self.module {
            Module::Broken(error) => Dispatch::Respond(
                AdmissionResponse::reject_internal_server_error(request.uid.clone(), error.clone()),
            ),
            Module::Compiled(module) => {
                let accepted = match (always_accept_namespace, &request.namespace) {
                    (Some(always), Some(namespace)) => *always == *namespace,
                    _ => false,
                };
                if accepted {
                    Dispatch::Respond(AdmissionResponse::accept(request.uid.clone()))
                } else {
                    Dispatch::Invoke {
                        module: *module,
                        entry_point,
                        settings: self.reference.settings.clone(),
                        deadline_seconds,
                        context_aware_resources: copy_resources(
                            &self.reference.context_aware_resources,
                        ),
                    }
                }
            },
        }
    }

    /// Shapes the outcome of a sandbox invocation into the response.
    pub fn respond(&self, uid: String, outcome: SandboxOutcome) -> (response: AdmissionResponse)
        ensures
            response@ == policy_response(
                self.reference.mode,
                self.reference.allowed_to_mutate,
                uid@,
                outcome@,
            ),
    {
        respond_as(self.reference.mode, self.reference.allowed_to_mutate, uid, outcome)
    }
}

/// Shapes the outcome of a sandbox invocation into the response of a policy
/// of the given mode and mutation right.
pub fn respond_as(
    mode: PolicyMode,
    allowed_to_mutate: bool,
    uid: String,
    outcome: SandboxOutcome,
) -> (response: AdmissionResponse)
    ensures
        response@ == policy_response(mode, allowed_to_mutate, uid@, outcome@),
{
    match outcome {
        SandboxOutcome::DeadlineExceeded => AdmissionResponse::reject_internal_server_error(
            uid,
            deadline_text(),
        ),
        SandboxOutcome::Failed(text) => AdmissionResponse::reject_internal_server_error(uid, text),
        SandboxOutcome::Verdict(verdict) => {
            let ghost seen = verdict@;
            let Verdict { accepted, message, code, patch, warnings } = verdict;
            if accepted {
                let kept = if allowed_to_mutate {
                    patch
                } else {
                    None
                };
                let patch_type = match &kept {
                    Some(_) => Some(PatchType::JSONPatch),
                    None => None,
                };
                AdmissionResponse {
                    uid,
                    allowed: true,
                    status: None,
                    patch: kept,
                    patch_type,
                    warnings: optional_list(warnings),
                }
            } else {
                match mode {
                    PolicyMode::Monitor => {
                        let mut shown = warnings;
                        match message {
                            Some(message) => {
                                shown.push(message);
                                assert(texts(shown@) =~= seen.warnings.push(message@));
                            },
                            None => {},
                        }
                        AdmissionResponse {
                            uid,
                            allowed: true,
                            status: None,
                            patch: None,
                            patch_type: None,
                            warnings: optional_list(shown),
                        }
                    },
                    PolicyMode::Protect => AdmissionResponse {
                        uid,
                        allowed: false,
                        status: Some(ResponseStatus { message, code, details: None }),
                        patch: None,
                        patch_type: None,
                        warnings: optional_list(warnings),
                    },
                }
            }
        },
    }
}

/// A policy in monitor mode never rejects by its own verdict. Whatever the
/// sandbox returned, the response allows and has no status, and the message
/// a rejection would have carried is among its warnings. (A fault is not a
/// verdict of the policy: in monitor mode too, a policy that runs past its
/// deadline is rejected with code 500.)
pub proof fn law_monitor_never_rejects(allowed_to_mutate: bool, uid: Seq<char>, verdict: VerdictView)
    ensures
        policy_response(
            PolicyMode::Monitor,
            allowed_to_mutate,
            uid,
            OutcomeView::Verdict(verdict),
        ).allowed,
        policy_response(
            PolicyMode::Monitor,
            allowed_to_mutate,
            uid,
            OutcomeView::Verdict(verdict),
        ).status is None,
        !verdict.accepted && verdict.message is Some ==> messages_of(
            policy_response(
                PolicyMode::Monitor,
                allowed_to_mutate,
                uid,
                OutcomeView::Verdict(verdict),
            ).warnings,
        ).contains(verdict.message->Some_0),
{
    if !verdict.accepted && verdict.message is Some {
        let shown = monitor_warnings(verdict);
        assert(shown[shown.len() - 1] == verdict.message->Some_0);
    }
}

/// A policy in protect mode answers with the verdict of its sandbox: it
/// allows exactly when the verdict accepts, and a rejection carries the
/// message and the code of the verdict.
pub proof fn law_protect_follows_verdict(allowed_to_mutate: bool, uid: Seq<char>, verdict: VerdictView)
    ensures
        policy_response(
            PolicyMode::Protect,
            allowed_to_mutate,
            uid,
            OutcomeView::Verdict(verdict),
        ).allowed == verdict.accepted,
        !verdict.accepted ==> policy_response(
            PolicyMode::Protect,
            allowed_to_mutate,
            uid,
            OutcomeView::Verdict(verdict),
        ).status == Some(StatusView { message: verdict.message, code: verdict.code, causes: None }),
{
}

/// A policy interrupted at its deadline is rejected with code 500 and a
/// message that contains the phrase "execution deadline exceeded", in either
/// mode and whether or not it may mutate.
pub proof fn law_deadline_rejects(mode: PolicyMode, allowed_to_mutate: bool, uid: Seq<char>)
    ensures
        !policy_response(mode, allowed_to_mutate, uid, OutcomeView::DeadlineExceeded).allowed,
        policy_response(mode, allowed_to_mutate, uid, OutcomeView::DeadlineExceeded).status is Some,
        policy_response(
            mode,
            allowed_to_mutate,
            uid,
            OutcomeView::DeadlineExceeded,
        ).status->Some_0.code == Some(500u16),
        policy_response(
            mode,
            allowed_to_mutate,
            uid,
            OutcomeView::DeadlineExceeded,
        ).status->Some_0.message is Some,
        contains_text(
            policy_response(
                mode,
                allowed_to_mutate,
                uid,
                OutcomeView::DeadlineExceeded,
            ).status->Some_0.message->Some_0,
            DEADLINE_PHRASE@,
        ),
        DEADLINE_PHRASE@ == "execution deadline exceeded"@,
{
    let message = deadline_message();
    let at = DEADLINE_CONTEXT@.len() as int;
    assert(message.subrange(at, at + DEADLINE_PHRASE@.len()) =~= DEADLINE_PHRASE@);
}

/// A fault is reported as it is: a failed sandbox is rejected with code 500
/// and the engine's message, in either mode.
pub proof fn law_fault_rejects(
    mode: PolicyMode,
    allowed_to_mutate: bool,
    uid: Seq<char>,
    text: Seq<char>,
)
    ensures
        policy_response(mode, allowed_to_mutate, uid, OutcomeView::Failed(text))
            == ResponseView::internal_error(uid, text),
{
}

/// A mutation is kept only where the policy may mutate, and only on a
/// response that allows; a patch always comes with its type.
pub proof fn law_mutation_needs_permission(
    mode: PolicyMode,
    allowed_to_mutate: bool,
    uid: Seq<char>,
    outcome: OutcomeView,
)
    ensures
        policy_response(mode, allowed_to_mutate, uid, outcome).patch is Some ==> allowed_to_mutate
            && policy_response(mode, allowed_to_mutate, uid, outcome).allowed,
        policy_response(mode, allowed_to_mutate, uid, outcome).well_formed(),
{
}

/// The response to a request does not depend on the identifier of the
/// review: two reviews that differ in their identifier only are answered
/// alike, but for the identifier.
pub proof fn law_policy_response_repeats(
    mode: PolicyMode,
    allowed_to_mutate: bool,
    first: Seq<char>,
    second: Seq<char>,
    outcome: OutcomeView,
)
    ensures
        policy_response(mode, allowed_to_mutate, first, outcome).with_uid(second)
            == policy_response(mode, allowed_to_mutate, second, outcome),
{
}

/// A sandbox is given the kinds of cluster resources its policy was granted
/// and no other: where a request reaches the sandbox, a kind is among those
/// handed over exactly when the policy may read it.
pub proof fn law_sandbox_reads_what_was_granted(
    policy: LoadedPolicy,
    entry_point: EntryPoint,
    uid: Seq<char>,
    namespace: Option<Seq<char>>,
    always_accept: Option<Seq<char>>,
    deadline_seconds: Option<u64>,
    resource: ContextAwareResource,
)
    requires
        policy_dispatch(
            policy.module@,
            entry_point,
            uid,
            namespace,
            always_accept,
            policy.reference.sandbox_inputs(deadline_seconds),
        ) is Invoke,
    ensures
        lists_kind(
            policy_dispatch(
                policy.module@,
                entry_point,
                uid,
                namespace,
                always_accept,
                policy.reference.sandbox_inputs(deadline_seconds),
            )->context_aware_resources,
            resource,
        ) == policy.reference.grants(resource),
{
}

} // verus!
