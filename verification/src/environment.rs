//! The evaluation environment: every policy and policy group under its
//! identifier, built once at boot and read-only afterwards.
//!
//! A request names an identifier. [`EvaluationEnvironment::plan`] resolves it
//! and says which sandboxes have to run; the caller runs them, and
//! [`EvaluationEnvironment::conclude`] turns their outcomes into the admission
//! response. An identifier that resolves to nothing has no response at all.

use crate::admission::text_of;
use crate::admission::AdmissionResponse;
use crate::admission::ResponseView;
use crate::group::group_response;
use crate::group::member_response;
use crate::group::GroupMember;
use crate::group::GroupView;
use crate::group::PolicyGroup;
use crate::policy::policy_dispatch;
use crate::policy::policy_response;
use crate::policy::always_accepted;
use crate::policy::Dispatch;
use crate::policy::DispatchView;
use crate::policy::EntryPoint;
use crate::policy::LoadedPolicy;
use crate::policy::Module;
use crate::policy::OutcomeView;
use crate::policy::PolicyMode;
use crate::policy::ReviewRequest;
use crate::policy::SandboxOutcome;
use vstd::prelude::*;

verus! {

/// What an identifier stands for.
#[derive(Debug, PartialEq, Eq)]
pub enum PolicyEntry {
    Policy(LoadedPolicy),
    Group(PolicyGroup),
}

/// A policy or a group under its identifier.
#[derive(Debug, PartialEq, Eq)]
pub struct EnvironmentEntry {
    pub id: String,
    pub entry: PolicyEntry,
}

/// Every policy and group the server answers for.
#[derive(Debug, PartialEq, Eq)]
pub struct EvaluationEnvironment {
    pub entries: Vec<EnvironmentEntry>,
    /// The namespace whose requests are accepted without evaluation, if any.
    pub always_accept_admission_reviews_on_namespace: Option<String>,
    /// The limit of one evaluation in seconds, if any.
    pub policy_evaluation_limit_seconds: Option<u64>,
}

/// Why an environment could not be built.
#[derive(Clone, Debug, PartialEq, Eq)]
pub enum BuildError {
    /// Two entries share this identifier.
    DuplicateId(String),
    /// The group of this identifier has two members of one name, or an
    /// expression that names no member.
    MalformedGroup(String),
    /// A policy cannot be evaluated and errors are not tolerated; the text is
    /// the error of its module.
    BrokenPolicy(String),
    /// The artifact at this address was never precompiled.
    MissingModule(String),
}

/// What has to run before a request can be answered.
#[derive(Debug, PartialEq, Eq)]
pub enum Plan {
    /// The identifier resolves to nothing.
    NotFound,
    /// The request is answered without evaluating anything.
    Respond(AdmissionResponse),
    /// The entry at `index` is a policy.
    Policy { index: usize, dispatch: Dispatch },
    /// The entry at `index` is a group; there is one dispatch for each of its
    /// members, in their order.
    Group { index: usize, dispatches: Vec<Dispatch> },
}

/// What became of one dispatch.
#[derive(Clone, Debug, PartialEq, Eq)]
pub enum Ran {
    /// The dispatch held the response already; no sandbox ran.
    Answered(AdmissionResponse),
    /// The sandbox ran and ended like this.
    Outcome(SandboxOutcome),
}

/// The mathematical content of [`Plan`].
pub enum PlanView {
    NotFound,
    Respond(ResponseView),
    Policy { index: int, dispatch: DispatchView },
    Group { index: int, dispatches: Seq<DispatchView> },
}

/// The mathematical content of [`Ran`].
pub enum RanView {
    Answered(ResponseView),
    Outcome(OutcomeView),
}

impl View for Plan {
    type V = PlanView;

    open spec fn view(&self) -> PlanView {
        match self {
            Plan::NotFound => PlanView::NotFound,
            Plan::Respond(response) => PlanView::Respond(response@),
            Plan::Policy { index, dispatch } => PlanView::Policy {
                index: *index as int,
                dispatch: dispatch@,
            },
            Plan::Group { index, dispatches } => PlanView::Group {
                index: *index as int,
                dispatches: dispatches@.map_values(|d: Dispatch| d@),
            },
        }
    }
}

impl View for Ran {
    type V = RanView;

    open spec fn view(&self) -> RanView {
        match self {
            Ran::Answered(response) => RanView::Answered(response@),
            Ran::Outcome(outcome) => RanView::Outcome(outcome@),
        }
    }
}

/// The content of what became of a list of dispatches.
pub open spec fn ran_views(ran: Seq<Ran>) -> Seq<RanView> {
    ran.map_values(|r: Ran| r@)
}

/// The dispatch of a policy for a request.
pub open spec fn dispatch_of(
    policy: LoadedPolicy,
    entry_point: EntryPoint,
    request: ReviewRequest,
    always_accept: Option<String>,
    deadline_seconds: Option<u64>,
) -> DispatchView {
    policy_dispatch(
        policy.module@,
        entry_point,
        request.uid@,
        text_of(request.namespace),
        text_of(always_accept),
        policy.reference.sandbox_inputs(deadline_seconds),
    )
}

/// The dispatches of the members of a group, in their order. The namespace
/// of the request plays no part: it was judged for the group as a whole.
pub open spec fn member_dispatches(
    members: Seq<GroupMember>,
    entry_point: EntryPoint,
    request: ReviewRequest,
    deadline_seconds: Option<u64>,
) -> Seq<DispatchView> {
    Seq::new(
        members.len(),
        |i: int| dispatch_of(members[i].policy, entry_point, request, None, deadline_seconds),
    )
}

/// The response of a policy to what became of its dispatch.
pub open spec fn policy_answer(policy: LoadedPolicy, uid: Seq<char>, ran: RanView) -> ResponseView {
    match ran {
        RanView::Answered(response) => response,
        RanView::Outcome(outcome) => policy_response(
            policy.reference.mode,
            policy.reference.allowed_to_mutate,
            uid,
            outcome,
        ),
    }
}

/// The response of a member of a group to what became of its dispatch.
pub open spec fn member_answer(mode: PolicyMode, uid: Seq<char>, ran: RanView) -> ResponseView {
    match ran {
        RanView::Answered(response) => response,
        RanView::Outcome(outcome) => member_response(mode, uid, outcome),
    }
}

/// The responses of the members of a group, in their order.
pub open spec fn member_answers(members: Seq<GroupMember>, uid: Seq<char>, ran: Seq<RanView>) -> Seq<
    ResponseView,
> {
    Seq::new(
        members.len(),
        |i: int| member_answer(members[i].policy.reference.mode, uid, ran[i]),
    )
}

/// The response of an entry to what became of its dispatches: one for a
/// policy, one for each member for a group.
pub open spec fn entry_answer(entry: PolicyEntry, uid: Seq<char>, ran: Seq<RanView>) -> ResponseView {
    match entry {
        PolicyEntry::Policy(policy) => policy_answer(policy, uid, ran[0]),
        PolicyEntry::Group(group) => group_response(
            group@,
            uid,
            member_answers(group.members@, uid, ran),
        ),
    }
}

impl PolicyEntry {
    /// How many dispatches a request to this entry has.
    pub open spec fn fan_out(self) -> nat {
        match self {
            PolicyEntry::Policy(_) => 1,
            PolicyEntry::Group(group) => group.members.len() as nat,
        }
    }

    /// Every group is well formed.
    pub open spec fn well_formed(self) -> bool {
        self matches PolicyEntry::Group(group) ==> group@.well_formed()
    }

    /// The error that keeps this entry from being evaluated, if there is one:
    /// that of the policy's module, or of the module of the first member that
    /// has one.
    pub open spec fn first_fault(self) -> Option<Seq<char>> {
        match self {
            PolicyEntry::Policy(policy) => module_fault(policy.module),
            PolicyEntry::Group(group) => first_member_fault(group.members@, group.members.len() as nat),
        }
    }
}

/// The error of a broken module.
pub open spec fn module_fault(module: Module) -> Option<Seq<char>> {
    match module {
        Module::Compiled(_) => None,
        Module::Broken(error) => Some(error@),
    }
}

/// The error of the first broken module among the first `upto` members.
pub open spec fn first_member_fault(members: Seq<GroupMember>, upto: nat) -> Option<Seq<char>>
    decreases upto,
{
    if upto == 0 {
        None
    } else {
        match first_member_fault(members, (upto - 1) as nat) {
            Some(error) => Some(error),
            None => module_fault(members[upto - 1].policy.module),
        }
    }
}

impl EvaluationEnvironment {
    /// The identifiers, in the order of the entries.
    pub open spec fn ids(self) -> Seq<Seq<char>> {
        self.entries@.map_values(|entry: EnvironmentEntry| entry.id@)
    }

    /// Whether the identifier resolves to an entry.
    pub open spec fn knows(self, id: Seq<char>) -> bool {
        self.ids().contains(id)
    }

    /// No two entries share an identifier, and every group is well formed.
    pub open spec fn well_formed(self) -> bool {
        &&& self.ids().no_duplicates()
        &&& forall|i: int| 0 <= i < self.entries.len() ==> (#[trigger] self.entries[i]).entry.well_formed()
    }

    /// What the identifier stands for, if anything.
    pub open spec fn entry_of(self, id: Seq<char>) -> Option<PolicyEntry> {
        match self.ids().index_of_first(id) {
            Some(index) => Some(self.entries[index].entry),
            None => None,
        }
    }

    /// Whether requests of this namespace are accepted without evaluation.
    pub open spec fn always_accepts(self, request: ReviewRequest) -> bool {
        always_accepted(
            text_of(request.namespace),
            text_of(self.always_accept_admission_reviews_on_namespace),
        )
    }

    /// What has to run for a request to `id`. A policy decides by its own
    /// dispatch. A group has no module of its own: a request from the
    /// always-accepted namespace is let through at once, and for any other
    /// every member is dispatched.
    pub open spec fn planned(self, id: Seq<char>, entry_point: EntryPoint, request: ReviewRequest) -> PlanView {
        match self.ids().index_of_first(id) {
            None => PlanView::NotFound,
            Some(index) => match self.entries[index].entry {
                PolicyEntry::Policy(policy) => PlanView::Policy {
                    index,
                    dispatch: dispatch_of(
                        policy,
                        entry_point,
                        request,
                        self.always_accept_admission_reviews_on_namespace,
                        self.policy_evaluation_limit_seconds,
                    ),
                },
                PolicyEntry::Group(group) => if self.always_accepts(request) {
                    PlanView::Respond(ResponseView::accepted(request.uid@))
                } else {
                    PlanView::Group {
                        index,
                        dispatches: member_dispatches(
                            group.members@,
                            entry_point,
                            request,
                            self.policy_evaluation_limit_seconds,
                        ),
                    }
                },
            },
        }
    }

    /// The position of the entry of this identifier.
    #[verifier::loop_isolation(false)]
    pub fn find(&self, id: &String) -> (found: Option<usize>)
        ensures
            match found {
                Some(index) => self.ids().index_of_first(id@) == Some(index as int) && index
                    < self.entries.len(),
                None => self.ids().index_of_first(id@) is None,
            },
            found is Some <==> self.knows(id@),
    {
        let ghost ids = self.ids();
        proof {
            ids.index_of_first_ensures(id@);
        }
        let mut i: usize = 0;
        while i < self.entries.len()
            invariant
                i <= self.entries.len(),
                ids == self.ids(),
                forall|j: int| 0 <= j < i ==> ids[j] != id@,
            decreases self.entries.len() - i,
        {
            if self.entries[i].id == *id {
                assert(ids[i as int] == id@);
                return Some(i);
            }
            i += 1;
        }
        None
    }

    /// Resolves the identifier and says which sandboxes have to run.
    pub fn plan(&self, id: &String, entry_point: EntryPoint, request: &ReviewRequest) -> (plan: Plan)
        ensures
            plan@ == self.planned(id@, entry_point, *request),
    {
        match self.find(id) {
            None => Plan::NotFound,
            Some(index) => match &self.entries[index].entry {
                PolicyEntry::Policy(policy) => Plan::Policy {
                    index,
                    dispatch: policy.dispatch(
                        entry_point,
                        request,
                        &self.always_accept_admission_reviews_on_namespace,
                        self.policy_evaluation_limit_seconds,
                    ),
                },
                PolicyEntry::Group(group) => {
                    let accepted = match (
                        &self.always_accept_admission_reviews_on_namespace,
                        &request.namespace,
                    ) {
                        (Some(always), Some(namespace)) => *always == *namespace,
                        _ => false,
                    };
                    if accepted {
                        return Plan::Respond(AdmissionResponse::accept(request.uid.clone()));
                    }
                    let no_namespace: Option<String> = None;
                    let mut dispatches: Vec<Dispatch> = Vec::new();
                    let ghost wanted = member_dispatches(
                        group.members@,
                        entry_point,
                        *request,
                        self.policy_evaluation_limit_seconds,
                    );
                    let mut i: usize = 0;
                    while i < group.members.len()
                        invariant
                            i <= group.members.len(),
                            no_namespace is None,
                            wanted == member_dispatches(
                                group.members@,
                                entry_point,
                                *request,
                                self.policy_evaluation_limit_seconds,
                            ),
                            dispatches.len() == i,
                            forall|j: int| 0 <= j < i ==> dispatches[j]@ == wanted[j],
                        decreases group.members.len() - i,
                    {
                        dispatches.push(
                            group.members[i].policy.dispatch(
                                entry_point,
                                request,
                                &no_namespace,
                                self.policy_evaluation_limit_seconds,
                            ),
                        );
                        i += 1;
                    }
                    assert(dispatches@.map_values(|d: Dispatch| d@) =~= wanted);
                    Plan::Group { index, dispatches }
                },
            },
        }
    }

    /// The plan of a request on the route of plain validation.
    pub fn validate(&self, id: &String, request: &ReviewRequest) -> (plan: Plan)
        ensures
            plan@ == self.planned(id@, EntryPoint::Validate, *request),
    {
        self.plan(id, EntryPoint::Validate, request)
    }

    /// The plan of a request on the route of raw validation.
    pub fn validate_raw(&self, id: &String, request: &ReviewRequest) -> (plan: Plan)
        ensures
            plan@ == self.planned(id@, EntryPoint::ValidateRaw, *request),
    {
        self.plan(id, EntryPoint::ValidateRaw, request)
    }

    /// The plan of a request on the route of audits.
    pub fn audit(&self, id: &String, request: &ReviewRequest) -> (plan: Plan)
        ensures
            plan@ == self.planned(id@, EntryPoint::Audit, *request),
    {
        self.plan(id, EntryPoint::Audit, request)
    }

    /// Whether `count` dispatches are what a request to the entry at `index`
    /// has.
    pub open spec fn expects(self, index: usize, count: nat) -> bool {
        index < self.entries.len() && count == self.entries[index as int].entry.fan_out()
    }

    /// The response of the entry at `index` once its dispatches were carried
    /// out: `ran` holds what became of each, in their order. There is none
    /// where there is no such entry, or where `ran` does not hold as many
    /// outcomes as the entry has dispatches.
    pub fn conclude(&self, index: usize, uid: String, ran: Vec<Ran>) -> (response: Option<
        AdmissionResponse,
    >)
        ensures
            match response {
                Some(response) => self.expects(index, ran.len() as nat) && response@
                    == entry_answer(self.entries[index as int].entry, uid@, ran_views(ran@)),
                None => !self.expects(index, ran.len() as nat),
            },
    {
        if index >= self.entries.len() {
            return None;
        }
        let mut ran = ran;
        match &self.entries[index].entry {
            PolicyEntry::Policy(policy) => {
                if ran.len() != 1 {
                    return None;
                }
                let ghost seen = ran_views(ran@)[0];
                let only = ran.pop().unwrap();
                assert(only@ == seen);
                Some(
                    match only {
                        Ran::Answered(response) => response,
                        Ran::Outcome(outcome) => policy.respond(uid, outcome),
                    },
                )
            },
            PolicyEntry::Group(group) => {
                if ran.len() != group.members.len() {
                    return None;
                }
                let ghost seen = ran_views(ran@);
                let ghost wanted = member_answers(group.members@, uid@, seen);
                let mut reversed: Vec<AdmissionResponse> = Vec::new();
                let count = group.members.len();
                while ran.len() > 0
                    invariant
                        count == group.members.len(),
                        ran.len() <= count,
                        reversed.len() == count - ran.len(),
                        wanted == member_answers(group.members@, uid@, seen),
                        seen.len() == count,
                        forall|j: int| 0 <= j < ran.len() ==> (#[trigger] ran[j])@ == seen[j],
                        forall|j: int|
                            0 <= j < reversed.len() ==> (#[trigger] reversed[j])@ == wanted[count - 1 - j],
                    decreases ran.len(),
                {
                    let position = ran.len() - 1;
                    let ghost last = ran[position as int];
                    let one = ran.pop().unwrap();
                    assert(one@ == seen[position as int]);
                    let response = match one {
                        Ran::Answered(response) => response,
                        Ran::Outcome(outcome) => group.members[position].respond(
                            uid.clone(),
                            outcome,
                        ),
                    };
                    assert(response@ == wanted[position as int]);
                    reversed.push(response);
                }
                let mut responses: Vec<AdmissionResponse> = Vec::new();
                while reversed.len() > 0
                    invariant
                        reversed.len() <= count,
                        responses.len() == count - reversed.len(),
                        wanted.len() == count,
                        forall|j: int|
                            0 <= j < reversed.len() ==> (#[trigger] reversed[j])@ == wanted[count - 1 - j],
                        forall|j: int| 0 <= j < responses.len() ==> (#[trigger] responses[j])@ == wanted[j],
                    decreases reversed.len(),
                {
                    let response = reversed.pop().unwrap();
                    responses.push(response);
                }
                assert(crate::group::response_views(responses@) =~= wanted);
                group.respond(uid, &responses)
            },
        }
    }
}

/// The identifiers of a list of entries, in their order.
pub open spec fn entry_ids(entries: Seq<EnvironmentEntry>) -> Seq<Seq<char>> {
    entries.map_values(|entry: EnvironmentEntry| entry.id@)
}

/// Whether the identifier at `later` occurred before.
pub open spec fn repeats_earlier(ids: Seq<Seq<char>>, later: int) -> bool {
    exists|earlier: int| 0 <= earlier < later && ids[earlier] == ids[later]
}

/// What building an environment from `entries` returns. The entries are
/// checked in three passes, and the first offender of the first pass that
/// finds one is reported: an identifier that occurred before; a malformed
/// group; and, unless errors are tolerated, an entry that cannot be
/// evaluated.
pub open spec fn build_outcome(
    entries: Seq<EnvironmentEntry>,
    always_accept: Option<String>,
    limit_seconds: Option<u64>,
    continue_on_errors: bool,
    res: Result<EvaluationEnvironment, BuildError>,
) -> bool {
    let ids = entry_ids(entries);
    match res {
        Ok(environment) => {
            &&& environment.entries@ == entries
            &&& environment.always_accept_admission_reviews_on_namespace == always_accept
            &&& environment.policy_evaluation_limit_seconds == limit_seconds
            &&& environment.well_formed()
            &&& continue_on_errors || forall|i: int|
                0 <= i < entries.len() ==> (#[trigger] entries[i]).entry.first_fault() is None
        },
        Err(BuildError::DuplicateId(id)) => exists|at: int|
            {
                &&& 0 <= at < ids.len()
                &&& #[trigger] repeats_earlier(ids, at)
                &&& ids[at] == id@
                &&& forall|before: int| 0 <= before < at ==> !repeats_earlier(ids, before)
            },
        Err(BuildError::MalformedGroup(id)) => {
            &&& ids.no_duplicates()
            &&& exists|at: int|
                {
                    &&& 0 <= at < entries.len()
                    &&& !(#[trigger] entries[at]).entry.well_formed()
                    &&& entries[at].id@ == id@
                    &&& forall|before: int|
                        0 <= before < at ==> (#[trigger] entries[before]).entry.well_formed()
                }
        },
        Err(BuildError::MissingModule(_)) => false,
        Err(BuildError::BrokenPolicy(error)) => {
            &&& ids.no_duplicates()
            &&& forall|i: int| 0 <= i < entries.len() ==> (#[trigger] entries[i]).entry.well_formed()
            &&& !continue_on_errors
            &&& exists|at: int|
                {
                    &&& 0 <= at < entries.len()
                    &&& (#[trigger] entries[at]).entry.first_fault() == Some(error@)
                    &&& forall|before: int|
                        0 <= before < at ==> (#[trigger] entries[before]).entry.first_fault() is None
                }
        },
    }
}

impl PolicyEntry {
    /// Whether a group is well formed; a policy always is.
    pub fn is_well_formed(&self) -> (ok: bool)
        ensures
            ok == self.well_formed(),
    {
        match self {
            PolicyEntry::Policy(_) => true,
            PolicyEntry::Group(group) => group.is_well_formed(),
        }
    }

    /// The error that keeps this entry from being evaluated, if there is one.
    #[verifier::loop_isolation(false)]
    pub fn fault(&self) -> (fault: Option<String>)
        ensures
            text_of(fault) == self.first_fault(),
    {
        match self {
            PolicyEntry::Policy(policy) => match &policy.module {
                Module::Compiled(_) => None,
                Module::Broken(error) => Some(error.clone()),
            },
            PolicyEntry::Group(group) => {
                let mut i: usize = 0;
                while i < group.members.len()
                    invariant
                        i <= group.members.len(),
                        first_member_fault(group.members@, i as nat) is None,
                    decreases group.members.len() - i,
                {
                    match &group.members[i].policy.module {
                        Module::Compiled(_) => {},
                        Module::Broken(error) => {
                            proof {
                                lemma_fault_stays(group.members@, (i + 1) as nat, group.members.len() as nat);
                            }
                            return Some(error.clone());
                        },
                    }
                    i += 1;
                }
                None
            },
        }
    }
}

proof fn lemma_fault_stays(members: Seq<GroupMember>, found: nat, upto: nat)
    requires
        found <= upto,
        first_member_fault(members, found) is Some,
    ensures
        first_member_fault(members, upto) == first_member_fault(members, found),
    decreases upto,
{
    if found < upto {
        lemma_fault_stays(members, found, (upto - 1) as nat);
    }
}

impl EvaluationEnvironment {
    /// Builds the environment from the policies and groups of the
    /// configuration, each with its module.
    #[verifier::loop_isolation(false)]
    pub fn build(
        entries: Vec<EnvironmentEntry>,
        always_accept_namespace: Option<String>,
        policy_evaluation_limit_seconds: Option<u64>,
        continue_on_errors: bool,
    ) -> (res: Result<EvaluationEnvironment, BuildError>)
        ensures
            build_outcome(
                entries@,
                always_accept_namespace,
                policy_evaluation_limit_seconds,
                continue_on_errors,
                res,
            ),
    {
        let ghost ids = entry_ids(entries@);
        let mut i: usize = 0;
        while i < entries.len()
            invariant
                i <= entries.len(),
                forall|b: int| 0 <= b < i ==> !repeats_earlier(ids, b),
            decreases entries.len() - i,
        {
            let mut j: usize = 0;
            while j < i
                invariant
                    j <= i < entries.len(),
                    forall|a: int| 0 <= a < j ==> ids[a] != ids[i as int],
                decreases i - j,
            {
                if entries[j].id == entries[i].id {
                    assert(ids[j as int] == ids[i as int]);
                    assert(repeats_earlier(ids, i as int));
                    return Err(BuildError::DuplicateId(entries[i].id.clone()));
                }
                j += 1;
            }
            i += 1;
        }
        assert(ids.no_duplicates()) by {
            assert forall|a: int, b: int| 0 <= a < ids.len() && 0 <= b < ids.len() && a != b implies ids[a]
                != ids[b] by {
                if a < b {
                    assert(!repeats_earlier(ids, b));
                } else {
                    assert(!repeats_earlier(ids, a));
                }
            }
        }
        let mut i: usize = 0;
        while i < entries.len()
            invariant
                i <= entries.len(),
                forall|k: int| 0 <= k < i ==> (#[trigger] entries[k]).entry.well_formed(),
            decreases entries.len() - i,
        {
            if !entries[i].entry.is_well_formed() {
                return Err(BuildError::MalformedGroup(entries[i].id.clone()));
            }
            i += 1;
        }
        if !continue_on_errors {
            let mut i: usize = 0;
            while i < entries.len()
                invariant
                    i <= entries.len(),
                    forall|k: int| 0 <= k < i ==> (#[trigger] entries[k]).entry.first_fault() is None,
                decreases entries.len() - i,
            {
                match entries[i].entry.fault() {
                    Some(error) => {
                        return Err(BuildError::BrokenPolicy(error));
                    },
                    None => {},
                }
                i += 1;
            }
        }
        let environment = EvaluationEnvironment {
            entries,
            always_accept_admission_reviews_on_namespace: always_accept_namespace,
            policy_evaluation_limit_seconds,
        };
        assert(environment.ids() == ids);
        Ok(environment)
    }
}

/// What became of a dispatch when the sandbox, where it ran, ended with
/// `outcome`.
pub open spec fn carried_out(dispatch: DispatchView, outcome: OutcomeView) -> RanView {
    match dispatch {
        DispatchView::Respond(response) => RanView::Answered(response),
        DispatchView::Invoke { .. } => RanView::Outcome(outcome),
    }
}

/// What became of the dispatches of a plan when the sandbox of the `i`-th
/// ended with `outcomes[i]`.
pub open spec fn all_carried_out(plan: PlanView, outcomes: Seq<OutcomeView>) -> Seq<RanView> {
    match plan {
        PlanView::NotFound => Seq::empty(),
        PlanView::Respond(_) => Seq::empty(),
        PlanView::Policy { dispatch, .. } => seq![carried_out(dispatch, outcomes[0])],
        PlanView::Group { dispatches, .. } => Seq::new(
            dispatches.len(),
            |i: int| carried_out(dispatches[i], outcomes[i]),
        ),
    }
}

impl EvaluationEnvironment {
    /// The response to a request to `id`, given how the sandboxes end that
    /// the plan has run; `None` where the identifier resolves to nothing.
    pub open spec fn answered(
        self,
        id: Seq<char>,
        entry_point: EntryPoint,
        request: ReviewRequest,
        outcomes: Seq<OutcomeView>,
    ) -> Option<ResponseView> {
        match self.planned(id, entry_point, request) {
            PlanView::NotFound => None,
            PlanView::Respond(response) => Some(response),
            plan => Some(
                entry_answer(
                    self.entries[self.ids().index_of_first(id)->Some_0].entry,
                    request.uid@,
                    all_carried_out(plan, outcomes),
                ),
            ),
        }
    }
}

/// A request to an identifier that resolves to nothing is never evaluated
/// and has no response: nothing but "not found" can be said of it.
pub proof fn law_unknown_policy_is_not_found(
    environment: EvaluationEnvironment,
    id: Seq<char>,
    entry_point: EntryPoint,
    request: ReviewRequest,
    outcomes: Seq<OutcomeView>,
)
    requires
        !environment.knows(id),
    ensures
        environment.planned(id, entry_point, request) is NotFound,
        environment.answered(id, entry_point, request, outcomes) is None,
{
    environment.ids().index_of_first_ensures(id);
}

/// A request to an identifier that resolves to an entry is planned for that
/// entry and has a response.
pub proof fn law_known_policy_is_answered(
    environment: EvaluationEnvironment,
    id: Seq<char>,
    entry_point: EntryPoint,
    request: ReviewRequest,
    outcomes: Seq<OutcomeView>,
)
    requires
        environment.knows(id),
    ensures
        !(environment.planned(id, entry_point, request) is NotFound),
        environment.answered(id, entry_point, request, outcomes) is Some,
{
    environment.ids().index_of_first_ensures(id);
}

/// A request from the always-accepted namespace is let through with nothing
/// attached, whatever the sandboxes would have returned, by every group and
/// by every policy whose module is not broken.
pub proof fn law_always_accepted_namespace(
    environment: EvaluationEnvironment,
    id: Seq<char>,
    entry_point: EntryPoint,
    request: ReviewRequest,
    outcomes: Seq<OutcomeView>,
)
    requires
        environment.always_accepts(request),
        environment.entry_of(id) is Some,
        !(environment.entry_of(id)->Some_0 matches PolicyEntry::Policy(policy)
            && policy.module is Broken),
    ensures
        environment.answered(id, entry_point, request, outcomes) == Some(
            ResponseView::accepted(request.uid@),
        ),
{
    environment.ids().index_of_first_ensures(id);
}

/// A policy whose module is broken rejects every request with code 500 and
/// the error of its module, from whichever namespace the request comes.
pub proof fn law_broken_policy_rejects(
    environment: EvaluationEnvironment,
    id: Seq<char>,
    entry_point: EntryPoint,
    request: ReviewRequest,
    outcomes: Seq<OutcomeView>,
)
    requires
        environment.entry_of(id) matches Some(PolicyEntry::Policy(policy)) && policy.module is Broken,
    ensures
        environment.answered(id, entry_point, request, outcomes) == Some(
            ResponseView::internal_error(
                request.uid@,
                environment.entry_of(id)->Some_0->Policy_0.module->Broken_0@,
            ),
        ),
{
    environment.ids().index_of_first_ensures(id);
}

/// Every response carries the identifier of the review it answers.
pub proof fn law_answer_echoes_uid(
    environment: EvaluationEnvironment,
    id: Seq<char>,
    entry_point: EntryPoint,
    request: ReviewRequest,
    outcomes: Seq<OutcomeView>,
)
    requires
        environment.knows(id),
    ensures
        environment.answered(id, entry_point, request, outcomes) is Some,
        environment.answered(id, entry_point, request, outcomes)->Some_0.uid == request.uid@,
{
    environment.ids().index_of_first_ensures(id);
}

/// The response to a request for a group carries neither a patch nor a
/// patch type, whatever the sandboxes of its members return.
pub proof fn law_group_answer_never_mutates(
    environment: EvaluationEnvironment,
    id: Seq<char>,
    entry_point: EntryPoint,
    request: ReviewRequest,
    outcomes: Seq<OutcomeView>,
)
    requires
        environment.planned(id, entry_point, request) is Group,
    ensures
        environment.answered(id, entry_point, request, outcomes) is Some,
        environment.answered(id, entry_point, request, outcomes)->Some_0.patch is None,
        environment.answered(id, entry_point, request, outcomes)->Some_0.patch_type is None,
{
    environment.ids().index_of_first_ensures(id);
}

proof fn lemma_group_response_repeats(
    group: GroupView,
    first: Seq<char>,
    second: Seq<char>,
    a: Seq<ResponseView>,
    b: Seq<ResponseView>,
)
    requires
        a.len() == b.len(),
        a.len() == group.names.len(),
        forall|i: int| 0 <= i < a.len() ==> a[i].with_uid(second) == b[i],
    ensures
        group_response(group, first, a).with_uid(second) == group_response(group, second, b),
{
    assert(crate::group::verdicts(a) =~= crate::group::verdicts(b));
    lemma_group_parts_repeat(group.names, second, a, b, a.len());
    lemma_group_causes_repeat(group.names, second, a, b, group.names.len());
}

proof fn lemma_group_parts_repeat(
    names: Seq<Seq<char>>,
    second: Seq<char>,
    a: Seq<ResponseView>,
    b: Seq<ResponseView>,
    upto: nat,
)
    requires
        a.len() == b.len(),
        upto <= a.len(),
        forall|i: int| 0 <= i < a.len() ==> a[i].with_uid(second) == b[i],
    ensures
        crate::group::gathered_warnings(a, upto) == crate::group::gathered_warnings(b, upto),
    decreases upto,
{
    if upto > 0 {
        lemma_group_parts_repeat(names, second, a, b, (upto - 1) as nat);
        assert(a[upto - 1].with_uid(second) == b[upto - 1]);
    }
}

proof fn lemma_group_causes_repeat(
    names: Seq<Seq<char>>,
    second: Seq<char>,
    a: Seq<ResponseView>,
    b: Seq<ResponseView>,
    upto: nat,
)
    requires
        a.len() == b.len(),
        upto <= a.len(),
        forall|i: int| 0 <= i < a.len() ==> a[i].with_uid(second) == b[i],
    ensures
        crate::group::denials(names, a, upto) == crate::group::denials(names, b, upto),
    decreases upto,
{
    if upto > 0 {
        lemma_group_causes_repeat(names, second, a, b, (upto - 1) as nat);
        assert(a[upto - 1].with_uid(second) == b[upto - 1]);
    }
}

/// Repeating a request gives the same response: two requests to the same
/// identifier on the same route that differ in the identifier of the review
/// only, and whose sandboxes end alike, are answered alike but for the
/// identifier of the review.
pub proof fn law_answer_repeats(
    environment: EvaluationEnvironment,
    id: Seq<char>,
    entry_point: EntryPoint,
    first: ReviewRequest,
    second: ReviewRequest,
    outcomes: Seq<OutcomeView>,
)
    requires
        text_of(first.namespace) == text_of(second.namespace),
    ensures
        match environment.answered(id, entry_point, first, outcomes) {
            None => environment.answered(id, entry_point, second, outcomes) is None,
            Some(response) => environment.answered(id, entry_point, second, outcomes) == Some(
                response.with_uid(second.uid@),
            ),
        },
{
    environment.ids().index_of_first_ensures(id);
    match environment.ids().index_of_first(id) {
        None => {},
        Some(index) => {
            let always = environment.always_accept_admission_reviews_on_namespace;
            match environment.entries[index].entry {
                PolicyEntry::Policy(policy) => {},
                PolicyEntry::Group(group) => if !environment.always_accepts(first) {
                    let plan_a = environment.planned(id, entry_point, first);
                    let plan_b = environment.planned(id, entry_point, second);
                    let a = member_answers(
                        group.members@,
                        first.uid@,
                        all_carried_out(plan_a, outcomes),
                    );
                    let b = member_answers(
                        group.members@,
                        second.uid@,
                        all_carried_out(plan_b, outcomes),
                    );
                    assert forall|i: int| 0 <= i < a.len() implies a[i].with_uid(second.uid@)
                        == b[i] by {
                        let member = group.members@[i];
                        let limit = environment.policy_evaluation_limit_seconds;
                        let da = dispatch_of(member.policy, entry_point, first, None, limit);
                        let db = dispatch_of(member.policy, entry_point, second, None, limit);
                        assert(plan_a->Group_dispatches[i] == da);
                        assert(plan_b->Group_dispatches[i] == db);
                    }
                    lemma_group_response_repeats(group@, first.uid@, second.uid@, a, b);
                },
            }
        },
    }
}

} // verus!
