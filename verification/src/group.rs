//! Policy groups: a boolean expression over named member policies, answered
//! as one policy.
//!
//! Every member is evaluated like a policy that may not mutate; a member that
//! asks for a mutation fails with a fixed error. The group allows when its
//! expression holds of the members' verdicts. A rejection carries the group's
//! own message and names every member that denied, with that member's
//! message. The warnings of all members are passed on. A group never mutates.

use crate::admission::copy_text;
use crate::admission::copy_texts;
use crate::admission::messages_of;
use crate::admission::some_if_any;
use crate::admission::texts;
use crate::admission::AdmissionResponse;
use crate::admission::CauseView;
use crate::admission::ResponseStatus;
use crate::admission::ResponseView;
use crate::admission::StatusCause;
use crate::admission::StatusDetails;
use crate::admission::StatusView;
use crate::policy::optional_list;
use crate::policy::policy_response;
use crate::policy::respond_as;
use crate::policy::LoadedPolicy;
use crate::policy::OutcomeView;
use crate::policy::PolicyMode;
use crate::policy::SandboxOutcome;
use vstd::prelude::*;

verus! {

/// A boolean expression over the names of the members of a group.
#[derive(Debug, PartialEq, Eq)]
pub enum Expression {
    /// The verdict of the member of this name.
    Member(String),
    Not(Box<Expression>),
    And(Box<Expression>, Box<Expression>),
    Or(Box<Expression>, Box<Expression>),
}

/// A policy under the name it has inside its group.
#[derive(Clone, Debug, PartialEq, Eq)]
pub struct GroupMember {
    pub name: String,
    pub policy: LoadedPolicy,
}

/// A group of policies answered as one.
#[derive(Debug, PartialEq, Eq)]
pub struct PolicyGroup {
    pub members: Vec<GroupMember>,
    pub expression: Expression,
    /// The message of a rejection by the group.
    pub message: String,
}

/// The error of a member that asked for a mutation.
pub const GROUP_MUTATION_MESSAGE: &'static str = "mutation is not allowed inside of policy group";

/// The names of the members, in their order.
pub open spec fn member_names(members: Seq<GroupMember>) -> Seq<Seq<char>> {
    members.map_values(|member: GroupMember| member.name@)
}

/// The content of the responses, in their order.
pub open spec fn response_views(responses: Seq<AdmissionResponse>) -> Seq<ResponseView> {
    responses.map_values(|response: AdmissionResponse| response@)
}

/// The verdicts of the responses, in their order.
pub open spec fn verdicts(responses: Seq<ResponseView>) -> Seq<bool> {
    responses.map_values(|response: ResponseView| response.allowed)
}

/// Whether the member of this name allows: the first member of this name,
/// where several share it; a name that no member has allows nothing.
pub open spec fn member_allows(names: Seq<Seq<char>>, allowed: Seq<bool>, name: Seq<char>) -> bool {
    match names.index_of_first(name) {
        Some(position) => position < allowed.len() && allowed[position],
        None => false,
    }
}

impl Expression {
    /// Whether every name in the expression is the name of a member.
    pub open spec fn names_known(self, names: Seq<Seq<char>>) -> bool
        decreases self,
    {
        match self {
            Expression::Member(name) => names.contains(name@),
            Expression::Not(inner) => inner.names_known(names),
            Expression::And(left, right) => left.names_known(names) && right.names_known(names),
            Expression::Or(left, right) => left.names_known(names) && right.names_known(names),
        }
    }

    /// Whether the expression holds of the members' verdicts.
    pub open spec fn holds(self, names: Seq<Seq<char>>, allowed: Seq<bool>) -> bool
        decreases self,
    {
        match self {
            Expression::Member(name) => member_allows(names, allowed, name@),
            Expression::Not(inner) => !inner.holds(names, allowed),
            Expression::And(left, right) => left.holds(names, allowed) && right.holds(
                names,
                allowed,
            ),
            Expression::Or(left, right) => left.holds(names, allowed) || right.holds(
                names,
                allowed,
            ),
        }
    }

    /// Whether the expression is built without negation.
    pub open spec fn is_positive(self) -> bool
        decreases self,
    {
        match self {
            Expression::Member(_) => true,
            Expression::Not(_) => false,
            Expression::And(left, right) => left.is_positive() && right.is_positive(),
            Expression::Or(left, right) => left.is_positive() && right.is_positive(),
        }
    }
}

/// The message a rejection carries, if any.
pub open spec fn rejection_message(response: ResponseView) -> Option<Seq<char>> {
    match response.status {
        Some(status) => status.message,
        None => None,
    }
}

/// The causes of a rejection by a group: one for each of the first `upto`
/// members that denied, in the order of the members.
pub open spec fn denials(names: Seq<Seq<char>>, responses: Seq<ResponseView>, upto: nat) -> Seq<
    CauseView,
>
    decreases upto,
{
    if upto == 0 {
        Seq::empty()
    } else {
        let earlier = denials(names, responses, (upto - 1) as nat);
        let last = upto - 1;
        if responses[last].allowed {
            earlier
        } else {
            earlier.push(
                CauseView { member: names[last], message: rejection_message(responses[last]) },
            )
        }
    }
}

/// The warnings of the first `upto` members, in the order of the members.
pub open spec fn gathered_warnings(responses: Seq<ResponseView>, upto: nat) -> Seq<Seq<char>>
    decreases upto,
{
    if upto == 0 {
        Seq::empty()
    } else {
        gathered_warnings(responses, (upto - 1) as nat) + messages_of(
            responses[upto - 1].warnings,
        )
    }
}

/// The mathematical content of [`PolicyGroup`], as far as its answer
/// depends on it.
pub struct GroupView {
    pub names: Seq<Seq<char>>,
    pub expression: Expression,
    pub message: Seq<char>,
}

impl View for PolicyGroup {
    type V = GroupView;

    open spec fn view(&self) -> GroupView {
        GroupView {
            names: member_names(self.members@),
            expression: self.expression,
            message: self.message@,
        }
    }
}

impl GroupView {
    /// No two members share a name, and the expression names members only.
    pub open spec fn well_formed(self) -> bool {
        self.names.no_duplicates() && self.expression.names_known(self.names)
    }
}

/// The response of a group to the responses of its members.
pub open spec fn group_response(group: GroupView, uid: Seq<char>, responses: Seq<ResponseView>) -> ResponseView {
    let allowed = group.expression.holds(group.names, verdicts(responses));
    ResponseView {
        uid,
        allowed,
        status: if allowed {
            None
        } else {
            Some(
                StatusView {
                    message: Some(group.message),
                    code: None,
                    causes: Some(denials(group.names, responses, group.names.len())),
                },
            )
        },
        patch: None,
        patch_type: None,
        warnings: some_if_any(gathered_warnings(responses, responses.len())),
    }
}

/// Whether a sandbox outcome asks for a mutation.
pub open spec fn asks_mutation(outcome: OutcomeView) -> bool {
    outcome matches OutcomeView::Verdict(verdict) && verdict.patch is Some
}

/// The response of a member of a group: a member that asks for a mutation
/// fails with the fixed error; any other is answered like a policy that may
/// not mutate.
pub open spec fn member_response(mode: PolicyMode, uid: Seq<char>, outcome: OutcomeView) -> ResponseView {
    if asks_mutation(outcome) {
        ResponseView::internal_error(uid, GROUP_MUTATION_MESSAGE@)
    } else {
        policy_response(mode, false, uid, outcome)
    }
}

impl GroupMember {
    /// Shapes the outcome of a sandbox invocation into the response of this
    /// member.
    pub fn respond(&self, uid: String, outcome: SandboxOutcome) -> (response: AdmissionResponse)
        ensures
            response@ == member_response(self.policy.reference.mode, uid@, outcome@),
    {
        let mutates = match &outcome {
            SandboxOutcome::Verdict(verdict) => verdict.patch.is_some(),
            _ => false,
        };
        if mutates {
            AdmissionResponse::reject_internal_server_error(uid, GROUP_MUTATION_MESSAGE.to_string())
        } else {
            respond_as(self.policy.reference.mode, false, uid, outcome)
        }
    }
}

impl Expression {
    /// A copy of the expression.
    pub fn duplicate(&self) -> (copy: Expression)
        ensures
            copy == *self,
        decreases *self,
    {
        match self {
            Expression::Member(name) => Expression::Member(name.clone()),
            Expression::Not(inner) => Expression::Not(Box::new(inner.duplicate())),
            Expression::And(left, right) => Expression::And(
                Box::new(left.duplicate()),
                Box::new(right.duplicate()),
            ),
            Expression::Or(left, right) => Expression::Or(
                Box::new(left.duplicate()),
                Box::new(right.duplicate()),
            ),
        }
    }

    /// Whether every name in the expression is the name of a member.
    #[verifier::loop_isolation(false)]
    pub fn knows_names(&self, members: &Vec<GroupMember>) -> (known: bool)
        ensures
            known == self.names_known(member_names(members@)),
        decreases *self,
    {
        match self {
            Expression::Member(name) => {
                let ghost names = member_names(members@);
                let mut i: usize = 0;
                while i < members.len()
                    invariant
                        i <= members.len(),
                        names == member_names(members@),
                        forall|j: int| 0 <= j < i ==> names[j] != name@,
                    decreases members.len() - i,
                {
                    if members[i].name == *name {
                        assert(names[i as int] == name@);
                        assert(names.contains(name@));
                        return true;
                    }
                    i += 1;
                }
                false
            },
            Expression::Not(inner) => inner.knows_names(members),
            Expression::And(left, right) => left.knows_names(members) && right.knows_names(members),
            Expression::Or(left, right) => left.knows_names(members) && right.knows_names(members),
        }
    }

    /// Evaluates the expression on the responses of the members.
    #[verifier::loop_isolation(false)]
    pub fn evaluate(&self, members: &Vec<GroupMember>, responses: &Vec<AdmissionResponse>) -> (holds:
        bool)
        ensures
            holds == self.holds(member_names(members@), verdicts(response_views(responses@))),
        decreases *self,
    {
        match self {
            Expression::Member(name) => {
                let ghost names = member_names(members@);
                let ghost allowed = verdicts(response_views(responses@));
                proof {
                    names.index_of_first_ensures(name@);
                }
                let mut i: usize = 0;
                while i < members.len()
                    invariant
                        i <= members.len(),
                        names == member_names(members@),
                        allowed == verdicts(response_views(responses@)),
                        forall|j: int| 0 <= j < i ==> names[j] != name@,
                    decreases members.len() - i,
                {
                    if members[i].name == *name {
                        assert(names[i as int] == name@);
                        assert(names.index_of_first(name@) == Some(i as int));
                        if i < responses.len() {
                            assert(allowed[i as int] == responses[i as int].allowed);
                            return responses[i].allowed;
                        }
                        return false;
                    }
                    i += 1;
                }
                false
            },
            Expression::Not(inner) => !inner.evaluate(members, responses),
            Expression::And(left, right) => {
                let l = left.evaluate(members, responses);
                let r = right.evaluate(members, responses);
                l && r
            },
            Expression::Or(left, right) => {
                let l = left.evaluate(members, responses);
                let r = right.evaluate(members, responses);
                l || r
            },
        }
    }
}

impl PolicyGroup {
    /// Whether no two members share a name and the expression names members
    /// only.
    pub fn is_well_formed(&self) -> (ok: bool)
        ensures
            ok == self@.well_formed(),
    {
        let ghost names = member_names(self.members@);
        let mut i: usize = 0;
        while i < self.members.len()
            invariant
                i <= self.members.len(),
                names == member_names(self.members@),
                forall|a: int, b: int| 0 <= a < b < i ==> names[a] != names[b],
            decreases self.members.len() - i,
        {
            let mut j: usize = 0;
            while j < i
                invariant
                    j <= i < self.members.len(),
                    names == member_names(self.members@),
                    forall|a: int| 0 <= a < j ==> names[a] != names[i as int],
                decreases i - j,
            {
                if self.members[j].name == self.members[i].name {
                    assert(names[j as int] == names[i as int]);
                    return false;
                }
                j += 1;
            }
            i += 1;
        }
        assert(names.no_duplicates());
        self.expression.knows_names(&self.members)
    }

    /// The response of the group to the responses of its members, which are
    /// given in the order of the members; none where there is not one
    /// response for each member.
    pub fn respond(&self, uid: String, responses: &Vec<AdmissionResponse>) -> (response: Option<
        AdmissionResponse,
    >)
        ensures
            match response {
                Some(response) => responses.len() == self.members.len() && response@
                    == group_response(self@, uid@, response_views(responses@)),
                None => responses.len() != self.members.len(),
            },
    {
        if responses.len() != self.members.len() {
            return None;
        }
        let allowed = self.expression.evaluate(&self.members, responses);
        let ghost names = member_names(self.members@);
        let ghost seen = response_views(responses@);
        let mut causes: Vec<StatusCause> = Vec::new();
        let mut warnings: Vec<String> = Vec::new();
        let mut i: usize = 0;
        assert(causes@.map_values(|c: StatusCause| c@) =~= Seq::empty());
        assert(texts(warnings@) =~= Seq::empty());
        while i < responses.len()
            invariant
                i <= responses.len(),
                responses.len() == self.members.len(),
                names == member_names(self.members@),
                seen == response_views(responses@),
                causes@.map_values(|c: StatusCause| c@) == denials(names, seen, i as nat),
                texts(warnings@) == gathered_warnings(seen, i as nat),
            decreases responses.len() - i,
        {
            let response = &responses[i];
            let ghost causes_before = causes@.map_values(|c: StatusCause| c@);
            let ghost warnings_before = texts(warnings@);
            assert(seen[i as int] == response@);
            assert(names[i as int] == self.members[i as int].name@);
            if !response.allowed {
                let message = match &response.status {
                    Some(status) => copy_text(&status.message),
                    None => None,
                };
                let cause = StatusCause { member: self.members[i].name.clone(), message };
                assert(cause@ == CauseView {
                    member: names[i as int],
                    message: rejection_message(seen[i as int]),
                });
                causes.push(cause);
                assert(causes@.map_values(|c: StatusCause| c@) =~= causes_before.push(cause@));
            }
            match &response.warnings {
                Some(list) => {
                    let mut more = copy_texts(list);
                    let ghost added = texts(more@);
                    warnings.append(&mut more);
                    assert(texts(warnings@) =~= warnings_before + added);
                },
                None => {
                    assert(texts(warnings@) =~= warnings_before + Seq::<Seq<char>>::empty());
                },
            }
            i += 1;
        }
        let status = if allowed {
            None
        } else {
            Some(
                ResponseStatus {
                    message: Some(self.message.clone()),
                    code: None,
                    details: Some(StatusDetails { causes }),
                },
            )
        };
        Some(
            AdmissionResponse {
                uid,
                allowed,
                status,
                patch: None,
                patch_type: None,
                warnings: optional_list(warnings),
            },
        )
    }
}

/// The members among the first `upto` that denied, by their position, in
/// the order of the members.
pub open spec fn denying_members(responses: Seq<ResponseView>, upto: nat) -> Seq<int>
    decreases upto,
{
    if upto == 0 {
        Seq::empty()
    } else {
        let earlier = denying_members(responses, (upto - 1) as nat);
        if responses[upto - 1].allowed {
            earlier
        } else {
            earlier.push(upto - 1)
        }
    }
}

/// The cause that stands for the member at a position.
pub open spec fn cause_of(names: Seq<Seq<char>>, responses: Seq<ResponseView>, member: int) -> CauseView {
    CauseView { member: names[member], message: rejection_message(responses[member]) }
}

/// The verdicts of `count` members that all allow.
pub open spec fn all_allow(count: nat) -> Seq<bool> {
    Seq::new(count, |i: int| true)
}

/// A group never mutates: its response carries neither a patch nor a patch
/// type, whatever its members answered.
pub proof fn law_group_never_mutates(group: GroupView, uid: Seq<char>, responses: Seq<ResponseView>)
    ensures
        group_response(group, uid, responses).patch is None,
        group_response(group, uid, responses).patch_type is None,
{
}

/// A member of a group never mutates either: whatever its sandbox returned,
/// its response carries neither a patch nor a patch type.
pub proof fn law_member_never_mutates(mode: PolicyMode, uid: Seq<char>, outcome: OutcomeView)
    ensures
        member_response(mode, uid, outcome).patch is None,
        member_response(mode, uid, outcome).patch_type is None,
{
}

/// A member that asks for a mutation is rejected with code 500 and the fixed
/// error, in either mode.
pub proof fn law_member_mutation_is_an_error(mode: PolicyMode, uid: Seq<char>, outcome: OutcomeView)
    requires
        asks_mutation(outcome),
    ensures
        member_response(mode, uid, outcome) == ResponseView::internal_error(
            uid,
            GROUP_MUTATION_MESSAGE@,
        ),
        !member_response(mode, uid, outcome).allowed,
{
}

/// An expression without negation holds when every member allows.
pub proof fn lemma_positive_holds_when_all_allow(expression: Expression, names: Seq<Seq<char>>)
    requires
        expression.is_positive(),
        expression.names_known(names),
    ensures
        expression.holds(names, all_allow(names.len())),
    decreases expression,
{
    match expression {
        Expression::Member(name) => {
            names.index_of_first_ensures(name@);
        },
        Expression::Not(_) => {},
        Expression::And(left, right) => {
            lemma_positive_holds_when_all_allow(*left, names);
            lemma_positive_holds_when_all_allow(*right, names);
        },
        Expression::Or(left, right) => {
            lemma_positive_holds_when_all_allow(*left, names);
            lemma_positive_holds_when_all_allow(*right, names);
        },
    }
}

/// When every member allows, the group allows and its response has no
/// status, provided the expression holds of members that all allow. (An
/// expression with a negation may fail to: a group whose expression is the
/// negation of a member rejects exactly when that member allows.)
pub proof fn law_group_allows_when_all_allow(
    group: GroupView,
    uid: Seq<char>,
    responses: Seq<ResponseView>,
)
    requires
        responses.len() == group.names.len(),
        forall|i: int| 0 <= i < responses.len() ==> responses[i].allowed,
        group.expression.holds(group.names, all_allow(group.names.len())),
    ensures
        group_response(group, uid, responses).allowed,
        group_response(group, uid, responses).status is None,
{
    assert(verdicts(responses) =~= all_allow(group.names.len()));
}

/// When every member allows, a well-formed group whose expression has no
/// negation allows, and its response has no status.
pub proof fn law_positive_group_allows_when_all_allow(
    group: GroupView,
    uid: Seq<char>,
    responses: Seq<ResponseView>,
)
    requires
        group.well_formed(),
        group.expression.is_positive(),
        responses.len() == group.names.len(),
        forall|i: int| 0 <= i < responses.len() ==> responses[i].allowed,
    ensures
        group_response(group, uid, responses).allowed,
        group_response(group, uid, responses).status is None,
{
    lemma_positive_holds_when_all_allow(group.expression, group.names);
    law_group_allows_when_all_allow(group, uid, responses);
}

proof fn lemma_denials_follow_members(names: Seq<Seq<char>>, responses: Seq<ResponseView>, upto: nat)
    requires
        upto <= responses.len(),
    ensures
        denials(names, responses, upto).len() == denying_members(responses, upto).len(),
        forall|k: int|
            0 <= k < denying_members(responses, upto).len() ==> {
                &&& 0 <= #[trigger] denying_members(responses, upto)[k] < upto
                &&& !responses[denying_members(responses, upto)[k]].allowed
                &&& denials(names, responses, upto)[k] == cause_of(
                    names,
                    responses,
                    denying_members(responses, upto)[k],
                )
            },
        forall|j: int, k: int|
            0 <= j < k < denying_members(responses, upto).len() ==> denying_members(
                responses,
                upto,
            )[j] < denying_members(responses, upto)[k],
        forall|i: int|
            0 <= i < upto && !responses[i].allowed ==> denying_members(responses, upto).contains(i),
    decreases upto,
{
    if upto > 0 {
        let before = (upto - 1) as nat;
        lemma_denials_follow_members(names, responses, before);
        let earlier = denying_members(responses, before);
        let now = denying_members(responses, upto);
        assert forall|i: int| 0 <= i < upto && !responses[i].allowed implies now.contains(i) by {
            if i < before {
                assert(earlier.contains(i));
                let k = choose|k: int| 0 <= k < earlier.len() && earlier[k] == i;
                assert(now[k] == i);
            } else {
                assert(now[now.len() - 1] == i);
            }
        }
    }
}

/// When a group rejects, its response carries the message of the group, and
/// its causes name the members that denied, each exactly once and in the
/// order of the members: the causes are the members at the positions
/// `denying_members`, which rise strictly and are the positions of all the
/// members that denied and of no other.
pub proof fn law_group_rejection_names_every_denial(
    group: GroupView,
    uid: Seq<char>,
    responses: Seq<ResponseView>,
)
    requires
        responses.len() == group.names.len(),
        !group_response(group, uid, responses).allowed,
    ensures
        group_response(group, uid, responses).status is Some,
        group_response(group, uid, responses).status->Some_0.message == Some(group.message),
        group_response(group, uid, responses).status->Some_0.causes is Some,
        ({
            let causes = group_response(group, uid, responses).status->Some_0.causes->Some_0;
            let denying = denying_members(responses, responses.len());
            &&& causes.len() == denying.len()
            &&& forall|k: int|
                0 <= k < denying.len() ==> {
                    &&& 0 <= #[trigger] denying[k] < responses.len()
                    &&& !responses[denying[k]].allowed
                    &&& causes[k] == cause_of(group.names, responses, denying[k])
                }
            &&& forall|j: int, k: int| 0 <= j < k < denying.len() ==> denying[j] < denying[k]
            &&& forall|i: int|
                0 <= i < responses.len() && !responses[i].allowed ==> denying.contains(i)
        }),
{
    lemma_denials_follow_members(group.names, responses, responses.len());
}

/// The warnings of a group are those of all its members, whether it allows
/// or rejects: every warning of every member is among them.
pub proof fn law_group_passes_warnings_on(
    group: GroupView,
    uid: Seq<char>,
    responses: Seq<ResponseView>,
    member: int,
    warning: Seq<char>,
)
    requires
        0 <= member < responses.len(),
        messages_of(responses[member].warnings).contains(warning),
    ensures
        messages_of(group_response(group, uid, responses).warnings).contains(warning),
{
    lemma_gathered_contains(responses, responses.len(), member, warning);
}

proof fn lemma_gathered_contains(
    responses: Seq<ResponseView>,
    upto: nat,
    member: int,
    warning: Seq<char>,
)
    requires
        0 <= member < upto,
        messages_of(responses[member].warnings).contains(warning),
    ensures
        gathered_warnings(responses, upto).contains(warning),
    decreases upto,
{
    let earlier = gathered_warnings(responses, (upto - 1) as nat);
    let last = messages_of(responses[upto - 1].warnings);
    if member == upto - 1 {
        let k = choose|k: int| 0 <= k < last.len() && last[k] == warning;
        assert((earlier + last)[earlier.len() + k] == warning);
    } else {
        lemma_gathered_contains(responses, (upto - 1) as nat, member, warning);
        let k = choose|k: int| 0 <= k < earlier.len() && earlier[k] == warning;
        assert((earlier + last)[k] == warning);
    }
}

} // verus!
