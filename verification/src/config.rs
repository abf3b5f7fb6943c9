//! The configured policies: which artifacts they need, and how they become
//! the entries of the evaluation environment once the artifacts are compiled.
//!
//! An artifact that several policies or group members refer to is fetched
//! once. Every policy and every member is given the module of its artifact; a
//! member of a group never may mutate, whatever its configuration says.

use crate::admission::texts;
use crate::environment::BuildError;
use crate::environment::EnvironmentEntry;
use crate::environment::PolicyEntry;
use crate::group::Expression;
use crate::group::GroupMember;
use crate::group::PolicyGroup;
use crate::policy::copy_resources;
use crate::policy::LoadedPolicy;
use crate::policy::Module;
use crate::policy::PolicyRef;
use crate::precompile::copy_module;
use crate::precompile::PrecompiledPolicy;
use vstd::prelude::*;

verus! {

/// A member of a configured group.
#[derive(Clone, Debug, PartialEq, Eq)]
pub struct ConfiguredMember {
    pub name: String,
    pub policy: PolicyRef,
}

/// What the operator configured under an identifier.
#[derive(Debug, PartialEq, Eq)]
pub enum PolicyOrPolicyGroup {
    Policy(PolicyRef),
    PolicyGroup { members: Vec<ConfiguredMember>, expression: Expression, message: String },
}

/// A configured policy or group under its identifier.
#[derive(Debug, PartialEq, Eq)]
pub struct ConfiguredPolicy {
    pub id: String,
    pub policy: PolicyOrPolicyGroup,
}

/// The artifacts of the first `upto` members, in their order.
pub open spec fn member_urls(members: Seq<ConfiguredMember>, upto: nat) -> Seq<Seq<char>>
    decreases upto,
{
    if upto == 0 {
        Seq::empty()
    } else {
        member_urls(members, (upto - 1) as nat).push(members[upto - 1].policy.artifact_url@)
    }
}

impl PolicyOrPolicyGroup {
    /// The artifacts this policy or group refers to, in order.
    pub open spec fn urls(self) -> Seq<Seq<char>> {
        match self {
            PolicyOrPolicyGroup::Policy(policy) => seq![policy.artifact_url@],
            PolicyOrPolicyGroup::PolicyGroup { members, .. } => member_urls(
                members@,
                members.len() as nat,
            ),
        }
    }
}

/// The artifacts the first `upto` configured policies refer to, in order and
/// with repetitions.
pub open spec fn referenced_urls(policies: Seq<ConfiguredPolicy>, upto: nat) -> Seq<Seq<char>>
    decreases upto,
{
    if upto == 0 {
        Seq::empty()
    } else {
        referenced_urls(policies, (upto - 1) as nat) + policies[upto - 1].policy.urls()
    }
}

/// The first occurrences of the elements of a list, in their order.
pub open spec fn first_occurrences(list: Seq<Seq<char>>, upto: nat) -> Seq<Seq<char>>
    decreases upto,
{
    if upto == 0 {
        Seq::empty()
    } else {
        let earlier = first_occurrences(list, (upto - 1) as nat);
        if earlier.contains(list[upto - 1]) {
            earlier
        } else {
            earlier.push(list[upto - 1])
        }
    }
}

/// The addresses of the precompiled artifacts, in their order.
pub open spec fn precompiled_urls(precompiled: Seq<PrecompiledPolicy>) -> Seq<Seq<char>> {
    precompiled.map_values(|p: PrecompiledPolicy| p.url@)
}

/// The module of the artifact at `url`: that of the first precompiled
/// artifact of this address.
pub open spec fn module_for(precompiled: Seq<PrecompiledPolicy>, url: Seq<char>) -> Option<Module> {
    match precompiled_urls(precompiled).index_of_first(url) {
        Some(index) => Some(precompiled[index].module),
        None => None,
    }
}

/// Whether `loaded` is `configured` together with `module`; a member of a
/// group loses the right to mutate.
pub open spec fn loads_as(
    loaded: LoadedPolicy,
    configured: PolicyRef,
    module: Module,
    in_group: bool,
) -> bool {
    &&& loaded.reference.artifact_url == configured.artifact_url
    &&& loaded.reference.mode == configured.mode
    &&& loaded.reference.allowed_to_mutate == (configured.allowed_to_mutate && !in_group)
    &&& loaded.reference.settings == configured.settings
    &&& loaded.reference.context_aware_resources@ == configured.context_aware_resources@
    &&& loaded.module == module
}

/// Whether `members` are the configured members with their modules.
pub open spec fn members_load_as(
    members: Seq<GroupMember>,
    configured: Seq<ConfiguredMember>,
    precompiled: Seq<PrecompiledPolicy>,
) -> bool {
    &&& members.len() == configured.len()
    &&& forall|i: int|
        0 <= i < configured.len() ==> {
            &&& (#[trigger] members[i]).name == configured[i].name
            &&& module_for(precompiled, configured[i].policy.artifact_url@) is Some
            &&& loads_as(
                members[i].policy,
                configured[i].policy,
                module_for(precompiled, configured[i].policy.artifact_url@)->Some_0,
                true,
            )
        }
}

/// Whether `entry` is what was configured, with the modules of its artifacts.
pub open spec fn entry_loads_as(
    entry: PolicyEntry,
    configured: PolicyOrPolicyGroup,
    precompiled: Seq<PrecompiledPolicy>,
) -> bool {
    match configured {
        PolicyOrPolicyGroup::Policy(policy) => {
            &&& entry matches PolicyEntry::Policy(loaded)
            &&& module_for(precompiled, policy.artifact_url@) is Some
            &&& loads_as(loaded, policy, module_for(precompiled, policy.artifact_url@)->Some_0, false)
        },
        PolicyOrPolicyGroup::PolicyGroup { members, expression, message } => {
            &&& entry matches PolicyEntry::Group(group)
            &&& members_load_as(group.members@, members@, precompiled)
            &&& group.expression == expression
            &&& group.message == message
        },
    }
}

proof fn lemma_first_occurrences(list: Seq<Seq<char>>, upto: nat)
    requires
        upto <= list.len(),
    ensures
        first_occurrences(list, upto).no_duplicates(),
        forall|u: Seq<char>|
            first_occurrences(list, upto).contains(u) <==> exists|i: int|
                0 <= i < upto && list[i] == u,
    decreases upto,
{
    if upto > 0 {
        let before = (upto - 1) as nat;
        lemma_first_occurrences(list, before);
        let earlier = first_occurrences(list, before);
        let now = first_occurrences(list, upto);
        let last = list[upto - 1];
        assert forall|u: Seq<char>| now.contains(u) <==> exists|i: int|
            0 <= i < upto && list[i] == u by {
            if now.contains(u) {
                let k = choose|k: int| 0 <= k < now.len() && now[k] == u;
                if k < earlier.len() {
                    assert(earlier[k] == u);
                    assert(earlier.contains(u));
                    let i = choose|i: int| 0 <= i < before && list[i] == u;
                    assert(0 <= i < upto && list[i] == u);
                } else {
                    assert(list[upto - 1] == u);
                }
            }
            if exists|i: int| 0 <= i < upto && list[i] == u {
                let i = choose|i: int| 0 <= i < upto && list[i] == u;
                if i < before {
                    assert(earlier.contains(u));
                    let k = choose|k: int| 0 <= k < earlier.len() && earlier[k] == u;
                    assert(now[k] == u);
                } else {
                    if earlier.contains(last) {
                    } else {
                        assert(now[now.len() - 1] == u);
                    }
                }
            }
        }
    }
}

/// Whether `url` is among the texts of `list`.
#[verifier::loop_isolation(false)]
fn holds_url(list: &Vec<String>, url: &String) -> (found: bool)
    ensures
        found == texts(list@).contains(url@),
{
    let mut i: usize = 0;
    while i < list.len()
        invariant
            i <= list.len(),
            forall|k: int| 0 <= k < i ==> texts(list@)[k] != url@,
        decreases list.len() - i,
    {
        if list[i] == *url {
            assert(texts(list@)[i as int] == url@);
            return true;
        }
        i += 1;
    }
    false
}

/// The distinct addresses of a list, each at the place of its first
/// occurrence.
pub fn distinct_urls(urls: &Vec<String>) -> (distinct: Vec<String>)
    ensures
        texts(distinct@) == first_occurrences(texts(urls@), urls.len() as nat),
        texts(distinct@).no_duplicates(),
        forall|u: Seq<char>| texts(distinct@).contains(u) <==> texts(urls@).contains(u),
{
    let mut distinct: Vec<String> = Vec::new();
    let mut i: usize = 0;
    assert(texts(distinct@) =~= Seq::empty());
    while i < urls.len()
        invariant
            i <= urls.len(),
            texts(distinct@) == first_occurrences(texts(urls@), i as nat),
        decreases urls.len() - i,
    {
        let ghost before = texts(distinct@);
        assert(texts(urls@)[i as int] == urls[i as int]@);
        if !holds_url(&distinct, &urls[i]) {
            distinct.push(urls[i].clone());
            assert(texts(distinct@) =~= before.push(urls[i as int]@));
        }
        i += 1;
    }
    proof {
        lemma_first_occurrences(texts(urls@), urls.len() as nat);
    }
    distinct
}

/// The artifacts to fetch for the configured policies: every artifact that a
/// policy or a member of a group refers to, once.
pub fn artifact_urls(policies: &Vec<ConfiguredPolicy>) -> (urls: Vec<String>)
    ensures
        texts(urls@) == first_occurrences(
            referenced_urls(policies@, policies.len() as nat),
            referenced_urls(policies@, policies.len() as nat).len(),
        ),
        texts(urls@).no_duplicates(),
        forall|u: Seq<char>|
            texts(urls@).contains(u) <==> referenced_urls(policies@, policies.len() as nat).contains(
                u,
            ),
{
    let mut all: Vec<String> = Vec::new();
    let mut i: usize = 0;
    assert(texts(all@) =~= Seq::empty());
    while i < policies.len()
        invariant
            i <= policies.len(),
            texts(all@) == referenced_urls(policies@, i as nat),
        decreases policies.len() - i,
    {
        let ghost before = texts(all@);
        match &policies[i].policy {
            PolicyOrPolicyGroup::Policy(policy) => {
                all.push(policy.artifact_url.clone());
                assert(texts(all@) =~= before + seq![policy.artifact_url@]);
            },
            PolicyOrPolicyGroup::PolicyGroup { members, .. } => {
                let mut j: usize = 0;
                assert(texts(all@) =~= before + member_urls(members@, 0));
                while j < members.len()
                    invariant
                        j <= members.len(),
                        texts(all@) == before + member_urls(members@, j as nat),
                    decreases members.len() - j,
                {
                    let ghost inner = texts(all@);
                    all.push(members[j].policy.artifact_url.clone());
                    assert(texts(all@) =~= inner.push(members[j as int].policy.artifact_url@));
                    assert(inner.push(members[j as int].policy.artifact_url@) =~= before
                        + member_urls(members@, (j + 1) as nat));
                    j += 1;
                }
            },
        }
        i += 1;
    }
    distinct_urls(&all)
}

/// The module of the artifact at `url`, if it was precompiled.
#[verifier::loop_isolation(false)]
pub fn find_module(precompiled: &Vec<PrecompiledPolicy>, url: &String) -> (found: Option<Module>)
    ensures
        found == module_for(precompiled@, url@),
{
    let ghost urls = precompiled_urls(precompiled@);
    proof {
        urls.index_of_first_ensures(url@);
    }
    let mut i: usize = 0;
    while i < precompiled.len()
        invariant
            i <= precompiled.len(),
            forall|k: int| 0 <= k < i ==> urls[k] != url@,
        decreases precompiled.len() - i,
    {
        if precompiled[i].url == *url {
            assert(urls[i as int] == url@);
            return Some(copy_module(&precompiled[i].module));
        }
        i += 1;
    }
    None
}

/// A copy of a configured policy.
fn copy_reference(policy: &PolicyRef, in_group: bool) -> (copy: PolicyRef)
    ensures
        copy.artifact_url == policy.artifact_url,
        copy.mode == policy.mode,
        copy.allowed_to_mutate == (policy.allowed_to_mutate && !in_group),
        copy.settings == policy.settings,
        copy.context_aware_resources@ == policy.context_aware_resources@,
{
    PolicyRef {
        artifact_url: policy.artifact_url.clone(),
        mode: policy.mode,
        allowed_to_mutate: policy.allowed_to_mutate && !in_group,
        settings: policy.settings.clone(),
        context_aware_resources: copy_resources(&policy.context_aware_resources),
    }
}

proof fn lemma_member_url_referenced(members: Seq<ConfiguredMember>, upto: nat, at: int)
    requires
        0 <= at < upto,
    ensures
        member_urls(members, upto).contains(members[at].policy.artifact_url@),
    decreases upto,
{
    let all = member_urls(members, upto);
    if at == upto - 1 {
        assert(all[all.len() - 1] == members[at].policy.artifact_url@);
    } else {
        lemma_member_url_referenced(members, (upto - 1) as nat, at);
        let earlier = member_urls(members, (upto - 1) as nat);
        let k = choose|k: int| 0 <= k < earlier.len() && earlier[k] == members[at].policy.artifact_url@;
        assert(all[k] == members[at].policy.artifact_url@);
    }
}

proof fn lemma_url_referenced(policies: Seq<ConfiguredPolicy>, upto: nat, at: int, url: Seq<char>)
    requires
        0 <= at < upto,
        policies[at].policy.urls().contains(url),
    ensures
        referenced_urls(policies, upto).contains(url),
    decreases upto,
{
    let earlier = referenced_urls(policies, (upto - 1) as nat);
    let last = policies[upto - 1].policy.urls();
    if at == upto - 1 {
        let k = choose|k: int| 0 <= k < last.len() && last[k] == url;
        assert((earlier + last)[earlier.len() + k] == url);
    } else {
        lemma_url_referenced(policies, (upto - 1) as nat, at, url);
        let k = choose|k: int| 0 <= k < earlier.len() && earlier[k] == url;
        assert((earlier + last)[k] == url);
    }
}

/// What loading the configured policies returns: the entries of the
/// environment, one for each configured policy and in their order, each
/// with the modules of its artifacts; or the address of an artifact that a
/// policy refers to and that was not precompiled.
pub open spec fn load_outcome(
    policies: Seq<ConfiguredPolicy>,
    precompiled: Seq<PrecompiledPolicy>,
    res: Result<Vec<EnvironmentEntry>, BuildError>,
) -> bool {
    match res {
        Ok(entries) => {
            &&& entries.len() == policies.len()
            &&& forall|i: int|
                0 <= i < policies.len() ==> (#[trigger] entries[i]).id == policies[i].id
                    && entry_loads_as(entries[i].entry, policies[i].policy, precompiled)
        },
        Err(BuildError::MissingModule(url)) => {
            &&& referenced_urls(policies, policies.len()).contains(url@)
            &&& module_for(precompiled, url@) is None
        },
        Err(_) => false,
    }
}

/// Gives every configured policy and every member of a configured group the
/// module of its artifact.
#[verifier::loop_isolation(false)]
pub fn load_entries(policies: &Vec<ConfiguredPolicy>, precompiled: &Vec<PrecompiledPolicy>) -> (res:
    Result<Vec<EnvironmentEntry>, BuildError>)
    ensures
        load_outcome(policies@, precompiled@, res),
{
    let mut entries: Vec<EnvironmentEntry> = Vec::new();
    let mut i: usize = 0;
    while i < policies.len()
        invariant
            i <= policies.len(),
            entries.len() == i,
            forall|k: int|
                0 <= k < i ==> (#[trigger] entries[k]).id == policies[k].id && entry_loads_as(
                    entries[k].entry,
                    policies[k].policy,
                    precompiled@,
                ),
        decreases policies.len() - i,
    {
        let entry = match &policies[i].policy {
            PolicyOrPolicyGroup::Policy(policy) => {
                match find_module(precompiled, &policy.artifact_url) {
                    None => {
                        proof {
                            assert(policies[i as int].policy.urls()[0] == policy.artifact_url@);
                            lemma_url_referenced(
                                policies@,
                                policies.len() as nat,
                                i as int,
                                policy.artifact_url@,
                            );
                        }
                        return Err(BuildError::MissingModule(policy.artifact_url.clone()));
                    },
                    Some(module) => PolicyEntry::Policy(
                        LoadedPolicy { reference: copy_reference(policy, false), module },
                    ),
                }
            },
            PolicyOrPolicyGroup::PolicyGroup { members, expression, message } => {
                let mut loaded: Vec<GroupMember> = Vec::new();
                let mut j: usize = 0;
                while j < members.len()
                    invariant
                        j <= members.len(),
                        loaded.len() == j,
                        forall|k: int|
                            0 <= k < j ==> {
                                &&& (#[trigger] loaded[k]).name == members[k].name
                                &&& module_for(precompiled@, members[k].policy.artifact_url@) is Some
                                &&& loads_as(
                                    loaded[k].policy,
                                    members[k].policy,
                                    module_for(precompiled@, members[k].policy.artifact_url@)->Some_0,
                                    true,
                                )
                            },
                    decreases members.len() - j,
                {
                    let member = &members[j];
                    match find_module(precompiled, &member.policy.artifact_url) {
                        None => {
                            proof {
                                lemma_member_url_referenced(
                                    members@,
                                    members.len() as nat,
                                    j as int,
                                );
                                lemma_url_referenced(
                                    policies@,
                                    policies.len() as nat,
                                    i as int,
                                    member.policy.artifact_url@,
                                );
                            }
                            return Err(
                                BuildError::MissingModule(member.policy.artifact_url.clone()),
                            );
                        },
                        Some(module) => {
                            loaded.push(
                                GroupMember {
                                    name: member.name.clone(),
                                    policy: LoadedPolicy {
                                        reference: copy_reference(&member.policy, true),
                                        module,
                                    },
                                },
                            );
                        },
                    }
                    j += 1;
                }
                PolicyEntry::Group(
                    PolicyGroup {
                        members: loaded,
                        expression: expression.duplicate(),
                        message: message.clone(),
                    },
                )
            },
        };
        entries.push(EnvironmentEntry { id: policies[i].id.clone(), entry });
        i += 1;
    }
    Ok(entries)
}

} // verus!
