//! Precompilation: which fetched artifacts are compiled, and what becomes of
//! the policies whose artifact could not be fetched.
//!
//! Compiling is outside work and may run in parallel, one artifact at a time.
//! An artifact that was fetched is compiled; the error of one that was not is
//! passed on unchanged in place of a module. Whether an error ends the boot is
//! decided from the first error found.

use crate::boot::StepOutcome;
use crate::policy::Module;
use vstd::prelude::*;

verus! {

/// An artifact in the local store.
#[derive(Clone, Debug, PartialEq, Eq)]
pub struct FetchedArtifact {
    pub local_path: String,
    pub digest: String,
    /// Whether its signatures were verified.
    pub verified: bool,
}

/// What became of fetching one artifact.
#[derive(Clone, Debug, PartialEq, Eq)]
pub enum Fetch {
    Fetched(FetchedArtifact),
    /// The text is the error of the download or of the verification.
    Failed(String),
}

/// The outcome of fetching the artifact at `url`.
#[derive(Clone, Debug, PartialEq, Eq)]
pub struct FetchedPolicy {
    pub url: String,
    pub fetch: Fetch,
}

/// The module of the artifact at `url`.
#[derive(Clone, Debug, PartialEq, Eq)]
pub struct PrecompiledPolicy {
    pub url: String,
    pub module: Module,
}

/// How many of the first `upto` artifacts were fetched.
pub open spec fn fetched_among(fetched: Seq<FetchedPolicy>, upto: nat) -> nat
    decreases upto,
{
    if upto == 0 {
        0
    } else {
        fetched_among(fetched, (upto - 1) as nat) + if fetched[upto - 1].fetch is Fetched {
            1nat
        } else {
            0nat
        }
    }
}

/// The positions of the artifacts among the first `upto` that were fetched,
/// in their order: the artifacts to compile.
pub open spec fn compile_targets(fetched: Seq<FetchedPolicy>, upto: nat) -> Seq<usize>
    decreases upto,
{
    if upto == 0 {
        Seq::empty()
    } else {
        let earlier = compile_targets(fetched, (upto - 1) as nat);
        if fetched[upto - 1].fetch is Fetched {
            earlier.push((upto - 1) as usize)
        } else {
            earlier
        }
    }
}

/// The module of the artifact at `position`: the error of the fetch passed
/// on, or what compiling it gave, the results of compiling being in the order
/// of the targets.
pub open spec fn module_at(fetched: Seq<FetchedPolicy>, compiled: Seq<Module>, position: int) -> Result<
    usize,
    Seq<char>,
> {
    match fetched[position].fetch {
        Fetch::Failed(error) => Err(error@),
        Fetch::Fetched(_) => compiled[fetched_among(fetched, position as nat) as int]@,
    }
}

/// The error of the first module among the first `upto` that is broken.
pub open spec fn first_broken(precompiled: Seq<PrecompiledPolicy>, upto: nat) -> Option<Seq<char>>
    decreases upto,
{
    if upto == 0 {
        None
    } else {
        match first_broken(precompiled, (upto - 1) as nat) {
            Some(error) => Some(error),
            None => match precompiled[upto - 1].module {
                Module::Broken(error) => Some(error@),
                Module::Compiled(_) => None,
            },
        }
    }
}

proof fn lemma_targets_count(fetched: Seq<FetchedPolicy>, upto: nat)
    ensures
        compile_targets(fetched, upto).len() == fetched_among(fetched, upto),
        fetched_among(fetched, upto) <= upto,
    decreases upto,
{
    if upto > 0 {
        lemma_targets_count(fetched, (upto - 1) as nat);
    }
}

/// The positions of the artifacts to compile: those that were fetched.
pub fn precompile_targets(fetched: &Vec<FetchedPolicy>) -> (targets: Vec<usize>)
    ensures
        targets@ == compile_targets(fetched@, fetched.len() as nat),
        targets.len() == fetched_among(fetched@, fetched.len() as nat),
{
    let mut targets: Vec<usize> = Vec::new();
    let mut i: usize = 0;
    while i < fetched.len()
        invariant
            i <= fetched.len(),
            targets@ == compile_targets(fetched@, i as nat),
        decreases fetched.len() - i,
    {
        match &fetched[i].fetch {
            Fetch::Fetched(_) => {
                targets.push(i);
            },
            Fetch::Failed(_) => {},
        }
        i += 1;
    }
    proof {
        lemma_targets_count(fetched@, fetched.len() as nat);
    }
    targets
}

/// Puts the modules together: for every artifact, in the order of `fetched`,
/// the module that compiling gave, or the error of its fetch passed on.
/// `compiled` holds what compiling gave for each target, in their order;
/// where it does not hold one result for each target, nothing is put
/// together.
pub fn precompile_policies(fetched: &Vec<FetchedPolicy>, compiled: Vec<Module>) -> (res: Option<
    Vec<PrecompiledPolicy>,
>)
    ensures
        match res {
            Some(precompiled) => {
                &&& compiled.len() == fetched_among(fetched@, fetched.len() as nat)
                &&& precompiled.len() == fetched.len()
                &&& forall|i: int|
                    0 <= i < fetched.len() ==> (#[trigger] precompiled[i]).url@ == fetched[i].url@
                        && precompiled[i].module@ == module_at(fetched@, compiled@, i)
            },
            None => compiled.len() != fetched_among(fetched@, fetched.len() as nat),
        },
{
    let targets = precompile_targets(fetched);
    if compiled.len() != targets.len() {
        return None;
    }
    let mut precompiled: Vec<PrecompiledPolicy> = Vec::new();
    let mut next: usize = 0;
    let mut i: usize = 0;
    while i < fetched.len()
        invariant
            i <= fetched.len(),
            next == fetched_among(fetched@, i as nat),
            compiled.len() == fetched_among(fetched@, fetched.len() as nat),
            precompiled.len() == i,
            forall|k: int|
                0 <= k < i ==> (#[trigger] precompiled[k]).url@ == fetched[k].url@
                    && precompiled[k].module@ == module_at(fetched@, compiled@, k),
        decreases fetched.len() - i,
    {
        proof {
            lemma_count_grows(fetched@, (i + 1) as nat, fetched.len() as nat);
        }
        let module = match &fetched[i].fetch {
            Fetch::Failed(error) => Module::Broken(error.clone()),
            Fetch::Fetched(_) => {
                let module = copy_module(&compiled[next]);
                next += 1;
                module
            },
        };
        precompiled.push(PrecompiledPolicy { url: fetched[i].url.clone(), module });
        i += 1;
    }
    Some(precompiled)
}

proof fn lemma_count_grows(fetched: Seq<FetchedPolicy>, from: nat, upto: nat)
    requires
        from <= upto,
    ensures
        fetched_among(fetched, from) <= fetched_among(fetched, upto),
    decreases upto,
{
    if from < upto {
        lemma_count_grows(fetched, from, (upto - 1) as nat);
    }
}

/// A copy of a module.
pub fn copy_module(module: &Module) -> (copy: Module)
    ensures
        copy == *module,
{
    match module {
        Module::Compiled(handle) => Module::Compiled(*handle),
        Module::Broken(error) => Module::Broken(error.clone()),
    }
}

/// The outcome of the precompilation as the boot sees it: failed with the
/// error of the first broken module, or done where no module is broken.
pub fn precompile_outcome(precompiled: &Vec<PrecompiledPolicy>) -> (outcome: StepOutcome)
    ensures
        match outcome {
            StepOutcome::Done => first_broken(precompiled@, precompiled.len() as nat) is None,
            StepOutcome::Failed(error) => first_broken(precompiled@, precompiled.len() as nat)
                == Some(error@),
        },
{
    let mut i: usize = 0;
    while i < precompiled.len()
        invariant
            i <= precompiled.len(),
            first_broken(precompiled@, i as nat) is None,
        decreases precompiled.len() - i,
    {
        match &precompiled[i].module {
            Module::Broken(error) => {
                proof {
                    lemma_broken_stays(precompiled@, (i + 1) as nat, precompiled.len() as nat);
                }
                return StepOutcome::Failed(error.clone());
            },
            Module::Compiled(_) => {},
        }
        i += 1;
    }
    StepOutcome::Done
}

proof fn lemma_broken_stays(precompiled: Seq<PrecompiledPolicy>, found: nat, upto: nat)
    requires
        found <= upto,
        first_broken(precompiled, found) is Some,
    ensures
        first_broken(precompiled, upto) == first_broken(precompiled, found),
    decreases upto,
{
    if found < upto {
        lemma_broken_stays(precompiled, found, (upto - 1) as nat);
    }
}

} // verus!
