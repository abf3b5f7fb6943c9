//! Downloading one artifact: in which order its signatures are verified, it
//! is fetched and its digest is checked, and what a failure is reported as.
//!
//! The work itself is outside work. The caller performs the action it is
//! given and reports how it went; [`Download::step`] answers with the next
//! action. Every failure ends the download of this artifact, and of this
//! artifact only, with an error that names the policy and the address.

use crate::config::ConfiguredPolicy;
use crate::config::PolicyOrPolicyGroup;
use crate::precompile::Fetch;
use crate::precompile::FetchedArtifact;
use vstd::prelude::*;
use vstd::string::StringExecFns;

verus! {

/// Where a download stands.
#[derive(Clone, Debug, PartialEq, Eq)]
pub enum DownloadStage {
    /// The signatures of the artifact are being verified.
    Verifying,
    /// The artifact is being fetched into the local store.
    Fetching,
    /// The digest of the fetched file is being compared with the verified one.
    Checking,
    /// The download is over.
    Finished(Fetch),
}

/// How the piece of work the machine asked for went.
#[derive(Clone, Debug, PartialEq, Eq)]
pub enum DownloadEvent {
    /// It succeeded. The text is the verified digest after a verification and
    /// the local path after a fetch; after a check it means nothing.
    Done(String),
    /// It failed; the text says why.
    Failed(String),
}

/// The next piece of outside work.
#[derive(Clone, Debug, PartialEq, Eq)]
pub enum DownloadAction {
    /// Verify the signatures of the artifact against the trust root.
    VerifySignatures,
    /// Fetch the artifact into the local store.
    FetchArtifact,
    /// Compare the digest of the file at `local_path` with `digest`.
    CheckDigest { local_path: String, digest: String },
    /// Nothing is left to do.
    Finish(Fetch),
}

/// The state of the download of one artifact.
#[derive(Clone, Debug, PartialEq, Eq)]
pub struct Download {
    /// The address of the artifact.
    pub url: String,
    /// The identifier of the first configured policy that refers to it.
    pub policy_id: String,
    /// Whether the signatures are verified.
    pub verify: bool,
    pub stage: DownloadStage,
    /// The verified digest, once known.
    pub digest: String,
    /// The local path, once known.
    pub local_path: String,
}

/// Why an artifact whose signatures are to be verified is refused at once.
pub const TRUST_ROOT_ABSENT: &'static str = "trust root absent while verification requested";

/// The message of a failed download: the policy, the address and the cause.
pub open spec fn failure_text(policy_id: Seq<char>, url: Seq<char>, cause: Seq<char>) -> Seq<char> {
    "Error while downloading policy '"@ + policy_id + "' from "@ + url + ": "@ + cause
}

/// The message of a failed download.
pub fn failure_message(policy_id: &str, url: &str, cause: &str) -> (text: String)
    ensures
        text@ == failure_text(policy_id@, url@, cause@),
{
    "Error while downloading policy '".to_string().concat(policy_id).concat("' from ").concat(
        url,
    ).concat(": ").concat(cause)
}

impl View for FetchedArtifact {
    type V = (Seq<char>, Seq<char>, bool);

    open spec fn view(&self) -> (Seq<char>, Seq<char>, bool) {
        (self.local_path@, self.digest@, self.verified)
    }
}

impl View for Fetch {
    type V = Result<(Seq<char>, Seq<char>, bool), Seq<char>>;

    open spec fn view(&self) -> Result<(Seq<char>, Seq<char>, bool), Seq<char>> {
        match self {
            Fetch::Fetched(artifact) => Ok(artifact@),
            Fetch::Failed(error) => Err(error@),
        }
    }
}

/// The mathematical content of [`DownloadStage`].
pub enum StageView {
    Verifying,
    Fetching,
    Checking,
    Finished(Result<(Seq<char>, Seq<char>, bool), Seq<char>>),
}

/// The mathematical content of [`Download`].
pub struct DownloadView {
    pub url: Seq<char>,
    pub policy_id: Seq<char>,
    pub verify: bool,
    pub stage: StageView,
    pub digest: Seq<char>,
    pub local_path: Seq<char>,
}

/// The mathematical content of [`DownloadAction`].
pub enum ActionView {
    VerifySignatures,
    FetchArtifact,
    CheckDigest { local_path: Seq<char>, digest: Seq<char> },
    Finish(Result<(Seq<char>, Seq<char>, bool), Seq<char>>),
}

/// The mathematical content of [`DownloadEvent`].
pub enum EventView {
    Done(Seq<char>),
    Failed(Seq<char>),
}

impl View for DownloadStage {
    type V = StageView;

    open spec fn view(&self) -> StageView {
        match self {
            DownloadStage::Verifying => StageView::Verifying,
            DownloadStage::Fetching => StageView::Fetching,
            DownloadStage::Checking => StageView::Checking,
            DownloadStage::Finished(fetch) => StageView::Finished(fetch@),
        }
    }
}

impl View for Download {
    type V = DownloadView;

    open spec fn view(&self) -> DownloadView {
        DownloadView {
            url: self.url@,
            policy_id: self.policy_id@,
            verify: self.verify,
            stage: self.stage@,
            digest: self.digest@,
            local_path: self.local_path@,
        }
    }
}

impl View for DownloadAction {
    type V = ActionView;

    open spec fn view(&self) -> ActionView {
        match self {
            DownloadAction::VerifySignatures => ActionView::VerifySignatures,
            DownloadAction::FetchArtifact => ActionView::FetchArtifact,
            DownloadAction::CheckDigest { local_path, digest } => ActionView::CheckDigest {
                local_path: local_path@,
                digest: digest@,
            },
            DownloadAction::Finish(fetch) => ActionView::Finish(fetch@),
        }
    }
}

impl View for DownloadEvent {
    type V = EventView;

    open spec fn view(&self) -> EventView {
        match self {
            DownloadEvent::Done(text) => EventView::Done(text@),
            DownloadEvent::Failed(text) => EventView::Failed(text@),
        }
    }
}

impl DownloadView {
    /// The download before anything was done: refused at once where its
    /// signatures are to be verified and there is no trust root; else it
    /// starts with the verification where one is asked for, and with the
    /// fetch where none is.
    pub open spec fn initial(
        url: Seq<char>,
        policy_id: Seq<char>,
        verify: bool,
        trust_root: bool,
    ) -> DownloadView {
        DownloadView {
            url,
            policy_id,
            verify,
            stage: if verify && !trust_root {
                StageView::Finished(Err(failure_text(policy_id, url, TRUST_ROOT_ABSENT@)))
            } else if verify {
                StageView::Verifying
            } else {
                StageView::Fetching
            },
            digest: Seq::empty(),
            local_path: Seq::empty(),
        }
    }

    /// The action that a stage stands for.
    pub open spec fn action(self) -> ActionView {
        match self.stage {
            StageView::Verifying => ActionView::VerifySignatures,
            StageView::Fetching => ActionView::FetchArtifact,
            StageView::Checking => ActionView::CheckDigest {
                local_path: self.local_path,
                digest: self.digest,
            },
            StageView::Finished(fetch) => ActionView::Finish(fetch),
        }
    }

    /// The download after an event. A failure ends it with an error that
    /// names the policy and the address. A verification gives the digest, a
    /// fetch the local path; the digest of the file is checked only where
    /// one was verified.
    pub open spec fn next(self, event: EventView) -> DownloadView {
        match self.stage {
            StageView::Finished(_) => self,
            _ => match event {
                EventView::Failed(cause) => DownloadView {
                    stage: StageView::Finished(
                        Err(failure_text(self.policy_id, self.url, cause)),
                    ),
                    ..self
                },
                EventView::Done(text) => match self.stage {
                    StageView::Verifying => DownloadView {
                        stage: StageView::Fetching,
                        digest: text,
                        ..self
                    },
                    StageView::Fetching => if self.verify {
                        DownloadView { stage: StageView::Checking, local_path: text, ..self }
                    } else {
                        DownloadView {
                            stage: StageView::Finished(Ok((text, self.digest, false))),
                            local_path: text,
                            ..self
                        }
                    },
                    _ => DownloadView {
                        stage: StageView::Finished(Ok((self.local_path, self.digest, true))),
                        ..self
                    },
                },
            },
        }
    }
}

/// A copy of the outcome of a fetch.
pub fn copy_fetch(fetch: &Fetch) -> (copy: Fetch)
    ensures
        copy == *fetch,
{
    match fetch {
        Fetch::Fetched(artifact) => Fetch::Fetched(
            FetchedArtifact {
                local_path: artifact.local_path.clone(),
                digest: artifact.digest.clone(),
                verified: artifact.verified,
            },
        ),
        Fetch::Failed(error) => Fetch::Failed(error.clone()),
    }
}

impl Download {
    /// Starts the download of the artifact at `url`, which the policy
    /// `policy_id` refers to.
    pub fn new(url: String, policy_id: String, verify: bool, trust_root: bool) -> (download: Download)
        ensures
            download@ == DownloadView::initial(url@, policy_id@, verify, trust_root),
    {
        let stage = if verify && !trust_root {
            DownloadStage::Finished(
                Fetch::Failed(failure_message(policy_id.as_str(), url.as_str(), TRUST_ROOT_ABSENT)),
            )
        } else if verify {
            DownloadStage::Verifying
        } else {
            DownloadStage::Fetching
        };
        Download {
            url,
            policy_id,
            verify,
            stage,
            digest: String::new(),
            local_path: String::new(),
        }
    }

    /// The work the machine is waiting for.
    pub fn current_action(&self) -> (action: DownloadAction)
        ensures
            action@ == self@.action(),
    {
        match &self.stage {
            DownloadStage::Verifying => DownloadAction::VerifySignatures,
            DownloadStage::Fetching => DownloadAction::FetchArtifact,
            DownloadStage::Checking => DownloadAction::CheckDigest {
                local_path: self.local_path.clone(),
                digest: self.digest.clone(),
            },
            DownloadStage::Finished(fetch) => DownloadAction::Finish(copy_fetch(fetch)),
        }
    }

    /// Takes the outcome of the work that was asked for and answers with the
    /// next action. Once the download is over the answer no longer changes.
    pub fn step(&mut self, event: DownloadEvent) -> (action: DownloadAction)
        ensures
            final(self)@ == old(self)@.next(event@),
            action@ == final(self)@.action(),
    {
        let over = match &self.stage {
            DownloadStage::Finished(_) => true,
            _ => false,
        };
        if !over {
            match event {
                DownloadEvent::Failed(cause) => {
                    self.stage = DownloadStage::Finished(
                        Fetch::Failed(
                            failure_message(
                                self.policy_id.as_str(),
                                self.url.as_str(),
                                cause.as_str(),
                            ),
                        ),
                    );
                },
                DownloadEvent::Done(text) => {
                    let verifying = match &self.stage {
                        DownloadStage::Verifying => true,
                        _ => false,
                    };
                    let fetching = match &self.stage {
                        DownloadStage::Fetching => true,
                        _ => false,
                    };
                    if verifying {
                        self.digest = text;
                        self.stage = DownloadStage::Fetching;
                    } else if fetching {
                        self.local_path = text;
                        if self.verify {
                            self.stage = DownloadStage::Checking;
                        } else {
                            self.stage = DownloadStage::Finished(
                                Fetch::Fetched(
                                    FetchedArtifact {
                                        local_path: self.local_path.clone(),
                                        digest: self.digest.clone(),
                                        verified: false,
                                    },
                                ),
                            );
                        }
                    } else {
                        self.stage = DownloadStage::Finished(
                            Fetch::Fetched(
                                FetchedArtifact {
                                    local_path: self.local_path.clone(),
                                    digest: self.digest.clone(),
                                    verified: true,
                                },
                            ),
                        );
                    }
                },
            }
        }
        self.current_action()
    }
}

impl PolicyOrPolicyGroup {
    /// Whether this policy or group refers to the artifact at `url`.
    #[verifier::loop_isolation(false)]
    pub fn refers_to(&self, url: &String) -> (found: bool)
        ensures
            found == self.urls().contains(url@),
    {
        match self {
            PolicyOrPolicyGroup::Policy(policy) => {
                let found = policy.artifact_url == *url;
                proof {
                    let urls = self.urls();
                    assert(urls.len() == 1 && urls[0] == policy.artifact_url@);
                }
                found
            },
            PolicyOrPolicyGroup::PolicyGroup { members, .. } => {
                let mut i: usize = 0;
                while i < members.len()
                    invariant
                        i <= members.len(),
                        !crate::config::member_urls(members@, i as nat).contains(url@),
                    decreases members.len() - i,
                {
                    if members[i].policy.artifact_url == *url {
                        proof {
                            lemma_member_url_stays(members@, (i + 1) as nat, members.len() as nat, url@);
                            let now = crate::config::member_urls(members@, (i + 1) as nat);
                            assert(now[now.len() - 1] == url@);
                        }
                        return true;
                    }
                    proof {
                        let before = crate::config::member_urls(members@, i as nat);
                        let now = crate::config::member_urls(members@, (i + 1) as nat);
                        assert forall|k: int| 0 <= k < now.len() implies now[k] != url@ by {
                            if k < before.len() {
                                assert(before[k] == now[k]);
                            }
                        }
                    }
                    i += 1;
                }
                false
            },
        }
    }
}

proof fn lemma_member_url_stays(
    members: Seq<crate::config::ConfiguredMember>,
    found: nat,
    upto: nat,
    url: Seq<char>,
)
    requires
        found <= upto,
        crate::config::member_urls(members, found).len() > 0,
        crate::config::member_urls(members, found).last() == url,
    ensures
        crate::config::member_urls(members, upto).contains(url),
    decreases upto,
{
    let all = crate::config::member_urls(members, upto);
    if found < upto {
        lemma_member_url_stays(members, found, (upto - 1) as nat, url);
        let earlier = crate::config::member_urls(members, (upto - 1) as nat);
        let k = choose|k: int| 0 <= k < earlier.len() && earlier[k] == url;
        assert(all[k] == url);
    } else {
        assert(all[all.len() - 1] == url);
    }
}

/// The identifier of the first configured policy or group that refers to
/// the artifact at `url`, if there is one: the one a failed download names.
#[verifier::loop_isolation(false)]
pub fn first_referrer(policies: &Vec<ConfiguredPolicy>, url: &String) -> (id: Option<String>)
    ensures
        match id {
            Some(id) => exists|at: int|
                {
                    &&& 0 <= at < policies.len()
                    &&& (#[trigger] policies[at]).policy.urls().contains(url@)
                    &&& policies[at].id == id
                    &&& forall|before: int|
                        0 <= before < at ==> !(#[trigger] policies[before]).policy.urls().contains(
                            url@,
                        )
                },
            None => forall|at: int|
                0 <= at < policies.len() ==> !(#[trigger] policies[at]).policy.urls().contains(url@),
        },
{
    let mut i: usize = 0;
    while i < policies.len()
        invariant
            i <= policies.len(),
            forall|before: int|
                0 <= before < i ==> !(#[trigger] policies[before]).policy.urls().contains(url@),
        decreases policies.len() - i,
    {
        if policies[i].policy.refers_to(url) {
            return Some(policies[i].id.clone());
        }
        i += 1;
    }
    None
}

/// A failure at any stage ends the download of the artifact with an error
/// that names the policy and the address, and with nothing else.
pub proof fn law_failure_is_attached_to_its_artifact(download: DownloadView, cause: Seq<char>)
    requires
        !(download.stage is Finished),
    ensures
        download.next(EventView::Failed(cause)).stage == StageView::Finished(
            Err(failure_text(download.policy_id, download.url, cause)),
        ),
        download.next(EventView::Failed(cause)).url == download.url,
{
}

/// An artifact is surfaced as verified only after its signatures were
/// verified and the digest of the fetched file was checked: a step ends in a
/// verified artifact from the checking stage alone, and the checking stage
/// is entered from the fetching stage of a download that verifies alone.
pub proof fn law_verified_means_checked(download: DownloadView, event: EventView)
    requires
        !(download.stage is Finished),
    ensures
        download.next(event).stage matches StageView::Finished(Ok(artifact)) && artifact.2
            ==> download.stage is Checking,
        download.next(event).stage is Checking ==> download.stage is Fetching && download.verify,
        download.next(event).stage is Fetching ==> download.stage is Verifying,
{
}

/// Without a trust root, an artifact whose signatures are to be verified is
/// refused before anything is fetched.
pub proof fn law_no_trust_root_no_verified_download(url: Seq<char>, policy_id: Seq<char>)
    ensures
        DownloadView::initial(url, policy_id, true, false).stage == StageView::Finished(
            Err(failure_text(policy_id, url, TRUST_ROOT_ABSENT@)),
        ),
{
}

} // verus!
