//! Booting the server: which piece of outside work comes next, with which
//! parameters, and when a failure ends the boot.
//!
//! The boot is a state machine. The caller performs the action it is given
//! (fetch the trust root, connect to the cluster, download, compile, ...) and
//! reports how it went; [`Boot::step`] answers with the next action. Nothing is
//! served before the machine says [`BootAction::Serve`], and a fatal failure
//! ends in [`BootAction::Abort`].

use vstd::prelude::*;

verus! {

/// The part of the configuration that decides how the server boots.
#[derive(Clone, Debug, PartialEq, Eq)]
pub struct BootSettings {
    /// Boot without a cluster connection instead of failing.
    pub ignore_kubernetes_connection_failure: bool,
    /// Whether a signature verification policy is configured.
    pub verification_configured: bool,
    /// The wall-clock limit of one evaluation, if any.
    pub policy_evaluation_limit_seconds: Option<u64>,
    /// Keep booting when a policy cannot be fetched or compiled.
    pub continue_on_errors: bool,
    /// The namespace whose admission reviews are always accepted, if any.
    pub always_accept_admission_reviews_on_namespace: Option<String>,
    /// The number of evaluations that may run at the same time.
    pub pool_size: usize,
    /// Whether the main listener serves TLS.
    pub tls_configured: bool,
    /// Whether the profiling endpoints are served.
    pub enable_pprof: bool,
}

/// Where the boot stands: the piece of work whose outcome is awaited.
#[derive(Clone, Debug, PartialEq, Eq)]
pub enum BootStage {
    TrustRoot,
    Kubernetes,
    CallbackHandler,
    Downloader,
    Download,
    Engine,
    Precompile,
    Environment,
    EpochTicker,
    ApiState,
    Tls,
    Profiling,
    /// The boot succeeded.
    Ready,
    /// The boot failed for the given reason.
    Aborted(BootError),
}

/// How the piece of work the machine asked for went.
#[derive(Clone, Debug, PartialEq, Eq)]
pub enum StepOutcome {
    Done,
    /// It failed; the text says why. For the precompilation this is the
    /// error of a policy that could not be fetched or compiled.
    Failed(String),
}

/// Why a boot was aborted.
#[derive(Clone, Debug, PartialEq, Eq)]
pub enum BootError {
    /// The cluster cannot be reached and the configuration insists on it.
    KubernetesUnreachable,
    /// A policy could not be fetched or compiled and errors are not tolerated.
    BrokenPolicy(String),
    /// The callback handler could not be built.
    CallbackHandler(String),
    /// The downloader could not be created.
    Downloader(String),
    /// The bytecode engine could not be created.
    Engine(String),
    /// The evaluation environment could not be built.
    Environment(String),
    /// The TLS context could not be loaded.
    Tls(String),
    /// Memory profiling could not be activated.
    Profiling(String),
}

/// The next piece of outside work.
#[derive(Clone, Debug, PartialEq, Eq)]
pub enum BootAction {
    /// Load the signature-transparency trust root.
    CreateTrustRoot,
    /// Connect to the cluster.
    ConnectKubernetes,
    /// Build the callback handler, the only holder of the outside clients.
    BuildCallbackHandler { with_trust_root: bool, with_kubernetes: bool },
    /// Create the policy downloader.
    CreateDownloader { with_trust_root: bool },
    /// Fetch every policy, verifying signatures where asked.
    DownloadPolicies { verify: bool },
    /// Create the bytecode engine.
    CreateEngine { epoch_interruption: bool },
    /// Compile every fetched policy.
    PrecompilePolicies,
    /// Build the evaluation environment.
    BuildEnvironment {
        continue_on_errors: bool,
        always_accept_namespace: Option<String>,
        evaluation_limit_seconds: Option<u64>,
    },
    /// Start the task that advances the engine's epoch at the given period.
    StartEpochTicker { period_seconds: u64 },
    /// Create the state shared by the handlers, with its evaluation permits.
    CreateApiState { pool_size: usize },
    /// Load the TLS context and start watching its files.
    LoadTls,
    /// Activate memory profiling.
    ActivateProfiling,
    /// Build the routers; the server is ready to listen.
    Serve { with_tls: bool, with_pprof: bool },
    /// Give up.
    Abort(BootError),
}

/// The state of a boot.
#[derive(Clone, Debug, PartialEq, Eq)]
pub struct Boot {
    pub settings: BootSettings,
    pub stage: BootStage,
    /// Whether a trust root was obtained.
    pub trust_root: bool,
    /// Whether the cluster was reached.
    pub kubernetes: bool,
}

/// The epoch advances once per second.
pub const EPOCH_TICK_SECONDS: u64 = 1;

impl BootError {
    /// A copy of the error.
    pub fn duplicate(&self) -> (copy: BootError)
        ensures
            copy == *self,
    {
        match self {
            BootError::KubernetesUnreachable => BootError::KubernetesUnreachable,
            BootError::BrokenPolicy(text) => BootError::BrokenPolicy(text.clone()),
            BootError::CallbackHandler(text) => BootError::CallbackHandler(text.clone()),
            BootError::Downloader(text) => BootError::Downloader(text.clone()),
            BootError::Engine(text) => BootError::Engine(text.clone()),
            BootError::Environment(text) => BootError::Environment(text.clone()),
            BootError::Tls(text) => BootError::Tls(text.clone()),
            BootError::Profiling(text) => BootError::Profiling(text.clone()),
        }
    }
}

/// The message of [`BootError::KubernetesUnreachable`].
pub const KUBERNETES_UNREACHABLE_MESSAGE: &'static str =
    "Cannot connect to Kubernetes, context aware policies would not work properly";

impl BootError {
    /// The text of the error: a fixed one for an unreachable cluster, and for
    /// any other the error of the work that failed.
    pub open spec fn spec_message(self) -> Seq<char> {
        match self {
            BootError::KubernetesUnreachable => KUBERNETES_UNREACHABLE_MESSAGE@,
            BootError::BrokenPolicy(text) => text@,
            BootError::CallbackHandler(text) => text@,
            BootError::Downloader(text) => text@,
            BootError::Engine(text) => text@,
            BootError::Environment(text) => text@,
            BootError::Tls(text) => text@,
            BootError::Profiling(text) => text@,
        }
    }

    /// The text of the error.
    pub fn message(&self) -> (text: String)
        ensures
            text@ == self.spec_message(),
    {
        match self {
            BootError::KubernetesUnreachable => KUBERNETES_UNREACHABLE_MESSAGE.to_string(),
            BootError::BrokenPolicy(text) => text.clone(),
            BootError::CallbackHandler(text) => text.clone(),
            BootError::Downloader(text) => text.clone(),
            BootError::Engine(text) => text.clone(),
            BootError::Environment(text) => text.clone(),
            BootError::Tls(text) => text.clone(),
            BootError::Profiling(text) => text.clone(),
        }
    }
}

impl BootStage {
    /// Whether the boot is over.
    pub open spec fn is_final(self) -> bool {
        self is Ready || self is Aborted
    }

    /// The position of a stage in the boot order.
    pub open spec fn rank(self) -> nat {
        match self {
            BootStage::TrustRoot => 0,
            BootStage::Kubernetes => 1,
            BootStage::CallbackHandler => 2,
            BootStage::Downloader => 3,
            BootStage::Download => 4,
            BootStage::Engine => 5,
            BootStage::Precompile => 6,
            BootStage::Environment => 7,
            BootStage::EpochTicker => 8,
            BootStage::ApiState => 9,
            BootStage::Tls => 10,
            BootStage::Profiling => 11,
            BootStage::Ready => 12,
            BootStage::Aborted(_) => 12,
        }
    }
}

impl BootSettings {
    /// The stage that follows `stage` when its work is over: the next one in
    /// the boot order whose work the configuration asks for.
    pub open spec fn stage_after(self, stage: BootStage) -> BootStage {
        match stage {
            BootStage::TrustRoot => BootStage::Kubernetes,
            BootStage::Kubernetes => BootStage::CallbackHandler,
            BootStage::CallbackHandler => BootStage::Downloader,
            BootStage::Downloader => BootStage::Download,
            BootStage::Download => BootStage::Engine,
            BootStage::Engine => BootStage::Precompile,
            BootStage::Precompile => BootStage::Environment,
            BootStage::Environment => if self.policy_evaluation_limit_seconds is Some {
                BootStage::EpochTicker
            } else {
                BootStage::ApiState
            },
            BootStage::EpochTicker => BootStage::ApiState,
            BootStage::ApiState => if self.tls_configured {
                BootStage::Tls
            } else if self.enable_pprof {
                BootStage::Profiling
            } else {
                BootStage::Ready
            },
            BootStage::Tls => if self.enable_pprof {
                BootStage::Profiling
            } else {
                BootStage::Ready
            },
            BootStage::Profiling => BootStage::Ready,
            BootStage::Ready => BootStage::Ready,
            BootStage::Aborted(e) => BootStage::Aborted(e),
        }
    }
}

impl Boot {
    /// The boot before anything was done.
    pub open spec fn initial(settings: BootSettings) -> Boot {
        Boot { settings, stage: BootStage::TrustRoot, trust_root: false, kubernetes: false }
    }

    /// The action that a stage stands for.
    pub open spec fn action(self) -> BootAction {
        match self.stage {
            BootStage::TrustRoot => BootAction::CreateTrustRoot,
            BootStage::Kubernetes => BootAction::ConnectKubernetes,
            BootStage::CallbackHandler => BootAction::BuildCallbackHandler {
                with_trust_root: self.trust_root,
                with_kubernetes: self.kubernetes,
            },
            BootStage::Downloader => BootAction::CreateDownloader {
                with_trust_root: self.trust_root && self.settings.verification_configured,
            },
            BootStage::Download => BootAction::DownloadPolicies {
                verify: self.settings.verification_configured,
            },
            BootStage::Engine => BootAction::CreateEngine {
                epoch_interruption: self.settings.policy_evaluation_limit_seconds is Some,
            },
            BootStage::Precompile => BootAction::PrecompilePolicies,
            BootStage::Environment => BootAction::BuildEnvironment {
                continue_on_errors: self.settings.continue_on_errors,
                always_accept_namespace: self.settings.always_accept_admission_reviews_on_namespace,
                evaluation_limit_seconds: self.settings.policy_evaluation_limit_seconds,
            },
            BootStage::EpochTicker => BootAction::StartEpochTicker {
                period_seconds: EPOCH_TICK_SECONDS,
            },
            BootStage::ApiState => BootAction::CreateApiState {
                pool_size: self.settings.pool_size,
            },
            BootStage::Tls => BootAction::LoadTls,
            BootStage::Profiling => BootAction::ActivateProfiling,
            BootStage::Ready => BootAction::Serve {
                with_tls: self.settings.tls_configured,
                with_pprof: self.settings.enable_pprof,
            },
            BootStage::Aborted(e) => BootAction::Abort(e),
        }
    }

    /// Why a failure at the current stage ends the boot, if it does.
    ///
    /// A missing trust root only makes later verifications fail; a failed
    /// download is remembered per policy and surfaces at precompilation;
    /// starting the ticker and creating the shared state cannot fail.
    pub open spec fn fatal(self, text: String) -> Option<BootError> {
        match self.stage {
            BootStage::Kubernetes => if self.settings.ignore_kubernetes_connection_failure {
                None
            } else {
                Some(BootError::KubernetesUnreachable)
            },
            BootStage::CallbackHandler => Some(BootError::CallbackHandler(text)),
            BootStage::Downloader => Some(BootError::Downloader(text)),
            BootStage::Engine => Some(BootError::Engine(text)),
            BootStage::Precompile => if self.settings.continue_on_errors {
                None
            } else {
                Some(BootError::BrokenPolicy(text))
            },
            BootStage::Environment => Some(BootError::Environment(text)),
            BootStage::Tls => Some(BootError::Tls(text)),
            BootStage::Profiling => Some(BootError::Profiling(text)),
            _ => None,
        }
    }

    /// The boot after the outcome of the current stage's work.
    pub open spec fn next(self, outcome: StepOutcome) -> Boot {
        if self.stage.is_final() {
            self
        } else {
            let succeeded = outcome is Done;
            let abort = match outcome {
                StepOutcome::Done => None,
                StepOutcome::Failed(text) => self.fatal(text),
            };
            Boot {
                settings: self.settings,
                stage: match abort {
                    Some(e) => BootStage::Aborted(e),
                    None => self.settings.stage_after(self.stage),
                },
                trust_root: if self.stage is TrustRoot {
                    succeeded
                } else {
                    self.trust_root
                },
                kubernetes: if self.stage is Kubernetes {
                    succeeded
                } else {
                    self.kubernetes
                },
            }
        }
    }

    /// The boot after a run of outcomes, oldest first.
    pub open spec fn replay(self, outcomes: Seq<StepOutcome>) -> Boot
        decreases outcomes.len(),
    {
        if outcomes.len() == 0 {
            self
        } else {
            self.replay(outcomes.drop_last()).next(outcomes.last())
        }
    }

    /// Starts a boot. The first action is [`Boot::current_action`].
    pub fn new(settings: BootSettings) -> (boot: Boot)
        ensures
            boot == Boot::initial(settings),
    {
        Boot { settings, stage: BootStage::TrustRoot, trust_root: false, kubernetes: false }
    }

    /// The work the machine is waiting for.
    pub fn current_action(&self) -> (action: BootAction)
        ensures
            action == self.action(),
    {
        match &self.stage {
            BootStage::TrustRoot => BootAction::CreateTrustRoot,
            BootStage::Kubernetes => BootAction::ConnectKubernetes,
            BootStage::CallbackHandler => BootAction::BuildCallbackHandler {
                with_trust_root: self.trust_root,
                with_kubernetes: self.kubernetes,
            },
            BootStage::Downloader => BootAction::CreateDownloader {
                with_trust_root: self.trust_root && self.settings.verification_configured,
            },
            BootStage::Download => BootAction::DownloadPolicies {
                verify: self.settings.verification_configured,
            },
            BootStage::Engine => BootAction::CreateEngine {
                epoch_interruption: self.settings.policy_evaluation_limit_seconds.is_some(),
            },
            BootStage::Precompile => BootAction::PrecompilePolicies,
            BootStage::Environment => BootAction::BuildEnvironment {
                continue_on_errors: self.settings.continue_on_errors,
                always_accept_namespace: match &self.settings.always_accept_admission_reviews_on_namespace {
                    Some(namespace) => Some(namespace.clone()),
                    None => None,
                },
                evaluation_limit_seconds: self.settings.policy_evaluation_limit_seconds,
            },
            BootStage::EpochTicker => BootAction::StartEpochTicker {
                period_seconds: EPOCH_TICK_SECONDS,
            },
            BootStage::ApiState => BootAction::CreateApiState {
                pool_size: self.settings.pool_size,
            },
            BootStage::Tls => BootAction::LoadTls,
            BootStage::Profiling => BootAction::ActivateProfiling,
            BootStage::Ready => BootAction::Serve {
                with_tls: self.settings.tls_configured,
                with_pprof: self.settings.enable_pprof,
            },
            BootStage::Aborted(e) => BootAction::Abort(e.duplicate()),
        }
    }

    /// Takes the outcome of the work that was asked for and answers with the
    /// next action. Once the boot is over the answer no longer changes.
    pub fn step(&mut self, outcome: StepOutcome) -> (action: BootAction)
        ensures
            *final(self) == old(self).next(outcome),
            action == final(self).action(),
    {
        let over = match &self.stage {
            BootStage::Ready => true,
            BootStage::Aborted(_) => true,
            _ => false,
        };
        if !over {
            let succeeded = match &outcome {
                StepOutcome::Done => true,
                StepOutcome::Failed(_) => false,
            };
            let abort = match outcome {
                StepOutcome::Done => None,
                StepOutcome::Failed(text) => self.failure(text),
            };
            match &self.stage {
                BootStage::TrustRoot => {
                    self.trust_root = succeeded;
                },
                BootStage::Kubernetes => {
                    self.kubernetes = succeeded;
                },
                _ => {},
            }
            self.stage = match abort {
                Some(e) => BootStage::Aborted(e),
                None => self.following_stage(),
            };
        }
        self.current_action()
    }

    fn failure(&self, text: String) -> (abort: Option<BootError>)
        ensures
            abort == self.fatal(text),
    {
        match &self.stage {
            BootStage::Kubernetes => if self.settings.ignore_kubernetes_connection_failure {
                None
            } else {
                Some(BootError::KubernetesUnreachable)
            },
            BootStage::CallbackHandler => Some(BootError::CallbackHandler(text)),
            BootStage::Downloader => Some(BootError::Downloader(text)),
            BootStage::Engine => Some(BootError::Engine(text)),
            BootStage::Precompile => if self.settings.continue_on_errors {
                None
            } else {
                Some(BootError::BrokenPolicy(text))
            },
            BootStage::Environment => Some(BootError::Environment(text)),
            BootStage::Tls => Some(BootError::Tls(text)),
            BootStage::Profiling => Some(BootError::Profiling(text)),
            _ => None,
        }
    }

    fn following_stage(&self) -> (stage: BootStage)
        ensures
            stage == self.settings.stage_after(self.stage),
    {
        match &self.stage {
            BootStage::TrustRoot => BootStage::Kubernetes,
            BootStage::Kubernetes => BootStage::CallbackHandler,
            BootStage::CallbackHandler => BootStage::Downloader,
            BootStage::Downloader => BootStage::Download,
            BootStage::Download => BootStage::Engine,
            BootStage::Engine => BootStage::Precompile,
            BootStage::Precompile => BootStage::Environment,
            BootStage::Environment => if self.settings.policy_evaluation_limit_seconds.is_some() {
                BootStage::EpochTicker
            } else {
                BootStage::ApiState
            },
            BootStage::EpochTicker => BootStage::ApiState,
            BootStage::ApiState => if self.settings.tls_configured {
                BootStage::Tls
            } else if self.settings.enable_pprof {
                BootStage::Profiling
            } else {
                BootStage::Ready
            },
            BootStage::Tls => if self.settings.enable_pprof {
                BootStage::Profiling
            } else {
                BootStage::Ready
            },
            BootStage::Profiling => BootStage::Ready,
            BootStage::Ready => BootStage::Ready,
            BootStage::Aborted(e) => BootStage::Aborted(e.duplicate()),
        }
    }
}

impl BootSettings {
    /// Whether the configuration asks for the work of a stage.
    pub open spec fn asks_for(self, stage: BootStage) -> bool {
        match stage {
            BootStage::EpochTicker => self.policy_evaluation_limit_seconds is Some,
            BootStage::Tls => self.tls_configured,
            BootStage::Profiling => self.enable_pprof,
            BootStage::Ready => false,
            BootStage::Aborted(_) => false,
            _ => true,
        }
    }
}

/// The boot never goes back: a step from a stage whose work is awaited
/// either aborts or leads to a later stage, and every stage that a step
/// passes over without aborting is one the configuration does not ask for.
pub proof fn law_boot_advances(boot: Boot, outcome: StepOutcome)
    requires
        !boot.stage.is_final(),
    ensures
        boot.next(outcome).stage is Aborted || boot.next(outcome).stage.rank() > boot.stage.rank(),
        boot.next(outcome).settings == boot.settings,
        !(boot.next(outcome).stage is Aborted) ==> forall|between: BootStage|
            boot.stage.rank() < (#[trigger] between.rank()) < boot.next(outcome).stage.rank()
                ==> !boot.settings.asks_for(between),
{
}

/// Once the boot is over nothing changes any more.
pub proof fn law_boot_ends(boot: Boot, outcome: StepOutcome)
    requires
        boot.stage.is_final(),
    ensures
        boot.next(outcome) == boot,
{
}

/// Which failures end the boot. A cluster that cannot be reached ends it
/// unless the configuration says to ignore that; a broken policy ends it
/// unless errors are tolerated; a failure to build the callback handler, the
/// downloader, the engine or the environment, to load the TLS context or to
/// activate profiling always ends it; a missing trust root and a failed
/// download never do.
pub proof fn law_fatal_failures(boot: Boot, text: String)
    requires
        !boot.stage.is_final(),
    ensures
        boot.next(StepOutcome::Failed(text)).stage is Aborted <==> match boot.stage {
            BootStage::Kubernetes => !boot.settings.ignore_kubernetes_connection_failure,
            BootStage::Precompile => !boot.settings.continue_on_errors,
            BootStage::CallbackHandler => true,
            BootStage::Downloader => true,
            BootStage::Engine => true,
            BootStage::Environment => true,
            BootStage::Tls => true,
            BootStage::Profiling => true,
            _ => false,
        },
        boot.stage is Precompile && !boot.settings.continue_on_errors ==> boot.next(
            StepOutcome::Failed(text),
        ).stage == BootStage::Aborted(BootError::BrokenPolicy(text)),
{
}

/// A success never ends the boot in an abort.
pub proof fn law_success_never_aborts(boot: Boot)
    requires
        !(boot.stage is Aborted),
    ensures
        !(boot.next(StepOutcome::Done).stage is Aborted),
{
}

/// The epoch ticker is started exactly where an evaluation limit is
/// configured, and the engine interrupts on epochs exactly then.
pub proof fn law_ticker_needs_limit(boot: Boot)
    ensures
        boot.action() is StartEpochTicker ==> boot.stage is EpochTicker,
        boot.settings.stage_after(BootStage::Environment) is EpochTicker
            <==> boot.settings.policy_evaluation_limit_seconds is Some,
        boot.action() matches BootAction::CreateEngine { epoch_interruption }
            ==> epoch_interruption == boot.settings.policy_evaluation_limit_seconds is Some,
{
}

/// The downloader is given the trust root only where signatures are to be
/// verified and a trust root was obtained.
pub proof fn law_downloader_trust_root(boot: Boot)
    requires
        boot.stage is Downloader,
    ensures
        boot.action() == (BootAction::CreateDownloader {
            with_trust_root: boot.trust_root && boot.settings.verification_configured,
        }),
{
}

proof fn lemma_replay_prefix(boot: Boot, outcomes: Seq<StepOutcome>, n: int)
    requires
        0 <= n < outcomes.len(),
    ensures
        boot.replay(outcomes.take(n + 1)) == boot.replay(outcomes.take(n)).next(outcomes[n]),
{
    assert(outcomes.take(n + 1).drop_last() =~= outcomes.take(n));
}

proof fn lemma_replay_keeps_settings(boot: Boot, outcomes: Seq<StepOutcome>)
    ensures
        boot.replay(outcomes).settings == boot.settings,
    decreases outcomes.len(),
{
    if outcomes.len() > 0 {
        lemma_replay_keeps_settings(boot, outcomes.drop_last());
    }
}

proof fn lemma_earlier_stages_were_awaited(
    settings: BootSettings,
    outcomes: Seq<StepOutcome>,
    n: int,
    stage: BootStage,
)
    requires
        0 <= n <= outcomes.len(),
        !(Boot::initial(settings).replay(outcomes.take(n)).stage is Aborted),
        settings.asks_for(stage),
        stage.rank() < Boot::initial(settings).replay(outcomes.take(n)).stage.rank(),
    ensures
        exists|k: int|
            0 <= k < n && (#[trigger] Boot::initial(settings).replay(outcomes.take(k))).stage
                == stage,
    decreases n,
{
    let start = Boot::initial(settings);
    if n == 0 {
        assert(outcomes.take(0) =~= Seq::<StepOutcome>::empty());
    } else {
        let before = start.replay(outcomes.take(n - 1));
        lemma_replay_prefix(start, outcomes, n - 1);
        lemma_replay_keeps_settings(start, outcomes.take(n - 1));
        if before.stage.is_final() {
            lemma_earlier_stages_were_awaited(settings, outcomes, n - 1, stage);
        } else {
            law_boot_advances(before, outcomes[n - 1]);
            if stage.rank() < before.stage.rank() {
                lemma_earlier_stages_were_awaited(settings, outcomes, n - 1, stage);
            } else if stage.rank() == before.stage.rank() {
                assert(stage == before.stage);
            } else {
                assert(!settings.asks_for(stage));
            }
        }
    }
}

/// Nothing is served before the boot is complete: in a run of outcomes that
/// ends ready to serve, every piece of work that the configuration asks for
/// was awaited at some point before. In particular the callback handler and
/// the environment were built, the ticker was started where a limit is
/// configured, and the TLS context was loaded where TLS is configured.
pub proof fn law_ready_means_complete(
    settings: BootSettings,
    outcomes: Seq<StepOutcome>,
    stage: BootStage,
)
    requires
        Boot::initial(settings).replay(outcomes).stage is Ready,
        settings.asks_for(stage),
    ensures
        exists|k: int|
            0 <= k < outcomes.len() && (#[trigger] Boot::initial(settings).replay(
                outcomes.take(k),
            )).stage == stage,
{
    assert(outcomes.take(outcomes.len() as int) =~= outcomes);
    lemma_earlier_stages_were_awaited(settings, outcomes, outcomes.len() as int, stage);
}

} // verus!
