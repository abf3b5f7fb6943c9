//! Certificate rotation: which file notifications complete a rotation.
//!
//! The server watches the certificate file, the key file and, when mutual TLS
//! is configured, the client CA bundle. A write to one of them marks it dirty.
//! The TLS context is rebuilt once the server material has been replaced as a
//! whole (certificate and key both dirty), or once the client CA bundle is
//! dirty while the server material is consistent (both clean or both dirty).

use vstd::prelude::*;
use vstd::string::StringExecFns;

verus! {

/// Where the TLS material of the server is kept.
#[derive(Clone, Debug, PartialEq, Eq)]
pub struct TlsConfig {
    pub cert_file: String,
    pub key_file: String,
    /// The client CA bundle; with it the server asks clients for a certificate.
    pub client_ca_file: Option<String>,
}

/// Why the TLS settings make no sense.
#[derive(Clone, Copy, Debug, PartialEq, Eq, Structural)]
pub enum TlsConfigError {
    /// Only one of the certificate file and the key file is given.
    IncompleteServerMaterial,
    /// A client CA bundle is given, but no certificate and key.
    ClientCaWithoutServerMaterial,
}

/// The role of a watched file.
#[derive(Clone, Copy, Debug, PartialEq, Eq, Structural)]
pub enum WatchedFile {
    Certificate,
    Key,
    ClientCa,
}

/// A file to watch for writes.
#[derive(Clone, Debug, PartialEq, Eq)]
pub struct Watch {
    pub file: WatchedFile,
    pub path: String,
}

/// The step of setting up the watcher that failed.
#[derive(Clone, Copy, Debug, PartialEq, Eq, Structural)]
pub enum WatchSetupStep {
    Initialize,
    WatchCertificate,
    WatchKey,
    WatchClientCa,
    EventStream,
}

/// The watch descriptors handed out by the notification facility.
///
/// Two files that resolve to the same inode share one descriptor, so a single
/// notification may concern more than one role.
#[derive(Clone, Copy, Debug, PartialEq, Eq)]
pub struct Watches {
    pub cert: i32,
    pub key: i32,
    pub client_ca: Option<i32>,
}

/// One item read from the notification stream.
#[derive(Clone, Copy, Debug, PartialEq, Eq)]
pub enum WatchEvent {
    /// The file behind this descriptor was closed after being written.
    Modified(i32),
    /// The stream produced an error instead of an event.
    Unreadable,
}

/// What the watcher has to do after an event.
#[derive(Clone, Copy, Debug, PartialEq, Eq, Structural)]
pub enum ReloadAction {
    /// Keep serving with the current TLS context.
    Wait,
    /// Build a new TLS context from the files on disk.
    Rebuild,
}

/// What to do with the outcome of a rebuild.
#[derive(Clone, Copy, Debug, PartialEq, Eq, Structural)]
pub enum SwapDecision {
    /// Make the new context the active one; open connections keep the old one.
    Swap,
    /// The rebuild failed: keep the previous context.
    KeepPrevious,
}

/// The dirty flags of the three watched files.
#[derive(Clone, Copy, Debug, PartialEq, Eq, Structural)]
pub struct ReloadState {
    pub cert_changed: bool,
    pub key_changed: bool,
    pub client_ca_changed: bool,
}

impl Watches {
    /// Whether `wd` is the descriptor of the client CA bundle.
    pub open spec fn is_client_ca(self, wd: i32) -> bool {
        self.client_ca == Some(wd)
    }
}

impl ReloadState {
    /// All three files clean.
    pub open spec fn clean() -> ReloadState {
        ReloadState { cert_changed: false, key_changed: false, client_ca_changed: false }
    }

    /// The flags after the file behind `wd` has been written.
    pub open spec fn marked(self, watches: Watches, wd: i32) -> ReloadState {
        ReloadState {
            cert_changed: self.cert_changed || wd == watches.cert,
            key_changed: self.key_changed || wd == watches.key,
            client_ca_changed: self.client_ca_changed || watches.is_client_ca(wd),
        }
    }

    /// The rotation rule: the server material was replaced as a whole, or the
    /// client CA bundle changed while the server material is consistent.
    pub open spec fn rotation_complete(self) -> bool {
        (self.key_changed && self.cert_changed) || (self.client_ca_changed && (self.key_changed
            == self.cert_changed))
    }

    /// The flags and the action that follow one event.
    pub open spec fn step(self, watches: Watches, event: WatchEvent) -> (ReloadState, ReloadAction) {
        match event {
            WatchEvent::Unreadable => (self, ReloadAction::Wait),
            WatchEvent::Modified(wd) => {
                let marked = self.marked(watches, wd);
                if marked.rotation_complete() {
                    (ReloadState::clean(), ReloadAction::Rebuild)
                } else {
                    (marked, ReloadAction::Wait)
                }
            },
        }
    }

    /// A watcher that has seen no write yet.
    pub fn new() -> (state: ReloadState)
        ensures
            state == ReloadState::clean(),
    {
        ReloadState { cert_changed: false, key_changed: false, client_ca_changed: false }
    }

    /// Records one event and says whether the TLS context has to be rebuilt.
    /// A rebuild clears all flags, whether or not it succeeds afterwards.
    pub fn on_event(&mut self, watches: &Watches, event: WatchEvent) -> (action: ReloadAction)
        ensures
            (*final(self), action) == old(self).step(*watches, event),
    {
        match event {
            WatchEvent::Unreadable => ReloadAction::Wait,
            WatchEvent::Modified(wd) => {
                if wd == watches.cert {
                    self.cert_changed = true;
                }
                if wd == watches.key {
                    self.key_changed = true;
                }
                match watches.client_ca {
                    Some(client_ca) => {
                        if wd == client_ca {
                            self.client_ca_changed = true;
                        }
                    },
                    None => {},
                }
                if (self.key_changed && self.cert_changed) || (self.client_ca_changed && (
                self.key_changed == self.cert_changed)) {
                    self.cert_changed = false;
                    self.key_changed = false;
                    self.client_ca_changed = false;
                    ReloadAction::Rebuild
                } else {
                    ReloadAction::Wait
                }
            },
        }
    }
}

/// The TLS configuration that the three optional file settings stand for:
/// none without any of them, one with certificate and key, and an error
/// where certificate and key do not come together or a client CA bundle
/// comes without them.
pub open spec fn tls_settings(
    cert_file: Option<String>,
    key_file: Option<String>,
    client_ca_file: Option<String>,
) -> Result<Option<TlsConfig>, TlsConfigError> {
    match (cert_file, key_file) {
        (Some(cert_file), Some(key_file)) => Ok(Some(TlsConfig { cert_file, key_file, client_ca_file })),
        (None, None) => if client_ca_file is Some {
            Err(TlsConfigError::ClientCaWithoutServerMaterial)
        } else {
            Ok(None)
        },
        _ => Err(TlsConfigError::IncompleteServerMaterial),
    }
}

impl TlsConfig {
    /// Reads the TLS configuration out of the three optional file settings.
    pub fn from_settings(
        cert_file: Option<String>,
        key_file: Option<String>,
        client_ca_file: Option<String>,
    ) -> (res: Result<Option<TlsConfig>, TlsConfigError>)
        ensures
            res == tls_settings(cert_file, key_file, client_ca_file),
    {
        match (cert_file, key_file) {
            (Some(cert_file), Some(key_file)) => Ok(
                Some(TlsConfig { cert_file, key_file, client_ca_file }),
            ),
            (None, None) => match client_ca_file {
                Some(_) => Err(TlsConfigError::ClientCaWithoutServerMaterial),
                None => Ok(None),
            },
            _ => Err(TlsConfigError::IncompleteServerMaterial),
        }
    }
}

impl TlsConfigError {
    /// The text of the error.
    pub open spec fn spec_message(self) -> Seq<char> {
        match self {
            TlsConfigError::IncompleteServerMaterial =>
                "either both or neither of the certificate file and the key file must be provided"@,
            TlsConfigError::ClientCaWithoutServerMaterial =>
                "a client CA bundle cannot be used without a server certificate and key"@,
        }
    }

    /// The text of the error.
    pub fn message(&self) -> (text: String)
        ensures
            text@ == self.spec_message(),
    {
        match self {
            TlsConfigError::IncompleteServerMaterial =>
                "either both or neither of the certificate file and the key file must be provided".to_string(),
            TlsConfigError::ClientCaWithoutServerMaterial =>
                "a client CA bundle cannot be used without a server certificate and key".to_string(),
        }
    }
}

/// The mathematical content of [`Watch`].
pub open spec fn watch_views(watches: Seq<Watch>) -> Seq<(WatchedFile, Seq<char>)> {
    watches.map_values(|watch: Watch| (watch.file, watch.path@))
}

/// The files the watcher registers, in this order: the certificate, the key
/// and, where there is one, the client CA bundle.
pub open spec fn watched_files(config: TlsConfig) -> Seq<(WatchedFile, Seq<char>)> {
    let server = seq![
        (WatchedFile::Certificate, config.cert_file@),
        (WatchedFile::Key, config.key_file@),
    ];
    match config.client_ca_file {
        Some(path) => server.push((WatchedFile::ClientCa, path@)),
        None => server,
    }
}

/// The files to watch for a TLS configuration.
pub fn watch_plan(config: &TlsConfig) -> (watches: Vec<Watch>)
    ensures
        watch_views(watches@) == watched_files(*config),
{
    let mut watches: Vec<Watch> = Vec::new();
    watches.push(Watch { file: WatchedFile::Certificate, path: config.cert_file.clone() });
    watches.push(Watch { file: WatchedFile::Key, path: config.key_file.clone() });
    match &config.client_ca_file {
        Some(path) => {
            watches.push(Watch { file: WatchedFile::ClientCa, path: path.clone() });
        },
        None => {},
    }
    assert(watch_views(watches@) =~= watched_files(*config));
    watches
}

impl WatchSetupStep {
    /// What is said before the cause of a failure of this step.
    pub open spec fn context(self) -> Seq<char> {
        match self {
            WatchSetupStep::Initialize => "Cannot initialize inotify: "@,
            WatchSetupStep::WatchCertificate => "Cannot watch certificate file: "@,
            WatchSetupStep::WatchKey => "Cannot watch key file: "@,
            WatchSetupStep::WatchClientCa => "Cannot watch client certificate file: "@,
            WatchSetupStep::EventStream => "Cannot create inotify event stream: "@,
        }
    }

    /// The message of a failure of this step: what failed, then the cause.
    pub fn failure_message(self, cause: &str) -> (text: String)
        ensures
            text@ == self.context() + cause@,
    {
        let context = match self {
            WatchSetupStep::Initialize => "Cannot initialize inotify: ",
            WatchSetupStep::WatchCertificate => "Cannot watch certificate file: ",
            WatchSetupStep::WatchKey => "Cannot watch key file: ",
            WatchSetupStep::WatchClientCa => "Cannot watch client certificate file: ",
            WatchSetupStep::EventStream => "Cannot create inotify event stream: ",
        };
        context.to_string().concat(cause)
    }
}

/// What to do with the outcome of a rebuild: a context that was built
/// replaces the active one; after a failure the previous one stays.
pub fn after_rebuild(built: bool) -> (decision: SwapDecision)
    ensures
        decision == if built {
            SwapDecision::Swap
        } else {
            SwapDecision::KeepPrevious
        },
{
    if built {
        SwapDecision::Swap
    } else {
        SwapDecision::KeepPrevious
    }
}

impl ReloadState {
    /// The flags after a run of events, oldest first, and the number of
    /// rebuilds it asked for.
    pub open spec fn replay(self, watches: Watches, events: Seq<WatchEvent>) -> (ReloadState, nat)
        decreases events.len(),
    {
        if events.len() == 0 {
            (self, 0)
        } else {
            let (state, rebuilds) = self.replay(watches, events.drop_last());
            let (next, action) = state.step(watches, events.last());
            (
                next,
                if action == ReloadAction::Rebuild {
                    rebuilds + 1
                } else {
                    rebuilds
                },
            )
        }
    }
}

/// A rebuild starts from clean flags: whatever was dirty is forgotten, also
/// where the rebuild fails afterwards.
pub proof fn law_rebuild_clears_flags(state: ReloadState, watches: Watches, event: WatchEvent)
    requires
        state.step(watches, event).1 == ReloadAction::Rebuild,
    ensures
        state.step(watches, event).0 == ReloadState::clean(),
{
}

/// The context is rebuilt exactly when the rotation rule holds of the flags
/// after the write; an unreadable event changes nothing.
pub proof fn law_rebuild_follows_rule(state: ReloadState, watches: Watches, event: WatchEvent)
    ensures
        state.step(watches, event).1 == ReloadAction::Rebuild <==> (event matches WatchEvent::Modified(wd)
            && state.marked(watches, wd).rotation_complete()),
        event is Unreadable ==> state.step(watches, event).0 == state,
{
}

/// Replacing the certificate alone changes nothing: where the three files
/// are distinct, no number of writes to the certificate file makes the server
/// rebuild its context.
pub proof fn law_certificate_alone_never_rebuilds(watches: Watches, events: Seq<WatchEvent>)
    requires
        watches.cert != watches.key,
        !watches.is_client_ca(watches.cert),
        forall|i: int|
            0 <= i < events.len() ==> events[i] is Unreadable || events[i] == WatchEvent::Modified(
                watches.cert,
            ),
    ensures
        ReloadState::clean().replay(watches, events).1 == 0,
        !ReloadState::clean().replay(watches, events).0.key_changed,
        !ReloadState::clean().replay(watches, events).0.client_ca_changed,
    decreases events.len(),
{
    if events.len() > 0 {
        law_certificate_alone_never_rebuilds(watches, events.drop_last());
    }
}

/// Replacing the key after the certificate completes the rotation: where the
/// certificate is dirty and the client CA bundle is not, a write to the key
/// file makes the server rebuild its context.
pub proof fn law_key_after_certificate_rebuilds(state: ReloadState, watches: Watches)
    requires
        state.cert_changed,
    ensures
        state.step(watches, WatchEvent::Modified(watches.key)).1 == ReloadAction::Rebuild,
{
}

} // verus!
