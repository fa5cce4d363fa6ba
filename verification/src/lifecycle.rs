//! Bootstrap phases and the close-to-tray window policy.
//!
//! The host framework owns the window and the run loop; this module owns the
//! policy: which plugins and handlers the bootstrap registers, in which order
//! the phases advance, and what a window close request does — hide the window
//! and keep the process alive. Failure to start the run loop, like a failed
//! autostart activation on desktop, is fatal at startup; the host reports it.

use vstd::prelude::*;

verus! {

/// The capability plugins the bootstrap activates, besides autostart
/// (attempted separately, during the setup phase, on desktop only).
#[derive(Clone, Copy, Debug, PartialEq, Eq, Structural)]
pub enum Plugin {
    Shell,
    GlobalShortcut,
    Process,
    Updater,
    Store,
    Autostart,
}

/// The request handlers the bootstrap registers for the front-end.
#[derive(Clone, Copy, Debug, PartialEq, Eq, Structural)]
pub enum Handler {
    Greet,
    CheckUpdate,
    DownloadAndInstallUpdate,
}

/// Where the application stands in its life.
#[derive(Clone, Copy, Debug, PartialEq, Eq, Structural)]
pub enum Phase {
    Uninitialized,
    PluginsRegistered,
    HandlersRegistered,
    Running,
    /// A close request was honoured: the window is hidden, the process lives.
    HiddenButRunning,
    /// Reached only through an explicit quit, never through a close request.
    Terminated,
}

/// The fixed plugin activation order of the bootstrap.
pub open spec fn base_plugins() -> Seq<Plugin> {
    seq![Plugin::Shell, Plugin::GlobalShortcut, Plugin::Process, Plugin::Updater, Plugin::Store]
}

/// The fixed handler set the front-end may invoke.
pub open spec fn handler_set() -> Seq<Handler> {
    seq![Handler::Greet, Handler::CheckUpdate, Handler::DownloadAndInstallUpdate]
}

/// The reply to the host framework for a window close request.
#[derive(Clone, Copy, Debug, PartialEq, Eq, Structural)]
pub struct CloseReply {
    /// Suppress the default close action: the window must not be destroyed.
    pub prevent_close: bool,
    /// Hide the window instead of closing it.
    pub hide_window: bool,
}

/// The application lifecycle: one per process, created once at startup and
/// stepped by the host framework's callbacks.
pub struct Lifecycle {
    pub phase: Phase,
}

impl Lifecycle {
    /// True while the process serves front-end requests.
    pub open spec fn is_live(self) -> bool {
        self.phase == Phase::Running || self.phase == Phase::HiddenButRunning
    }

    /// The lifecycle a close request leaves behind: hidden, still running.
    pub open spec fn after_close_request(self) -> Lifecycle {
        Lifecycle { phase: Phase::HiddenButRunning }
    }

    pub fn new() -> (r: Lifecycle)
        ensures
            r.phase == Phase::Uninitialized,
    {
        Lifecycle { phase: Phase::Uninitialized }
    }

    /// Activate the fixed plugin set, in activation order.
    pub fn register_plugins(&mut self) -> (plugins: Vec<Plugin>)
        requires
            old(self).phase == Phase::Uninitialized,
        ensures
            final(self).phase == Phase::PluginsRegistered,
            plugins@ == base_plugins(),
    {
        self.phase = Phase::PluginsRegistered;
        let mut plugins: Vec<Plugin> = Vec::new();
        plugins.push(Plugin::Shell);
        plugins.push(Plugin::GlobalShortcut);
        plugins.push(Plugin::Process);
        plugins.push(Plugin::Updater);
        plugins.push(Plugin::Store);
        proof {
            assert(plugins@ =~= base_plugins());
        }
        plugins
    }

    /// Register the fixed, enumerable handler set for the front-end.
    pub fn register_handlers(&mut self) -> (handlers: Vec<Handler>)
        requires
            old(self).phase == Phase::PluginsRegistered,
        ensures
            final(self).phase == Phase::HandlersRegistered,
            handlers@ == handler_set(),
    {
        self.phase = Phase::HandlersRegistered;
        let mut handlers: Vec<Handler> = Vec::new();
        handlers.push(Handler::Greet);
        handlers.push(Handler::CheckUpdate);
        handlers.push(Handler::DownloadAndInstallUpdate);
        proof {
            assert(handlers@ =~= handler_set());
        }
        handlers
    }

    /// Hand control to the host framework's run loop.
    pub fn start(&mut self)
        requires
            old(self).phase == Phase::HandlersRegistered,
        ensures
            final(self).phase == Phase::Running,
    {
        self.phase = Phase::Running;
    }

    /// The sole custom lifecycle policy: a window close request suppresses
    /// the default close action and hides the window; the process stays
    /// alive and keeps serving requests.
    pub fn close_requested(&mut self) -> (r: CloseReply)
        requires
            old(self).is_live(),
        ensures
            *final(self) == old(self).after_close_request(),
            r.prevent_close,
            r.hide_window,
    {
        self.phase = Phase::HiddenButRunning;
        CloseReply { prevent_close: true, hide_window: true }
    }

    /// An explicit quit: the only transition into `Terminated`.
    pub fn quit(&mut self)
        requires
            old(self).is_live(),
        ensures
            final(self).phase == Phase::Terminated,
    {
        self.phase = Phase::Terminated;
    }

    /// Whether a front-end request may be dispatched now.
    pub fn can_handle_request(&self) -> (r: bool)
        ensures
            r == self.is_live(),
    {
        match self.phase {
            Phase::Running => true,
            Phase::HiddenButRunning => true,
            _ => false,
        }
    }
}

/// Law: a window close request never terminates the process. Afterwards the
/// application is hidden but live, still able to serve requests.
pub proof fn lemma_close_request_keeps_process_alive(pre: Lifecycle)
    requires
        pre.is_live(),
    ensures
        pre.after_close_request().is_live(),
        pre.after_close_request().phase != Phase::Terminated,
        pre.after_close_request().phase == Phase::HiddenButRunning,
{
}

/// Platform class the host reports at setup time.
#[derive(Clone, Copy, Debug, PartialEq, Eq, Structural)]
pub enum Platform {
    Desktop,
    Mobile,
}

/// What the bootstrap does after the autostart setup step.
#[derive(Debug, PartialEq, Eq)]
pub enum SetupOutcome {
    /// The bootstrap goes on.
    Continue,
    /// Fatal startup failure: the process terminates with this diagnostic.
    Fatal(String),
}

/// The diagnostic a failed autostart activation terminates with.
pub open spec fn autostart_diagnostic(error: Seq<char>) -> Seq<char> {
    "Failed to initialize autostart plugin: "@ + error
}

/// Decide the bootstrap's fate after the autostart setup step. Activation is
/// attempted exactly on desktop platforms; `activation` is its outcome there.
/// Failure to activate is fatal, with a diagnostic naming the error.
pub fn autostart_step(platform: Platform, activation: Option<Result<(), String>>) -> (r:
    SetupOutcome)
    requires
        (platform == Platform::Desktop) <==> (activation is Some),
    ensures
        platform == Platform::Mobile ==> r == SetupOutcome::Continue,
        activation matches Some(Ok(_)) ==> r == SetupOutcome::Continue,
        activation matches Some(Err(e)) ==> (r matches SetupOutcome::Fatal(m) && m@
            == autostart_diagnostic(e@)),
{
    match activation {
        None => SetupOutcome::Continue,
        Some(Ok(())) => SetupOutcome::Continue,
        Some(Err(e)) => {
            let mut m = String::from_str("Failed to initialize autostart plugin: ");
            m.append(e.as_str());
            SetupOutcome::Fatal(m)
        },
    }
}

} // verus!
