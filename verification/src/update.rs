//! The update controller: replies to the front-end's two update requests
//! from the outcomes the external updater reports.
//!
//! The updater object, its network traffic and the install mechanics belong
//! to the host framework's update plugin; the host awaits those calls and
//! hands their outcomes here as plain values. This module owns the replies:
//! what a check outcome means for each request, when an install is ordered,
//! and that every failure comes back to the caller as its error text,
//! unretried.

use vstd::prelude::*;

verus! {

/// What a completed update check reported.
#[derive(Debug, PartialEq, Eq)]
pub enum CheckOutcome {
    /// The running version is current: no newer version exists.
    UpToDate,
    /// A newer version exists, with its identifier.
    Newer(String),
}

/// Reply to a `check_update` request from the outcome of asking the external
/// updater. A newer version answers with its identifier, a current one with
/// no identifier; a failure — whether the updater could not be obtained or
/// the check itself failed — is returned verbatim as the error text.
pub fn check_update(outcome: Result<CheckOutcome, String>) -> (r: Result<Option<String>, String>)
    ensures
        outcome matches Ok(CheckOutcome::Newer(v)) ==> (r matches Ok(Some(rv)) && rv == v),
        outcome matches Ok(CheckOutcome::UpToDate) ==> (r matches Ok(o) && o is None),
        outcome matches Err(e) ==> (r matches Err(m) && m == e),
{
    match outcome {
        Ok(CheckOutcome::Newer(v)) => Ok(Some(v)),
        Ok(CheckOutcome::UpToDate) => Ok(None),
        Err(e) => Err(e),
    }
}

/// Where a `download_and_install_update` request stands.
#[derive(Clone, Copy, Debug, PartialEq, Eq, Structural)]
pub enum InstallState {
    /// Waiting for the outcome of the update check.
    AwaitingCheck,
    /// A newer version was found; waiting for the install's outcome.
    Installing,
    /// The reply has been issued; the session is over.
    Done,
}

/// What the host must do next for an install request.
#[derive(Debug, PartialEq, Eq)]
pub enum InstallAction {
    /// Drive the updater's download-and-install sequence, with no-op
    /// progress and completion callbacks.
    RunInstall,
    /// Reply to the front-end and stop.
    Reply(Result<(), String>),
}

/// The error text returned when an install is requested but no update exists.
pub open spec fn no_update_message() -> Seq<char> {
    "No update available"@
}

/// Whether the check's outcome orders a download-and-install.
pub open spec fn orders_install(outcome: Result<CheckOutcome, String>) -> bool {
    outcome matches Ok(CheckOutcome::Newer(_))
}

/// The state an install session reaches on the check's outcome.
pub open spec fn check_transition(outcome: Result<CheckOutcome, String>) -> InstallState {
    if orders_install(outcome) {
        InstallState::Installing
    } else {
        InstallState::Done
    }
}

/// One `download_and_install_update` request in flight. The controller
/// re-checks first, orders the install only when that check found a newer
/// version, and replies exactly once. No result is cached across requests:
/// a request races with any check that answered an earlier one.
pub struct InstallSession {
    pub state: InstallState,
}

impl InstallSession {
    pub fn new() -> (r: InstallSession)
        ensures
            r.state == InstallState::AwaitingCheck,
    {
        InstallSession { state: InstallState::AwaitingCheck }
    }

    /// Step the session on the update check's outcome. A newer version
    /// orders the install; a current version refuses the request with the
    /// fixed "no update" error; a failed check is returned verbatim.
    pub fn on_check(&mut self, outcome: Result<CheckOutcome, String>) -> (a: InstallAction)
        requires
            old(self).state == InstallState::AwaitingCheck,
        ensures
            final(self).state == check_transition(outcome),
            (a is RunInstall) == orders_install(outcome),
            outcome matches Ok(CheckOutcome::UpToDate) ==> (a matches InstallAction::Reply(r)
                && r matches Err(m) && m@ == no_update_message()),
            outcome matches Err(e) ==> (a matches InstallAction::Reply(r) && r matches Err(m)
                && m == e),
    {
        match outcome {
            Ok(CheckOutcome::Newer(_)) => {
                self.state = InstallState::Installing;
                InstallAction::RunInstall
            },
            Ok(CheckOutcome::UpToDate) => {
                self.state = InstallState::Done;
                InstallAction::Reply(Err(String::from_str("No update available")))
            },
            Err(e) => {
                self.state = InstallState::Done;
                InstallAction::Reply(Err(e))
            },
        }
    }

    /// Step the session on the install's outcome and close it: the reply to
    /// the front-end is that outcome itself — success exactly when the
    /// download-and-install call succeeded, its error text verbatim when it
    /// failed.
    pub fn on_install_result(&mut self, result: Result<(), String>) -> (reply: Result<(), String>)
        requires
            old(self).state == InstallState::Installing,
        ensures
            final(self).state == InstallState::Done,
            reply == result,
    {
        self.state = InstallState::Done;
        result
    }
}

/// Law: an install is ordered exactly when the check found a newer version;
/// on every other outcome the session is over at once, so no install call
/// can follow.
pub proof fn lemma_install_iff_newer(outcome: Result<CheckOutcome, String>)
    ensures
        orders_install(outcome) <==> outcome matches Ok(CheckOutcome::Newer(_)),
        !orders_install(outcome) ==> check_transition(outcome) == InstallState::Done,
        orders_install(outcome) ==> check_transition(outcome) == InstallState::Installing,
{
}

/// Law: when the check finds a newer version, the session orders exactly one
/// install. The check moves it off `AwaitingCheck`, the only state in which
/// a check is answered, and into `Installing`, the only state in which an
/// install's completion is accepted; that completion moves it to `Done`,
/// where the protocol defines no step, so no second install can be ordered
/// and the reply is issued once, from the install's own outcome.
pub proof fn lemma_one_install_then_reply(outcome: Result<CheckOutcome, String>)
    requires
        orders_install(outcome),
    ensures
        check_transition(outcome) == InstallState::Installing,
        check_transition(outcome) != InstallState::AwaitingCheck,
        check_transition(outcome) != InstallState::Done,
{
}

} // verus!
