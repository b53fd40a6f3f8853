//! What the host shows: a tri-state status (plus the neutral start) and a
//! message, updated from the reconciliation result and the beacon's reports.

use vstd::prelude::*;

use crate::beacon::BeaconStatus;

verus! {

/// The status that the host shows.
#[derive(Clone, Copy, Debug, PartialEq, Eq, Structural)]
pub enum AppStatus {
    /// Nothing is known yet.
    Neutral,
    /// The beacon is broadcasting.
    Running,
    /// The file was rewritten while the simulator was already running.
    Warning,
    /// Reconciliation or the beacon failed.
    Error,
}

/// The message shown at start-up, before reconciliation has reported.
pub open spec fn startup_message() -> Seq<char> {
    "Checking..."@
}

/// The message shown when the file changed under a running simulator.
pub open spec fn restart_message() -> Seq<char> {
    "⭕ Run this client before the simulator is started."@
}

/// The message shown when reconciliation failed.
pub open spec fn config_error_message() -> Seq<char> {
    "🔴 Fatal error during SimConnect configuration."@
}

/// The message shown when the beacon failed.
pub open spec fn broadcast_error_message() -> Seq<char> {
    "🔴 Fatal error during data broadcasting."@
}

/// The message shown while the beacon works.
pub open spec fn running_message() -> Seq<char> {
    "✅ Client is working normally."@
}

/// The host's status and message.
pub struct AppState {
    pub status: AppStatus,
    pub msg_text: String,
}

impl AppState {
    /// The state at start-up, before reconciliation has reported.
    pub fn new() -> (r: AppState)
        ensures
            r.status == AppStatus::Neutral,
            r.msg_text@ == startup_message(),
    {
        AppState { status: AppStatus::Neutral, msg_text: String::from_str("Checking...") }
    }

    /// Takes in a successful reconciliation. When the file changed while the
    /// simulator runs, the simulator holds stale settings: warn, and start no
    /// beacon. Otherwise leave the state as it is and start the beacon.
    pub fn on_config_reconciled(&mut self, is_changed: bool, simulator_running: bool) -> (start_beacon:
        bool)
        ensures
            start_beacon == !(is_changed && simulator_running),
            start_beacon ==> final(self).status == old(self).status && final(self).msg_text@ == old(
                self,
            ).msg_text@,
            !start_beacon ==> final(self).status == AppStatus::Warning && final(self).msg_text@
                == restart_message(),
    {
        if is_changed && simulator_running {
            self.status = AppStatus::Warning;
            self.msg_text = String::from_str("⭕ Run this client before the simulator is started.");
            false
        } else {
            true
        }
    }

    /// Takes in a failed reconciliation.
    pub fn on_config_failed(&mut self)
        ensures
            final(self).status == AppStatus::Error,
            final(self).msg_text@ == config_error_message(),
    {
        self.status = AppStatus::Error;
        self.msg_text = String::from_str("🔴 Fatal error during SimConnect configuration.");
    }

    /// Takes in a beacon report; says whether the display must be redrawn.
    /// An error always shows; a success shows only when the host was not
    /// already showing the beacon as running.
    pub fn on_beacon_status(&mut self, report: BeaconStatus) -> (redraw: bool)
        ensures
            report == BeaconStatus::Error ==> redraw && final(self).status == AppStatus::Error
                && final(self).msg_text@ == broadcast_error_message(),
            report == BeaconStatus::Success && old(self).status != AppStatus::Running ==> redraw
                && final(self).status == AppStatus::Running && final(self).msg_text@
                == running_message(),
            report == BeaconStatus::Success && old(self).status == AppStatus::Running ==> !redraw
                && final(self).status == old(self).status && final(self).msg_text@ == old(
                self,
            ).msg_text@,
    {
        match report {
            BeaconStatus::Error => {
                self.status = AppStatus::Error;
                self.msg_text = String::from_str("🔴 Fatal error during data broadcasting.");
                true
            },
            BeaconStatus::Success => {
                if self.status != AppStatus::Running {
                    self.status = AppStatus::Running;
                    self.msg_text = String::from_str("✅ Client is working normally.");
                    true
                } else {
                    false
                }
            },
        }
    }
}

} // verus!
