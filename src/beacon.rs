//! The discovery beacon's decisions.
//!
//! The beacon repeatedly broadcasts a short datagram naming the SimConnect
//! port and reports its health on a status channel. The socket work happens
//! outside this library: each outcome comes back here as a `BeaconEvent`,
//! and `beacon_step` says what to report and whether to go on. A failure is
//! reported once and ends the beacon for good.

use vstd::prelude::*;

verus! {

/// What the beacon reports on its status channel.
#[derive(Clone, Copy, Debug, PartialEq, Eq, Structural)]
pub enum BeaconStatus {
    Success,
    Error,
}

impl BeaconStatus {
    /// The sentinel text of this status.
    pub fn label(&self) -> (r: &'static str)
        ensures
            *self == BeaconStatus::Success ==> r@ == "ok"@,
            *self == BeaconStatus::Error ==> r@ == "error"@,
    {
        match self {
            BeaconStatus::Success => "ok",
            BeaconStatus::Error => "error",
        }
    }

    /// The status whose sentinel text is `text`, if any.
    pub fn from_label(text: &str) -> (r: Option<BeaconStatus>)
        ensures
            text@ == "ok"@ <==> r == Some(BeaconStatus::Success),
            text@ == "error"@ <==> r == Some(BeaconStatus::Error),
            r is None <==> (text@ != "ok"@ && text@ != "error"@),
    {
        proof {
            reveal_strlit("ok");
            reveal_strlit("error");
            assert("ok"@.len() != "error"@.len());
        }
        let t = String::from_str(text);
        if t == String::from_str("ok") {
            Some(BeaconStatus::Success)
        } else if t == String::from_str("error") {
            Some(BeaconStatus::Error)
        } else {
            None
        }
    }
}

/// The beacon's life cycle.
#[derive(Clone, Copy, Debug, PartialEq, Eq, Structural)]
pub enum BeaconState {
    /// Not broadcasting yet.
    Idle,
    /// At least one datagram went out and none has failed.
    Broadcasting,
    /// A failure ended the beacon; nothing more is sent or reported.
    Stopped,
}

/// The outcome of the socket work that the beacon asked for.
#[derive(Clone, Copy, Debug, PartialEq, Eq, Structural)]
pub enum BeaconEvent {
    /// The socket could not be set up: no local address, the bind failed, or
    /// broadcasting could not be enabled.
    SetupFailed,
    /// A datagram was sent.
    SendSucceeded,
    /// Sending a datagram failed.
    SendFailed,
}

/// The beacon's next state and what, if anything, it reports.
#[derive(Clone, Copy, Debug, PartialEq, Eq, Structural)]
pub struct BeaconStep {
    pub next: BeaconState,
    pub report: Option<BeaconStatus>,
}

/// The transition function of the beacon.
pub open spec fn step_spec(state: BeaconState, event: BeaconEvent) -> BeaconStep {
    match state {
        BeaconState::Stopped => BeaconStep { next: BeaconState::Stopped, report: None },
        _ => match event {
            BeaconEvent::SendSucceeded => BeaconStep {
                next: BeaconState::Broadcasting,
                report: Some(BeaconStatus::Success),
            },
            _ => BeaconStep { next: BeaconState::Stopped, report: Some(BeaconStatus::Error) },
        },
    }
}

/// Decides what the beacon reports after `event` and where it goes next.
pub fn beacon_step(state: BeaconState, event: BeaconEvent) -> (r: BeaconStep)
    ensures
        r == step_spec(state, event),
{
    match state {
        BeaconState::Stopped => BeaconStep { next: BeaconState::Stopped, report: None },
        _ => match event {
            BeaconEvent::SendSucceeded => BeaconStep {
                next: BeaconState::Broadcasting,
                report: Some(BeaconStatus::Success),
            },
            _ => BeaconStep { next: BeaconState::Stopped, report: Some(BeaconStatus::Error) },
        },
    }
}

/// Whether the beacon should keep sending.
pub fn is_running(state: BeaconState) -> (r: bool)
    ensures
        r == (state != BeaconState::Stopped),
{
    match state {
        BeaconState::Stopped => false,
        _ => true,
    }
}

/// The state after feeding `events` in order, starting from `state`.
pub open spec fn run_state(state: BeaconState, events: Seq<BeaconEvent>) -> BeaconState
    decreases events.len(),
{
    if events.len() == 0 {
        state
    } else {
        run_state(step_spec(state, events[0]).next, events.drop_first())
    }
}

/// Everything reported while feeding `events` in order, starting from `state`.
pub open spec fn run_reports(state: BeaconState, events: Seq<BeaconEvent>) -> Seq<BeaconStatus>
    decreases events.len(),
{
    if events.len() == 0 {
        Seq::empty()
    } else {
        let s = step_spec(state, events[0]);
        let rest = run_reports(s.next, events.drop_first());
        match s.report {
            Some(st) => seq![st] + rest,
            None => rest,
        }
    }
}

/// A stopped beacon stays stopped and never reports again.
pub proof fn lemma_stopped_is_silent(events: Seq<BeaconEvent>)
    ensures
        run_reports(BeaconState::Stopped, events) == Seq::<BeaconStatus>::empty(),
        run_state(BeaconState::Stopped, events) == BeaconState::Stopped,
    decreases events.len(),
{
    if events.len() > 0 {
        lemma_stopped_is_silent(events.drop_first());
    }
}

/// A failure, whatever the beacon was doing, is reported as exactly one
/// error, and nothing at all is reported after it.
pub proof fn lemma_failure_reports_one_error(
    state: BeaconState,
    failure: BeaconEvent,
    later: Seq<BeaconEvent>,
)
    requires
        state != BeaconState::Stopped,
        failure != BeaconEvent::SendSucceeded,
    ensures
        run_reports(state, seq![failure] + later) == seq![BeaconStatus::Error],
        run_state(state, seq![failure] + later) == BeaconState::Stopped,
{
    let events = seq![failure] + later;
    assert(events[0] == failure);
    assert(events.drop_first() =~= later);
    lemma_stopped_is_silent(later);
    assert(seq![BeaconStatus::Error] + Seq::<BeaconStatus>::empty() =~= seq![BeaconStatus::Error]);
}

/// Where the beacon sends and how it tags its datagrams.
pub struct BeaconConfig {
    /// The literal tag in front of the port.
    pub prefix: String,
    /// The broadcast destination, as `address:port`.
    pub target: String,
}

impl BeaconConfig {
    /// Datagrams tagged `FSR_SMC`, sent to every host on port 1234.
    pub fn discovery_default() -> (r: BeaconConfig)
        ensures
            r.prefix@ == "FSR_SMC"@,
            r.target@ == "255.255.255.255:1234"@,
    {
        BeaconConfig {
            prefix: String::from_str("FSR_SMC"),
            target: String::from_str("255.255.255.255:1234"),
        }
    }

    /// The datagram text announcing `port`: the tag, a colon, the port.
    pub fn payload(&self, port: &str) -> (r: String)
        ensures
            r@ == self.prefix@ + ":"@ + port@,
    {
        let mut r = self.prefix.clone();
        r.append(":");
        r.append(port);
        r
    }
}

} // verus!
