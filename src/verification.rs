//! Interactive device verification: the single tracked flow and its phases,
//! the choice of peer device, and the bounded wait for completion.
use vstd::prelude::*;

use crate::error::SessionError;

verus! {

/// Account-wide cross-signing state as shown to the user.
pub struct VerificationStatus {
    pub needs_verification: bool,
    pub is_verified: bool,
}

/// The status for a cross-signing completeness reported by the engine;
/// `None` means that cross-signing is not available.
pub fn verification_status(complete: Option<bool>) -> (r: Result<VerificationStatus, SessionError>)
    ensures
        match complete {
            Some(c) => r matches Ok(s) && s.is_verified == c && s.needs_verification == !c,
            None => r == Err::<VerificationStatus, SessionError>(SessionError::CrossSigningUnavailable),
        },
{
    match complete {
        Some(c) => Ok(VerificationStatus { needs_verification: !c, is_verified: c }),
        None => Err(SessionError::CrossSigningUnavailable),
    }
}

/// Where a tracked flow stands. A flow that is not tracked (none requested,
/// or finished, or aborted) is represented by the absence of a flow.
#[derive(Clone, Copy, Debug, PartialEq, Eq, Structural)]
pub enum VerificationPhase {
    /// The request went out; the peer has not accepted yet.
    Requested,
    /// The peer accepted the request.
    Ready,
    /// The emoji exchange was started and accepted locally.
    SasStarted,
    /// The emoji were confirmed locally; completion is awaited.
    Confirmed,
    /// The peer cancelled.
    Cancelled,
}

/// What the engine reports of the peer's side of a flow.
#[derive(Clone, Copy, Debug, PartialEq, Eq, Structural)]
pub struct PeerState {
    pub cancelled: bool,
    pub ready: bool,
}

pub struct VerificationFlow {
    /// The identifier that correlates requester and responder.
    pub flow_id: String,
    pub phase: VerificationPhase,
}

pub struct FlowView {
    pub id: Seq<char>,
    pub phase: VerificationPhase,
}

/// The single verification flow that this client tracks, if any.
pub struct VerificationTracker {
    pub flow: Option<VerificationFlow>,
}

impl View for VerificationTracker {
    type V = Option<FlowView>;

    open spec fn view(&self) -> Option<FlowView> {
        match self.flow {
            Some(f) => Some(FlowView { id: f.flow_id@, phase: f.phase }),
            None => None,
        }
    }
}

/// Whether the emoji exchange may be started or confirmed in a phase, and
/// why not otherwise.
pub open spec fn sas_gate(phase: VerificationPhase) -> Result<(), SessionError> {
    match phase {
        VerificationPhase::Requested => Err(SessionError::WaitingForPeer),
        VerificationPhase::Cancelled => Err(SessionError::VerificationCancelled),
        _ => Ok(()),
    }
}

/// The phase after the engine reported `peer`.
pub open spec fn observed_phase(phase: VerificationPhase, peer: PeerState) -> VerificationPhase {
    if phase == VerificationPhase::Cancelled || peer.cancelled {
        VerificationPhase::Cancelled
    } else if peer.ready && phase == VerificationPhase::Requested {
        VerificationPhase::Ready
    } else {
        phase
    }
}

/// What an observation of the peer tells the caller.
pub open spec fn observation_result(phase: VerificationPhase, peer: PeerState) -> Result<
    (),
    SessionError,
> {
    if observed_phase(phase, peer) == VerificationPhase::Cancelled {
        Err(SessionError::VerificationCancelled)
    } else if !peer.ready {
        Err(SessionError::WaitingForPeer)
    } else {
        Ok(())
    }
}

impl VerificationTracker {
    pub fn new() -> (r: Self)
        ensures
            r@ is None,
    {
        VerificationTracker { flow: None }
    }

    /// The identifier of the tracked flow.
    pub fn active_flow(&self) -> (r: Result<String, SessionError>)
        ensures
            match self@ {
                Some(f) => r matches Ok(id) && id@ == f.id,
                None => r == Err::<String, SessionError>(SessionError::NoActiveVerification),
            },
    {
        match &self.flow {
            Some(f) => Ok(f.flow_id.clone()),
            None => Err(SessionError::NoActiveVerification),
        }
    }

    /// Tracks a flow that a peer device just accepted to be asked for. Any
    /// flow tracked before is forgotten: it is not cancelled, and nothing
    /// reaches it through this tracker any more.
    pub fn begin(&mut self, flow_id: String)
        ensures
            final(self)@ == Some(FlowView { id: flow_id@, phase: VerificationPhase::Requested }),
    {
        self.flow = Some(VerificationFlow { flow_id, phase: VerificationPhase::Requested });
    }

    /// Takes in what the engine reports of the tracked flow; `None` when the
    /// engine does not know the flow.
    pub fn observe(&mut self, peer: Option<PeerState>) -> (r: Result<(), SessionError>)
        ensures
            match (old(self)@, peer) {
                (None, _) => r == Err::<(), SessionError>(SessionError::NoActiveVerification)
                    && final(self)@ == old(self)@,
                (Some(_), None) => r == Err::<(), SessionError>(
                    SessionError::VerificationNotFound,
                ) && final(self)@ == old(self)@,
                (Some(f), Some(p)) => r == observation_result(f.phase, p) && final(self)@ == Some(
                    FlowView { id: f.id, phase: observed_phase(f.phase, p) },
                ),
            },
    {
        match &mut self.flow {
            None => Err(SessionError::NoActiveVerification),
            Some(f) => match peer {
                None => Err(SessionError::VerificationNotFound),
                Some(p) => {
                    if f.phase == VerificationPhase::Cancelled || p.cancelled {
                        f.phase = VerificationPhase::Cancelled;
                        Err(SessionError::VerificationCancelled)
                    } else if !p.ready {
                        Err(SessionError::WaitingForPeer)
                    } else {
                        if f.phase == VerificationPhase::Requested {
                            f.phase = VerificationPhase::Ready;
                        }
                        Ok(())
                    }
                },
            },
        }
    }

    /// Whether the emoji exchange of the tracked flow may be started or
    /// confirmed now.
    pub fn ready_for_sas(&self) -> (r: Result<(), SessionError>)
        ensures
            match self@ {
                Some(f) => r == sas_gate(f.phase),
                None => r == Err::<(), SessionError>(SessionError::NoActiveVerification),
            },
    {
        match &self.flow {
            None => Err(SessionError::NoActiveVerification),
            Some(f) => match f.phase {
                VerificationPhase::Requested => Err(SessionError::WaitingForPeer),
                VerificationPhase::Cancelled => Err(SessionError::VerificationCancelled),
                _ => Ok(()),
            },
        }
    }

    /// Records that the emoji exchange was started and accepted locally.
    pub fn mark_sas_started(&mut self)
        ensures
            match old(self)@ {
                Some(f) => final(self)@ == Some(
                    FlowView {
                        id: f.id,
                        phase: if f.phase == VerificationPhase::Ready {
                            VerificationPhase::SasStarted
                        } else {
                            f.phase
                        },
                    },
                ),
                None => final(self)@ is None,
            },
    {
        if let Some(f) = &mut self.flow {
            if f.phase == VerificationPhase::Ready {
                f.phase = VerificationPhase::SasStarted;
            }
        }
    }

    /// Records that the emoji were confirmed locally.
    pub fn mark_confirmed(&mut self)
        ensures
            match old(self)@ {
                Some(f) => final(self)@ == Some(
                    FlowView {
                        id: f.id,
                        phase: if sas_gate(f.phase) is Ok {
                            VerificationPhase::Confirmed
                        } else {
                            f.phase
                        },
                    },
                ),
                None => final(self)@ is None,
            },
    {
        if let Some(f) = &mut self.flow {
            if f.phase != VerificationPhase::Requested && f.phase != VerificationPhase::Cancelled {
                f.phase = VerificationPhase::Confirmed;
            }
        }
    }

    /// Ends a confirmation after the wait for completion, whose last
    /// decision was `last`: the flow stops being tracked either way.
    pub fn finish_confirmation(&mut self, last: PollDecision) -> (r: ConfirmOutcome)
        ensures
            final(self)@ is None,
            r == if last == PollDecision::Completed {
                ConfirmOutcome::Completed
            } else {
                ConfirmOutcome::Unconfirmed
            },
    {
        self.flow = None;
        if last == PollDecision::Completed {
            ConfirmOutcome::Completed
        } else {
            ConfirmOutcome::Unconfirmed
        }
    }

    /// Stops tracking the flow.
    pub fn clear(&mut self)
        ensures
            final(self)@ is None,
    {
        self.flow = None;
    }

    /// Takes in the outcome of asking the engine to cancel the tracked flow:
    /// the flow is forgotten only when the cancel went through, so that a
    /// failed cancel can be retried.
    pub fn finish_cancel(&mut self, outcome: Result<(), String>) -> (r: Result<(), SessionError>)
        ensures
            old(self)@ is None ==> r == Err::<(), SessionError>(
                SessionError::NoActiveVerification,
            ) && final(self)@ == old(self)@,
            old(self)@ is Some ==> match outcome {
                Ok(()) => r is Ok && final(self)@ is None,
                Err(m) => r == Err::<(), SessionError>(SessionError::CancelFailed(m))
                    && final(self)@ == old(self)@,
            },
    {
        if self.flow.is_none() {
            return Err(SessionError::NoActiveVerification);
        }
        match outcome {
            Ok(()) => {
                self.flow = None;
                Ok(())
            },
            Err(m) => Err(SessionError::CancelFailed(m)),
        }
    }
}

} // verus!

verus! {

/// The devices of `devices`, in listed order, other than `own`.
pub open spec fn other_devices(devices: Seq<String>, own: Seq<char>) -> Seq<Seq<char>>
    decreases devices.len(),
{
    if devices.len() == 0 {
        seq![]
    } else {
        other_devices(devices.drop_last(), own) + if devices.last()@ != own {
            seq![devices.last()@]
        } else {
            seq![]
        }
    }
}

pub open spec fn device_views(ds: Seq<String>) -> Seq<Seq<char>> {
    ds.map_values(|d: String| d@)
}

/// The peer devices still to be asked for a verification request, in
/// listed order. Those before `tried` have refused.
pub struct DeviceRequest {
    pub candidates: Vec<String>,
    pub tried: usize,
}

impl DeviceRequest {
    /// Starts asking the account's devices other than `own_device`;
    /// `NoOtherDevices` when there is none.
    pub fn new(own_device: &str, devices: &Vec<String>) -> (r: Result<DeviceRequest, SessionError>)
        ensures
            match r {
                Ok(req) => device_views(req.candidates@) == other_devices(devices@, own_device@)
                    && req.candidates@.len() > 0 && req.tried == 0,
                Err(e) => e == SessionError::NoOtherDevices && other_devices(
                    devices@,
                    own_device@,
                ).len() == 0,
            },
    {
        let own = own_device.to_owned();
        let mut candidates: Vec<String> = Vec::new();
        let mut i: usize = 0;
        assert(device_views(candidates@) =~= other_devices(devices@.subrange(0, 0), own@));
        while i < devices.len()
            invariant
                i <= devices@.len(),
                own@ == own_device@,
                device_views(candidates@) == other_devices(devices@.subrange(0, i as int), own@),
            decreases devices@.len() - i,
        {
            let ghost before = candidates@;
            assert(devices@.subrange(0, i + 1).drop_last() =~= devices@.subrange(0, i as int));
            if devices[i] != own {
                candidates.push(devices[i].clone());
                assert(device_views(candidates@) =~= device_views(before).push(devices@[i as int]@));
            }
            assert(device_views(candidates@) =~= other_devices(devices@.subrange(0, i + 1), own@));
            i = i + 1;
        }
        assert(devices@.subrange(0, devices@.len() as int) =~= devices@);
        if candidates.len() == 0 {
            Err(SessionError::NoOtherDevices)
        } else {
            Ok(DeviceRequest { candidates, tried: 0 })
        }
    }

    /// The next device to ask; `NoDeviceAccepted` once every candidate has
    /// refused.
    pub fn next_candidate(&self) -> (r: Result<String, SessionError>)
        ensures
            self.tried < self.candidates@.len() ==> (r matches Ok(d) && d@
                == self.candidates@[self.tried as int]@),
            self.tried >= self.candidates@.len() ==> r == Err::<String, SessionError>(
                SessionError::NoDeviceAccepted,
            ),
    {
        if self.tried < self.candidates.len() {
            Ok(self.candidates[self.tried].clone())
        } else {
            Err(SessionError::NoDeviceAccepted)
        }
    }

    /// Records that the device last handed out refused the request.
    pub fn refused(&mut self)
        ensures
            final(self).candidates == old(self).candidates,
            final(self).tried == if old(self).tried < old(self).candidates@.len() {
                old(self).tried + 1
            } else {
                old(self).tried as int
            },
    {
        if self.tried < self.candidates.len() {
            self.tried = self.tried + 1;
        }
    }
}

/// A bounded wait: up to `max_attempts` checks, `interval_ms` apart.
#[derive(Clone, Copy, Debug, PartialEq, Eq, Structural)]
pub struct RetryPolicy {
    pub interval_ms: u64,
    pub max_attempts: u32,
}

/// What to do after a check of a bounded wait.
#[derive(Clone, Copy, Debug, PartialEq, Eq, Structural)]
pub enum PollDecision {
    /// What was waited for has happened.
    Completed,
    /// Wait one interval and check again.
    Retry,
    /// The attempts are used up.
    GiveUp,
}

impl RetryPolicy {
    /// The wait for a confirmed flow to complete: 20 checks, 500 ms apart.
    pub fn completion() -> (r: RetryPolicy)
        ensures
            r.interval_ms == 500 && r.max_attempts == 20,
    {
        RetryPolicy { interval_ms: 500, max_attempts: 20 }
    }

    /// The settling delay before the emoji are read: one check after 1 s.
    pub fn emoji_settling() -> (r: RetryPolicy)
        ensures
            r.interval_ms == 1000 && r.max_attempts == 1,
    {
        RetryPolicy { interval_ms: 1000, max_attempts: 1 }
    }

    /// The decision after the check numbered `attempt` (from 1) saw `done`.
    pub fn decide(&self, attempt: u32, done: bool) -> (r: PollDecision)
        ensures
            r == if done {
                PollDecision::Completed
            } else if attempt < self.max_attempts {
                PollDecision::Retry
            } else {
                PollDecision::GiveUp
            },
    {
        if done {
            PollDecision::Completed
        } else if attempt < self.max_attempts {
            PollDecision::Retry
        } else {
            PollDecision::GiveUp
        }
    }
}

/// How a confirmation ended. Either way the flow is no longer tracked.
#[derive(Clone, Copy, Debug, PartialEq, Eq, Structural)]
pub enum ConfirmOutcome {
    /// The engine reported the flow done.
    Completed,
    /// The flow was not seen done within the bounded wait; the caller has to
    /// check the verification status to know.
    Unconfirmed,
}

/// The emoji to show once the settling delay is over; `EmojiNotReady` when
/// the engine has none yet.
pub fn emoji_result(emoji: Option<Vec<(String, String)>>) -> (r: Result<
    Vec<(String, String)>,
    SessionError,
>)
    ensures
        match emoji {
            Some(e) => r == Ok::<Vec<(String, String)>, SessionError>(e),
            None => r == Err::<Vec<(String, String)>, SessionError>(SessionError::EmojiNotReady),
        },
{
    match emoji {
        Some(e) => Ok(e),
        None => Err(SessionError::EmojiNotReady),
    }
}

} // verus!
