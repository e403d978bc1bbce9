use vstd::prelude::*;

use crate::credentials::RadioCredentials;
use crate::error::ConnError;

verus! {

/// Where the one-shot bring-up sequence stands.
#[derive(Clone, Copy, Debug, PartialEq, Eq, Structural)]
pub enum Phase {
    Uninitialized,
    Configured,
    Started,
    Associated,
    /// Terminal success: connected and the network layer is ready.
    NetifReady,
    /// Terminal failure, with the reason of the step that failed.
    Failed(ConnError),
}

/// The driver operation that the sequence asks for next.
#[derive(Clone, Copy, Debug, PartialEq, Eq, Structural)]
pub enum Action {
    /// Apply the credentials as the client configuration.
    ApplyConfig,
    /// Start the radio and wait until the driver reports it started.
    Start,
    /// Associate with the access point and wait until associated.
    Connect,
    /// Wait until the network layer is up.
    WaitNetif,
    /// Nothing more to do: the sequence has ended.
    Finished,
}

/// What the driver reported for the operation it was asked to perform.
#[derive(Clone, Copy, Debug, PartialEq, Eq, Structural)]
pub enum Outcome {
    Success,
    /// A timeout or any other driver fault.
    Fault,
    /// The access point rejected the credentials.
    AuthRejected,
    /// No access point with the configured name was found.
    NoApFound,
}

/// Disconnect reasons, as the radio firmware numbers them, that mean the
/// access point refused the credentials.
pub const REASON_4WAY_HANDSHAKE_TIMEOUT: u16 = 15;
pub const REASON_AUTH_FAIL: u16 = 202;
pub const REASON_HANDSHAKE_TIMEOUT: u16 = 204;

/// The disconnect reason that means no access point of that name answered.
pub const REASON_NO_AP_FOUND: u16 = 201;

/// How a failed association is reported, given the disconnect reason that
/// the driver announced for it, if it announced one.
pub open spec fn connect_failure_spec(reason: Option<u16>) -> Outcome {
    match reason {
        Some(r) => if r == REASON_AUTH_FAIL || r == REASON_4WAY_HANDSHAKE_TIMEOUT || r
            == REASON_HANDSHAKE_TIMEOUT {
            Outcome::AuthRejected
        } else if r == REASON_NO_AP_FOUND {
            Outcome::NoApFound
        } else {
            Outcome::Fault
        },
        Option::None => Outcome::Fault,
    }
}

/// Classifies a failed association by the driver's disconnect reason.
pub fn connect_failure(reason: Option<u16>) -> (r: Outcome)
    ensures
        r == connect_failure_spec(reason),
        !(r is Success),
{
    match reason {
        Some(r) => {
            if r == REASON_AUTH_FAIL || r == REASON_4WAY_HANDSHAKE_TIMEOUT || r
                == REASON_HANDSHAKE_TIMEOUT {
                Outcome::AuthRejected
            } else if r == REASON_NO_AP_FOUND {
                Outcome::NoApFound
            } else {
                Outcome::Fault
            }
        },
        Option::None => Outcome::Fault,
    }
}

pub open spec fn is_terminal(p: Phase) -> bool {
    p is NetifReady || p is Failed
}

pub open spec fn action_of(p: Phase) -> Action {
    match p {
        Phase::Uninitialized => Action::ApplyConfig,
        Phase::Configured => Action::Start,
        Phase::Started => Action::Connect,
        Phase::Associated => Action::WaitNetif,
        _ => Action::Finished,
    }
}

/// The error that a failed operation in phase `p` ends the sequence with.
pub open spec fn failure_of(p: Phase, o: Outcome) -> ConnError {
    match p {
        Phase::Uninitialized => ConnError::ConfigError,
        Phase::Configured => ConnError::StartError,
        Phase::Started => if o is AuthRejected {
            ConnError::AuthError
        } else {
            ConnError::AssocError
        },
        _ => ConnError::NetifError,
    }
}

/// The phase after the driver reports `o` for the action of phase `p`.
/// A terminal phase never changes.
pub open spec fn step(p: Phase, o: Outcome) -> Phase {
    if is_terminal(p) {
        p
    } else if o is Success {
        match p {
            Phase::Uninitialized => Phase::Configured,
            Phase::Configured => Phase::Started,
            Phase::Started => Phase::Associated,
            _ => Phase::NetifReady,
        }
    } else {
        Phase::Failed(failure_of(p, o))
    }
}

/// The phase reached from `p` after the driver reports `os` in order.
pub open spec fn run(p: Phase, os: Seq<Outcome>) -> Phase
    decreases os.len(),
{
    if os.len() == 0 {
        p
    } else {
        run(step(p, os[0]), os.drop_first())
    }
}

/// How many driver operations are left before `p` is terminal, at most.
pub open spec fn remaining(p: Phase) -> nat {
    match p {
        Phase::Uninitialized => 4,
        Phase::Configured => 3,
        Phase::Started => 2,
        Phase::Associated => 1,
        _ => 0,
    }
}

/// Whether the first `n` outcomes are all successes.
pub open spec fn all_succeed(os: Seq<Outcome>, n: int) -> bool {
    forall|i: int| 0 <= i < n ==> #[trigger] os[i] is Success
}

/// Drives the one-shot bring-up: configure, start, associate, wait for the
/// network layer. The caller performs `next_action` against the driver and
/// reports the outcome through `advance`, until the phase is terminal.
pub struct ConnectionManager {
    credentials: RadioCredentials,
    phase: Phase,
}

impl ConnectionManager {
    pub closed spec fn phase_view(&self) -> Phase {
        self.phase
    }

    pub closed spec fn credentials_view(&self) -> RadioCredentials {
        self.credentials
    }

    /// A manager that has not touched the driver yet.
    pub fn new(credentials: RadioCredentials) -> (r: ConnectionManager)
        ensures
            r.phase_view() == Phase::Uninitialized,
            r.credentials_view() == credentials,
    {
        ConnectionManager { credentials, phase: Phase::Uninitialized }
    }

    /// The credentials to apply as the client configuration.
    pub fn credentials(&self) -> (r: &RadioCredentials)
        ensures
            *r == self.credentials_view(),
    {
        &self.credentials
    }

    pub fn phase(&self) -> (r: Phase)
        ensures
            r == self.phase_view(),
    {
        self.phase
    }

    /// The driver operation to perform next; `Finished` once terminal.
    pub fn next_action(&self) -> (r: Action)
        ensures
            r == action_of(self.phase_view()),
            r is Finished <==> is_terminal(self.phase_view()),
    {
        match self.phase {
            Phase::Uninitialized => Action::ApplyConfig,
            Phase::Configured => Action::Start,
            Phase::Started => Action::Connect,
            Phase::Associated => Action::WaitNetif,
            _ => Action::Finished,
        }
    }

    /// Records what the driver reported for the current action. The first
    /// failure ends the sequence; nothing is retried.
    pub fn advance(&mut self, o: Outcome)
        ensures
            final(self).phase_view() == step(old(self).phase_view(), o),
            final(self).credentials_view() == old(self).credentials_view(),
            !is_terminal(old(self).phase_view()) ==> remaining(final(self).phase_view())
                < remaining(old(self).phase_view()),
    {
        if matches!(self.phase, Phase::NetifReady | Phase::Failed(_)) {
            return ;
        }
        let next = match o {
            Outcome::Success => match self.phase {
                Phase::Uninitialized => Phase::Configured,
                Phase::Configured => Phase::Started,
                Phase::Started => Phase::Associated,
                _ => Phase::NetifReady,
            },
            _ => Phase::Failed(
                match self.phase {
                    Phase::Uninitialized => ConnError::ConfigError,
                    Phase::Configured => ConnError::StartError,
                    Phase::Started => match o {
                        Outcome::AuthRejected => ConnError::AuthError,
                        _ => ConnError::AssocError,
                    },
                    _ => ConnError::NetifError,
                },
            ),
        };
        self.phase = next;
    }

    /// `None` while the sequence runs; then `Ok` on `NetifReady`, or the
    /// error of the step that failed.
    pub fn result(&self) -> (r: Option<Result<(), ConnError>>)
        ensures
            r is None <==> !is_terminal(self.phase_view()),
            self.phase_view() is NetifReady ==> r == Some(Ok::<(), ConnError>(())),
            self.phase_view() is Failed ==> r == Some(
                Err::<(), ConnError>(self.phase_view()->Failed_0),
            ),
    {
        match self.phase {
            Phase::NetifReady => Some(Ok(())),
            Phase::Failed(e) => Some(Err(e)),
            _ => None,
        }
    }
}

/// The phase reached from `Uninitialized` after `k` successes in a row.
pub open spec fn phase_after_successes(k: int) -> Phase {
    if k <= 0 {
        Phase::Uninitialized
    } else if k == 1 {
        Phase::Configured
    } else if k == 2 {
        Phase::Started
    } else if k == 3 {
        Phase::Associated
    } else {
        Phase::NetifReady
    }
}

/// Bring-up never stops half way: once the driver has reported four
/// outcomes, the sequence is terminal. It ends in `NetifReady` exactly when
/// all four were successes, and otherwise fails with the error of the first
/// operation that did not succeed, as that operation's phase assigns it.
pub proof fn lemma_bring_up_ends(os: Seq<Outcome>)
    requires
        os.len() >= 4,
    ensures
        is_terminal(run(Phase::Uninitialized, os)),
        run(Phase::Uninitialized, os) == Phase::NetifReady <==> all_succeed(os, 4),
        forall|k: int|
            0 <= k < 4 && all_succeed(os, k) && !(os[k] is Success) ==> run(
                Phase::Uninitialized,
                os,
            ) == Phase::Failed(failure_of(phase_after_successes(k), os[k])),
{
    let p0 = Phase::Uninitialized;
    let p1 = step(p0, os[0]);
    let p2 = step(p1, os[1]);
    let p3 = step(p2, os[2]);
    let p4 = step(p3, os[3]);
    assert(os.drop_first() == os.skip(1));
    assert(os.skip(1).drop_first() == os.skip(2));
    assert(os.skip(2).drop_first() == os.skip(3));
    assert(os.skip(3).drop_first() == os.skip(4));
    assert(os.skip(1)[0] == os[1]);
    assert(os.skip(2)[0] == os[2]);
    assert(os.skip(3)[0] == os[3]);
    assert(run(p0, os) == run(p1, os.skip(1)));
    assert(run(p1, os.skip(1)) == run(p2, os.skip(2)));
    assert(run(p2, os.skip(2)) == run(p3, os.skip(3)));
    assert(run(p3, os.skip(3)) == run(p4, os.skip(4)));
    assert(is_terminal(p4));
    lemma_run_terminal_stays(p4, os.skip(4));
    if all_succeed(os, 4) {
        assert(os[0] is Success && os[1] is Success && os[2] is Success && os[3] is Success);
    }
    if p4 == Phase::NetifReady {
        assert(os[0] is Success && os[1] is Success && os[2] is Success && os[3] is Success);
        assert(all_succeed(os, 4));
    }
    assert forall|k: int|
        0 <= k < 4 && all_succeed(os, k) && !(os[k] is Success) implies p4 == Phase::Failed(
        failure_of(phase_after_successes(k), os[k]),
    ) by {
        if k >= 1 {
            assert(os[0] is Success);
        }
        if k >= 2 {
            assert(os[1] is Success);
        }
        if k >= 3 {
            assert(os[2] is Success);
        }
    }
}

/// A terminal phase stays as it is, whatever the driver reports after it.
pub proof fn lemma_run_terminal_stays(p: Phase, os: Seq<Outcome>)
    requires
        is_terminal(p),
    ensures
        run(p, os) == p,
    decreases os.len(),
{
    if os.len() > 0 {
        lemma_run_terminal_stays(step(p, os[0]), os.drop_first());
    }
}

} // verus!
