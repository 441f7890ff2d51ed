//! Keeping the link to the card alive: a probe on every keep-alive tick and,
//! when a probe fails, reconnect attempts spaced by a doubling delay. The
//! caller owns the timers and the socket; this type decides what comes next.
use vstd::prelude::*;
use vstd::arithmetic::power2::{lemma_pow2_unfold, pow2};
use crate::client::{LinkState, ScoreboardClient};

verus! {

/// Seconds between keep-alive probes.
pub const KEEP_ALIVE_SECS: u64 = 30;

/// Seconds between connection checks of the controller.
pub const RECONNECT_INTERVAL_SECS: u64 = 10;

/// Delay before the second reconnect attempt.
pub const INITIAL_BACKOFF_SECS: u64 = 1;

/// The delay between reconnect attempts never exceeds this.
pub const MAX_BACKOFF_SECS: u64 = 60;

/// What the caller does next.
#[derive(Debug, Clone, Copy, PartialEq, Eq, Structural)]
pub enum ManagerAction {
    /// Wait for the next keep-alive tick, then probe.
    AwaitTick,
    /// Try to connect now.
    Reconnect,
    /// Sleep this many seconds, then try to connect.
    SleepThenReconnect(u64),
}

/// The delay that follows `delay` after another failed attempt.
pub open spec fn next_backoff(delay: nat) -> nat {
    if 2 * delay > MAX_BACKOFF_SECS {
        MAX_BACKOFF_SECS as nat
    } else {
        2 * delay
    }
}

/// The delay after `n` failed attempts since the link was lost.
pub open spec fn backoff_after(n: nat) -> nat
    decreases n,
{
    if n == 0 {
        INITIAL_BACKOFF_SECS as nat
    } else {
        next_backoff(backoff_after((n - 1) as nat))
    }
}

/// The timing state of the keep-alive and reconnect loop.
struct ReconnectPolicy {
    keep_alive_secs: u64,
    reconnect_interval_secs: u64,
    reconnecting: bool,
    backoff_secs: u64,
}

impl ReconnectPolicy {
    #[verifier::type_invariant]
    spec fn wf(&self) -> bool {
        &&& 1 <= self.backoff_secs <= MAX_BACKOFF_SECS
        &&& self.keep_alive_secs == KEEP_ALIVE_SECS
        &&& self.reconnect_interval_secs == RECONNECT_INTERVAL_SECS
    }

    fn new() -> (r: Self)
        ensures
            !r.reconnecting,
            r.backoff_secs == INITIAL_BACKOFF_SECS,
    {
        ReconnectPolicy {
            keep_alive_secs: KEEP_ALIVE_SECS,
            reconnect_interval_secs: RECONNECT_INTERVAL_SECS,
            reconnecting: false,
            backoff_secs: INITIAL_BACKOFF_SECS,
        }
    }

    fn keep_alive_secs(&self) -> (r: u64)
        ensures
            r == KEEP_ALIVE_SECS,
    {
        proof {
            use_type_invariant(self);
        }
        self.keep_alive_secs
    }

    fn reconnect_interval_secs(&self) -> (r: u64)
        ensures
            r == RECONNECT_INTERVAL_SECS,
    {
        proof {
            use_type_invariant(self);
        }
        self.reconnect_interval_secs
    }

    fn on_keep_alive(&mut self, alive: bool) -> (r: ManagerAction)
        ensures
            alive ==> r == ManagerAction::AwaitTick && final(self).reconnecting
                == old(self).reconnecting && final(self).backoff_secs == old(self).backoff_secs,
            !alive ==> r == ManagerAction::Reconnect && final(self).reconnecting
                && final(self).backoff_secs == INITIAL_BACKOFF_SECS,
    {
        proof {
            use_type_invariant(&*self);
        }
        if alive {
            ManagerAction::AwaitTick
        } else {
            self.reconnecting = true;
            self.backoff_secs = INITIAL_BACKOFF_SECS;
            ManagerAction::Reconnect
        }
    }

    fn on_reconnect(&mut self, connected: bool) -> (r: ManagerAction)
        ensures
            1 <= final(self).backoff_secs <= MAX_BACKOFF_SECS,
            connected ==> r == ManagerAction::AwaitTick && !final(self).reconnecting
                && final(self).backoff_secs == INITIAL_BACKOFF_SECS,
            !connected ==> r == ManagerAction::SleepThenReconnect(old(self).backoff_secs)
                && final(self).reconnecting == old(self).reconnecting
                && final(self).backoff_secs as nat == next_backoff(old(self).backoff_secs as nat),
    {
        proof {
            use_type_invariant(&*self);
        }
        if connected {
            self.reconnecting = false;
            self.backoff_secs = INITIAL_BACKOFF_SECS;
            ManagerAction::AwaitTick
        } else {
            let delay = self.backoff_secs;
            self.backoff_secs = if delay > MAX_BACKOFF_SECS / 2 {
                MAX_BACKOFF_SECS
            } else {
                2 * delay
            };
            ManagerAction::SleepThenReconnect(delay)
        }
    }
}

/// Keeps one session alive.
pub struct ConnectionManager {
    client: ScoreboardClient,
    policy: ReconnectPolicy,
}

impl ConnectionManager {
    pub closed spec fn client_view(&self) -> ScoreboardClient {
        self.client
    }

    /// Whether a reconnect loop is under way.
    pub closed spec fn is_reconnecting(&self) -> bool {
        self.policy.reconnecting
    }

    /// The sleep that follows the next failed attempt.
    pub closed spec fn backoff(&self) -> nat {
        self.policy.backoff_secs as nat
    }

    pub fn new(address: String, card_id: u8) -> (r: Self)
        ensures
            r.client_view().address_view() == address@,
            r.client_view().card_id_view() == card_id,
            r.client_view().link_state() == LinkState::Disconnected,
            !r.is_reconnecting(),
            r.backoff() == INITIAL_BACKOFF_SECS,
    {
        ConnectionManager { client: ScoreboardClient::new(address, card_id), policy: ReconnectPolicy::new() }
    }

    pub fn keep_alive_interval_secs(&self) -> (r: u64)
        ensures
            r == KEEP_ALIVE_SECS,
    {
        self.policy.keep_alive_secs()
    }

    pub fn reconnect_interval_secs(&self) -> (r: u64)
        ensures
            r == RECONNECT_INTERVAL_SECS,
    {
        self.policy.reconnect_interval_secs()
    }

    /// The session, for sending commands and recording socket outcomes.
    pub fn client(&mut self) -> (r: &mut ScoreboardClient)
        ensures
            *r == old(self).client_view(),
            final(self).client_view() == *final(r),
            final(self).is_reconnecting() == old(self).is_reconnecting(),
            final(self).backoff() == old(self).backoff(),
    {
        &mut self.client
    }

    /// After a keep-alive probe: a live card means waiting for the next tick;
    /// a dead one starts a reconnect loop with the initial delay.
    pub fn on_keep_alive(&mut self, alive: bool) -> (r: ManagerAction)
        ensures
            final(self).client_view() == old(self).client_view(),
            alive ==> r == ManagerAction::AwaitTick && final(self).is_reconnecting()
                == old(self).is_reconnecting() && final(self).backoff() == old(self).backoff(),
            !alive ==> r == ManagerAction::Reconnect && final(self).is_reconnecting()
                && final(self).backoff() == backoff_after(0),
    {
        self.policy.on_keep_alive(alive)
    }

    /// After a reconnect attempt: success ends the loop and resets the delay;
    /// failure sleeps the current delay and doubles it, up to the cap.
    pub fn on_reconnect(&mut self, connected: bool) -> (r: ManagerAction)
        ensures
            1 <= final(self).backoff() <= MAX_BACKOFF_SECS,
            final(self).client_view() == old(self).client_view(),
            connected ==> r == ManagerAction::AwaitTick && !final(self).is_reconnecting()
                && final(self).backoff() == backoff_after(0),
            !connected ==> r == ManagerAction::SleepThenReconnect(old(self).backoff() as u64)
                && final(self).is_reconnecting() == old(self).is_reconnecting()
                && final(self).backoff() == next_backoff(old(self).backoff()),
    {
        self.policy.on_reconnect(connected)
    }
}

/// The delays double from one second and stop at the cap: 1, 2, 4, 8, 16, 32,
/// then 60 for ever.
pub proof fn lemma_backoff_doubles_to_cap(n: nat)
    ensures
        backoff_after(n) == if pow2(n) < MAX_BACKOFF_SECS {
            pow2(n)
        } else {
            MAX_BACKOFF_SECS as nat
        },
    decreases n,
{
    if n == 0 {
        assert(pow2(0) == 1) by {
            vstd::arithmetic::power2::lemma2_to64();
        }
    } else {
        lemma_backoff_doubles_to_cap((n - 1) as nat);
        lemma_pow2_unfold(n);
    }
}

/// Along consecutive failed reconnects that start from a lost link, each
/// attempt sleeps twice as long as the one before, starting at one second
/// and capped at sixty: the `i`-th sleep is `min(2^i, 60)` seconds.
pub proof fn lemma_reconnect_sleeps(states: Seq<ConnectionManager>, actions: Seq<ManagerAction>)
    requires
        states.len() == actions.len() + 1,
        states[0].backoff() == backoff_after(0),
        forall|i: int|
            0 <= i < actions.len() ==> {
                &&& #[trigger] actions[i] == ManagerAction::SleepThenReconnect(
                    states[i].backoff() as u64,
                )
                &&& states[i + 1].backoff() == next_backoff(states[i].backoff())
            },
    ensures
        forall|i: int|
            0 <= i < actions.len() ==> #[trigger] actions[i] == ManagerAction::SleepThenReconnect(
                if pow2(i as nat) < MAX_BACKOFF_SECS {
                    pow2(i as nat) as u64
                } else {
                    MAX_BACKOFF_SECS
                },
            ),
{
    assert forall|i: int| 0 <= i <= actions.len() implies states[i].backoff() == backoff_after(
        i as nat,
    ) by {
        lemma_state_backoff(states, actions, i);
    }
    assert forall|i: int| 0 <= i < actions.len() implies #[trigger] actions[i]
        == ManagerAction::SleepThenReconnect(
        if pow2(i as nat) < MAX_BACKOFF_SECS {
            pow2(i as nat) as u64
        } else {
            MAX_BACKOFF_SECS
        },
    ) by {
        lemma_backoff_doubles_to_cap(i as nat);
    }
}

proof fn lemma_state_backoff(states: Seq<ConnectionManager>, actions: Seq<ManagerAction>, i: int)
    requires
        states.len() == actions.len() + 1,
        states[0].backoff() == backoff_after(0),
        forall|j: int|
            0 <= j < actions.len() ==> {
                &&& #[trigger] actions[j] == ManagerAction::SleepThenReconnect(
                    states[j].backoff() as u64,
                )
                &&& states[j + 1].backoff() == next_backoff(states[j].backoff())
            },
        0 <= i <= actions.len(),
    ensures
        states[i].backoff() == backoff_after(i as nat),
    decreases i,
{
    if i > 0 {
        lemma_state_backoff(states, actions, i - 1);
        let j = i - 1;
        assert(actions[j] == ManagerAction::SleepThenReconnect(states[j].backoff() as u64));
        assert(states[j + 1].backoff() == next_backoff(states[j].backoff()));
        assert(j + 1 == i);
        assert(backoff_after(i as nat) == next_backoff(backoff_after((i - 1) as nat)));
    }
}

} // verus!
