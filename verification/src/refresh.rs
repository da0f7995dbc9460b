use vstd::prelude::*;

use crate::text::{parses_as_socket_addr, socket_addr_text};

verus! {

/// Number of poll steps between two full state requests to the console.
pub const FULL_UPDATE_PERIOD: usize = 300;

/// Number of poll steps between two subscription renewals.
pub const SUBSCRIBE_PERIOD: usize = 5;

/// The UDP port the X32 listens on.
pub open spec fn x32_port_suffix() -> Seq<char> {
    ":10023"@
}

/// What one poll step asks to send to the console.
#[derive(Clone, Copy, PartialEq, Eq, Debug, Structural)]
pub enum RefreshAction {
    /// Send nothing
    Idle,
    /// Renew the subscription: `/xremote` and the two meter requests
    Subscribe,
    /// Renew the subscription, then request the full console state
    SubscribeAndFullUpdate,
}

/// The step counter that a poll step works with: a forced step, and one
/// whose counter has reached the period, start again from zero.
pub open spec fn effective_count(count: int, force: bool) -> int {
    if force || count >= FULL_UPDATE_PERIOD {
        0
    } else {
        count
    }
}

/// What a poll step sends, given the counter it starts from, whether a full
/// update was forced, whether an X32 address is set and whether the
/// address with the X32 port parses as a socket address.
pub open spec fn refresh_action(count: int, force: bool, ip_set: bool, target_ok: bool) -> RefreshAction {
    let c = effective_count(count, force);
    if ip_set && c % (SUBSCRIBE_PERIOD as int) == 0 && target_ok {
        if c == 0 {
            RefreshAction::SubscribeAndFullUpdate
        } else {
            RefreshAction::Subscribe
        }
    } else {
        RefreshAction::Idle
    }
}

/// The counter after a poll step.
pub open spec fn next_count(count: int, force: bool) -> int {
    effective_count(count, force) + 1
}

/// The counter after `n` poll steps without a forced update.
pub open spec fn count_after(count: int, n: nat) -> int
    decreases n,
{
    if n == 0 {
        count
    } else {
        next_count(count_after(count, (n - 1) as nat), false)
    }
}

/// The schedule of requests to the X32: a counter of poll steps (one per
/// second) that decides when the subscription is renewed and when the full
/// console state is requested.
pub struct RefreshSchedule {
    counter: usize,
}

impl RefreshSchedule {
    #[verifier::type_invariant]
    spec fn bounded(self) -> bool {
        self.counter <= FULL_UPDATE_PERIOD
    }

    /// The counter of poll steps.
    pub closed spec fn count(self) -> int {
        self.counter as int
    }

    /// A schedule that has not polled yet.
    pub fn new() -> (r: Self)
        ensures
            r.count() == 0,
    {
        RefreshSchedule { counter: 0 }
    }

    /// The counter of poll steps; it never exceeds the period.
    pub fn steps(&self) -> (r: usize)
        ensures
            r == self.count(),
            r <= FULL_UPDATE_PERIOD,
    {
        proof {
            use_type_invariant(self);
        }
        self.counter
    }

    /// One poll step, given whether a full update was forced, whether an X32
    /// address is set and whether that address with the X32 port parses.
    pub fn step(&mut self, force: bool, ip_set: bool, target_ok: bool) -> (r: RefreshAction)
        ensures
            r == refresh_action(old(self).count(), force, ip_set, target_ok),
            final(self).count() == next_count(old(self).count(), force),
            1 <= final(self).count() <= FULL_UPDATE_PERIOD,
    {
        proof {
            use_type_invariant(&*self);
        }
        let mut c = self.counter;
        if c >= FULL_UPDATE_PERIOD {
            c = 0;
        }
        if force {
            c = 0;
        }
        let action = if ip_set && c % SUBSCRIBE_PERIOD == 0 && target_ok {
            if c == 0 {
                RefreshAction::SubscribeAndFullUpdate
            } else {
                RefreshAction::Subscribe
            }
        } else {
            RefreshAction::Idle
        };
        self.counter = c + 1;
        action
    }

    /// One poll step for the X32 address `ip`: it counts as set when it is
    /// not empty, and its target is `ip` followed by `:10023`.
    pub fn poll(&mut self, force: bool, ip: &str) -> (r: RefreshAction)
        ensures
            r == refresh_action(
                old(self).count(),
                force,
                ip@.len() > 0,
                socket_addr_text(ip@ + x32_port_suffix()),
            ),
            final(self).count() == next_count(old(self).count(), force),
    {
        let target = x32_target(ip);
        let target_ok = parses_as_socket_addr(target.as_str());
        self.step(force, !ip.is_empty(), target_ok)
    }
}

/// The socket address text of the X32: its address and port 10023.
pub fn x32_target(ip: &str) -> (r: String)
    ensures
        r@ == ip@ + x32_port_suffix(),
{
    let mut t = ip.to_owned();
    t.append(":10023");
    t
}

/// The link status shown for the time since the last packet from the X32:
/// 2 below 7 seconds, 1 up to 30 seconds, 0 after that.
pub open spec fn link_status(elapsed_secs: int) -> usize {
    if elapsed_secs < 7 {
        2
    } else if elapsed_secs <= 30 {
        1
    } else {
        0
    }
}

/// The link status for the whole seconds since the last packet.
pub fn packet_status(elapsed_secs: u64) -> (r: usize)
    ensures
        r == link_status(elapsed_secs as int),
{
    if elapsed_secs < 7 {
        2
    } else if elapsed_secs <= 30 {
        1
    } else {
        0
    }
}

/// The link status never improves as the time since the last packet grows.
pub proof fn lemma_link_status_monotone(a: int, b: int)
    requires
        a <= b,
    ensures
        link_status(b) <= link_status(a),
{
}

/// A forced step renews the subscription and requests the full console
/// state whenever an address is set that parses, whatever the counter.
pub proof fn lemma_forced_step_full_update(count: int)
    ensures
        refresh_action(count, true, true, true) == RefreshAction::SubscribeAndFullUpdate,
        next_count(count, true) == 1,
{
}

/// Without an address, or with one that does not parse, nothing is sent.
pub proof fn lemma_no_target_idle(count: int, force: bool, ip_set: bool, target_ok: bool)
    requires
        !ip_set || !target_ok,
    ensures
        refresh_action(count, force, ip_set, target_ok) == RefreshAction::Idle,
{
}

/// After a full update (counter 1), `n` unforced steps bring the counter to
/// `n + 1`, for `n` below the period.
pub proof fn lemma_count_after_full_update(n: nat)
    requires
        n < FULL_UPDATE_PERIOD,
    ensures
        count_after(1, n) == n + 1,
    decreases n,
{
    if n > 0 {
        lemma_count_after_full_update((n - 1) as nat);
    }
}

/// Unforced, with an address that parses: after a full update the next
/// full update comes exactly `FULL_UPDATE_PERIOD` steps later, and in
/// between the subscription is renewed on every `SUBSCRIBE_PERIOD`-th step
/// and on no other.
pub proof fn lemma_refresh_period(n: nat)
    requires
        n < FULL_UPDATE_PERIOD,
    ensures
        (refresh_action(count_after(1, n), false, true, true) == RefreshAction::SubscribeAndFullUpdate)
            <==> n + 1 == FULL_UPDATE_PERIOD,
        (refresh_action(count_after(1, n), false, true, true) != RefreshAction::Idle)
            <==> (n + 1) % (SUBSCRIBE_PERIOD as nat) == 0,
{
    lemma_count_after_full_update(n);
}

/// In numbers: after a full update, unforced steps renew the subscription
/// on every 5th step and request the full state again on the 300th; a
/// forced step or a counter of 300 or more starts again from 0; the X32 is
/// addressed on port 10023; the link status is 2 below 7 seconds, 1 up to
/// 30, 0 after.
pub proof fn lemma_refresh_numbers(n: nat, c: int, e: int)
    requires
        n < 300,
    ensures
        refresh_action(count_after(1, n), false, true, true) == (if n == 299 {
            RefreshAction::SubscribeAndFullUpdate
        } else if (n + 1) % 5 == 0 {
            RefreshAction::Subscribe
        } else {
            RefreshAction::Idle
        }),
        0 <= c < 300 ==> next_count(c, false) == c + 1,
        c >= 300 ==> next_count(c, false) == 1,
        next_count(c, true) == 1,
        x32_port_suffix() == ":10023"@,
        (link_status(e) == 2) == (e < 7),
        (link_status(e) == 1) == (7 <= e && e <= 30),
        (link_status(e) == 0) == (e > 30),
{
    lemma_count_after_full_update(n);
}

} // verus!
