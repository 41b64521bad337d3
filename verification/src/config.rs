//! The knobs of the supervisor: restart policy and timeouts.

use vstd::arithmetic::power2::{lemma_pow2_strictly_increases, lemma_pow2_unfold, pow2};
use vstd::prelude::*;

verus! {

/// Restart policy and timeouts, all in milliseconds.
#[derive(Clone, Copy, Debug, PartialEq, Eq, Structural)]
pub struct SupervisorConfig {
    /// Restarts after which a plugin that keeps failing is disabled.
    pub max_restarts: u32,
    /// Delay before the first restart.
    pub backoff_base_ms: u64,
    /// Longest delay before any restart.
    pub backoff_cap_ms: u64,
    /// Time a plugin must stay running for its restart count to be forgotten.
    pub healthy_reset_ms: u64,
    /// Time a plugin has to answer the metadata handshake.
    pub handshake_timeout_ms: u64,
    /// Time a plugin has to create its socket after it was spawned.
    pub socket_timeout_ms: u64,
    /// Time a plugin has to answer a forwarded HTTP request.
    pub http_timeout_ms: u64,
    /// Time a plugin has to exit after it was told to shut down.
    pub shutdown_grace_ms: u64,
}

/// The configuration a host runs with unless told otherwise.
pub open spec fn default_config() -> SupervisorConfig {
    SupervisorConfig {
        max_restarts: 10,
        backoff_base_ms: 500,
        backoff_cap_ms: 30_000,
        healthy_reset_ms: 60_000,
        handshake_timeout_ms: 2_000,
        socket_timeout_ms: 5_000,
        http_timeout_ms: 30_000,
        shutdown_grace_ms: 3_000,
    }
}

/// The delay before a restart when `restart_count` restarts were already
/// made: the base delay doubled once per restart, up to the cap.
pub open spec fn backoff_ms(base: nat, cap: nat, restart_count: nat) -> nat {
    if base * pow2(restart_count) < cap {
        base * pow2(restart_count)
    } else {
        cap
    }
}

proof fn lemma_doubling_grows(base: nat, i: nat, n: nat)
    requires
        i <= n,
    ensures
        base * pow2(i) <= base * pow2(n),
{
    if i < n {
        lemma_pow2_strictly_increases(i, n);
    }
    assert(base * pow2(i) <= base * pow2(n)) by (nonlinear_arith)
        requires
            pow2(i) <= pow2(n),
    ;
}

impl Default for SupervisorConfig {
    fn default() -> (config: Self)
        ensures
            config == default_config(),
    {
        SupervisorConfig {
            max_restarts: 10,
            backoff_base_ms: 500,
            backoff_cap_ms: 30_000,
            healthy_reset_ms: 60_000,
            handshake_timeout_ms: 2_000,
            socket_timeout_ms: 5_000,
            http_timeout_ms: 30_000,
            shutdown_grace_ms: 3_000,
        }
    }
}

impl SupervisorConfig {
    /// The delay before the next restart of a plugin that was already
    /// restarted `restart_count` times.
    pub fn backoff_delay_ms(&self, restart_count: u32) -> (delay: u64)
        ensures
            delay == backoff_ms(
                self.backoff_base_ms as nat,
                self.backoff_cap_ms as nat,
                restart_count as nat,
            ),
    {
        let base = self.backoff_base_ms;
        let cap = self.backoff_cap_ms;
        let ghost goal = restart_count as nat;
        if base == 0 {
            assert(base as nat * pow2(goal) == 0) by (nonlinear_arith)
                requires
                    base == 0,
            ;
            return 0;
        }
        let mut delay: u64 = base;
        let mut i: u32 = 0;
        proof {
            vstd::arithmetic::power2::lemma2_to64();
            assert(base as nat * pow2(0) == base) by (nonlinear_arith)
                requires
                    pow2(0) == 1,
            ;
        }
        while i < restart_count
            invariant
                i <= restart_count,
                goal == restart_count,
                base == self.backoff_base_ms,
                cap == self.backoff_cap_ms,
                delay as nat == base as nat * pow2(i as nat),
            decreases restart_count - i,
        {
            if delay >= cap {
                proof {
                    lemma_doubling_grows(base as nat, i as nat, goal);
                }
                return cap;
            }
            if delay > cap - delay {
                proof {
                    lemma_pow2_unfold((i + 1) as nat);
                    assert(base as nat * pow2((i + 1) as nat) == 2 * (base as nat * pow2(i as nat)))
                        by (nonlinear_arith)
                        requires
                            pow2((i + 1) as nat) == 2 * pow2(i as nat),
                    ;
                    lemma_doubling_grows(base as nat, (i + 1) as nat, goal);
                }
                return cap;
            }
            proof {
                lemma_pow2_unfold((i + 1) as nat);
                assert(base as nat * pow2((i + 1) as nat) == 2 * (base as nat * pow2(i as nat)))
                    by (nonlinear_arith)
                    requires
                        pow2((i + 1) as nat) == 2 * pow2(i as nat),
                ;
            }
            delay = delay + delay;
            i = i + 1;
        }
        if delay >= cap {
            cap
        } else {
            delay
        }
    }
}

/// With the default base and cap the delays before the first six restarts
/// are 0.5 s, 1 s, 2 s, 4 s, 8 s and 16 s, and every later restart waits for
/// the cap of 30 s.
pub proof fn lemma_default_backoff(restart_count: nat)
    ensures
        restart_count == 0 ==> backoff_ms(500, 30_000, restart_count) == 500,
        restart_count == 1 ==> backoff_ms(500, 30_000, restart_count) == 1_000,
        restart_count == 2 ==> backoff_ms(500, 30_000, restart_count) == 2_000,
        restart_count == 3 ==> backoff_ms(500, 30_000, restart_count) == 4_000,
        restart_count == 4 ==> backoff_ms(500, 30_000, restart_count) == 8_000,
        restart_count == 5 ==> backoff_ms(500, 30_000, restart_count) == 16_000,
        restart_count >= 6 ==> backoff_ms(500, 30_000, restart_count) == 30_000,
{
    vstd::arithmetic::power2::lemma2_to64();
    if restart_count >= 6 {
        lemma_doubling_grows(500, 6, restart_count);
    }
}

} // verus!
