//! The master clock: counts logical ticks and decides, for each tick, which
//! rate-divided subsystems act on it.
use vstd::prelude::*;

verus! {

/// The master rate, in ticks per second.
pub const CLK_FREQ: u64 = 7_000_000;
/// The CPU acts on every second tick of the master rate.
pub const CPU_DIVISOR: u64 = 2;
/// The display-timing unit acts on every tick.
pub const ULA_DIVISOR: u64 = 1;

/// The messages the clock sends to its subsystems.
#[derive(PartialEq, Eq, Structural, Copy, Clone, Debug)]
pub enum ClockMessage {
    Tick,
    Stop,
}

/// Which subsystems a tick reaches.
#[derive(PartialEq, Eq, Structural, Copy, Clone, Debug)]
pub struct Fanout {
    pub cpu: bool,
    pub ula: bool,
}

/// The number of ticks among the first `n` (counted from 1) that a
/// subsystem with divisor `d` acts on: those whose count `d` divides.
pub open spec fn activations(n: nat, d: nat) -> nat
    decreases n,
{
    if n == 0 {
        0
    } else {
        activations((n - 1) as nat, d) + if n % d == 0 {
            1nat
        } else {
            0nat
        }
    }
}

proof fn lemma_div_step(n: int, d: int)
    requires
        n >= 1,
        d >= 1,
    ensures
        n / d == (n - 1) / d + if n % d == 0 {
            1int
        } else {
            0int
        },
{
    let q = n / d;
    let r = n % d;
    let q1 = (n - 1) / d;
    let r1 = (n - 1) % d;
    assert(n == d * q + r && 0 <= r < d) by (nonlinear_arith)
        requires
            d >= 1,
            q == n / d,
            r == n % d,
    ;
    assert(n - 1 == d * q1 + r1 && 0 <= r1 < d) by (nonlinear_arith)
        requires
            d >= 1,
            q1 == (n - 1) / d,
            r1 == (n - 1) % d,
    ;
    assert(q == q1 + if r == 0 {
        1int
    } else {
        0int
    }) by (nonlinear_arith)
        requires
            d >= 1,
            n == d * q + r,
            0 <= r < d,
            n - 1 == d * q1 + r1,
            0 <= r1 < d,
    ;
}

/// Rate division: over the first `n` ticks, a subsystem with divisor `d` is
/// sent exactly `floor(n / d)` ticks.
pub proof fn lemma_rate_division(n: nat, d: nat)
    requires
        d >= 1,
    ensures
        activations(n, d) == n / d,
    decreases n,
{
    if n > 0 {
        lemma_rate_division((n - 1) as nat, d);
        lemma_div_step(n as int, d as int);
    }
}

/// The master clock's counter and the divisors of its two subsystems.
#[derive(PartialEq, Eq, Structural, Copy, Clone, Debug)]
pub struct Clock {
    /// Ticks emitted so far.
    pub ticks: u64,
    pub cpu_divisor: u64,
    pub ula_divisor: u64,
}

impl Clock {
    /// Both divisors are at least one.
    pub open spec fn wf(&self) -> bool {
        self.cpu_divisor >= 1 && self.ula_divisor >= 1
    }

    /// A clock that has emitted no tick yet.
    pub fn new(cpu_divisor: u64, ula_divisor: u64) -> (c: Clock)
        requires
            cpu_divisor >= 1,
            ula_divisor >= 1,
        ensures
            c.wf(),
            c.ticks == 0,
            c.cpu_divisor == cpu_divisor,
            c.ula_divisor == ula_divisor,
    {
        Clock { ticks: 0, cpu_divisor, ula_divisor }
    }

    /// Emits the next tick: the counter goes up by one, and each subsystem
    /// whose divisor divides the new count is to be sent a `Tick`.
    pub fn tick(&mut self) -> (f: Fanout)
        requires
            old(self).wf(),
            old(self).ticks < u64::MAX,
        ensures
            final(self).wf(),
            final(self).ticks == old(self).ticks + 1,
            final(self).cpu_divisor == old(self).cpu_divisor,
            final(self).ula_divisor == old(self).ula_divisor,
            f.cpu == (final(self).ticks % final(self).cpu_divisor == 0),
            f.ula == (final(self).ticks % final(self).ula_divisor == 0),
    {
        self.ticks = self.ticks + 1;
        Fanout { cpu: self.ticks % self.cpu_divisor == 0, ula: self.ticks % self.ula_divisor == 0 }
    }
}

} // verus!
