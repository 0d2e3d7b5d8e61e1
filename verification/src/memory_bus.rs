//! The bus: it routes every address to the device behind it, holds the
//! timer and the two interrupt registers, and performs the object-memory DMA.

use vstd::prelude::*;
use vstd::std_specs::convert::FromSpecImpl;
use crate::gpu::{GPUInterrupts, GPU};
use crate::keys::{Button, Keys};
use crate::lcd::GpuView;
use crate::memory::{Memory, MemoryView};

verus! {

/// The accumulators of the timer, which the bus does not show: the cycles
/// counted towards the next increment of the counter (`main`) and towards
/// the next increment of the divider (`div`).
#[derive(Debug, Clone, Copy, PartialEq, Eq, Structural)]
pub struct InternalClock {
    pub main: u32,
    pub div: u32,
}

/// The four rates at which the timer counter can run.
#[derive(Debug, Clone, Copy, PartialEq, Eq, Structural)]
pub enum ClockSelect {
    Freq4k,
    Freq256k,
    Freq64k,
    Freq16k,
}

/// The timer control register: an enable flag and a rate.
#[derive(Debug, Clone, Copy, PartialEq, Eq, Structural)]
pub struct Tac {
    pub enable: bool,
    pub clock_select: ClockSelect,
}

/// The timer: divider, counter, reload value and control.
#[derive(Debug, Clone, Copy, PartialEq, Eq, Structural)]
pub struct Clock {
    pub internal: InternalClock,
    pub div: u8,
    pub tima: u8,
    pub tma: u8,
    pub tac: Tac,
}

impl ClockSelect {
    /// Cycles between two increments of the counter at this rate: 1024 at
    /// 4096 Hz, 16 at 262144 Hz, 64 at 65536 Hz, 256 at 16384 Hz.
    pub open spec fn spec_period(self) -> u32 {
        match self {
            ClockSelect::Freq4k => 1024,
            ClockSelect::Freq256k => 16,
            ClockSelect::Freq64k => 64,
            ClockSelect::Freq16k => 256,
        }
    }

    /// Cycles between two increments of the counter at this rate.
    #[verifier::when_used_as_spec(spec_period)]
    pub fn period(self) -> (p: u32)
        ensures
            p == self.spec_period(),
    {
        match self {
            ClockSelect::Freq4k => 1024,
            ClockSelect::Freq256k => 16,
            ClockSelect::Freq64k => 64,
            ClockSelect::Freq16k => 256,
        }
    }

    /// The rate that a two-bit selector stands for.
    pub open spec fn of_index(index: int) -> ClockSelect {
        if index % 4 == 0 {
            ClockSelect::Freq4k
        } else if index % 4 == 1 {
            ClockSelect::Freq256k
        } else if index % 4 == 2 {
            ClockSelect::Freq64k
        } else {
            ClockSelect::Freq16k
        }
    }

    /// The two-bit selector of the rate.
    pub open spec fn index(self) -> u8 {
        match self {
            ClockSelect::Freq4k => 0,
            ClockSelect::Freq256k => 1,
            ClockSelect::Freq64k => 2,
            ClockSelect::Freq16k => 3,
        }
    }
}

impl Tac {
    /// The control register that a byte stands for: bit 2 enables the timer,
    /// bits 0 and 1 select the rate.
    pub open spec fn of_bits(value: u8) -> Tac {
        Tac { enable: (value / 4) % 2 == 1, clock_select: ClockSelect::of_index(value as int) }
    }

    /// The control register as a byte.
    pub open spec fn bits(self) -> u8 {
        ((if self.enable { 4int } else { 0int }) + self.clock_select.index()) as u8
    }

    /// The timer switched off, at the slowest rate.
    pub fn new() -> (t: Tac)
        ensures
            t == (Tac { enable: false, clock_select: ClockSelect::Freq4k }),
    {
        Tac { enable: false, clock_select: ClockSelect::Freq4k }
    }
}

impl From<u8> for Tac {
    /// Bit 2 enables the timer, bits 0 and 1 select the rate.
    fn from(value: u8) -> (t: Tac) {
        Tac {
            enable: (value / 4) % 2 == 1,
            clock_select: match value % 4 {
                0 => ClockSelect::Freq4k,
                1 => ClockSelect::Freq256k,
                2 => ClockSelect::Freq64k,
                _ => ClockSelect::Freq16k,
            },
        }
    }
}

impl FromSpecImpl<u8> for Tac {
    open spec fn obeys_from_spec() -> bool {
        true
    }

    open spec fn from_spec(value: u8) -> Tac {
        Tac::of_bits(value)
    }
}

impl From<Tac> for u8 {
    fn from(value: Tac) -> (b: u8) {
        let enable: u8 = if value.enable { 4 } else { 0 };
        let clock_select: u8 = match value.clock_select {
            ClockSelect::Freq4k => 0,
            ClockSelect::Freq256k => 1,
            ClockSelect::Freq64k => 2,
            ClockSelect::Freq16k => 3,
        };
        enable + clock_select
    }
}

impl FromSpecImpl<Tac> for u8 {
    open spec fn obeys_from_spec() -> bool {
        true
    }

    open spec fn from_spec(value: Tac) -> u8 {
        value.bits()
    }
}

/// The counter after `n` increments from `tima`: an increment of `0xFF`
/// overflows and reloads the counter from `tma`.
pub open spec fn tima_after(tima: u8, tma: u8, n: nat) -> u8
    decreases n,
{
    if n == 0 {
        tima
    } else {
        let before = tima_after(tima, tma, (n - 1) as nat);
        if before == 0xFF {
            tma
        } else {
            (before + 1) as u8
        }
    }
}

/// How many of `n` increments from `tima` overflow.
pub open spec fn tima_overflows(tima: u8, tma: u8, n: nat) -> nat
    decreases n,
{
    if n == 0 {
        0
    } else {
        let before = tima_after(tima, tma, (n - 1) as nat);
        tima_overflows(tima, tma, (n - 1) as nat) + if before == 0xFF {
            1nat
        } else {
            0nat
        }
    }
}

/// Increments that do not reach past `0xFF` just add up and overflow
/// nothing.
pub proof fn lemma_tima_short(tima: u8, tma: u8, n: nat)
    requires
        tima + n <= 0xFF,
    ensures
        tima_after(tima, tma, n) == tima + n,
        tima_overflows(tima, tma, n) == 0,
    decreases n,
{
    if n > 0 {
        lemma_tima_short(tima, tma, (n - 1) as nat);
    }
}

/// Increments compose: `m` more increments after `n` are `n + m`
/// increments.
pub proof fn lemma_tima_compose(tima: u8, tma: u8, n: nat, m: nat)
    ensures
        tima_after(tima_after(tima, tma, n), tma, m) == tima_after(tima, tma, n + m),
        tima_overflows(tima, tma, n) + tima_overflows(tima_after(tima, tma, n), tma, m)
            == tima_overflows(tima, tma, n + m),
    decreases m,
{
    if m > 0 {
        lemma_tima_compose(tima, tma, n, (m - 1) as nat);
        assert(n + m - 1 == n + (m - 1) as nat);
    }
}

/// From the reload value the counter comes back to it every `256 - tma`
/// increments, with one overflow each time.
pub proof fn lemma_tima_period(tma: u8, rounds: nat)
    ensures
        tima_after(tma, tma, rounds * (256 - tma) as nat) == tma,
        tima_overflows(tma, tma, rounds * (256 - tma) as nat) == rounds,
    decreases rounds,
{
    let period = (256 - tma) as nat;
    if rounds > 0 {
        lemma_tima_period(tma, (rounds - 1) as nat);
        let done = ((rounds - 1) * period) as nat;
        assert(rounds * period == done + period) by (nonlinear_arith)
            requires
                rounds > 0,
                done == (rounds - 1) * period,
        ;
        lemma_tima_compose(tma, tma, done, period);
        lemma_tima_short(tma, tma, (period - 1) as nat);
        assert(tima_after(tma, tma, period) == tma);
        assert(tima_overflows(tma, tma, period) == 1);
    } else {
        assert(rounds * period == 0) by (nonlinear_arith)
            requires
                rounds == 0,
        ;
    }
}

/// The closed form of `n` increments: short of `0x100` they add up; past it
/// the counter has overflowed once and then runs round the cycle of length
/// `256 - tma` that begins at the reload value.
pub proof fn lemma_tima_closed_form(tima: u8, tma: u8, n: nat)
    ensures
        tima + n <= 0xFF ==> tima_after(tima, tma, n) == tima + n && tima_overflows(tima, tma, n)
            == 0,
        tima + n > 0xFF ==> tima_after(tima, tma, n) == tma + (tima + n - 256) % (256 - tma)
            && tima_overflows(tima, tma, n) == 1 + (tima + n - 256) / (256 - tma),
{
    if tima + n <= 0xFF {
        lemma_tima_short(tima, tma, n);
    } else {
        let first = (256 - tima) as nat;
        let rest = (tima + n - 256) as nat;
        let period = (256 - tma) as nat;
        let rounds = rest / period;
        let tail = rest % period;
        lemma_tima_short(tima, tma, (first - 1) as nat);
        assert(tima_after(tima, tma, first) == tma);
        assert(tima_overflows(tima, tma, first) == 1);
        lemma_tima_period(tma, rounds);
        lemma_tima_short(tma, tma, tail);
        assert(rest == rounds * period + tail) by (nonlinear_arith)
            requires
                period > 0,
                rounds == rest / period,
                tail == rest % period,
        ;
        lemma_tima_compose(tma, tma, rounds * period, tail);
        lemma_tima_compose(tima, tma, first, rest);
        assert(first + rest == n);
    }
}

impl Clock {
    /// A stopped timer with every register zero.
    pub fn new() -> (c: Clock)
        ensures
            c == (Clock {
                internal: InternalClock { main: 0, div: 0 },
                div: 0,
                tima: 0,
                tma: 0,
                tac: Tac { enable: false, clock_select: ClockSelect::Freq4k },
            }),
    {
        Clock {
            internal: InternalClock { main: 0, div: 0 },
            div: 0,
            tima: 0,
            tma: 0,
            tac: Tac::new(),
        }
    }

    /// The invariant of the timer: the divider accumulator stays below one
    /// divider period.
    pub open spec fn wf(&self) -> bool {
        self.internal.div < 256
    }

    /// The increments of the counter that fall due when `cycles` more
    /// cycles are counted, if the timer is enabled.
    pub open spec fn due(&self, cycles: int) -> nat {
        ((self.internal.main + cycles) / (self.tac.clock_select.period() as int)) as nat
    }

    /// The timer after `cycles` cycles. The divider counts every 256th
    /// cycle, always. The counter counts every cycle period of the selected
    /// rate while the timer is enabled, and reloads from `tma` when it
    /// overflows.
    pub open spec fn after(&self, cycles: int) -> Clock {
        let div_total = self.internal.div + cycles;
        let div = ((self.div + div_total / 256) % 256) as u8;
        if self.tac.enable {
            Clock {
                internal: InternalClock {
                    main: ((self.internal.main + cycles) % (self.tac.clock_select.period()
                        as int)) as u32,
                    div: (div_total % 256) as u32,
                },
                div,
                tima: tima_after(self.tima, self.tma, self.due(cycles)),
                ..*self
            }
        } else {
            Clock {
                internal: InternalClock { div: (div_total % 256) as u32, ..self.internal },
                div,
                ..*self
            }
        }
    }

    /// Whether the counter overflows during the next `cycles` cycles.
    pub open spec fn overflows(&self, cycles: int) -> bool {
        self.tac.enable && tima_overflows(self.tima, self.tma, self.due(cycles)) > 0
    }

    /// One increment of the counter, whatever the accumulator holds: the
    /// accumulator is cleared, and a counter at `0xFF` overflows, reloads from
    /// `tma` and reports the overflow, once.
    pub fn step(&mut self) -> (overflow: bool)
        ensures
            overflow == (old(self).tima == 0xFF),
            *final(self) == (Clock {
                internal: InternalClock { main: 0, ..old(self).internal },
                tima: if old(self).tima == 0xFF {
                    old(self).tma
                } else {
                    (old(self).tima + 1) as u8
                },
                ..*old(self)
            }),
            final(self).tima == tima_after(old(self).tima, old(self).tma, 1),
            overflow == (tima_overflows(old(self).tima, old(self).tma, 1) == 1),
    {
        proof {
            assert(tima_after(self.tima, self.tma, 0) == self.tima);
            assert(tima_overflows(self.tima, self.tma, 0) == 0);
        }
        self.internal.main = 0;
        if self.tima == 0xFF {
            self.tima = self.tma;
            true
        } else {
            self.tima = self.tima + 1;
            false
        }
    }

    /// Performs `n` increments of the counter and tells whether any of them
    /// overflowed.
    fn count(&mut self, n: u32) -> (overflow: bool)
        ensures
            *final(self) == (Clock {
                tima: tima_after(old(self).tima, old(self).tma, n as nat),
                ..*old(self)
            }),
            overflow == (tima_overflows(old(self).tima, old(self).tma, n as nat) > 0),
    {
        proof {
            lemma_tima_closed_form(self.tima, self.tma, n as nat);
        }
        let reach: u64 = self.tima as u64 + n as u64;
        if reach <= 0xFF {
            self.tima = reach as u8;
            false
        } else {
            let period: u64 = 256 - self.tma as u64;
            let rest: u64 = reach - 256;
            self.tima = (self.tma as u64 + rest % period) as u8;
            true
        }
    }

    /// Performs the increments of the counter that the accumulator holds,
    /// if the timer is enabled, and tells whether the counter overflowed.
    pub fn check(&mut self) -> (overflow: bool)
        requires
            old(self).wf(),
        ensures
            final(self).wf(),
            *final(self) == old(self).after(0),
            overflow == old(self).overflows(0),
    {
        self.inc(0)
    }

    /// Counts `cycles` cycles and tells whether the counter overflowed, in
    /// which case the timer interrupt is to be requested.
    pub fn inc(&mut self, cycles: u32) -> (overflow: bool)
        requires
            old(self).wf(),
        ensures
            final(self).wf(),
            *final(self) == old(self).after(cycles as int),
            overflow == old(self).overflows(cycles as int),
    {
        let div_total: u64 = self.internal.div as u64 + cycles as u64;
        let div_steps: u64 = div_total / 256;
        self.div = ((self.div as u64 + div_steps) % 256) as u8;
        self.internal.div = (div_total % 256) as u32;
        if !self.tac.enable {
            return false;
        }
        let period = self.tac.clock_select.period() as u64;
        let total: u64 = self.internal.main as u64 + cycles as u64;
        let n = (total / period) as u32;
        self.internal.main = (total % period) as u32;
        self.count(n)
    }

    /// A bus write to the divider: divider and its accumulator restart at
    /// zero.
    pub fn reset_div(&mut self)
        ensures
            *final(self) == (Clock {
                internal: InternalClock { div: 0, ..old(self).internal },
                div: 0,
                ..*old(self)
            }),
    {
        self.div = 0;
        self.internal.div = 0;
    }
}

/// An overflow of the counter reloads it from `tma` and is reported, once:
/// when the cycles counted bring exactly the increment that takes the counter
/// past `0xFF`, the counter holds `tma` afterwards and the overflow is
/// reported; when they bring fewer increments than that, the counter just
/// counts and nothing is reported.
pub proof fn lemma_overflow_reloads(clock: Clock, cycles: int)
    requires
        clock.tac.enable,
        0 <= cycles,
    ensures
        clock.tima + clock.due(cycles) == 256 ==> clock.after(cycles).tima == clock.tma
            && clock.overflows(cycles) && tima_overflows(
            clock.tima,
            clock.tma,
            clock.due(cycles),
        ) == 1,
        clock.tima + clock.due(cycles) < 256 ==> clock.after(cycles).tima == clock.tima
            + clock.due(cycles) && !clock.overflows(cycles),
        clock.after(cycles).tma == clock.tma,
{
    lemma_tima_closed_form(clock.tima, clock.tma, clock.due(cycles));
    let period = 256 - clock.tma;
    assert(0int % period == 0 && 0int / period == 0) by (nonlinear_arith)
        requires
            period > 0,
    ;
}

/// The counter counts once per period of the selected rate: the increments
/// due after `cycles` cycles are the cycles accumulated, divided by the
/// period.
pub proof fn lemma_timer_rate(clock: Clock, cycles: int)
    requires
        clock.tac.enable,
        0 <= cycles,
        clock.internal.main == 0,
    ensures
        clock.due(cycles) == cycles / (clock.tac.clock_select.period() as int),
        clock.tac.clock_select == ClockSelect::Freq4k ==> clock.due(cycles) == cycles / 1024,
        clock.tac.clock_select == ClockSelect::Freq256k ==> clock.due(cycles) == cycles / 16,
        clock.tac.clock_select == ClockSelect::Freq64k ==> clock.due(cycles) == cycles / 64,
        clock.tac.clock_select == ClockSelect::Freq16k ==> clock.due(cycles) == cycles / 256,
{
}

/// A set of interrupts: the enable register and the flag register each hold
/// one.
#[derive(Debug, Clone, Copy, PartialEq, Eq, Structural)]
pub struct Interrupts {
    pub vblank: bool,
    pub lcd_stat: bool,
    pub timer: bool,
    pub serial: bool,
    pub joypad: bool,
}

impl Interrupts {
    /// The empty set.
    pub fn new() -> (i: Interrupts)
        ensures
            i == (Interrupts {
                vblank: false,
                lcd_stat: false,
                timer: false,
                serial: false,
                joypad: false,
            }),
    {
        Interrupts { vblank: false, lcd_stat: false, timer: false, serial: false, joypad: false }
    }

    /// The set as a register value: vertical blank is bit 0, LCD status bit
    /// 1, timer bit 2, serial bit 3 and joypad bit 4.
    pub open spec fn bits(self) -> u8 {
        ((if self.vblank { 1int } else { 0int }) + (if self.lcd_stat { 2int } else { 0int }) + (
        if self.timer { 4int } else { 0int }) + (if self.serial { 8int } else { 0int }) + (
        if self.joypad { 16int } else { 0int })) as u8
    }

    /// The set that a register value stands for; bits 5 to 7 are dropped.
    pub open spec fn of_bits(val: u8) -> Interrupts {
        Interrupts {
            vblank: val % 2 == 1,
            lcd_stat: (val / 2) % 2 == 1,
            timer: (val / 4) % 2 == 1,
            serial: (val / 8) % 2 == 1,
            joypad: (val / 16) % 2 == 1,
        }
    }

    /// The interrupts that are in both sets.
    pub open spec fn both(self, other: Interrupts) -> Interrupts {
        Interrupts {
            vblank: self.vblank && other.vblank,
            lcd_stat: self.lcd_stat && other.lcd_stat,
            timer: self.timer && other.timer,
            serial: self.serial && other.serial,
            joypad: self.joypad && other.joypad,
        }
    }

    /// Whether the set is empty.
    pub open spec fn spec_is_empty(self) -> bool {
        !self.vblank && !self.lcd_stat && !self.timer && !self.serial && !self.joypad
    }

    /// Whether the set is empty.
    #[verifier::when_used_as_spec(spec_is_empty)]
    pub fn is_empty(self) -> (e: bool)
        ensures
            e == self.spec_is_empty(),
    {
        !self.vblank && !self.lcd_stat && !self.timer && !self.serial && !self.joypad
    }
}

impl From<u8> for Interrupts {
    fn from(val: u8) -> (i: Interrupts) {
        Interrupts {
            vblank: val % 2 == 1,
            lcd_stat: (val / 2) % 2 == 1,
            timer: (val / 4) % 2 == 1,
            serial: (val / 8) % 2 == 1,
            joypad: (val / 16) % 2 == 1,
        }
    }
}

impl FromSpecImpl<u8> for Interrupts {
    open spec fn obeys_from_spec() -> bool {
        true
    }

    open spec fn from_spec(val: u8) -> Interrupts {
        Interrupts::of_bits(val)
    }
}

impl From<Interrupts> for u8 {
    fn from(val: Interrupts) -> (b: u8) {
        let vblank: u8 = if val.vblank { 1 } else { 0 };
        let lcd_stat: u8 = if val.lcd_stat { 2 } else { 0 };
        let timer: u8 = if val.timer { 4 } else { 0 };
        let serial: u8 = if val.serial { 8 } else { 0 };
        let joypad: u8 = if val.joypad { 16 } else { 0 };
        vblank + lcd_stat + timer + serial + joypad
    }
}

impl FromSpecImpl<Interrupts> for u8 {
    open spec fn obeys_from_spec() -> bool {
        true
    }

    open spec fn from_spec(val: Interrupts) -> u8 {
        val.bits()
    }
}

proof fn lemma_weights_sum(val: u8)
    by (bit_vector)
    ensures
        (if val % 2 == 1 { 1u8 } else { 0u8 }) + (if (val / 2) % 2 == 1 { 2u8 } else { 0u8 }) + (if (
        val / 4) % 2 == 1 { 4u8 } else { 0u8 }) + (if (val / 8) % 2 == 1 { 8u8 } else { 0u8 }) + (
        if (val / 16) % 2 == 1 { 16u8 } else { 0u8 }) == val % 32,
{
}

proof fn lemma_weights_split(a: bool, b: bool, c: bool, d: bool, e: bool, sum: u8)
    by (bit_vector)
    requires
        sum == (if a { 1u8 } else { 0u8 }) + (if b { 2u8 } else { 0u8 }) + (if c { 4u8 } else { 0u8 })
            + (if d { 8u8 } else { 0u8 }) + (if e { 16u8 } else { 0u8 }),
    ensures
        (sum % 2 == 1) == a,
        ((sum / 2) % 2 == 1) == b,
        ((sum / 4) % 2 == 1) == c,
        ((sum / 8) % 2 == 1) == d,
        ((sum / 16) % 2 == 1) == e,
{
}

/// An interrupt register reads back the five low bits that were written to
/// it, and a set survives the trip through the register.
pub proof fn lemma_interrupt_bits(val: u8, set: Interrupts)
    ensures
        Interrupts::of_bits(val).bits() == val % 32,
        Interrupts::of_bits(set.bits()) == set,
{
    lemma_weights_sum(val);
    lemma_weights_split(set.vblank, set.lcd_stat, set.timer, set.serial, set.joypad, set.bits());
}

/// The bus with the devices it owns.
pub struct MemoryBus {
    pub memory: Memory,
    pub joypad: Keys,
    pub serial: u8,
    pub serial_control: u8,
    pub clock: Clock,
    pub gpu: GPU,
    pub dma: u8,
    pub interrupt_enable: Interrupts,
    pub interrupt_flag: Interrupts,
    pub serial_out: Vec<u8>,
}

/// The bus and its devices as mathematical values.
pub struct BusView {
    pub memory: MemoryView,
    pub joypad: Keys,
    pub serial: u8,
    pub serial_control: u8,
    pub clock: Clock,
    pub gpu: GpuView,
    pub dma: u8,
    pub interrupt_enable: Interrupts,
    pub interrupt_flag: Interrupts,
    pub serial_out: Seq<u8>,
}

impl BusView {
    /// A bus that has just been made: fresh devices, a stopped timer, no
    /// key held down, no interrupt enabled or requested, nothing sent over the
    /// serial port.
    pub open spec fn fresh() -> BusView {
        BusView {
            memory: MemoryView::fresh(),
            joypad: Keys { actions: 0x0F, directions: 0x0F, column: 0 },
            serial: 0,
            serial_control: 0,
            clock: Clock {
                internal: InternalClock { main: 0, div: 0 },
                div: 0,
                tima: 0,
                tma: 0,
                tac: Tac { enable: false, clock_select: ClockSelect::Freq4k },
            },
            gpu: GpuView::fresh(),
            dma: 0,
            interrupt_enable: Interrupts {
                vblank: false,
                lcd_stat: false,
                timer: false,
                serial: false,
                joypad: false,
            },
            interrupt_flag: Interrupts {
                vblank: false,
                lcd_stat: false,
                timer: false,
                serial: false,
                joypad: false,
            },
            serial_out: Seq::empty(),
        }
    }

    /// The byte read at `address`. Every address has an answer: where no
    /// device is implemented the bus answers with a fixed value.
    #[verifier::opaque]
    pub open spec fn read(self, address: u16) -> u8 {
        if address <= 0x7FFF {
            self.memory.read(address)
        } else if address <= 0x9FFF {
            self.gpu.read(address)
        } else if address <= 0xDFFF {
            self.memory.read(address)
        } else if address <= 0xFDFF {
            self.memory.read((address - 0x2000) as u16)
        } else if address <= 0xFE9F {
            self.gpu.read(address)
        } else if address <= 0xFEFF {
            0
        } else if address == 0xFF00 {
            self.joypad.read_byte()
        } else if address == 0xFF01 {
            self.serial
        } else if address == 0xFF02 {
            self.serial_control
        } else if address == 0xFF04 {
            self.clock.div
        } else if address == 0xFF05 {
            self.clock.tima
        } else if address == 0xFF06 {
            self.clock.tma
        } else if address == 0xFF07 {
            self.clock.tac.bits()
        } else if address == 0xFF0F {
            self.interrupt_flag.bits()
        } else if 0xFF27 <= address <= 0xFF2F {
            0xFF
        } else if address == 0xFF46 {
            self.dma
        } else if 0xFF40 <= address <= 0xFF4F {
            self.gpu.read(address)
        } else if address == 0xFF50 {
            if self.memory.expose_boot_rom {
                0
            } else {
                1
            }
        } else if 0xFF80 <= address <= 0xFFFE {
            self.memory.read(address)
        } else if address == 0xFFFF {
            self.interrupt_enable.bits()
        } else {
            0
        }
    }

    /// Object memory after a DMA transfer from page `page`: its 160 bytes
    /// are those read at `page * 0x100` and the 159 addresses after it.
    pub open spec fn dma_image(self, page: u8) -> Seq<u8> {
        Seq::new(0xA0, |i: int| self.read((page * 0x100 + i) as u16))
    }

    /// The state after a write of `val` at `address`. Writes to addresses
    /// without a device are dropped.
    #[verifier::opaque]
    pub open spec fn write(self, address: u16, val: u8) -> BusView {
        if address <= 0x7FFF {
            BusView { memory: self.memory.write(address, val), ..self }
        } else if address <= 0x9FFF {
            BusView { gpu: self.gpu.write(address, val), ..self }
        } else if address <= 0xDFFF {
            BusView { memory: self.memory.write(address, val), ..self }
        } else if address <= 0xFDFF {
            BusView { memory: self.memory.write((address - 0x2000) as u16, val), ..self }
        } else if address <= 0xFE9F {
            BusView { gpu: self.gpu.write(address, val), ..self }
        } else if address <= 0xFEFF {
            self
        } else if address == 0xFF00 {
            BusView { joypad: Keys { column: val & 0x30, ..self.joypad }, ..self }
        } else if address == 0xFF01 {
            BusView { serial: val, ..self }
        } else if address == 0xFF02 {
            BusView { serial_control: 0, serial_out: self.serial_out.push(self.serial), ..self }
        } else if address == 0xFF04 {
            BusView {
                clock: Clock {
                    internal: InternalClock { div: 0, ..self.clock.internal },
                    div: 0,
                    ..self.clock
                },
                ..self
            }
        } else if address == 0xFF05 {
            BusView { clock: Clock { tima: val, ..self.clock }, ..self }
        } else if address == 0xFF06 {
            BusView { clock: Clock { tma: val, ..self.clock }, ..self }
        } else if address == 0xFF07 {
            BusView { clock: Clock { tac: Tac::of_bits(val), ..self.clock }, ..self }
        } else if address == 0xFF0F {
            BusView { interrupt_flag: Interrupts::of_bits(val), ..self }
        } else if address == 0xFF46 {
            BusView { dma: val, gpu: GpuView { oam: self.dma_image(val), ..self.gpu }, ..self }
        } else if 0xFF40 <= address <= 0xFF4F {
            BusView { gpu: self.gpu.write(address, val), ..self }
        } else if address == 0xFF50 {
            if val != 0 {
                BusView {
                    memory: MemoryView { expose_boot_rom: false, ..self.memory },
                    ..self
                }
            } else {
                self
            }
        } else if 0xFF80 <= address <= 0xFFFE {
            BusView { memory: self.memory.write(address, val), ..self }
        } else if address == 0xFFFF {
            BusView { interrupt_enable: Interrupts::of_bits(val), ..self }
        } else {
            self
        }
    }

    /// What the pixel processor requests during the next `cycles` cycles.
    pub open spec fn gpu_requests(self, cycles: int) -> GPUInterrupts {
        if self.gpu.lcdc.lcd_enable {
            self.gpu.requests(cycles)
        } else {
            GPUInterrupts::Nothing
        }
    }

    /// The state after the pixel processor and the timer have run for
    /// `cycles` cycles: what they request is added to the interrupt flags.
    #[verifier::opaque]
    pub open spec fn after(self, cycles: int) -> BusView {
        let req = self.gpu_requests(cycles);
        BusView {
            gpu: if self.gpu.lcdc.lcd_enable {
                self.gpu.after(cycles)
            } else {
                self.gpu
            },
            clock: self.clock.after(cycles),
            interrupt_flag: Interrupts {
                vblank: self.interrupt_flag.vblank || req.has_vblank(),
                lcd_stat: self.interrupt_flag.lcd_stat || req.has_lcd_stat(),
                timer: self.interrupt_flag.timer || self.clock.overflows(cycles),
                ..self.interrupt_flag
            },
            ..self
        }
    }

    /// The state after `button` went down: the joypad records it, and a key
    /// that was up before requests the joypad interrupt.
    pub open spec fn pressed(self, button: Button) -> BusView {
        BusView {
            joypad: self.joypad.pressed(button),
            interrupt_flag: Interrupts {
                joypad: self.interrupt_flag.joypad || !self.joypad.is_down(button),
                ..self.interrupt_flag
            },
            ..self
        }
    }

    /// The state after `button` came up.
    pub open spec fn released(self, button: Button) -> BusView {
        BusView { joypad: self.joypad.released(button), ..self }
    }

    /// The interrupts that are both requested and enabled.
    pub open spec fn pending(self) -> Interrupts {
        self.interrupt_flag.both(self.interrupt_enable)
    }
}

/// What a run of the pixel processor and the timer leaves in the interrupt
/// flags: a flag that was set stays set; the timer flag is set by an overflow
/// of the counter, the vertical-blank and LCD-status flags by the requests of
/// the pixel processor; the serial and joypad flags are left alone.
pub proof fn lemma_tick_flags(bus: BusView, cycles: int)
    ensures
        bus.after(cycles).clock == bus.clock.after(cycles),
        bus.after(cycles).interrupt_flag.timer == (bus.interrupt_flag.timer || bus.clock.overflows(
            cycles,
        )),
        bus.after(cycles).interrupt_flag.vblank == (bus.interrupt_flag.vblank || bus.gpu_requests(
            cycles,
        ).has_vblank()),
        bus.after(cycles).interrupt_flag.lcd_stat == (bus.interrupt_flag.lcd_stat
            || bus.gpu_requests(cycles).has_lcd_stat()),
        bus.after(cycles).interrupt_flag.serial == bus.interrupt_flag.serial,
        bus.after(cycles).interrupt_flag.joypad == bus.interrupt_flag.joypad,
        bus.after(cycles).interrupt_enable == bus.interrupt_enable,
        bus.after(cycles).memory == bus.memory,
{
    reveal(BusView::after);
}

impl View for MemoryBus {
    type V = BusView;

    open spec fn view(&self) -> BusView {
        BusView {
            memory: self.memory@,
            joypad: self.joypad,
            serial: self.serial,
            serial_control: self.serial_control,
            clock: self.clock,
            gpu: self.gpu@,
            dma: self.dma,
            interrupt_enable: self.interrupt_enable,
            interrupt_flag: self.interrupt_flag,
            serial_out: self.serial_out@,
        }
    }
}

impl MemoryBus {
    /// The invariant of the bus: those of the pixel processor and of the
    /// timer.
    pub open spec fn wf(&self) -> bool {
        self.gpu.wf() && self.clock.wf()
    }

    /// A bus with freshly made devices and no interrupt enabled or
    /// requested.
    pub fn new() -> (bus: MemoryBus)
        ensures
            bus.wf(),
            bus@ == BusView::fresh(),
    {
        MemoryBus {
            memory: Memory::new(),
            gpu: GPU::new(),
            dma: 0,
            joypad: Keys::new(),
            serial: 0,
            serial_control: 0,
            interrupt_enable: Interrupts::new(),
            interrupt_flag: Interrupts::new(),
            clock: Clock::new(),
            serial_out: Vec::new(),
        }
    }

    /// Installs a ROM image; see `Memory::read_rom`.
    pub fn read_rom(&mut self, rom: Vec<u8>) -> (r: Result<(), &'static str>)
        requires
            old(self).wf(),
        ensures
            final(self).wf(),
            r is Ok <==> rom@.len() > 0x0147,
            r is Ok ==> final(self)@ == (BusView {
                memory: MemoryView {
                    rom: rom@,
                    cartridge_type: rom@[0x0147],
                    ..old(self)@.memory
                },
                ..old(self)@
            }),
            r is Err ==> final(self)@ == old(self)@,
            r is Err ==> r == Err::<(), &'static str>("rom image has no header"),
    {
        self.memory.read_rom(rom)
    }

    /// Installs and maps a boot ROM; see `Memory::read_boot_rom`.
    pub fn read_boot_rom(&mut self, image: &Vec<u8>) -> (r: Result<(), &'static str>)
        requires
            old(self).wf(),
        ensures
            final(self).wf(),
            r is Ok <==> image@.len() == 0x100,
            r is Ok ==> final(self)@ == (BusView {
                memory: MemoryView {
                    boot_rom: image@,
                    expose_boot_rom: true,
                    ..old(self)@.memory
                },
                ..old(self)@
            }),
            r is Err ==> final(self)@ == old(self)@,
            r is Err ==> r == Err::<(), &'static str>("boot rom is not 256 bytes long"),
    {
        self.memory.read_boot_rom(image)
    }

    /// The bytes sent over the serial port so far and not yet taken.
    pub fn take_serial_output(&mut self) -> (out: Vec<u8>)
        requires
            old(self).wf(),
        ensures
            final(self).wf(),
            out@ == old(self)@.serial_out,
            final(self)@ == (BusView { serial_out: Seq::empty(), ..old(self)@ }),
    {
        let mut out: Vec<u8> = Vec::new();
        std::mem::swap(&mut out, &mut self.serial_out);
        out
    }

    fn read_register(&self, address: u16) -> (b: u8)
        requires
            0xFF00 <= address <= 0xFF7F,
        ensures
            b == self@.read(address),
    {
        proof {
            reveal(BusView::read);
            reveal(BusView::write);
            reveal(BusView::after);
        }
        match address {
            0xFF00 => self.joypad.read_byte(),
            0xFF01 => self.serial,
            0xFF02 => self.serial_control,
            0xFF04 => self.clock.div,
            0xFF05 => self.clock.tima,
            0xFF06 => self.clock.tma,
            0xFF07 => self.clock.tac.into(),
            0xFF0F => self.interrupt_flag.into(),
            0xFF27..=0xFF2F => 0xFF,
            0xFF46 => self.dma,
            0xFF40..=0xFF4F => self.gpu.read_byte(address),
            0xFF50 => {
                if self.memory.boot_rom_mapped() {
                    0
                } else {
                    1
                }
            },
            _ => 0,
        }
    }

    /// The byte read at `address`.
    pub fn read_byte(&self, address: u16) -> (b: u8)
        ensures
            b == self@.read(address),
    {
        proof {
            reveal(BusView::read);
            reveal(BusView::write);
            reveal(BusView::after);
        }
        match address {
            0..=0x7FFF => self.memory.read_byte(address),
            0x8000..=0x9FFF => self.gpu.read_byte(address),
            0xA000..=0xDFFF => self.memory.read_byte(address),
            0xE000..=0xFDFF => self.memory.read_byte(address - 0x2000),
            0xFE00..=0xFE9F => self.gpu.read_byte(address),
            0xFEA0..=0xFEFF => 0,
            0xFF00..=0xFF7F => self.read_register(address),
            0xFF80..=0xFFFE => self.memory.read_byte(address),
            0xFFFF => self.interrupt_enable.into(),
        }
    }

    fn write_memory(&mut self, address: u16, val: u8)
        requires
            old(self).wf(),
        ensures
            final(self).wf(),
            final(self)@ == (BusView {
                memory: old(self)@.memory.write(address, val),
                ..old(self)@
            }),
    {
        proof {
            reveal(BusView::read);
            reveal(BusView::write);
            reveal(BusView::after);
        }
        self.memory.write_byte(address, val);
    }

    fn write_gpu(&mut self, address: u16, val: u8)
        requires
            old(self).wf(),
        ensures
            final(self).wf(),
            final(self)@ == (BusView { gpu: old(self)@.gpu.write(address, val), ..old(self)@ }),
    {
        proof {
            reveal(BusView::read);
            reveal(BusView::write);
            reveal(BusView::after);
        }
        self.gpu.write_byte(address, val);
    }

    fn write_joypad(&mut self, val: u8)
        requires
            old(self).wf(),
        ensures
            final(self).wf(),
            final(self)@ == old(self)@.write(0xFF00, val),
    {
        proof {
            reveal(BusView::read);
            reveal(BusView::write);
            reveal(BusView::after);
        }
        self.joypad.write_byte(val);
    }

    fn write_serial(&mut self, address: u16, val: u8)
        requires
            old(self).wf(),
            0xFF01 <= address <= 0xFF02,
        ensures
            final(self).wf(),
            final(self)@ == old(self)@.write(address, val),
    {
        proof {
            reveal(BusView::read);
            reveal(BusView::write);
            reveal(BusView::after);
        }
        if address == 0xFF01 {
            self.serial = val;
        } else {
            self.serial_out.push(self.serial);
            self.serial_control = 0;
        }
    }

    fn write_timer(&mut self, address: u16, val: u8)
        requires
            old(self).wf(),
            0xFF04 <= address <= 0xFF07,
        ensures
            final(self).wf(),
            final(self)@ == old(self)@.write(address, val),
    {
        proof {
            reveal(BusView::read);
            reveal(BusView::write);
            reveal(BusView::after);
        }
        let mut clock = self.clock;
        if address == 0xFF04 {
            clock.reset_div();
        } else if address == 0xFF05 {
            clock.tima = val;
        } else if address == 0xFF06 {
            clock.tma = val;
        } else {
            clock.tac = Tac::from(val);
        }
        self.clock = clock;
    }

    fn write_interrupts(&mut self, address: u16, val: u8)
        requires
            old(self).wf(),
            address == 0xFF0F || address == 0xFFFF,
        ensures
            final(self).wf(),
            final(self)@ == old(self)@.write(address, val),
    {
        proof {
            reveal(BusView::read);
            reveal(BusView::write);
            reveal(BusView::after);
        }
        let set = Interrupts::from(val);
        if address == 0xFF0F {
            self.interrupt_flag = set;
        } else {
            self.interrupt_enable = set;
        }
    }

    fn unmap_boot_rom(&mut self, val: u8)
        requires
            old(self).wf(),
        ensures
            final(self).wf(),
            final(self)@ == old(self)@.write(0xFF50, val),
    {
        proof {
            reveal(BusView::read);
            reveal(BusView::write);
            reveal(BusView::after);
        }
        if val != 0 {
            self.memory.hide_boot_rom();
        }
    }

    fn set_dma(&mut self, val: u8)
        requires
            old(self).wf(),
        ensures
            final(self).wf(),
            final(self)@ == (BusView { dma: val, ..old(self)@ }),
    {
        self.dma = val;
    }

    /// Stores the 160 bytes of `image` in object memory.
    fn fill_oam(&mut self, image: &[u8; 0xA0])
        requires
            old(self).wf(),
        ensures
            final(self).wf(),
            final(self)@ == (BusView {
                gpu: GpuView { oam: image@, ..old(self)@.gpu },
                ..old(self)@
            }),
    {
        proof {
            self.gpu.lemma_wf();
        }
        let mut i: usize = 0;
        while i < 0xA0
            invariant
                i <= 0xA0,
                self.wf(),
                self@ == (BusView {
                    gpu: GpuView { oam: self@.gpu.oam, ..old(self)@.gpu },
                    ..old(self)@
                }),
                self@.gpu.oam.len() == 0xA0,
                forall|j: int| 0 <= j < i ==> self@.gpu.oam[j] == image@[j],
            decreases 0xA0 - i,
        {
            self.write_gpu(0xFE00 + i as u16, image[i]);
            i += 1;
        }
        proof {
            assert(self@.gpu.oam =~= image@);
        }
    }

    /// The DMA transfer: stores `page` in the DMA register and copies the
    /// 160 bytes that begin at `page * 0x100` into object memory, in one go.
    fn dma_transfer(&mut self, page: u8)
        requires
            old(self).wf(),
        ensures
            final(self).wf(),
            final(self)@ == old(self)@.write(0xFF46, page),
    {
        proof {
            reveal(BusView::read);
            reveal(BusView::write);
            reveal(BusView::after);
        }
        let source: u16 = (page as u16) * 0x100;
        let mut image: [u8; 0xA0] = [0; 0xA0];
        let mut i: usize = 0;
        while i < 0xA0
            invariant
                i <= 0xA0,
                source == page * 0x100,
                forall|j: int| 0 <= j < i ==> image@[j] == self@.read((source + j) as u16),
            decreases 0xA0 - i,
        {
            image[i] = self.read_byte(source + i as u16);
            i += 1;
        }
        proof {
            assert(image@ =~= self@.dma_image(page));
        }
        self.set_dma(page);
        self.fill_oam(&image);
    }

    fn write_register(&mut self, address: u16, val: u8)
        requires
            old(self).wf(),
            0xFF00 <= address <= 0xFF7F,
        ensures
            final(self).wf(),
            final(self)@ == old(self)@.write(address, val),
    {
        proof {
            reveal(BusView::read);
            reveal(BusView::write);
            reveal(BusView::after);
        }
        match address {
            0xFF00 => self.write_joypad(val),
            0xFF01..=0xFF02 => self.write_serial(address, val),
            0xFF04..=0xFF07 => self.write_timer(address, val),
            0xFF0F => self.write_interrupts(address, val),
            0xFF46 => self.dma_transfer(val),
            0xFF40..=0xFF4F => self.write_gpu(address, val),
            0xFF50 => self.unmap_boot_rom(val),
            _ => {},
        }
    }

    /// Stores `val` at `address`.
    pub fn write_byte(&mut self, address: u16, val: u8)
        requires
            old(self).wf(),
        ensures
            final(self).wf(),
            final(self)@ == old(self)@.write(address, val),
    {
        proof {
            reveal(BusView::read);
            reveal(BusView::write);
            reveal(BusView::after);
        }
        match address {
            0..=0x7FFF => self.write_memory(address, val),
            0x8000..=0x9FFF => self.write_gpu(address, val),
            0xA000..=0xDFFF => self.write_memory(address, val),
            0xE000..=0xFDFF => self.write_memory(address - 0x2000, val),
            0xFE00..=0xFE9F => self.write_gpu(address, val),
            0xFEA0..=0xFEFF => {},
            0xFF00..=0xFF7F => self.write_register(address, val),
            0xFF80..=0xFFFE => self.write_memory(address, val),
            0xFFFF => self.write_interrupts(address, val),
        }
    }

    fn raise(&mut self, vblank: bool, lcd_stat: bool, timer: bool)
        requires
            old(self).wf(),
        ensures
            final(self).wf(),
            final(self)@ == (BusView {
                interrupt_flag: Interrupts {
                    vblank: old(self)@.interrupt_flag.vblank || vblank,
                    lcd_stat: old(self)@.interrupt_flag.lcd_stat || lcd_stat,
                    timer: old(self)@.interrupt_flag.timer || timer,
                    ..old(self)@.interrupt_flag
                },
                ..old(self)@
            }),
    {
        let flags = self.interrupt_flag;
        self.interrupt_flag = Interrupts {
            vblank: flags.vblank || vblank,
            lcd_stat: flags.lcd_stat || lcd_stat,
            timer: flags.timer || timer,
            ..flags
        };
    }

    fn step_gpu(&mut self, cycles: u32) -> (req: GPUInterrupts)
        requires
            old(self).wf(),
        ensures
            final(self).wf(),
            req == old(self)@.gpu_requests(cycles as int),
            final(self)@ == (BusView {
                gpu: if old(self)@.gpu.lcdc.lcd_enable {
                    old(self)@.gpu.after(cycles as int)
                } else {
                    old(self)@.gpu
                },
                ..old(self)@
            }),
    {
        self.gpu.step(cycles)
    }

    fn step_clock(&mut self, cycles: u32) -> (overflow: bool)
        requires
            old(self).wf(),
        ensures
            final(self).wf(),
            overflow == old(self)@.clock.overflows(cycles as int),
            final(self)@ == (BusView { clock: old(self)@.clock.after(cycles as int), ..old(self)@ }),
    {
        self.clock.inc(cycles)
    }

    /// Lets the pixel processor and the timer run for `cycles` cycles and
    /// adds what they request to the interrupt flags.
    pub fn tick(&mut self, cycles: u32)
        requires
            old(self).wf(),
        ensures
            final(self).wf(),
            final(self)@ == old(self)@.after(cycles as int),
    {
        proof {
            reveal(BusView::read);
            reveal(BusView::write);
            reveal(BusView::after);
        }
        let req = self.step_gpu(cycles);
        let overflow = self.step_clock(cycles);
        let (vblank, lcd_stat) = match req {
            GPUInterrupts::Nothing => (false, false),
            GPUInterrupts::VBlank => (true, false),
            GPUInterrupts::LCDStat => (false, true),
            GPUInterrupts::Both => (true, true),
        };
        self.raise(vblank, lcd_stat, overflow);
    }

    /// Reports that `button` went down. A key that was up before requests
    /// the joypad interrupt.
    pub fn key_down(&mut self, button: Button)
        requires
            old(self).wf(),
        ensures
            final(self).wf(),
            final(self)@ == old(self)@.pressed(button),
    {
        let was_down = self.joypad.held(button);
        let mut joypad = self.joypad;
        joypad.key_down(button);
        let flags = self.interrupt_flag;
        self.joypad = joypad;
        self.interrupt_flag = Interrupts { joypad: flags.joypad || !was_down, ..flags };
    }

    /// Reports that `button` came up.
    pub fn key_up(&mut self, button: Button)
        requires
            old(self).wf(),
        ensures
            final(self).wf(),
            final(self)@ == old(self)@.released(button),
    {
        let mut joypad = self.joypad;
        joypad.key_up(button);
        self.joypad = joypad;
    }

    /// Takes the interrupt `which` out of the flag register.
    pub fn acknowledge(&mut self, which: InterruptKind)
        requires
            old(self).wf(),
        ensures
            final(self).wf(),
            final(self)@ == (BusView {
                interrupt_flag: old(self)@.interrupt_flag.without(which),
                ..old(self)@
            }),
    {
        let f = self.interrupt_flag;
        self.interrupt_flag = match which {
            InterruptKind::VBlank => Interrupts { vblank: false, ..f },
            InterruptKind::LCDStat => Interrupts { lcd_stat: false, ..f },
            InterruptKind::Timer => Interrupts { timer: false, ..f },
            InterruptKind::Serial => Interrupts { serial: false, ..f },
            InterruptKind::Joypad => Interrupts { joypad: false, ..f },
        };
    }
}

/// The five interrupt sources, highest priority first.
#[derive(Debug, Clone, Copy, PartialEq, Eq, Structural)]
pub enum InterruptKind {
    VBlank,
    LCDStat,
    Timer,
    Serial,
    Joypad,
}

impl InterruptKind {
    /// The address at which the handler of the interrupt begins.
    pub open spec fn spec_vector(self) -> u16 {
        match self {
            InterruptKind::VBlank => 0x40,
            InterruptKind::LCDStat => 0x48,
            InterruptKind::Timer => 0x50,
            InterruptKind::Serial => 0x58,
            InterruptKind::Joypad => 0x60,
        }
    }

    /// The address at which the handler of the interrupt begins.
    #[verifier::when_used_as_spec(spec_vector)]
    pub fn vector(self) -> (v: u16)
        ensures
            v == self.spec_vector(),
    {
        match self {
            InterruptKind::VBlank => 0x40,
            InterruptKind::LCDStat => 0x48,
            InterruptKind::Timer => 0x50,
            InterruptKind::Serial => 0x58,
            InterruptKind::Joypad => 0x60,
        }
    }
}

impl Interrupts {
    /// Whether the set holds `which`.
    pub open spec fn has(self, which: InterruptKind) -> bool {
        match which {
            InterruptKind::VBlank => self.vblank,
            InterruptKind::LCDStat => self.lcd_stat,
            InterruptKind::Timer => self.timer,
            InterruptKind::Serial => self.serial,
            InterruptKind::Joypad => self.joypad,
        }
    }

    /// The set without `which`.
    pub open spec fn without(self, which: InterruptKind) -> Interrupts {
        match which {
            InterruptKind::VBlank => Interrupts { vblank: false, ..self },
            InterruptKind::LCDStat => Interrupts { lcd_stat: false, ..self },
            InterruptKind::Timer => Interrupts { timer: false, ..self },
            InterruptKind::Serial => Interrupts { serial: false, ..self },
            InterruptKind::Joypad => Interrupts { joypad: false, ..self },
        }
    }

    /// The interrupt of the set that is served first: the one with the
    /// lowest bit number.
    pub open spec fn spec_first(self) -> Option<InterruptKind> {
        if self.vblank {
            Some(InterruptKind::VBlank)
        } else if self.lcd_stat {
            Some(InterruptKind::LCDStat)
        } else if self.timer {
            Some(InterruptKind::Timer)
        } else if self.serial {
            Some(InterruptKind::Serial)
        } else if self.joypad {
            Some(InterruptKind::Joypad)
        } else {
            None
        }
    }

    /// The interrupt of the set that is served first.
    #[verifier::when_used_as_spec(spec_first)]
    pub fn first(self) -> (k: Option<InterruptKind>)
        ensures
            k == self.spec_first(),
    {
        if self.vblank {
            Some(InterruptKind::VBlank)
        } else if self.lcd_stat {
            Some(InterruptKind::LCDStat)
        } else if self.timer {
            Some(InterruptKind::Timer)
        } else if self.serial {
            Some(InterruptKind::Serial)
        } else if self.joypad {
            Some(InterruptKind::Joypad)
        } else {
            None
        }
    }

    /// The interrupts of this set that are also in `other`.
    pub fn and(self, other: Interrupts) -> (r: Interrupts)
        ensures
            r == self.both(other),
    {
        Interrupts {
            vblank: self.vblank && other.vblank,
            lcd_stat: self.lcd_stat && other.lcd_stat,
            timer: self.timer && other.timer,
            serial: self.serial && other.serial,
            joypad: self.joypad && other.joypad,
        }
    }
}

} // verus!
