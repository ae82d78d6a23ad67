//! The divider and the programmable counter: `DIV`, `TIMA`, `TMA`, `TAC`.

use vstd::prelude::*;

verus! {

pub const DIV_ADDRESS: u16 = 0xFF04;

pub const TIMA_ADDRESS: u16 = 0xFF05;

pub const TMA_ADDRESS: u16 = 0xFF06;

pub const TAC_ADDRESS: u16 = 0xFF07;

/// Machine cycles between two increments of `DIV`.
pub const DIV_PERIOD: u32 = 256;

/// The timer: its four registers and the cycles gathered towards the
/// next increment of `DIV` and of `TIMA`.
pub struct Timer {
    divider_register: u8,
    timer_counter: u8,
    timer_modulo: u8,
    timer_control: u8,
    internal_counter: u32,
    divider_counter: u32,
}

/// What a timer holds: the four registers and the cycles gathered towards
/// the next increment of `DIV` and of `TIMA`.
pub struct TimerView {
    pub div: u8,
    pub tima: u8,
    pub tma: u8,
    pub tac: u8,
    pub div_cycles: nat,
    pub tima_cycles: nat,
}

/// Whether `address` is one of the four timer registers.
pub open spec fn is_timer_address(address: u16) -> bool {
    0xFF04 <= address <= 0xFF07
}

/// Whether `TAC` lets `TIMA` count.
pub open spec fn counting(tac: u8) -> bool {
    tac & 0b100 != 0
}

/// Machine cycles between two increments of `TIMA`, as `TAC` selects them.
pub open spec fn period(tac: u8) -> nat {
    let select = tac & 0b11;
    if select == 0b00 {
        256
    } else if select == 0b01 {
        4
    } else if select == 0b10 {
        16
    } else {
        64
    }
}

/// `TIMA` after `count` increments, with whether one of them overflowed.
/// An increment of `0xFF` overflows and reloads the counter from `TMA`.
pub open spec fn count_up(tima: u8, tma: u8, count: nat) -> (u8, bool)
    decreases count,
{
    if count == 0 {
        (tima, false)
    } else if tima == 0xFF {
        (count_up(tma, tma, (count - 1) as nat).0, true)
    } else {
        count_up((tima + 1) as u8, tma, (count - 1) as nat)
    }
}

impl TimerView {
    /// The register at `address`.
    pub open spec fn read(self, address: u16) -> u8 {
        if address == 0xFF04 {
            self.div
        } else if address == 0xFF05 {
            self.tima
        } else if address == 0xFF06 {
            self.tma
        } else {
            self.tac
        }
    }

    /// The timer after `value` is written to the register at `address`.
    /// Whatever is written to `DIV` resets it to zero.
    pub open spec fn write(self, address: u16, value: u8) -> TimerView {
        if address == 0xFF04 {
            TimerView { div: 0, ..self }
        } else if address == 0xFF05 {
            TimerView { tima: value, ..self }
        } else if address == 0xFF06 {
            TimerView { tma: value, ..self }
        } else {
            TimerView { tac: value, ..self }
        }
    }

    /// The increments of `TIMA` that fall due when `elapsed` cycles pass.
    pub open spec fn due(self, elapsed: nat) -> nat {
        (self.tima_cycles + elapsed) / period(self.tac)
    }

    /// Whether `TIMA` overflows while `elapsed` cycles pass.
    pub open spec fn overflows(self, elapsed: nat) -> bool {
        counting(self.tac) && count_up(self.tima, self.tma, self.due(elapsed)).1
    }

    /// The timer after `elapsed` cycles. `DIV` goes up by one every 256
    /// cycles and wraps; `TIMA`, while `TAC` lets it count, goes up by one
    /// every `period(TAC)` cycles.
    pub open spec fn tick(self, elapsed: nat) -> TimerView {
        let div = ((self.div + (self.div_cycles + elapsed) / 256) % 256) as u8;
        let div_cycles = (self.div_cycles + elapsed) % 256;
        if counting(self.tac) {
            TimerView {
                div,
                div_cycles,
                tima: count_up(self.tima, self.tma, self.due(elapsed)).0,
                tima_cycles: (self.tima_cycles + elapsed) % period(self.tac),
                ..self
            }
        } else {
            TimerView { div, div_cycles, ..self }
        }
    }
}

impl View for Timer {
    type V = TimerView;

    closed spec fn view(&self) -> TimerView {
        TimerView {
            div: self.divider_register,
            tima: self.timer_counter,
            tma: self.timer_modulo,
            tac: self.timer_control,
            div_cycles: self.divider_counter as nat,
            tima_cycles: self.internal_counter as nat,
        }
    }
}

/// Counting up without reaching `0xFF + 1` adds the count.
pub proof fn lemma_count_up_short(tima: u8, tma: u8, count: nat)
    requires
        tima + count <= 0xFF,
    ensures
        count_up(tima, tma, count) == ((tima + count) as u8, false),
    decreases count,
{
    if count > 0 {
        lemma_count_up_short((tima + 1) as u8, tma, (count - 1) as nat);
    }
}

/// Counting `first + second` times is counting `first` times and then
/// `second` times.
pub proof fn lemma_count_up_split(tima: u8, tma: u8, first: nat, second: nat)
    ensures
        count_up(tima, tma, first + second).0 == count_up(
            count_up(tima, tma, first).0,
            tma,
            second,
        ).0,
        count_up(tima, tma, first + second).1 == (count_up(tima, tma, first).1 || count_up(
            count_up(tima, tma, first).0,
            tma,
            second,
        ).1),
    decreases first,
{
    if first > 0 {
        if tima == 0xFF {
            lemma_count_up_split(tma, tma, (first - 1) as nat, second);
        } else {
            lemma_count_up_split((tima + 1) as u8, tma, (first - 1) as nat, second);
        }
    }
}

/// Counting up from the reload value goes round every `256 - TMA`
/// increments.
pub proof fn lemma_count_up_reloaded(tma: u8, count: nat)
    ensures
        count_up(tma, tma, count).0 == tma + count % ((256 - tma) as nat),
    decreases count,
{
    let round = (256 - tma) as nat;
    if count < round {
        lemma_count_up_short(tma, tma, count);
        assert(count % round == count) by (nonlinear_arith)
            requires
                count < round,
        ;
    } else {
        let rest = (count - round) as nat;
        lemma_count_up_split(tma, tma, round, rest);
        lemma_count_up_split(tma, tma, (round - 1) as nat, 1);
        lemma_count_up_short(tma, tma, (round - 1) as nat);
        assert(count_up(0xFF, tma, 1) == (tma, true)) by {
            reveal_with_fuel(count_up, 2);
        }
        lemma_count_up_reloaded(tma, rest);
        assert(count % round == rest % round) by (nonlinear_arith)
            requires
                count == rest + round,
                round > 0,
        ;
    }
}

/// The closed form of `count_up`: the counter either stays below the
/// overflow, or it is reloaded and goes round from `TMA`.
pub proof fn lemma_count_up_closed(tima: u8, tma: u8, count: nat)
    ensures
        tima + count <= 0xFF ==> count_up(tima, tma, count) == ((tima + count) as u8, false),
        tima + count > 0xFF ==> count_up(tima, tma, count) == (
            (tma + (tima + count - 256) % (256 - tma)) as u8,
            true,
        ),
{
    if tima + count <= 0xFF {
        lemma_count_up_short(tima, tma, count);
    } else {
        let before = (0xFF - tima) as nat;
        let rest = (count - before - 1) as nat;
        lemma_count_up_short(tima, tma, before);
        lemma_count_up_split(tima, tma, before, 1);
        assert(count_up(0xFF, tma, 1) == (tma, true)) by {
            reveal_with_fuel(count_up, 2);
        }
        lemma_count_up_split(tima, tma, before + 1, rest);
        lemma_count_up_reloaded(tma, rest);
        assert(rest % ((256 - tma) as nat) < 256 - tma) by (nonlinear_arith)
            requires
                256 - tma > 0,
        ;
    }
}

impl Timer {
    pub fn new() -> (timer: Timer)
        ensures
            timer@ == (TimerView { div: 0, tima: 0, tma: 0, tac: 0, div_cycles: 0, tima_cycles: 0 }),
    {
        Timer {
            divider_register: 0,
            timer_counter: 0,
            timer_modulo: 0,
            timer_control: 0,
            internal_counter: 0,
            divider_counter: 0,
        }
    }

    /// The timer register at `address`.
    pub fn read_byte(&self, address: u16) -> (value: u8)
        requires
            is_timer_address(address),
        ensures
            value == self@.read(address),
    {
        if address == DIV_ADDRESS {
            self.divider_register
        } else if address == TIMA_ADDRESS {
            self.timer_counter
        } else if address == TMA_ADDRESS {
            self.timer_modulo
        } else {
            self.timer_control
        }
    }

    /// Writes `value` to the timer register at `address`; a write to
    /// `DIV` resets it.
    pub fn write_byte(&mut self, address: u16, value: u8)
        requires
            is_timer_address(address),
        ensures
            final(self)@ == old(self)@.write(address, value),
    {
        if address == DIV_ADDRESS {
            self.divider_register = 0;
        } else if address == TIMA_ADDRESS {
            self.timer_counter = value;
        } else if address == TMA_ADDRESS {
            self.timer_modulo = value;
        } else {
            self.timer_control = value;
        }
    }

    /// Lets `elapsed` machine cycles pass. Returns whether `TIMA`
    /// overflowed, which is when the timer interrupt is due.
    pub fn tick(&mut self, elapsed: u32) -> (overflow: bool)
        ensures
            final(self)@ == old(self)@.tick(elapsed as nat),
            overflow == old(self)@.overflows(elapsed as nat),
    {
        let total: u64 = self.divider_counter as u64 + elapsed as u64;
        let steps: u64 = total / (DIV_PERIOD as u64);
        self.divider_register = ((self.divider_register as u64 + steps) % 256) as u8;
        self.divider_counter = (total % (DIV_PERIOD as u64)) as u32;

        if self.is_enabled() {
            let speed: u64 = self.get_speed() as u64;
            let gathered: u64 = self.internal_counter as u64 + elapsed as u64;
            let due: u64 = gathered / speed;
            self.internal_counter = (gathered % speed) as u32;
            proof {
                lemma_count_up_closed(self.timer_counter, self.timer_modulo, due as nat);
            }
            if self.timer_counter as u64 + due <= 0xFF {
                self.timer_counter = (self.timer_counter as u64 + due) as u8;
                false
            } else {
                let round: u64 = 256 - self.timer_modulo as u64;
                let past: u64 = self.timer_counter as u64 + due - 256;
                self.timer_counter = (self.timer_modulo as u64 + past % round) as u8;
                true
            }
        } else {
            false
        }
    }

    fn is_enabled(&self) -> (enabled: bool)
        ensures
            enabled == counting(self@.tac),
    {
        self.timer_control & 0b100 != 0
    }

    fn get_speed(&self) -> (speed: u32)
        ensures
            speed == period(self@.tac),
            speed == 256 || speed == 4 || speed == 16 || speed == 64,
    {
        let select: u8 = self.timer_control & 0b11;
        if select == 0b00 {
            256
        } else if select == 0b01 {
            4
        } else if select == 0b10 {
            16
        } else {
            64
        }
    }
}

} // verus!
