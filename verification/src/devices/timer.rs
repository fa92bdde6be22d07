//! A free-running 32-bit timer with a compare register that raises the timer
//! interrupt.
use vstd::prelude::*;
use crate::bits::{byte_at, with_byte_at};
use crate::cpu::{Address, INTERRUPT};
use crate::cpu::types::wrap_add;
use crate::interrupt::{InterruptController, raise};
use crate::platform::timer_registers::{COMPARE, COUNTER, STATUS};
use super::device::Device;

verus! {

/// The timer as a value.
pub struct TimerState {
    pub counter: u32,
    pub compare: u32,
    pub pending: bool,
}

/// The timer decodes the counter bytes, the compare bytes and STATUS.
pub open spec fn timer_accepts(offset: u32) -> bool {
    offset <= STATUS
}

/// Counter and compare read little-endian byte by byte; STATUS reads 1 while
/// an interrupt is pending.
pub open spec fn timer_read8(s: TimerState, offset: u32) -> u8 {
    if offset < COUNTER + 4 {
        byte_at(s.counter, ((offset - COUNTER) * 8) as u32)
    } else if offset < COMPARE + 4 {
        byte_at(s.compare, ((offset - COMPARE) * 8) as u32)
    } else if s.pending {
        1
    } else {
        0
    }
}

/// Writes replace one byte of counter or compare; any write to STATUS
/// acknowledges the pending interrupt.
pub open spec fn timer_write8(s: TimerState, offset: u32, value: u8) -> TimerState {
    if offset < COUNTER + 4 {
        TimerState {
            counter: with_byte_at(s.counter, ((offset - COUNTER) * 8) as u32, value),
            ..s
        }
    } else if offset < COMPARE + 4 {
        TimerState {
            compare: with_byte_at(s.compare, ((offset - COMPARE) * 8) as u32, value),
            ..s
        }
    } else {
        TimerState { pending: false, ..s }
    }
}

/// One cycle: the counter advances (wrapping); reaching the compare value
/// with no interrupt pending sets the pending flag and raises the timer
/// interrupt.
pub open spec fn timer_tick(s: TimerState, pending: Seq<INTERRUPT>) -> (TimerState, Seq<INTERRUPT>) {
    let c = wrap_add(s.counter, 1);
    if c >= s.compare && !s.pending {
        (TimerState { counter: c, compare: s.compare, pending: true }, raise(pending, INTERRUPT::TIMER))
    } else {
        (TimerState { counter: c, ..s }, pending)
    }
}

/// A byte written to the counter or compare register reads back, the other
/// register bytes keep their values, and writing STATUS acknowledges the
/// pending interrupt.
pub proof fn lemma_timer_write_read(s: TimerState, offset: u32, other: u32, value: u8)
    requires
        offset <= STATUS,
        other < COMPARE + 4,
        other != offset,
    ensures
        offset < COMPARE + 4 ==> timer_read8(timer_write8(s, offset, value), offset) == value,
        timer_read8(timer_write8(s, offset, value), other) == timer_read8(s, other),
        offset == STATUS ==> timer_read8(timer_write8(s, offset, value), STATUS) == 0,
{
    if offset < 4 {
        let sh = (offset * 8) as u32;
        crate::bits::lemma_byte_update(s.counter, sh, ((offset + 1) % 4 * 8) as u32, value);
        if other < 4 {
            crate::bits::lemma_byte_update(s.counter, sh, (other * 8) as u32, value);
        }
    } else if offset < 8 {
        let sh = ((offset - 4) * 8) as u32;
        crate::bits::lemma_byte_update(s.compare, sh, ((offset - 3) % 4 * 8) as u32, value);
        if other >= 4 {
            crate::bits::lemma_byte_update(s.compare, sh, ((other - 4) * 8) as u32, value);
        }
    }
}

/// A clock cycle advances the counter by one modulo 2^32 and keeps the
/// compare value. With no interrupt pending, the timer fires exactly when the
/// new counter is at or past the compare value: it becomes pending, STATUS
/// reads 1, and TIMER is pending in the controller (added at the end unless
/// it already was); otherwise nothing is raised. While an interrupt is
/// pending, no new one is raised.
pub proof fn lemma_timer_tick_fires(s: TimerState, pending: Seq<INTERRUPT>)
    ensures
        ({
            let (t, q) = timer_tick(s, pending);
            &&& t.counter as int == (s.counter as int + 1) % 0x1_0000_0000
            &&& t.compare == s.compare
            &&& !s.pending && t.counter >= s.compare ==> {
                &&& t.pending
                &&& timer_read8(t, STATUS) == 1
                &&& q.contains(INTERRUPT::TIMER)
                &&& q == (if pending.contains(INTERRUPT::TIMER) {
                    pending
                } else {
                    pending.push(INTERRUPT::TIMER)
                })
            }
            &&& !s.pending && t.counter < s.compare ==> !t.pending && timer_read8(t, STATUS) == 0
                && q == pending
            &&& s.pending ==> t.pending && q == pending
        }),
{
    crate::interrupt::lemma_raise(pending, INTERRUPT::TIMER);
    if s.counter as int + 1 < 0x1_0000_0000 {
        vstd::arithmetic::div_mod::lemma_small_mod((s.counter + 1) as nat, 0x1_0000_0000);
    } else {
        assert((s.counter as int + 1) % 0x1_0000_0000 == 0);
    }
}

pub struct Timer {
    counter: u32,
    compare: u32,
    interrupt_pending: bool,
}

impl View for Timer {
    type V = TimerState;

    closed spec fn view(&self) -> TimerState {
        TimerState { counter: self.counter, compare: self.compare, pending: self.interrupt_pending }
    }
}

impl Timer {
    /// Counter and compare zero, nothing pending.
    pub fn new() -> (r: Self)
        ensures
            r@ == (TimerState { counter: 0, compare: 0, pending: false }),
    {
        Self { counter: 0, compare: 0, interrupt_pending: false }
    }
}

impl Device for Timer {
    open spec fn accepts(&self, offset: u32) -> bool {
        timer_accepts(offset)
    }

    fn read8(&mut self, offset: Address) -> (r: u8)
        ensures
            r == timer_read8(old(self)@, offset.0),
            final(self)@ == old(self)@,
    {
        let addr = offset.0;
        if addr < COUNTER + 4 {
            let shift = (addr - COUNTER) * 8;
            ((self.counter >> shift) & 0xFF) as u8
        } else if addr < COMPARE + 4 {
            let shift = (addr - COMPARE) * 8;
            ((self.compare >> shift) & 0xFF) as u8
        } else if self.interrupt_pending {
            1
        } else {
            0
        }
    }

    fn write8(&mut self, offset: Address, value: u8)
        ensures
            final(self)@ == timer_write8(old(self)@, offset.0, value),
    {
        let addr = offset.0;
        if addr < COUNTER + 4 {
            let shift = (addr - COUNTER) * 8;
            let mask = !(0xFFu32 << shift);
            self.counter = (self.counter & mask) | ((value as u32) << shift);
        } else if addr < COMPARE + 4 {
            let shift = (addr - COMPARE) * 8;
            let mask = !(0xFFu32 << shift);
            self.compare = (self.compare & mask) | ((value as u32) << shift);
        } else {
            self.interrupt_pending = false;
        }
    }

    fn tick(&mut self, int_controller: &mut InterruptController)
        ensures
            (final(self)@, final(int_controller)@) == timer_tick(old(self)@, old(int_controller)@),
    {
        self.counter = self.counter.wrapping_add(1);
        if self.counter >= self.compare && !self.interrupt_pending {
            self.interrupt_pending = true;
            int_controller.add_interrupt(INTERRUPT::TIMER);
        }
    }
}

} // verus!
