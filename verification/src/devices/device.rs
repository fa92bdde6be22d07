//! The device interface, and the closed set of devices the bus can hold.
use vstd::prelude::*;
use crate::cpu::{Address, INTERRUPT};
use crate::interrupt::InterruptController;
use crate::platform::timer_registers::STATUS as TIMER_STATUS;
use crate::platform::uart_registers::{
    CONTROL as UART_CONTROL, DATA as UART_DATA, STATUS as UART_STATUS,
};
use super::keyboard::{
    CONTROL as KBD_CONTROL, DATA as KBD_DATA, STATUS as KBD_STATUS,
    Keyboard, KeyboardState, keyboard_accepts, keyboard_read8, keyboard_tick, keyboard_write8,
};
use super::memory::{MEMORY_SIZE, Memory};
use super::screen::{
    Screen, ScreenState, screen_accepts, screen_read8, screen_tick, screen_write8,
};
use super::timer::{Timer, TimerState, timer_accepts, timer_read8, timer_tick, timer_write8};
use super::uart::{UART, UartState, uart_accepts, uart_read8, uart_write8};

verus! {

/// A memory-mapped device, addressed by byte offsets from its base.
pub trait Device {
    /// Whether the device decodes `offset`; an access elsewhere is an error.
    spec fn accepts(&self, offset: u32) -> bool;

    fn read8(&mut self, addr: Address) -> u8
        requires
            old(self).accepts(addr.0),
    ;

    fn write8(&mut self, addr: Address, data: u8)
        requires
            old(self).accepts(addr.0),
    ;

    /// One clock cycle of time-driven behaviour, which may raise interrupts.
    fn tick(&mut self, int_controller: &mut InterruptController);
}

/// A device as a value.
pub enum DeviceState {
    Memory(Seq<u8>),
    Uart(UartState),
    Timer(TimerState),
    Screen(ScreenState),
    Keyboard(KeyboardState),
}

impl DeviceState {
    /// Buffers have their fixed sizes.
    pub open spec fn wf(self) -> bool {
        match self {
            DeviceState::Memory(d) => d.len() == MEMORY_SIZE,
            DeviceState::Screen(s) => s.wf(),
            _ => true,
        }
    }

    pub open spec fn accepts(self, offset: u32) -> bool {
        match self {
            DeviceState::Memory(d) => (offset as int) < d.len(),
            DeviceState::Uart(_) => uart_accepts(offset),
            DeviceState::Timer(_) => timer_accepts(offset),
            DeviceState::Screen(s) => screen_accepts(s, offset),
            DeviceState::Keyboard(_) => keyboard_accepts(offset),
        }
    }

    /// Two device states of the same kind decode the same offsets.
    pub open spec fn same_kind(self, other: DeviceState) -> bool {
        match (self, other) {
            (DeviceState::Memory(a), DeviceState::Memory(b)) => a.len() == b.len(),
            (DeviceState::Uart(_), DeviceState::Uart(_)) => true,
            (DeviceState::Timer(_), DeviceState::Timer(_)) => true,
            (DeviceState::Screen(a), DeviceState::Screen(b)) => a.back.len() == b.back.len()
                && a.wf() == b.wf(),
            (DeviceState::Keyboard(_), DeviceState::Keyboard(_)) => true,
            _ => false,
        }
    }

    /// Reads, writes and clock cycles leave the kind of a device (and so the
    /// offsets it decodes and its well-formedness) unchanged.
    pub proof fn lemma_ops_keep_kind(self, offset: u32, value: u8, pending: Seq<INTERRUPT>)
        ensures
            self.read8(offset).0.same_kind(self),
            self.wf() ==> self.read8(offset).0.wf(),
            self.accepts(offset) ==> self.write8(offset, value).same_kind(self),
            self.accepts(offset) && self.wf() ==> self.write8(offset, value).wf(),
            self.wf() ==> self.tick(pending).0.same_kind(self),
            self.wf() ==> self.tick(pending).0.wf(),
    {
    }

    /// Devices of the same kind decode the same offsets.
    pub proof fn lemma_same_kind_accepts(self, other: DeviceState, offset: u32)
        requires
            self.same_kind(other),
        ensures
            self.accepts(offset) == other.accepts(offset),
            self.wf() == other.wf(),
            other.same_kind(self),
    {
    }

    /// Being of the same kind is transitive.
    pub proof fn lemma_same_kind_trans(self, b: DeviceState, c: DeviceState)
        requires
            self.same_kind(b),
            b.same_kind(c),
        ensures
            self.same_kind(c),
    {
    }

    /// The device after a byte read at `offset`, and the byte read.
    pub open spec fn read8(self, offset: u32) -> (DeviceState, u8) {
        match self {
            DeviceState::Memory(d) => (self, d[offset as int]),
            DeviceState::Uart(s) => {
                let (s2, b) = uart_read8(s, offset);
                (DeviceState::Uart(s2), b)
            },
            DeviceState::Timer(s) => (self, timer_read8(s, offset)),
            DeviceState::Screen(s) => (self, screen_read8(s, offset)),
            DeviceState::Keyboard(s) => {
                let (s2, b) = keyboard_read8(s, offset);
                (DeviceState::Keyboard(s2), b)
            },
        }
    }

    /// The device after a byte write at `offset`.
    pub open spec fn write8(self, offset: u32, value: u8) -> DeviceState {
        match self {
            DeviceState::Memory(d) => DeviceState::Memory(d.update(offset as int, value)),
            DeviceState::Uart(s) => DeviceState::Uart(uart_write8(s, offset, value)),
            DeviceState::Timer(s) => DeviceState::Timer(timer_write8(s, offset, value)),
            DeviceState::Screen(s) => DeviceState::Screen(screen_write8(s, offset, value)),
            DeviceState::Keyboard(s) => DeviceState::Keyboard(keyboard_write8(s, offset, value)),
        }
    }

    /// The device and the pending interrupts after one clock cycle.
    pub open spec fn tick(self, pending: Seq<INTERRUPT>) -> (DeviceState, Seq<INTERRUPT>) {
        match self {
            DeviceState::Timer(s) => {
                let (s2, p2) = timer_tick(s, pending);
                (DeviceState::Timer(s2), p2)
            },
            DeviceState::Screen(s) => (DeviceState::Screen(screen_tick(s)), pending),
            DeviceState::Keyboard(s) => (self, keyboard_tick(s, pending)),
            _ => (self, pending),
        }
    }
}

/// One of the devices the platform provides.
pub enum MmioDevice {
    Memory(Memory),
    Uart(UART),
    Timer(Timer),
    Screen(Screen),
    Keyboard(Keyboard),
}

impl View for MmioDevice {
    type V = DeviceState;

    open spec fn view(&self) -> DeviceState {
        match self {
            MmioDevice::Memory(m) => DeviceState::Memory(m@),
            MmioDevice::Uart(u) => DeviceState::Uart(u@),
            MmioDevice::Timer(t) => DeviceState::Timer(t@),
            MmioDevice::Screen(s) => DeviceState::Screen(s@),
            MmioDevice::Keyboard(k) => DeviceState::Keyboard(k@),
        }
    }
}

impl MmioDevice {
    /// Whether the device decodes `offset`.
    pub fn accepts_offset(&self, offset: u32) -> (r: bool)
        ensures
            r == self@.accepts(offset),
    {
        match self {
            MmioDevice::Memory(m) => (offset as usize) < m.len(),
            MmioDevice::Uart(_) => offset == UART_DATA || offset == UART_STATUS || offset
                == UART_CONTROL,
            MmioDevice::Timer(_) => offset <= TIMER_STATUS,
            MmioDevice::Screen(s) => s.accepts_offset(offset),
            MmioDevice::Keyboard(_) => offset == KBD_DATA || offset == KBD_STATUS || offset
                == KBD_CONTROL,
        }
    }
}

impl Device for MmioDevice {
    open spec fn accepts(&self, offset: u32) -> bool {
        self@.accepts(offset)
    }

    fn read8(&mut self, addr: Address) -> (r: u8)
        ensures
            (final(self)@, r) == old(self)@.read8(addr.0),
    {
        match self {
            MmioDevice::Memory(m) => m.read8(addr),
            MmioDevice::Uart(u) => u.read8(addr),
            MmioDevice::Timer(t) => t.read8(addr),
            MmioDevice::Screen(s) => s.read8(addr),
            MmioDevice::Keyboard(k) => k.read8(addr),
        }
    }

    fn write8(&mut self, addr: Address, data: u8)
        ensures
            final(self)@ == old(self)@.write8(addr.0, data),
    {
        match self {
            MmioDevice::Memory(m) => m.write8(addr, data),
            MmioDevice::Uart(u) => u.write8(addr, data),
            MmioDevice::Timer(t) => t.write8(addr, data),
            MmioDevice::Screen(s) => s.write8(addr, data),
            MmioDevice::Keyboard(k) => k.write8(addr, data),
        }
    }

    fn tick(&mut self, int_controller: &mut InterruptController)
        ensures
            (final(self)@, final(int_controller)@) == old(self)@.tick(old(int_controller)@),
    {
        match self {
            MmioDevice::Memory(m) => m.tick(int_controller),
            MmioDevice::Uart(u) => u.tick(int_controller),
            MmioDevice::Timer(t) => t.tick(int_controller),
            MmioDevice::Screen(s) => s.tick(int_controller),
            MmioDevice::Keyboard(k) => k.tick(int_controller),
        }
    }
}

} // verus!
