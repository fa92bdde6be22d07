//! A byte-oriented serial port. Received bytes queue up for the guest to read;
//! bytes the guest transmits queue up for the host to collect.
use vstd::prelude::*;
use std::collections::VecDeque;
use crate::cpu::Address;
use crate::interrupt::InterruptController;
use crate::platform::uart_registers::{CONTROL, DATA, STATUS};
use super::device::Device;

verus! {

/// The UART as a value: bytes received and not yet read, bytes transmitted and
/// not yet collected by the host.
pub struct UartState {
    pub rx: Seq<u8>,
    pub tx: Seq<u8>,
}

/// The UART decodes the DATA, STATUS and CONTROL registers only.
pub open spec fn uart_accepts(offset: u32) -> bool {
    offset == DATA || offset == STATUS || offset == CONTROL
}

/// Reading DATA takes the oldest received byte (0 when there is none); STATUS
/// is 1 while a byte is waiting; CONTROL reads 0.
pub open spec fn uart_read8(s: UartState, offset: u32) -> (UartState, u8) {
    if offset == DATA {
        if s.rx.len() == 0 {
            (s, 0)
        } else {
            (UartState { rx: s.rx.drop_first(), tx: s.tx }, s.rx[0])
        }
    } else if offset == STATUS {
        (s, if s.rx.len() == 0 { 0u8 } else { 1u8 })
    } else {
        (s, 0)
    }
}

/// Writing DATA transmits the byte; STATUS and CONTROL ignore writes.
pub open spec fn uart_write8(s: UartState, offset: u32, value: u8) -> UartState {
    if offset == DATA {
        UartState { rx: s.rx, tx: s.tx.push(value) }
    } else {
        s
    }
}

/// Received bytes come out first in, first out: a byte received into an
/// empty queue is the next DATA read and leaves the queue empty; received
/// behind others it waits at the end while DATA gives the oldest. STATUS
/// reads 1 once a byte is waiting; DATA reads 0 from an empty queue without
/// change. A byte written to DATA is transmitted after those already sent,
/// and the receive queue is untouched.
pub proof fn lemma_uart_fifo(s: UartState, b: u8)
    ensures
        ({
            let s1 = UartState { rx: s.rx.push(b), tx: s.tx };
            let (s2, got) = uart_read8(s1, DATA);
            &&& uart_read8(s1, STATUS).1 == 1
            &&& s.rx.len() == 0 ==> got == b && s2.rx.len() == 0
            &&& s.rx.len() > 0 ==> got == s.rx[0] && s2.rx.len() == s.rx.len() && s2.rx.last() == b
            &&& s2.tx == s.tx
        }),
        s.rx.len() == 0 ==> uart_read8(s, DATA) == (s, 0u8) && uart_read8(s, STATUS).1 == 0,
        uart_write8(s, DATA, b).tx.len() == s.tx.len() + 1,
        uart_write8(s, DATA, b).tx.last() == b,
        uart_write8(s, DATA, b).tx.drop_last() == s.tx,
        uart_write8(s, DATA, b).rx == s.rx,
{
    assert(s.tx.push(b).drop_last() =~= s.tx);
}

pub struct UART {
    rx: VecDeque<u8>,
    tx: Vec<u8>,
}

impl View for UART {
    type V = UartState;

    closed spec fn view(&self) -> UartState {
        UartState { rx: self.rx@, tx: self.tx@ }
    }
}

impl UART {
    /// Nothing received, nothing transmitted.
    pub fn new() -> (r: Self)
        ensures
            r@.rx == Seq::<u8>::empty(),
            r@.tx == Seq::<u8>::empty(),
    {
        Self { rx: VecDeque::new(), tx: Vec::new() }
    }

    /// The host delivers a byte to the guest.
    pub fn receive_byte(&mut self, byte: u8)
        ensures
            final(self)@.rx == old(self)@.rx.push(byte),
            final(self)@.tx == old(self)@.tx,
    {
        self.rx.push_back(byte);
    }

    /// The host collects what the guest transmitted since the last call.
    pub fn take_output(&mut self) -> (r: Vec<u8>)
        ensures
            r@ == old(self)@.tx,
            final(self)@.tx == Seq::<u8>::empty(),
            final(self)@.rx == old(self)@.rx,
    {
        let mut out = Vec::new();
        std::mem::swap(&mut out, &mut self.tx);
        out
    }
}

impl Device for UART {
    open spec fn accepts(&self, offset: u32) -> bool {
        uart_accepts(offset)
    }

    fn read8(&mut self, addr: Address) -> (r: u8)
        ensures
            (final(self)@, r) == uart_read8(old(self)@, addr.0),
    {
        if addr.0 == DATA {
            match self.rx.pop_front() {
                Some(b) => b,
                None => 0,
            }
        } else if addr.0 == STATUS {
            if self.rx.len() == 0 {
                0
            } else {
                1
            }
        } else {
            0
        }
    }

    fn write8(&mut self, addr: Address, value: u8)
        ensures
            final(self)@ == uart_write8(old(self)@, addr.0, value),
    {
        if addr.0 == DATA {
            self.tx.push(value);
        }
    }

    /// The UART has no time-driven behaviour.
    fn tick(&mut self, int_controller: &mut InterruptController)
        ensures
            final(self)@ == old(self)@,
            final(int_controller)@ == old(int_controller)@,
    {
    }
}

} // verus!
