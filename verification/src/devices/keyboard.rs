//! A keyboard: key codes queue up for the guest, optionally raising the
//! keyboard interrupt while any are waiting.
use vstd::prelude::*;
use std::collections::VecDeque;
use crate::cpu::{Address, INTERRUPT};
use crate::interrupt::{InterruptController, raise};
use super::device::Device;

verus! {

/// Reading takes the oldest key code (0 when none).
pub const DATA: u32 = 0x00;
/// 1 while a key code is waiting, else 0.
pub const STATUS: u32 = 0x04;
/// Nonzero enables the keyboard interrupt.
pub const CONTROL: u32 = 0x08;

/// The keyboard as a value.
pub struct KeyboardState {
    pub queue: Seq<u8>,
    pub interrupt_enabled: bool,
}

pub open spec fn keyboard_accepts(offset: u32) -> bool {
    offset == DATA || offset == STATUS || offset == CONTROL
}

/// DATA takes the oldest key code (0 when none); STATUS is 1 while one is
/// waiting; CONTROL reads the interrupt-enable flag.
pub open spec fn keyboard_read8(s: KeyboardState, offset: u32) -> (KeyboardState, u8) {
    if offset == DATA {
        if s.queue.len() == 0 {
            (s, 0)
        } else {
            (KeyboardState { queue: s.queue.drop_first(), ..s }, s.queue[0])
        }
    } else if offset == STATUS {
        (s, if s.queue.len() == 0 { 0u8 } else { 1u8 })
    } else {
        (s, if s.interrupt_enabled { 1u8 } else { 0u8 })
    }
}

/// Writing CONTROL sets the interrupt-enable flag to `value != 0`; DATA and
/// STATUS ignore writes.
pub open spec fn keyboard_write8(s: KeyboardState, offset: u32, value: u8) -> KeyboardState {
    if offset == CONTROL {
        KeyboardState { interrupt_enabled: value != 0, ..s }
    } else {
        s
    }
}

/// Each cycle the keyboard interrupt is raised while enabled and a key code is
/// waiting.
pub open spec fn keyboard_tick(s: KeyboardState, pending: Seq<INTERRUPT>) -> Seq<INTERRUPT> {
    if s.interrupt_enabled && s.queue.len() > 0 {
        raise(pending, INTERRUPT::KEYBOARD)
    } else {
        pending
    }
}

/// Key codes come out first in, first out: a key pushed onto an empty queue
/// is the next DATA read and leaves the queue empty again; pushed behind
/// others, it waits at the end while DATA gives the oldest. STATUS reads 1
/// once a key is waiting, and DATA reads 0 from an empty queue without change.
/// A CONTROL write reads back as 1 or 0, and while it is enabled and a key
/// waits, a clock cycle raises the keyboard interrupt.
pub proof fn lemma_keyboard_fifo(s: KeyboardState, k: u8, v: u8, pending: Seq<INTERRUPT>)
    ensures
        ({
            let s1 = KeyboardState { queue: s.queue.push(k), ..s };
            let (s2, got) = keyboard_read8(s1, DATA);
            &&& keyboard_read8(s1, STATUS).1 == 1
            &&& s.queue.len() == 0 ==> got == k && s2.queue.len() == 0
            &&& s.queue.len() > 0 ==> got == s.queue[0] && s2.queue.len() == s.queue.len()
                && s2.queue.last() == k
            &&& keyboard_tick(KeyboardState { interrupt_enabled: true, ..s1 }, pending).contains(
                INTERRUPT::KEYBOARD,
            )
        }),
        s.queue.len() == 0 ==> keyboard_read8(s, DATA) == (s, 0u8) && keyboard_read8(s, STATUS).1
            == 0,
        keyboard_read8(keyboard_write8(s, CONTROL, v), CONTROL).1 == (if v != 0 { 1u8 } else { 0u8 }),
        !s.interrupt_enabled ==> keyboard_tick(s, pending) == pending,
{
    crate::interrupt::lemma_raise(pending, INTERRUPT::KEYBOARD);
}

pub struct Keyboard {
    queue: VecDeque<u8>,
    interrupt_enabled: bool,
}

impl View for Keyboard {
    type V = KeyboardState;

    closed spec fn view(&self) -> KeyboardState {
        KeyboardState { queue: self.queue@, interrupt_enabled: self.interrupt_enabled }
    }
}

impl Keyboard {
    /// No key codes, interrupt disabled.
    pub fn new() -> (r: Self)
        ensures
            r@.queue == Seq::<u8>::empty(),
            !r@.interrupt_enabled,
    {
        Self { queue: VecDeque::new(), interrupt_enabled: false }
    }

    /// The host delivers a key code.
    pub fn push_key(&mut self, key: u8)
        ensures
            final(self)@.queue == old(self)@.queue.push(key),
            final(self)@.interrupt_enabled == old(self)@.interrupt_enabled,
    {
        self.queue.push_back(key);
    }
}

impl Device for Keyboard {
    open spec fn accepts(&self, offset: u32) -> bool {
        keyboard_accepts(offset)
    }

    fn read8(&mut self, offset: Address) -> (r: u8)
        ensures
            (final(self)@, r) == keyboard_read8(old(self)@, offset.0),
    {
        if offset.0 == DATA {
            match self.queue.pop_front() {
                Some(b) => b,
                None => 0,
            }
        } else if offset.0 == STATUS {
            if self.queue.len() == 0 {
                0
            } else {
                1
            }
        } else {
            if self.interrupt_enabled {
                1
            } else {
                0
            }
        }
    }

    fn write8(&mut self, offset: Address, value: u8)
        ensures
            final(self)@ == keyboard_write8(old(self)@, offset.0, value),
    {
        if offset.0 == CONTROL {
            self.interrupt_enabled = value != 0;
        }
    }

    fn tick(&mut self, int_controller: &mut InterruptController)
        ensures
            final(self)@ == old(self)@,
            final(int_controller)@ == keyboard_tick(old(self)@, old(int_controller)@),
    {
        if self.interrupt_enabled && self.queue.len() > 0 {
            int_controller.add_interrupt(INTERRUPT::KEYBOARD);
        }
    }
}

/// Host keys that the keyboard device can deliver, as the host's windowing
/// layer reports them.
#[derive(Debug, Clone, Copy, PartialEq, Eq, Structural)]
pub enum HostKey {
    A, B, C, D, E, F, G, H, I, J, K, L, M, N, O, P, Q, R, S, T, U, V, W, X, Y, Z,
    Key0, Key1, Key2, Key3, Key4, Key5, Key6, Key7, Key8, Key9,
    Space,
    Enter,
    Backspace,
    Tab,
    /// Any key without a character.
    Other,
}

/// The character a host key produces: capital letters, digits, space,
/// newline, backspace (8) and tab; none for other keys.
pub open spec fn key_char(key: HostKey) -> Option<u8> {
    match key {
        HostKey::A => Some(65u8),
        HostKey::B => Some(66u8),
        HostKey::C => Some(67u8),
        HostKey::D => Some(68u8),
        HostKey::E => Some(69u8),
        HostKey::F => Some(70u8),
        HostKey::G => Some(71u8),
        HostKey::H => Some(72u8),
        HostKey::I => Some(73u8),
        HostKey::J => Some(74u8),
        HostKey::K => Some(75u8),
        HostKey::L => Some(76u8),
        HostKey::M => Some(77u8),
        HostKey::N => Some(78u8),
        HostKey::O => Some(79u8),
        HostKey::P => Some(80u8),
        HostKey::Q => Some(81u8),
        HostKey::R => Some(82u8),
        HostKey::S => Some(83u8),
        HostKey::T => Some(84u8),
        HostKey::U => Some(85u8),
        HostKey::V => Some(86u8),
        HostKey::W => Some(87u8),
        HostKey::X => Some(88u8),
        HostKey::Y => Some(89u8),
        HostKey::Z => Some(90u8),
        HostKey::Key0 => Some(48u8),
        HostKey::Key1 => Some(49u8),
        HostKey::Key2 => Some(50u8),
        HostKey::Key3 => Some(51u8),
        HostKey::Key4 => Some(52u8),
        HostKey::Key5 => Some(53u8),
        HostKey::Key6 => Some(54u8),
        HostKey::Key7 => Some(55u8),
        HostKey::Key8 => Some(56u8),
        HostKey::Key9 => Some(57u8),
        HostKey::Space => Some(32u8),
        HostKey::Enter => Some(10u8),
        HostKey::Backspace => Some(8u8),
        HostKey::Tab => Some(9u8),
        HostKey::Other => None,
    }
}

/// The byte the keyboard device delivers for a host key, if any.
pub fn key_to_ascii(key: HostKey) -> (r: Option<u8>)
    ensures
        r == key_char(key),
{
    match key {
        HostKey::A => Some(65u8),
        HostKey::B => Some(66u8),
        HostKey::C => Some(67u8),
        HostKey::D => Some(68u8),
        HostKey::E => Some(69u8),
        HostKey::F => Some(70u8),
        HostKey::G => Some(71u8),
        HostKey::H => Some(72u8),
        HostKey::I => Some(73u8),
        HostKey::J => Some(74u8),
        HostKey::K => Some(75u8),
        HostKey::L => Some(76u8),
        HostKey::M => Some(77u8),
        HostKey::N => Some(78u8),
        HostKey::O => Some(79u8),
        HostKey::P => Some(80u8),
        HostKey::Q => Some(81u8),
        HostKey::R => Some(82u8),
        HostKey::S => Some(83u8),
        HostKey::T => Some(84u8),
        HostKey::U => Some(85u8),
        HostKey::V => Some(86u8),
        HostKey::W => Some(87u8),
        HostKey::X => Some(88u8),
        HostKey::Y => Some(89u8),
        HostKey::Z => Some(90u8),
        HostKey::Key0 => Some(48u8),
        HostKey::Key1 => Some(49u8),
        HostKey::Key2 => Some(50u8),
        HostKey::Key3 => Some(51u8),
        HostKey::Key4 => Some(52u8),
        HostKey::Key5 => Some(53u8),
        HostKey::Key6 => Some(54u8),
        HostKey::Key7 => Some(55u8),
        HostKey::Key8 => Some(56u8),
        HostKey::Key9 => Some(57u8),
        HostKey::Space => Some(32u8),
        HostKey::Enter => Some(10u8),
        HostKey::Backspace => Some(8u8),
        HostKey::Tab => Some(9u8),
        HostKey::Other => None,
    }
}

} // verus!
