//! A double-buffered 320x240 RGBA framebuffer. The guest draws into the back
//! buffer and requests a swap; at the next frame boundary the back buffer is
//! copied to the front buffer, which the host displays.
use vstd::prelude::*;
use crate::cpu::Address;
use crate::cpu::types::wrap_add;
use crate::interrupt::InterruptController;
use super::device::Device;

verus! {

pub const SCREEN_WIDTH: usize = 320;
pub const SCREEN_HEIGHT: usize = 240;
/// 32-bit RGBA.
pub const BYTES_PER_PIXEL: usize = 4;
pub const FRAMEBUFFER_SIZE: usize = SCREEN_WIDTH * SCREEN_HEIGHT * BYTES_PER_PIXEL;

pub const BUFFER_START: u32 = 0x0;
pub const BUFFER_END: u32 = 307200;
/// Writing 1 requests a swap.
pub const CONTROL_REG: u32 = 307200;
/// Reads 1 while a swap is pending.
pub const STATUS_REG: u32 = 307204;

/// The screen as a value.
pub struct ScreenState {
    pub front: Seq<u8>,
    pub back: Seq<u8>,
    pub swap_requested: bool,
    pub cycles: u32,
    pub ticks_per_frame: u32,
}

impl ScreenState {
    /// Both buffers hold a whole frame.
    pub open spec fn wf(self) -> bool {
        self.front.len() == FRAMEBUFFER_SIZE && self.back.len() == FRAMEBUFFER_SIZE
    }
}

/// The screen serves every offset except a pixel beyond the end of its back
/// buffer.
pub open spec fn screen_accepts(s: ScreenState, offset: u32) -> bool {
    offset >= BUFFER_END || (offset as int) < s.back.len()
}

/// The back buffer reads as pixel bytes, STATUS as the swap-pending flag, and
/// everything else (CONTROL is write-only) as 0.
pub open spec fn screen_read8(s: ScreenState, offset: u32) -> u8 {
    if offset < BUFFER_END {
        s.back[offset as int]
    } else if offset == STATUS_REG {
        if s.swap_requested {
            1
        } else {
            0
        }
    } else {
        0
    }
}

/// Writes below BUFFER_END draw into the back buffer; writing 1 to CONTROL
/// requests a swap; other writes are ignored.
pub open spec fn screen_write8(s: ScreenState, offset: u32, value: u8) -> ScreenState {
    if offset < BUFFER_END {
        ScreenState { back: s.back.update(offset as int, value), ..s }
    } else if offset == CONTROL_REG && value == 1 {
        ScreenState { swap_requested: true, ..s }
    } else {
        s
    }
}

/// One cycle: at each frame boundary the cycle count restarts, and a requested
/// swap copies the back buffer to the front buffer.
pub open spec fn screen_tick(s: ScreenState) -> ScreenState {
    let c = wrap_add(s.cycles, 1);
    if c >= s.ticks_per_frame {
        if s.swap_requested {
            ScreenState { front: s.back, swap_requested: false, cycles: 0, ..s }
        } else {
            ScreenState { cycles: 0, ..s }
        }
    } else {
        ScreenState { cycles: c, ..s }
    }
}

/// The swap handshake: once the guest writes 1 to CONTROL, STATUS reads 1
/// until the next frame boundary, where the back buffer becomes the front
/// buffer and STATUS reads 0 again; between boundaries the front buffer does
/// not change.
pub proof fn lemma_swap_handshake(s: ScreenState)
    requires
        s.wf(),
    ensures
        screen_read8(screen_write8(s, CONTROL_REG, 1), STATUS_REG) == 1,
        ({
            let t = screen_tick(screen_write8(s, CONTROL_REG, 1));
            if wrap_add(s.cycles, 1) >= s.ticks_per_frame {
                t.front == s.back && screen_read8(t, STATUS_REG) == 0
            } else {
                t.front == s.front && screen_read8(t, STATUS_REG) == 1
            }
        }),
{
}

pub struct Screen {
    /// What the host displays.
    pub front_buffer: Vec<u8>,
    back_buffer: Vec<u8>,
    swap_requested: bool,
    cycles: u32,
    ticks_per_frame: u32,
}

impl View for Screen {
    type V = ScreenState;

    closed spec fn view(&self) -> ScreenState {
        ScreenState {
            front: self.front_buffer@,
            back: self.back_buffer@,
            swap_requested: self.swap_requested,
            cycles: self.cycles,
            ticks_per_frame: self.ticks_per_frame,
        }
    }
}

impl Screen {
    /// A blank screen that refreshes every `cpu_hz / target_fps` cycles.
    pub fn new(cpu_hz: u32, target_fps: u32) -> (r: Self)
        requires
            target_fps > 0,
        ensures
            r@.front == Seq::new(FRAMEBUFFER_SIZE as nat, |i: int| 0u8),
            r@.back == Seq::new(FRAMEBUFFER_SIZE as nat, |i: int| 0u8),
            !r@.swap_requested,
            r@.cycles == 0,
            r@.ticks_per_frame == cpu_hz / target_fps,
    {
        let front_buffer: Vec<u8> = vec![0; FRAMEBUFFER_SIZE];
        let back_buffer: Vec<u8> = vec![0; FRAMEBUFFER_SIZE];
        assert(front_buffer@ =~= Seq::new(FRAMEBUFFER_SIZE as nat, |i: int| 0u8));
        assert(back_buffer@ =~= Seq::new(FRAMEBUFFER_SIZE as nat, |i: int| 0u8));
        Self {
            front_buffer,
            back_buffer,
            swap_requested: false,
            cycles: 0,
            ticks_per_frame: cpu_hz / target_fps,
        }
    }

    /// Whether the screen serves an access at `offset`.
    pub fn accepts_offset(&self, offset: u32) -> (r: bool)
        ensures
            r == screen_accepts(self@, offset),
    {
        offset >= BUFFER_END || (offset as usize) < self.back_buffer.len()
    }

    /// The frame currently shown.
    pub fn get_data(&self) -> (r: &[u8])
        ensures
            r@ == self@.front,
    {
        self.front_buffer.as_slice()
    }
}

impl Device for Screen {
    open spec fn accepts(&self, offset: u32) -> bool {
        screen_accepts(self@, offset)
    }

    fn read8(&mut self, offset: Address) -> (r: u8)
        ensures
            r == screen_read8(old(self)@, offset.0),
            final(self)@ == old(self)@,
    {
        let addr = offset.0;
        if addr < BUFFER_END {
            self.back_buffer[addr as usize]
        } else if addr == STATUS_REG {
            if self.swap_requested {
                1
            } else {
                0
            }
        } else {
            0
        }
    }

    fn write8(&mut self, offset: Address, value: u8)
        ensures
            final(self)@ == screen_write8(old(self)@, offset.0, value),
    {
        let addr = offset.0;
        if addr < BUFFER_END {
            self.back_buffer[addr as usize] = value;
        } else if addr == CONTROL_REG {
            if value == 1 {
                self.swap_requested = true;
            }
        }
    }

    fn tick(&mut self, int_controller: &mut InterruptController)
        ensures
            final(self)@ == screen_tick(old(self)@),
            final(int_controller)@ == old(int_controller)@,
    {
        self.cycles = self.cycles.wrapping_add(1);
        if self.cycles >= self.ticks_per_frame {
            self.cycles = 0;
            if self.swap_requested {
                self.front_buffer = self.back_buffer.clone();
                assert(self.front_buffer@ =~= self.back_buffer@);
                self.swap_requested = false;
            }
        }
    }
}

} // verus!
