pub mod device;
pub mod memory;
pub mod uart;
pub mod timer;
pub mod screen;
pub mod keyboard;

pub use device::{Device, DeviceState, MmioDevice};
pub use memory::Memory;
pub use uart::UART;
pub use timer::Timer;
pub use screen::Screen;
pub use keyboard::Keyboard;
