pub mod types;
pub mod alu;
pub mod cpu;
pub mod decode;
pub mod execute;
pub mod fetch;
pub mod laws;

pub use types::{
    Address, Destination, Funct3, Funct7, INSTRUCTION, INTERRUPT, Immediate, Opcode,
    MachineFault, PrivilegeMode, RawInstruction, RegisterIndex, Source1, Source2,
};
pub use cpu::CPU;
