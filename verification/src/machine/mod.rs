//! The whole machine: a hart, a bus and an interrupt controller, advanced one
//! clock cycle at a time.
use vstd::prelude::*;
use crate::bus::{Bus, MappedDevice, Region, bus_tick};
use crate::cpu::{Address, CPU, INTERRUPT, MachineFault, PrivilegeMode};
use crate::cpu::cpu::{CpuState, interrupt};
use crate::cpu::fetch::step_spec;
use crate::devices::{DeviceState, Memory, MmioDevice};
use crate::devices::memory::MEMORY_SIZE;
use crate::interrupt::InterruptController;
use crate::platform::{RAM_BASE, RAM_SIZE};

verus! {

/// The machine as a value.
pub struct MachineState {
    pub cpu: CpuState,
    pub bus: Seq<Region>,
    pub pending: Seq<INTERRUPT>,
}

/// One clock cycle: every device ticks (possibly raising interrupts), the hart
/// executes one instruction, and then the oldest pending interrupt, if any, is
/// taken off the controller and offered to the hart. When the instruction
/// cannot complete, the machine stops there with the fault.
pub open spec fn machine_step(m: MachineState) -> (MachineState, Result<(), MachineFault>) {
    let (rs1, p1) = bus_tick(m.bus, m.pending);
    let o = step_spec(m.cpu, rs1);
    match o.result {
        Err(f) => (MachineState { cpu: o.cpu, bus: o.bus, pending: p1 }, Err(f)),
        Ok(_) => if p1.len() > 0 {
            (
                MachineState { cpu: interrupt(o.cpu, p1[0]), bus: o.bus, pending: p1.drop_first() },
                Ok(()),
            )
        } else {
            (MachineState { cpu: o.cpu, bus: o.bus, pending: p1 }, Ok(()))
        },
    }
}

/// The devices a fresh machine has: zeroed RAM mapped at `RAM_BASE`,
/// `RAM_SIZE` bytes long.
pub open spec fn initial_devices() -> Seq<Region> {
    seq![
        Region {
            start: RAM_BASE,
            end: (RAM_BASE + RAM_SIZE - 1) as u32,
            device: DeviceState::Memory(Seq::new(MEMORY_SIZE as nat, |i: int| 0u8)),
        },
    ]
}

pub struct Machine {
    pub cpu: CPU,
    pub bus: Bus,
    pub int_controller: InterruptController,
}

impl View for Machine {
    type V = MachineState;

    open spec fn view(&self) -> MachineState {
        MachineState { cpu: self.cpu@, bus: self.bus@, pending: self.int_controller@ }
    }
}

impl Machine {
    /// A reset hart, RAM on the bus, no interrupt pending.
    pub fn new() -> (r: Self)
        ensures
            r@.cpu.regs == Seq::new(32, |i: int| 0u32),
            r@.cpu.pc == 0,
            r@.cpu.csrs == Seq::new(4096, |i: int| 0u32),
            r@.cpu.mode == PrivilegeMode::Machine,
            r@.bus == initial_devices(),
            r@.pending == Seq::<INTERRUPT>::empty(),
    {
        let cpu = CPU::new();
        let mut bus = Bus::new();
        let int_controller = InterruptController::new();
        bus.add_device(
            MappedDevice(
                Address(RAM_BASE),
                Address(RAM_BASE + RAM_SIZE - 1),
                MmioDevice::Memory(Memory::new()),
            ),
        );
        assert(bus@ =~= initial_devices());
        Self { cpu, bus, int_controller }
    }

    /// One clock cycle; `Err` where the machine cannot go on.
    pub fn step(&mut self) -> (r: Result<(), MachineFault>)
        ensures
            (final(self)@, r) == machine_step(old(self)@),
    {
        self.bus.tick_all(&mut self.int_controller);
        let r = self.cpu.step(&mut self.bus);
        if let Err(f) = r {
            return Err(f);
        }
        if let Some(interrupt) = self.int_controller.next_interrupt() {
            self.cpu.handle_interrupt(interrupt);
        }
        Ok(())
    }
}

/// A fresh machine.
pub fn init_vm() -> (r: Machine)
    ensures
        r@.cpu.regs == Seq::new(32, |i: int| 0u32),
        r@.cpu.pc == 0,
        r@.cpu.csrs == Seq::new(4096, |i: int| 0u32),
        r@.cpu.mode == PrivilegeMode::Machine,
        r@.bus == initial_devices(),
        r@.pending == Seq::<INTERRUPT>::empty(),
{
    Machine::new()
}

} // verus!
