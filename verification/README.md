# risc_v

A RISC-V (RV32IM) emulator whose core is written in Verus: every operation of
the hart, the bus, the MMU and the devices is specified over a mathematical
model of the machine state, and the implementation is proved against it.

## Layout

```
src/
├── assembler/   instruction encoders; roundtrip.rs proves decode(assemble(..)) recovers the fields
├── bits.rs      bit-field lemmas shared by the CSR and device code
├── bus/         Bus + MappedDevice; laws.rs: RAM read-after-write laws
├── cpu/         types, ALU, CSR file and traps, decode, execute, fetch; laws.rs: trap/MRET, x0, div/rem
├── devices/     Device trait, MmioDevice, Memory, UART, Timer, Screen, Keyboard
├── interrupt/   InterruptController (a FIFO of distinct pending interrupts)
├── machine/     Machine (CPU + Bus + InterruptController) and its step
├── mmu/         Sv32 translation
├── platform/    memory map constants and MMIO register offsets
└── utils/       register dump
app/             host runners: UART demo, `test_m` program runner, keyboard window (minifb)
tests/           unit and scenario tests
```

## Model

- `CPU@` is a `CpuState`: 32 registers, pc, 4096 CSRs, privilege mode.
- `Bus@` is a `Seq<Region>`: each region an inclusive address range and the
  state of the device mapped there. A byte access goes to the first region that
  covers the address; wider accesses are little-endian byte sequences.
- `CPU::step` is specified by `step_spec`, and `Machine::step` by
  `machine_step`. Where the machine cannot go on (an access the bus cannot
  serve, an instruction word that does not decode) the step returns a
  `MachineFault` instead of panicking; architectural exceptions (page faults,
  illegal instructions, environment calls) trap into Machine mode.
- UART output is collected in a transmit buffer that the host drains with
  `UART::take_output`.
