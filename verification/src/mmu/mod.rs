//! Sv32 address translation: a two-level page-table walk over the bus, with
//! 4 KiB pages and 4 MiB megapages, and the permission checks of the access.
use vstd::prelude::*;
use crate::bus::{Bus, Region, accessible_n, bus_read32, first_fault, lemma_first_fault};
use crate::cpu::{Address, MachineFault, PrivilegeMode};

verus! {

/// The kind of memory access being translated.
#[derive(Debug, Clone, Copy, PartialEq, Eq, Structural)]
pub enum AccessType {
    Fetch,
    Load,
    Store,
}

/// RISC-V exception codes for page faults.
pub const EXC_INST_PAGE_FAULT: u32 = 12;
pub const EXC_LOAD_PAGE_FAULT: u32 = 13;
pub const EXC_STORE_PAGE_FAULT: u32 = 15;

/// The page-fault cause for a kind of access.
pub open spec fn fault_cause_of(access: AccessType) -> u32 {
    match access {
        AccessType::Fetch => EXC_INST_PAGE_FAULT,
        AccessType::Load => EXC_LOAD_PAGE_FAULT,
        AccessType::Store => EXC_STORE_PAGE_FAULT,
    }
}

// Fields of a page-table entry.
pub open spec fn pte_v(pte: u32) -> u32 {
    pte & 0x1
}

pub open spec fn pte_r(pte: u32) -> u32 {
    (pte >> 1) & 0x1
}

pub open spec fn pte_w(pte: u32) -> u32 {
    (pte >> 2) & 0x1
}

pub open spec fn pte_x(pte: u32) -> u32 {
    (pte >> 3) & 0x1
}

pub open spec fn pte_u(pte: u32) -> u32 {
    (pte >> 4) & 0x1
}

pub open spec fn pte_ppn(pte: u32) -> u32 {
    (pte >> 10) & 0x3F_FFFF
}

/// An entry that cannot be used: not valid, or writable without being readable.
pub open spec fn pte_invalid(pte: u32) -> bool {
    pte_v(pte) == 0 || (pte_r(pte) == 0 && pte_w(pte) == 1)
}

/// A valid entry with none of R, W, X points to the next-level table.
pub open spec fn pte_is_pointer(pte: u32) -> bool {
    pte_r(pte) == 0 && pte_w(pte) == 0 && pte_x(pte) == 0
}

/// The physical address `ppn * 4096 + offset`, in 32 bits.
pub open spec fn phys(ppn: u32, offset: u32) -> u32 {
    ((ppn as int * 4096 + offset as int) % 0x1_0000_0000) as u32
}

/// Whether a leaf entry lets the access go ahead at the given privilege: User
/// mode needs U set, Supervisor mode needs U clear, and the access needs X, R
/// or W respectively.
pub open spec fn leaf_permits(pte: u32, access: AccessType, privilege: PrivilegeMode) -> bool {
    &&& !(privilege == PrivilegeMode::User && pte_u(pte) == 0)
    &&& !(privilege == PrivilegeMode::Supervisor && pte_u(pte) == 1)
    &&& match access {
        AccessType::Fetch => pte_x(pte) == 1,
        AccessType::Load => pte_r(pte) == 1,
        AccessType::Store => pte_w(pte) == 1,
    }
}

/// Translation is on when SATP's mode bit is set and the hart is not in
/// Machine mode.
pub open spec fn paging_on(satp: u32, privilege: PrivilegeMode) -> bool {
    (satp >> 31) & 0x1 == 1 && privilege != PrivilegeMode::Machine
}

/// The result of the checks on a leaf entry reached by the walk.
pub open spec fn leaf_result(
    leaf: u32,
    vaddr: u32,
    access: AccessType,
    privilege: PrivilegeMode,
) -> Result<u32, u32> {
    if leaf_permits(leaf, access, privilege) {
        Ok(phys(pte_ppn(leaf), vaddr & 0xFFF))
    } else {
        Err(fault_cause_of(access))
    }
}

/// Translation of `vaddr` for `access`: the bus after the page-table reads,
/// and either `Err` with a fault where a page-table entry cannot be read, or
/// `Ok` with the physical address (`Ok`) or page-fault cause (`Err`).
#[verifier::opaque]
pub open spec fn translate_spec(
    vaddr: u32,
    access: AccessType,
    satp: u32,
    privilege: PrivilegeMode,
    rs: Seq<Region>,
) -> (Seq<Region>, Result<Result<u32, u32>, MachineFault>) {
    if !paging_on(satp, privilege) {
        (rs, Ok(Ok(vaddr)))
    } else {
        let vpn1 = (vaddr >> 22) & 0x3FF;
        let vpn0 = (vaddr >> 12) & 0x3FF;
        let root_addr = phys(satp & 0x3F_FFFF, (vpn1 * 4) as u32);
        match first_fault(rs, root_addr, 0, 4) {
            Some(f) => (rs, Err(f)),
            None => {
                let (rs1, root) = bus_read32(rs, root_addr);
                if pte_invalid(root) {
                    (rs1, Ok(Err(fault_cause_of(access))))
                } else if pte_is_pointer(root) {
                    let leaf_addr = phys(pte_ppn(root), (vpn0 * 4) as u32);
                    match first_fault(rs1, leaf_addr, 0, 4) {
                        Some(f) => (rs1, Err(f)),
                        None => {
                            let (rs2, leaf) = bus_read32(rs1, leaf_addr);
                            if pte_invalid(leaf) || pte_is_pointer(leaf) {
                                (rs2, Ok(Err(fault_cause_of(access))))
                            } else {
                                (rs2, Ok(leaf_result(leaf, vaddr, access, privilege)))
                            }
                        },
                    }
                } else if vpn0 != 0 {
                    (rs1, Ok(Err(fault_cause_of(access))))
                } else {
                    (rs1, Ok(leaf_result(root, vaddr, access, privilege)))
                }
            },
        }
    }
}

/// With translation off (SATP mode bit clear, or Machine mode) an address
/// translates to itself and the bus is not touched.
pub proof fn lemma_translate_bypass(
    vaddr: u32,
    access: AccessType,
    satp: u32,
    privilege: PrivilegeMode,
    rs: Seq<Region>,
)
    requires
        !paging_on(satp, privilege),
    ensures
        translate_spec(vaddr, access, satp, privilege, rs) == (rs, Ok::<Result<u32, u32>, MachineFault>(Ok(vaddr))),
{
    reveal(translate_spec);
}

/// A translation keeps the offset within the page, and a page fault always
/// carries the cause that belongs to the kind of access.
pub proof fn lemma_translate_result(
    vaddr: u32,
    access: AccessType,
    satp: u32,
    privilege: PrivilegeMode,
    rs: Seq<Region>,
)
    ensures
        translate_spec(vaddr, access, satp, privilege, rs).1 matches Ok(Ok(pa)) ==> pa % 4096
            == vaddr % 4096,
        translate_spec(vaddr, access, satp, privilege, rs).1 matches Ok(Err(cause)) ==> cause
            == fault_cause_of(access),
{
    reveal(translate_spec);
    let o = vaddr & 0xFFF;
    assert(vaddr & 0xFFF == vaddr % 4096) by (bit_vector);
    assert forall|ppn: u32| #[trigger] phys(ppn, o) % 4096 == o by {
        let x = ppn as int * 4096 + o as int;
        vstd::arithmetic::div_mod::lemma_mod_mod(x, 4096, 0x10_0000);
        vstd::arithmetic::div_mod::lemma_mod_multiples_vanish(ppn as int, o as int, 4096);
        vstd::arithmetic::div_mod::lemma_small_mod(o as nat, 4096);
    }
}

/// The page-table entry fields as arithmetic on the entry's value.
proof fn lemma_pte_fields(p: u32)
    by (bit_vector)
    ensures
        pte_v(p) == p % 2,
        pte_r(p) == (p / 2) % 2,
        pte_w(p) == (p / 4) % 2,
        pte_x(p) == (p / 8) % 2,
        pte_u(p) == (p / 16) % 2,
        pte_ppn(p) == p / 1024,
{
}

/// The virtual-address and SATP fields as arithmetic.
proof fn lemma_address_fields(v: u32, satp: u32)
    by (bit_vector)
    ensures
        (v >> 22) & 0x3FF == v / 0x40_0000,
        (v >> 12) & 0x3FF == (v / 4096) % 1024,
        v & 0xFFF == v % 4096,
        satp & 0x3F_FFFF == satp % 0x40_0000,
        ((satp >> 31) & 0x1 == 1) == (satp >= 0x8000_0000),
{
}

/// A two-level walk. With paging on (SATP bit 31 set, below Machine mode),
/// the root entry for `vaddr` sits at `(satp mod 2^22) * 4096 + 4 * vpn1`;
/// when it is a valid pointer (V set, R, W, X clear) the leaf sits at
/// `ppn(root) * 4096 + 4 * vpn0`. For a valid leaf (V set, not W without R,
/// not a pointer) whose U bit matches the privilege (set for User, clear for
/// Supervisor), the access goes through exactly when its own permission bit
/// is set (X for a fetch, R for a load, W for a store), whatever the other
/// bits, to `ppn(leaf) * 4096` plus the page offset; otherwise it is a page
/// fault with the cause of the access (12, 13, 15). Reading the table from
/// RAM leaves the bus as it was.
pub proof fn lemma_two_level_walk(
    vaddr: u32,
    access: AccessType,
    satp: u32,
    privilege: PrivilegeMode,
    rs: Seq<Region>,
    root_pte: u32,
    leaf_pte: u32,
)
    requires
        satp >= 0x8000_0000,
        privilege != PrivilegeMode::Machine,
        ({
            let ra = ((((satp % 0x40_0000) * 4096 + (vaddr / 0x40_0000) * 4) as int)
                % 0x1_0000_0000) as u32;
            &&& accessible_n(rs, ra, 4)
            &&& bus_read32(rs, ra) == (rs, root_pte)
        }),
        root_pte % 2 == 1,
        (root_pte / 2) % 2 == 0,
        (root_pte / 4) % 2 == 0,
        (root_pte / 8) % 2 == 0,
        ({
            let la = ((((root_pte / 1024) * 4096 + ((vaddr / 4096) % 1024) * 4) as int)
                % 0x1_0000_0000) as u32;
            &&& accessible_n(rs, la, 4)
            &&& bus_read32(rs, la) == (rs, leaf_pte)
        }),
        leaf_pte % 2 == 1,
        !((leaf_pte / 2) % 2 == 0 && (leaf_pte / 4) % 2 == 1),
        (leaf_pte / 2) % 2 == 1 || (leaf_pte / 4) % 2 == 1 || (leaf_pte / 8) % 2 == 1,
        ((leaf_pte / 16) % 2 == 1) == (privilege == PrivilegeMode::User),
    ensures
        ({
            let pa = ((((leaf_pte / 1024) * 4096 + vaddr % 4096) as int) % 0x1_0000_0000) as u32;
            let (bit, cause) = match access {
                AccessType::Fetch => ((leaf_pte / 8) % 2, 12u32),
                AccessType::Load => ((leaf_pte / 2) % 2, 13u32),
                AccessType::Store => ((leaf_pte / 4) % 2, 15u32),
            };
            translate_spec(vaddr, access, satp, privilege, rs) == (
                rs,
                Ok::<Result<u32, u32>, MachineFault>(
                    if bit == 1 {
                        Ok(pa)
                    } else {
                        Err(cause)
                    },
                ),
            )
        }),
{
    reveal(translate_spec);
    lemma_pte_fields(root_pte);
    lemma_pte_fields(leaf_pte);
    lemma_address_fields(vaddr, satp);
    let ra = phys(satp & 0x3F_FFFF, (((vaddr >> 22) & 0x3FF) * 4) as u32);
    let la = phys(pte_ppn(root_pte), (((vaddr >> 12) & 0x3FF) * 4) as u32);
    lemma_first_fault(rs, ra, 0, 4);
    lemma_first_fault(rs, la, 0, 4);
}

pub struct MMU;

impl MMU {
    /// Translates `vaddr` for `access` under `satp` at `privilege`.
    /// `Err(fault)` when a page-table entry cannot be read from the bus;
    /// otherwise the physical address, or the page-fault cause.
    pub fn translate(
        vaddr: u32,
        access: &AccessType,
        satp: u32,
        privilege: PrivilegeMode,
        bus: &mut Bus,
    ) -> (r: Result<Result<u32, u32>, MachineFault>)
        ensures
            (final(bus)@, r) == translate_spec(vaddr, *access, satp, privilege, old(bus)@),
    {
        reveal(translate_spec);
        let mode = (satp >> 31) & 0x1;
        proof {
            crate::bits::lemma_and_le(satp >> 31, 0x1);
        }
        if mode == 0 || privilege == PrivilegeMode::Machine {
            return Ok(Ok(vaddr));
        }
        let vpn1 = (vaddr >> 22) & 0x3FF;
        let vpn0 = (vaddr >> 12) & 0x3FF;
        let offset = vaddr & 0xFFF;
        proof {
            crate::bits::lemma_and_le(vaddr >> 22, 0x3FF);
            crate::bits::lemma_and_le(vaddr >> 12, 0x3FF);
        }
        let root_ppn = satp & 0x3F_FFFF;
        let root_pte_addr = Self::phys_addr(root_ppn, vpn1 * 4);
        if let Some(f) = bus.check_access(Address(root_pte_addr), 4) {
            return Err(f);
        }
        let root_pte = bus.read32(Address(root_pte_addr));
        let v = root_pte & 0x1;
        let r = (root_pte >> 1) & 0x1;
        let w = (root_pte >> 2) & 0x1;
        let x = (root_pte >> 3) & 0x1;
        if v == 0 || (r == 0 && w == 1) {
            return Ok(Err(Self::fault_cause(access)));
        }
        let mut leaf_pte = root_pte;
        if r == 0 && w == 0 && x == 0 {
            let leaf_ppn = (root_pte >> 10) & 0x3F_FFFF;
            let leaf_pte_addr = Self::phys_addr(leaf_ppn, vpn0 * 4);
            if let Some(f) = bus.check_access(Address(leaf_pte_addr), 4) {
                return Err(f);
            }
            leaf_pte = bus.read32(Address(leaf_pte_addr));
            let lv = leaf_pte & 0x1;
            let lr = (leaf_pte >> 1) & 0x1;
            let lw = (leaf_pte >> 2) & 0x1;
            let lx = (leaf_pte >> 3) & 0x1;
            if lv == 0 || (lr == 0 && lw == 1) {
                return Ok(Err(Self::fault_cause(access)));
            }
            if lr == 0 && lw == 0 && lx == 0 {
                return Ok(Err(Self::fault_cause(access)));
            }
        } else {
            if vpn0 != 0 {
                return Ok(Err(Self::fault_cause(access)));
            }
        }
        let leaf_r = (leaf_pte >> 1) & 0x1;
        let leaf_w = (leaf_pte >> 2) & 0x1;
        let leaf_x = (leaf_pte >> 3) & 0x1;
        let leaf_u = (leaf_pte >> 4) & 0x1;
        proof {
            crate::bits::lemma_and_le(leaf_pte >> 1, 0x1);
            crate::bits::lemma_and_le(leaf_pte >> 2, 0x1);
            crate::bits::lemma_and_le(leaf_pte >> 3, 0x1);
            crate::bits::lemma_and_le(leaf_pte >> 4, 0x1);
        }
        if privilege == PrivilegeMode::User && leaf_u == 0 {
            return Ok(Err(Self::fault_cause(access)));
        }
        if privilege == PrivilegeMode::Supervisor && leaf_u == 1 {
            return Ok(Err(Self::fault_cause(access)));
        }
        match access {
            AccessType::Fetch => {
                if leaf_x == 0 {
                    return Ok(Err(Self::fault_cause(access)));
                }
            },
            AccessType::Load => {
                if leaf_r == 0 {
                    return Ok(Err(Self::fault_cause(access)));
                }
            },
            AccessType::Store => {
                if leaf_w == 0 {
                    return Ok(Err(Self::fault_cause(access)));
                }
            },
        }
        let final_ppn = (leaf_pte >> 10) & 0x3F_FFFF;
        Ok(Ok(Self::phys_addr(final_ppn, offset)))
    }

    /// `ppn * 4096 + offset`, wrapping in 32 bits.
    fn phys_addr(ppn: u32, offset: u32) -> (r: u32)
        ensures
            r == phys(ppn, offset),
    {
        let base = ppn.wrapping_mul(4096);
        let r = base.wrapping_add(offset);
        proof {
            vstd::arithmetic::div_mod::lemma_add_mod_noop(
                ppn as int * 4096,
                offset as int,
                0x1_0000_0000,
            );
            vstd::arithmetic::div_mod::lemma_mod_twice(offset as int, 0x1_0000_0000);
        }
        r
    }

    fn fault_cause(access: &AccessType) -> (r: u32)
        ensures
            r == fault_cause_of(*access),
    {
        match access {
            AccessType::Fetch => EXC_INST_PAGE_FAULT,
            AccessType::Load => EXC_LOAD_PAGE_FAULT,
            AccessType::Store => EXC_STORE_PAGE_FAULT,
        }
    }
}

} // verus!
