//! What a read through the bus gives back after a write through it.
use vstd::prelude::*;
use super::{
    Region, accessible, accessible_n, covers, memory_sized, with_device, bus_read16, bus_read32, bus_read8, bus_write16, bus_write32, bus_write8,
    lemma_access_keeps_layout, lemma_find_from, lemma_same_layout_access, offset_in, region_index,
    same_layout,
};
use crate::cpu::types::wrap_add;
use crate::devices::DeviceState;
use crate::devices::memory::MEMORY_SIZE;

verus! {

/// `addr` is an accessible byte of RAM.
pub open spec fn is_ram(rs: Seq<Region>, addr: u32) -> bool {
    accessible(rs, addr) && rs[region_index(rs, addr)].device is Memory
}

/// Reading RAM changes nothing.
pub proof fn lemma_ram_read_pure(rs: Seq<Region>, addr: u32)
    requires
        is_ram(rs, addr),
    ensures
        bus_read8(rs, addr).0 == rs,
{
    lemma_find_from(rs, addr, 0);
    let i = region_index(rs, addr);
    assert(bus_read8(rs, addr).0 =~= rs);
}

/// A write keeps every byte of RAM RAM.
pub proof fn lemma_write_keeps_ram(rs: Seq<Region>, addr: u32, v: u8, other: u32)
    requires
        accessible(rs, addr),
        is_ram(rs, other),
    ensures
        is_ram(bus_write8(rs, addr, v), other),
        same_layout(bus_write8(rs, addr, v), rs),
{
    lemma_access_keeps_layout(rs, addr, v);
    lemma_same_layout_access(bus_write8(rs, addr, v), rs, other);
    lemma_find_from(rs, addr, 0);
    lemma_find_from(rs, other, 0);
}

/// A byte written to RAM reads back; reads of every other accessible byte
/// give what they gave before the write.
pub proof fn lemma_ram_read_after_write(rs: Seq<Region>, addr: u32, v: u8, other: u32)
    requires
        is_ram(rs, addr),
    ensures
        bus_read8(bus_write8(rs, addr, v), addr).1 == v,
        other != addr && accessible(rs, other) ==> bus_read8(bus_write8(rs, addr, v), other).1
            == bus_read8(rs, other).1,
{
    let ws = bus_write8(rs, addr, v);
    lemma_find_from(rs, addr, 0);
    lemma_access_keeps_layout(rs, addr, v);
    lemma_same_layout_access(ws, rs, addr);
    if other != addr && accessible(rs, other) {
        lemma_find_from(rs, other, 0);
        lemma_same_layout_access(ws, rs, other);
    }
}

/// A halfword written to RAM reads back.
pub proof fn lemma_ram_read16_after_write16(rs: Seq<Region>, addr: u32, v: u16)
    requires
        is_ram(rs, addr),
        is_ram(rs, wrap_add(addr, 1)),
    ensures
        bus_read16(bus_write16(rs, addr, v), addr).1 == v,
{
    reveal(bus_read16);
    reveal(bus_write16);
    let a1 = wrap_add(addr, 1);
    let lo = (v % 256) as u8;
    let hi = (v / 256) as u8;
    let w1 = bus_write8(rs, addr, lo);
    lemma_write_keeps_ram(rs, addr, lo, a1);
    lemma_write_keeps_ram(rs, addr, lo, addr);
    let w2 = bus_write8(w1, a1, hi);
    lemma_write_keeps_ram(w1, a1, hi, addr);
    lemma_write_keeps_ram(w1, a1, hi, a1);
    lemma_ram_read_after_write(w1, a1, hi, addr);
    lemma_ram_read_after_write(rs, addr, lo, addr);
    lemma_ram_read_after_write(w1, a1, hi, a1);
    lemma_ram_read_pure(w2, addr);
}

/// A word written to RAM reads back.
pub proof fn lemma_ram_read32_after_write32(rs: Seq<Region>, addr: u32, v: u32)
    requires
        is_ram(rs, addr),
        is_ram(rs, wrap_add(addr, 1)),
        is_ram(rs, wrap_add(addr, 2)),
        is_ram(rs, wrap_add(addr, 3)),
    ensures
        bus_read32(bus_write32(rs, addr, v), addr).1 == v,
{
    reveal(bus_read32);
    reveal(bus_write32);
    let a = seq![addr, wrap_add(addr, 1), wrap_add(addr, 2), wrap_add(addr, 3)];
    let b = seq![
        (v % 0x100) as u8,
        ((v / 0x100) % 0x100) as u8,
        ((v / 0x1_0000) % 0x100) as u8,
        (v / 0x100_0000) as u8,
    ];
    let w1 = bus_write8(rs, a[0], b[0]);
    let w2 = bus_write8(w1, a[1], b[1]);
    let w3 = bus_write8(w2, a[2], b[2]);
    let w4 = bus_write8(w3, a[3], b[3]);
    assert(w4 == bus_write32(rs, addr, v));
    // Every byte stays RAM through the four writes.
    assert forall|k: int| 0 <= k < 4 implies is_ram(w1, #[trigger] a[k]) by {
        lemma_write_keeps_ram(rs, a[0], b[0], a[k]);
    }
    assert forall|k: int| 0 <= k < 4 implies is_ram(w2, #[trigger] a[k]) by {
        lemma_write_keeps_ram(w1, a[1], b[1], a[k]);
    }
    assert forall|k: int| 0 <= k < 4 implies is_ram(w3, #[trigger] a[k]) by {
        lemma_write_keeps_ram(w2, a[2], b[2], a[k]);
    }
    assert forall|k: int| 0 <= k < 4 implies is_ram(w4, #[trigger] a[k]) by {
        lemma_write_keeps_ram(w3, a[3], b[3], a[k]);
    }
    // Each byte holds what was written to it.
    assert(a[0] != a[1] && a[0] != a[2] && a[0] != a[3] && a[1] != a[2] && a[1] != a[3] && a[2] != a[3]);
    lemma_ram_read_after_write(rs, a[0], b[0], a[0]);
    lemma_ram_read_after_write(w1, a[1], b[1], a[0]);
    lemma_ram_read_after_write(w2, a[2], b[2], a[0]);
    lemma_ram_read_after_write(w3, a[3], b[3], a[0]);
    lemma_ram_read_after_write(w1, a[1], b[1], a[1]);
    lemma_ram_read_after_write(w2, a[2], b[2], a[1]);
    lemma_ram_read_after_write(w3, a[3], b[3], a[1]);
    lemma_ram_read_after_write(w2, a[2], b[2], a[2]);
    lemma_ram_read_after_write(w3, a[3], b[3], a[2]);
    lemma_ram_read_after_write(w3, a[3], b[3], a[3]);
    assert forall|k: int| 0 <= k < 4 implies #[trigger] bus_read8(w4, a[k]).0 == w4 by {
        lemma_ram_read_pure(w4, a[k]);
    }
    assert(bus_read8(w4, a[0]).1 == b[0]);
    assert(bus_read8(w4, a[1]).1 == b[1]);
    assert(bus_read8(w4, a[2]).1 == b[2]);
    assert(bus_read8(w4, a[3]).1 == b[3]);
}

/// The bytes of a RAM device (empty for any other device).
pub open spec fn ram_bytes(d: DeviceState) -> Seq<u8> {
    match d {
        DeviceState::Memory(bytes) => bytes,
        _ => Seq::empty(),
    }
}

/// The `n` bytes from `addr` on all go to one RAM, mapped over a range no
/// longer than the RAM, without wrapping around the address space.
pub open spec fn ram_span(rs: Seq<Region>, addr: u32, n: u32) -> bool {
    let i = region_index(rs, addr);
    &&& (addr as int) + (n as int) <= 0x1_0000_0000
    &&& 0 <= i < rs.len()
    &&& rs[i].device is Memory
    &&& (rs[i].end as int) - (rs[i].start as int) < MEMORY_SIZE
    &&& forall|k: u32| k < n ==> region_index(rs, #[trigger] wrap_add(addr, k)) == i
}

/// Every byte of such a span is accessible RAM, at consecutive offsets of the
/// one device.
pub proof fn lemma_ram_span_accessible(rs: Seq<Region>, addr: u32, n: u32)
    requires
        memory_sized(rs),
        ram_span(rs, addr, n),
    ensures
        accessible_n(rs, addr, n as nat),
        forall|k: u32| k < n ==> is_ram(rs, #[trigger] wrap_add(addr, k)),
        forall|k: u32|
            k < n ==> offset_in(rs, #[trigger] wrap_add(addr, k)) == offset_in(rs, addr) + k,
{
    let i = region_index(rs, addr);
    assert(rs[i].device.wf());
    assert forall|k: u32| k < n implies is_ram(rs, #[trigger] wrap_add(addr, k))
        && offset_in(rs, wrap_add(addr, k)) == offset_in(rs, addr) + k by {
        let ak = wrap_add(addr, k);
        lemma_find_from(rs, ak, 0);
        lemma_find_from(rs, addr, 0);
        assert(wrap_add(addr, 0) == addr);
        assert(covers(rs[i], ak));
        assert(covers(rs[i], addr));
    }
}

/// A halfword written into such a span of RAM changes exactly its two bytes
/// of that RAM, low byte first, and reads back whole and byte by byte.
pub proof fn lemma_write16_into_ram(rs: Seq<Region>, addr: u32, v: u16)
    requires
        memory_sized(rs),
        ram_span(rs, addr, 2),
    ensures
        accessible_n(rs, addr, 2),
        ({
            let i = region_index(rs, addr);
            let off = offset_in(rs, addr) as int;
            let w = bus_write16(rs, addr, v);
            &&& w == with_device(
                rs,
                i,
                DeviceState::Memory(
                    ram_bytes(rs[i].device).update(off, (v % 256) as u8).update(
                        off + 1,
                        (v / 256) as u8,
                    ),
                ),
            )
            &&& bus_read8(w, addr).1 == (v % 256) as u8
            &&& bus_read8(w, (addr + 1) as u32).1 == (v / 256) as u8
            &&& bus_read16(w, addr).1 == v
        }),
{
    lemma_ram_span_accessible(rs, addr, 2);
    let a1 = wrap_add(addr, 1);
    assert(a1 == (addr + 1) as u32);
    assert(is_ram(rs, wrap_add(addr, 0)));
    assert(is_ram(rs, a1));
    assert(offset_in(rs, a1) == offset_in(rs, addr) + 1);
    let i = region_index(rs, addr);
    let off = offset_in(rs, addr) as int;
    let lo = (v % 256) as u8;
    let hi = (v / 256) as u8;
    let d = ram_bytes(rs[i].device);
    reveal(bus_write16);
    let w1 = bus_write8(rs, addr, lo);
    lemma_access_keeps_layout(rs, addr, lo);
    lemma_same_layout_access(w1, rs, a1);
    let w2 = bus_write8(w1, a1, hi);
    assert(w2 =~= with_device(rs, i, DeviceState::Memory(d.update(off, lo).update(off + 1, hi))));
    lemma_ram_read16_after_write16(rs, addr, v);
    lemma_write_keeps_ram(rs, addr, lo, a1);
    lemma_write_keeps_ram(rs, addr, lo, addr);
    lemma_ram_read_after_write(w1, a1, hi, addr);
    lemma_ram_read_after_write(rs, addr, lo, addr);
    lemma_ram_read_after_write(w1, a1, hi, a1);
}

/// A word written into such a span of RAM changes exactly its four bytes of
/// that RAM, least significant first, and reads back whole and byte by byte.
pub proof fn lemma_write32_into_ram(rs: Seq<Region>, addr: u32, v: u32)
    requires
        memory_sized(rs),
        ram_span(rs, addr, 4),
    ensures
        accessible_n(rs, addr, 4),
        ({
            let i = region_index(rs, addr);
            let off = offset_in(rs, addr) as int;
            let w = bus_write32(rs, addr, v);
            &&& w == with_device(
                rs,
                i,
                DeviceState::Memory(
                    ram_bytes(rs[i].device).update(off, (v % 0x100) as u8).update(
                        off + 1,
                        ((v / 0x100) % 0x100) as u8,
                    ).update(off + 2, ((v / 0x1_0000) % 0x100) as u8).update(
                        off + 3,
                        (v / 0x100_0000) as u8,
                    ),
                ),
            )
            &&& bus_read8(w, addr).1 == (v % 0x100) as u8
            &&& bus_read8(w, (addr + 1) as u32).1 == ((v / 0x100) % 0x100) as u8
            &&& bus_read8(w, (addr + 2) as u32).1 == ((v / 0x1_0000) % 0x100) as u8
            &&& bus_read8(w, (addr + 3) as u32).1 == (v / 0x100_0000) as u8
            &&& bus_read32(w, addr).1 == v
        }),
{
    lemma_ram_span_accessible(rs, addr, 4);
    let a = seq![addr, wrap_add(addr, 1), wrap_add(addr, 2), wrap_add(addr, 3)];
    let b = seq![
        (v % 0x100) as u8,
        ((v / 0x100) % 0x100) as u8,
        ((v / 0x1_0000) % 0x100) as u8,
        (v / 0x100_0000) as u8,
    ];
    assert(wrap_add(addr, 0) == addr);
    assert(is_ram(rs, wrap_add(addr, 0)));
    assert(is_ram(rs, wrap_add(addr, 1)));
    assert(is_ram(rs, wrap_add(addr, 2)));
    assert(is_ram(rs, wrap_add(addr, 3)));
    assert(offset_in(rs, wrap_add(addr, 1)) == offset_in(rs, addr) + 1);
    assert(offset_in(rs, wrap_add(addr, 2)) == offset_in(rs, addr) + 2);
    assert(offset_in(rs, wrap_add(addr, 3)) == offset_in(rs, addr) + 3);
    let i = region_index(rs, addr);
    let off = offset_in(rs, addr) as int;
    let d = ram_bytes(rs[i].device);
    reveal(bus_write32);
    let w1 = bus_write8(rs, a[0], b[0]);
    let w2 = bus_write8(w1, a[1], b[1]);
    let w3 = bus_write8(w2, a[2], b[2]);
    let w4 = bus_write8(w3, a[3], b[3]);
    lemma_access_keeps_layout(rs, a[0], b[0]);
    assert forall|k: int| 0 <= k < 4 implies is_ram(w1, #[trigger] a[k]) && region_index(w1, a[k])
        == region_index(rs, a[k]) && offset_in(w1, a[k]) == offset_in(rs, a[k]) by {
        lemma_write_keeps_ram(rs, a[0], b[0], a[k]);
        lemma_same_layout_access(w1, rs, a[k]);
    }
    lemma_access_keeps_layout(w1, a[1], b[1]);
    assert forall|k: int| 0 <= k < 4 implies is_ram(w2, #[trigger] a[k]) && region_index(w2, a[k])
        == region_index(rs, a[k]) && offset_in(w2, a[k]) == offset_in(rs, a[k]) by {
        lemma_write_keeps_ram(w1, a[1], b[1], a[k]);
        lemma_same_layout_access(w2, w1, a[k]);
    }
    lemma_access_keeps_layout(w2, a[2], b[2]);
    assert forall|k: int| 0 <= k < 4 implies is_ram(w3, #[trigger] a[k]) && region_index(w3, a[k])
        == region_index(rs, a[k]) && offset_in(w3, a[k]) == offset_in(rs, a[k]) by {
        lemma_write_keeps_ram(w2, a[2], b[2], a[k]);
        lemma_same_layout_access(w3, w2, a[k]);
    }
    assert(w4 =~= with_device(
        rs,
        i,
        DeviceState::Memory(
            d.update(off, b[0]).update(off + 1, b[1]).update(off + 2, b[2]).update(off + 3, b[3]),
        ),
    ));
    lemma_ram_read32_after_write32(rs, addr, v);
    lemma_write_keeps_ram(w3, a[3], b[3], a[0]);
    lemma_write_keeps_ram(w3, a[3], b[3], a[1]);
    lemma_write_keeps_ram(w3, a[3], b[3], a[2]);
    lemma_write_keeps_ram(w3, a[3], b[3], a[3]);
    lemma_access_keeps_layout(w3, a[3], b[3]);
    lemma_same_layout_access(w4, w3, a[0]);
    lemma_same_layout_access(w4, w3, a[1]);
    lemma_same_layout_access(w4, w3, a[2]);
    lemma_same_layout_access(w4, w3, a[3]);
    assert(a[1] == (addr + 1) as u32 && a[2] == (addr + 2) as u32 && a[3] == (addr + 3) as u32);
}

} // verus!
