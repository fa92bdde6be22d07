//! The system bus: devices mapped onto address ranges. A byte access goes to
//! the first device whose range holds the address, at the offset from that
//! device's base; wider accesses are little-endian sequences of byte accesses.
pub mod laws;

use vstd::prelude::*;
use crate::cpu::{Address, INTERRUPT, MachineFault};
use crate::cpu::types::wrap_add;
use crate::devices::{Device, DeviceState, MmioDevice};
use crate::interrupt::InterruptController;

verus! {

/// A device mapped onto the inclusive address range `start..=end`.
pub struct Region {
    pub start: u32,
    pub end: u32,
    pub device: DeviceState,
}

pub open spec fn covers(r: Region, addr: u32) -> bool {
    r.start <= addr <= r.end
}

/// The index of the first region at or after `i` that covers `addr`, or -1.
pub open spec fn find_from(rs: Seq<Region>, addr: u32, i: int) -> int
    decreases rs.len() - i,
{
    if i < 0 || i >= rs.len() {
        -1
    } else if covers(rs[i], addr) {
        i
    } else {
        find_from(rs, addr, i + 1)
    }
}

/// The search finds a covering region at or after `i`, or none.
pub proof fn lemma_find_from(rs: Seq<Region>, addr: u32, i: int)
    requires
        0 <= i,
    ensures
        find_from(rs, addr, i) == -1 || (i <= find_from(rs, addr, i) < rs.len() && covers(
            rs[find_from(rs, addr, i)],
            addr,
        )),
    decreases rs.len() - i,
{
    if i < rs.len() && !covers(rs[i], addr) {
        lemma_find_from(rs, addr, i + 1);
    }
}

/// The index of the region an access to `addr` goes to, or -1 when no region
/// covers it.
pub open spec fn region_index(rs: Seq<Region>, addr: u32) -> int {
    find_from(rs, addr, 0)
}

pub open spec fn mapped(rs: Seq<Region>, addr: u32) -> bool {
    region_index(rs, addr) >= 0
}

/// The offset of `addr` within the region it goes to.
pub open spec fn offset_in(rs: Seq<Region>, addr: u32) -> u32 {
    (addr - rs[region_index(rs, addr)].start) as u32
}

/// A byte access to `addr` is defined: some region covers it, and the device
/// there decodes the offset.
pub open spec fn accessible(rs: Seq<Region>, addr: u32) -> bool {
    mapped(rs, addr) && rs[region_index(rs, addr)].device.accepts(offset_in(rs, addr))
}

/// All `n` bytes from `addr` on (wrapping) are accessible.
pub open spec fn accessible_n(rs: Seq<Region>, addr: u32, n: nat) -> bool {
    forall|k: u32| k < n ==> #[trigger] accessible(rs, wrap_add(addr, k))
}

pub open spec fn with_device(rs: Seq<Region>, i: int, d: DeviceState) -> Seq<Region> {
    rs.update(i, Region { start: rs[i].start, end: rs[i].end, device: d })
}

/// The bus after a byte read of `addr`, and the byte read.
pub open spec fn bus_read8(rs: Seq<Region>, addr: u32) -> (Seq<Region>, u8) {
    let i = region_index(rs, addr);
    let (d, b) = rs[i].device.read8(offset_in(rs, addr));
    (with_device(rs, i, d), b)
}

/// The bus after a byte write of `value` to `addr`.
pub open spec fn bus_write8(rs: Seq<Region>, addr: u32, value: u8) -> Seq<Region> {
    let i = region_index(rs, addr);
    with_device(rs, i, rs[i].device.write8(offset_in(rs, addr), value))
}

/// A little-endian halfword read: the byte at `addr`, then the byte after it.
#[verifier::opaque]
pub open spec fn bus_read16(rs: Seq<Region>, addr: u32) -> (Seq<Region>, u16) {
    let (rs1, b1) = bus_read8(rs, addr);
    let (rs2, b2) = bus_read8(rs1, wrap_add(addr, 1));
    (rs2, (b1 as int + 256 * b2 as int) as u16)
}

/// A little-endian word read: the four bytes from `addr` in ascending order.
#[verifier::opaque]
pub open spec fn bus_read32(rs: Seq<Region>, addr: u32) -> (Seq<Region>, u32) {
    let (rs1, b1) = bus_read8(rs, addr);
    let (rs2, b2) = bus_read8(rs1, wrap_add(addr, 1));
    let (rs3, b3) = bus_read8(rs2, wrap_add(addr, 2));
    let (rs4, b4) = bus_read8(rs3, wrap_add(addr, 3));
    (rs4, (b1 as int + 0x100 * b2 as int + 0x1_0000 * b3 as int + 0x100_0000 * b4 as int) as u32)
}

/// A little-endian halfword write: the low byte to `addr`, the high byte after.
#[verifier::opaque]
pub open spec fn bus_write16(rs: Seq<Region>, addr: u32, value: u16) -> Seq<Region> {
    let rs1 = bus_write8(rs, addr, (value % 256) as u8);
    bus_write8(rs1, wrap_add(addr, 1), (value / 256) as u8)
}

/// A little-endian word write: the four bytes of `value` in ascending order.
#[verifier::opaque]
pub open spec fn bus_write32(rs: Seq<Region>, addr: u32, value: u32) -> Seq<Region> {
    let rs1 = bus_write8(rs, addr, (value % 0x100) as u8);
    let rs2 = bus_write8(rs1, wrap_add(addr, 1), ((value / 0x100) % 0x100) as u8);
    let rs3 = bus_write8(rs2, wrap_add(addr, 2), ((value / 0x1_0000) % 0x100) as u8);
    bus_write8(rs3, wrap_add(addr, 3), (value / 0x100_0000) as u8)
}

/// The devices and pending interrupts after the first `n` devices, in order,
/// have each had one clock cycle.
pub open spec fn tick_first(rs: Seq<Region>, pending: Seq<INTERRUPT>, n: nat) -> (
    Seq<Region>,
    Seq<INTERRUPT>,
)
    decreases n,
{
    if n == 0 {
        (rs, pending)
    } else {
        let (rs1, p1) = tick_first(rs, pending, (n - 1) as nat);
        let (d, p2) = rs1[n - 1].device.tick(p1);
        (with_device(rs1, n - 1, d), p2)
    }
}

pub proof fn lemma_tick_first_len(rs: Seq<Region>, pending: Seq<INTERRUPT>, n: nat)
    requires
        n <= rs.len(),
    ensures
        tick_first(rs, pending, n).0.len() == rs.len(),
    decreases n,
{
    if n > 0 {
        lemma_tick_first_len(rs, pending, (n - 1) as nat);
    }
}

/// One clock cycle for every device, in mapping order.
pub open spec fn bus_tick(rs: Seq<Region>, pending: Seq<INTERRUPT>) -> (
    Seq<Region>,
    Seq<INTERRUPT>,
) {
    tick_first(rs, pending, rs.len())
}

/// Two bus states with the same regions, whose devices decode the same
/// offsets.
pub open spec fn same_layout(a: Seq<Region>, b: Seq<Region>) -> bool {
    &&& a.len() == b.len()
    &&& forall|i: int|
        0 <= i < a.len() ==> #[trigger] a[i].start == b[i].start && a[i].end == b[i].end
            && a[i].device.same_kind(b[i].device)
}

/// States with the same layout send every address to the same device offset,
/// and agree on which accesses are defined.
pub proof fn lemma_same_layout_access(a: Seq<Region>, b: Seq<Region>, addr: u32)
    requires
        same_layout(a, b),
    ensures
        region_index(a, addr) == region_index(b, addr),
        mapped(a, addr) ==> offset_in(a, addr) == offset_in(b, addr),
        accessible(a, addr) == accessible(b, addr),
{
    lemma_same_layout_find(a, b, addr, 0);
    lemma_find_from(a, addr, 0);
    if mapped(a, addr) {
        let i = region_index(a, addr);
        assert(a[i].start == b[i].start);
        a[i].device.lemma_same_kind_accepts(b[i].device, offset_in(a, addr));
    }
}

proof fn lemma_same_layout_find(a: Seq<Region>, b: Seq<Region>, addr: u32, i: int)
    requires
        same_layout(a, b),
        0 <= i,
    ensures
        find_from(a, addr, i) == find_from(b, addr, i),
    decreases a.len() - i,
{
    if i < a.len() {
        assert(a[i].start == b[i].start && a[i].end == b[i].end);
        lemma_same_layout_find(a, b, addr, i + 1);
    }
}

pub proof fn lemma_same_layout_equiv(a: Seq<Region>, b: Seq<Region>, c: Seq<Region>)
    ensures
        same_layout(a, a),
        same_layout(a, b) ==> same_layout(b, a),
        same_layout(a, b) && same_layout(b, c) ==> same_layout(a, c),
{
    assert forall|i: int| 0 <= i < a.len() implies #[trigger] a[i].device.same_kind(a[i].device) by {
        a[i].device.lemma_same_kind_accepts(a[i].device, 0);
    }
    if same_layout(a, b) {
        assert forall|i: int| 0 <= i < b.len() implies #[trigger] b[i].start == a[i].start
            && b[i].end == a[i].end && b[i].device.same_kind(a[i].device) by {
            assert(a[i].start == b[i].start);
            a[i].device.lemma_same_kind_accepts(b[i].device, 0);
        }
    }
    if same_layout(a, b) && same_layout(b, c) {
        assert forall|i: int| 0 <= i < a.len() implies #[trigger] a[i].start == c[i].start
            && a[i].end == c[i].end && a[i].device.same_kind(c[i].device) by {
            assert(a[i].start == b[i].start);
            assert(b[i].start == c[i].start);
            a[i].device.lemma_same_kind_trans(b[i].device, c[i].device);
        }
    }
}

/// A byte read or write keeps the layout.
pub proof fn lemma_access_keeps_layout(rs: Seq<Region>, addr: u32, value: u8)
    requires
        accessible(rs, addr),
    ensures
        same_layout(bus_read8(rs, addr).0, rs),
        same_layout(bus_write8(rs, addr, value), rs),
{
    lemma_find_from(rs, addr, 0);
    let i = region_index(rs, addr);
    rs[i].device.lemma_ops_keep_kind(offset_in(rs, addr), value, Seq::empty());
    let r1 = bus_read8(rs, addr).0;
    let r2 = bus_write8(rs, addr, value);
    assert forall|j: int| 0 <= j < r1.len() implies #[trigger] r1[j].start == rs[j].start
        && r1[j].end == rs[j].end && r1[j].device.same_kind(rs[j].device) by {
        if j != i {
            rs[j].device.lemma_same_kind_accepts(rs[j].device, 0);
        }
    }
    assert forall|j: int| 0 <= j < r2.len() implies #[trigger] r2[j].start == rs[j].start
        && r2[j].end == rs[j].end && r2[j].device.same_kind(rs[j].device) by {
        if j != i {
            rs[j].device.lemma_same_kind_accepts(rs[j].device, 0);
        }
    }
}

/// Why a byte access to `addr` is undefined.
pub open spec fn fault_at(rs: Seq<Region>, addr: u32) -> MachineFault {
    if mapped(rs, addr) {
        MachineFault::BadRegister(addr)
    } else {
        MachineFault::Unmapped(addr)
    }
}

/// The first undefined byte access among bytes `k..n` from `addr`, if any.
pub open spec fn first_fault(rs: Seq<Region>, addr: u32, k: u32, n: u32) -> Option<MachineFault>
    decreases n - k,
{
    if k >= n {
        None
    } else if !accessible(rs, wrap_add(addr, k)) {
        Some(fault_at(rs, wrap_add(addr, k)))
    } else {
        first_fault(rs, addr, (k + 1) as u32, n)
    }
}

/// There is no undefined byte among the first `n` exactly when all `n` bytes
/// are accessible.
pub proof fn lemma_first_fault(rs: Seq<Region>, addr: u32, k: u32, n: u32)
    requires
        k <= n,
    ensures
        first_fault(rs, addr, k, n) is None <==> forall|j: u32|
            k <= j < n ==> #[trigger] accessible(rs, wrap_add(addr, j)),
    decreases n - k,
{
    if k < n {
        lemma_first_fault(rs, addr, (k + 1) as u32, n);
        if first_fault(rs, addr, k, n) is None {
            assert forall|j: u32| k <= j < n implies #[trigger] accessible(
                rs,
                wrap_add(addr, j),
            ) by {
                if j > k {
                    assert((k + 1) as u32 <= j);
                }
            }
        }
    }
}

/// Every RAM on the bus holds `MEMORY_SIZE` bytes.
pub open spec fn memory_sized(rs: Seq<Region>) -> bool {
    forall|i: int| 0 <= i < rs.len() && (#[trigger] rs[i]).device is Memory ==> rs[i].device.wf()
}

/// A device mapped onto `self.0 ..= self.1`.
pub struct MappedDevice(pub Address, pub Address, pub MmioDevice);

impl View for MappedDevice {
    type V = Region;

    open spec fn view(&self) -> Region {
        Region { start: self.0.0, end: self.1.0, device: self.2@ }
    }
}

pub struct Bus {
    devices: Vec<MappedDevice>,
}

impl View for Bus {
    type V = Seq<Region>;

    closed spec fn view(&self) -> Seq<Region> {
        self.devices@.map_values(|d: MappedDevice| d@)
    }
}

impl Bus {
    /// Every RAM mapped on a bus holds `MEMORY_SIZE` bytes.
    pub proof fn lemma_memory_sized(&self)
        ensures
            memory_sized(self@),
    {
        assert forall|i: int| 0 <= i < self@.len() && (#[trigger] self@[i]).device is Memory
            implies self@[i].device.wf() by {
            if let MmioDevice::Memory(m) = self.devices@[i].2 {
                m.lemma_size();
            }
        }
    }

    /// A bus with nothing mapped.
    pub fn new() -> (r: Self)
        ensures
            r@ == Seq::<Region>::empty(),
    {
        let r = Bus { devices: Vec::new() };
        assert(r@ =~= Seq::<Region>::empty());
        r
    }

    /// Maps a device after those already mapped; earlier mappings take
    /// precedence where ranges overlap.
    pub fn add_device(&mut self, m_device: MappedDevice)
        ensures
            final(self)@ == old(self)@.push(m_device@),
    {
        self.devices.push(m_device);
        assert(self@ =~= old(self)@.push(m_device@));
    }

    /// The index of the device an access to `addr` goes to.
    fn find_device(&self, addr: Address) -> (r: Option<usize>)
        ensures
            match r {
                Some(i) => region_index(self@, addr.0) == i && 0 <= i < self@.len() && covers(
                    self@[i as int],
                    addr.0,
                ),
                None => region_index(self@, addr.0) == -1,
            },
    {
        let n = self.devices.len();
        let mut i: usize = 0;
        while i < n
            invariant
                n == self.devices@.len(),
                n == self@.len(),
                i <= n,
                region_index(self@, addr.0) == find_from(self@, addr.0, i as int),
            decreases n - i,
        {
            let d = &self.devices[i];
            assert(self@[i as int] == d@);
            if d.0.0 <= addr.0 && d.1.0 >= addr.0 {
                return Some(i);
            }
            i = i + 1;
        }
        None
    }

    /// Whether a byte access to `addr` is defined.
    pub fn is_accessible(&self, addr: Address) -> (r: bool)
        ensures
            r == accessible(self@, addr.0),
    {
        match self.find_device(addr) {
            Some(i) => {
                let off = addr.0 - self.devices[i].0.0;
                self.devices[i].2.accepts_offset(off)
            },
            None => false,
        }
    }

    pub fn read8(&mut self, addr: Address) -> (r: u8)
        requires
            accessible(old(self)@, addr.0),
        ensures
            (final(self)@, r) == bus_read8(old(self)@, addr.0),
            same_layout(final(self)@, old(self)@),
    {
        proof {
            lemma_access_keeps_layout(self@, addr.0, 0);
        }
        let i = match self.find_device(addr) {
            Some(i) => i,
            None => 0,
        };
        let off = addr.0 - self.devices[i].0.0;
        let r = self.devices[i].2.read8(Address(off));
        assert(self@ =~= bus_read8(old(self)@, addr.0).0);
        r
    }

    pub fn write8(&mut self, addr: Address, data: u8)
        requires
            accessible(old(self)@, addr.0),
        ensures
            final(self)@ == bus_write8(old(self)@, addr.0, data),
            same_layout(final(self)@, old(self)@),
    {
        proof {
            lemma_access_keeps_layout(self@, addr.0, data);
        }
        let i = match self.find_device(addr) {
            Some(i) => i,
            None => 0,
        };
        let off = addr.0 - self.devices[i].0.0;
        self.devices[i].2.write8(Address(off), data);
        assert(self@ =~= bus_write8(old(self)@, addr.0, data));
    }

    pub fn read16(&mut self, addr: Address) -> (r: u16)
        requires
            accessible_n(old(self)@, addr.0, 2),
        ensures
            (final(self)@, r) == bus_read16(old(self)@, addr.0),
            same_layout(final(self)@, old(self)@),
    {
        reveal(bus_read16);
        let ghost rs0 = self@;
        proof {
            assert(accessible(rs0, wrap_add(addr.0, 0u32)));
        }
        let b1 = self.read8(addr);
        let a1 = addr.offset(1);
        proof {
            assert(accessible(rs0, wrap_add(addr.0, 1u32)));
            lemma_same_layout_access(self@, rs0, a1.0);
        }
        let b2 = self.read8(a1);
        proof {
            lemma_same_layout_equiv(self@, bus_read8(rs0, addr.0).0, rs0);
        }
        b1 as u16 + (b2 as u16) * 256
    }

    pub fn read32(&mut self, addr: Address) -> (r: u32)
        requires
            accessible_n(old(self)@, addr.0, 4),
        ensures
            (final(self)@, r) == bus_read32(old(self)@, addr.0),
            same_layout(final(self)@, old(self)@),
    {
        reveal(bus_read32);
        let ghost rs0 = self@;
        proof {
            assert(accessible(rs0, wrap_add(addr.0, 0u32)));
            assert(accessible(rs0, wrap_add(addr.0, 1u32)));
            assert(accessible(rs0, wrap_add(addr.0, 2u32)));
            assert(accessible(rs0, wrap_add(addr.0, 3u32)));
        }
        let b1 = self.read8(addr);
        let ghost rs1 = self@;
        let a1 = addr.offset(1);
        proof {
            lemma_same_layout_access(rs1, rs0, a1.0);
        }
        let b2 = self.read8(a1);
        let ghost rs2 = self@;
        let a2 = addr.offset(2);
        proof {
            lemma_same_layout_equiv(rs2, rs1, rs0);
            lemma_same_layout_access(rs2, rs0, a2.0);
        }
        let b3 = self.read8(a2);
        let ghost rs3 = self@;
        let a3 = addr.offset(3);
        proof {
            lemma_same_layout_equiv(rs3, rs2, rs0);
            lemma_same_layout_access(rs3, rs0, a3.0);
        }
        let b4 = self.read8(a3);
        proof {
            lemma_same_layout_equiv(self@, rs3, rs0);
        }
        b1 as u32 + (b2 as u32) * 0x100 + (b3 as u32) * 0x1_0000 + (b4 as u32) * 0x100_0000
    }

    pub fn write16(&mut self, addr: Address, value: u16)
        requires
            accessible_n(old(self)@, addr.0, 2),
        ensures
            final(self)@ == bus_write16(old(self)@, addr.0, value),
            same_layout(final(self)@, old(self)@),
    {
        reveal(bus_write16);
        let ghost rs0 = self@;
        proof {
            assert(accessible(rs0, wrap_add(addr.0, 0u32)));
            assert(accessible(rs0, wrap_add(addr.0, 1u32)));
        }
        self.write8(addr, (value % 256) as u8);
        let a1 = addr.offset(1);
        proof {
            lemma_same_layout_access(self@, rs0, a1.0);
        }
        let ghost rs1 = self@;
        self.write8(a1, (value / 256) as u8);
        proof {
            lemma_same_layout_equiv(self@, rs1, rs0);
        }
    }

    pub fn write32(&mut self, addr: Address, value: u32)
        requires
            accessible_n(old(self)@, addr.0, 4),
        ensures
            final(self)@ == bus_write32(old(self)@, addr.0, value),
            same_layout(final(self)@, old(self)@),
    {
        reveal(bus_write32);
        let ghost rs0 = self@;
        proof {
            assert(accessible(rs0, wrap_add(addr.0, 0u32)));
            assert(accessible(rs0, wrap_add(addr.0, 1u32)));
            assert(accessible(rs0, wrap_add(addr.0, 2u32)));
            assert(accessible(rs0, wrap_add(addr.0, 3u32)));
        }
        self.write8(addr, (value % 0x100) as u8);
        let ghost rs1 = self@;
        let a1 = addr.offset(1);
        proof {
            lemma_same_layout_access(rs1, rs0, a1.0);
        }
        self.write8(a1, ((value / 0x100) % 0x100) as u8);
        let ghost rs2 = self@;
        let a2 = addr.offset(2);
        proof {
            lemma_same_layout_equiv(rs2, rs1, rs0);
            lemma_same_layout_access(rs2, rs0, a2.0);
        }
        self.write8(a2, ((value / 0x1_0000) % 0x100) as u8);
        let ghost rs3 = self@;
        let a3 = addr.offset(3);
        proof {
            lemma_same_layout_equiv(rs3, rs2, rs0);
            lemma_same_layout_access(rs3, rs0, a3.0);
        }
        self.write8(a3, (value / 0x100_0000) as u8);
        proof {
            lemma_same_layout_equiv(self@, rs3, rs0);
        }
    }

    /// One clock cycle for every device, in mapping order; devices may raise
    /// interrupts.
    pub fn tick_all(&mut self, int_controller: &mut InterruptController)
        ensures
            (final(self)@, final(int_controller)@) == bus_tick(old(self)@, old(int_controller)@),
    {
        let n = self.devices.len();
        let mut i: usize = 0;
        proof {
            lemma_tick_first_len(self@, int_controller@, 0);
        }
        while i < n
            invariant
                n == old(self)@.len(),
                i <= n,
                (self@, int_controller@) == tick_first(old(self)@, old(int_controller)@, i as nat),
            decreases n - i,
        {
            proof {
                lemma_tick_first_len(old(self)@, old(int_controller)@, i as nat);
            }
            let ghost rs = self@;
            let ghost p = int_controller@;
            self.devices[i].2.tick(int_controller);
            proof {
                assert(self@ =~= with_device(rs, i as int, rs[i as int].device.tick(p).0));
            }
            i = i + 1;
        }
    }

    /// The number of mapped devices.
    pub fn device_count(&self) -> (r: usize)
        ensures
            r == self@.len(),
    {
        self.devices.len()
    }

    /// The `index`-th mapped device.
    pub fn device(&self, index: usize) -> (r: &MmioDevice)
        requires
            index < self@.len(),
        ensures
            r@ == self@[index as int].device,
    {
        &self.devices[index].2
    }

    /// Mutable access to the `index`-th mapped device, for the host to deliver
    /// input to it or collect output from it; its range stays as mapped.
    pub fn device_mut(&mut self, index: usize) -> (r: &mut MmioDevice)
        requires
            index < old(self)@.len(),
        ensures
            r@ == old(self)@[index as int].device,
            final(self)@ == with_device(old(self)@, index as int, final(r)@),
    {
        &mut self.devices[index].2
    }

    /// The first undefined byte access among the `n` bytes from `addr`.
    pub fn check_access(&self, addr: Address, n: u32) -> (r: Option<MachineFault>)
        ensures
            r == first_fault(self@, addr.0, 0, n),
            r is None <==> accessible_n(self@, addr.0, n as nat),
    {
        proof {
            lemma_first_fault(self@, addr.0, 0, n);
        }
        let mut k: u32 = 0;
        while k < n
            invariant
                k <= n,
                first_fault(self@, addr.0, 0, n) == first_fault(self@, addr.0, k, n),
            decreases n - k,
        {
            let a = addr.offset(k);
            if !self.is_accessible(a) {
                return match self.find_device(a) {
                    Some(_) => Some(MachineFault::BadRegister(a.0)),
                    None => Some(MachineFault::Unmapped(a.0)),
                };
            }
            k = k + 1;
        }
        None
    }
}

} // verus!
