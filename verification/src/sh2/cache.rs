//! SH7604 CPU cache
//!
//! This is a 4-way set-associative cache that uses a pseudo-LRU algorithm for cache replacement.
//!
//! Cache replacement is performed when a cached read misses. The cache is write-through, so writes
//! will only update cache if there is a cache hit.
//!
//! WWF Raw (32X) depends on CPU cache emulation because it writes to cartridge ROM addresses and
//! expects to be able to read back the written values from CPU cache.
use crate::sh2::bus::{AccessContext, BusInterface};
use vstd::prelude::*;

verus! {

pub const CACHE_RAM_LEN: usize = 4096;

pub const WAYS: usize = 4;

// Cache lines are 16 bytes and there are 4 ways in each cache line
// 4096 / 16 / 4 = 64
pub const CACHE_ENTRIES: usize = 64;

#[derive(Debug, Clone, Copy, PartialEq, Eq, Structural)]
pub enum CacheMode {
    FourWay,
    TwoWay,
}

#[derive(Debug, Clone, Copy, PartialEq, Eq, Structural)]
pub struct CacheControlRegister {
    // Specifies which way is accessed when the address array is accessed directly
    pub way: u8,
    pub mode: CacheMode,
    pub disable_data_replacement: bool,
    pub disable_instruction_replacement: bool,
    pub cache_enabled: bool,
}

/// The CCR value of a control register.
pub open spec fn ccr_spec(c: CacheControlRegister) -> u8 {
    (c.way << 6) | (if c.mode == CacheMode::TwoWay { 8u8 } else { 0u8 }) | (
    if c.disable_data_replacement {
        4u8
    } else {
        0u8
    }) | (if c.disable_instruction_replacement { 2u8 } else { 0u8 }) | (if c.cache_enabled {
        1u8
    } else {
        0u8
    })
}

/// The control register described by a CCR value (the purge bit is not stored).
pub open spec fn ccr_from_spec(value: u8) -> CacheControlRegister {
    CacheControlRegister {
        way: value >> 6,
        mode: if value & 8 != 0 {
            CacheMode::TwoWay
        } else {
            CacheMode::FourWay
        },
        disable_data_replacement: value & 4 != 0,
        disable_instruction_replacement: value & 2 != 0,
        cache_enabled: value & 1 != 0,
    }
}

impl CacheControlRegister {
    pub fn new() -> (r: Self)
        ensures
            r == (CacheControlRegister {
                way: 0,
                mode: CacheMode::FourWay,
                disable_data_replacement: false,
                disable_instruction_replacement: false,
                cache_enabled: false,
            }),
    {
        CacheControlRegister {
            way: 0,
            mode: CacheMode::FourWay,
            disable_data_replacement: false,
            disable_instruction_replacement: false,
            cache_enabled: false,
        }
    }

    fn read(&self) -> (r: u8)
        ensures
            r == ccr_spec(*self),
    {
        (self.way << 6) | (if self.mode == CacheMode::TwoWay { 8u8 } else { 0u8 }) | (
        if self.disable_data_replacement {
            4u8
        } else {
            0u8
        }) | (if self.disable_instruction_replacement { 2u8 } else { 0u8 }) | (
        if self.cache_enabled {
            1u8
        } else {
            0u8
        })
    }

    fn write(&mut self, value: u8)
        ensures
            *final(self) == ccr_from_spec(value),
    {
        self.way = value >> 6;
        self.mode = if value & 8 != 0 {
            CacheMode::TwoWay
        } else {
            CacheMode::FourWay
        };
        self.disable_data_replacement = value & 4 != 0;
        self.disable_instruction_replacement = value & 2 != 0;
        self.cache_enabled = value & 1 != 0;
    }
}

/// Writing CCR and reading it back gives the written value without the purge bit (bit 4) and
/// the unused bit 5.
pub proof fn lemma_ccr_write_read(value: u8)
    ensures
        ccr_spec(ccr_from_spec(value)) == value & 0xCF,
{
    let a: u8 = if value & 8 != 0 { 8 } else { 0 };
    let b: u8 = if value & 4 != 0 { 4 } else { 0 };
    let c: u8 = if value & 2 != 0 { 2 } else { 0 };
    let d: u8 = if value & 1 != 0 { 1 } else { 0 };
    assert(((value >> 6) << 6) | a | b | c | d == value & 0xCF) by (bit_vector)
        requires
            a == (if value & 8 != 0 { 8u8 } else { 0u8 }),
            b == (if value & 4 != 0 { 4u8 } else { 0u8 }),
            c == (if value & 2 != 0 { 2u8 } else { 0u8 }),
            d == (if value & 1 != 0 { 1u8 } else { 0u8 }),
    ;
}

#[derive(Debug, Clone, Copy)]
pub struct Way {
    // Tag is address bits 10-28
    pub tags: [u32; 64],
    pub valid_bits: u64,
}

impl Way {
    fn new() -> (r: Self)
        ensures
            r.valid_bits == 0,
            forall|i: int| 0 <= i < 64 ==> r.tags[i] == 0,
    {
        Self { tags: [0u32; 64], valid_bits: 0 }
    }
}

/// A cache line read from the bus on a miss: the line's address and its four longwords, as
/// the bus returned them.
#[derive(Debug, Clone, Copy)]
pub struct LineRead {
    pub address: u32,
    pub longwords: [u32; 4],
}

/// The SH-2 cache. Alongside its state it keeps a ghost record of the lines it has read from
/// the bus, in order.
#[derive(Clone)]
pub struct CpuCache {
    pub ram: [u8; 4096],
    pub ways: [Way; 4],
    pub lru_bits: [u8; 64],
    pub control: CacheControlRegister,
    pub line_reads: Ghost<Seq<LineRead>>,
}

/// Cache entry (line index within a way): address bits 4-9.
pub open spec fn entry_index(address: u32) -> int {
    ((address >> 4) & 0x3F) as int
}

/// Cache tag: address bits 10-28.
pub open spec fn tag_spec(address: u32) -> u32 {
    (address & 0x1FFFFFFF) >> 10
}

/// Offset of the first byte of a line in cache RAM.
pub open spec fn ram_addr_spec(way: int, entry: int) -> int {
    way * 1024 + entry * 16
}

pub open spec fn valid_spec(bits: u64, entry: int) -> bool {
    (bits >> (entry as u64)) & 1 == 1
}

/// Whether a way holds the line of an address.
pub open spec fn way_hit(c: CpuCache, w: int, address: u32) -> bool {
    valid_spec(c.ways[w].valid_bits, entry_index(address)) && c.ways[w].tags[entry_index(address)]
        == tag_spec(address)
}

/// The way that holds the line of an address, searching from way 3 down to way 0.
pub open spec fn hit_way(c: CpuCache, address: u32) -> Option<usize> {
    if way_hit(c, 3, address) {
        Some(3)
    } else if way_hit(c, 2, address) {
        Some(2)
    } else if way_hit(c, 1, address) {
        Some(1)
    } else if way_hit(c, 0, address) {
        Some(0)
    } else {
        None
    }
}

/// Pseudo-LRU bits after an access to a way.
/// Bit 5: 0 -> 1; bit 4: 0 -> 2; bit 3: 0 -> 3; bit 2: 1 -> 2; bit 1: 1 -> 3; bit 0: 2 -> 3.
pub open spec fn lru_update_spec(bits: u8, way: int) -> u8 {
    if way == 0 {
        bits & 0xC7
    } else if way == 1 {
        (bits & 0xF9) | 0x20
    } else if way == 2 {
        (bits & 0xFE) | 0x14
    } else {
        bits | 0x0B
    }
}

/// The way that a miss replaces, chosen from the entry's pseudo-LRU bits.
pub open spec fn replace_way_spec(bits: u8, mode: CacheMode) -> int {
    match mode {
        CacheMode::FourWay => {
            if bits & 0x0B == 0 {
                3
            } else if bits & 0x15 == 0x01 {
                2
            } else if bits & 0x26 == 0x06 {
                1
            } else {
                0
            }
        },
        CacheMode::TwoWay => if bits & 1 != 0 {
            2
        } else {
            3
        },
    }
}

/// Big-endian 16-bit value at an offset of a byte sequence.
pub open spec fn be16(s: Seq<u8>, a: int) -> u16 {
    (s[a] as u16 * 256 + s[a + 1] as u16) as u16
}

/// Big-endian 32-bit value at an offset of a byte sequence.
pub open spec fn be32(s: Seq<u8>, a: int) -> u32 {
    (s[a] as u32 * 0x1000000 + s[a + 1] as u32 * 0x10000 + s[a + 2] as u32 * 0x100 + s[a
        + 3] as u32) as u32
}

/// The cache after an access to a way of an entry: only that entry's LRU bits change.
pub open spec fn touched(c: CpuCache, old: CpuCache, w: int, e: int) -> bool {
    &&& c.ram@ == old.ram@
    &&& c.ways@ == old.ways@
    &&& c.control == old.control
    &&& c.lru_bits@ == old.lru_bits@.update(e, lru_update_spec(old.lru_bits[e], w))
    &&& c.line_reads == old.line_reads
}

/// Cache state that a cached read leaves: a hit updates the LRU bits, a miss or a disabled cache
/// leaves everything unchanged.
pub open spec fn after_lookup(c: CpuCache, old: CpuCache, address: u32) -> bool {
    if old.control.cache_enabled && hit_way(old, address) is Some {
        touched(c, old, hit_way(old, address)->0 as int, entry_index(address))
    } else {
        c == old
    }
}

fn cache_ram_addr(way_idx: usize, entry_idx: usize) -> (r: usize)
    requires
        way_idx < 4,
        entry_idx < 64,
    ensures
        r == ram_addr_spec(way_idx as int, entry_idx as int),
        r + 16 <= 4096,
        r % 16 == 0,
{
    assert((way_idx << 10) | (entry_idx << 4) == way_idx * 1024 + entry_idx * 16) by (bit_vector)
        requires
            way_idx < 4,
            entry_idx < 64,
    ;
    (way_idx << 10) | (entry_idx << 4)
}

fn cache_entry_index(address: u32) -> (r: usize)
    ensures
        r == entry_index(address),
        r < 64,
{
    // Cache is indexed using address bits 4-9
    proof {
        crate::bit_facts::lemma_u32_fields(address);
    }
    ((address >> 4) & 0x3F) as usize
}

fn tag_address(address: u32) -> (r: u32)
    ensures
        r == tag_spec(address),
        r < 0x80000,
{
    // Cache entries are tagged using address bits 10-28
    proof {
        crate::bit_facts::lemma_u32_fields(address);
    }
    (address & 0x1FFFFFFF) >> 10
}

impl CpuCache {
    pub fn new() -> (r: Self)
        ensures
            r.control == CacheControlRegister::spec_new(),
            forall|i: int| 0 <= i < 4096 ==> r.ram[i] == 0,
            forall|i: int| 0 <= i < 64 ==> r.lru_bits[i] == 0,
            forall|w: int| 0 <= w < 4 ==> (#[trigger] r.ways[w]).valid_bits == 0,
            r.line_reads@ == Seq::<LineRead>::empty(),
    {
        Self {
            ram: [0u8; 4096],
            ways: [Way::new(), Way::new(), Way::new(), Way::new()],
            lru_bits: [0u8; 64],
            control: CacheControlRegister::new(),
            line_reads: Ghost(Seq::empty()),
        }
    }

    /// Finds the way that holds an address's line (searching from way 3 down, as is fastest in
    /// 2-way mode) and marks it most recently used.
    fn lookup(&mut self, address: u32) -> (r: Option<usize>)
        ensures
            r == (if old(self).control.cache_enabled {
                hit_way(*old(self), address)
            } else {
                None
            }),
            after_lookup(*final(self), *old(self), address),
    {
        if !self.control.cache_enabled {
            return None;
        }
        let entry_idx = cache_entry_index(address);
        let tag = tag_address(address);
        let mut way_idx: usize = 4;
        while way_idx > 0
            invariant
                way_idx <= 4,
                *self == *old(self),
                self.control.cache_enabled,
                entry_idx == entry_index(address),
                entry_idx < 64,
                tag == tag_spec(address),
                forall|w: int| way_idx <= w < 4 ==> !way_hit(*self, w, address),
            decreases way_idx,
        {
            way_idx -= 1;
            let way = self.ways[way_idx];
            if (way.valid_bits >> (entry_idx as u64)) & 1 == 1 && way.tags[entry_idx] == tag {
                self.update_lru_bits(way_idx, entry_idx);
                return Some(way_idx);
            }
        }
        None
    }

    pub fn read_u8(&mut self, address: u32) -> (r: Option<u8>)
        ensures
            after_lookup(*final(self), *old(self), address),
            r == (if old(self).control.cache_enabled && hit_way(*old(self), address) is Some {
                Some(
                    old(self).ram[ram_addr_spec(
                        hit_way(*old(self), address)->0 as int,
                        entry_index(address),
                    ) + (address & 0xF)],
                )
            } else {
                None
            }),
    {
        match self.lookup(address) {
            Some(way_idx) => {
                let entry_idx = cache_entry_index(address);
                let base = cache_ram_addr(way_idx, entry_idx);
                proof {
            crate::bit_facts::lemma_u32_fields(address);
        }
                let a = base + (address & 0xF) as usize;
                Some(self.ram[a])
            },
            None => None,
        }
    }

    pub fn read_u16(&mut self, address: u32) -> (r: Option<u16>)
        ensures
            after_lookup(*final(self), *old(self), address),
            r == (if old(self).control.cache_enabled && hit_way(*old(self), address) is Some {
                Some(
                    be16(
                        old(self).ram@,
                        ram_addr_spec(hit_way(*old(self), address)->0 as int, entry_index(address))
                            + (address & 0xE),
                    ),
                )
            } else {
                None
            }),
    {
        match self.lookup(address) {
            Some(way_idx) => {
                let entry_idx = cache_entry_index(address);
                let base = cache_ram_addr(way_idx, entry_idx);
                proof {
            crate::bit_facts::lemma_u32_fields(address);
        }
                let a = base + (address & 0xE) as usize;
                Some((self.ram[a] as u16) * 256 + self.ram[a + 1] as u16)
            },
            None => None,
        }
    }

    pub fn read_u32(&mut self, address: u32) -> (r: Option<u32>)
        ensures
            after_lookup(*final(self), *old(self), address),
            r == (if old(self).control.cache_enabled && hit_way(*old(self), address) is Some {
                Some(
                    be32(
                        old(self).ram@,
                        ram_addr_spec(hit_way(*old(self), address)->0 as int, entry_index(address))
                            + (address & 0xC),
                    ),
                )
            } else {
                None
            }),
    {
        match self.lookup(address) {
            Some(way_idx) => {
                let entry_idx = cache_entry_index(address);
                let base = cache_ram_addr(way_idx, entry_idx);
                proof {
            crate::bit_facts::lemma_u32_fields(address);
        }
                let a = base + (address & 0xC) as usize;
                Some(read_be32(&self.ram, a))
            },
            None => None,
        }
    }

    /// The way that a miss on an address replaces.
    pub open spec fn victim(self, address: u32) -> int {
        replace_way_spec(self.lru_bits[entry_index(address)], self.control.mode)
    }

    /// Offset in cache RAM of the line that a miss on an address fills.
    pub open spec fn line_base(self, address: u32) -> int {
        ram_addr_spec(self.victim(address), entry_index(address))
    }

    pub fn should_replace_instruction(&self) -> (r: bool)
        ensures
            r == (self.control.cache_enabled && !self.control.disable_instruction_replacement),
    {
        self.control.cache_enabled && !self.control.disable_instruction_replacement
    }

    pub fn should_replace_data(&self) -> (r: bool)
        ensures
            r == (self.control.cache_enabled && !self.control.disable_data_replacement),
    {
        self.control.cache_enabled && !self.control.disable_data_replacement
    }

    /// Loads the line of an address from the bus into the way chosen by the entry's pseudo-LRU
    /// bits, marks it valid and most recently used, and returns the longword of the line that
    /// holds the address.
    pub fn replace<B: BusInterface>(&mut self, address: u32, bus: &mut B, ctx: AccessContext) -> (r:
        u32)
        ensures
            final(self).control == old(self).control,
            final(self).ways[old(self).victim(address)].tags[entry_index(address)] == tag_spec(
                address,
            ),
            valid_spec(final(self).ways[old(self).victim(address)].valid_bits, entry_index(address)),
            forall|x: int|
                0 <= x < 64 && x != entry_index(address) ==> (#[trigger] final(self).ways[old(
                    self).victim(address)].tags[x]) == old(self).ways[old(self).victim(
                    address)].tags[x] && valid_spec(
                    final(self).ways[old(self).victim(address)].valid_bits,
                    x,
                ) == valid_spec(old(self).ways[old(self).victim(address)].valid_bits, x),
            forall|v: int|
                0 <= v < 4 && v != old(self).victim(address) ==> #[trigger] final(self).ways[v]
                    == old(self).ways[v],
            final(self).lru_bits@ == old(self).lru_bits@.update(
                entry_index(address),
                lru_update_spec(old(self).lru_bits[entry_index(address)], old(self).victim(address)),
            ),
            forall|i: int|
                0 <= i < 4096 && !(old(self).line_base(address) <= i < old(self).line_base(address)
                    + 16) ==> #[trigger] final(self).ram@[i] == old(self).ram@[i],
            r == be32(final(self).ram@, old(self).line_base(address) + ((address >> 2) & 3) * 4),
            ({
                let read = final(self).line_reads@.last();
                &&& final(self).line_reads@ == old(self).line_reads@.push(read)
                &&& read.address == address & 0x1FFFFFF0
                &&& read.address <= 0x1FFF_FFFF
                &&& forall|k: int|
                    0 <= k < 4 ==> #[trigger] be32(final(self).ram@, old(self).line_base(address) + 4 * k)
                        == read.longwords[k]
            }),
    {
        let entry_idx = cache_entry_index(address);
        let lru_bits = self.lru_bits[entry_idx];
        let way_idx: usize = match self.control.mode {
            CacheMode::FourWay => {
                if lru_bits & 0x0B == 0 {
                    3
                } else if lru_bits & 0x15 == 0x01 {
                    2
                } else if lru_bits & 0x26 == 0x06 {
                    1
                } else {
                    0
                }
            },
            CacheMode::TwoWay => {
                if lru_bits & 1 != 0 {
                    2
                } else {
                    3
                }
            },
        };

        let mut way = self.ways[way_idx];
        let tag = tag_address(address);
        let old_bits = way.valid_bits;
        way.tags[entry_idx] = tag;
        way.valid_bits = way.valid_bits | (1u64 << (entry_idx as u64));
        assert forall|x: int| 0 <= x < 64 implies #[trigger] valid_spec(way.valid_bits, x) == (x
            == entry_idx as int || valid_spec(old_bits, x)) by {
            crate::bit_facts::lemma_u64_bit_update(old_bits, entry_idx as u64, x as u64);
        }
        proof {
            crate::bit_facts::lemma_u64_bit_update(old_bits, entry_idx as u64, entry_idx as u64);
        }
        assert(valid_spec(way.valid_bits, entry_idx as int));
        self.ways[way_idx] = way;
        self.update_lru_bits(way_idx, entry_idx);

        let longwords = bus.read_cache_line(address & 0x1FFFFFF0, ctx);
        assert(address & 0x1FFFFFF0 <= 0x1FFF_FFFF) by (bit_vector);
        self.line_reads = Ghost(
            self.line_reads@.push(LineRead { address: address & 0x1FFFFFF0, longwords }),
        );
        let base = cache_ram_addr(way_idx, entry_idx);
        let ghost ram_before = self.ram@;
        let ghost ways_snap = self.ways;
        let ghost lru_snap = self.lru_bits;
        let mut i: usize = 0;
        while i < 4
            invariant
                i <= 4,
                self.ways == ways_snap,
                self.lru_bits == lru_snap,
                self.control == old(self).control,
                self.line_reads@ == old(self).line_reads@.push(
                    LineRead { address: address & 0x1FFFFFF0, longwords },
                ),
                base + 16 <= 4096,
                base == ram_addr_spec(way_idx as int, entry_idx as int),
                forall|j: int|
                    0 <= j < 4096 && !(base <= j < base + 4 * i) ==> #[trigger] self.ram@[j]
                        == ram_before[j],
                forall|k: int|
                    0 <= k < i ==> #[trigger] be32(self.ram@, base + 4 * k) == longwords[k],
            decreases 4 - i,
        {
            let ghost before = self.ram@;
            write_be32(&mut self.ram, base + 4 * i, longwords[i]);
            assert(be32(self.ram@, base + 4 * i) == longwords[i as int]);
            assert forall|k: int| 0 <= k < i implies #[trigger] be32(self.ram@, base + 4 * k)
                == longwords[k] by {
                assert(be32(before, base + 4 * k) == longwords[k]);
                assert(self.ram@[base + 4 * k] == before[base + 4 * k]);
                assert(self.ram@[base + 4 * k + 1] == before[base + 4 * k + 1]);
                assert(self.ram@[base + 4 * k + 2] == before[base + 4 * k + 2]);
                assert(self.ram@[base + 4 * k + 3] == before[base + 4 * k + 3]);
            }
            i += 1;
        }
        proof {
            crate::bit_facts::lemma_u32_fields(address);
        }
        let word_idx = ((address >> 2) & 3) as usize;
        assert(be32(self.ram@, base + 4 * (word_idx as int)) == longwords[word_idx as int]);
        assert(self.ways[way_idx as int] == way);
        longwords[word_idx]
    }

    fn update_lru_bits(&mut self, way_idx: usize, entry_idx: usize)
        requires
            way_idx < 4,
            entry_idx < 64,
        ensures
            touched(*final(self), *old(self), way_idx as int, entry_idx as int),
    {
        let bits = self.lru_bits[entry_idx];
        let updated = if way_idx == 0 {
            // Clear bits 5-3
            bits & 0xC7
        } else if way_idx == 1 {
            // Clear bits 2-1 and set bit 5
            (bits & 0xF9) | 0x20
        } else if way_idx == 2 {
            // Clear bit 0 and set bits 4 and 2
            (bits & 0xFE) | 0x14
        } else {
            // Set bits 3, 1, and 0
            bits | 0x0B
        };
        self.lru_bits[entry_idx] = updated;
    }

    pub fn write_through_u8(&mut self, address: u32, value: u8)
        ensures
            write_through_u8_post(*final(self), *old(self), address, value),
    {
        match self.lookup(address) {
            Some(way_idx) => {
                let entry_idx = cache_entry_index(address);
                let base = cache_ram_addr(way_idx, entry_idx);
                proof {
            crate::bit_facts::lemma_u32_fields(address);
        }
                let a = base + (address & 0xF) as usize;
                self.ram[a] = value;
            },
            None => {},
        }
    }

    pub fn write_through_u16(&mut self, address: u32, value: u16)
        ensures
            write_through_u16_post(*final(self), *old(self), address, value),
    {
        match self.lookup(address) {
            Some(way_idx) => {
                let entry_idx = cache_entry_index(address);
                let base = cache_ram_addr(way_idx, entry_idx);
                proof {
            crate::bit_facts::lemma_u32_fields(address);
        }
                let a = base + (address & 0xE) as usize;
                self.ram[a] = (value / 256) as u8;
                self.ram[a + 1] = (value % 256) as u8;
            },
            None => {},
        }
    }

    pub fn write_through_u32(&mut self, address: u32, value: u32)
        ensures
            write_through_u32_post(*final(self), *old(self), address, value),
    {
        match self.lookup(address) {
            Some(way_idx) => {
                let entry_idx = cache_entry_index(address);
                let base = cache_ram_addr(way_idx, entry_idx);
                proof {
            crate::bit_facts::lemma_u32_fields(address);
        }
                let a = base + (address & 0xC) as usize;
                write_be32(&mut self.ram, a, value);
            },
            None => {},
        }
    }

    // $FFFFFE92: CCR (Cache control register)
    pub fn read_control(&self) -> (r: u8)
        ensures
            r == ccr_spec(self.control),
    {
        self.control.read()
    }

    // $FFFFFE92: CCR (Cache control register)
    pub fn write_control(&mut self, value: u8)
        ensures
            final(self).control == ccr_from_spec(value),
            final(self).ram@ == old(self).ram@,
            final(self).line_reads == old(self).line_reads,
            value & 0x10 == 0 ==> final(self).ways@ == old(self).ways@ && final(self).lru_bits@
                == old(self).lru_bits@,
            value & 0x10 != 0 ==> final(self).purged(*old(self)),
    {
        self.control.write(value);
        if value & 0x10 != 0 {
            self.purge_all();
        }
    }

    /// All lines invalid and LRU bits cleared; tags and RAM kept.
    pub open spec fn purged(self, old: CpuCache) -> bool {
        &&& self.ram@ == old.ram@
        &&& self.line_reads == old.line_reads
        &&& forall|w: int|
            0 <= w < 4 ==> (#[trigger] self.ways[w]).valid_bits == 0 && self.ways[w].tags
                == old.ways[w].tags
        &&& forall|e: int| 0 <= e < 64 ==> #[trigger] self.lru_bits[e] == 0
    }

    pub fn purge_all(&mut self)
        ensures
            final(self).purged(*old(self)),
            final(self).control == old(self).control,
    {
        let mut w: usize = 0;
        while w < 4
            invariant
                w <= 4,
                self.ram@ == old(self).ram@,
                self.control == old(self).control,
                self.line_reads == old(self).line_reads,
                self.lru_bits@ == old(self).lru_bits@,
                forall|v: int|
                    0 <= v < w ==> (#[trigger] self.ways[v]).valid_bits == 0 && self.ways[v].tags
                        == old(self).ways[v].tags,
                forall|v: int| w <= v < 4 ==> #[trigger] self.ways[v] == old(self).ways[v],
            decreases 4 - w,
        {
            let mut way = self.ways[w];
            way.valid_bits = 0;
            self.ways[w] = way;
            w += 1;
        }
        let mut e: usize = 0;
        while e < 64
            invariant
                e <= 64,
                self.ram@ == old(self).ram@,
                self.control == old(self).control,
                self.line_reads == old(self).line_reads,
                forall|v: int|
                    0 <= v < 4 ==> (#[trigger] self.ways[v]).valid_bits == 0 && self.ways[v].tags
                        == old(self).ways[v].tags,
                forall|x: int| 0 <= x < e ==> #[trigger] self.lru_bits[x] == 0,
            decreases 64 - e,
        {
            self.lru_bits[e] = 0;
            e += 1;
        }
    }

    // A29-31 = 010
    /// Invalidates the line of an address's entry in every way and clears its LRU bits.
    pub fn associative_purge(&mut self, address: u32)
        ensures
            purge_post(*final(self), *old(self), address),
    {
        // Invalidates a single cache line
        let idx = cache_entry_index(address);
        let mask: u64 = !(1u64 << (idx as u64));
        let mut w: usize = 0;
        while w < 4
            invariant
                w <= 4,
                idx == entry_index(address),
                mask == !(1u64 << (idx as u64)),
                self.ram@ == old(self).ram@,
                self.control == old(self).control,
                self.line_reads == old(self).line_reads,
                self.lru_bits@ == old(self).lru_bits@,
                forall|v: int|
                    0 <= v < w ==> (#[trigger] self.ways[v]).valid_bits == old(
                        self).ways[v].valid_bits & mask && self.ways[v].tags == old(
                        self).ways[v].tags,
                forall|v: int| w <= v < 4 ==> #[trigger] self.ways[v] == old(self).ways[v],
            decreases 4 - w,
        {
            let mut way = self.ways[w];
            way.valid_bits = way.valid_bits & mask;
            self.ways[w] = way;
            w += 1;
        }
        assert forall|v: int, x: int| 0 <= v < 4 && 0 <= x < 64 implies #[trigger] valid_spec(
            self.ways[v].valid_bits,
            x,
        ) == (x != entry_index(address) && valid_spec(old(self).ways[v].valid_bits, x)) by {
            crate::bit_facts::lemma_u64_bit_update(old(self).ways[v].valid_bits, idx as u64, x as u64);
        }
        // TODO should associative purge clear the LRU bits?
        self.lru_bits[idx] = 0;
    }

    pub open spec fn address_array_spec(&self, address: u32) -> u32 {
        let e = entry_index(address);
        let w = (self.control.way & 3) as int;
        ((if valid_spec(self.ways[w].valid_bits, e) { 1u32 } else { 0u32 }) << 1) | ((
        self.lru_bits[e] as u32) << 3) | (self.ways[w].tags[e] << 10)
    }

    // A29-31 = 011
    pub fn read_address_array(&self, address: u32) -> (r: u32)
        ensures
            r == self.address_array_spec(address),
    {
        let entry_idx = cache_entry_index(address);
        let wv = self.control.way;
        proof {
            crate::bit_facts::lemma_u8_fields(wv);
        }
        let way_idx = (self.control.way & 3) as usize;
        let way = self.ways[way_idx];
        let valid = (way.valid_bits >> (entry_idx as u64)) & 1 == 1;
        ((if valid { 1u32 } else { 0u32 }) << 1) | ((self.lru_bits[entry_idx] as u32) << 3) | (
        way.tags[entry_idx] << 10)
    }

    // A29-31 = 011
    pub fn write_address_array(&mut self, address: u32, value: u32)
        ensures
            address_array_written(*final(self), *old(self), address, value),
    {
        let entry_idx = cache_entry_index(address);
        let wv = self.control.way;
        proof {
            crate::bit_facts::lemma_u8_fields(wv);
        }
        let way_idx = (self.control.way & 3) as usize;
        let tag = tag_address(address);
        let valid = address & 2 != 0;
        let lru_bits = ((value >> 3) & 0x3F) as u8;

        let mut way = self.ways[way_idx];
        let b = way.valid_bits;
        if valid {
            way.valid_bits = b | (1u64 << (entry_idx as u64));
        } else {
            way.valid_bits = b & !(1u64 << (entry_idx as u64));
        }
        assert forall|x: int| 0 <= x < 64 implies valid_spec(way.valid_bits, x) == (if x
            == entry_idx as int {
            valid
        } else {
            valid_spec(b, x)
        }) by {
            crate::bit_facts::lemma_u64_bit_update(b, entry_idx as u64, x as u64);
            crate::bit_facts::lemma_u64_bit_update(b, entry_idx as u64, x as u64);
        }
        way.tags[entry_idx] = tag;
        self.ways[way_idx] = way;
        self.lru_bits[entry_idx] = lru_bits;
    }

    // A29-31 = 110
    pub fn read_data_array_u8(&self, address: u32) -> (r: u8)
        ensures
            r == self.ram[(address & 0xFFF) as int],
    {
        proof {
            crate::bit_facts::lemma_u32_fields(address);
        }
        self.ram[(address & 0xFFF) as usize]
    }

    // A29-31 = 110
    pub fn read_data_array_u16(&self, address: u32) -> (r: u16)
        ensures
            r == be16(self.ram@, (address & 0xFFE) as int),
    {
        proof {
            crate::bit_facts::lemma_u32_fields(address);
        }
        let a = (address & 0xFFE) as usize;
        (self.ram[a] as u16) * 256 + self.ram[a + 1] as u16
    }

    // A29-31 = 110
    pub fn read_data_array_u32(&self, address: u32) -> (r: u32)
        ensures
            r == be32(self.ram@, (address & 0xFFC) as int),
    {
        proof {
            crate::bit_facts::lemma_u32_fields(address);
        }
        read_be32(&self.ram, (address & 0xFFC) as usize)
    }

    // A29-31 = 110
    pub fn write_data_array_u8(&mut self, address: u32, value: u8)
        ensures
            data_array_u8_written(*final(self), *old(self), address, value),
    {
        proof {
            crate::bit_facts::lemma_u32_fields(address);
        }
        self.ram[(address & 0xFFF) as usize] = value;
    }

    // A29-31 = 110
    pub fn write_data_array_u16(&mut self, address: u32, value: u16)
        ensures
            data_array_u16_written(*final(self), *old(self), address, value),
    {
        proof {
            crate::bit_facts::lemma_u32_fields(address);
        }
        let a = (address & 0xFFE) as usize;
        self.ram[a] = (value / 256) as u8;
        self.ram[a + 1] = (value % 256) as u8;
    }

    // A29-31 = 110
    pub fn write_data_array_u32(&mut self, address: u32, value: u32)
        ensures
            data_array_u32_written(*final(self), *old(self), address, value),
    {
        proof {
            crate::bit_facts::lemma_u32_fields(address);
        }
        write_be32(&mut self.ram, (address & 0xFFC) as usize, value);
    }
}

impl CacheControlRegister {
    pub open spec fn spec_new() -> CacheControlRegister {
        CacheControlRegister {
            way: 0,
            mode: CacheMode::FourWay,
            disable_data_replacement: false,
            disable_instruction_replacement: false,
            cache_enabled: false,
        }
    }
}

fn read_be32(ram: &[u8; 4096], a: usize) -> (r: u32)
    requires
        a + 4 <= 4096,
    ensures
        r == be32(ram@, a as int),
{
    (ram[a] as u32) * 0x1000000 + (ram[a + 1] as u32) * 0x10000 + (ram[a + 2] as u32) * 0x100 + (ram[a
        + 3] as u32)
}

fn write_be32(ram: &mut [u8; 4096], a: usize, value: u32)
    requires
        a + 4 <= 4096,
    ensures
        be32(final(ram)@, a as int) == value,
        forall|i: int| 0 <= i < 4096 && !(a <= i < a + 4) ==> #[trigger] final(ram)@[i] == old(ram)@[i],
{
    ram[a] = (value / 0x1000000) as u8;
    ram[a + 1] = ((value / 0x10000) % 0x100) as u8;
    ram[a + 2] = ((value / 0x100) % 0x100) as u8;
    ram[a + 3] = (value % 0x100) as u8;
    assert(((value / 0x1000000) as u8) as u32 * 0x1000000 + (((value / 0x10000) % 0x100) as u8) as u32
        * 0x10000 + (((value / 0x100) % 0x100) as u8) as u32 * 0x100 + ((value % 0x100) as u8) as u32
        == value) by (bit_vector);
}

/// A byte written through the cache: on a hit of the enabled cache the byte of the line is
/// updated and the line made most recently used; otherwise the cache is unchanged.
pub open spec fn write_through_u8_post(after: CpuCache, before: CpuCache, address: u32, value: u8) -> bool {
    &&& after.line_reads == before.line_reads
    &&& ({
                    let e = entry_index(address);
                    if before.control.cache_enabled && hit_way(before, address) is Some {
                        let w = hit_way(before, address)->0 as int;
                        &&& after.ram@ == before.ram@.update(
                            ram_addr_spec(w, e) + (address & 0xF),
                            value,
                        )
                        &&& after.ways@ == before.ways@
                        &&& after.control == before.control
                        &&& after.lru_bits@ == before.lru_bits@.update(
                            e,
                            lru_update_spec(before.lru_bits[e], w),
                        )
                    } else {
                        after == before
                    }
                })
}

/// A word written through the cache: on a hit of the enabled cache the word of the line is
/// updated and the line made most recently used; otherwise the cache is unchanged.
pub open spec fn write_through_u16_post(after: CpuCache, before: CpuCache, address: u32, value: u16) -> bool {
    &&& after.line_reads == before.line_reads
    &&& ({
                    let e = entry_index(address);
                    if before.control.cache_enabled && hit_way(before, address) is Some {
                        let w = hit_way(before, address)->0 as int;
                        let a = ram_addr_spec(w, e) + (address & 0xE);
                        &&& after.ram@ == before.ram@.update(a, (value / 256) as u8).update(
                            a + 1,
                            (value % 256) as u8,
                        )
                        &&& after.ways@ == before.ways@
                        &&& after.control == before.control
                        &&& after.lru_bits@ == before.lru_bits@.update(
                            e,
                            lru_update_spec(before.lru_bits[e], w),
                        )
                    } else {
                        after == before
                    }
                })
}

/// A longword written through the cache: on a hit of the enabled cache the longword of the line
/// is updated and the line made most recently used; otherwise the cache is unchanged.
pub open spec fn write_through_u32_post(after: CpuCache, before: CpuCache, address: u32, value: u32) -> bool {
    &&& after.line_reads == before.line_reads
    &&& ({
                    let e = entry_index(address);
                    if before.control.cache_enabled && hit_way(before, address) is Some {
                        let w = hit_way(before, address)->0 as int;
                        let a = ram_addr_spec(w, e) + (address & 0xC);
                        &&& be32(after.ram@, a) == value
                        &&& forall|i: int|
                            0 <= i < 4096 && !(a <= i < a + 4) ==> #[trigger] after.ram@[i] == before.ram@[i]
                        &&& after.ways@ == before.ways@
                        &&& after.control == before.control
                        &&& after.lru_bits@ == before.lru_bits@.update(
                            e,
                            lru_update_spec(before.lru_bits[e], w),
                        )
                    } else {
                        after == before
                    }
                })
}

/// The line of an address's entry invalidated in every way, with its LRU bits cleared.
pub open spec fn purge_post(after: CpuCache, before: CpuCache, address: u32) -> bool {
    &&& after.line_reads == before.line_reads
    &&& after.ram@ == before.ram@
    &&& after.control == before.control
    &&& after.lru_bits@ == before.lru_bits@.update(entry_index(address), 0)
    &&& forall|w: int, x: int|
                    0 <= w < 4 && 0 <= x < 64 ==> #[trigger] valid_spec(
                        after.ways[w].valid_bits,
                        x,
                    ) == (x != entry_index(address) && valid_spec(before.ways[w].valid_bits, x))
    &&& forall|w: int| 0 <= w < 4 ==> (#[trigger] after.ways[w]).tags == before.ways[w].tags
}

/// A write to the address array: the tag, valid bit and LRU bits of the selected way's entry.
pub open spec fn address_array_written(after: CpuCache, before: CpuCache, address: u32, value: u32) -> bool {
    &&& after.line_reads == before.line_reads
    &&& ({
                    let e = entry_index(address);
                    let w = (before.control.way & 3) as int;
                    &&& after.ram@ == before.ram@
                    &&& after.control == before.control
                    &&& after.lru_bits@ == before.lru_bits@.update(e, ((value >> 3) & 0x3F) as u8)
                    &&& after.ways[w].tags@ == before.ways[w].tags@.update(e, tag_spec(address))
                    &&& forall|x: int|
                        0 <= x < 64 ==> #[trigger] valid_spec(after.ways[w].valid_bits, x) == (if x
                            == e {
                            address & 2 != 0
                        } else {
                            valid_spec(before.ways[w].valid_bits, x)
                        })
                    &&& forall|v: int| 0 <= v < 4 && v != w ==> #[trigger] after.ways[v] == before.ways[v]
                })
}

/// A byte written directly into the cache data array.
pub open spec fn data_array_u8_written(after: CpuCache, before: CpuCache, address: u32, value: u8) -> bool {
    &&& after.line_reads == before.line_reads
    &&& after.ram@ == before.ram@.update((address & 0xFFF) as int, value)
    &&& after.ways@ == before.ways@
    &&& after.lru_bits@ == before.lru_bits@
    &&& after.control == before.control
}

/// A word written directly into the cache data array.
pub open spec fn data_array_u16_written(after: CpuCache, before: CpuCache, address: u32, value: u16) -> bool {
    &&& after.line_reads == before.line_reads
    &&& be16(after.ram@, (address & 0xFFE) as int) == value
    &&& after.ram@ == before.ram@.update((address & 0xFFE) as int, (value / 256) as u8).update(
                    (address & 0xFFE) + 1,
                    (value % 256) as u8,
                )
    &&& after.ways@ == before.ways@
    &&& after.lru_bits@ == before.lru_bits@
    &&& after.control == before.control
}

/// A longword written directly into the cache data array.
pub open spec fn data_array_u32_written(after: CpuCache, before: CpuCache, address: u32, value: u32) -> bool {
    &&& after.line_reads == before.line_reads
    &&& be32(after.ram@, (address & 0xFFC) as int) == value
    &&& forall|i: int|
                    0 <= i < 4096 && !((address & 0xFFC) <= i < (address & 0xFFC) + 4)
                        ==> #[trigger] after.ram@[i] == before.ram@[i]
    &&& after.ways@ == before.ways@
    &&& after.lru_bits@ == before.lru_bits@
    &&& after.control == before.control
}

} // verus!
