//! Data movement between 68000 registers and memory: MOVEQ, EXG, MOVE USP, MOVEP and the
//! register-list transfer of MOVEM to a predecremented address register.
use crate::m68000::disassemble::{sign_extend_word, wrap32};
use crate::m68000::traits::BusInterface;
use crate::m68000::{
    lemma_first_set_is_lowest, mask_bit, register_of, AddressRegister, DataRegister,
    MultipleRegisterIter, OpSize, Register,
};
use vstd::prelude::*;

verus! {

/// The condition code bits of the status register.
#[derive(Debug, Clone, Copy, PartialEq, Eq, Structural)]
pub struct ConditionCodes {
    pub carry: bool,
    pub overflow: bool,
    pub zero: bool,
    pub negative: bool,
    pub extend: bool,
}

/// The registers that data movement reads and writes. A7 names one of two stack pointers: the
/// supervisor stack pointer in supervisor mode, the user stack pointer otherwise.
#[derive(Debug, Clone, Copy)]
pub struct Registers {
    pub data: [u32; 8],
    pub address: [u32; 7],
    pub usp: u32,
    pub ssp: u32,
    pub supervisor_mode: bool,
    pub ccr: ConditionCodes,
}

impl Registers {
    /// The stack pointer that A7 names.
    pub open spec fn active_sp(self) -> u32 {
        if self.supervisor_mode {
            self.ssp
        } else {
            self.usp
        }
    }

    /// The stack pointer of the other mode.
    pub open spec fn inactive_sp(self) -> u32 {
        if self.supervisor_mode {
            self.usp
        } else {
            self.ssp
        }
    }

    /// A0-A7 as instructions see them.
    pub open spec fn address_view(self) -> Seq<u32> {
        self.address@.push(self.active_sp())
    }

    /// Data register `r`.
    pub open spec fn d(self, r: int) -> u32 {
        self.data@[r]
    }

    /// Address register `r`, A7 being the active stack pointer.
    pub open spec fn a(self, r: int) -> u32 {
        self.address_view()[r]
    }
}

/// What no register transfer touches: the mode, the condition codes and the stack pointer that
/// A7 does not name.
pub open spec fn same_mode_and_flags(after: Registers, before: Registers) -> bool {
    &&& after.supervisor_mode == before.supervisor_mode
    &&& after.ccr == before.ccr
    &&& after.inactive_sp() == before.inactive_sp()
}

/// `after` is `before` with data register `r` set to `value`.
pub open spec fn data_written(after: Registers, before: Registers, r: int, value: u32) -> bool {
    &&& after.data@ == before.data@.update(r, value)
    &&& after.address_view() == before.address_view()
    &&& same_mode_and_flags(after, before)
}

/// `after` is `before` with address register `r` set to `value`.
pub open spec fn address_written(after: Registers, before: Registers, r: int, value: u32) -> bool {
    &&& after.data@ == before.data@
    &&& after.address_view() == before.address_view().update(r, value)
    &&& same_mode_and_flags(after, before)
}

/// The value of a register of a MOVEM list.
pub open spec fn register_value(registers: Registers, register: Register) -> u32 {
    match register {
        Register::Data(r) => registers.d(r.0 as int),
        Register::Address(r) => registers.a(r.0 as int),
    }
}

/// `after` is `before` with `register` set to `value`.
pub open spec fn register_written(
    after: Registers,
    before: Registers,
    register: Register,
    value: u32,
) -> bool {
    match register {
        Register::Data(r) => data_written(after, before, r.0 as int, value),
        Register::Address(r) => address_written(after, before, r.0 as int, value),
    }
}

impl DataRegister {
    pub fn read_from(self, registers: &Registers) -> (r: u32)
        requires
            self.0 < 8,
        ensures
            r == registers.d(self.0 as int),
    {
        registers.data[self.0 as usize]
    }

    /// Replaces the low word, keeping the high word.
    pub fn write_word_to(self, registers: &mut Registers, value: u16)
        requires
            self.0 < 8,
        ensures
            data_written(
                *final(registers),
                *old(registers),
                self.0 as int,
                (old(registers).d(self.0 as int) & 0xFFFF_0000) | value as u32,
            ),
    {
        let i = self.0 as usize;
        registers.data[i] = (registers.data[i] & 0xFFFF_0000) | value as u32;
        proof {
            assert(final(registers).data@ =~= old(registers).data@.update(
                self.0 as int,
                (old(registers).d(self.0 as int) & 0xFFFF_0000) | value as u32,
            ));
            assert(final(registers).address_view() =~= old(registers).address_view());
        }
    }

    pub fn write_long_word_to(self, registers: &mut Registers, value: u32)
        requires
            self.0 < 8,
        ensures
            data_written(*final(registers), *old(registers), self.0 as int, value),
    {
        registers.data[self.0 as usize] = value;
        proof {
            assert(final(registers).data@ =~= old(registers).data@.update(self.0 as int, value));
            assert(final(registers).address_view() =~= old(registers).address_view());
        }
    }
}

impl AddressRegister {
    pub fn read_from(self, registers: &Registers) -> (r: u32)
        requires
            self.0 < 8,
        ensures
            r == registers.a(self.0 as int),
    {
        if self.0 == 7 {
            if registers.supervisor_mode {
                registers.ssp
            } else {
                registers.usp
            }
        } else {
            registers.address[self.0 as usize]
        }
    }

    pub fn write_long_word_to(self, registers: &mut Registers, value: u32)
        requires
            self.0 < 8,
        ensures
            address_written(*final(registers), *old(registers), self.0 as int, value),
    {
        if self.0 == 7 {
            if registers.supervisor_mode {
                registers.ssp = value;
            } else {
                registers.usp = value;
            }
        } else {
            registers.address[self.0 as usize] = value;
        }
        proof {
            assert(final(registers).address_view() =~= old(registers).address_view().update(
                self.0 as int,
                value,
            ));
            assert(final(registers).data@ =~= old(registers).data@);
        }
    }
}

impl Register {
    /// The register is one of the eight of its kind.
    pub open spec fn wf(self) -> bool {
        match self {
            Register::Data(r) => r.0 < 8,
            Register::Address(r) => r.0 < 8,
        }
    }

    pub fn read_from(self, registers: &Registers) -> (r: u32)
        requires
            self.wf(),
        ensures
            r == register_value(*registers, self),
    {
        match self {
            Register::Data(register) => register.read_from(registers),
            Register::Address(register) => register.read_from(registers),
        }
    }

    /// Sets all 32 bits of the register.
    pub fn write_to(self, registers: &mut Registers, value: u32)
        requires
            self.wf(),
        ensures
            register_written(*final(registers), *old(registers), self, value),
    {
        match self {
            Register::Data(register) => {
                register.write_long_word_to(registers, value);
            },
            Register::Address(register) => {
                register.write_long_word_to(registers, value);
            },
        }
    }
}

/// MOVEQ: the sign-extended immediate to a data register; N and Z from the value, V and C
/// cleared, X kept. Takes 4 cycles.
pub fn moveq(registers: &mut Registers, data: i8, register: DataRegister) -> (cycles: u32)
    requires
        register.0 < 8,
    ensures
        final(registers).data@ == old(registers).data@.update(register.0 as int, data as u32),
        final(registers).address_view() == old(registers).address_view(),
        final(registers).supervisor_mode == old(registers).supervisor_mode,
        final(registers).inactive_sp() == old(registers).inactive_sp(),
        final(registers).ccr == (ConditionCodes {
            carry: false,
            overflow: false,
            zero: data == 0,
            negative: data < 0,
            extend: old(registers).ccr.extend,
        }),
        cycles == 4,
{
    register.write_long_word_to(registers, data as u32);

    registers.ccr = ConditionCodes {
        carry: false,
        overflow: false,
        zero: data == 0,
        negative: data < 0,
        extend: registers.ccr.extend,
    };

    4
}

/// EXG between two data registers. Takes 6 cycles.
pub fn exg_data(registers: &mut Registers, rx: DataRegister, ry: DataRegister) -> (cycles: u32)
    requires
        rx.0 < 8,
        ry.0 < 8,
    ensures
        final(registers).data@ == old(registers).data@.update(
            rx.0 as int,
            old(registers).d(ry.0 as int),
        ).update(ry.0 as int, old(registers).d(rx.0 as int)),
        final(registers).address_view() == old(registers).address_view(),
        same_mode_and_flags(*final(registers), *old(registers)),
        cycles == 6,
{
    let x_val = rx.read_from(registers);
    let y_val = ry.read_from(registers);

    rx.write_long_word_to(registers, y_val);
    ry.write_long_word_to(registers, x_val);

    6
}

/// EXG between two address registers. Takes 6 cycles.
pub fn exg_address(registers: &mut Registers, rx: AddressRegister, ry: AddressRegister) -> (cycles:
    u32)
    requires
        rx.0 < 8,
        ry.0 < 8,
    ensures
        final(registers).data@ == old(registers).data@,
        final(registers).address_view() == old(registers).address_view().update(
            rx.0 as int,
            old(registers).a(ry.0 as int),
        ).update(ry.0 as int, old(registers).a(rx.0 as int)),
        same_mode_and_flags(*final(registers), *old(registers)),
        cycles == 6,
{
    let x_val = rx.read_from(registers);
    let y_val = ry.read_from(registers);

    rx.write_long_word_to(registers, y_val);
    ry.write_long_word_to(registers, x_val);

    6
}

/// EXG between a data register and an address register. Takes 6 cycles.
pub fn exg_data_address(registers: &mut Registers, rx: DataRegister, ry: AddressRegister) -> (cycles:
    u32)
    requires
        rx.0 < 8,
        ry.0 < 8,
    ensures
        final(registers).data@ == old(registers).data@.update(
            rx.0 as int,
            old(registers).a(ry.0 as int),
        ),
        final(registers).address_view() == old(registers).address_view().update(
            ry.0 as int,
            old(registers).d(rx.0 as int),
        ),
        same_mode_and_flags(*final(registers), *old(registers)),
        cycles == 6,
{
    let x_val = rx.read_from(registers);
    let y_val = ry.read_from(registers);

    rx.write_long_word_to(registers, y_val);
    ry.write_long_word_to(registers, x_val);

    6
}

/// Which way MOVE USP copies.
#[derive(Debug, Clone, Copy, PartialEq, Eq, Structural)]
pub enum UspDirection {
    RegisterToUsp,
    UspToRegister,
}

/// Which way a transfer between registers and memory goes.
#[derive(Debug, Clone, Copy, PartialEq, Eq, Structural)]
pub enum Direction {
    RegisterToMemory,
    MemoryToRegister,
}

/// The exception that a privileged data movement raises outside supervisor mode.
#[derive(Debug, Clone, Copy, PartialEq, Eq, Structural)]
pub enum Exception {
    PrivilegeViolation,
}

/// MOVE USP: copies between an address register and the user stack pointer; privileged. Takes
/// 4 cycles.
pub fn move_usp(registers: &mut Registers, direction: UspDirection, register: AddressRegister) -> (r:
    Result<u32, Exception>)
    requires
        register.0 < 8,
    ensures
        !old(registers).supervisor_mode ==> r == Err::<u32, Exception>(Exception::PrivilegeViolation)
            && *final(registers) == *old(registers),
        old(registers).supervisor_mode ==> r == Ok::<u32, Exception>(4) && match direction {
            UspDirection::RegisterToUsp => *final(registers) == (Registers {
                usp: old(registers).a(register.0 as int),
                ..*old(registers)
            }),
            UspDirection::UspToRegister => address_written(
                *final(registers),
                *old(registers),
                register.0 as int,
                old(registers).usp,
            ),
        },
{
    if !registers.supervisor_mode {
        return Err(Exception::PrivilegeViolation);
    }

    match direction {
        UspDirection::RegisterToUsp => {
            let value = register.read_from(registers);
            registers.usp = value;
        },
        UspDirection::UspToRegister => {
            register.write_long_word_to(registers, registers.usp);
        },
    }

    Ok(4)
}

/// The big-endian bytes of a word read by MOVEP, as a word.
pub open spec fn bytes_to_word(msb: u8, lsb: u8) -> u16 {
    (msb * 0x100 + lsb) as u16
}

/// MOVEP: moves a data register's word or longword to or from every other byte of memory,
/// most significant byte first, starting at the address register plus a displacement; the
/// extension word holds the displacement. Takes 16 cycles for a word, 24 for a longword.
/// The bytes themselves pass through the bus, of which nothing is stated here: writes leave the
/// registers unchanged, and reads set the data register's low word (keeping the high word) or
/// the whole register to the bytes read.
pub fn movep<B: BusInterface>(
    registers: &mut Registers,
    bus: &mut B,
    size: OpSize,
    d_register: DataRegister,
    a_register: AddressRegister,
    direction: Direction,
    extension: u16,
) -> (cycles: u32)
    requires
        size != OpSize::Byte,
        d_register.0 < 8,
        a_register.0 < 8,
    ensures
        cycles == (if size == OpSize::Word {
            16u32
        } else {
            24u32
        }),
        direction == Direction::RegisterToMemory ==> *final(registers) == *old(registers),
        direction == Direction::MemoryToRegister && size == OpSize::Word ==> exists|msb: u8, lsb: u8|
            data_written(
                *final(registers),
                *old(registers),
                d_register.0 as int,
                (old(registers).d(d_register.0 as int) & 0xFFFF_0000) | bytes_to_word(msb, lsb) as u32,
            ),
        direction == Direction::MemoryToRegister && size == OpSize::LongWord ==> exists|value: u32|
            data_written(*final(registers), *old(registers), d_register.0 as int, value),
{
    let displacement = extension as i16;
    let address = a_register.read_from(registers).wrapping_add(displacement as u32);

    match (size, direction) {
        (OpSize::Word, Direction::RegisterToMemory) => {
            let value = d_register.read_from(registers);
            let msb = (value >> 8) as u8;
            let lsb = value as u8;
            bus.write_byte(address, msb);
            bus.write_byte(address.wrapping_add(2), lsb);
        },
        (OpSize::Word, Direction::MemoryToRegister) => {
            let msb = bus.read_byte(address);
            let lsb = bus.read_byte(address.wrapping_add(2));
            let word = ((msb as u16) << 8) | lsb as u16;
            proof {
                assert(((msb as u16) << 8) | lsb as u16 == msb * 0x100 + lsb) by (bit_vector);
            }
            d_register.write_word_to(registers, word);
            assert(bytes_to_word(msb, lsb) == word);
            assert(data_written(
                *registers,
                *old(registers),
                d_register.0 as int,
                (old(registers).d(d_register.0 as int) & 0xFFFF_0000) | bytes_to_word(msb, lsb) as u32,
            ));
        },
        (OpSize::LongWord, Direction::RegisterToMemory) => {
            let value = d_register.read_from(registers);
            let mut address = address;
            let bytes: [u8; 4] = [(value >> 24) as u8, (value >> 16) as u8, (value >> 8) as u8, value as u8];
            let mut i: usize = 0;
            while i < 4
                invariant
                    i <= 4,
                    *registers == *old(registers),
                decreases 4 - i,
            {
                bus.write_byte(address, bytes[i]);
                address = address.wrapping_add(2);
                i += 1;
            }
        },
        (OpSize::LongWord, Direction::MemoryToRegister) => {
            let b3 = bus.read_byte(address);
            let b2 = bus.read_byte(address.wrapping_add(2));
            let b1 = bus.read_byte(address.wrapping_add(4));
            let b0 = bus.read_byte(address.wrapping_add(6));
            let value = ((b3 as u32) << 24) | ((b2 as u32) << 16) | ((b1 as u32) << 8) | b0 as u32;
            d_register.write_long_word_to(registers, value);
        },
        (OpSize::Byte, _) => {
            // excluded by the precondition: MOVEP has no byte form
        },
    }

    if size == OpSize::Word {
        16
    } else {
        24
    }
}

/// The number of registers a MOVEM mask selects among bits `i` to 15.
pub open spec fn selected_count(mask: u16, i: int) -> nat
    decreases 16 - i,
{
    if i >= 16 {
        0
    } else {
        (if mask_bit(mask, i) {
            1nat
        } else {
            0nat
        }) + selected_count(mask, i + 1)
    }
}

/// A mask has at most 16 - i bits set from bit i on.
proof fn lemma_selected_count_bound(mask: u16, i: int)
    requires
        0 <= i,
    ensures
        selected_count(mask, i) <= if i >= 16 {
            0
        } else {
            16 - i
        },
    decreases 16 - i,
{
    if i < 16 {
        lemma_selected_count_bound(mask, i + 1);
    }
}

/// The bytes of memory that MOVEM moves per register.
pub open spec fn register_bytes(size: OpSize) -> int {
    if size == OpSize::Word {
        2
    } else {
        4
    }
}

/// The word writes of MOVEM to a predecremented address register for mask bits `i` to 15,
/// going down from `address`. Bit `i` selects register 15 - i; a word register is written just
/// below the address, a longword register as its low word there and its high word below that.
pub open spec fn predecrement_writes(
    size: OpSize,
    mask: u16,
    registers: Registers,
    i: int,
    address: u32,
) -> Seq<(u32, u16)>
    decreases 16 - i,
{
    if i >= 16 {
        Seq::empty()
    } else if mask_bit(mask, i) {
        let value = register_value(registers, register_of(15 - i));
        let low = wrap32(address - 2);
        if size == OpSize::Word {
            seq![(low, value as u16)] + predecrement_writes(size, mask, registers, i + 1, low)
        } else {
            let high = wrap32(address - 4);
            seq![(low, value as u16), (high, (value >> 16) as u16)] + predecrement_writes(
                size,
                mask,
                registers,
                i + 1,
                high,
            )
        }
    } else {
        predecrement_writes(size, mask, registers, i + 1, address)
    }
}

/// Mask bits below `j` and at or above `i` that are all clear select nothing.
proof fn lemma_clear_bits_skip(size: OpSize, mask: u16, registers: Registers, i: int, j: int, address: u32)
    requires
        0 <= i <= j <= 16,
        forall|k: int| i <= k < j ==> !mask_bit(mask, k),
    ensures
        predecrement_writes(size, mask, registers, i, address) == predecrement_writes(
            size,
            mask,
            registers,
            j,
            address,
        ),
        selected_count(mask, i) == selected_count(mask, j),
    decreases j - i,
{
    if i < j {
        lemma_clear_bits_skip(size, mask, registers, i + 1, j, address);
    }
}

/// Taking `d` from a value reduced modulo 2^32 and reducing again is taking `d` and reducing once.
proof fn lemma_wrap32_sub(x: int, d: int)
    ensures
        wrap32(wrap32(x) - d) == wrap32(x - d),
{
    let m: int = 0x1_0000_0000;
    vstd::arithmetic::div_mod::lemma_sub_mod_noop(x, d, m);
    vstd::arithmetic::div_mod::lemma_sub_mod_noop(x % m, d, m);
    vstd::arithmetic::div_mod::lemma_mod_twice(x, m);
}

/// What MOVEM to a predecremented address register does: the word writes in the order they
/// happen, the value the register is left holding, and the cycles taken.
#[derive(Debug, Clone)]
pub struct PredecrementTransfer {
    pub writes: Vec<(u32, u16)>,
    pub address: u32,
    pub cycles: u32,
}

/// MOVEM of a register list to memory through -(An): registers go out last to first (the mask
/// is reversed in this form), each below the previous one, and An ends at the lowest address
/// written: 2 bytes per register for words, 4 for longwords, below its starting value, modulo
/// 2^32. Registers are read before An changes, so An itself is stored with its starting value.
/// Takes 8 cycles plus 4 per word or 8 per longword. The transfer is computed here; whoever
/// runs the instruction performs the writes in order through its checked word write and, once
/// all have succeeded, sets An to `address`.
pub fn movem_predecrement(
    size: OpSize,
    registers: &Registers,
    predec_register: AddressRegister,
    extension: u16,
) -> (r: PredecrementTransfer)
    requires
        size != OpSize::Byte,
        predec_register.0 < 8,
    ensures
        r.writes@ == predecrement_writes(
            size,
            extension,
            *registers,
            0,
            registers.a(predec_register.0 as int),
        ),
        r.address == wrap32(
            registers.a(predec_register.0 as int) - register_bytes(size) * selected_count(
                extension,
                0,
            ),
        ),
        r.cycles == 8 + 2 * register_bytes(size) * selected_count(extension, 0),
{
    let mut iter = MultipleRegisterIter::new_reverse(extension);
    let start = predec_register.read_from(registers);
    let mut address = start;
    let mut writes: Vec<(u32, u16)> = Vec::new();
    let mut count: u32 = 0;
    let ghost step = register_bytes(size);
    let ghost all = predecrement_writes(size, extension, *registers, 0, start);

    proof {
        lemma_selected_count_bound(extension, 0);
        assert(wrap32(start - step * 0) == start) by {
            vstd::arithmetic::div_mod::lemma_small_mod(start as nat, 0x1_0000_0000);
        }
        assert(writes@ + predecrement_writes(size, extension, *registers, 0, address) =~= all);
    }

    loop
        invariant
            size != OpSize::Byte,
            step == register_bytes(size),
            iter.mask == extension,
            iter.reverse,
            iter.i <= 16,
            writes@ + predecrement_writes(size, extension, *registers, iter.i as int, address)
                == all,
            all == predecrement_writes(size, extension, *registers, 0, start),
            count + selected_count(extension, iter.i as int) == selected_count(extension, 0),
            selected_count(extension, 0) <= 16,
            address == wrap32(start - step * count),
        ensures
            writes@ == all,
            count == selected_count(extension, 0),
            count <= 16,
            address == wrap32(start - step * count),
        decreases 16 - iter.i,
    {
        let ghost i = iter.i as int;
        proof {
            lemma_first_set_is_lowest(extension, i);
        }
        match iter.next() {
            Some(register) => {
                let ghost j = iter.i - 1;
                proof {
                    lemma_clear_bits_skip(size, extension, *registers, i, j, address);
                    assert(selected_count(extension, j) == 1 + selected_count(extension, j + 1));
                    lemma_wrap32_sub(start - step * count, 2);
                    lemma_wrap32_sub(start - step * count - 2, 2);
                }
                let value = register.read_from(registers);
                match size {
                    OpSize::Word => {
                        address = address.wrapping_sub(2);
                        writes.push((address, value as u16));
                    },
                    _ => {
                        let high_word = (value >> 16) as u16;
                        let low_word = value as u16;

                        address = address.wrapping_sub(2);
                        writes.push((address, low_word));

                        address = address.wrapping_sub(2);
                        writes.push((address, high_word));
                    },
                }
                count += 1;
                proof {
                    assert(writes@ + predecrement_writes(
                        size,
                        extension,
                        *registers,
                        iter.i as int,
                        address,
                    ) =~= all);
                }
            },
            None => {
                proof {
                    lemma_clear_bits_skip(size, extension, *registers, i, 16, address);
                    assert(writes@ =~= all);
                }
                break ;
            },
        }
    }

    let per_register: u32 = match size {
        OpSize::Word => 4,
        _ => 8,
    };
    PredecrementTransfer { writes, address, cycles: 8 + per_register * count }
}

/// The transfers of MOVEM between registers and memory at an ascending address, for mask bits
/// `i` to 15 from `address` on: bit `i` selects register `i` (D0-D7, then A0-A7), each one
/// 2 bytes (word) or 4 bytes (longword) above the previous. Each entry pairs an address with
/// the register's low word (word) or whole value (longword).
pub open spec fn ascending_transfers(
    size: OpSize,
    mask: u16,
    registers: Registers,
    i: int,
    address: u32,
) -> Seq<(u32, u32)>
    decreases 16 - i,
{
    if i >= 16 {
        Seq::empty()
    } else if mask_bit(mask, i) {
        let value = register_value(registers, register_of(i));
        let moved = if size == OpSize::Word {
            value % 0x10000
        } else {
            value
        };
        seq![(address, moved as u32)] + ascending_transfers(
            size,
            mask,
            registers,
            i + 1,
            wrap32(address + register_bytes(size)),
        )
    } else {
        ascending_transfers(size, mask, registers, i + 1, address)
    }
}

/// Mask bits below `j` and at or above `i` that are all clear select nothing.
proof fn lemma_clear_bits_skip_ascending(
    size: OpSize,
    mask: u16,
    registers: Registers,
    i: int,
    j: int,
    address: u32,
)
    requires
        0 <= i <= j <= 16,
        forall|k: int| i <= k < j ==> !mask_bit(mask, k),
    ensures
        ascending_transfers(size, mask, registers, i, address) == ascending_transfers(
            size,
            mask,
            registers,
            j,
            address,
        ),
        selected_count(mask, i) == selected_count(mask, j),
    decreases j - i,
{
    if i < j {
        lemma_clear_bits_skip_ascending(size, mask, registers, i + 1, j, address);
    }
}

/// Adding `d` to a value reduced modulo 2^32 and reducing again is adding `d` and reducing once.
proof fn lemma_wrap32_add(x: int, d: int)
    ensures
        wrap32(wrap32(x) + d) == wrap32(x + d),
{
    let m: int = 0x1_0000_0000;
    vstd::arithmetic::div_mod::lemma_add_mod_noop(x, d, m);
    vstd::arithmetic::div_mod::lemma_add_mod_noop(x % m, d, m);
    vstd::arithmetic::div_mod::lemma_mod_twice(x, m);
}

/// MOVEM of a register list to memory at an ascending address (any form but -(An)): the
/// registers of the mask go out first to last (D0-D7, then A0-A7), each 2 bytes (word) or
/// 4 bytes (longword) above the previous, starting at the operand's address. Each entry of the
/// result is a write, in order: for words the register's low word, for longwords the register.
/// Whoever runs the instruction performs them through its checked writes.
pub fn movem_to_memory(size: OpSize, registers: &Registers, extension: u16, address: u32) -> (r: Vec<
    (u32, u32),
>)
    requires
        size != OpSize::Byte,
    ensures
        r@ == ascending_transfers(size, extension, *registers, 0, address),
{
    let mut iter = MultipleRegisterIter::new(extension);
    let mut address = address;
    let mut writes: Vec<(u32, u32)> = Vec::new();
    let ghost all = ascending_transfers(size, extension, *registers, 0, address);

    proof {
        assert(writes@ + ascending_transfers(size, extension, *registers, 0, address) =~= all);
    }

    loop
        invariant
            size != OpSize::Byte,
            iter.mask == extension,
            !iter.reverse,
            iter.i <= 16,
            writes@ + ascending_transfers(size, extension, *registers, iter.i as int, address)
                == all,
        ensures
            writes@ == all,
        decreases 16 - iter.i,
    {
        let ghost i = iter.i as int;
        proof {
            lemma_first_set_is_lowest(extension, i);
        }
        match iter.next() {
            Some(register) => {
                let ghost j = iter.i - 1;
                proof {
                    lemma_clear_bits_skip_ascending(size, extension, *registers, i, j, address);
                }
                let value = register.read_from(registers);
                match size {
                    OpSize::Word => {
                        proof {
                            assert(value & 0xFFFF == value % 0x10000) by (bit_vector);
                        }
                        writes.push((address, value & 0xFFFF));
                        address = address.wrapping_add(2);
                    },
                    _ => {
                        writes.push((address, value));
                        address = address.wrapping_add(4);
                    },
                }
                proof {
                    assert(writes@ + ascending_transfers(
                        size,
                        extension,
                        *registers,
                        iter.i as int,
                        address,
                    ) =~= all);
                }
            },
            None => {
                proof {
                    lemma_clear_bits_skip_ascending(size, extension, *registers, i, 16, address);
                    assert(writes@ =~= all);
                }
                break ;
            },
        }
    }

    writes
}

/// The position in a MOVEM list of the register at bit `b`: the number of selected bits below it.
pub open spec fn list_position(mask: u16, b: int) -> int {
    selected_count(mask, 0) - selected_count(mask, b)
}

/// What MOVEM loads from a value read: a word is sign-extended, a longword taken whole.
pub open spec fn loaded_value(size: OpSize, value: u32) -> u32 {
    if size == OpSize::Word {
        sign_extend_word(value)
    } else {
        value
    }
}

/// The registers after MOVEM loads `values` for the list of `mask` from `address` on: each
/// selected register holds its value (sign-extended for words); with (An)+, An holds the
/// address just past the last value; everything else is as before.
pub open spec fn movem_loaded(
    after: Registers,
    before: Registers,
    size: OpSize,
    mask: u16,
    address: u32,
    postinc_register: Option<AddressRegister>,
    values: Seq<u32>,
) -> bool {
    &&& forall|r: int|
        0 <= r < 8 ==> #[trigger] after.d(r) == if mask_bit(mask, r) {
            loaded_value(size, values[list_position(mask, r)])
        } else {
            before.d(r)
        }
    &&& forall|r: int|
        0 <= r < 8 ==> #[trigger] after.a(r) == if postinc_register == Some(AddressRegister(r as u8)) {
            wrap32(address + register_bytes(size) * selected_count(mask, 0))
        } else if mask_bit(mask, 8 + r) {
            loaded_value(size, values[list_position(mask, 8 + r)])
        } else {
            before.a(r)
        }
    &&& same_mode_and_flags(after, before)
}

/// MOVEM of memory at an ascending address to a register list (any form but -(An)): `values`
/// are what was read, in order, one per selected register, from the operand's address on, each
/// 2 bytes (word, the low word of the entry) or 4 bytes (longword) above the previous. Each
/// selected register receives its value, sign-extended for words. With (An)+, An is not loaded
/// from memory: it ends just past the last value read. Whoever runs the instruction performs
/// the reads through its checked reads and hands them here.
pub fn movem_to_registers(
    registers: &mut Registers,
    size: OpSize,
    extension: u16,
    address: u32,
    postinc_register: Option<AddressRegister>,
    values: &Vec<u32>,
)
    requires
        size != OpSize::Byte,
        values.len() == selected_count(extension, 0),
        postinc_register matches Some(p) ==> p.0 < 8,
    ensures
        movem_loaded(
            *final(registers),
            *old(registers),
            size,
            extension,
            address,
            postinc_register,
            values@,
        ),
{
    let ghost before = *registers;
    let ghost step = register_bytes(size);
    let start = address;
    let mut iter = MultipleRegisterIter::new(extension);
    let mut address = address;
    let mut count: usize = 0;

    proof {
        lemma_selected_count_bound(extension, 0);
        assert(wrap32(start + step * 0) == start) by {
            vstd::arithmetic::div_mod::lemma_small_mod(start as nat, 0x1_0000_0000);
        }
    }

    loop
        invariant
            size != OpSize::Byte,
            step == register_bytes(size),
            values.len() == selected_count(extension, 0),
            selected_count(extension, 0) <= 16,
            postinc_register matches Some(p) ==> p.0 < 8,
            iter.mask == extension,
            !iter.reverse,
            iter.i <= 16,
            count + selected_count(extension, iter.i as int) == selected_count(extension, 0),
            address == wrap32(start + step * count),
            forall|r: int|
                0 <= r < 8 ==> #[trigger] registers.d(r) == if mask_bit(extension, r) && r
                    < iter.i {
                    loaded_value(size, values@[list_position(extension, r)])
                } else {
                    before.d(r)
                },
            forall|r: int|
                0 <= r < 8 && postinc_register != Some(AddressRegister(r as u8))
                    ==> #[trigger] registers.a(r) == if mask_bit(extension, 8 + r) && 8 + r
                    < iter.i {
                    loaded_value(size, values@[list_position(extension, 8 + r)])
                } else {
                    before.a(r)
                },
            same_mode_and_flags(*registers, before),
        ensures
            iter.i == 16,
            count == selected_count(extension, 0),
            address == wrap32(start + step * count),
            forall|r: int|
                0 <= r < 8 ==> #[trigger] registers.d(r) == if mask_bit(extension, r) {
                    loaded_value(size, values@[list_position(extension, r)])
                } else {
                    before.d(r)
                },
            forall|r: int|
                0 <= r < 8 && postinc_register != Some(AddressRegister(r as u8))
                    ==> #[trigger] registers.a(r) == if mask_bit(extension, 8 + r) {
                    loaded_value(size, values@[list_position(extension, 8 + r)])
                } else {
                    before.a(r)
                },
            same_mode_and_flags(*registers, before),
        decreases 16 - iter.i,
    {
        let ghost i = iter.i as int;
        proof {
            lemma_first_set_is_lowest(extension, i);
        }
        match iter.next() {
            Some(register) => {
                let ghost j = iter.i - 1;
                proof {
                    lemma_clear_bits_skip(size, extension, before, i, j, address);
                    assert(selected_count(extension, j) == 1 + selected_count(extension, j + 1));
                    assert(list_position(extension, j) == count);
                    lemma_wrap32_add(start + step * count, step);
                }
                let ghost mid = *registers;
                match postinc_register {
                    Some(p) => {
                        p.write_long_word_to(registers, address.wrapping_add(2));
                    },
                    None => {},
                }
                let ghost after_postinc = *registers;
                assert(forall|r: int|
                    0 <= r < 8 && postinc_register != Some(AddressRegister(r as u8))
                        ==> #[trigger] after_postinc.a(r) == mid.a(r));
                assert(forall|r: int| 0 <= r < 8 ==> #[trigger] after_postinc.d(r) == mid.d(r));

                let raw = values[count];
                let value = match size {
                    OpSize::Word => {
                        proof {
                            assert((raw as u16) as i16 as u32 == if raw & 0xFFFF >= 0x8000 {
                                (raw & 0xFFFF) | 0xFFFF_0000
                            } else {
                                raw & 0xFFFF
                            }) by (bit_vector);
                            assert(raw & 0xFFFF == raw % 0x10000 && (raw & 0xFFFF < 0x10000 ==> (
                            raw & 0xFFFF) | 0xFFFF_0000 == (raw & 0xFFFF) + 0xFFFF_0000)) by (bit_vector);
                        }
                        raw as u16 as i16 as u32
                    },
                    _ => raw,
                };
                assert(value == loaded_value(size, values@[list_position(extension, j)]));

                let skip = match register {
                    Register::Address(r) => match postinc_register {
                        Some(p) => p.0 == r.0,
                        None => false,
                    },
                    Register::Data(_) => false,
                };
                if !skip {
                    register.write_to(registers, value);
                }
                proof {
                    assert forall|r: int| 0 <= r < 8 implies #[trigger] registers.d(r) == if mask_bit(
                        extension,
                        r,
                    ) && r < iter.i {
                        loaded_value(size, values@[list_position(extension, r)])
                    } else {
                        before.d(r)
                    } by {
                        if r == j {
                            assert(register == Register::Data(DataRegister(r as u8)));
                            assert(registers.d(r) == value);
                        } else if r < i {
                            assert(registers.d(r) == mid.d(r));
                        } else if r < j {
                            assert(!mask_bit(extension, r));
                            assert(registers.d(r) == mid.d(r));
                        } else {
                            assert(registers.d(r) == mid.d(r));
                        }
                    }
                    assert forall|r: int|
                        0 <= r < 8 && postinc_register != Some(AddressRegister(r as u8)) implies #[trigger] registers.a(
                        r,
                    ) == if mask_bit(extension, 8 + r) && 8 + r < iter.i {
                        loaded_value(size, values@[list_position(extension, 8 + r)])
                    } else {
                        before.a(r)
                    } by {
                        assert(after_postinc.a(r) == mid.a(r));
                        if 8 + r == j {
                            assert(register == Register::Address(AddressRegister(r as u8)));
                            assert(!skip);
                            assert(registers.a(r) == value);
                        } else if 8 + r < i {
                            assert(registers.a(r) == mid.a(r));
                        } else if 8 + r < j {
                            assert(!mask_bit(extension, 8 + r));
                            assert(registers.a(r) == mid.a(r));
                        } else {
                            assert(registers.a(r) == mid.a(r));
                        }
                    }
                }

                address = match size {
                    OpSize::Word => address.wrapping_add(2),
                    _ => address.wrapping_add(4),
                };
                count += 1;
                assert(count + selected_count(extension, iter.i as int) == selected_count(extension, 0));
            },
            None => {
                proof {
                    lemma_clear_bits_skip(size, extension, before, i, 16, address);
                }
                break ;
            },
        }
    }

    let ghost loaded = *registers;
    match postinc_register {
        Some(p) => {
            p.write_long_word_to(registers, address);
        },
        None => {},
    }
    assert forall|r: int| 0 <= r < 8 implies #[trigger] registers.d(r) == loaded.d(r) by {}
    assert forall|r: int|
        0 <= r < 8 && postinc_register != Some(AddressRegister(r as u8)) implies #[trigger] registers.a(r)
        == loaded.a(r) by {}
}

/// The cycles MOVEM takes at an ascending address, given the cycles its operand's address
/// calculation takes and the number of registers moved: 8 (memory to registers) or 4 (registers
/// to memory), plus the address calculation, plus 4 per word or 8 per longword.
pub fn movem_cycles(size: OpSize, direction: Direction, address_calculation_cycles: u32, count: u32) -> (r:
    u32)
    requires
        size != OpSize::Byte,
        count <= 16,
        address_calculation_cycles <= u32::MAX - 136,
    ensures
        r == (if direction == Direction::MemoryToRegister {
            8int
        } else {
            4int
        }) + address_calculation_cycles + 2 * register_bytes(size) * count,
{
    let count_cycles = match size {
        OpSize::Word => 4 * count,
        _ => 8 * count,
    };
    match direction {
        Direction::MemoryToRegister => 8 + address_calculation_cycles + count_cycles,
        Direction::RegisterToMemory => 4 + address_calculation_cycles + count_cycles,
    }
}

/// One transfer per selected register.
proof fn lemma_ascending_len(size: OpSize, mask: u16, registers: Registers, i: int, address: u32)
    requires
        0 <= i,
    ensures
        ascending_transfers(size, mask, registers, i, address).len() == selected_count(mask, i),
    decreases 16 - i,
{
    if i < 16 {
        if mask_bit(mask, i) {
            lemma_ascending_len(size, mask, registers, i + 1, wrap32(address + register_bytes(size)));
        } else {
            lemma_ascending_len(size, mask, registers, i + 1, address);
        }
    }
}

/// The transfer of the register at bit `b` sits at the register's list position.
proof fn lemma_ascending_position(
    size: OpSize,
    mask: u16,
    registers: Registers,
    i: int,
    address: u32,
    b: int,
)
    requires
        0 <= i <= b < 16,
        mask_bit(mask, b),
    ensures
        0 <= selected_count(mask, i) - selected_count(mask, b) < ascending_transfers(
            size,
            mask,
            registers,
            i,
            address,
        ).len(),
        ascending_transfers(size, mask, registers, i, address)[selected_count(mask, i)
            - selected_count(mask, b)].1 == (if size == OpSize::Word {
            (register_value(registers, register_of(b)) % 0x10000) as u32
        } else {
            register_value(registers, register_of(b))
        }),
    decreases b - i,
{
    lemma_ascending_len(size, mask, registers, i, address);
    if i < b {
        if mask_bit(mask, i) {
            lemma_ascending_position(
                size,
                mask,
                registers,
                i + 1,
                wrap32(address + register_bytes(size)),
                b,
            );
        } else {
            lemma_ascending_position(size, mask, registers, i + 1, address, b);
        }
    }
}

/// Loading a register list with MOVEM.L from the longwords that MOVEM.L stored for the same
/// list, at the same address, gives every register back the value it had.
pub proof fn lemma_movem_long_round_trip(
    mask: u16,
    registers: Registers,
    address: u32,
    after: Registers,
)
    requires
        movem_loaded(
            after,
            registers,
            OpSize::LongWord,
            mask,
            address,
            None,
            ascending_transfers(OpSize::LongWord, mask, registers, 0, address).map_values(
                |t: (u32, u32)| t.1,
            ),
        ),
    ensures
        after.data@ == registers.data@,
        after.address_view() == registers.address_view(),
        same_mode_and_flags(after, registers),
{
    let transfers = ascending_transfers(OpSize::LongWord, mask, registers, 0, address);
    let values = transfers.map_values(|t: (u32, u32)| t.1);
    assert forall|r: int| 0 <= r < 8 implies #[trigger] after.d(r) == registers.d(r) by {
        if mask_bit(mask, r) {
            lemma_ascending_position(OpSize::LongWord, mask, registers, 0, address, r);
            assert(values[list_position(mask, r)] == transfers[list_position(mask, r)].1);
        }
    }
    assert forall|r: int| 0 <= r < 8 implies #[trigger] after.a(r) == registers.a(r) by {
        if mask_bit(mask, 8 + r) {
            lemma_ascending_position(OpSize::LongWord, mask, registers, 0, address, 8 + r);
            assert(values[list_position(mask, 8 + r)] == transfers[list_position(mask, 8 + r)].1);
        }
    }
    assert(after.data@.len() == 8 && registers.data@.len() == 8 && after.address@.len() == 7
        && registers.address@.len() == 7) by {
        broadcast use vstd::array::group_array_axioms;
    }
    assert forall|r: int| 0 <= r < 8 implies after.data@[r] == registers.data@[r] by {
        assert(after.d(r) == registers.d(r));
    }
    assert forall|r: int| 0 <= r < 8 implies after.address_view()[r] == registers.address_view()[r] by {
        assert(after.a(r) == registers.a(r));
    }
    assert(after.data@ =~= registers.data@);
    assert(after.address_view() =~= registers.address_view());
}

/// Memory as words by address, after `writes` in order over `memory`.
pub open spec fn after_word_writes(memory: Map<u32, u16>, writes: Seq<(u32, u16)>) -> Map<u32, u16>
    decreases writes.len(),
{
    if writes.len() == 0 {
        memory
    } else {
        after_word_writes(memory.insert(writes[0].0, writes[0].1), writes.drop_first())
    }
}

/// The longword at an address of word memory: the word there, then the word 2 bytes above.
pub open spec fn long_at(memory: Map<u32, u16>, address: u32) -> u32 {
    (memory[address] * 0x10000 + memory[wrap32(address + 2)]) as u32
}

/// A value within one turn of 2^32 either side of zero, reduced modulo 2^32.
proof fn lemma_wrap32_small(x: int)
    requires
        -0x1_0000_0000 <= x < 0x1_0000_0000,
    ensures
        wrap32(x) == if x >= 0 {
            x
        } else {
            x + 0x1_0000_0000
        },
{
    let m: int = 0x1_0000_0000;
    if x >= 0 {
        vstd::arithmetic::div_mod::lemma_small_mod(x as nat, m as nat);
    } else {
        vstd::arithmetic::div_mod::lemma_mod_add_multiples_vanish(x, m);
        vstd::arithmetic::div_mod::lemma_small_mod((x + m) as nat, m as nat);
    }
}

/// MOVEM.L to -(An) writes 2 words per register.
proof fn lemma_predecrement_len(mask: u16, registers: Registers, i: int, address: u32)
    requires
        0 <= i,
    ensures
        predecrement_writes(OpSize::LongWord, mask, registers, i, address).len() == 2
            * selected_count(mask, i),
    decreases 16 - i,
{
    if i < 16 {
        if mask_bit(mask, i) {
            lemma_predecrement_len(mask, registers, i + 1, wrap32(address - 4));
        } else {
            lemma_predecrement_len(mask, registers, i + 1, address);
        }
    }
}

/// The words of MOVEM.L to -(An) go to consecutive words below the starting address.
proof fn lemma_predecrement_addresses(mask: u16, registers: Registers, i: int, address: u32, n: int)
    requires
        0 <= i,
        0 <= n < predecrement_writes(OpSize::LongWord, mask, registers, i, address).len(),
    ensures
        predecrement_writes(OpSize::LongWord, mask, registers, i, address)[n].0 == wrap32(
            address - 2 - 2 * n,
        ),
    decreases 16 - i,
{
    if i < 16 {
        if mask_bit(mask, i) {
            if n >= 2 {
                lemma_predecrement_addresses(mask, registers, i + 1, wrap32(address - 4), n - 2);
                lemma_wrap32_sub(address - 4, 2 + 2 * (n - 2));
            }
        } else {
            lemma_predecrement_addresses(mask, registers, i + 1, address, n);
        }
    }
}

/// The register at bit `b` of MOVEM.L to -(An) goes out as its low word then its high word, at
/// the 2 words that follow those of the registers selected before it.
proof fn lemma_predecrement_entry(mask: u16, registers: Registers, i: int, address: u32, b: int)
    requires
        0 <= i <= b < 16,
        mask_bit(mask, b),
    ensures
        ({
            let q = selected_count(mask, i) - selected_count(mask, b);
            let value = register_value(registers, register_of(15 - b));
            let writes = predecrement_writes(OpSize::LongWord, mask, registers, i, address);
            &&& 0 <= q
            &&& 2 * q + 1 < writes.len()
            &&& writes[2 * q].1 == value as u16
            &&& writes[2 * q + 1].1 == (value >> 16) as u16
        }),
    decreases b - i,
{
    lemma_predecrement_len(mask, registers, i, address);
    if i < b {
        if mask_bit(mask, i) {
            lemma_predecrement_entry(mask, registers, i + 1, wrap32(address - 4), b);
        } else {
            lemma_predecrement_entry(mask, registers, i + 1, address, b);
        }
    }
}

/// After writes to pairwise distinct addresses, each address holds what was written to it.
proof fn lemma_distinct_writes_read_back(memory: Map<u32, u16>, writes: Seq<(u32, u16)>, n: int)
    requires
        0 <= n < writes.len(),
        forall|x: int, y: int|
            0 <= x < writes.len() && 0 <= y < writes.len() && x != y ==> writes[x].0
                != writes[y].0,
    ensures
        after_word_writes(memory, writes)[writes[n].0] == writes[n].1,
    decreases writes.len(),
{
    let rest = writes.drop_first();
    let inserted = memory.insert(writes[0].0, writes[0].1);
    if n == 0 {
        lemma_untouched_address(inserted, rest, writes[0].0);
    } else {
        assert forall|x: int, y: int|
            0 <= x < rest.len() && 0 <= y < rest.len() && x != y implies rest[x].0 != rest[y].0 by {
            assert(rest[x] == writes[x + 1] && rest[y] == writes[y + 1]);
        }
        lemma_distinct_writes_read_back(inserted, rest, n - 1);
    }
}

/// Writes elsewhere leave an address holding what it held.
proof fn lemma_untouched_address(memory: Map<u32, u16>, writes: Seq<(u32, u16)>, address: u32)
    requires
        forall|x: int| 0 <= x < writes.len() ==> writes[x].0 != address,
    ensures
        after_word_writes(memory, writes)[address] == memory[address],
    decreases writes.len(),
{
    if writes.len() > 0 {
        let rest = writes.drop_first();
        assert forall|x: int| 0 <= x < rest.len() implies rest[x].0 != address by {
            assert(rest[x] == writes[x + 1]);
        }
        lemma_untouched_address(memory.insert(writes[0].0, writes[0].1), rest, address);
    }
}

/// Bits `0..m` of a mask and bits `16 - m..16` of its mirror image select as many registers.
proof fn lemma_mirrored_counts(push_mask: u16, pop_mask: u16, m: int)
    requires
        0 <= m <= 16,
        forall|b: int| 0 <= b < 16 ==> mask_bit(pop_mask, b) == mask_bit(push_mask, 15 - b),
    ensures
        selected_count(pop_mask, 0) - selected_count(pop_mask, m) == selected_count(
            push_mask,
            16 - m,
        ),
    decreases m,
{
    if m > 0 {
        lemma_mirrored_counts(push_mask, pop_mask, m - 1);
        assert(selected_count(pop_mask, m - 1) == (if mask_bit(pop_mask, m - 1) {
            1int
        } else {
            0int
        }) + selected_count(pop_mask, m));
        assert(selected_count(push_mask, 16 - m) == (if mask_bit(push_mask, 16 - m) {
            1int
        } else {
            0int
        }) + selected_count(push_mask, 17 - m));
    }
}

/// A longword split into its high and low words and put back together is unchanged.
proof fn lemma_long_from_words(value: u32)
    ensures
        (((value >> 16) as u16) * 0x10000 + (value as u16)) as u32 == value,
{
    assert((((value >> 16) as u16) * 0x10000 + (value as u16)) as u32 == value) by (bit_vector);
}

/// Pushing registers with MOVEM.L to -(An) and popping them with MOVEM.L (An)+ (the pop's mask
/// is the mirror image of the push's, as the two forms number registers in opposite orders)
/// gives every register, An included, back the value it had, when the pop reads the longwords
/// that the push left in memory.
pub proof fn lemma_movem_push_pop(
    push_mask: u16,
    pop_mask: u16,
    registers: Registers,
    sp_register: AddressRegister,
    memory: Map<u32, u16>,
    pushed: Registers,
    after: Registers,
)
    requires
        sp_register.0 < 8,
        forall|b: int| 0 <= b < 16 ==> mask_bit(pop_mask, b) == mask_bit(push_mask, 15 - b),
        address_written(
            pushed,
            registers,
            sp_register.0 as int,
            wrap32(registers.a(sp_register.0 as int) - 4 * selected_count(push_mask, 0)),
        ),
        movem_loaded(
            after,
            pushed,
            OpSize::LongWord,
            pop_mask,
            wrap32(registers.a(sp_register.0 as int) - 4 * selected_count(push_mask, 0)),
            Some(sp_register),
            Seq::new(
                selected_count(push_mask, 0),
                |k: int|
                    long_at(
                        after_word_writes(
                            memory,
                            predecrement_writes(
                                OpSize::LongWord,
                                push_mask,
                                registers,
                                0,
                                registers.a(sp_register.0 as int),
                            ),
                        ),
                        wrap32(
                            wrap32(
                                registers.a(sp_register.0 as int) - 4 * selected_count(push_mask, 0),
                            ) + 4 * k,
                        ),
                    ),
            ),
        ),
    ensures
        after.data@ == registers.data@,
        after.address_view() == registers.address_view(),
        same_mode_and_flags(after, registers),
{
    let start = registers.a(sp_register.0 as int);
    let c = selected_count(push_mask, 0);
    let end = wrap32(start - 4 * c);
    let writes = predecrement_writes(OpSize::LongWord, push_mask, registers, 0, start);
    let mem = after_word_writes(memory, writes);
    let values = Seq::new(c, |k: int| long_at(mem, wrap32(end + 4 * k)));

    lemma_selected_count_bound(push_mask, 0);
    lemma_predecrement_len(push_mask, registers, 0, start);
    lemma_mirrored_counts(push_mask, pop_mask, 16);

    // every word goes to its own address
    assert forall|n: int| 0 <= n < writes.len() implies #[trigger] writes[n].0 == if start - 2 - 2
        * n >= 0 {
        start - 2 - 2 * n
    } else {
        start - 2 - 2 * n + 0x1_0000_0000
    } by {
        lemma_predecrement_addresses(push_mask, registers, 0, start, n);
        lemma_wrap32_small(start - 2 - 2 * n);
    }
    assert forall|x: int, y: int|
        0 <= x < writes.len() && 0 <= y < writes.len() && x != y implies writes[x].0
        != writes[y].0 by {
        assert(writes[x].0 == writes[x].0);
        assert(writes[y].0 == writes[y].0);
    }

    // the value a pop of the register at pop bit `b` loads is the register's value
    assert forall|b: int| 0 <= b < 16 && mask_bit(pop_mask, b) implies values[list_position(
        pop_mask,
        b,
    )] == register_value(registers, register_of(b)) by {
        let k = list_position(pop_mask, b);
        lemma_mirrored_counts(push_mask, pop_mask, b);
        lemma_mirrored_counts(push_mask, pop_mask, b + 1);
        assert(selected_count(pop_mask, b) == 1 + selected_count(pop_mask, b + 1));
        let p = c - 1 - k;
        lemma_predecrement_entry(push_mask, registers, 0, start, 15 - b);
        assert(selected_count(push_mask, 0) - selected_count(push_mask, 15 - b) == p);
        let value = register_value(registers, register_of(b));
        assert(register_of(15 - (15 - b)) == register_of(b));
        lemma_predecrement_addresses(push_mask, registers, 0, start, 2 * p);
        lemma_predecrement_addresses(push_mask, registers, 0, start, 2 * p + 1);
        lemma_distinct_writes_read_back(memory, writes, 2 * p);
        lemma_distinct_writes_read_back(memory, writes, 2 * p + 1);
        lemma_wrap32_add(start - 4 * c, 4 * k);
        lemma_wrap32_add(start - 4 * c + 4 * k, 2);
        assert(wrap32(end + 4 * k) == writes[2 * p + 1].0);
        assert(wrap32(wrap32(end + 4 * k) + 2) == writes[2 * p].0);
        lemma_long_from_words(value);
    }

    assert(wrap32(end + 4 * c) == start) by {
        lemma_wrap32_add(start - 4 * c, (4 * c) as int);
        vstd::arithmetic::div_mod::lemma_small_mod(start as nat, 0x1_0000_0000);
    }

    assert forall|r: int| 0 <= r < 8 implies after.data@[r] == registers.data@[r] by {
        assert(after.d(r) == after.data@[r]);
        if mask_bit(pop_mask, r) {
            assert(register_of(r) == Register::Data(DataRegister(r as u8)));
        }
    }
    assert forall|r: int| 0 <= r < 8 implies after.address_view()[r] == registers.address_view()[r] by {
        assert(after.a(r) == after.address_view()[r]);
        if r != sp_register.0 && mask_bit(pop_mask, 8 + r) {
            assert(register_of(8 + r) == Register::Address(AddressRegister(r as u8)));
        }
        if r == sp_register.0 {
            assert(Some(sp_register) == Some(AddressRegister(r as u8)));
        }
    }
    assert(after.data@.len() == 8 && registers.data@.len() == 8 && after.address@.len() == 7
        && registers.address@.len() == 7) by {
        broadcast use vstd::array::group_array_axioms;
    }
    assert(after.data@ =~= registers.data@);
    assert(after.address_view() =~= registers.address_view());
}

} // verus!
