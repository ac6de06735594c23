//! Which single-step conformance tests of the HuC6280 are skipped because the behavior they
//! record is undefined or cut short by the test format.
use crate::arm7tdmi::instructions::load::popcount;
use crate::huc6280::map_address_spec;
use vstd::prelude::*;

verus! {

pub const TMA_OPCODE: u8 = 0x43;

/// Block transfer opcodes: TII, TDD, TIN, TIA, TAI.
pub open spec fn is_block_transfer_opcode(opcode: u8) -> bool {
    opcode == 0x73 || opcode == 0xC3 || opcode == 0xD3 || opcode == 0xE3 || opcode == 0xF3
}

/// SBC opcodes in every addressing mode.
pub open spec fn is_sbc_opcode(opcode: u8) -> bool {
    opcode == 0xE1 || opcode == 0xE5 || opcode == 0xE9 || opcode == 0xED || opcode == 0xF1 || opcode
        == 0xF2 || opcode == 0xF5 || opcode == 0xF9 || opcode == 0xFD
}

/// A test is skipped when it is a TMA whose operand byte (after the opcode, at the physical
/// address PC maps to) does not have exactly one bit set; a block transfer whose final RAM list
/// reaches the format's limit of 499 entries; or a decimal-mode SBC whose result is not valid BCD.
pub open spec fn skip_test_spec(opcode: u8, initial_pc: u16, initial_mpr: Seq<u8>, initial_ram: Seq<(u32, u8)>, final_ram_len: int, initial_p: u8, final_a: u8) -> bool {
    let operand_address = map_address_spec(initial_mpr, initial_pc) + 1;
    ||| opcode == TMA_OPCODE && exists|i: int|
        0 <= i < initial_ram.len() && #[trigger] initial_ram[i].0 == operand_address && popcount(
            initial_ram[i].1 as u32,
            8,
        ) != 1
    ||| is_block_transfer_opcode(opcode) && final_ram_len >= 499
    ||| is_sbc_opcode(opcode) && initial_p & 0x08 != 0 && (final_a & 0x0F > 0x09 || final_a & 0xF0
        > 0x90)
}

fn bit_count(value: u8) -> (r: u32)
    ensures
        r == popcount(value as u32, 8),
{
    let mut count: u32 = 0;
    let mut i: u32 = 0;
    while i < 8
        invariant
            i <= 8,
            count == popcount(value as u32, i as int),
            count <= i,
        decreases 8 - i,
    {
        if ((value as u32) >> i) & 1 == 1 {
            count += 1;
        }
        i += 1;
    }
    count
}

/// Whether a conformance test should be skipped (see `skip_test_spec`).
pub fn should_skip_test(
    opcode: u8,
    initial_pc: u16,
    initial_mpr: [u8; 8],
    initial_ram: &Vec<(u32, u8)>,
    final_ram_len: usize,
    initial_p: u8,
    final_a: u8,
) -> (r: bool)
    ensures
        r == skip_test_spec(
            opcode,
            initial_pc,
            initial_mpr@,
            initial_ram@,
            final_ram_len as int,
            initial_p,
            final_a,
        ),
{
    // Skip TMA tests where the operand doesn't have exactly one bit set
    // When multiple bits are set, behavior is officially undefined and varies between different emulators
    // When no bits are set, A should get set to the MPR buffer contents, but the buffer contents
    // aren't specified anywhere in the test definition
    if opcode == TMA_OPCODE {
        let physical_pc = (initial_mpr[(initial_pc / 0x2000) as usize] as u32) * 0x2000 + (initial_pc
            % 0x2000) as u32;
        let mut i: usize = 0;
        while i < initial_ram.len()
            invariant
                i <= initial_ram@.len(),
                opcode == TMA_OPCODE,
                physical_pc == map_address_spec(initial_mpr@, initial_pc),
                forall|j: int|
                    0 <= j < i ==> !(#[trigger] initial_ram@[j].0 == physical_pc + 1 && popcount(
                        initial_ram@[j].1 as u32,
                        8,
                    ) != 1),
            decreases initial_ram@.len() - i,
        {
            let (address, value) = initial_ram[i];
            if address == physical_pc + 1 && bit_count(value) != 1 {
                return true;
            }
            i += 1;
        }
    }

    // Skip block transfer tests that hit the JSON test RAM limits; too many caveats to be useful
    let block_transfer = opcode == 0x73 || opcode == 0xC3 || opcode == 0xD3 || opcode == 0xE3
        || opcode == 0xF3;
    if block_transfer && final_ram_len >= 499 {
        return true;
    }

    // Skip SBC decimal mode tests that have invalid inputs (approximated by checking for invalid output)
    // Behavior is officially undefined and varies between different emulators
    let sbc = opcode == 0xE1 || opcode == 0xE5 || opcode == 0xE9 || opcode == 0xED || opcode == 0xF1
        || opcode == 0xF2 || opcode == 0xF5 || opcode == 0xF9 || opcode == 0xFD;
    if sbc && initial_p & 0x08 != 0 {
        if final_a & 0x0F > 0x09 || final_a & 0xF0 > 0x90 {
            return true;
        }
    }

    false
}

} // verus!
