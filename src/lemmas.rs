//! Facts about the memory model and address resolution that relate several
//! operations or hold for every input.

use vstd::prelude::*;

use crate::cpu::{AddressingMode, CPU, MEMORY_SIZE, lemma_combine_bytes, wrap16};

verus! {

/// After a write of `data` at `addr` (the effect that `CPU::write_mem` states),
/// reading `addr` gives back `data`, and every other address reads as before.
pub proof fn lemma_write_then_read(before: CPU, after: CPU, addr: u16, data: u8)
    requires
        before.wf(),
        after.mem() == before.mem().update(addr as int, data),
    ensures
        after.wf(),
        after.byte_at(addr) == data,
        forall|other: u16| other != addr ==> after.byte_at(other) == before.byte_at(other),
{
}

/// The word at `addr` is the byte at the next address shifted left by eight,
/// or'ed with the byte at `addr`; the next address after 0xFFFF is 0x0000.
pub proof fn lemma_word_is_two_bytes(cpu: CPU, addr: u16)
    ensures
        cpu.word_at(addr) == ((cpu.byte_at(wrap16(addr + 1)) as u16) << 8) | (cpu.byte_at(
            addr,
        ) as u16),
        addr == 0xFFFF ==> wrap16(addr + 1) == 0,
{
    lemma_combine_bytes(cpu.byte_at(addr), cpu.byte_at(wrap16(addr + 1)));
}

/// Zero-page indexed modes always resolve inside page zero, whatever the
/// base byte and the index register hold.
pub proof fn lemma_zero_page_indexed_in_page(cpu: CPU, pc: u16, mode: AddressingMode)
    requires
        mode == AddressingMode::ZeroPageX || mode == AddressingMode::ZeroPageY,
    ensures
        cpu.effective_address(pc, mode) < 0x100,
{
}

/// Absolute indexed modes add the index register to the base word and wrap
/// the sum at 16 bits.
pub proof fn lemma_absolute_indexed_wraps(cpu: CPU, pc: u16, mode: AddressingMode)
    requires
        mode == AddressingMode::AbsoluteX || mode == AddressingMode::AbsoluteY,
    ensures
        ({
            let base = cpu.word_at(wrap16(pc + 1)) as int;
            let index = if mode == AddressingMode::AbsoluteX {
                cpu.index_reg_x as int
            } else {
                cpu.index_reg_y as int
            };
            cpu.effective_address(pc, mode) as int == if base + index < MEMORY_SIZE {
                base + index
            } else {
                base + index - MEMORY_SIZE
            }
        }),
{
}

} // verus!
