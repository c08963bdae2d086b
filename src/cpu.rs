use vstd::prelude::*;

verus! {

/// Number of bytes in the 16-bit address space.
pub const MEMORY_SIZE: usize = 0x10000;

/// An address reduced modulo 2^16.
pub open spec fn wrap16(x: int) -> u16 {
    (x % 0x10000) as u16
}

/// An 8-bit value reduced modulo 2^8.
pub open spec fn wrap8(x: int) -> u8 {
    (x % 0x100) as u8
}

/// A byte read as a two's-complement signed offset.
pub open spec fn signed_byte(b: u8) -> int {
    if b < 0x80 {
        b as int
    } else {
        b as int - 0x100
    }
}

/// How far `addr` lies above `base`, counting upward through 0xFFFF to 0x0000.
pub open spec fn offset_from(base: u16, addr: u16) -> int {
    (addr - base) % 0x10000
}

/// How an instruction's operand bytes designate its effective address.
#[derive(Clone, Copy, Debug, PartialEq, Eq)]
pub enum AddressingMode {
    Absolute,
    AbsoluteX,
    AbsoluteY,
    ZeroPage,
    ZeroPageX,
    ZeroPageY,
    Immediate,
    Relative,
    Implicit,
    IndirectAddressing,
    IndexedIndirect,
    IndirectIndexed,
}

/// The backing store of the address space. Its bytes are reached only
/// through the accessors of [`CPU`].
pub struct Memory {
    bytes: Vec<u8>,
}

impl View for Memory {
    type V = Seq<u8>;

    closed spec fn view(&self) -> Seq<u8> {
        self.bytes@
    }
}

/// CPU registers and the full 64 KiB address space.
pub struct CPU {
    pub program_ctr: u16,
    pub stack_ptr: u8,
    pub accumulator: u8,
    pub index_reg_x: u8,
    pub index_reg_y: u8,
    pub proc_status: u8,
    pub memory: Memory,
}

impl CPU {
    /// The contents of memory, indexed by address.
    pub open spec fn mem(self) -> Seq<u8> {
        self.memory@
    }

    /// Every 16-bit address is a valid index into memory.
    pub open spec fn wf(self) -> bool {
        self.mem().len() == MEMORY_SIZE
    }

    /// The byte stored at `addr`.
    pub open spec fn byte_at(self, addr: u16) -> u8 {
        self.mem()[addr as int]
    }

    /// The little-endian word whose low byte is at `addr` and whose high byte
    /// is at the next address, wrapping from 0xFFFF to 0x0000.
    pub open spec fn word_at(self, addr: u16) -> u16 {
        (self.byte_at(addr) as int + 0x100 * self.byte_at(wrap16(addr + 1)) as int) as u16
    }

    /// The address that an instruction at `pc` using `mode` operates on.
    pub open spec fn effective_address(self, pc: u16, mode: AddressingMode) -> u16
        recommends
            mode != AddressingMode::Implicit,
    {
        let operand = wrap16(pc + 1);
        match mode {
            AddressingMode::Absolute => self.word_at(operand),
            AddressingMode::AbsoluteX => wrap16(self.word_at(operand) + self.index_reg_x),
            AddressingMode::AbsoluteY => wrap16(self.word_at(operand) + self.index_reg_y),
            AddressingMode::ZeroPage => self.byte_at(operand) as u16,
            AddressingMode::ZeroPageX => wrap8(self.byte_at(operand) + self.index_reg_x) as u16,
            AddressingMode::ZeroPageY => wrap8(self.byte_at(operand) + self.index_reg_y) as u16,
            AddressingMode::Immediate => operand,
            AddressingMode::Relative => wrap16(operand + signed_byte(self.byte_at(operand))),
            AddressingMode::Implicit => arbitrary(),
            AddressingMode::IndirectAddressing => self.word_at(self.word_at(operand)),
            AddressingMode::IndexedIndirect => self.word_at(
                wrap8(self.byte_at(operand) + self.index_reg_x) as u16,
            ),
            AddressingMode::IndirectIndexed => wrap16(
                self.word_at(self.byte_at(operand) as u16) + self.index_reg_y,
            ),
        }
    }

    /// A CPU with every register and every byte of memory set to zero.
    pub fn new() -> (r: CPU)
        ensures
            r.wf(),
            r.program_ctr == 0,
            r.stack_ptr == 0,
            r.accumulator == 0,
            r.index_reg_x == 0,
            r.index_reg_y == 0,
            r.proc_status == 0,
            forall|a: u16| r.byte_at(a) == 0,
    {
        let bytes: Vec<u8> = vec![0u8; MEMORY_SIZE];
        CPU {
            program_ctr: 0,
            stack_ptr: 0,
            accumulator: 0,
            index_reg_x: 0,
            index_reg_y: 0,
            proc_status: 0,
            memory: Memory { bytes },
        }
    }

    /// Reads the byte at `addr`.
    pub fn read_mem(&self, addr: u16) -> (r: u8)
        requires
            self.wf(),
        ensures
            r == self.byte_at(addr),
    {
        self.memory.bytes[addr as usize]
    }

    /// Stores `data` at `addr`, leaving every other byte and every register
    /// as it was.
    pub fn write_mem(&mut self, addr: u16, data: u8)
        requires
            old(self).wf(),
        ensures
            final(self).wf(),
            final(self).mem() == old(self).mem().update(addr as int, data),
            final(self).program_ctr == old(self).program_ctr,
            final(self).stack_ptr == old(self).stack_ptr,
            final(self).accumulator == old(self).accumulator,
            final(self).index_reg_x == old(self).index_reg_x,
            final(self).index_reg_y == old(self).index_reg_y,
            final(self).proc_status == old(self).proc_status,
    {
        self.memory.bytes.set(addr as usize, data);
    }

    /// Copies `image` into memory starting at `base`, one byte per address,
    /// wrapping from 0xFFFF to 0x0000. Bytes outside the loaded range and all
    /// registers keep their values.
    pub fn load(&mut self, base: u16, image: &[u8])
        requires
            old(self).wf(),
            image@.len() <= MEMORY_SIZE,
        ensures
            final(self).wf(),
            forall|a: u16|
                #[trigger] final(self).byte_at(a) == if offset_from(base, a) < image@.len() {
                    image@[offset_from(base, a)]
                } else {
                    old(self).byte_at(a)
                },
            final(self).program_ctr == old(self).program_ctr,
            final(self).stack_ptr == old(self).stack_ptr,
            final(self).accumulator == old(self).accumulator,
            final(self).index_reg_x == old(self).index_reg_x,
            final(self).index_reg_y == old(self).index_reg_y,
            final(self).proc_status == old(self).proc_status,
    {
        let mut i: usize = 0;
        while i < image.len()
            invariant
                self.wf(),
                i <= image@.len() <= MEMORY_SIZE,
                forall|a: u16|
                    #[trigger] self.byte_at(a) == if offset_from(base, a) < i {
                        image@[offset_from(base, a)]
                    } else {
                        old(self).byte_at(a)
                    },
                self.program_ctr == old(self).program_ctr,
                self.stack_ptr == old(self).stack_ptr,
                self.accumulator == old(self).accumulator,
                self.index_reg_x == old(self).index_reg_x,
                self.index_reg_y == old(self).index_reg_y,
                self.proc_status == old(self).proc_status,
            decreases image@.len() - i,
        {
            let addr: u16 = base.wrapping_add(i as u16);
            proof {
                lemma_wrap16(base + i);
                assert forall|a: u16| offset_from(base, a) == i <==> a == addr by {
                    lemma_offset_from(base, a);
                }
            }
            let ghost prev = *self;
            self.write_mem(addr, image[i]);
            proof {
                assert forall|a: u16|
                    #[trigger] self.byte_at(a) == if offset_from(base, a) < i + 1 {
                        image@[offset_from(base, a)]
                    } else {
                        old(self).byte_at(a)
                    } by {
                    lemma_offset_from(base, a);
                    if a != addr {
                        assert(self.byte_at(a) == prev.byte_at(a));
                    }
                }
            }
            i += 1;
        }
    }

    /// Reads the little-endian word at `addr`: low byte at `addr`, high byte
    /// at `addr + 1`, with the second address wrapping at 16 bits.
    pub fn read_u16_addr_in_mem(&self, addr: u16) -> (r: u16)
        requires
            self.wf(),
        ensures
            r == self.word_at(addr),
    {
        let lsb: u8 = self.read_mem(addr);
        let msb: u8 = self.read_mem(addr.wrapping_add(1));
        proof {
            lemma_combine_bytes(lsb, msb);
        }
        ((msb as u16) << 8) | (lsb as u16)
    }

    /// Computes the effective address of the instruction whose opcode is at
    /// `program_ctr`; its operand bytes follow at `program_ctr + 1` and, for
    /// two-byte operands, `program_ctr + 2`. Implicit-mode instructions have
    /// no address, and resolving one is a caller error.
    pub fn get_op_operand(&self, program_ctr: u16, addr_mode: AddressingMode) -> (r: u16)
        requires
            self.wf(),
            addr_mode != AddressingMode::Implicit,
        ensures
            r == self.effective_address(program_ctr, addr_mode),
            (addr_mode == AddressingMode::ZeroPage || addr_mode == AddressingMode::ZeroPageX
                || addr_mode == AddressingMode::ZeroPageY) ==> r < 0x100,
    {
        let operand: u16 = program_ctr.wrapping_add(1);
        proof {
            lemma_wrap16(program_ctr + 1);
        }
        match addr_mode {
            AddressingMode::Absolute => self.read_u16_addr_in_mem(operand),
            AddressingMode::AbsoluteX => {
                let base: u16 = self.read_u16_addr_in_mem(operand);
                proof {
                    lemma_wrap16(base + self.index_reg_x);
                }
                base.wrapping_add(self.index_reg_x as u16)
            },
            AddressingMode::AbsoluteY => {
                let base: u16 = self.read_u16_addr_in_mem(operand);
                proof {
                    lemma_wrap16(base + self.index_reg_y);
                }
                base.wrapping_add(self.index_reg_y as u16)
            },
            AddressingMode::ZeroPage => self.read_mem(operand) as u16,
            AddressingMode::ZeroPageX => {
                let base: u8 = self.read_mem(operand);
                proof {
                    lemma_wrap8(base + self.index_reg_x);
                }
                base.wrapping_add(self.index_reg_x) as u16
            },
            AddressingMode::ZeroPageY => {
                let base: u8 = self.read_mem(operand);
                proof {
                    lemma_wrap8(base + self.index_reg_y);
                }
                base.wrapping_add(self.index_reg_y) as u16
            },
            AddressingMode::Immediate => operand,
            AddressingMode::Relative => {
                let offset: u8 = self.read_mem(operand);
                let delta: i16 = if offset < 0x80 {
                    offset as i16
                } else {
                    offset as i16 - 0x100
                };
                proof {
                    lemma_wrap16(operand + signed_byte(offset));
                }
                operand.wrapping_add_signed(delta)
            },
            AddressingMode::Implicit => unreached(),
            AddressingMode::IndirectAddressing => {
                let pointer: u16 = self.read_u16_addr_in_mem(operand);
                self.read_u16_addr_in_mem(pointer)
            },
            AddressingMode::IndexedIndirect => {
                let base: u8 = self.read_mem(operand);
                proof {
                    lemma_wrap8(base + self.index_reg_x);
                }
                let pointer: u16 = base.wrapping_add(self.index_reg_x) as u16;
                self.read_u16_addr_in_mem(pointer)
            },
            AddressingMode::IndirectIndexed => {
                let pointer: u16 = self.read_mem(operand) as u16;
                let base: u16 = self.read_u16_addr_in_mem(pointer);
                proof {
                    lemma_wrap16(base + self.index_reg_y);
                }
                base.wrapping_add(self.index_reg_y as u16)
            },
        }
    }
}

/// Reduction modulo 2^16 of a value less than one modulus away from the range.
proof fn lemma_wrap16(x: int)
    requires
        -0x10000 <= x < 0x20000,
    ensures
        wrap16(x) as int == if x < 0 {
            x + 0x10000
        } else if x < 0x10000 {
            x
        } else {
            x - 0x10000
        },
{
}

/// Reduction modulo 2^8 of a value less than one modulus above the range.
proof fn lemma_wrap8(x: int)
    requires
        0 <= x < 0x200,
    ensures
        wrap8(x) as int == if x < 0x100 {
            x
        } else {
            x - 0x100
        },
{
}

/// An address is recovered from its offset above `base`.
proof fn lemma_offset_from(base: u16, addr: u16)
    ensures
        0 <= offset_from(base, addr) < 0x10000,
        offset_from(base, addr) == if addr >= base {
            addr - base
        } else {
            addr - base + 0x10000
        },
{
}

/// Joining two bytes with a shift and an `or` is the same as weighting the
/// high byte by 0x100.
pub(crate) proof fn lemma_combine_bytes(lo: u8, hi: u8)
    ensures
        ((hi as u16) << 8) | (lo as u16) == (lo as int + 0x100 * hi as int) as u16,
        lo as int + 0x100 * hi as int <= 0xFFFF,
{
    assert(((hi as u16) << 8) | (lo as u16) == (lo as u16) + 0x100 * (hi as u16)) by (bit_vector);
}

} // verus!
