//! GFX10.3 machine-code encoder: instruction formats, inline constants and
//! the literal constant slot.
use vstd::prelude::*;

use crate::codegen::targets::gfx10::Gfx10Error;

verus! {

/// An instruction source operand after register assignment.
#[derive(Clone, Copy, Debug, PartialEq, Eq, Structural)]
pub enum Source {
    Scalar(u8),
    Vector(u8),
    Immediate(u32),
}

/// The little-endian bytes of a 32-bit word.
pub open spec fn word_bytes(word: u32) -> Seq<u8> {
    seq![
        (word & 0xff) as u8,
        ((word >> 8u32) & 0xff) as u8,
        ((word >> 16u32) & 0xff) as u8,
        ((word >> 24u32) & 0xff) as u8,
    ]
}

/// The trailing literal dword, when an instruction uses one.
pub open spec fn literal_bytes(literal: Option<u32>) -> Seq<u8> {
    match literal {
        Some(bits) => word_bytes(bits),
        None => seq![],
    }
}

/// The inline-constant source field for `bits`, when it has one: the
/// integers -16..=64 and the floats ±0.5, ±1, ±2, ±4 and 1/(2π).
pub open spec fn inline_constant(bits: u32) -> Option<u16> {
    if bits <= 64 {
        Some((128 + bits) as u16)
    } else if bits >= 0xffff_fff0 {
        Some((193 + (0xffff_ffff - bits)) as u16)
    } else if bits == 0x3f000000 {
        Some(240)
    } else if bits == 0xbf000000 {
        Some(241)
    } else if bits == 0x3f800000 {
        Some(242)
    } else if bits == 0xbf800000 {
        Some(243)
    } else if bits == 0x40000000 {
        Some(244)
    } else if bits == 0xc0000000 {
        Some(245)
    } else if bits == 0x40800000 {
        Some(246)
    } else if bits == 0xc0800000 {
        Some(247)
    } else if bits == 0x3e22f983 {
        Some(248)
    } else {
        None
    }
}

/// The 9-bit source field of `source`, and the literal slot after it. An
/// instruction has at most one literal: a second, different literal fails.
pub open spec fn encode_source(source: Source, literal: Option<u32>) -> Result<(u16, Option<u32>), Gfx10Error> {
    match source {
        Source::Scalar(register) => if register < 128 {
            Ok((register as u16, literal))
        } else {
            Err(Gfx10Error::Unsupported("scalar register out of range"))
        },
        Source::Vector(register) => Ok(((256 + register) as u16, literal)),
        Source::Immediate(bits) => match inline_constant(bits) {
            Some(field) => Ok((field, literal)),
            None => match literal {
                Some(previous) => if previous != bits {
                    Err(Gfx10Error::MultipleLiterals)
                } else {
                    Ok((255, literal))
                },
                None => Ok((255, Some(bits))),
            },
        },
    }
}

/// SOP1: `dst = op(src)` on scalar registers.
pub open spec fn sop1_bytes(opcode: u8, destination: u8, source: Source) -> Result<Seq<u8>, Gfx10Error> {
    if destination >= 128 {
        Err(Gfx10Error::Unsupported("scalar destination out of range"))
    } else {
        match encode_source(source, None) {
            Err(e) => Err(e),
            Ok((field, literal)) => if field > 255 {
                Err(Gfx10Error::Unsupported("vector source in scalar instruction"))
            } else {
                Ok(
                    word_bytes(
                        0xbe80_0000u32 | ((destination as u32) << 16u32) | ((opcode as u32) << 8u32)
                            | (field as u32),
                    ) + literal_bytes(literal),
                )
            },
        }
    }
}

/// SOP2: `dst = op(src0, src1)` on scalar registers.
pub open spec fn sop2_bytes(opcode: u8, destination: u8, first: Source, second: Source) -> Result<
    Seq<u8>,
    Gfx10Error,
> {
    if destination >= 128 {
        Err(Gfx10Error::Unsupported("scalar destination out of range"))
    } else {
        match encode_source(first, None) {
            Err(e) => Err(e),
            Ok((first_field, literal)) => match encode_source(second, literal) {
                Err(e) => Err(e),
                Ok((second_field, literal)) => if first_field > 255 || second_field > 255 {
                    Err(Gfx10Error::Unsupported("vector source in scalar instruction"))
                } else {
                    Ok(
                        word_bytes(
                            0x8000_0000u32 | ((opcode as u32) << 23u32) | ((destination as u32)
                                << 16u32) | ((second_field as u32) << 8u32) | (first_field as u32),
                        ) + literal_bytes(literal),
                    )
                },
            },
        }
    }
}

/// SOPP: program control with a 16-bit immediate.
pub open spec fn sopp_word(opcode: u8, immediate: i16) -> u32 {
    0xbf80_0000u32 | ((opcode as u32) << 16u32) | ((immediate as u16) as u32)
}

/// VOP1: `vdst = op(src0)`.
pub open spec fn vop1_bytes(opcode: u8, destination: u8, source: Source) -> Result<Seq<u8>, Gfx10Error> {
    match encode_source(source, None) {
        Err(e) => Err(e),
        Ok((field, literal)) => Ok(
            word_bytes(
                0x7e00_0000u32 | ((destination as u32) << 17u32) | ((opcode as u32) << 9u32)
                    | (field as u32),
            ) + literal_bytes(literal),
        ),
    }
}

/// A source field read over the scalar constant bus.
pub open spec fn uniform_field(field: u16) -> bool {
    field < 128 || field == 255
}

/// VOP3 opcodes that read all three sources.
pub open spec fn reads_three_sources(opcode: u16) -> bool {
    opcode == 0x101 || opcode == 0x14b || opcode == 0x15f || opcode == 0x16d || opcode == 0x16f
        || opcode == 0x128
}

/// RDNA2 permits at most two distinct uniform/literal sources on the VOP3
/// constant bus. The third field is ignored by two-input opcodes.
pub open spec fn constant_bus_overflows(opcode: u16, first: u16, second: u16, third: u16) -> bool {
    reads_three_sources(opcode) && uniform_field(first) && uniform_field(second) && uniform_field(
        third,
    ) && first != second && second != third && first != third
}

/// VOP3 (A form with modifiers, B form with a scalar destination).
pub open spec fn vop3_bytes(
    opcode: u16,
    destination: u8,
    scalar_destination: u8,
    sources: [Source; 3],
    absolute: u8,
    negative: u8,
    has_scalar_destination: bool,
) -> Result<Seq<u8>, Gfx10Error> {
    if opcode > 0x3ff || absolute > 7 || negative > 7 || (has_scalar_destination
        && scalar_destination >= 128) {
        Err(Gfx10Error::ImmediateRange)
    } else {
        match encode_source(sources[0], None) {
            Err(e) => Err(e),
            Ok((first, literal)) => match encode_source(sources[1], literal) {
                Err(e) => Err(e),
                Ok((second, literal)) => match encode_source(sources[2], literal) {
                    Err(e) => Err(e),
                    Ok((third, literal)) => if constant_bus_overflows(opcode, first, second, third) {
                        Err(Gfx10Error::Unsupported("VOP3 constant bus has more than two sources"))
                    } else {
                        let modifiers: u32 = if has_scalar_destination {
                            scalar_destination as u32
                        } else {
                            absolute as u32
                        };
                        Ok(
                            word_bytes(
                                0xd400_0000u32 | ((opcode as u32) << 16u32) | (modifiers << 8u32)
                                    | (destination as u32),
                            ) + word_bytes(
                                ((negative as u32) << 29u32) | ((third as u32) << 18u32) | ((
                                second as u32) << 9u32) | (first as u32),
                            ) + literal_bytes(literal),
                        )
                    },
                },
            },
        }
    }
}

/// VINTRP: one step of attribute interpolation.
pub open spec fn interp_bytes(
    second_step: bool,
    destination: u8,
    coordinate: u8,
    attribute: u8,
    channel: u8,
) -> Result<Seq<u8>, Gfx10Error> {
    if attribute > 31 || channel > 3 {
        Err(Gfx10Error::ImmediateRange)
    } else {
        Ok(
            word_bytes(
                0xc800_0000u32 | ((destination as u32) << 18u32) | ((if second_step {
                    1u32
                } else {
                    0u32
                }) << 16u32) | ((((attribute as u32) << 2u32) | (channel as u32)) << 8u32) | (
                coordinate as u32),
            ),
        )
    }
}

/// A VINTRP word, read back field by field: the encoding of one
/// interpolation step is accepted exactly for attributes up to 31 and
/// channels up to 3, and then its four little-endian bytes hold the
/// coordinate register (bits 0..8), the channel (bits 8..10), the attribute
/// (bits 10..15), the step (bit 16), the destination register (bits
/// 18..26) and the VINTRP encoding tag `0b110010` (bits 26..32).
pub proof fn lemma_interp_fields_read_back(
    second_step: bool,
    destination: u8,
    coordinate: u8,
    attribute: u8,
    channel: u8,
)
    ensures
        interp_bytes(second_step, destination, coordinate, attribute, channel) is Ok <==> (
        attribute <= 31 && channel <= 3),
        interp_bytes(second_step, destination, coordinate, attribute, channel) matches Ok(bytes)
            ==> {
            &&& bytes.len() == 4
            &&& bytes[0] == coordinate
            &&& bytes[1] & 3 == channel
            &&& bytes[1] >> 2u8 == attribute
            &&& bytes[2] & 1 == (if second_step {
                1u8
            } else {
                0u8
            })
            &&& bytes[2] & 2 == 0
            &&& (bytes[2] >> 2u8) | ((bytes[3] & 3) << 6u8) == destination
            &&& bytes[3] >> 2u8 == 0x32
        },
{
    if attribute <= 31 && channel <= 3 {
        let step: u32 = if second_step {
            1
        } else {
            0
        };
        let d = destination as u32;
        let a = attribute as u32;
        let c = channel as u32;
        let x = coordinate as u32;
        let w = 0xc800_0000u32 | (d << 18u32) | (step << 16u32) | (((a << 2u32) | c) << 8u32) | x;
        assert((w & 0xff) as u8 == coordinate) by (bit_vector)
            requires
                w == 0xc800_0000u32 | (d << 18u32) | (step << 16u32) | (((a << 2u32) | c) << 8u32)
                    | x,
                d < 256,
                step < 2,
                a < 32,
                c < 4,
                x == coordinate as u32,
        ;
        assert((((w >> 8u32) & 0xff) as u8) & 3 == channel && (((w >> 8u32) & 0xff) as u8) >> 2u8
            == attribute) by (bit_vector)
            requires
                w == 0xc800_0000u32 | (d << 18u32) | (step << 16u32) | (((a << 2u32) | c) << 8u32)
                    | x,
                d < 256,
                step < 2,
                x < 256,
                a == attribute as u32,
                c == channel as u32,
                attribute < 32,
                channel < 4,
        ;
        assert((((w >> 16u32) & 0xff) as u8) & 1 == step as u8 && (((w >> 16u32) & 0xff) as u8) & 2
            == 0 && ((((w >> 16u32) & 0xff) as u8) >> 2u8) | (((((w >> 24u32) & 0xff) as u8) & 3)
            << 6u8) == destination && (((w >> 24u32) & 0xff) as u8) >> 2u8 == 0x32) by (bit_vector)
            requires
                w == 0xc800_0000u32 | (d << 18u32) | (step << 16u32) | (((a << 2u32) | c) << 8u32)
                    | x,
                d == destination as u32,
                step < 2,
                x < 256,
                a < 32,
                c < 4,
        ;
        assert(step as u8 == (if second_step {
            1u8
        } else {
            0u8
        }));
    }
}

/// The first dword of a global load or store of one or four dwords.
pub open spec fn global_opcode(store: bool, register_count: u8) -> u32 {
    if store {
        if register_count == 1 {
            0xdc70_8000
        } else {
            0xdc78_8000
        }
    } else {
        if register_count == 1 {
            0xdc30_8000
        } else {
            0xdc38_8000
        }
    }
}

/// FLAT global memory access with a 12-bit unsigned offset and no SGPR base.
pub open spec fn global_memory_bytes(
    store: bool,
    register_count: u8,
    data: u8,
    address: u8,
    offset: u32,
) -> Result<Seq<u8>, Gfx10Error> {
    if !(register_count == 1 || register_count == 4) || offset > 4095 || data + register_count
        > 256 || address == 255 {
        Err(Gfx10Error::Unsupported("global memory operand or offset"))
    } else {
        Ok(
            word_bytes(global_opcode(store, register_count) | offset) + word_bytes(
                if store {
                    (0x7du32 << 16u32) | ((data as u32) << 8u32) | (address as u32)
                } else {
                    ((data as u32) << 24u32) | (0x7du32 << 16u32) | (address as u32)
                },
            ),
        )
    }
}

/// EXP: export to a color, depth, position or parameter target.
pub open spec fn export_bytes(target: u8, values: [u8; 4], mask: u8, done: bool, valid_mask: bool) -> Result<
    Seq<u8>,
    Gfx10Error,
> {
    if target > 63 || mask > 15 {
        Err(Gfx10Error::ImmediateRange)
    } else {
        Ok(
            word_bytes(
                0xf800_0000u32 | ((if valid_mask {
                    1u32
                } else {
                    0u32
                }) << 12u32) | ((if done {
                    1u32
                } else {
                    0u32
                }) << 11u32) | ((target as u32) << 4u32) | (mask as u32),
            ) + word_bytes(
                ((values[3] as u32) << 24u32) | ((values[2] as u32) << 16u32) | ((values[1] as u32)
                    << 8u32) | (values[0] as u32),
            ),
        )
    }
}

/// The appended bytes of an encoding step, or its error.
pub open spec fn appended(before: Seq<u8>, after: Seq<u8>, result: Result<(), Gfx10Error>, encoding: Result<Seq<u8>, Gfx10Error>) -> bool {
    match encoding {
        Ok(bytes) => result is Ok && after == before + bytes,
        Err(e) => result == Err::<(), Gfx10Error>(e) && after == before,
    }
}

/// The 16-bit branch displacement, in dwords after the branch, from the
/// branch at `position` to `target`.
pub open spec fn branch_displacement(position: int, target: int) -> int {
    (target - position - 4) / 4
}

/// The two's complement bits of a 16-bit displacement.
pub open spec fn displacement_bits(displacement: int) -> int {
    if displacement < 0 {
        displacement + 0x10000
    } else {
        displacement
    }
}

/// A machine-code buffer.
pub struct Encoder {
    pub code: Vec<u8>,
}

impl Encoder {
    pub fn new() -> (r: Self)
        ensures
            r.code@ == Seq::<u8>::empty(),
    {
        Encoder { code: Vec::new() }
    }

    pub fn pc(&self) -> (r: usize)
        ensures
            r == self.code@.len(),
    {
        self.code.len()
    }

    pub fn word(&mut self, word: u32)
        ensures
            final(self).code@ == old(self).code@ + word_bytes(word),
    {
        self.code.push((word & 0xff) as u8);
        self.code.push(((word >> 8u32) & 0xff) as u8);
        self.code.push(((word >> 16u32) & 0xff) as u8);
        self.code.push(((word >> 24u32) & 0xff) as u8);
        assert(final(self).code@ =~= old(self).code@ + word_bytes(word));
    }

    pub fn patch_branch(&mut self, position: usize, target: usize) -> (r: Result<(), Gfx10Error>)
        ensures
            ({
                let len = old(self).code@.len();
                if position % 4 != 0 || target % 4 != 0 || position + 4 > len || target > len {
                    r == Err::<(), Gfx10Error>(Gfx10Error::Malformed("invalid branch offset"))
                        && final(self).code@ == old(self).code@
                } else if branch_displacement(position as int, target as int) < -32768
                    || branch_displacement(position as int, target as int) > 32767 {
                    r == Err::<(), Gfx10Error>(Gfx10Error::ImmediateRange) && final(self).code@
                        == old(self).code@
                } else {
                    let bits = displacement_bits(branch_displacement(position as int, target as int));
                    r is Ok && final(self).code@ == old(self).code@.update(
                        position as int,
                        (bits % 256) as u8,
                    ).update(position + 1, (bits / 256) as u8)
                }
            }),
    {
        let len = self.code.len();
        if position % 4 != 0 || target % 4 != 0 || position > len || len - position < 4 || target
            > len {
            return Err(Gfx10Error::Malformed("invalid branch offset"));
        }
        let bits: u32 = if target >= position + 4 {
            let forward = (target - position - 4) / 4;
            if forward > 32767 {
                return Err(Gfx10Error::ImmediateRange);
            }
            forward as u32
        } else {
            let backward = (position + 4 - target) / 4;
            if backward > 32768 {
                return Err(Gfx10Error::ImmediateRange);
            }
            (0x10000 - backward) as u32
        };
        proof {
            let d = branch_displacement(position as int, target as int);
            if target >= position + 4 {
                assert(d == (target - position - 4) as int / 4);
            } else {
                assert((target - position - 4) as int == -((position + 4 - target) as int));
                assert(((position + 4 - target) as int) % 4 == 0);
                assert(d == -(((position + 4 - target) as int) / 4));
            }
        }
        self.code.set(position, (bits % 256) as u8);
        self.code.set(position + 1, (bits / 256) as u8);
        Ok(())
    }

    pub fn source(source: Source, literal: &mut Option<u32>) -> (r: Result<u16, Gfx10Error>)
        ensures
            match encode_source(source, *old(literal)) {
                Ok((field, slot)) => r == Ok::<u16, Gfx10Error>(field) && *final(literal) == slot,
                Err(e) => r == Err::<u16, Gfx10Error>(e) && *final(literal) == *old(literal),
            },
    {
        match source {
            Source::Scalar(register) => if register < 128 {
                Ok(register as u16)
            } else {
                Err(Gfx10Error::Unsupported("scalar register out of range"))
            },
            Source::Vector(register) => Ok(256 + register as u16),
            Source::Immediate(bits) => {
                let inline: Option<u16> = if bits <= 64 {
                    Some((128 + bits) as u16)
                } else if bits >= 0xffff_fff0 {
                    Some((193 + (0xffff_ffff - bits)) as u16)
                } else if bits == 0x3f000000 {
                    Some(240)
                } else if bits == 0xbf000000 {
                    Some(241)
                } else if bits == 0x3f800000 {
                    Some(242)
                } else if bits == 0xbf800000 {
                    Some(243)
                } else if bits == 0x40000000 {
                    Some(244)
                } else if bits == 0xc0000000 {
                    Some(245)
                } else if bits == 0x40800000 {
                    Some(246)
                } else if bits == 0xc0800000 {
                    Some(247)
                } else if bits == 0x3e22f983 {
                    Some(248)
                } else {
                    None
                };
                if let Some(inline) = inline {
                    return Ok(inline);
                }
                match *literal {
                    Some(previous) => {
                        if previous != bits {
                            return Err(Gfx10Error::MultipleLiterals);
                        }
                    },
                    None => {
                        *literal = Some(bits);
                    },
                }
                Ok(255)
            },
        }
    }

    pub fn emit_literal(&mut self, literal: Option<u32>)
        ensures
            final(self).code@ == old(self).code@ + literal_bytes(literal),
    {
        if let Some(literal) = literal {
            self.word(literal);
        } else {
            assert(old(self).code@ + literal_bytes(literal) =~= old(self).code@);
        }
    }

    pub fn sop1(&mut self, opcode: u8, destination: u8, source: Source) -> (r: Result<(), Gfx10Error>)
        ensures
            appended(old(self).code@, final(self).code@, r, sop1_bytes(opcode, destination, source)),
    {
        if destination >= 128 {
            return Err(Gfx10Error::Unsupported("scalar destination out of range"));
        }
        let mut literal = None;
        let source = Self::source(source, &mut literal)?;
        if source > 255 {
            return Err(Gfx10Error::Unsupported("vector source in scalar instruction"));
        }
        let ghost start = self.code@;
        let w = 0xbe80_0000u32 | ((destination as u32) << 16u32) | ((opcode as u32) << 8u32) | (
        source as u32);
        self.word(w);
        self.emit_literal(literal);
        assert(self.code@ =~= start + (word_bytes(w) + literal_bytes(literal)));
        Ok(())
    }

    pub fn sop2(&mut self, opcode: u8, destination: u8, first: Source, second: Source) -> (r: Result<
        (),
        Gfx10Error,
    >)
        ensures
            appended(
                old(self).code@,
                final(self).code@,
                r,
                sop2_bytes(opcode, destination, first, second),
            ),
    {
        if destination >= 128 {
            return Err(Gfx10Error::Unsupported("scalar destination out of range"));
        }
        let mut literal = None;
        let first = Self::source(first, &mut literal)?;
        let second = Self::source(second, &mut literal)?;
        if first > 255 || second > 255 {
            return Err(Gfx10Error::Unsupported("vector source in scalar instruction"));
        }
        let ghost start = self.code@;
        let w = 0x8000_0000u32 | ((opcode as u32) << 23u32) | ((destination as u32) << 16u32) | ((
        second as u32) << 8u32) | (first as u32);
        self.word(w);
        self.emit_literal(literal);
        assert(self.code@ =~= start + (word_bytes(w) + literal_bytes(literal)));
        Ok(())
    }

    pub fn sopp(&mut self, opcode: u8, immediate: i16)
        ensures
            final(self).code@ == old(self).code@ + word_bytes(sopp_word(opcode, immediate)),
    {
        self.word(0xbf80_0000u32 | ((opcode as u32) << 16u32) | ((immediate as u16) as u32));
    }

    pub fn vop1(&mut self, opcode: u8, destination: u8, source: Source) -> (r: Result<(), Gfx10Error>)
        ensures
            appended(old(self).code@, final(self).code@, r, vop1_bytes(opcode, destination, source)),
    {
        let mut literal = None;
        let source = Self::source(source, &mut literal)?;
        let ghost start = self.code@;
        let w = 0x7e00_0000u32 | ((destination as u32) << 17u32) | ((opcode as u32) << 9u32) | (
        source as u32);
        self.word(w);
        self.emit_literal(literal);
        assert(self.code@ =~= start + (word_bytes(w) + literal_bytes(literal)));
        Ok(())
    }

    pub fn vop3a(
        &mut self,
        opcode: u16,
        destination: u8,
        sources: [Source; 3],
        absolute: u8,
        negative: u8,
    ) -> (r: Result<(), Gfx10Error>)
        ensures
            appended(
                old(self).code@,
                final(self).code@,
                r,
                vop3_bytes(opcode, destination, 0, sources, absolute, negative, false),
            ),
    {
        self.vop3(opcode, destination, 0, sources, absolute, negative, false)
    }

    pub fn vop3b(&mut self, opcode: u16, destination: u8, scalar_destination: u8, sources: [Source; 3]) -> (r:
        Result<(), Gfx10Error>)
        ensures
            appended(
                old(self).code@,
                final(self).code@,
                r,
                vop3_bytes(opcode, destination, scalar_destination, sources, 0, 0, true),
            ),
    {
        self.vop3(opcode, destination, scalar_destination, sources, 0, 0, true)
    }

    pub fn vop3(
        &mut self,
        opcode: u16,
        destination: u8,
        scalar_destination: u8,
        sources: [Source; 3],
        absolute: u8,
        negative: u8,
        has_scalar_destination: bool,
    ) -> (r: Result<(), Gfx10Error>)
        ensures
            appended(
                old(self).code@,
                final(self).code@,
                r,
                vop3_bytes(
                    opcode,
                    destination,
                    scalar_destination,
                    sources,
                    absolute,
                    negative,
                    has_scalar_destination,
                ),
            ),
    {
        if opcode > 0x3ff || absolute > 7 || negative > 7 || (has_scalar_destination
            && scalar_destination >= 128) {
            return Err(Gfx10Error::ImmediateRange);
        }
        let mut literal = None;
        let first = Self::source(sources[0], &mut literal)?;
        let second = Self::source(sources[1], &mut literal)?;
        let third = Self::source(sources[2], &mut literal)?;
        let three = opcode == 0x101 || opcode == 0x14b || opcode == 0x15f || opcode == 0x16d
            || opcode == 0x16f || opcode == 0x128;
        let uniform_first = first < 128 || first == 255;
        let uniform_second = second < 128 || second == 255;
        let uniform_third = third < 128 || third == 255;
        if three && uniform_first && uniform_second && uniform_third && first != second && second
            != third && first != third {
            return Err(Gfx10Error::Unsupported("VOP3 constant bus has more than two sources"));
        }
        let modifiers: u32 = if has_scalar_destination {
            scalar_destination as u32
        } else {
            absolute as u32
        };
        let ghost start = self.code@;
        let w0 = 0xd400_0000u32 | ((opcode as u32) << 16u32) | (modifiers << 8u32) | (
        destination as u32);
        let w1 = ((negative as u32) << 29u32) | ((third as u32) << 18u32) | ((second as u32)
            << 9u32) | (first as u32);
        self.word(w0);
        self.word(w1);
        self.emit_literal(literal);
        assert(self.code@ =~= start + (word_bytes(w0) + word_bytes(w1) + literal_bytes(literal)));
        Ok(())
    }

    pub fn interp(
        &mut self,
        second_step: bool,
        destination: u8,
        coordinate: u8,
        attribute: u8,
        channel: u8,
    ) -> (r: Result<(), Gfx10Error>)
        ensures
            appended(
                old(self).code@,
                final(self).code@,
                r,
                interp_bytes(second_step, destination, coordinate, attribute, channel),
            ),
    {
        if attribute > 31 || channel > 3 {
            return Err(Gfx10Error::ImmediateRange);
        }
        let step: u32 = if second_step {
            1
        } else {
            0
        };
        self.word(
            0xc800_0000u32 | ((destination as u32) << 18u32) | (step << 16u32) | ((((
            attribute as u32) << 2u32) | (channel as u32)) << 8u32) | (coordinate as u32),
        );
        Ok(())
    }

    pub fn global_memory(
        &mut self,
        store: bool,
        register_count: u8,
        data: u8,
        address: u8,
        offset: u32,
    ) -> (r: Result<(), Gfx10Error>)
        ensures
            appended(
                old(self).code@,
                final(self).code@,
                r,
                global_memory_bytes(store, register_count, data, address, offset),
            ),
    {
        if !(register_count == 1 || register_count == 4) || offset > 4095 || data as u16
            + register_count as u16 > 256 || address == 255 {
            return Err(Gfx10Error::Unsupported("global memory operand or offset"));
        }
        let opcode: u32 = if store {
            if register_count == 1 {
                0xdc70_8000
            } else {
                0xdc78_8000
            }
        } else {
            if register_count == 1 {
                0xdc30_8000
            } else {
                0xdc38_8000
            }
        };
        let ghost start = self.code@;
        let w1 = if store {
            (0x7du32 << 16u32) | ((data as u32) << 8u32) | (address as u32)
        } else {
            ((data as u32) << 24u32) | (0x7du32 << 16u32) | (address as u32)
        };
        self.word(opcode | offset);
        self.word(w1);
        assert(self.code@ =~= start + (word_bytes(opcode | offset) + word_bytes(w1)));
        Ok(())
    }

    pub fn export(&mut self, target: u8, values: [u8; 4], mask: u8, done: bool, valid_mask: bool) -> (r:
        Result<(), Gfx10Error>)
        ensures
            appended(
                old(self).code@,
                final(self).code@,
                r,
                export_bytes(target, values, mask, done, valid_mask),
            ),
    {
        if target > 63 || mask > 15 {
            return Err(Gfx10Error::ImmediateRange);
        }
        let valid: u32 = if valid_mask {
            1
        } else {
            0
        };
        let finished: u32 = if done {
            1
        } else {
            0
        };
        let ghost start = self.code@;
        let w0 = 0xf800_0000u32 | (valid << 12u32) | (finished << 11u32) | ((target as u32) << 4u32)
            | (mask as u32);
        let w1 = ((values[3] as u32) << 24u32) | ((values[2] as u32) << 16u32) | ((values[1] as u32)
            << 8u32) | (values[0] as u32);
        self.word(w0);
        self.word(w1);
        assert(self.code@ =~= start + (word_bytes(w0) + word_bytes(w1)));
        Ok(())
    }
}

} // verus!
