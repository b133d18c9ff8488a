//! The machine-IR side of instruction selection: selection errors, and the
//! instruction sequences selection emits for vector operands and addresses.
use vstd::prelude::*;

use crate::codegen::machine::{
    Instruction, MachineFunction, Operand, RegisterClass, ValueDescription, ValueId, ValuePurpose,
};

verus! {

#[derive(Debug, Clone, PartialEq, Eq)]
pub enum SelectionError {
    MissingEntry,
    InvalidSignature(&'static str),
    UnsupportedOperation(String),
    Unsupported(&'static str),
    UndefinedValue,
}

/// A temporary of `register_count` registers of `register_class`.
pub open spec fn temporary(register_class: RegisterClass, register_count: u8) -> ValueDescription {
    ValueDescription {
        register_class,
        register_count,
        fixed_register: None,
        purpose: ValuePurpose::Temporary,
    }
}

/// Whether `source` already reads a vector register.
pub open spec fn reads_vector(function: MachineFunction, source: Operand) -> bool {
    source matches Operand::Value { value, .. } && function.values@[value.0 as int].register_class
        == RegisterClass::Vector
}

/// `source` as a vector operand: itself when it reads a vector register,
/// else a copy into a new vector temporary appended to `function`.
pub fn vector_operand(function: &mut MachineFunction, source: Operand) -> (r: Operand)
    requires
        source matches Operand::Value { value, .. } ==> value.0 < old(function).values@.len(),
        old(function).values@.len() < u32::MAX,
    ensures
        if reads_vector(*old(function), source) {
            r == source && final(function).values@ == old(function).values@
                && final(function).instructions@ == old(function).instructions@
        } else {
            let temporary_value = ValueId(old(function).values@.len() as u32);
            &&& r == (Operand::Value { value: temporary_value, element: 0 })
            &&& final(function).values@ == old(function).values@.push(
                temporary(RegisterClass::Vector, 1),
            )
            &&& final(function).instructions@ == old(function).instructions@.push(
                Instruction::Copy { destination: temporary_value, source },
            )
        },
{
    let is_vector = match source {
        Operand::Value { value, .. } => function.description(value).register_class
            == RegisterClass::Vector,
        _ => false,
    };
    if is_vector {
        source
    } else {
        let destination = function.add_value(RegisterClass::Vector, 1, None, ValuePurpose::Temporary);
        function.instructions.push(Instruction::Copy { destination, source });
        Operand::Value { value: destination, element: 0 }
    }
}

/// The high word of a sign-extended 32-bit index.
pub open spec fn sign_word(bits: u32) -> u32 {
    if bits >= 0x8000_0000 {
        0xffff_ffff
    } else {
        0
    }
}

/// The values `address` adds: the address pair, its carry predicate and,
/// for a register index, the index's high word.
pub open spec fn address_values(predicate_register: u8, index: Operand) -> Seq<ValueDescription> {
    seq![
        temporary(RegisterClass::Vector, 2),
        ValueDescription {
            register_class: RegisterClass::Predicate,
            register_count: 1,
            fixed_register: Some(predicate_register),
            purpose: ValuePurpose::Temporary,
        },
    ] + if index is Immediate {
        seq![]
    } else {
        seq![temporary(RegisterClass::Vector, 1)]
    }
}

/// The instructions computing the 64-bit address `pair + sext(index)` into
/// value `base` with carry `base + 1` (and high index `base + 2`).
pub open spec fn address_instructions(base: int, pair: ValueId, index: Operand) -> Seq<Instruction> {
    let destination = ValueId(base as u32);
    let carry = ValueId((base + 1) as u32);
    let high = ValueId((base + 2) as u32);
    let high_index = match index {
        Operand::Immediate(bits) => Operand::Immediate(sign_word(bits)),
        _ => Operand::Value { value: high, element: 0 },
    };
    (if index is Immediate {
        seq![]
    } else {
        seq![
            Instruction::IntegerShiftRight32 {
                destination: high,
                first: index,
                second: Operand::Immediate(31),
            },
        ]
    }) + seq![
        Instruction::AddressLow {
            destination,
            destination_element: 0,
            carry: Some(carry),
            first: Operand::Value { value: pair, element: 0 },
            second: index,
        },
        Instruction::AddressHigh {
            destination,
            destination_element: 1,
            first: Operand::Value { value: pair, element: 1 },
            second: high_index,
            carry: Operand::Value { value: carry, element: 0 },
        },
    ]
}

/// Emits the 64-bit address `pair + sext(index)` and returns its pair.
pub fn address(function: &mut MachineFunction, predicate_register: u8, pair: ValueId, index: Operand) -> (r:
    ValueId)
    requires
        old(function).values@.len() + 3 <= u32::MAX,
    ensures
        r == ValueId(old(function).values@.len() as u32),
        final(function).values@ == old(function).values@ + address_values(predicate_register, index),
        final(function).instructions@ == old(function).instructions@ + address_instructions(
            old(function).values@.len() as int,
            pair,
            index,
        ),
{
    let ghost base = function.values@.len() as int;
    let ghost values = function.values@;
    let ghost instructions = function.instructions@;
    let destination = function.add_value(RegisterClass::Vector, 2, None, ValuePurpose::Temporary);
    let carry = function.add_value(
        RegisterClass::Predicate,
        1,
        Some(predicate_register),
        ValuePurpose::Temporary,
    );
    let high_index = match index {
        Operand::Immediate(bits) => Operand::Immediate(
            if bits >= 0x8000_0000 {
                0xffff_ffff
            } else {
                0
            },
        ),
        _ => {
            let high = function.add_value(RegisterClass::Vector, 1, None, ValuePurpose::Temporary);
            function.instructions.push(
                Instruction::IntegerShiftRight32 {
                    destination: high,
                    first: index,
                    second: Operand::Immediate(31),
                },
            );
            Operand::Value { value: high, element: 0 }
        },
    };
    function.instructions.push(
        Instruction::AddressLow {
            destination,
            destination_element: 0,
            carry: Some(carry),
            first: Operand::Value { value: pair, element: 0 },
            second: index,
        },
    );
    function.instructions.push(
        Instruction::AddressHigh {
            destination,
            destination_element: 1,
            first: Operand::Value { value: pair, element: 1 },
            second: high_index,
            carry: Operand::Value { value: carry, element: 0 },
        },
    );
    assert(function.values@ =~= values + address_values(predicate_register, index));
    assert(function.instructions@ =~= instructions + address_instructions(base, pair, index));
    destination
}

/// The largest byte offset a global access encodes.
pub const MAX_GLOBAL_OFFSET: u32 = 4095;

/// `offset + addend` when it still fits the 12-bit global offset.
pub fn fold_offset(offset: u32, addend: u32) -> (r: Option<u32>)
    ensures
        r == (if offset + addend <= MAX_GLOBAL_OFFSET {
            Some((offset + addend) as u32)
        } else {
            None::<u32>
        }),
{
    match offset.checked_add(addend) {
        Some(combined) => if combined <= MAX_GLOBAL_OFFSET {
            Some(combined)
        } else {
            None
        },
        None => None,
    }
}

/// Whether export channel `channel` is enabled in `mask`.
pub open spec fn channel_on(mask: u32, channel: int) -> bool {
    if channel == 0 {
        mask & 1u32 != 0
    } else if channel == 1 {
        mask & 2u32 != 0
    } else if channel == 2 {
        mask & 4u32 != 0
    } else {
        mask & 8u32 != 0
    }
}

/// The lowest enabled channel of an export mask.
pub open spec fn lowest_channel(mask: u32) -> int {
    if channel_on(mask, 0) {
        0
    } else if channel_on(mask, 1) {
        1
    } else if channel_on(mask, 2) {
        2
    } else {
        3
    }
}

/// The lowest enabled channel of an export mask.
pub fn first_enabled_channel(mask: u32) -> (r: usize)
    ensures
        r == lowest_channel(mask),
{
    if mask & 1u32 != 0 {
        0
    } else if mask & 2u32 != 0 {
        1
    } else if mask & 4u32 != 0 {
        2
    } else {
        3
    }
}

/// Export operands with every disabled channel reading `inactive`.
pub fn fill_disabled_channels(values: [Operand; 4], mask: u32, inactive: Operand) -> (r: [Operand; 4])
    ensures
        forall|c: int|
            0 <= c < 4 ==> #[trigger] r[c] == (if channel_on(mask, c) {
                values[c]
            } else {
                inactive
            }),
{
    let r0 = if mask & 1u32 != 0 {
        values[0]
    } else {
        inactive
    };
    let r1 = if mask & 2u32 != 0 {
        values[1]
    } else {
        inactive
    };
    let r2 = if mask & 4u32 != 0 {
        values[2]
    } else {
        inactive
    };
    let r3 = if mask & 8u32 != 0 {
        values[3]
    } else {
        inactive
    };
    let r = [r0, r1, r2, r3];
    assert forall|c: int| 0 <= c < 4 implies #[trigger] r[c] == (if channel_on(mask, c) {
        values[c]
    } else {
        inactive
    }) by {
        if c == 0 {} else if c == 1 {} else if c == 2 {} else {}
    }
    r
}

/// The instruction a kill selects to: a known-false condition deactivates
/// every lane, a known-true one nothing, and a register a conditional kill.
pub fn lower_kill(condition: Operand) -> (r: Option<Instruction>)
    ensures
        r == (match condition {
            Operand::Immediate(bits) => if bits == 0 {
                Some(Instruction::ZeroExecutionMask)
            } else {
                None::<Instruction>
            },
            _ => Some(Instruction::Kill { condition }),
        }),
{
    match condition {
        Operand::Immediate(0) => Some(Instruction::ZeroExecutionMask),
        Operand::Immediate(_) => None,
        _ => Some(Instruction::Kill { condition }),
    }
}

} // verus!
