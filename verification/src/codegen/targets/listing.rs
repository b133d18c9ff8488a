//! Human-readable GFX10.3 assembly listing of allocated instructions.
use vstd::prelude::*;

use crate::codegen::machine::{
    FloatBinaryOperation, FloatComparisonKind, Instruction, MachineFunction, Operand,
    RegisterClass, ValueId,
};
use crate::codegen::targets::emission::compare_opcode;
use crate::codegen::targets::encoding::Source;
use crate::codegen::targets::gfx10::{operand_source, Gfx10, Gfx10Error, EXEC_LO, M0, NULL, VCC_LO};
use crate::codegen::targets::Allocation;

verus! {

// ---------------------------------------------------------------------------
// Numbers and names
// ---------------------------------------------------------------------------
/// The text of a decimal digit.
pub open spec fn decimal_digit(d: int) -> Seq<char> {
    if d == 0 {
        "0"@
    } else if d == 1 {
        "1"@
    } else if d == 2 {
        "2"@
    } else if d == 3 {
        "3"@
    } else if d == 4 {
        "4"@
    } else if d == 5 {
        "5"@
    } else if d == 6 {
        "6"@
    } else if d == 7 {
        "7"@
    } else if d == 8 {
        "8"@
    } else {
        "9"@
    }
}

/// The text of a hexadecimal digit, in lower case.
pub open spec fn hex_digit(d: int) -> Seq<char> {
    if d < 10 {
        decimal_digit(d)
    } else if d == 10 {
        "a"@
    } else if d == 11 {
        "b"@
    } else if d == 12 {
        "c"@
    } else if d == 13 {
        "d"@
    } else if d == 14 {
        "e"@
    } else {
        "f"@
    }
}

/// `n` in decimal, without leading zeros.
pub open spec fn decimal(n: nat) -> Seq<char>
    decreases n,
{
    if n < 10 {
        decimal_digit(n as int)
    } else {
        decimal(n / 10) + decimal_digit((n % 10) as int)
    }
}

/// `n` in hexadecimal, without leading zeros.
pub open spec fn hexadecimal(n: nat) -> Seq<char>
    decreases n,
{
    if n < 16 {
        hex_digit(n as int)
    } else {
        hexadecimal(n / 16) + hex_digit((n % 16) as int)
    }
}

/// The low `width` hexadecimal digits of `n`, zero-padded.
pub open spec fn hex_padded(n: nat, width: nat) -> Seq<char>
    decreases width,
{
    if width == 0 {
        seq![]
    } else {
        hex_padded(n / 16, (width - 1) as nat) + hex_digit((n % 16) as int)
    }
}

/// A boolean as `true` or `false`.
pub open spec fn bool_text(b: bool) -> Seq<char> {
    if b {
        "true"@
    } else {
        "false"@
    }
}

/// The assembler name of a scalar register.
pub open spec fn scalar_text(register: u8) -> Seq<char> {
    if register == VCC_LO {
        "vcc_lo"@
    } else if register == M0 {
        "m0"@
    } else if register == NULL {
        "null"@
    } else if register == EXEC_LO {
        "exec_lo"@
    } else {
        "s"@ + decimal(register as nat)
    }
}

/// The debug form of an encoding error. Its messages hold no character that
/// the debug form escapes.
pub open spec fn error_text(error: Gfx10Error) -> Seq<char> {
    match error {
        Gfx10Error::Unsupported(message) => "Unsupported(\""@ + message@ + "\")"@,
        Gfx10Error::MultipleLiterals => "MultipleLiterals"@,
        Gfx10Error::ImmediateRange => "ImmediateRange"@,
        Gfx10Error::Malformed(message) => "Malformed(\""@ + message@ + "\")"@,
    }
}

/// The listing of an operand after allocation.
#[verifier::opaque]
pub open spec fn operand_text(function: MachineFunction, bases: Seq<u8>, operand: Operand) -> Seq<
    char,
> {
    match operand_source(function, bases, operand) {
        Ok(Source::Vector(register)) => "v"@ + decimal(register as nat),
        Ok(Source::Scalar(register)) => scalar_text(register),
        Ok(Source::Immediate(bits)) => "0x"@ + hex_padded(bits as nat, 8),
        Err(error) => "invalid operand: "@ + error_text(error),
    }
}

/// The listing of a value's first register.
#[verifier::opaque]
pub open spec fn value_text(function: MachineFunction, bases: Seq<u8>, value: ValueId) -> Seq<char> {
    operand_text(function, bases, Operand::Value { value, element: 0 })
}

/// The listing of an optional scalar destination; `null` when absent.
#[verifier::opaque]
pub open spec fn optional_value_text(function: MachineFunction, bases: Seq<u8>, value: Option<ValueId>) -> Seq<
    char,
> {
    match value {
        Some(value) => value_text(function, bases, value),
        None => scalar_text(NULL),
    }
}

pub open spec fn comparison_text(comparison: FloatComparisonKind) -> Seq<char> {
    match comparison {
        FloatComparisonKind::OrderedLessThan => "lt"@,
        FloatComparisonKind::OrderedEqual => "eq"@,
        FloatComparisonKind::OrderedLessThanOrEqual => "le"@,
        FloatComparisonKind::OrderedGreaterThan => "gt"@,
        FloatComparisonKind::OrderedNotEqual => "lg"@,
        FloatComparisonKind::OrderedGreaterThanOrEqual => "ge"@,
        FloatComparisonKind::UnorderedLessThan => "nge"@,
        FloatComparisonKind::UnorderedEqual => "nlg"@,
        FloatComparisonKind::UnorderedLessThanOrEqual => "ngt"@,
        FloatComparisonKind::UnorderedGreaterThan => "nle"@,
        FloatComparisonKind::UnorderedNotEqual => "neq"@,
        FloatComparisonKind::UnorderedGreaterThanOrEqual => "nlt"@,
        FloatComparisonKind::AlwaysTrue => "true"@,
        FloatComparisonKind::AlwaysFalse => "false"@,
    }
}

/// The mnemonic suffix of VOPC opcode `opcode` of the GFX10 `v_cmp_*_f32`
/// family, as the ISA names them: 0 `f`, 1 `lt`, 2 `eq`, 3 `le`, 4 `gt`,
/// 5 `lg`, 6 `ge`, 7 `o`, 8 `u`, 9 `nge`, 10 `nlg`, 11 `ngt`, 12 `nle`,
/// 13 `neq`, 14 `nlt`, 15 `tru`.
pub open spec fn vopc_f32_suffix(opcode: u16) -> Seq<char> {
    seq![
        "f"@,
        "lt"@,
        "eq"@,
        "le"@,
        "gt"@,
        "lg"@,
        "ge"@,
        "o"@,
        "u"@,
        "nge"@,
        "nlg"@,
        "ngt"@,
        "nle"@,
        "neq"@,
        "nlt"@,
        "tru"@,
    ][opcode as int]
}

/// The listing names a comparison by the ISA mnemonic of the opcode the
/// encoder emits for it: `v_cmp_<suffix>_f32` with the suffix of
/// `compare_opcode`. (The always-true and always-false comparisons are
/// listed and encoded as scalar moves.)
pub proof fn lemma_listed_comparison_matches_encoding(comparison: FloatComparisonKind)
    requires
        comparison != FloatComparisonKind::AlwaysTrue,
        comparison != FloatComparisonKind::AlwaysFalse,
    ensures
        compare_opcode(comparison) < 16,
        comparison_text(comparison) == vopc_f32_suffix(compare_opcode(comparison)),
{
}

/// The component letter of an interpolated channel.
pub open spec fn channel_text(channel: u32) -> Seq<char> {
    if channel == 0 {
        "x"@
    } else if channel == 1 {
        "y"@
    } else if channel == 2 {
        "z"@
    } else if channel == 3 {
        "w"@
    } else {
        "invalid"@
    }
}

// ---------------------------------------------------------------------------
// Building the text
// ---------------------------------------------------------------------------
fn append_digit(text: &mut String, d: u64)
    requires
        d < 16,
    ensures
        final(text)@ == old(text)@ + hex_digit(d as int),
{
    let digit = match d {
        0 => "0",
        1 => "1",
        2 => "2",
        3 => "3",
        4 => "4",
        5 => "5",
        6 => "6",
        7 => "7",
        8 => "8",
        9 => "9",
        10 => "a",
        11 => "b",
        12 => "c",
        13 => "d",
        14 => "e",
        _ => "f",
    };
    text.append(digit);
}

fn append_decimal(text: &mut String, n: u64)
    ensures
        final(text)@ == old(text)@ + decimal(n as nat),
    decreases n,
{
    let ghost start = text@;
    if n >= 10 {
        append_decimal(text, n / 10);
    }
    append_digit(text, n % 10);
    assert(text@ =~= start + decimal(n as nat));
}

fn append_hexadecimal(text: &mut String, n: u64)
    ensures
        final(text)@ == old(text)@ + hexadecimal(n as nat),
    decreases n,
{
    let ghost start = text@;
    if n >= 16 {
        append_hexadecimal(text, n / 16);
    }
    append_digit(text, n % 16);
    assert(text@ =~= start + hexadecimal(n as nat));
}

fn append_hex_padded(text: &mut String, n: u64, width: u64)
    ensures
        final(text)@ == old(text)@ + hex_padded(n as nat, width as nat),
    decreases width,
{
    let ghost start = text@;
    if width > 0 {
        append_hex_padded(text, n / 16, width - 1);
        append_digit(text, n % 16);
    }
    assert(text@ =~= start + hex_padded(n as nat, width as nat));
}

fn append_bool(text: &mut String, b: bool)
    ensures
        final(text)@ == old(text)@ + bool_text(b),
{
    if b {
        text.append("true");
    } else {
        text.append("false");
    }
}

/// The assembler name of a scalar register.
pub fn scalar_name(register: u8) -> (r: String)
    ensures
        r@ == scalar_text(register),
{
    match register {
        VCC_LO => String::from_str("vcc_lo"),
        M0 => String::from_str("m0"),
        NULL => String::from_str("null"),
        EXEC_LO => String::from_str("exec_lo"),
        _ => {
            let mut name = String::from_str("s");
            append_decimal(&mut name, register as u64);
            name
        },
    }
}

/// The condition suffix of a `v_cmp` mnemonic.
pub fn comparison_mnemonic(comparison: FloatComparisonKind) -> (r: &'static str)
    ensures
        r@ == comparison_text(comparison),
{
    match comparison {
        FloatComparisonKind::OrderedLessThan => "lt",
        FloatComparisonKind::OrderedEqual => "eq",
        FloatComparisonKind::OrderedLessThanOrEqual => "le",
        FloatComparisonKind::OrderedGreaterThan => "gt",
        FloatComparisonKind::OrderedNotEqual => "lg",
        FloatComparisonKind::OrderedGreaterThanOrEqual => "ge",
        FloatComparisonKind::UnorderedLessThan => "nge",
        FloatComparisonKind::UnorderedEqual => "nlg",
        FloatComparisonKind::UnorderedLessThanOrEqual => "ngt",
        FloatComparisonKind::UnorderedGreaterThan => "nle",
        FloatComparisonKind::UnorderedNotEqual => "neq",
        FloatComparisonKind::UnorderedGreaterThanOrEqual => "nlt",
        FloatComparisonKind::AlwaysTrue => "true",
        FloatComparisonKind::AlwaysFalse => "false",
    }
}

fn append_error(text: &mut String, error: &Gfx10Error)
    ensures
        final(text)@ == old(text)@ + error_text(*error),
{
    let ghost start = text@;
    match error {
        Gfx10Error::Unsupported(message) => {
            text.append("Unsupported(\"");
            text.append(message);
            text.append("\")");
        },
        Gfx10Error::MultipleLiterals => {
            text.append("MultipleLiterals");
        },
        Gfx10Error::ImmediateRange => {
            text.append("ImmediateRange");
        },
        Gfx10Error::Malformed(message) => {
            text.append("Malformed(\"");
            text.append(message);
            text.append("\")");
        },
    }
    assert(text@ =~= start + error_text(*error));
}

fn append_channel(text: &mut String, channel: u32)
    ensures
        final(text)@ == old(text)@ + channel_text(channel),
{
    let name = match channel {
        0 => "x",
        1 => "y",
        2 => "z",
        3 => "w",
        _ => "invalid",
    };
    text.append(name);
}

impl Gfx10 {
    fn append_operand(
        &self,
        text: &mut String,
        function: &MachineFunction,
        allocation: &Allocation,
        operand: Operand,
    )
        ensures
            final(text)@ == old(text)@ + operand_text(*function, allocation.bases@, operand),
    {
        reveal(operand_text);
        let ghost start = text@;
        match self.source(function, allocation, operand) {
            Ok(Source::Vector(register)) => {
                text.append("v");
                append_decimal(text, register as u64);
            },
            Ok(Source::Scalar(register)) => {
                let name = scalar_name(register);
                text.append(name.as_str());
            },
            Ok(Source::Immediate(bits)) => {
                text.append("0x");
                append_hex_padded(text, bits as u64, 8);
            },
            Err(error) => {
                text.append("invalid operand: ");
                append_error(text, &error);
            },
        }
        assert(text@ =~= start + operand_text(*function, allocation.bases@, operand));
    }

    fn append_value(
        &self,
        text: &mut String,
        function: &MachineFunction,
        allocation: &Allocation,
        value: ValueId,
    )
        ensures
            final(text)@ == old(text)@ + value_text(*function, allocation.bases@, value),
    {
        reveal(value_text);
        self.append_operand(text, function, allocation, Operand::Value { value, element: 0 });
    }

    fn append_optional_value(
        &self,
        text: &mut String,
        function: &MachineFunction,
        allocation: &Allocation,
        value: Option<ValueId>,
    )
        ensures
            final(text)@ == old(text)@ + optional_value_text(*function, allocation.bases@, value),
    {
        reveal(optional_value_text);
        match value {
            Some(value) => self.append_value(text, function, allocation, value),
            None => {
                let name = scalar_name(NULL);
                text.append(name.as_str());
            },
        }
    }
}

// ---------------------------------------------------------------------------
// Instructions
// ---------------------------------------------------------------------------
/// The listing of a move, arithmetic or address instruction.
pub open spec fn arithmetic_text(function: MachineFunction, bases: Seq<u8>, instruction: Instruction) -> Seq<
    char,
> {
    let op = |operand: Operand| operand_text(function, bases, operand);
    let dst = |value: ValueId| value_text(function, bases, value);
    let sep = ", "@;
    match instruction {
        Instruction::Constant { destination, bits } => (if function.values@[destination.0 as int].register_class
            == RegisterClass::Vector {
            "v"@
        } else {
            "s"@
        }) + "_mov_b32 "@ + dst(destination) + ", 0x"@ + hex_padded(bits as nat, 8),
        Instruction::Copy { destination, source } => (if function.values@[destination.0 as int].register_class
            == RegisterClass::Vector {
            "v"@
        } else {
            "s"@
        }) + "_mov_b32 "@ + dst(destination) + sep + op(source),
        Instruction::FloatBinary { operation, destination, first, second } => "v_"@ + (
        match operation {
            FloatBinaryOperation::Add => "add"@,
            FloatBinaryOperation::Subtract => "sub"@,
            FloatBinaryOperation::Multiply => "mul"@,
        }) + "_f32 "@ + dst(destination) + sep + op(first) + sep + op(second),
        Instruction::FloatDivide { destination, first, second } => "fdiv "@ + dst(destination) + sep
            + op(first) + sep + op(second),
        Instruction::FusedMultiplyAdd { destination, first, second, third, negate_first } =>
            "v_fma_f32 "@ + dst(destination) + sep + (if negate_first {
            "-"@
        } else {
            ""@
        }) + op(first) + sep + op(second) + sep + op(third),
        Instruction::FusedMultiplyAccumulate { destination, first, second } => "v_fmac_f32 "@ + dst(
            destination,
        ) + sep + op(first) + sep + op(second),
        Instruction::Reciprocal { destination, source } => "v_rcp_f32 "@ + dst(destination) + sep
            + op(source),
        Instruction::ExponentialBaseTwo { destination, source } => "exp2 "@ + dst(destination) + sep
            + op(source),
        Instruction::HardwareExponentialBaseTwo { destination, source } => "v_exp_f32 "@ + dst(
            destination,
        ) + sep + op(source),
        Instruction::LoadExponent { destination, first, second } => "v_ldexp_f32 "@ + dst(
            destination,
        ) + sep + op(first) + sep + op(second),
        Instruction::DivideScale { destination, predicate, first, second, third } =>
            "v_div_scale_f32 "@ + dst(destination) + sep + optional_value_text(
            function,
            bases,
            predicate,
        ) + sep + op(first) + sep + op(second) + sep + op(third),
        Instruction::DivideFusedMultiplyAdd { destination, first, second, third, predicate } =>
            "v_div_fmas_f32 "@ + dst(destination) + sep + op(first) + sep + op(second) + sep + op(
            third,
        ) + " (predicate "@ + op(predicate) + ")"@,
        Instruction::DivideFixup { destination, first, second, third } => "v_div_fixup_f32 "@ + dst(
            destination,
        ) + sep + op(first) + sep + op(second) + sep + op(third),
        Instruction::FloatCompare { comparison, destination, first, second } => match comparison {
            FloatComparisonKind::AlwaysTrue => "s_mov_b32 "@ + dst(destination) + ", -1"@,
            FloatComparisonKind::AlwaysFalse => "s_mov_b32 "@ + dst(destination) + ", 0"@,
            _ => "v_cmp_"@ + comparison_text(comparison) + "_f32 "@ + dst(destination) + sep + op(
                first,
            ) + sep + op(second),
        },
        Instruction::Select { destination, condition, when_true, when_false } => "v_cndmask_b32 "@
            + dst(destination) + sep + op(when_false) + sep + op(when_true) + sep + op(condition),
        Instruction::IntegerMultiply { destination, first, second } => "v_mul_lo_u32 "@ + dst(
            destination,
        ) + sep + op(first) + sep + op(second),
        Instruction::IntegerShiftRight32 { destination, first, second } => "v_ashrrev_i32 "@ + dst(
            destination,
        ) + sep + op(second) + sep + op(first),
        Instruction::AddressLow { destination, destination_element, carry, first, second } =>
            "v_add_co_u32 "@ + op(Operand::Value { value: destination, element: destination_element })
            + sep + optional_value_text(function, bases, carry) + sep + op(first) + sep + op(second),
        Instruction::AddressHigh { destination, destination_element, first, second, carry } =>
            "v_add_co_ci_u32 "@ + op(
            Operand::Value { value: destination, element: destination_element },
        ) + sep + scalar_text(NULL) + sep + op(first) + sep + op(second) + sep + op(carry),
        _ => seq![],
    }
}

/// The listing of a memory, interpolation, export or control instruction.
pub open spec fn control_text(function: MachineFunction, bases: Seq<u8>, instruction: Instruction) -> Seq<
    char,
> {
    let op = |operand: Operand| operand_text(function, bases, operand);
    let sep = ", "@;
    match instruction {
        Instruction::LoadGlobal { destination, register_count, address, offset } =>
            "global_load_dword"@ + (if register_count == 1 {
            ""@
        } else {
            "x4"@
        }) + " "@ + value_text(function, bases, destination) + sep + op(address) + ", off offset:"@
            + decimal(offset as nat),
        Instruction::StoreGlobal { register_count, address, offset, source } => "global_store_dword"@
            + (if register_count == 1 {
            ""@
        } else {
            "x4"@
        }) + " "@ + op(address) + sep + op(source) + ", off offset:"@ + decimal(offset as nat),
        Instruction::Interpolate {
            second_step,
            destination,
            coordinates,
            previous_value,
            primitive_mask,
            attribute,
            channel,
        } => "v_interp_p"@ + (if second_step {
            "2"@
        } else {
            "1"@
        }) + "_f32 "@ + value_text(function, bases, destination) + sep + op(coordinates) + ", attr"@
            + decimal(attribute as nat) + "."@ + channel_text(channel) + " (m0 <- "@ + op(
            primitive_mask,
        ) + ")"@ + match previous_value {
            Some(previous) => " (previous "@ + op(previous) + ")"@,
            None => ""@,
        },
        Instruction::Export { target, values, mask, done, valid_mask } => "exp "@ + decimal(
            target as nat,
        ) + " "@ + op(values[0]) + sep + op(values[1]) + sep + op(values[2]) + sep + op(values[3])
            + " en:"@ + hexadecimal(mask as nat) + " done:"@ + bool_text(done) + " vm:"@ + bool_text(
            valid_mask,
        ),
        Instruction::Kill { condition } => "kill "@ + op(condition),
        Instruction::WaitForLoads => "s_waitcnt vmcnt(0)"@,
        Instruction::ZeroExecutionMask => "s_mov_b32 exec_lo, 0"@,
        Instruction::AndExecutionMaskWithPredicate { predicate } => "s_and_b32 exec_lo, exec_lo, "@
            + op(predicate),
        Instruction::BranchIfNoActiveLanes { label } => "s_cbranch_execz label"@ + decimal(
            label as nat,
        ),
        Instruction::Branch { label } => "s_branch label"@ + decimal(label as nat),
        Instruction::BranchIfPredicate { predicate, label } => "s_and_b32 null, exec_lo, "@ + op(
            predicate,
        ) + "; s_cbranch_scc1 label"@ + decimal(label as nat),
        Instruction::Label { id } => "label"@ + decimal(id as nat) + ":"@,
        Instruction::Return => "s_endpgm"@,
        _ => seq![],
    }
}

/// Whether an instruction is listed by `control_text`.
pub open spec fn is_control(instruction: Instruction) -> bool {
    instruction is LoadGlobal || instruction is StoreGlobal || instruction is Interpolate
        || instruction is Export || instruction is Kill || instruction is WaitForLoads
        || instruction is ZeroExecutionMask || instruction is AndExecutionMaskWithPredicate
        || instruction is BranchIfNoActiveLanes || instruction is Branch
        || instruction is BranchIfPredicate || instruction is Label || instruction is Return
}

/// The listing of instruction `index` of an allocated function.
pub open spec fn instruction_listing(function: MachineFunction, bases: Seq<u8>, index: usize) -> Seq<
    char,
> {
    if index >= function.instructions@.len() {
        "invalid instruction index "@ + decimal(index as nat)
    } else if is_control(function.instructions@[index as int]) {
        control_text(function, bases, function.instructions@[index as int])
    } else {
        arithmetic_text(function, bases, function.instructions@[index as int])
    }
}

/// Whether listing instruction `index` reads only known values from the
/// value table: a constant or copy names its destination's register file.
pub open spec fn listable(function: MachineFunction, index: usize) -> bool {
    index < function.instructions@.len() && (function.instructions@[index as int] is Constant
        || function.instructions@[index as int] is Copy) ==> match function.instructions@[index as int] {
        Instruction::Constant { destination, .. } => destination.0 < function.values@.len(),
        Instruction::Copy { destination, .. } => destination.0 < function.values@.len(),
        _ => true,
    }
}

impl Gfx10 {
    fn arithmetic_listing(
        &self,
        function: &MachineFunction,
        allocation: &Allocation,
        instruction: Instruction,
    ) -> (text: String)
        requires
            instruction is Constant ==> instruction->Constant_destination.0 < function.values@.len(),
            instruction is Copy ==> instruction->Copy_destination.0 < function.values@.len(),
        ensures
            text@ == arithmetic_text(*function, allocation.bases@, instruction),
    {
        match instruction {
            Instruction::Constant { destination, bits } => {
                let mut t = if function.description(destination).register_class
                    == RegisterClass::Vector {
                    String::from_str("v")
                } else {
                    String::from_str("s")
                };
                t.append("_mov_b32 ");
                self.append_value(&mut t, function, allocation, destination);
                t.append(", 0x");
                append_hex_padded(&mut t, bits as u64, 8);
                t
            },
            Instruction::Copy { destination, source } => {
                let mut t = if function.description(destination).register_class
                    == RegisterClass::Vector {
                    String::from_str("v")
                } else {
                    String::from_str("s")
                };
                t.append("_mov_b32 ");
                self.append_value(&mut t, function, allocation, destination);
                t.append(", ");
                self.append_operand(&mut t, function, allocation, source);
                t
            },
            Instruction::FloatBinary { operation, destination, first, second } => {
                let mut t = String::from_str("v_");
                match operation {
                    FloatBinaryOperation::Add => t.append("add"),
                    FloatBinaryOperation::Subtract => t.append("sub"),
                    FloatBinaryOperation::Multiply => t.append("mul"),
                }
                t.append("_f32 ");
                self.append_value(&mut t, function, allocation, destination);
                t.append(", ");
                self.append_operand(&mut t, function, allocation, first);
                t.append(", ");
                self.append_operand(&mut t, function, allocation, second);
                t
            },
            Instruction::FloatDivide { destination, first, second } => {
                let mut t = String::from_str("fdiv ");
                self.append_value(&mut t, function, allocation, destination);
                t.append(", ");
                self.append_operand(&mut t, function, allocation, first);
                t.append(", ");
                self.append_operand(&mut t, function, allocation, second);
                t
            },
            Instruction::FusedMultiplyAdd { destination, first, second, third, negate_first } => {
                let mut t = String::from_str("v_fma_f32 ");
                self.append_value(&mut t, function, allocation, destination);
                t.append(", ");
                if negate_first {
                    t.append("-");
                } else {
                    t.append("");
                }
                self.append_operand(&mut t, function, allocation, first);
                t.append(", ");
                self.append_operand(&mut t, function, allocation, second);
                t.append(", ");
                self.append_operand(&mut t, function, allocation, third);
                t
            },
            Instruction::FusedMultiplyAccumulate { destination, first, second } => {
                let mut t = String::from_str("v_fmac_f32 ");
                self.append_value(&mut t, function, allocation, destination);
                t.append(", ");
                self.append_operand(&mut t, function, allocation, first);
                t.append(", ");
                self.append_operand(&mut t, function, allocation, second);
                t
            },
            Instruction::Reciprocal { destination, source } => {
                let mut t = String::from_str("v_rcp_f32 ");
                self.append_value(&mut t, function, allocation, destination);
                t.append(", ");
                self.append_operand(&mut t, function, allocation, source);
                t
            },
            Instruction::ExponentialBaseTwo { destination, source } => {
                let mut t = String::from_str("exp2 ");
                self.append_value(&mut t, function, allocation, destination);
                t.append(", ");
                self.append_operand(&mut t, function, allocation, source);
                t
            },
            Instruction::HardwareExponentialBaseTwo { destination, source } => {
                let mut t = String::from_str("v_exp_f32 ");
                self.append_value(&mut t, function, allocation, destination);
                t.append(", ");
                self.append_operand(&mut t, function, allocation, source);
                t
            },
            Instruction::LoadExponent { destination, first, second } => {
                let mut t = String::from_str("v_ldexp_f32 ");
                self.append_value(&mut t, function, allocation, destination);
                t.append(", ");
                self.append_operand(&mut t, function, allocation, first);
                t.append(", ");
                self.append_operand(&mut t, function, allocation, second);
                t
            },
            Instruction::DivideScale { destination, predicate, first, second, third } => {
                let mut t = String::from_str("v_div_scale_f32 ");
                self.append_value(&mut t, function, allocation, destination);
                t.append(", ");
                self.append_optional_value(&mut t, function, allocation, predicate);
                t.append(", ");
                self.append_operand(&mut t, function, allocation, first);
                t.append(", ");
                self.append_operand(&mut t, function, allocation, second);
                t.append(", ");
                self.append_operand(&mut t, function, allocation, third);
                t
            },
            Instruction::DivideFusedMultiplyAdd { destination, first, second, third, predicate } => {
                let mut t = String::from_str("v_div_fmas_f32 ");
                self.append_value(&mut t, function, allocation, destination);
                t.append(", ");
                self.append_operand(&mut t, function, allocation, first);
                t.append(", ");
                self.append_operand(&mut t, function, allocation, second);
                t.append(", ");
                self.append_operand(&mut t, function, allocation, third);
                t.append(" (predicate ");
                self.append_operand(&mut t, function, allocation, predicate);
                t.append(")");
                t
            },
            Instruction::DivideFixup { destination, first, second, third } => {
                let mut t = String::from_str("v_div_fixup_f32 ");
                self.append_value(&mut t, function, allocation, destination);
                t.append(", ");
                self.append_operand(&mut t, function, allocation, first);
                t.append(", ");
                self.append_operand(&mut t, function, allocation, second);
                t.append(", ");
                self.append_operand(&mut t, function, allocation, third);
                t
            },
            Instruction::FloatCompare { comparison, destination, first, second } => {
                match comparison {
                    FloatComparisonKind::AlwaysTrue => {
                        let mut t = String::from_str("s_mov_b32 ");
                        self.append_value(&mut t, function, allocation, destination);
                        t.append(", -1");
                        t
                    },
                    FloatComparisonKind::AlwaysFalse => {
                        let mut t = String::from_str("s_mov_b32 ");
                        self.append_value(&mut t, function, allocation, destination);
                        t.append(", 0");
                        t
                    },
                    _ => {
                        let mut t = String::from_str("v_cmp_");
                        t.append(comparison_mnemonic(comparison));
                        t.append("_f32 ");
                        self.append_value(&mut t, function, allocation, destination);
                        t.append(", ");
                        self.append_operand(&mut t, function, allocation, first);
                        t.append(", ");
                        self.append_operand(&mut t, function, allocation, second);
                        t
                    },
                }
            },
            Instruction::Select { destination, condition, when_true, when_false } => {
                let mut t = String::from_str("v_cndmask_b32 ");
                self.append_value(&mut t, function, allocation, destination);
                t.append(", ");
                self.append_operand(&mut t, function, allocation, when_false);
                t.append(", ");
                self.append_operand(&mut t, function, allocation, when_true);
                t.append(", ");
                self.append_operand(&mut t, function, allocation, condition);
                t
            },
            Instruction::IntegerMultiply { destination, first, second } => {
                let mut t = String::from_str("v_mul_lo_u32 ");
                self.append_value(&mut t, function, allocation, destination);
                t.append(", ");
                self.append_operand(&mut t, function, allocation, first);
                t.append(", ");
                self.append_operand(&mut t, function, allocation, second);
                t
            },
            Instruction::IntegerShiftRight32 { destination, first, second } => {
                let mut t = String::from_str("v_ashrrev_i32 ");
                self.append_value(&mut t, function, allocation, destination);
                t.append(", ");
                self.append_operand(&mut t, function, allocation, second);
                t.append(", ");
                self.append_operand(&mut t, function, allocation, first);
                t
            },
            Instruction::AddressLow { destination, destination_element, carry, first, second } => {
                let mut t = String::from_str("v_add_co_u32 ");
                self.append_operand(
                    &mut t,
                    function,
                    allocation,
                    Operand::Value { value: destination, element: destination_element },
                );
                t.append(", ");
                self.append_optional_value(&mut t, function, allocation, carry);
                t.append(", ");
                self.append_operand(&mut t, function, allocation, first);
                t.append(", ");
                self.append_operand(&mut t, function, allocation, second);
                t
            },
            Instruction::AddressHigh { destination, destination_element, first, second, carry } => {
                let mut t = String::from_str("v_add_co_ci_u32 ");
                self.append_operand(
                    &mut t,
                    function,
                    allocation,
                    Operand::Value { value: destination, element: destination_element },
                );
                t.append(", ");
                let name = scalar_name(NULL);
                t.append(name.as_str());
                t.append(", ");
                self.append_operand(&mut t, function, allocation, first);
                t.append(", ");
                self.append_operand(&mut t, function, allocation, second);
                t.append(", ");
                self.append_operand(&mut t, function, allocation, carry);
                t
            },
            _ => String::new(),
        }
    }

    fn control_listing(&self, function: &MachineFunction, allocation: &Allocation, instruction: Instruction) -> (text:
        String)
        ensures
            text@ == control_text(*function, allocation.bases@, instruction),
    {
        match instruction {
            Instruction::LoadGlobal { destination, register_count, address, offset } => {
                let mut t = String::from_str("global_load_dword");
                if register_count == 1 {
                    t.append("");
                } else {
                    t.append("x4");
                }
                t.append(" ");
                self.append_value(&mut t, function, allocation, destination);
                t.append(", ");
                self.append_operand(&mut t, function, allocation, address);
                t.append(", off offset:");
                append_decimal(&mut t, offset as u64);
                t
            },
            Instruction::StoreGlobal { register_count, address, offset, source } => {
                let mut t = String::from_str("global_store_dword");
                if register_count == 1 {
                    t.append("");
                } else {
                    t.append("x4");
                }
                t.append(" ");
                self.append_operand(&mut t, function, allocation, address);
                t.append(", ");
                self.append_operand(&mut t, function, allocation, source);
                t.append(", off offset:");
                append_decimal(&mut t, offset as u64);
                t
            },
            Instruction::Interpolate {
                second_step,
                destination,
                coordinates,
                previous_value,
                primitive_mask,
                attribute,
                channel,
            } => {
                let mut t = String::from_str("v_interp_p");
                if second_step {
                    t.append("2");
                } else {
                    t.append("1");
                }
                t.append("_f32 ");
                self.append_value(&mut t, function, allocation, destination);
                t.append(", ");
                self.append_operand(&mut t, function, allocation, coordinates);
                t.append(", attr");
                append_decimal(&mut t, attribute as u64);
                t.append(".");
                append_channel(&mut t, channel);
                t.append(" (m0 <- ");
                self.append_operand(&mut t, function, allocation, primitive_mask);
                t.append(")");
                match previous_value {
                    Some(previous) => {
                        let mut p = String::from_str(" (previous ");
                        self.append_operand(&mut p, function, allocation, previous);
                        p.append(")");
                        t.append(p.as_str());
                    },
                    None => {
                        t.append("");
                    },
                }
                t
            },
            Instruction::Export { target, values, mask, done, valid_mask } => {
                let mut t = String::from_str("exp ");
                append_decimal(&mut t, target as u64);
                t.append(" ");
                self.append_operand(&mut t, function, allocation, values[0]);
                t.append(", ");
                self.append_operand(&mut t, function, allocation, values[1]);
                t.append(", ");
                self.append_operand(&mut t, function, allocation, values[2]);
                t.append(", ");
                self.append_operand(&mut t, function, allocation, values[3]);
                t.append(" en:");
                append_hexadecimal(&mut t, mask as u64);
                t.append(" done:");
                append_bool(&mut t, done);
                t.append(" vm:");
                append_bool(&mut t, valid_mask);
                t
            },
            Instruction::Kill { condition } => {
                let mut t = String::from_str("kill ");
                self.append_operand(&mut t, function, allocation, condition);
                t
            },
            Instruction::WaitForLoads => String::from_str("s_waitcnt vmcnt(0)"),
            Instruction::ZeroExecutionMask => String::from_str("s_mov_b32 exec_lo, 0"),
            Instruction::AndExecutionMaskWithPredicate { predicate } => {
                let mut t = String::from_str("s_and_b32 exec_lo, exec_lo, ");
                self.append_operand(&mut t, function, allocation, predicate);
                t
            },
            Instruction::BranchIfNoActiveLanes { label } => {
                let mut t = String::from_str("s_cbranch_execz label");
                append_decimal(&mut t, label as u64);
                t
            },
            Instruction::Branch { label } => {
                let mut t = String::from_str("s_branch label");
                append_decimal(&mut t, label as u64);
                t
            },
            Instruction::BranchIfPredicate { predicate, label } => {
                let mut t = String::from_str("s_and_b32 null, exec_lo, ");
                self.append_operand(&mut t, function, allocation, predicate);
                t.append("; s_cbranch_scc1 label");
                append_decimal(&mut t, label as u64);
                t
            },
            Instruction::Label { id } => {
                let mut t = String::from_str("label");
                append_decimal(&mut t, id as u64);
                t.append(":");
                t
            },
            Instruction::Return => String::from_str("s_endpgm"),
            _ => String::new(),
        }
    }

    /// The listing of instruction `index`.
    pub fn listing(&self, function: &MachineFunction, allocation: &Allocation, index: usize) -> (text:
        String)
        requires
            listable(*function, index),
        ensures
            text@ == instruction_listing(*function, allocation.bases@, index),
    {
        if index >= function.instructions.len() {
            let mut t = String::from_str("invalid instruction index ");
            append_decimal(&mut t, index as u64);
            return t;
        }
        let instruction = function.instructions[index];
        match instruction {
            Instruction::LoadGlobal { .. }
            | Instruction::StoreGlobal { .. }
            | Instruction::Interpolate { .. }
            | Instruction::Export { .. }
            | Instruction::Kill { .. }
            | Instruction::WaitForLoads
            | Instruction::ZeroExecutionMask
            | Instruction::AndExecutionMaskWithPredicate { .. }
            | Instruction::BranchIfNoActiveLanes { .. }
            | Instruction::Branch { .. }
            | Instruction::BranchIfPredicate { .. }
            | Instruction::Label { .. }
            | Instruction::Return => self.control_listing(function, allocation, instruction),
            _ => self.arithmetic_listing(function, allocation, instruction),
        }
    }
}

} // verus!
