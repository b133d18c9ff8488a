//! Emission of GFX10.3 machine code for a register-allocated function:
//! per-instruction encodings, the export scoreboard and branch resolution.
use vstd::prelude::*;

use crate::codegen::machine::{
    instruction_definitions, FloatBinaryOperation, FloatComparisonKind, Instruction,
    MachineFunction, Operand, RegisterClass, ValueId,
};
use crate::codegen::targets::encoding::{
    export_bytes, global_memory_bytes, interp_bytes, sop1_bytes, sop2_bytes, sopp_word,
    vop1_bytes, vop3_bytes, word_bytes, Encoder, Source,
};
use crate::codegen::targets::gfx10::{
    address_valid, destination_register, operand_source, predicate_register, scalar_register,
    vector_register, Gfx10, Gfx10Error, EXEC_LO, M0, NULL, VCC_LO,
};
use crate::codegen::targets::Allocation;

verus! {

// ---------------------------------------------------------------------------
// Error propagation in evaluation order
// ---------------------------------------------------------------------------
/// VOP1 whose destination is computed before its source.
pub open spec fn vop1_chain(opcode: u8, destination: Result<u8, Gfx10Error>, source: Result<
    Source,
    Gfx10Error,
>) -> Result<Seq<u8>, Gfx10Error> {
    if destination is Err {
        Err(destination->Err_0)
    } else if source is Err {
        Err(source->Err_0)
    } else {
        vop1_bytes(opcode, destination->Ok_0, source->Ok_0)
    }
}

/// SOP1 whose destination is computed before the instruction is encoded.
pub open spec fn sop1_chain(opcode: u8, destination: Result<u8, Gfx10Error>, source: Source) -> Result<
    Seq<u8>,
    Gfx10Error,
> {
    if destination is Err {
        Err(destination->Err_0)
    } else {
        sop1_bytes(opcode, destination->Ok_0, source)
    }
}

/// VOP3 A form whose destination is computed before its three sources.
pub open spec fn vop3a_chain(
    opcode: u16,
    destination: Result<u8, Gfx10Error>,
    first: Result<Source, Gfx10Error>,
    second: Result<Source, Gfx10Error>,
    third: Result<Source, Gfx10Error>,
    negative: u8,
) -> Result<Seq<u8>, Gfx10Error> {
    if destination is Err {
        Err(destination->Err_0)
    } else if first is Err {
        Err(first->Err_0)
    } else if second is Err {
        Err(second->Err_0)
    } else if third is Err {
        Err(third->Err_0)
    } else {
        vop3_bytes(
            opcode,
            destination->Ok_0,
            0,
            [first->Ok_0, second->Ok_0, third->Ok_0],
            0,
            negative,
            false,
        )
    }
}

/// VOP3 B form: scalar destination, then vector destination, then sources.
pub open spec fn vop3b_chain(
    opcode: u16,
    scalar_destination: Result<u8, Gfx10Error>,
    destination: Result<u8, Gfx10Error>,
    first: Result<Source, Gfx10Error>,
    second: Result<Source, Gfx10Error>,
    third: Result<Source, Gfx10Error>,
) -> Result<Seq<u8>, Gfx10Error> {
    if scalar_destination is Err {
        Err(scalar_destination->Err_0)
    } else if destination is Err {
        Err(destination->Err_0)
    } else if first is Err {
        Err(first->Err_0)
    } else if second is Err {
        Err(second->Err_0)
    } else if third is Err {
        Err(third->Err_0)
    } else {
        vop3_bytes(
            opcode,
            destination->Ok_0,
            scalar_destination->Ok_0,
            [first->Ok_0, second->Ok_0, third->Ok_0],
            0,
            0,
            true,
        )
    }
}

/// The VOPC opcode of an ordered or unordered comparison.
pub open spec fn compare_opcode(comparison: FloatComparisonKind) -> u16 {
    match comparison {
        FloatComparisonKind::OrderedLessThan => 1,
        FloatComparisonKind::OrderedEqual => 2,
        FloatComparisonKind::OrderedLessThanOrEqual => 3,
        FloatComparisonKind::OrderedGreaterThan => 4,
        FloatComparisonKind::OrderedNotEqual => 5,
        FloatComparisonKind::OrderedGreaterThanOrEqual => 6,
        FloatComparisonKind::UnorderedLessThan => 9,
        FloatComparisonKind::UnorderedEqual => 10,
        FloatComparisonKind::UnorderedLessThanOrEqual => 11,
        FloatComparisonKind::UnorderedGreaterThan => 12,
        FloatComparisonKind::UnorderedNotEqual => 13,
        FloatComparisonKind::UnorderedGreaterThanOrEqual => 14,
        _ => 0,
    }
}

/// The VOP3 opcode of a two-source float operation.
pub open spec fn float_binary_opcode(operation: FloatBinaryOperation) -> u16 {
    match operation {
        FloatBinaryOperation::Add => 0x103,
        FloatBinaryOperation::Subtract => 0x104,
        FloatBinaryOperation::Multiply => 0x108,
    }
}

// ---------------------------------------------------------------------------
// Instructions that neither touch labels, exports nor the interpolation mask
// ---------------------------------------------------------------------------
/// The bytes of a constant or copy, or why it cannot be encoded.
#[verifier::opaque]
pub open spec fn move_bytes(function: MachineFunction, bases: Seq<u8>, instruction: Instruction) -> Result<
    Seq<u8>,
    Gfx10Error,
> {
    match instruction {
        Instruction::Constant { destination, bits } => {
            let class = function.values@[destination.0 as int].register_class;
            if class == RegisterClass::Vector {
                vop1_chain(
                    1,
                    destination_register(function, bases, destination, 0, RegisterClass::Vector),
                    Ok(Source::Immediate(bits)),
                )
            } else if class == RegisterClass::Scalar {
                sop1_chain(
                    3,
                    destination_register(function, bases, destination, 0, RegisterClass::Scalar),
                    Source::Immediate(bits),
                )
            } else {
                Err(Gfx10Error::Unsupported("predicate constant"))
            }
        },
        Instruction::Copy { destination, source } => match operand_source(function, bases, source) {
            Err(e) => Err(e),
            Ok(source) => {
                let class = function.values@[destination.0 as int].register_class;
                if class == RegisterClass::Vector {
                    vop1_chain(
                        1,
                        destination_register(
                            function,
                            bases,
                            destination,
                            0,
                            RegisterClass::Vector,
                        ),
                        Ok(source),
                    )
                } else if class == RegisterClass::Scalar {
                    sop1_chain(
                        3,
                        destination_register(
                            function,
                            bases,
                            destination,
                            0,
                            RegisterClass::Scalar,
                        ),
                        source,
                    )
                } else {
                    sop1_chain(3, predicate_register(function, bases, destination), source)
                }
            },
        },
        _ => Ok(seq![]),
    }
}

/// The bytes of a vector arithmetic instruction, or why it cannot be encoded.
#[verifier::opaque]
pub open spec fn arithmetic_bytes(function: MachineFunction, bases: Seq<u8>, instruction: Instruction) -> Result<
    Seq<u8>,
    Gfx10Error,
> {
    let vector_destination = |value: ValueId|
        destination_register(function, bases, value, 0, RegisterClass::Vector);
    let source = |operand: Operand| operand_source(function, bases, operand);
    let zero: Result<Source, Gfx10Error> = Ok(Source::Scalar(0));
    match instruction {
        Instruction::FloatBinary { operation, destination, first, second } => {
            if source(first) is Err {
                Err(source(first)->Err_0)
            } else if source(second) is Err {
                Err(source(second)->Err_0)
            } else {
                vop3a_chain(
                    float_binary_opcode(operation),
                    vector_destination(destination),
                    source(first),
                    source(second),
                    zero,
                    0,
                )
            }
        },
        Instruction::FusedMultiplyAdd { destination, first, second, third, negate_first } =>
            vop3a_chain(
            0x14b,
            vector_destination(destination),
            source(first),
            source(second),
            source(third),
            if negate_first {
                1
            } else {
                0
            },
        ),
        Instruction::FusedMultiplyAccumulate { destination, first, second } => vop3a_chain(
            0x12b,
            vector_destination(destination),
            source(first),
            source(second),
            zero,
            0,
        ),
        Instruction::Reciprocal { destination, source: operand } => vop1_chain(
            0x2a,
            vector_destination(destination),
            source(operand),
        ),
        Instruction::HardwareExponentialBaseTwo { destination, source: operand } => vop1_chain(
            0x25,
            vector_destination(destination),
            source(operand),
        ),
        Instruction::LoadExponent { destination, first, second } => vop3a_chain(
            0x362,
            vector_destination(destination),
            source(first),
            source(second),
            zero,
            0,
        ),
        Instruction::DivideScale { destination, predicate, first, second, third } => vop3b_chain(
            0x16d,
            match predicate {
                Some(p) => predicate_register(function, bases, p),
                None => Ok(NULL),
            },
            vector_destination(destination),
            source(first),
            source(second),
            source(third),
        ),
        Instruction::DivideFusedMultiplyAdd { destination, first, second, third, predicate } =>
            match scalar_register(function, bases, predicate) {
            Err(e) => Err(e),
            Ok(register) => if register != VCC_LO {
                Err(Gfx10Error::Unsupported("divide fmas requires vcc_lo predicate"))
            } else {
                vop3a_chain(
                    0x16f,
                    vector_destination(destination),
                    source(first),
                    source(second),
                    source(third),
                    0,
                )
            },
        },
        Instruction::DivideFixup { destination, first, second, third } => vop3a_chain(
            0x15f,
            vector_destination(destination),
            source(first),
            source(second),
            source(third),
            0,
        ),
        Instruction::FloatCompare { comparison, destination, first, second } =>
            match predicate_register(function, bases, destination) {
            Err(e) => Err(e),
            Ok(register) => match comparison {
                FloatComparisonKind::AlwaysTrue => sop1_bytes(
                    3,
                    register,
                    Source::Immediate(0xffff_ffff),
                ),
                FloatComparisonKind::AlwaysFalse => sop1_bytes(3, register, Source::Immediate(0)),
                _ => vop3b_chain(
                    compare_opcode(comparison),
                    Ok(0u8),
                    Ok(register),
                    source(first),
                    source(second),
                    zero,
                ),
            },
        },
        Instruction::Select { destination, condition, when_true, when_false } =>
            match scalar_register(function, bases, condition) {
            Err(e) => Err(e),
            Ok(predicate) => vop3a_chain(
                0x101,
                vector_destination(destination),
                source(when_false),
                source(when_true),
                Ok(Source::Scalar(predicate)),
                0,
            ),
        },
        Instruction::IntegerMultiply { destination, first, second } => vop3a_chain(
            0x169,
            vector_destination(destination),
            source(first),
            source(second),
            zero,
            0,
        ),
        Instruction::IntegerShiftRight32 { destination, first, second } => vop3a_chain(
            0x118,
            vector_destination(destination),
            source(second),
            source(first),
            zero,
            0,
        ),
        Instruction::AddressLow { destination, destination_element, carry, first, second } =>
            vop3b_chain(
            0x30f,
            match carry {
                Some(c) => predicate_register(function, bases, c),
                None => Ok(NULL),
            },
            destination_register(
                function,
                bases,
                destination,
                destination_element,
                RegisterClass::Vector,
            ),
            source(first),
            source(second),
            zero,
        ),
        Instruction::AddressHigh { destination, destination_element, first, second, carry } =>
            match scalar_register(function, bases, carry) {
            Err(e) => Err(e),
            Ok(carry) => vop3b_chain(
                0x128,
                Ok(NULL),
                destination_register(
                    function,
                    bases,
                    destination,
                    destination_element,
                    RegisterClass::Vector,
                ),
                source(first),
                source(second),
                Ok(Source::Scalar(carry)),
            ),
        },
        _ => Ok(seq![]),
    }
}

/// The bytes of a global memory access or an execution-mask update, or why it
/// cannot be encoded.
#[verifier::opaque]
pub open spec fn memory_and_mask_bytes(
    function: MachineFunction,
    bases: Seq<u8>,
    instruction: Instruction,
) -> Result<Seq<u8>, Gfx10Error> {
    match instruction {
        Instruction::LoadGlobal { destination, register_count, address, offset } =>
            match vector_register(function, bases, address) {
            Err(e) => Err(e),
            Ok(register) => if !address_valid(function, address) {
                Err(Gfx10Error::Unsupported("global address requires a vector register pair"))
            } else if function.values@[destination.0 as int].register_count < register_count {
                Err(Gfx10Error::Unsupported("global load destination register block"))
            } else {
                match destination_register(function, bases, destination, 0, RegisterClass::Vector) {
                    Err(e) => Err(e),
                    Ok(data) => global_memory_bytes(false, register_count, data, register, offset),
                }
            },
        },
        Instruction::StoreGlobal { register_count, address, offset, source } =>
            match vector_register(function, bases, address) {
            Err(e) => Err(e),
            Ok(register) => if !address_valid(function, address) {
                Err(Gfx10Error::Unsupported("global address requires a vector register pair"))
            } else {
                match vector_register(function, bases, source) {
                    Err(e) => Err(e),
                    Ok(data) => if source matches Operand::Value { value, element } && element
                        + register_count > function.values@[value.0 as int].register_count {
                        Err(Gfx10Error::Unsupported("store source register block"))
                    } else {
                        global_memory_bytes(true, register_count, data, register, offset)
                    },
                }
            },
        },
        Instruction::ZeroExecutionMask => sop1_bytes(3, EXEC_LO, Source::Immediate(0)),
        Instruction::AndExecutionMaskWithPredicate { predicate } =>
            match scalar_register(function, bases, predicate) {
            Err(e) => Err(e),
            Ok(register) => sop2_bytes(
                0x0e,
                EXEC_LO,
                Source::Scalar(EXEC_LO),
                Source::Scalar(register),
            ),
        },
        Instruction::FloatDivide { .. }
        | Instruction::ExponentialBaseTwo { .. }
        | Instruction::Kill { .. } => Err(Gfx10Error::Malformed("unexpanded instruction")),
        _ => Ok(seq![]),
    }
}

/// Instructions whose destination block is read from the value table before
/// any check: a constant, a copy and a global load.
pub open spec fn reads_destination_description(instruction: Instruction) -> bool {
    instruction is Constant || instruction is Copy || instruction is LoadGlobal
}

/// The destination of a constant, copy or global load.
pub open spec fn described_destination(instruction: Instruction) -> ValueId {
    match instruction {
        Instruction::Constant { destination, .. } => destination,
        Instruction::Copy { destination, .. } => destination,
        Instruction::LoadGlobal { destination, .. } => destination,
        _ => ValueId(0),
    }
}

/// Every destination read from the value table names a known value.
pub open spec fn destinations_known(function: MachineFunction) -> bool {
    forall|k: int|
        0 <= k < function.instructions@.len() && reads_destination_description(
            #[trigger] function.instructions@[k],
        ) ==> described_destination(function.instructions@[k]).0 < function.values@.len()
}


// ---------------------------------------------------------------------------
// Interpolation, exports and the emission state
// ---------------------------------------------------------------------------
/// The bytes of an interpolation step and the scalar register then held in
/// M0, given the register M0 held before (if known).
#[verifier::opaque]
pub open spec fn interpolation_bytes(
    function: MachineFunction,
    bases: Seq<u8>,
    held_mask: Option<u8>,
    instruction: Instruction,
) -> Result<(Seq<u8>, Option<u8>), Gfx10Error> {
    match instruction {
        Instruction::Interpolate {
            second_step,
            destination,
            coordinates,
            previous_value,
            primitive_mask,
            attribute,
            channel,
        } => match vector_register(function, bases, coordinates) {
            Err(e) => Err(e),
            Ok(coordinate) => match destination_register(
                function,
                bases,
                destination,
                0,
                RegisterClass::Vector,
            ) {
                Err(e) => Err(e),
                Ok(register) => {
                    let moved: Result<Seq<u8>, Gfx10Error> = if second_step {
                        match previous_value {
                            None => Err(Gfx10Error::Malformed("missing first interpolation step")),
                            Some(previous) => match vector_register(function, bases, previous) {
                                Err(e) => Err(e),
                                Ok(previous) => if previous != register {
                                    vop1_bytes(1, register, Source::Vector(previous))
                                } else {
                                    Ok(seq![])
                                },
                            },
                        }
                    } else if previous_value is Some {
                        Err(Gfx10Error::Malformed("first interpolation step has previous value"))
                    } else {
                        Ok(seq![])
                    };
                    match moved {
                        Err(e) => Err(e),
                        Ok(moved) => match scalar_register(function, bases, primitive_mask) {
                            Err(e) => Err(e),
                            Ok(mask) => {
                                let setup: Result<Seq<u8>, Gfx10Error> = if held_mask != Some(
                                    mask,
                                ) {
                                    sop1_bytes(3, M0, Source::Scalar(mask))
                                } else {
                                    Ok(seq![])
                                };
                                match setup {
                                    Err(e) => Err(e),
                                    Ok(setup) => if attribute > 255 || channel > 255 {
                                        Err(Gfx10Error::ImmediateRange)
                                    } else {
                                        match interp_bytes(
                                            second_step,
                                            register,
                                            coordinate,
                                            attribute as u8,
                                            channel as u8,
                                        ) {
                                            Err(e) => Err(e),
                                            Ok(step) => Ok((moved + setup + step, Some(mask))),
                                        }
                                    },
                                }
                            },
                        },
                    }
                },
            },
        },
        _ => Ok((seq![], held_mask)),
    }
}

/// Whether channel `channel` of an export mask is enabled.
pub open spec fn channel_enabled(mask: u8, channel: int) -> bool {
    crate::codegen::machine::export_channel_enabled(mask, channel)
}

/// The vector register exported on a channel; 0 when the channel is off.
pub open spec fn channel_register(
    function: MachineFunction,
    bases: Seq<u8>,
    mask: u8,
    channel: int,
    value: Operand,
) -> Result<u8, Gfx10Error> {
    if channel_enabled(mask, channel) {
        vector_register(function, bases, value)
    } else {
        Ok(0)
    }
}

/// The bytes of an export and its four channel registers.
#[verifier::opaque]
pub open spec fn export_step_bytes(function: MachineFunction, bases: Seq<u8>, instruction: Instruction) -> Result<
    (Seq<u8>, [u8; 4]),
    Gfx10Error,
> {
    match instruction {
        Instruction::Export { target, values, mask, done, valid_mask } => {
            let r0 = channel_register(function, bases, mask, 0, values[0]);
            let r1 = channel_register(function, bases, mask, 1, values[1]);
            let r2 = channel_register(function, bases, mask, 2, values[2]);
            let r3 = channel_register(function, bases, mask, 3, values[3]);
            if target > 255 {
                Err(Gfx10Error::ImmediateRange)
            } else if r0 is Err {
                Err(r0->Err_0)
            } else if r1 is Err {
                Err(r1->Err_0)
            } else if r2 is Err {
                Err(r2->Err_0)
            } else if r3 is Err {
                Err(r3->Err_0)
            } else {
                let registers = [r0->Ok_0, r1->Ok_0, r2->Ok_0, r3->Ok_0];
                match export_bytes(target as u8, registers, mask, done, valid_mask) {
                    Err(e) => Err(e),
                    Ok(bytes) => Ok((bytes, registers)),
                }
            }
        },
        _ => Err(Gfx10Error::Malformed("not an export")),
    }
}

/// The export scoreboard after an export reads `registers` on the channels
/// enabled in `mask`.
pub open spec fn mark_exported(exported: Seq<bool>, registers: [u8; 4], mask: u8) -> Seq<bool> {
    let e0 = if channel_enabled(mask, 0) {
        exported.update(registers[0] as int, true)
    } else {
        exported
    };
    let e1 = if channel_enabled(mask, 1) {
        e0.update(registers[1] as int, true)
    } else {
        e0
    };
    let e2 = if channel_enabled(mask, 2) {
        e1.update(registers[2] as int, true)
    } else {
        e1
    };
    if channel_enabled(mask, 3) {
        e2.update(registers[3] as int, true)
    } else {
        e2
    }
}

/// An empty export scoreboard: one flag per vector register.
pub open spec fn no_exports() -> Seq<bool> {
    Seq::new(256, |register: int| false)
}

/// The state of emission after a prefix of the instructions.
pub struct EmissionState {
    pub code: Seq<u8>,
    /// Each label and the byte offset it marks.
    pub labels: Seq<(u32, usize)>,
    /// Each branch's byte offset and the label it targets.
    pub branches: Seq<(usize, u32)>,
    /// The scalar register known to be held in M0.
    pub interpolation_mask: Option<u8>,
    /// Vector registers that an export may still be reading.
    pub exported: Seq<bool>,
    pub pending_exports: bool,
}

pub open spec fn initial_emission() -> EmissionState {
    EmissionState {
        code: seq![],
        labels: seq![],
        branches: seq![],
        interpolation_mask: None,
        exported: no_exports(),
        pending_exports: false,
    }
}

/// Whether an instruction defines a vector register that an export may still
/// read, over the first `n` of its definitions, and the last operand error
/// met among them.
pub open spec fn export_hazard(
    function: MachineFunction,
    bases: Seq<u8>,
    definitions: Seq<(ValueId, u8)>,
    exported: Seq<bool>,
    n: int,
) -> (bool, Option<Gfx10Error>)
    decreases n,
{
    if n <= 0 {
        (false, None)
    } else {
        let (hazard, error) = export_hazard(function, bases, definitions, exported, n - 1);
        let definition = definitions[n - 1];
        match operand_source(
            function,
            bases,
            Operand::Value { value: definition.0, element: definition.1 },
        ) {
            Ok(Source::Vector(register)) => (hazard || exported[register as int], error),
            Ok(_) => (hazard, error),
            Err(failure) => (hazard, Some(failure)),
        }
    }
}

/// Instructions at which outstanding exports are drained: EXEC changes,
/// branches and join points.
pub open spec fn drains_exports(instruction: Instruction) -> bool {
    instruction is ZeroExecutionMask || instruction is AndExecutionMaskWithPredicate
        || instruction is Branch || instruction is BranchIfPredicate
        || instruction is BranchIfNoActiveLanes || instruction is Label
}

/// `s_waitcnt expcnt(0)`.
pub open spec fn export_wait() -> Seq<u8> {
    word_bytes(sopp_word(0x0c, -241i16))
}

/// The wait, if any, emitted before an instruction while exports are pending.
pub open spec fn drain_step(
    function: MachineFunction,
    bases: Seq<u8>,
    state: EmissionState,
    instruction: Instruction,
) -> Result<EmissionState, Gfx10Error> {
    if !state.pending_exports {
        Ok(state)
    } else {
        let definitions = instruction_definitions(instruction);
        let (hazard, error) = export_hazard(
            function,
            bases,
            definitions,
            state.exported,
            definitions.len() as int,
        );
        match error {
            Some(e) => Err(e),
            None => if hazard || drains_exports(instruction) {
                Ok(
                    EmissionState {
                        code: state.code + export_wait(),
                        exported: no_exports(),
                        pending_exports: false,
                        ..state
                    },
                )
            } else {
                Ok(state)
            },
        }
    }
}

/// The export-hazard scan finds every exported vector register that one of
/// the scanned definitions redefines, when no definition fails.
proof fn lemma_export_hazard_detects(
    function: MachineFunction,
    bases: Seq<u8>,
    definitions: Seq<(ValueId, u8)>,
    exported: Seq<bool>,
    n: int,
    d: int,
    register: u8,
)
    requires
        0 <= d < n <= definitions.len(),
        operand_source(
            function,
            bases,
            Operand::Value { value: definitions[d].0, element: definitions[d].1 },
        ) == Ok::<Source, Gfx10Error>(Source::Vector(register)),
        exported[register as int],
    ensures
        export_hazard(function, bases, definitions, exported, n).0,
    decreases n,
{
    if d < n - 1 {
        lemma_export_hazard_detects(function, bases, definitions, exported, n - 1, d, register);
    }
}

/// While exports are pending, an instruction that redefines a vector
/// register an export may still read, changes EXEC, branches or is a label
/// is preceded by `s_waitcnt expcnt(0)`, after which no export is pending.
pub proof fn lemma_wait_precedes_export_hazards(
    function: MachineFunction,
    bases: Seq<u8>,
    state: EmissionState,
    instruction: Instruction,
    d: int,
    register: u8,
)
    requires
        state.pending_exports,
        drain_step(function, bases, state, instruction) is Ok,
        drains_exports(instruction) || (0 <= d < instruction_definitions(instruction).len()
            && operand_source(
            function,
            bases,
            Operand::Value {
                value: instruction_definitions(instruction)[d].0,
                element: instruction_definitions(instruction)[d].1,
            },
        ) == Ok::<Source, Gfx10Error>(Source::Vector(register)) && state.exported[register as int]),
    ensures
        drain_step(function, bases, state, instruction) == Ok::<EmissionState, Gfx10Error>(
            EmissionState {
                code: state.code + export_wait(),
                exported: no_exports(),
                pending_exports: false,
                ..state
            },
        ),
{
    let definitions = instruction_definitions(instruction);
    if !drains_exports(instruction) {
        lemma_export_hazard_detects(
            function,
            bases,
            definitions,
            state.exported,
            definitions.len() as int,
            d,
            register,
        );
    }
}

/// Whether `id` already labels a position.
pub open spec fn label_defined(labels: Seq<(u32, usize)>, id: u32) -> bool {
    exists|k: int| 0 <= k < labels.len() && (#[trigger] labels[k]).0 == id
}

/// Appends `bytes` to the code of `state`.
pub open spec fn with_code(state: EmissionState, bytes: Seq<u8>) -> EmissionState {
    EmissionState { code: state.code + bytes, ..state }
}

/// The emission of one instruction after any export drain.
pub open spec fn instruction_step(
    function: MachineFunction,
    bases: Seq<u8>,
    state: EmissionState,
    instruction: Instruction,
) -> Result<EmissionState, Gfx10Error> {
    let pc = state.code.len() as usize;
    match instruction {
        Instruction::Label { id } => if label_defined(state.labels, id) {
            Err(Gfx10Error::Malformed("duplicate label"))
        } else {
            Ok(EmissionState { labels: state.labels.push((id, pc)), ..state })
        },
        Instruction::Branch { label } => Ok(
            EmissionState {
                code: state.code + word_bytes(sopp_word(2, 0)),
                branches: state.branches.push((pc, label)),
                ..state
            },
        ),
        Instruction::BranchIfNoActiveLanes { label } => Ok(
            EmissionState {
                code: state.code + word_bytes(sopp_word(8, 0)),
                branches: state.branches.push((pc, label)),
                ..state
            },
        ),
        Instruction::BranchIfPredicate { predicate, label } =>
            match scalar_register(function, bases, predicate) {
            Err(e) => Err(e),
            Ok(register) => match sop2_bytes(
                0x0e,
                NULL,
                Source::Scalar(EXEC_LO),
                Source::Scalar(register),
            ) {
                Err(e) => Err(e),
                Ok(test) => Ok(
                    EmissionState {
                        code: state.code + test + word_bytes(sopp_word(5, 0)),
                        branches: state.branches.push(((state.code.len() + test.len()) as usize, label)),
                        ..state
                    },
                ),
            },
        },
        Instruction::Constant { destination, .. } | Instruction::Copy { destination, .. } =>
            match move_bytes(function, bases, instruction) {
            Err(e) => Err(e),
            Ok(bytes) => Ok(
                EmissionState {
                    code: state.code + bytes,
                    interpolation_mask: if function.values@[destination.0 as int].register_class
                        == RegisterClass::Scalar {
                        None
                    } else {
                        state.interpolation_mask
                    },
                    ..state
                },
            ),
        },
        Instruction::Interpolate { .. } => match interpolation_bytes(
            function,
            bases,
            state.interpolation_mask,
            instruction,
        ) {
            Err(e) => Err(e),
            Ok((bytes, mask)) => Ok(
                EmissionState { code: state.code + bytes, interpolation_mask: mask, ..state },
            ),
        },
        Instruction::Export { mask, .. } => match export_step_bytes(function, bases, instruction) {
            Err(e) => Err(e),
            Ok((bytes, registers)) => Ok(
                EmissionState {
                    code: state.code + bytes,
                    exported: mark_exported(state.exported, registers, mask),
                    pending_exports: true,
                    ..state
                },
            ),
        },
        Instruction::WaitForLoads => Ok(
            EmissionState {
                code: state.code + word_bytes(sopp_word(0x0c, 0)),
                exported: no_exports(),
                pending_exports: false,
                ..state
            },
        ),
        Instruction::Return => Ok(
            EmissionState {
                code: state.code + word_bytes(sopp_word(1, 0)),
                exported: no_exports(),
                pending_exports: false,
                ..state
            },
        ),
        Instruction::LoadGlobal { .. }
        | Instruction::StoreGlobal { .. }
        | Instruction::ZeroExecutionMask
        | Instruction::AndExecutionMaskWithPredicate { .. }
        | Instruction::FloatDivide { .. }
        | Instruction::ExponentialBaseTwo { .. }
        | Instruction::Kill { .. } => match memory_and_mask_bytes(function, bases, instruction) {
            Err(e) => Err(e),
            Ok(bytes) => Ok(with_code(state, bytes)),
        },
        _ => match arithmetic_bytes(function, bases, instruction) {
            Err(e) => Err(e),
            Ok(bytes) => Ok(with_code(state, bytes)),
        },
    }
}

/// The emission state after the first `n` instructions.
pub open spec fn emitted_prefix(function: MachineFunction, bases: Seq<u8>, n: int) -> Result<
    EmissionState,
    Gfx10Error,
>
    decreases n,
{
    if n <= 0 {
        Ok(initial_emission())
    } else {
        match emitted_prefix(function, bases, n - 1) {
            Err(e) => Err(e),
            Ok(state) => match drain_step(function, bases, state, function.instructions@[n - 1]) {
                Err(e) => Err(e),
                Ok(drained) => instruction_step(
                    function,
                    bases,
                    drained,
                    function.instructions@[n - 1],
                ),
            },
        }
    }
}

/// The position marked by the first label named `id`.
pub open spec fn label_position(labels: Seq<(u32, usize)>, id: u32) -> Option<usize>
    decreases labels.len(),
{
    if labels.len() == 0 {
        None
    } else if labels[0].0 == id {
        Some(labels[0].1)
    } else {
        label_position(labels.drop_first(), id)
    }
}

/// The code with the branch at `position` pointed at `target`.
pub open spec fn patched_branch(code: Seq<u8>, position: usize, target: usize) -> Result<
    Seq<u8>,
    Gfx10Error,
> {
    let len = code.len();
    if position % 4 != 0 || target % 4 != 0 || position + 4 > len || target > len {
        Err(Gfx10Error::Malformed("invalid branch offset"))
    } else if crate::codegen::targets::encoding::branch_displacement(position as int, target as int)
        < -32768 || crate::codegen::targets::encoding::branch_displacement(
        position as int,
        target as int,
    ) > 32767 {
        Err(Gfx10Error::ImmediateRange)
    } else {
        let bits = crate::codegen::targets::encoding::displacement_bits(
            crate::codegen::targets::encoding::branch_displacement(position as int, target as int),
        );
        Ok(code.update(position as int, (bits % 256) as u8).update(position + 1, (bits / 256) as u8))
    }
}

/// The code after resolving the first `n` branches.
pub open spec fn resolved_branches(
    code: Seq<u8>,
    labels: Seq<(u32, usize)>,
    branches: Seq<(usize, u32)>,
    n: int,
) -> Result<Seq<u8>, Gfx10Error>
    decreases n,
{
    if n <= 0 {
        Ok(code)
    } else {
        match resolved_branches(code, labels, branches, n - 1) {
            Err(e) => Err(e),
            Ok(code) => match label_position(labels, branches[n - 1].1) {
                None => Err(Gfx10Error::Malformed("branch to unknown label")),
                Some(target) => patched_branch(code, branches[n - 1].0, target),
            },
        }
    }
}

/// The machine code of a register-allocated function, or why it cannot be
/// encoded.
pub open spec fn function_code(function: MachineFunction, bases: Seq<u8>) -> Result<
    Seq<u8>,
    Gfx10Error,
> {
    match emitted_prefix(function, bases, function.instructions@.len() as int) {
        Err(e) => Err(e),
        Ok(state) => resolved_branches(
            state.code,
            state.labels,
            state.branches,
            state.branches.len() as int,
        ),
    }
}


/// Emission in progress.
struct Emission {
    encoder: Encoder,
    labels: Vec<(u32, usize)>,
    branches: Vec<(usize, u32)>,
    interpolation_mask: Option<u8>,
    exported: Vec<bool>,
    pending_exports: bool,
}

impl Emission {
    spec fn state(&self) -> EmissionState {
        EmissionState {
            code: self.encoder.code@,
            labels: self.labels@,
            branches: self.branches@,
            interpolation_mask: self.interpolation_mask,
            exported: self.exported@,
            pending_exports: self.pending_exports,
        }
    }

    fn new() -> (r: Self)
        ensures
            r.state() == initial_emission(),
    {
        Emission {
            encoder: Encoder::new(),
            labels: Vec::new(),
            branches: Vec::new(),
            interpolation_mask: None,
            exported: no_exported_registers(),
            pending_exports: false,
        }
    }
}

/// An empty export scoreboard.
fn no_exported_registers() -> (r: Vec<bool>)
    ensures
        r@ == no_exports(),
{
    let mut exported: Vec<bool> = Vec::new();
    let mut register: usize = 0;
    while register < 256
        invariant
            register <= 256,
            exported@ == Seq::new(register as nat, |r: int| false),
        decreases 256 - register,
    {
        exported.push(false);
        register = register + 1;
    }
    assert(exported@ =~= no_exports());
    exported
}

/// Whether a label named `id` was already placed.
fn has_label(labels: &Vec<(u32, usize)>, id: u32) -> (r: bool)
    ensures
        r == label_defined(labels@, id),
{
    let mut k: usize = 0;
    while k < labels.len()
        invariant
            k <= labels@.len(),
            forall|j: int| 0 <= j < k ==> (#[trigger] labels@[j]).0 != id,
        decreases labels@.len() - k,
    {
        if labels[k].0 == id {
            assert(labels@[k as int].0 == id);
            return true;
        }
        k = k + 1;
    }
    false
}

/// The position of the first label named `id`.
fn find_label(labels: &Vec<(u32, usize)>, id: u32) -> (r: Option<usize>)
    ensures
        r == label_position(labels@, id),
{
    let mut k: usize = 0;
    assert(labels@.subrange(0, labels@.len() as int) =~= labels@);
    while k < labels.len()
        invariant
            k <= labels@.len(),
            label_position(labels@, id) == label_position(labels@.subrange(k as int, labels@.len() as int), id),
        decreases labels@.len() - k,
    {
        let ghost rest = labels@.subrange(k as int, labels@.len() as int);
        assert(rest.drop_first() =~= labels@.subrange(k + 1, labels@.len() as int));
        if labels[k].0 == id {
            return Some(labels[k].1);
        }
        k = k + 1;
    }
    assert(labels@.subrange(k as int, labels@.len() as int).len() == 0);
    None
}

/// Points every branch at its label.
fn resolve_branches(
    encoder: &mut Encoder,
    labels: &Vec<(u32, usize)>,
    branches: &Vec<(usize, u32)>,
) -> (r: Result<(), Gfx10Error>)
    ensures
        match resolved_branches(old(encoder).code@, labels@, branches@, branches@.len() as int) {
            Ok(code) => r is Ok && final(encoder).code@ == code,
            Err(e) => r == Err::<(), Gfx10Error>(e),
        },
{
    let ghost start = encoder.code@;
    let mut j: usize = 0;
    while j < branches.len()
        invariant
            j <= branches@.len(),
            start == old(encoder).code@,
            resolved_branches(start, labels@, branches@, j as int) == Ok::<Seq<u8>, Gfx10Error>(
                encoder.code@,
            ),
        decreases branches@.len() - j,
    {
        let (position, label) = branches[j];
        let ghost total = branches@.len() as int;
        let target = match find_label(labels, label) {
            Some(target) => target,
            None => {
                proof {
                    assert(resolved_branches(start, labels@, branches@, j + 1) == Err::<
                        Seq<u8>,
                        Gfx10Error,
                    >(Gfx10Error::Malformed("branch to unknown label")));
                    lemma_resolution_failure_persists(start, labels@, branches@, j + 1, total);
                }
                return Err(Gfx10Error::Malformed("branch to unknown label"));
            },
        };
        match encoder.patch_branch(position, target) {
            Ok(()) => {},
            Err(e) => {
                proof {
                    assert(resolved_branches(start, labels@, branches@, j + 1) == Err::<
                        Seq<u8>,
                        Gfx10Error,
                    >(e));
                    lemma_resolution_failure_persists(start, labels@, branches@, j + 1, total);
                }
                return Err(e);
            },
        }
        j = j + 1;
    }
    Ok(())
}

/// A failed prefix fails the whole emission with the same error.
proof fn lemma_emission_failure_persists(function: MachineFunction, bases: Seq<u8>, n: int, m: int)
    requires
        0 <= n <= m,
        emitted_prefix(function, bases, n) is Err,
    ensures
        emitted_prefix(function, bases, m) == emitted_prefix(function, bases, n),
    decreases m - n,
{
    if m > n {
        lemma_emission_failure_persists(function, bases, n, m - 1);
    }
}

/// A failed branch resolution fails all later resolutions with the same error.
proof fn lemma_resolution_failure_persists(
    code: Seq<u8>,
    labels: Seq<(u32, usize)>,
    branches: Seq<(usize, u32)>,
    n: int,
    m: int,
)
    requires
        0 <= n <= m,
        resolved_branches(code, labels, branches, n) is Err,
    ensures
        resolved_branches(code, labels, branches, m) == resolved_branches(code, labels, branches, n),
    decreases m - n,
{
    if m > n {
        lemma_resolution_failure_persists(code, labels, branches, n, m - 1);
    }
}

/// The two bytes of the displacement that points the branch at `position`
/// to `target`.
pub open spec fn displacement_low(position: usize, target: usize) -> u8 {
    (crate::codegen::targets::encoding::displacement_bits(
        crate::codegen::targets::encoding::branch_displacement(position as int, target as int),
    ) % 256) as u8
}

pub open spec fn displacement_high(position: usize, target: usize) -> u8 {
    (crate::codegen::targets::encoding::displacement_bits(
        crate::codegen::targets::encoding::branch_displacement(position as int, target as int),
    ) / 256) as u8
}

/// No two of the first `n` branches sit at the same position.
pub open spec fn distinct_branch_positions(branches: Seq<(usize, u32)>, n: int) -> bool {
    forall|i: int, j: int| 0 <= i < j < n ==> #[trigger] branches[i].0 != #[trigger] branches[j].0
}

/// In `code`, the displacement field of `branch` points at the first label
/// with the branch's name.
pub open spec fn branch_reaches_label(
    code: Seq<u8>,
    labels: Seq<(u32, usize)>,
    branch: (usize, u32),
) -> bool {
    match label_position(labels, branch.1) {
        None => false,
        Some(target) => {
            &&& branch.0 % 4 == 0
            &&& branch.0 + 4 <= code.len()
            &&& code[branch.0 as int] == displacement_low(branch.0, target)
            &&& code[branch.0 + 1] == displacement_high(branch.0, target)
        },
    }
}

/// Byte `k` lies outside the displacement fields of the first `n` branches.
pub open spec fn outside_branch_fields(branches: Seq<(usize, u32)>, n: int, k: int) -> bool {
    forall|i: int| 0 <= i < n ==> k != #[trigger] branches[i].0 && k != branches[i].0 + 1
}

/// Resolution points every branch at its label: where branch resolution
/// succeeds, each branch's displacement field encodes the distance to the
/// first label with its name, and every byte outside those fields is left
/// as it was.
pub proof fn lemma_branches_reach_their_labels(
    code: Seq<u8>,
    labels: Seq<(u32, usize)>,
    branches: Seq<(usize, u32)>,
    n: int,
)
    requires
        0 <= n <= branches.len(),
        distinct_branch_positions(branches, n),
        resolved_branches(code, labels, branches, n) is Ok,
    ensures
        resolved_branches(code, labels, branches, n)->Ok_0.len() == code.len(),
        forall|i: int|
            0 <= i < n ==> branch_reaches_label(
                resolved_branches(code, labels, branches, n)->Ok_0,
                labels,
                #[trigger] branches[i],
            ),
        forall|k: int|
            0 <= k < code.len() && #[trigger] outside_branch_fields(branches, n, k) ==> resolved_branches(
                code,
                labels,
                branches,
                n,
            )->Ok_0[k] == code[k],
    decreases n,
{
    if n > 0 {
        lemma_branches_reach_their_labels(code, labels, branches, n - 1);
        let previous = resolved_branches(code, labels, branches, n - 1)->Ok_0;
        let out = resolved_branches(code, labels, branches, n)->Ok_0;
        let position = branches[n - 1].0;
        let target = label_position(labels, branches[n - 1].1)->Some_0;
        assert(out == previous.update(position as int, displacement_low(position, target)).update(
            position + 1,
            displacement_high(position, target),
        ));
        assert forall|i: int| 0 <= i < n implies branch_reaches_label(
            out,
            labels,
            #[trigger] branches[i],
        ) by {
            if i < n - 1 {
                let other = branches[i].0;
                assert(branch_reaches_label(previous, labels, branches[i]));
                assert(other != position);
                assert(out[other as int] == previous[other as int]);
                assert(out[other + 1] == previous[other + 1]);
            }
        }
        assert forall|k: int|
            0 <= k < code.len() && #[trigger] outside_branch_fields(branches, n, k) implies out[k]
            == code[k] by {
            assert(k != branches[n - 1].0 && k != branches[n - 1].0 + 1);
            assert forall|i: int| 0 <= i < n - 1 implies k != #[trigger] branches[i].0 && k
                != branches[i].0 + 1 by {
                assert(k != branches[i].0 && k != branches[i].0 + 1);
            }
            assert(outside_branch_fields(branches, n - 1, k));
        }
    }
}

/// Every branch of `state` lies inside its code, and later branches lie
/// further on.
pub open spec fn branches_in_order(state: EmissionState) -> bool {
    &&& forall|i: int|
        0 <= i < state.branches.len() ==> #[trigger] state.branches[i].0 + 4 <= state.code.len()
    &&& forall|i: int, j: int|
        0 <= i < j < state.branches.len() ==> #[trigger] state.branches[i].0
            < #[trigger] state.branches[j].0
}

/// How one emission step may change the state: the code only grows, and at
/// most one branch is added, inside the new code.
pub open spec fn grows_by_one_step(before: EmissionState, after: EmissionState) -> bool {
    before.code.len() <= after.code.len() && (after.branches == before.branches || (
    after.branches.len() == before.branches.len() + 1 && after.branches.drop_last()
        == before.branches && before.code.len() <= after.branches.last().0
        && after.branches.last().0 + 4 <= after.code.len()))
}

#[verifier::spinoff_prover]
proof fn lemma_instruction_step_grows(
    function: MachineFunction,
    bases: Seq<u8>,
    state: EmissionState,
    instruction: Instruction,
)
    requires
        instruction_step(function, bases, state, instruction) is Ok,
        instruction_step(function, bases, state, instruction)->Ok_0.code.len() <= usize::MAX,
    ensures
        grows_by_one_step(state, instruction_step(function, bases, state, instruction)->Ok_0),
{
    let next = instruction_step(function, bases, state, instruction)->Ok_0;
    match instruction {
        Instruction::Branch { .. }
        | Instruction::BranchIfNoActiveLanes { .. }
        | Instruction::BranchIfPredicate { .. } => {
            assert(next.branches.drop_last() == state.branches);
        },
        _ => {},
    }
}

/// One instruction's emission keeps the branches in order.
proof fn lemma_step_keeps_branches_in_order(before: EmissionState, after: EmissionState)
    requires
        branches_in_order(before),
        grows_by_one_step(before, after),
    ensures
        branches_in_order(after),
{
    if after.branches != before.branches {
        let last = after.branches.len() - 1;
        assert(after.branches[last] == after.branches.last());
        assert forall|i: int| 0 <= i < last implies after.branches[i] == before.branches[i] by {
            assert(after.branches.drop_last()[i] == after.branches[i]);
        }
        assert forall|i: int, j: int|
            0 <= i < j < after.branches.len() implies #[trigger] after.branches[i].0
            < #[trigger] after.branches[j].0 by {
            assert(after.branches[i] == before.branches[i]);
            if j < last {
                assert(after.branches[j] == before.branches[j]);
            }
        }
        assert forall|i: int| 0 <= i < after.branches.len() implies #[trigger] after.branches[i].0
            + 4 <= after.code.len() by {
            if i < last {
                assert(after.branches[i] == before.branches[i]);
            }
        }
    }
}

/// The branches of every successfully emitted prefix are in order.
proof fn lemma_emitted_branches_in_order(function: MachineFunction, bases: Seq<u8>, n: int)
    requires
        emitted_prefix(function, bases, n) is Ok,
        emitted_prefix(function, bases, n)->Ok_0.code.len() <= usize::MAX,
    ensures
        branches_in_order(emitted_prefix(function, bases, n)->Ok_0),
    decreases n,
{
    if n > 0 {
        let state = emitted_prefix(function, bases, n - 1)->Ok_0;
        let instruction = function.instructions@[n - 1];
        let drained = drain_step(function, bases, state, instruction)->Ok_0;
        assert(grows_by_one_step(state, drained));
        lemma_instruction_step_grows(function, bases, drained, instruction);
        lemma_emitted_branches_in_order(function, bases, n - 1);
        lemma_step_keeps_branches_in_order(state, drained);
        lemma_step_keeps_branches_in_order(
            drained,
            instruction_step(function, bases, drained, instruction)->Ok_0,
        );
    }
}

/// Branch resolution keeps the length of the code.
proof fn lemma_resolution_keeps_length(
    code: Seq<u8>,
    labels: Seq<(u32, usize)>,
    branches: Seq<(usize, u32)>,
    n: int,
)
    requires
        resolved_branches(code, labels, branches, n) is Ok,
    ensures
        resolved_branches(code, labels, branches, n)->Ok_0.len() == code.len(),
    decreases n,
{
    if n > 0 {
        lemma_resolution_keeps_length(code, labels, branches, n - 1);
    }
}

/// Every branch of an encoded function points at its label: where encoding
/// succeeds, the displacement field of each branch that emission recorded
/// encodes the distance to the first label with the branch's name.
pub proof fn lemma_encoded_branches_reach_their_labels(function: MachineFunction, bases: Seq<u8>)
    requires
        function_code(function, bases) is Ok,
        function_code(function, bases)->Ok_0.len() <= usize::MAX,
    ensures
        ({
            let state = emitted_prefix(function, bases, function.instructions@.len() as int)->Ok_0;
            forall|i: int|
                0 <= i < state.branches.len() ==> branch_reaches_label(
                    function_code(function, bases)->Ok_0,
                    state.labels,
                    #[trigger] state.branches[i],
                )
        }),
{
    let n = function.instructions@.len() as int;
    let state = emitted_prefix(function, bases, n)->Ok_0;
    lemma_resolution_keeps_length(
        state.code,
        state.labels,
        state.branches,
        state.branches.len() as int,
    );
    lemma_emitted_branches_in_order(function, bases, n);
    assert(distinct_branch_positions(state.branches, state.branches.len() as int));
    lemma_branches_reach_their_labels(
        state.code,
        state.labels,
        state.branches,
        state.branches.len() as int,
    );
}

impl Gfx10 {
    fn encode_interpolation(
        &self,
        function: &MachineFunction,
        allocation: &Allocation,
        encoder: &mut Encoder,
        held_mask: &mut Option<u8>,
        instruction: Instruction,
    ) -> (r: Result<(), Gfx10Error>)
        requires
            instruction is Interpolate,
        ensures
            match interpolation_bytes(*function, allocation.bases@, *old(held_mask), instruction) {
                Ok((bytes, mask)) => r is Ok && final(encoder).code@ == old(encoder).code@ + bytes
                    && *final(held_mask) == mask,
                Err(e) => r == Err::<(), Gfx10Error>(e),
            },
    {
        proof {
            reveal(interpolation_bytes);
        }
        match instruction {
            Instruction::Interpolate {
                second_step,
                destination,
                coordinates,
                previous_value,
                primitive_mask,
                attribute,
                channel,
            } => {
                let coordinate = self.vector(function, allocation, coordinates)?;
                let register = self.vector_destination(function, allocation, destination)?;
                let ghost start = encoder.code@;
                let ghost moved: Seq<u8> = seq![];
                if second_step {
                    let previous = match previous_value {
                        Some(previous) => previous,
                        None => {
                            return Err(Gfx10Error::Malformed("missing first interpolation step"));
                        },
                    };
                    let previous = self.vector(function, allocation, previous)?;
                    if previous != register {
                        encoder.vop1(1, register, Source::Vector(previous))?;
                        proof {
                            moved = vop1_bytes(1, register, Source::Vector(previous))->Ok_0;
                        }
                    }
                } else if previous_value.is_some() {
                    return Err(Gfx10Error::Malformed("first interpolation step has previous value"));
                }
                assert(encoder.code@ == start + moved);
                let mask = self.scalar(function, allocation, primitive_mask)?;
                let needs_setup = match *held_mask {
                    Some(held) => held != mask,
                    None => true,
                };
                let ghost setup: Seq<u8> = seq![];
                if needs_setup {
                    encoder.sop1(3, M0, Source::Scalar(mask))?;
                    proof {
                        setup = sop1_bytes(3, M0, Source::Scalar(mask))->Ok_0;
                    }
                }
                assert(encoder.code@ == start + moved + setup);
                if attribute > 255 || channel > 255 {
                    return Err(Gfx10Error::ImmediateRange);
                }
                encoder.interp(second_step, register, coordinate, attribute as u8, channel as u8)?;
                *held_mask = Some(mask);
                assert(encoder.code@ =~= start + (moved + setup + interp_bytes(
                    second_step,
                    register,
                    coordinate,
                    attribute as u8,
                    channel as u8,
                )->Ok_0));
                Ok(())
            },
            _ => Ok(()),
        }
    }

    fn encode_export(
        &self,
        function: &MachineFunction,
        allocation: &Allocation,
        encoder: &mut Encoder,
        exported: &mut Vec<bool>,
        instruction: Instruction,
    ) -> (r: Result<(), Gfx10Error>)
        requires
            instruction is Export,
            old(exported)@.len() == 256,
        ensures
            match export_step_bytes(*function, allocation.bases@, instruction) {
                Ok((bytes, registers)) => r is Ok && final(encoder).code@ == old(encoder).code@
                    + bytes && final(exported)@ == mark_exported(
                    old(exported)@,
                    registers,
                    instruction->mask,
                ),
                Err(e) => r == Err::<(), Gfx10Error>(e),
            },
    {
        proof {
            reveal(export_step_bytes);
        }
        match instruction {
            Instruction::Export { target, values, mask, done, valid_mask } => {
                if target > 255 {
                    return Err(Gfx10Error::ImmediateRange);
                }
                let r0: u8 = if mask & 1u8 != 0 {
                    self.vector(function, allocation, values[0])?
                } else {
                    0
                };
                let r1: u8 = if mask & 2u8 != 0 {
                    self.vector(function, allocation, values[1])?
                } else {
                    0
                };
                let r2: u8 = if mask & 4u8 != 0 {
                    self.vector(function, allocation, values[2])?
                } else {
                    0
                };
                let r3: u8 = if mask & 8u8 != 0 {
                    self.vector(function, allocation, values[3])?
                } else {
                    0
                };
                if mask & 1u8 != 0 {
                    exported.set(r0 as usize, true);
                }
                if mask & 2u8 != 0 {
                    exported.set(r1 as usize, true);
                }
                if mask & 4u8 != 0 {
                    exported.set(r2 as usize, true);
                }
                if mask & 8u8 != 0 {
                    exported.set(r3 as usize, true);
                }
                encoder.export(target as u8, [r0, r1, r2, r3], mask, done, valid_mask)
            },
            _ => Ok(()),
        }
    }

    fn drain_exports(
        &self,
        function: &MachineFunction,
        allocation: &Allocation,
        emission: &mut Emission,
        instruction: &Instruction,
    ) -> (r: Result<(), Gfx10Error>)
        requires
            old(emission).exported@.len() == 256,
        ensures
            match drain_step(*function, allocation.bases@, old(emission).state(), *instruction) {
                Ok(state) => r is Ok && final(emission).state() == state
                    && final(emission).exported@.len() == 256,
                Err(e) => r == Err::<(), Gfx10Error>(e),
            },
    {
        if !emission.pending_exports {
            return Ok(());
        }
        let definitions = MachineFunction::definitions(instruction);
        let mut hazard = false;
        let mut error: Option<Gfx10Error> = None;
        let mut k: usize = 0;
        while k < definitions.len()
            invariant
                k <= definitions@.len(),
                emission.exported@.len() == 256,
                (hazard, error) == export_hazard(
                    *function,
                    allocation.bases@,
                    definitions@,
                    emission.exported@,
                    k as int,
                ),
            decreases definitions@.len() - k,
        {
            let (value, element) = definitions[k];
            match self.source(function, allocation, Operand::Value { value, element }) {
                Ok(Source::Vector(register)) => {
                    hazard = hazard || emission.exported[register as usize];
                },
                Ok(_) => {},
                Err(failure) => {
                    error = Some(failure);
                },
            }
            k = k + 1;
        }
        if let Some(failure) = error {
            return Err(failure);
        }
        let drains = match *instruction {
            Instruction::ZeroExecutionMask
            | Instruction::AndExecutionMaskWithPredicate { .. }
            | Instruction::Branch { .. }
            | Instruction::BranchIfPredicate { .. }
            | Instruction::BranchIfNoActiveLanes { .. }
            | Instruction::Label { .. } => true,
            _ => false,
        };
        if hazard || drains {
            // s_waitcnt expcnt(0): the immediate 0xff0f.
            emission.encoder.sopp(0x0c, -241i16);
            emission.exported = no_exported_registers();
            emission.pending_exports = false;
        }
        Ok(())
    }

    fn emit_instruction(
        &self,
        function: &MachineFunction,
        allocation: &Allocation,
        emission: &mut Emission,
        instruction: Instruction,
    ) -> (r: Result<(), Gfx10Error>)
        requires
            old(emission).exported@.len() == 256,
            reads_destination_description(instruction) ==> described_destination(instruction).0
                < function.values@.len(),
        ensures
            match instruction_step(*function, allocation.bases@, old(emission).state(), instruction) {
                Ok(state) => r is Ok && final(emission).state() == state
                    && final(emission).exported@.len() == 256,
                Err(e) => r == Err::<(), Gfx10Error>(e),
            },
    {
        match instruction {
            Instruction::Label { id } => {
                if has_label(&emission.labels, id) {
                    return Err(Gfx10Error::Malformed("duplicate label"));
                }
                let pc = emission.encoder.pc();
                emission.labels.push((id, pc));
                Ok(())
            },
            Instruction::Branch { label } => {
                let pc = emission.encoder.pc();
                emission.branches.push((pc, label));
                emission.encoder.sopp(2, 0);
                Ok(())
            },
            Instruction::BranchIfNoActiveLanes { label } => {
                let pc = emission.encoder.pc();
                emission.branches.push((pc, label));
                emission.encoder.sopp(8, 0);
                Ok(())
            },
            Instruction::BranchIfPredicate { predicate, label } => {
                let register = self.scalar(function, allocation, predicate)?;
                emission.encoder.sop2(0x0e, NULL, Source::Scalar(EXEC_LO), Source::Scalar(register))?;
                let pc = emission.encoder.pc();
                emission.branches.push((pc, label));
                emission.encoder.sopp(5, 0);
                Ok(())
            },
            Instruction::Constant { destination, .. } | Instruction::Copy { destination, .. } => {
                self.encode_move(function, allocation, &mut emission.encoder, instruction)?;
                if function.description(destination).register_class == RegisterClass::Scalar {
                    emission.interpolation_mask = None;
                }
                Ok(())
            },
            Instruction::Interpolate { .. } => self.encode_interpolation(
                function,
                allocation,
                &mut emission.encoder,
                &mut emission.interpolation_mask,
                instruction,
            ),
            Instruction::Export { .. } => {
                self.encode_export(
                    function,
                    allocation,
                    &mut emission.encoder,
                    &mut emission.exported,
                    instruction,
                )?;
                emission.pending_exports = true;
                Ok(())
            },
            Instruction::WaitForLoads => {
                // This encoding also waits for expcnt and lgkmcnt.
                emission.encoder.sopp(0x0c, 0);
                emission.exported = no_exported_registers();
                emission.pending_exports = false;
                Ok(())
            },
            Instruction::Return => {
                // ENDPGM completes outstanding exports before releasing VGPRs.
                emission.encoder.sopp(1, 0);
                emission.exported = no_exported_registers();
                emission.pending_exports = false;
                Ok(())
            },
            Instruction::LoadGlobal { .. }
            | Instruction::StoreGlobal { .. }
            | Instruction::ZeroExecutionMask
            | Instruction::AndExecutionMaskWithPredicate { .. }
            | Instruction::FloatDivide { .. }
            | Instruction::ExponentialBaseTwo { .. }
            | Instruction::Kill { .. } => self.encode_memory_and_mask(
                function,
                allocation,
                &mut emission.encoder,
                instruction,
            ),
            _ => self.encode_arithmetic(function, allocation, &mut emission.encoder, instruction),
        }
    }

    /// Encodes a register-allocated function. Export operands are read
    /// asynchronously: a wait precedes any redefinition of an exported VGPR
    /// and every EXEC change, branch and label while exports are pending.
    pub fn emit_function(&self, function: &MachineFunction, allocation: &Allocation) -> (r: Result<
        Vec<u8>,
        Gfx10Error,
    >)
        requires
            destinations_known(*function),
        ensures
            match function_code(*function, allocation.bases@) {
                Ok(code) => r matches Ok(bytes) && bytes@ == code,
                Err(e) => r == Err::<Vec<u8>, Gfx10Error>(e),
            },
    {
        let mut emission = Emission::new();
        let mut k: usize = 0;
        while k < function.instructions.len()
            invariant
                k <= function.instructions@.len(),
                destinations_known(*function),
                emission.exported@.len() == 256,
                emitted_prefix(*function, allocation.bases@, k as int) == Ok::<
                    EmissionState,
                    Gfx10Error,
                >(emission.state()),
            decreases function.instructions@.len() - k,
        {
            let instruction = function.instructions[k];
            let ghost n = function.instructions@.len() as int;
            match self.drain_exports(function, allocation, &mut emission, &instruction) {
                Ok(()) => {},
                Err(e) => {
                    proof {
                        lemma_emission_failure_persists(*function, allocation.bases@, k + 1, n);
                    }
                    return Err(e);
                },
            }
            match self.emit_instruction(function, allocation, &mut emission, instruction) {
                Ok(()) => {},
                Err(e) => {
                    proof {
                        lemma_emission_failure_persists(*function, allocation.bases@, k + 1, n);
                    }
                    return Err(e);
                },
            }
            k = k + 1;
        }
        resolve_branches(&mut emission.encoder, &emission.labels, &emission.branches)?;
        Ok(emission.encoder.code)
    }
}

impl Gfx10 {
    fn encode_arithmetic(
        &self,
        function: &MachineFunction,
        allocation: &Allocation,
        encoder: &mut Encoder,
        instruction: Instruction,
    ) -> (r: Result<(), Gfx10Error>)
        ensures
            match arithmetic_bytes(*function, allocation.bases@, instruction) {
                Ok(bytes) => r is Ok && final(encoder).code@ == old(encoder).code@ + bytes,
                Err(e) => r == Err::<(), Gfx10Error>(e),
            },
    {
        proof {
            reveal(arithmetic_bytes);
        }
        match instruction {
            Instruction::FloatBinary { operation, destination, first, second } => {
                let first = self.source(function, allocation, first)?;
                let second = self.source(function, allocation, second)?;
                let opcode: u16 = match operation {
                    FloatBinaryOperation::Add => 0x103,
                    FloatBinaryOperation::Subtract => 0x104,
                    FloatBinaryOperation::Multiply => 0x108,
                };
                let register = self.vector_destination(function, allocation, destination)?;
                encoder.vop3a(opcode, register, [first, second, Source::Scalar(0)], 0, 0)
            },
            Instruction::FusedMultiplyAdd { destination, first, second, third, negate_first } => {
                let register = self.vector_destination(function, allocation, destination)?;
                let first = self.source(function, allocation, first)?;
                let second = self.source(function, allocation, second)?;
                let third = self.source(function, allocation, third)?;
                let negative: u8 = if negate_first {
                    1
                } else {
                    0
                };
                encoder.vop3a(0x14b, register, [first, second, third], 0, negative)
            },
            Instruction::FusedMultiplyAccumulate { destination, first, second } => {
                let register = self.vector_destination(function, allocation, destination)?;
                let first = self.source(function, allocation, first)?;
                let second = self.source(function, allocation, second)?;
                encoder.vop3a(0x12b, register, [first, second, Source::Scalar(0)], 0, 0)
            },
            Instruction::Reciprocal { destination, source } => {
                let register = self.vector_destination(function, allocation, destination)?;
                let source = self.source(function, allocation, source)?;
                encoder.vop1(0x2a, register, source)
            },
            Instruction::HardwareExponentialBaseTwo { destination, source } => {
                let register = self.vector_destination(function, allocation, destination)?;
                let source = self.source(function, allocation, source)?;
                encoder.vop1(0x25, register, source)
            },
            Instruction::LoadExponent { destination, first, second } => {
                let register = self.vector_destination(function, allocation, destination)?;
                let first = self.source(function, allocation, first)?;
                let second = self.source(function, allocation, second)?;
                encoder.vop3a(0x362, register, [first, second, Source::Scalar(0)], 0, 0)
            },
            Instruction::DivideScale { destination, predicate, first, second, third } => {
                let scalar_destination = match predicate {
                    Some(predicate) => self.predicate_destination(function, allocation, predicate)?,
                    None => NULL,
                };
                let register = self.vector_destination(function, allocation, destination)?;
                let first = self.source(function, allocation, first)?;
                let second = self.source(function, allocation, second)?;
                let third = self.source(function, allocation, third)?;
                encoder.vop3b(0x16d, register, scalar_destination, [first, second, third])
            },
            Instruction::DivideFusedMultiplyAdd { destination, first, second, third, predicate } => {
                if self.scalar(function, allocation, predicate)? != VCC_LO {
                    return Err(Gfx10Error::Unsupported("divide fmas requires vcc_lo predicate"));
                }
                let register = self.vector_destination(function, allocation, destination)?;
                let first = self.source(function, allocation, first)?;
                let second = self.source(function, allocation, second)?;
                let third = self.source(function, allocation, third)?;
                encoder.vop3a(0x16f, register, [first, second, third], 0, 0)
            },
            Instruction::DivideFixup { destination, first, second, third } => {
                let register = self.vector_destination(function, allocation, destination)?;
                let first = self.source(function, allocation, first)?;
                let second = self.source(function, allocation, second)?;
                let third = self.source(function, allocation, third)?;
                encoder.vop3a(0x15f, register, [first, second, third], 0, 0)
            },
            Instruction::FloatCompare { comparison, destination, first, second } => {
                let register = self.predicate_destination(function, allocation, destination)?;
                match comparison {
                    FloatComparisonKind::AlwaysTrue => encoder.sop1(
                        3,
                        register,
                        Source::Immediate(u32::MAX),
                    ),
                    FloatComparisonKind::AlwaysFalse => encoder.sop1(
                        3,
                        register,
                        Source::Immediate(0),
                    ),
                    _ => {
                        let opcode: u16 = match comparison {
                            FloatComparisonKind::OrderedLessThan => 1,
                            FloatComparisonKind::OrderedEqual => 2,
                            FloatComparisonKind::OrderedLessThanOrEqual => 3,
                            FloatComparisonKind::OrderedGreaterThan => 4,
                            FloatComparisonKind::OrderedNotEqual => 5,
                            FloatComparisonKind::OrderedGreaterThanOrEqual => 6,
                            FloatComparisonKind::UnorderedLessThan => 9,
                            FloatComparisonKind::UnorderedEqual => 10,
                            FloatComparisonKind::UnorderedLessThanOrEqual => 11,
                            FloatComparisonKind::UnorderedGreaterThan => 12,
                            FloatComparisonKind::UnorderedNotEqual => 13,
                            FloatComparisonKind::UnorderedGreaterThanOrEqual => 14,
                            _ => 0,
                        };
                        let first = self.source(function, allocation, first)?;
                        let second = self.source(function, allocation, second)?;
                        encoder.vop3b(opcode, register, 0, [first, second, Source::Scalar(0)])
                    },
                }
            },
            Instruction::Select { destination, condition, when_true, when_false } => {
                let predicate = self.scalar(function, allocation, condition)?;
                let register = self.vector_destination(function, allocation, destination)?;
                let when_false = self.source(function, allocation, when_false)?;
                let when_true = self.source(function, allocation, when_true)?;
                encoder.vop3a(
                    0x101,
                    register,
                    [when_false, when_true, Source::Scalar(predicate)],
                    0,
                    0,
                )
            },
            Instruction::IntegerMultiply { destination, first, second } => {
                let register = self.vector_destination(function, allocation, destination)?;
                let first = self.source(function, allocation, first)?;
                let second = self.source(function, allocation, second)?;
                encoder.vop3a(0x169, register, [first, second, Source::Scalar(0)], 0, 0)
            },
            Instruction::IntegerShiftRight32 { destination, first, second } => {
                let register = self.vector_destination(function, allocation, destination)?;
                let shift = self.source(function, allocation, second)?;
                let value = self.source(function, allocation, first)?;
                encoder.vop3a(0x118, register, [shift, value, Source::Scalar(0)], 0, 0)
            },
            Instruction::AddressLow { destination, destination_element, carry, first, second } => {
                let carry = match carry {
                    Some(value) => self.predicate_destination(function, allocation, value)?,
                    None => NULL,
                };
                let register = self.destination(
                    function,
                    allocation,
                    destination,
                    destination_element,
                    RegisterClass::Vector,
                )?;
                let first = self.source(function, allocation, first)?;
                let second = self.source(function, allocation, second)?;
                encoder.vop3b(0x30f, register, carry, [first, second, Source::Scalar(0)])
            },
            Instruction::AddressHigh { destination, destination_element, first, second, carry } => {
                let carry = self.scalar(function, allocation, carry)?;
                let register = self.destination(
                    function,
                    allocation,
                    destination,
                    destination_element,
                    RegisterClass::Vector,
                )?;
                let first = self.source(function, allocation, first)?;
                let second = self.source(function, allocation, second)?;
                encoder.vop3b(0x128, register, NULL, [first, second, Source::Scalar(carry)])
            },
            _ => Ok(()),
        }
    }

    fn encode_memory_and_mask(
        &self,
        function: &MachineFunction,
        allocation: &Allocation,
        encoder: &mut Encoder,
        instruction: Instruction,
    ) -> (r: Result<(), Gfx10Error>)
        requires
            instruction is LoadGlobal ==> described_destination(instruction).0
                < function.values@.len(),
        ensures
            match memory_and_mask_bytes(*function, allocation.bases@, instruction) {
                Ok(bytes) => r is Ok && final(encoder).code@ == old(encoder).code@ + bytes,
                Err(e) => r == Err::<(), Gfx10Error>(e),
            },
    {
        proof {
            reveal(memory_and_mask_bytes);
        }
        match instruction {
            Instruction::LoadGlobal { destination, register_count, address, offset } => {
                let register = self.vector(function, allocation, address)?;
                self.validate_address(function, address)?;
                self.validate_register_block(function, destination, register_count)?;
                let data = self.vector_destination(function, allocation, destination)?;
                encoder.global_memory(false, register_count, data, register, offset)
            },
            Instruction::StoreGlobal { register_count, address, offset, source } => {
                let register = self.vector(function, allocation, address)?;
                self.validate_address(function, address)?;
                let data = self.vector(function, allocation, source)?;
                if let Operand::Value { value, element } = source {
                    if element as u16 + register_count as u16 > function.description(
                        value,
                    ).register_count as u16 {
                        return Err(Gfx10Error::Unsupported("store source register block"));
                    }
                }
                encoder.global_memory(true, register_count, data, register, offset)
            },
            Instruction::ZeroExecutionMask => encoder.sop1(3, EXEC_LO, Source::Immediate(0)),
            Instruction::AndExecutionMaskWithPredicate { predicate } => {
                let register = self.scalar(function, allocation, predicate)?;
                encoder.sop2(0x0e, EXEC_LO, Source::Scalar(EXEC_LO), Source::Scalar(register))
            },
            Instruction::FloatDivide { .. }
            | Instruction::ExponentialBaseTwo { .. }
            | Instruction::Kill { .. } => Err(Gfx10Error::Malformed("unexpanded instruction")),
            _ => Ok(()),
        }
    }

    fn encode_move(
        &self,
        function: &MachineFunction,
        allocation: &Allocation,
        encoder: &mut Encoder,
        instruction: Instruction,
    ) -> (r: Result<(), Gfx10Error>)
        requires
            instruction is Constant || instruction is Copy,
            described_destination(instruction).0 < function.values@.len(),
        ensures
            match move_bytes(*function, allocation.bases@, instruction) {
                Ok(bytes) => r is Ok && final(encoder).code@ == old(encoder).code@ + bytes,
                Err(e) => r == Err::<(), Gfx10Error>(e),
            },
    {
        proof {
            reveal(move_bytes);
        }
        match instruction {
            Instruction::Constant { destination, bits } => {
                match function.description(destination).register_class {
                    RegisterClass::Vector => {
                        let register = self.vector_destination(function, allocation, destination)?;
                        encoder.vop1(1, register, Source::Immediate(bits))
                    },
                    RegisterClass::Scalar => {
                        let register = self.destination(
                            function,
                            allocation,
                            destination,
                            0,
                            RegisterClass::Scalar,
                        )?;
                        encoder.sop1(3, register, Source::Immediate(bits))
                    },
                    RegisterClass::Predicate => Err(Gfx10Error::Unsupported("predicate constant")),
                }
            },
            Instruction::Copy { destination, source } => {
                let source = self.source(function, allocation, source)?;
                match function.description(destination).register_class {
                    RegisterClass::Vector => {
                        let register = self.vector_destination(function, allocation, destination)?;
                        encoder.vop1(1, register, source)
                    },
                    RegisterClass::Scalar => {
                        let register = self.destination(
                            function,
                            allocation,
                            destination,
                            0,
                            RegisterClass::Scalar,
                        )?;
                        encoder.sop1(3, register, source)
                    },
                    RegisterClass::Predicate => {
                        let register = self.predicate_destination(function, allocation, destination)?;
                        encoder.sop1(3, register, source)
                    },
                }
            },
            _ => Ok(()),
        }
    }
}

} // verus!
