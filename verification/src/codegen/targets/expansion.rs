//! GFX10.3 expansion of pseudo-instructions: IEEE division, the exponential
//! and discards, which end every discarded lane at a shared completion block.
use vstd::prelude::*;

use crate::codegen::machine::{
    FloatBinaryOperation, FloatComparisonKind, Instruction, MachineFunction, Operand,
    RegisterClass, ValueDescription, ValueId, ValuePurpose,
};
use crate::codegen::targets::gfx10::{Gfx10, Gfx10Error, EXP_NULL, VCC_LO};

verus! {

/// The single-register operand of a value.
pub open spec fn value_at(index: int) -> Operand {
    Operand::Value { value: ValueId(index as u32), element: 0 }
}

/// The operand reading element 0 of `value`.
pub fn value_operand(value: ValueId) -> (r: Operand)
    ensures
        r == (Operand::Value { value, element: 0 }),
{
    Operand::Value { value, element: 0 }
}

/// The bits of the float 1.0.
pub const FLOAT_ONE: u32 = 0x3f80_0000;

/// The bits of the float -126.0, the smallest normal exponent.
pub const FLOAT_MINUS_126: u32 = 0xc2fc_0000;

/// The bits of the float 64.0.
pub const FLOAT_64: u32 = 0x4280_0000;

/// The bits of the integer -64.
pub const INTEGER_MINUS_64: u32 = 0xffff_ffc0;

/// A one-register vector temporary.
pub open spec fn vector_temporary() -> ValueDescription {
    ValueDescription {
        register_class: RegisterClass::Vector,
        register_count: 1,
        fixed_register: None,
        purpose: ValuePurpose::Temporary,
    }
}

/// A predicate temporary fixed to VCC_LO.
pub open spec fn predicate_temporary() -> ValueDescription {
    ValueDescription {
        register_class: RegisterClass::Predicate,
        register_count: 1,
        fixed_register: Some(VCC_LO),
        purpose: ValuePurpose::Temporary,
    }
}

/// The values a division adds: seven vector temporaries and its predicate.
pub open spec fn division_values() -> Seq<ValueDescription> {
    seq![
        vector_temporary(),
        vector_temporary(),
        vector_temporary(),
        vector_temporary(),
        vector_temporary(),
        vector_temporary(),
        vector_temporary(),
        predicate_temporary(),
    ]
}

/// IEEE-correct division `destination = numerator / denominator`, with its
/// temporaries numbered from `base`: scaled denominator, scaled numerator,
/// reciprocal, error, quotient, second error, final error, predicate.
pub open spec fn division_sequence(
    base: int,
    destination: ValueId,
    numerator: Operand,
    denominator: Operand,
) -> Seq<Instruction> {
    let scaled_denominator = ValueId(base as u32);
    let scaled_numerator = ValueId((base + 1) as u32);
    let reciprocal = ValueId((base + 2) as u32);
    let error = ValueId((base + 3) as u32);
    let quotient = ValueId((base + 4) as u32);
    let second_error = ValueId((base + 5) as u32);
    let final_error = ValueId((base + 6) as u32);
    let predicate = ValueId((base + 7) as u32);
    seq![
        Instruction::DivideScale {
            destination: scaled_denominator,
            predicate: None,
            first: denominator,
            second: denominator,
            third: numerator,
        },
        Instruction::Reciprocal { destination: reciprocal, source: value_at(base) },
        Instruction::FusedMultiplyAdd {
            destination: error,
            first: value_at(base),
            second: value_at(base + 2),
            third: Operand::Immediate(FLOAT_ONE),
            negate_first: true,
        },
        Instruction::FusedMultiplyAccumulate {
            destination: reciprocal,
            first: value_at(base + 3),
            second: value_at(base + 2),
        },
        Instruction::DivideScale {
            destination: scaled_numerator,
            predicate: Some(predicate),
            first: numerator,
            second: denominator,
            third: numerator,
        },
        Instruction::FloatBinary {
            operation: FloatBinaryOperation::Multiply,
            destination: quotient,
            first: value_at(base + 1),
            second: value_at(base + 2),
        },
        Instruction::FusedMultiplyAdd {
            destination: second_error,
            first: value_at(base),
            second: value_at(base + 4),
            third: value_at(base + 1),
            negate_first: true,
        },
        Instruction::FusedMultiplyAccumulate {
            destination: quotient,
            first: value_at(base + 5),
            second: value_at(base + 2),
        },
        Instruction::FusedMultiplyAdd {
            destination: final_error,
            first: value_at(base),
            second: value_at(base + 4),
            third: value_at(base + 1),
            negate_first: true,
        },
        Instruction::DivideFusedMultiplyAdd {
            destination: final_error,
            first: value_at(base + 6),
            second: value_at(base + 2),
            third: value_at(base + 4),
            predicate: value_at(base + 7),
        },
        Instruction::DivideFixup {
            destination,
            first: value_at(base + 6),
            second: denominator,
            third: numerator,
        },
    ]
}

/// The values an exponential adds: its predicate, scale and inverse scale.
pub open spec fn exponential_values() -> Seq<ValueDescription> {
    seq![predicate_temporary(), vector_temporary(), vector_temporary()]
}

/// `destination = 2^source`, with denormal results computed at a 2^64 scale;
/// its temporaries are numbered from `base`: predicate, scale, inverse scale.
pub open spec fn exponential_sequence(base: int, destination: ValueId, source: Operand) -> Seq<
    Instruction,
> {
    let predicate = ValueId(base as u32);
    let scale = ValueId((base + 1) as u32);
    let inverse_scale = ValueId((base + 2) as u32);
    seq![
        Instruction::FloatCompare {
            comparison: FloatComparisonKind::OrderedGreaterThan,
            destination: predicate,
            first: Operand::Immediate(FLOAT_MINUS_126),
            second: source,
        },
        Instruction::Select {
            destination: scale,
            condition: value_at(base),
            when_true: Operand::Immediate(FLOAT_64),
            when_false: Operand::Immediate(0),
        },
        Instruction::FloatBinary {
            operation: FloatBinaryOperation::Add,
            destination,
            first: source,
            second: value_at(base + 1),
        },
        Instruction::Select {
            destination: inverse_scale,
            condition: value_at(base),
            when_true: Operand::Immediate(INTEGER_MINUS_64),
            when_false: Operand::Immediate(0),
        },
        Instruction::HardwareExponentialBaseTwo {
            destination,
            source: Operand::Value { value: destination, element: 0 },
        },
        Instruction::LoadExponent {
            destination,
            first: Operand::Value { value: destination, element: 0 },
            second: value_at(base + 2),
        },
    ]
}

/// The label an instruction places or branches to.
pub open spec fn referenced_label(instruction: Instruction) -> Option<u32> {
    match instruction {
        Instruction::Label { id } => Some(id),
        Instruction::Branch { label } => Some(label),
        Instruction::BranchIfPredicate { label, .. } => Some(label),
        Instruction::BranchIfNoActiveLanes { label } => Some(label),
        _ => None,
    }
}

/// The highest label placed or referenced by the instructions.
pub open spec fn highest_label(instructions: Seq<Instruction>) -> Option<u32>
    decreases instructions.len(),
{
    if instructions.len() == 0 {
        None
    } else {
        let rest = highest_label(instructions.drop_last());
        match referenced_label(instructions.last()) {
            None => rest,
            Some(label) => match rest {
                None => Some(label),
                Some(highest) => Some(
                    if label > highest {
                        label
                    } else {
                        highest
                    },
                ),
            },
        }
    }
}

/// A label no instruction uses: one past the highest, when there is one.
pub open spec fn discard_label(instructions: Seq<Instruction>) -> Option<u32> {
    match highest_label(instructions) {
        None => Some(0),
        Some(highest) => if highest == u32::MAX {
            None
        } else {
            Some((highest + 1) as u32)
        },
    }
}

/// The expansion of one instruction whose temporaries are numbered from
/// `base`: its instructions, the values it adds, and whether it discards.
pub open spec fn expand_one(base: int, label: u32, instruction: Instruction) -> (
    Seq<Instruction>,
    Seq<ValueDescription>,
    bool,
) {
    match instruction {
        Instruction::FloatDivide { destination, first, second } => (
            division_sequence(base, destination, first, second),
            division_values(),
            false,
        ),
        Instruction::ExponentialBaseTwo { destination, source } => (
            exponential_sequence(base, destination, source),
            exponential_values(),
            false,
        ),
        Instruction::ZeroExecutionMask => (
            seq![Instruction::ZeroExecutionMask, Instruction::BranchIfNoActiveLanes { label }],
            seq![],
            true,
        ),
        Instruction::Kill { condition } => match condition {
            Operand::Immediate(bits) => if bits == 0 {
                (
                    seq![
                        Instruction::ZeroExecutionMask,
                        Instruction::BranchIfNoActiveLanes { label },
                    ],
                    seq![],
                    true,
                )
            } else {
                (seq![], seq![], false)
            },
            _ => (
                seq![
                    Instruction::AndExecutionMaskWithPredicate { predicate: condition },
                    Instruction::BranchIfNoActiveLanes { label },
                ],
                seq![],
                true,
            ),
        },
        Instruction::AndExecutionMaskWithPredicate { predicate } => (
            seq![
                Instruction::AndExecutionMaskWithPredicate { predicate },
                Instruction::BranchIfNoActiveLanes { label },
            ],
            seq![],
            true,
        ),
        _ => (seq![instruction], seq![], false),
    }
}

/// The expansion of the first `n` instructions, with temporaries numbered
/// from `base`.
pub open spec fn expanded_prefix(base: int, label: u32, instructions: Seq<Instruction>, n: int) -> (
    Seq<Instruction>,
    Seq<ValueDescription>,
    bool,
)
    decreases n,
{
    if n <= 0 {
        (seq![], seq![], false)
    } else {
        let (expanded, added, discards) = expanded_prefix(base, label, instructions, n - 1);
        let (more, more_values, more_discards) = expand_one(
            base + added.len(),
            label,
            instructions[n - 1],
        );
        (expanded + more, added + more_values, discards || more_discards)
    }
}

/// The block every discarded wave ends in: a null export and the end of the
/// program.
pub open spec fn discard_completion(label: u32) -> Seq<Instruction> {
    seq![
        Instruction::Label { id: label },
        Instruction::Export {
            target: EXP_NULL,
            values: [
                Operand::Immediate(0),
                Operand::Immediate(0),
                Operand::Immediate(0),
                Operand::Immediate(0),
            ],
            mask: 0,
            done: true,
            valid_mask: true,
        },
        Instruction::Return,
    ]
}

/// The outcome of expanding a function with these values and instructions,
/// and the values and instructions it then holds.
pub open spec fn expansion(values: Seq<ValueDescription>, instructions: Seq<Instruction>) -> (
    Result<(), Gfx10Error>,
    Seq<ValueDescription>,
    Seq<Instruction>,
) {
    match discard_label(instructions) {
        None => (
            Err(Gfx10Error::Malformed("no free label for discard completion")),
            values,
            instructions,
        ),
        Some(label) => {
            let (expanded, added, discards) = expanded_prefix(
                values.len() as int,
                label,
                instructions,
                instructions.len() as int,
            );
            if !discards {
                (Ok(()), values + added, expanded)
            } else if expanded.len() == 0 || expanded.last() != Instruction::Return {
                (
                    Err(Gfx10Error::Malformed("discard shader must end with return")),
                    values + added,
                    seq![],
                )
            } else {
                (Ok(()), values + added, expanded + discard_completion(label))
            }
        },
    }
}

/// Each instruction adds at most eight values.
proof fn lemma_expansion_growth(base: int, label: u32, instructions: Seq<Instruction>, n: int)
    requires
        0 <= n <= instructions.len(),
    ensures
        expanded_prefix(base, label, instructions, n).1.len() <= 8 * n,
    decreases n,
{
    if n > 0 {
        lemma_expansion_growth(base, label, instructions, n - 1);
    }
}

/// The highest label of a prefix grows by the next instruction's label.
proof fn lemma_highest_label_step(instructions: Seq<Instruction>, k: int)
    requires
        0 <= k < instructions.len(),
    ensures
        instructions.subrange(0, k + 1).drop_last() == instructions.subrange(0, k),
        instructions.subrange(0, k + 1).last() == instructions[k],
{
    assert(instructions.subrange(0, k + 1).drop_last() =~= instructions.subrange(0, k));
}

/// Pseudo-instructions that only exist before target expansion.
pub open spec fn is_pseudo(instruction: Instruction) -> bool {
    instruction is FloatDivide || instruction is ExponentialBaseTwo || instruction is Kill
}

/// An instruction after expansion: no pseudo-instruction, and a global load
/// names one of the first `values` values.
pub open spec fn expanded_instruction(instruction: Instruction, values: int) -> bool {
    &&& !is_pseudo(instruction)
    &&& instruction matches Instruction::LoadGlobal { destination, .. } ==> destination.0 < values
}

/// Every global load of `instructions` names one of the first `values` values.
pub open spec fn loads_known(instructions: Seq<Instruction>, values: int) -> bool {
    forall|k: int|
        0 <= k < instructions.len() ==> (#[trigger] instructions[k] matches Instruction::LoadGlobal {
            destination,
            ..
        } ==> destination.0 < values)
}

proof fn lemma_expand_one_expanded(base: int, label: u32, instruction: Instruction, values: int)
    requires
        instruction matches Instruction::LoadGlobal { destination, .. } ==> destination.0 < values,
    ensures
        forall|i: int|
            0 <= i < expand_one(base, label, instruction).0.len() ==> expanded_instruction(
                #[trigger] expand_one(base, label, instruction).0[i],
                values,
            ),
{
    let produced = expand_one(base, label, instruction).0;
    match instruction {
        Instruction::FloatDivide { destination, first, second } => {
            let d = division_sequence(base, destination, first, second);
            assert forall|i: int| 0 <= i < d.len() implies expanded_instruction(
                #[trigger] d[i],
                values,
            ) by {
                assert(d.len() == 11);
                if i == 0 {} else if i == 1 {} else if i == 2 {} else if i == 3 {} else if i == 4 {
                } else if i == 5 {} else if i == 6 {} else if i == 7 {} else if i == 8 {
                } else if i == 9 {} else {}
            }
        },
        Instruction::ExponentialBaseTwo { destination, source } => {
            let e = exponential_sequence(base, destination, source);
            assert forall|i: int| 0 <= i < e.len() implies expanded_instruction(
                #[trigger] e[i],
                values,
            ) by {
                assert(e.len() == 6);
                if i == 0 {} else if i == 1 {} else if i == 2 {} else if i == 3 {} else if i == 4 {
                } else {}
            }
        },
        _ => {},
    }
}

proof fn lemma_expanded_prefix_expanded(
    base: int,
    label: u32,
    instructions: Seq<Instruction>,
    n: int,
    values: int,
)
    requires
        0 <= n <= instructions.len(),
        loads_known(instructions, values),
    ensures
        forall|i: int|
            0 <= i < expanded_prefix(base, label, instructions, n).0.len() ==> expanded_instruction(
                #[trigger] expanded_prefix(base, label, instructions, n).0[i],
                values,
            ),
    decreases n,
{
    if n > 0 {
        lemma_expanded_prefix_expanded(base, label, instructions, n - 1, values);
        let previous = expanded_prefix(base, label, instructions, n - 1);
        let instruction = instructions[n - 1];
        assert(instruction matches Instruction::LoadGlobal { destination, .. } ==> destination.0
            < values);
        lemma_expand_one_expanded(base + previous.1.len(), label, instruction, values);
        let step = expand_one(base + previous.1.len(), label, instruction);
        let all = expanded_prefix(base, label, instructions, n).0;
        assert(all == previous.0 + step.0);
        assert forall|i: int| 0 <= i < all.len() implies expanded_instruction(
            #[trigger] all[i],
            values,
        ) by {
            if i < previous.0.len() {
                assert(all[i] == previous.0[i]);
            } else {
                assert(all[i] == step.0[i - previous.0.len()]);
            }
        }
    }
}

/// After a successful expansion no pseudo-instruction remains, and global
/// loads still name known values.
pub proof fn lemma_expansion_leaves_no_pseudo_instructions(
    values: Seq<ValueDescription>,
    instructions: Seq<Instruction>,
)
    requires
        expansion(values, instructions).0 is Ok,
        loads_known(instructions, values.len() as int),
    ensures
        forall|k: int|
            0 <= k < expansion(values, instructions).2.len() ==> expanded_instruction(
                #[trigger] expansion(values, instructions).2[k],
                values.len() as int,
            ),
        expansion(values, instructions).1.len() >= values.len(),
{
    let label = discard_label(instructions)->Some_0;
    let n = instructions.len() as int;
    lemma_expanded_prefix_expanded(values.len() as int, label, instructions, n, values.len() as int);
    let prefix = expanded_prefix(values.len() as int, label, instructions, n);
    let out = expansion(values, instructions).2;
    if prefix.2 {
        let completion = discard_completion(label);
        assert(out == prefix.0 + completion);
        assert forall|k: int| 0 <= k < out.len() implies expanded_instruction(
            #[trigger] out[k],
            values.len() as int,
        ) by {
            if k < prefix.0.len() {
                assert(out[k] == prefix.0[k]);
            } else {
                assert(out[k] == completion[k - prefix.0.len()]);
            }
        }
    }
}

proof fn lemma_expanded_prefix_length(base: int, label: u32, instructions: Seq<Instruction>, n: int)
    requires
        0 <= n <= instructions.len(),
    ensures
        expanded_prefix(base, label, instructions, n).0.len() <= 11 * n,
        expanded_prefix(base, label, instructions, n).1.len() <= 8 * n,
    decreases n,
{
    if n > 0 {
        lemma_expanded_prefix_length(base, label, instructions, n - 1);
    }
}

/// Expansion at most multiplies the instruction count by eleven (plus the
/// discard completion) and adds at most eight values per instruction.
pub proof fn lemma_expansion_length(values: Seq<ValueDescription>, instructions: Seq<Instruction>)
    ensures
        expansion(values, instructions).2.len() <= 11 * instructions.len() + 3,
        expansion(values, instructions).1.len() <= values.len() + 8 * instructions.len(),
{
    if let Some(label) = discard_label(instructions) {
        lemma_expanded_prefix_length(
            values.len() as int,
            label,
            instructions,
            instructions.len() as int,
        );
    }
}

impl Gfx10 {
    /// Expands every pseudo-instruction of `function` in place. Discards
    /// branch to a completion block appended after the final return.
    pub fn expand(&self, function: &mut MachineFunction) -> (r: Result<(), Gfx10Error>)
        requires
            old(function).values@.len() + 8 * old(function).instructions@.len() <= u32::MAX,
        ensures
            (r, final(function).values@, final(function).instructions@) == expansion(
                old(function).values@,
                old(function).instructions@,
            ),
    {
        let mut highest: Option<u32> = None;
        let mut k: usize = 0;
        while k < function.instructions.len()
            invariant
                k <= function.instructions@.len(),
                highest == highest_label(function.instructions@.subrange(0, k as int)),
            decreases function.instructions@.len() - k,
        {
            let referenced = match function.instructions[k] {
                Instruction::Label { id } => Some(id),
                Instruction::Branch { label }
                | Instruction::BranchIfPredicate { label, .. }
                | Instruction::BranchIfNoActiveLanes { label } => Some(label),
                _ => None,
            };
            highest = match referenced {
                None => highest,
                Some(label) => match highest {
                    None => Some(label),
                    Some(previous) => Some(
                        if label > previous {
                            label
                        } else {
                            previous
                        },
                    ),
                },
            };
            proof {
                lemma_highest_label_step(function.instructions@, k as int);
            }
            k = k + 1;
        }
        assert(function.instructions@.subrange(0, function.instructions@.len() as int)
            =~= function.instructions@);
        let label = match highest {
            None => 0,
            Some(previous) => {
                if previous == u32::MAX {
                    return Err(Gfx10Error::Malformed("no free label for discard completion"));
                }
                previous + 1
            },
        };
        let mut instructions: Vec<Instruction> = Vec::new();
        std::mem::swap(&mut instructions, &mut function.instructions);
        let mut expanded: Vec<Instruction> = Vec::with_capacity(instructions.len());
        let mut discards = false;
        let ghost values = function.values@;
        let ghost base = values.len() as int;
        let mut i: usize = 0;
        while i < instructions.len()
            invariant
                i <= instructions@.len(),
                function.instructions@ == Seq::<Instruction>::empty(),
                values.len() + 8 * instructions@.len() <= u32::MAX,
                base == values.len(),
                expanded@ == expanded_prefix(base, label, instructions@, i as int).0,
                function.values@ == values + expanded_prefix(base, label, instructions@, i as int).1,
                discards == expanded_prefix(base, label, instructions@, i as int).2,
            decreases instructions@.len() - i,
        {
            proof {
                lemma_expansion_growth(base, label, instructions@, i as int);
            }
            match instructions[i] {
                Instruction::FloatDivide { destination, first, second } => {
                    self.expand_division(function, &mut expanded, destination, first, second);
                },
                Instruction::ExponentialBaseTwo { destination, source } => {
                    self.expand_exponential(function, &mut expanded, destination, source);
                },
                Instruction::Kill { condition: Operand::Immediate(0) }
                | Instruction::ZeroExecutionMask => {
                    expanded.push(Instruction::ZeroExecutionMask);
                    expanded.push(Instruction::BranchIfNoActiveLanes { label });
                    discards = true;
                },
                Instruction::Kill { condition: Operand::Immediate(_) } => {},
                Instruction::Kill { condition }
                | Instruction::AndExecutionMaskWithPredicate { predicate: condition } => {
                    expanded.push(Instruction::AndExecutionMaskWithPredicate { predicate: condition });
                    expanded.push(Instruction::BranchIfNoActiveLanes { label });
                    discards = true;
                },
                other => {
                    expanded.push(other);
                },
            }
            proof {
                let previous = expanded_prefix(base, label, instructions@, i as int);
                let step = expand_one(base + previous.1.len(), label, instructions@[i as int]);
                assert(expanded@ =~= previous.0 + step.0);
                assert(function.values@ =~= values + (previous.1 + step.1));
            }
            i = i + 1;
        }
        if discards {
            let ends_with_return = expanded.len() > 0 && match expanded[expanded.len() - 1] {
                Instruction::Return => true,
                _ => false,
            };
            if !ends_with_return {
                return Err(Gfx10Error::Malformed("discard shader must end with return"));
            }
            let ghost body = expanded@;
            expanded.push(Instruction::Label { id: label });
            expanded.push(
                Instruction::Export {
                    target: EXP_NULL,
                    values: [
                        Operand::Immediate(0),
                        Operand::Immediate(0),
                        Operand::Immediate(0),
                        Operand::Immediate(0),
                    ],
                    mask: 0,
                    done: true,
                    valid_mask: true,
                },
            );
            expanded.push(Instruction::Return);
            assert(expanded@ =~= body + discard_completion(label));
        }
        function.instructions = expanded;
        Ok(())
    }

    pub fn expand_division(
        &self,
        function: &mut MachineFunction,
        output: &mut Vec<Instruction>,
        destination: ValueId,
        numerator: Operand,
        denominator: Operand,
    )
        requires
            old(function).values@.len() + 8 <= u32::MAX,
        ensures
            final(function).values@ == old(function).values@ + division_values(),
            final(function).instructions@ == old(function).instructions@,
            final(output)@ == old(output)@ + division_sequence(
                old(function).values@.len() as int,
                destination,
                numerator,
                denominator,
            ),
    {
        let ghost base = function.values@.len() as int;
        let scaled_denominator = function.add_value(
            RegisterClass::Vector,
            1,
            None,
            ValuePurpose::Temporary,
        );
        let scaled_numerator = function.add_value(
            RegisterClass::Vector,
            1,
            None,
            ValuePurpose::Temporary,
        );
        let reciprocal = function.add_value(RegisterClass::Vector, 1, None, ValuePurpose::Temporary);
        let error = function.add_value(RegisterClass::Vector, 1, None, ValuePurpose::Temporary);
        let quotient = function.add_value(RegisterClass::Vector, 1, None, ValuePurpose::Temporary);
        let second_error = function.add_value(
            RegisterClass::Vector,
            1,
            None,
            ValuePurpose::Temporary,
        );
        let final_error = function.add_value(
            RegisterClass::Vector,
            1,
            None,
            ValuePurpose::Temporary,
        );
        let predicate = function.add_value(
            RegisterClass::Predicate,
            1,
            Some(VCC_LO),
            ValuePurpose::Temporary,
        );
        let ghost start = output@;
        output.push(
            Instruction::DivideScale {
                destination: scaled_denominator,
                predicate: None,
                first: denominator,
                second: denominator,
                third: numerator,
            },
        );
        output.push(
            Instruction::Reciprocal {
                destination: reciprocal,
                source: value_operand(scaled_denominator),
            },
        );
        output.push(
            Instruction::FusedMultiplyAdd {
                destination: error,
                first: value_operand(scaled_denominator),
                second: value_operand(reciprocal),
                third: Operand::Immediate(FLOAT_ONE),
                negate_first: true,
            },
        );
        output.push(
            Instruction::FusedMultiplyAccumulate {
                destination: reciprocal,
                first: value_operand(error),
                second: value_operand(reciprocal),
            },
        );
        output.push(
            Instruction::DivideScale {
                destination: scaled_numerator,
                predicate: Some(predicate),
                first: numerator,
                second: denominator,
                third: numerator,
            },
        );
        output.push(
            Instruction::FloatBinary {
                operation: FloatBinaryOperation::Multiply,
                destination: quotient,
                first: value_operand(scaled_numerator),
                second: value_operand(reciprocal),
            },
        );
        output.push(
            Instruction::FusedMultiplyAdd {
                destination: second_error,
                first: value_operand(scaled_denominator),
                second: value_operand(quotient),
                third: value_operand(scaled_numerator),
                negate_first: true,
            },
        );
        output.push(
            Instruction::FusedMultiplyAccumulate {
                destination: quotient,
                first: value_operand(second_error),
                second: value_operand(reciprocal),
            },
        );
        output.push(
            Instruction::FusedMultiplyAdd {
                destination: final_error,
                first: value_operand(scaled_denominator),
                second: value_operand(quotient),
                third: value_operand(scaled_numerator),
                negate_first: true,
            },
        );
        output.push(
            Instruction::DivideFusedMultiplyAdd {
                destination: final_error,
                first: value_operand(final_error),
                second: value_operand(reciprocal),
                third: value_operand(quotient),
                predicate: value_operand(predicate),
            },
        );
        output.push(
            Instruction::DivideFixup {
                destination,
                first: value_operand(final_error),
                second: denominator,
                third: numerator,
            },
        );
        assert(function.values@ =~= old(function).values@ + division_values());
        assert(output@ =~= start + division_sequence(base, destination, numerator, denominator));
    }

    pub fn expand_exponential(
        &self,
        function: &mut MachineFunction,
        output: &mut Vec<Instruction>,
        destination: ValueId,
        source: Operand,
    )
        requires
            old(function).values@.len() + 8 <= u32::MAX,
        ensures
            final(function).values@ == old(function).values@ + exponential_values(),
            final(function).instructions@ == old(function).instructions@,
            final(output)@ == old(output)@ + exponential_sequence(
                old(function).values@.len() as int,
                destination,
                source,
            ),
    {
        let ghost base = function.values@.len() as int;
        let predicate = function.add_value(
            RegisterClass::Predicate,
            1,
            Some(VCC_LO),
            ValuePurpose::Temporary,
        );
        let scale = function.add_value(RegisterClass::Vector, 1, None, ValuePurpose::Temporary);
        let inverse_scale = function.add_value(
            RegisterClass::Vector,
            1,
            None,
            ValuePurpose::Temporary,
        );
        let ghost start = output@;
        output.push(
            Instruction::FloatCompare {
                comparison: FloatComparisonKind::OrderedGreaterThan,
                destination: predicate,
                first: Operand::Immediate(FLOAT_MINUS_126),
                second: source,
            },
        );
        output.push(
            Instruction::Select {
                destination: scale,
                condition: value_operand(predicate),
                when_true: Operand::Immediate(FLOAT_64),
                when_false: Operand::Immediate(0),
            },
        );
        output.push(
            Instruction::FloatBinary {
                operation: FloatBinaryOperation::Add,
                destination,
                first: source,
                second: value_operand(scale),
            },
        );
        output.push(
            Instruction::Select {
                destination: inverse_scale,
                condition: value_operand(predicate),
                when_true: Operand::Immediate(INTEGER_MINUS_64),
                when_false: Operand::Immediate(0),
            },
        );
        output.push(
            Instruction::HardwareExponentialBaseTwo {
                destination,
                source: value_operand(destination),
            },
        );
        output.push(
            Instruction::LoadExponent {
                destination,
                first: value_operand(destination),
                second: value_operand(inverse_scale),
            },
        );
        assert(function.values@ =~= old(function).values@ + exponential_values());
        assert(output@ =~= start + exponential_sequence(base, destination, source));
    }
}

} // verus!
