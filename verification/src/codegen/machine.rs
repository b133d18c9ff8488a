//! Target-neutral machine intermediate representation.
//!
//! A [`MachineFunction`] is a linear instruction list plus a table of values.
//! Each value occupies a contiguous block of 32-bit registers in one register
//! class. Fixed blocks represent registers assigned by the hardware ABI.
use vstd::prelude::*;

verus! {

#[derive(Clone, Copy, PartialEq, Eq, Debug, Hash, Structural)]
pub enum RegisterClass {
    /// Uniform 32-bit scalar registers.
    Scalar,
    /// Per-lane 32-bit vector registers.
    Vector,
    /// Hardware predicate registers, such as VCC_LO.
    Predicate,
}

#[derive(Clone, Copy, PartialEq, Eq, Debug, Hash, Structural)]
pub struct ValueId(pub u32);

impl ValueId {
    pub fn index(self) -> (r: usize)
        ensures
            r == self.0,
    {
        self.0 as usize
    }
}

#[derive(Clone, Copy, PartialEq, Eq, Debug, Structural)]
pub enum Operand {
    Value { value: ValueId, element: u8 },
    Immediate(u32),
    Physical { register_class: RegisterClass, register: u8 },
}

impl Operand {
    pub fn value(self) -> (r: Option<ValueId>)
        ensures
            r == (match self {
                Operand::Value { value, .. } => Some(value),
                _ => None,
            }),
    {
        match self {
            Operand::Value { value, .. } => Some(value),
            _ => None,
        }
    }
}

#[derive(Clone, Copy, PartialEq, Eq, Debug, Structural)]
pub enum FloatBinaryOperation {
    Add,
    Subtract,
    Multiply,
}

/// Floating comparison predicates. "Unordered" predicates also match NaNs.
#[derive(Clone, Copy, PartialEq, Eq, Debug, Structural)]
pub enum FloatComparisonKind {
    OrderedLessThan,
    OrderedGreaterThan,
    OrderedLessThanOrEqual,
    OrderedGreaterThanOrEqual,
    OrderedEqual,
    OrderedNotEqual,
    UnorderedNotEqual,
    UnorderedLessThanOrEqual,
    UnorderedLessThan,
    UnorderedGreaterThanOrEqual,
    UnorderedGreaterThan,
    UnorderedEqual,
    AlwaysTrue,
    AlwaysFalse,
}

#[derive(Clone, Copy, PartialEq, Eq, Debug, Structural)]
pub enum ValuePurpose {
    Parameter(u32),
    InterpolationCoordinates,
    Temporary,
}

#[derive(Clone, Copy, Debug)]
pub struct ValueDescription {
    pub register_class: RegisterClass,
    /// Length of this value's contiguous 32-bit register block.
    pub register_count: u8,
    /// Physical base register assigned by the target ABI, if any.
    pub fixed_register: Option<u8>,
    pub purpose: ValuePurpose,
}

#[derive(Clone, Copy, Debug, PartialEq)]
pub enum Instruction {
    Constant { destination: ValueId, bits: u32 },
    Copy { destination: ValueId, source: Operand },
    FloatBinary {
        operation: FloatBinaryOperation,
        destination: ValueId,
        first: Operand,
        second: Operand,
    },
    /// IEEE-correct division, expanded by the target before allocation.
    FloatDivide { destination: ValueId, first: Operand, second: Operand },
    FusedMultiplyAdd {
        destination: ValueId,
        first: Operand,
        second: Operand,
        third: Operand,
        negate_first: bool,
    },
    /// The destination is both read and overwritten by this instruction.
    FusedMultiplyAccumulate { destination: ValueId, first: Operand, second: Operand },
    Reciprocal { destination: ValueId, source: Operand },
    /// Exponential pseudo-instruction, expanded by the target.
    ExponentialBaseTwo { destination: ValueId, source: Operand },
    /// Single hardware exponential instruction after target expansion.
    HardwareExponentialBaseTwo { destination: ValueId, source: Operand },
    LoadExponent { destination: ValueId, first: Operand, second: Operand },
    DivideScale {
        destination: ValueId,
        predicate: Option<ValueId>,
        first: Operand,
        second: Operand,
        third: Operand,
    },
    /// Reads the carry predicate produced by the preceding divide scale.
    DivideFusedMultiplyAdd {
        destination: ValueId,
        first: Operand,
        second: Operand,
        third: Operand,
        predicate: Operand,
    },
    DivideFixup { destination: ValueId, first: Operand, second: Operand, third: Operand },
    FloatCompare {
        comparison: FloatComparisonKind,
        destination: ValueId,
        first: Operand,
        second: Operand,
    },
    Select { destination: ValueId, condition: Operand, when_true: Operand, when_false: Operand },
    IntegerMultiply { destination: ValueId, first: Operand, second: Operand },
    /// Sign-extending arithmetic shift right of a 32-bit value (`>> 31`
    /// semantics: 0 for non-negative, -1 for negative).
    IntegerShiftRight32 { destination: ValueId, first: Operand, second: Operand },
    /// Define one element of a 64-bit address and optionally its carry predicate.
    AddressLow {
        destination: ValueId,
        destination_element: u8,
        carry: Option<ValueId>,
        first: Operand,
        second: Operand,
    },
    AddressHigh {
        destination: ValueId,
        destination_element: u8,
        first: Operand,
        second: Operand,
        carry: Operand,
    },
    LoadGlobal { destination: ValueId, register_count: u8, address: Operand, offset: u32 },
    StoreGlobal { register_count: u8, address: Operand, offset: u32, source: Operand },
    /// The second interpolation step reads the result of the first step.
    Interpolate {
        second_step: bool,
        destination: ValueId,
        coordinates: Operand,
        previous_value: Option<Operand>,
        /// ABI-supplied primitive mask copied into M0 before interpolation.
        primitive_mask: Operand,
        attribute: u32,
        channel: u32,
    },
    Export { target: u32, values: [Operand; 4], mask: u8, done: bool, valid_mask: bool },
    Kill { condition: Operand },
    WaitForLoads,
    ZeroExecutionMask,
    AndExecutionMaskWithPredicate { predicate: Operand },
    BranchIfNoActiveLanes { label: u32 },
    Branch { label: u32 },
    BranchIfPredicate { predicate: Operand, label: u32 },
    Label { id: u32 },
    Return,
}

#[derive(Clone, Debug)]
pub struct MachineFunction {
    pub values: Vec<ValueDescription>,
    pub instructions: Vec<Instruction>,
}

/// The operand as a register read: immediates are not register uses.
pub open spec fn register_read(operand: Operand) -> Seq<Operand> {
    if operand is Immediate {
        seq![]
    } else {
        seq![operand]
    }
}

/// Whether export channel `channel` (0..4) is enabled in `mask`.
pub open spec fn export_channel_enabled(mask: u8, channel: int) -> bool {
    if channel == 0 {
        mask & 1u8 != 0
    } else if channel == 1 {
        mask & 2u8 != 0
    } else if channel == 2 {
        mask & 4u8 != 0
    } else {
        mask & 8u8 != 0
    }
}

/// The register read of an export channel, when the channel is enabled.
pub open spec fn export_read(mask: u8, channel: int, operand: Operand) -> Seq<Operand> {
    if export_channel_enabled(mask, channel) {
        register_read(operand)
    } else {
        seq![]
    }
}

/// All value elements defined by an instruction, in definition order.
#[verifier::opaque]
pub open spec fn instruction_definitions(instruction: Instruction) -> Seq<(ValueId, u8)> {
    match instruction {
        Instruction::Constant { destination, .. } => seq![(destination, 0u8)],
        Instruction::Copy { destination, .. } => seq![(destination, 0u8)],
        Instruction::FloatBinary { destination, .. } => seq![(destination, 0u8)],
        Instruction::FloatDivide { destination, .. } => seq![(destination, 0u8)],
        Instruction::FusedMultiplyAdd { destination, .. } => seq![(destination, 0u8)],
        Instruction::FusedMultiplyAccumulate { destination, .. } => seq![(destination, 0u8)],
        Instruction::Reciprocal { destination, .. } => seq![(destination, 0u8)],
        Instruction::ExponentialBaseTwo { destination, .. } => seq![(destination, 0u8)],
        Instruction::HardwareExponentialBaseTwo { destination, .. } => seq![(destination, 0u8)],
        Instruction::LoadExponent { destination, .. } => seq![(destination, 0u8)],
        Instruction::DivideFusedMultiplyAdd { destination, .. } => seq![(destination, 0u8)],
        Instruction::DivideFixup { destination, .. } => seq![(destination, 0u8)],
        Instruction::FloatCompare { destination, .. } => seq![(destination, 0u8)],
        Instruction::Select { destination, .. } => seq![(destination, 0u8)],
        Instruction::IntegerMultiply { destination, .. } => seq![(destination, 0u8)],
        Instruction::IntegerShiftRight32 { destination, .. } => seq![(destination, 0u8)],
        Instruction::Interpolate { destination, .. } => seq![(destination, 0u8)],
        Instruction::DivideScale { destination, predicate, .. } => match predicate {
            Some(p) => seq![(destination, 0u8), (p, 0u8)],
            None => seq![(destination, 0u8)],
        },
        Instruction::AddressLow { destination, destination_element, carry, .. } => match carry {
            Some(c) => seq![(destination, destination_element), (c, 0u8)],
            None => seq![(destination, destination_element)],
        },
        Instruction::AddressHigh { destination, destination_element, .. } => seq![
            (destination, destination_element),
        ],
        Instruction::LoadGlobal { destination, register_count, .. } => Seq::new(
            register_count as nat,
            |element: int| (destination, element as u8),
        ),
        _ => seq![],
    }
}

/// Register operands read by an instruction, excluding immediates, in read
/// order. A tied accumulator is read before its destination is overwritten.
#[verifier::opaque]
pub open spec fn instruction_uses(instruction: Instruction) -> Seq<Operand> {
    match instruction {
        Instruction::Constant { .. } => seq![],
        Instruction::Copy { source, .. } => register_read(source),
        Instruction::Reciprocal { source, .. } => register_read(source),
        Instruction::ExponentialBaseTwo { source, .. } => register_read(source),
        Instruction::HardwareExponentialBaseTwo { source, .. } => register_read(source),
        Instruction::FloatBinary { first, second, .. } => register_read(first) + register_read(
            second,
        ),
        Instruction::FloatDivide { first, second, .. } => register_read(first) + register_read(
            second,
        ),
        Instruction::LoadExponent { first, second, .. } => register_read(first) + register_read(
            second,
        ),
        Instruction::FloatCompare { first, second, .. } => register_read(first) + register_read(
            second,
        ),
        Instruction::IntegerMultiply { first, second, .. } => register_read(first)
            + register_read(second),
        Instruction::IntegerShiftRight32 { first, second, .. } => register_read(first)
            + register_read(second),
        Instruction::AddressLow { first, second, .. } => register_read(first) + register_read(
            second,
        ),
        Instruction::FusedMultiplyAdd { first, second, third, .. } => register_read(first)
            + register_read(second) + register_read(third),
        Instruction::DivideScale { first, second, third, .. } => register_read(first)
            + register_read(second) + register_read(third),
        Instruction::DivideFixup { first, second, third, .. } => register_read(first)
            + register_read(second) + register_read(third),
        Instruction::DivideFusedMultiplyAdd { first, second, third, predicate, .. } =>
            register_read(first) + register_read(second) + register_read(third) + register_read(
            predicate,
        ),
        Instruction::FusedMultiplyAccumulate { destination, first, second } => seq![
            Operand::Value { value: destination, element: 0 },
        ] + register_read(first) + register_read(second),
        Instruction::Select { condition, when_true, when_false, .. } => register_read(condition)
            + register_read(when_true) + register_read(when_false),
        Instruction::AddressHigh { first, second, carry, .. } => register_read(first)
            + register_read(second) + register_read(carry),
        Instruction::LoadGlobal { address, .. } => register_read(address),
        Instruction::StoreGlobal { address, source, .. } => register_read(address) + register_read(
            source,
        ),
        Instruction::Interpolate { coordinates, previous_value, primitive_mask, .. } =>
            register_read(coordinates) + register_read(primitive_mask) + match previous_value {
            Some(p) => register_read(p),
            None => seq![],
        },
        Instruction::Export { values, mask, .. } => export_read(mask, 0, values[0]) + export_read(
            mask,
            1,
            values[1],
        ) + export_read(mask, 2, values[2]) + export_read(mask, 3, values[3]),
        Instruction::Kill { condition } => register_read(condition),
        Instruction::AndExecutionMaskWithPredicate { predicate } => register_read(predicate),
        Instruction::BranchIfPredicate { predicate, .. } => register_read(predicate),
        _ => seq![],
    }
}

/// Appends the register read of `operand` to `reads`.
fn add_read(reads: &mut Vec<Operand>, operand: Operand)
    ensures
        final(reads)@ == old(reads)@ + register_read(operand),
{
    match operand {
        Operand::Immediate(_) => {
            assert(old(reads)@ + register_read(operand) =~= old(reads)@);
        },
        _ => {
            reads.push(operand);
        },
    }
}

impl MachineFunction {
    pub fn new() -> (r: Self)
        ensures
            r.values@ == Seq::<ValueDescription>::empty(),
            r.instructions@ == Seq::<Instruction>::empty(),
    {
        MachineFunction { values: Vec::new(), instructions: Vec::new() }
    }

    pub fn add_value(
        &mut self,
        register_class: RegisterClass,
        register_count: u8,
        fixed_register: Option<u8>,
        purpose: ValuePurpose,
    ) -> (value: ValueId)
        requires
            old(self).values.len() <= u32::MAX,
        ensures
            value.0 == old(self).values.len(),
            final(self).values@ == old(self).values@.push(
                ValueDescription { register_class, register_count, fixed_register, purpose },
            ),
            final(self).instructions@ == old(self).instructions@,
    {
        let value = ValueId(self.values.len() as u32);
        self.values.push(ValueDescription { register_class, register_count, fixed_register, purpose });
        value
    }

    pub fn description(&self, value: ValueId) -> (r: &ValueDescription)
        requires
            value.0 < self.values.len(),
        ensures
            *r == self.values@[value.0 as int],
    {
        &self.values[value.index()]
    }

    /// All value elements defined by an instruction, including secondary
    /// predicates and carries. A global load defines its entire register block.
    pub fn definitions(instruction: &Instruction) -> (r: Vec<(ValueId, u8)>)
        ensures
            r@ == instruction_definitions(*instruction),
    {
        let mut definitions: Vec<(ValueId, u8)> = Vec::new();
        match *instruction {
            Instruction::Constant { destination, .. }
            | Instruction::Copy { destination, .. }
            | Instruction::FloatBinary { destination, .. }
            | Instruction::FloatDivide { destination, .. }
            | Instruction::FusedMultiplyAdd { destination, .. }
            | Instruction::FusedMultiplyAccumulate { destination, .. }
            | Instruction::Reciprocal { destination, .. }
            | Instruction::ExponentialBaseTwo { destination, .. }
            | Instruction::HardwareExponentialBaseTwo { destination, .. }
            | Instruction::LoadExponent { destination, .. }
            | Instruction::DivideFusedMultiplyAdd { destination, .. }
            | Instruction::DivideFixup { destination, .. }
            | Instruction::FloatCompare { destination, .. }
            | Instruction::Select { destination, .. }
            | Instruction::IntegerMultiply { destination, .. }
            | Instruction::IntegerShiftRight32 { destination, .. }
            | Instruction::Interpolate { destination, .. } => {
                definitions.push((destination, 0));
            },
            Instruction::DivideScale { destination, predicate, .. } => {
                definitions.push((destination, 0));
                if let Some(predicate) = predicate {
                    definitions.push((predicate, 0));
                }
            },
            Instruction::AddressLow { destination, destination_element, carry, .. } => {
                definitions.push((destination, destination_element));
                if let Some(carry) = carry {
                    definitions.push((carry, 0));
                }
            },
            Instruction::AddressHigh { destination, destination_element, .. } => {
                definitions.push((destination, destination_element));
            },
            Instruction::LoadGlobal { destination, register_count, .. } => {
                let mut element: u8 = 0;
                while element < register_count
                    invariant
                        element <= register_count,
                        definitions@ == Seq::new(
                            element as nat,
                            |e: int| (destination, e as u8),
                        ),
                    decreases register_count - element,
                {
                    definitions.push((destination, element));
                    element = element + 1;
                }
            },
            _ => {},
        }
        reveal(instruction_definitions);
        assert(definitions@ =~= instruction_definitions(*instruction));
        definitions
    }

    /// Calls `visit` on each value element the instruction defines, in the
    /// order `definitions` lists them. `visit` need accept only the pairs
    /// `instruction_definitions` lists: no other pair is handed to it.
    pub fn visit_definitions(instruction: &Instruction, mut visit: impl FnMut(ValueId, u8))
        requires
            forall|value: ValueId, element: u8|
                #[trigger] instruction_definitions(*instruction).contains((value, element))
                    ==> call_requires(visit, (value, element)),
    {
        let definitions = Self::definitions(instruction);
        let mut k: usize = 0;
        while k < definitions.len()
            invariant
                k <= definitions.len(),
                definitions@ == instruction_definitions(*instruction),
                forall|value: ValueId, element: u8|
                    #[trigger] instruction_definitions(*instruction).contains((value, element))
                        ==> call_requires(visit, (value, element)),
            decreases definitions.len() - k,
        {
            let (value, element) = definitions[k];
            proof {
                assert(instruction_definitions(*instruction)[k as int] == (value, element));
                assert(instruction_definitions(*instruction).contains((value, element)));
            }
            visit(value, element);
            k = k + 1;
        }
    }

    /// Register operands read by an instruction, excluding immediates. A tied
    /// accumulator is read before its destination is overwritten.
    pub fn uses(instruction: &Instruction) -> (r: Vec<Operand>)
        ensures
            r@ == instruction_uses(*instruction),
    {
        let mut uses: Vec<Operand> = Vec::new();
        match *instruction {
            Instruction::Constant { .. } => {},
            Instruction::Copy { source, .. }
            | Instruction::Reciprocal { source, .. }
            | Instruction::ExponentialBaseTwo { source, .. }
            | Instruction::HardwareExponentialBaseTwo { source, .. } => {
                add_read(&mut uses, source);
            },
            Instruction::FloatBinary { first, second, .. }
            | Instruction::FloatDivide { first, second, .. }
            | Instruction::LoadExponent { first, second, .. }
            | Instruction::FloatCompare { first, second, .. }
            | Instruction::IntegerMultiply { first, second, .. }
            | Instruction::IntegerShiftRight32 { first, second, .. }
            | Instruction::AddressLow { first, second, .. } => {
                add_read(&mut uses, first);
                add_read(&mut uses, second);
            },
            Instruction::FusedMultiplyAdd { first, second, third, .. }
            | Instruction::DivideScale { first, second, third, .. }
            | Instruction::DivideFixup { first, second, third, .. } => {
                add_read(&mut uses, first);
                add_read(&mut uses, second);
                add_read(&mut uses, third);
            },
            Instruction::DivideFusedMultiplyAdd { first, second, third, predicate, .. } => {
                add_read(&mut uses, first);
                add_read(&mut uses, second);
                add_read(&mut uses, third);
                add_read(&mut uses, predicate);
            },
            Instruction::FusedMultiplyAccumulate { destination, first, second } => {
                add_read(&mut uses, Operand::Value { value: destination, element: 0 });
                add_read(&mut uses, first);
                add_read(&mut uses, second);
            },
            Instruction::Select { condition, when_true, when_false, .. } => {
                add_read(&mut uses, condition);
                add_read(&mut uses, when_true);
                add_read(&mut uses, when_false);
            },
            Instruction::AddressHigh { first, second, carry, .. } => {
                add_read(&mut uses, first);
                add_read(&mut uses, second);
                add_read(&mut uses, carry);
            },
            Instruction::LoadGlobal { address, .. } => {
                add_read(&mut uses, address);
            },
            Instruction::StoreGlobal { address, source, .. } => {
                add_read(&mut uses, address);
                add_read(&mut uses, source);
            },
            Instruction::Interpolate { coordinates, previous_value, primitive_mask, .. } => {
                add_read(&mut uses, coordinates);
                add_read(&mut uses, primitive_mask);
                if let Some(previous_value) = previous_value {
                    add_read(&mut uses, previous_value);
                }
            },
            Instruction::Export { values, mask, .. } => {
                if mask & 1u8 != 0 {
                    add_read(&mut uses, values[0]);
                }
                if mask & 2u8 != 0 {
                    add_read(&mut uses, values[1]);
                }
                if mask & 4u8 != 0 {
                    add_read(&mut uses, values[2]);
                }
                if mask & 8u8 != 0 {
                    add_read(&mut uses, values[3]);
                }
            },
            Instruction::Kill { condition } => {
                add_read(&mut uses, condition);
            },
            Instruction::AndExecutionMaskWithPredicate { predicate }
            | Instruction::BranchIfPredicate { predicate, .. } => {
                add_read(&mut uses, predicate);
            },
            _ => {},
        }
        reveal(instruction_uses);
        assert(uses@ =~= instruction_uses(*instruction));
        uses
    }

    /// Calls `visit` on each register operand the instruction reads, in the
    /// order `uses` lists them. `visit` need accept only the operands
    /// `instruction_uses` lists (never an immediate): no other operand is
    /// handed to it.
    pub fn visit_uses(instruction: &Instruction, mut visit: impl FnMut(Operand))
        requires
            forall|operand: Operand|
                #[trigger] instruction_uses(*instruction).contains(operand) ==> call_requires(
                    visit,
                    (operand,),
                ),
    {
        let uses = Self::uses(instruction);
        let mut k: usize = 0;
        while k < uses.len()
            invariant
                k <= uses.len(),
                uses@ == instruction_uses(*instruction),
                forall|operand: Operand|
                    #[trigger] instruction_uses(*instruction).contains(operand) ==> call_requires(
                        visit,
                        (operand,),
                    ),
            decreases uses.len() - k,
        {
            proof {
                assert(instruction_uses(*instruction).contains(uses@[k as int]));
            }
            visit(uses[k]);
            k = k + 1;
        }
    }
}

/// What `description` gives back of what `add_value` added: the values
/// after adding `description` under `id` (the number of values before it)
/// and then any further values (`later`; one more `add_value` call keeps
/// this shape) still hold `description` at `id`.
pub proof fn lemma_description_survives_additions(
    before: Seq<ValueDescription>,
    id: ValueId,
    description: ValueDescription,
    later: Seq<ValueDescription>,
    next: ValueDescription,
)
    requires
        id.0 == before.len(),
    ensures
        (before.push(description) + later)[id.0 as int] == description,
        (before.push(description) + later).push(next) == before.push(description) + later.push(
            next,
        ),
{
    assert((before.push(description) + later).push(next) =~= before.push(description)
        + later.push(next));
}

/// No operand of `operands` is an immediate.
pub open spec fn holds_no_immediate(operands: Seq<Operand>) -> bool {
    forall|u: int| 0 <= u < operands.len() ==> !(#[trigger] operands[u] is Immediate)
}

broadcast proof fn lemma_joined_reads(first: Seq<Operand>, second: Seq<Operand>)
    requires
        holds_no_immediate(first),
        holds_no_immediate(second),
    ensures
        #[trigger] holds_no_immediate(first + second),
{
    assert forall|u: int| 0 <= u < (first + second).len() implies !(#[trigger] (first
        + second)[u] is Immediate) by {
        if u >= first.len() {
            assert((first + second)[u] == second[u - first.len()]);
        }
    }
}

broadcast proof fn lemma_register_read(operand: Operand)
    ensures
        #[trigger] holds_no_immediate(register_read(operand)),
{
}

broadcast proof fn lemma_export_read(mask: u8, channel: int, operand: Operand)
    ensures
        #[trigger] holds_no_immediate(export_read(mask, channel, operand)),
{
}

/// An instruction's register uses never hold an immediate, so neither do
/// the operands `uses` lists and `visit_uses` hands out.
pub proof fn lemma_uses_hold_no_immediates(instruction: Instruction)
    ensures
        holds_no_immediate(instruction_uses(instruction)),
{
    broadcast use lemma_joined_reads, lemma_register_read, lemma_export_read;

    reveal(instruction_uses);
    assert(holds_no_immediate(Seq::<Operand>::empty()));
    match instruction {
        Instruction::FusedMultiplyAccumulate { destination, first, second } => {
            assert(holds_no_immediate(seq![Operand::Value { value: destination, element: 0 }]));
        },
        Instruction::Interpolate { previous_value, .. } => {
            assert(holds_no_immediate(Seq::<Operand>::empty()));
        },
        _ => {},
    }
}

impl Default for MachineFunction {
    fn default() -> (r: Self)
        ensures
            r.values@ == Seq::<ValueDescription>::empty(),
            r.instructions@ == Seq::<Instruction>::empty(),
    {
        MachineFunction::new()
    }
}

} // verus!
