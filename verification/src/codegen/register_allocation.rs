//! Deterministic allocation of contiguous machine-value register blocks.
//! Reads precede writes at each instruction, so a destination can reuse the
//! register of a source whose lifetime ends at that instruction.
use vstd::prelude::*;

use crate::codegen::machine::{
    instruction_definitions, instruction_uses, Instruction, MachineFunction, Operand,
    RegisterClass, ValueDescription, ValueId, ValuePurpose,
};
use crate::codegen::targets::{Allocation, Target};

verus! {

#[derive(Clone, Copy, Debug, PartialEq, Eq, Structural)]
pub enum RegisterAllocationError {
    InvalidValue(ValueId),
    EmptyValue(ValueId),
    InvalidElement { value: ValueId, element: u8 },
    InvalidWidth { value: ValueId, element: u8, width: u8 },
    ReadBeforeDefinition { value: ValueId, element: u8, instruction: usize },
    InvalidTiedOperand { instruction: usize },
    InputWithoutFixedRegister(ValueId),
    WrongRegisterClass { value: ValueId, expected: RegisterClass },
    InvalidPhysicalRegister { register_class: RegisterClass, register: u8 },
    InvalidRegisterRange(ValueId),
    ConflictingFixedRegisters { first: ValueId, second: ValueId },
    RegistersExhausted(ValueId),
}

/// The closed interval of program points over which a value occupies its
/// registers. Instruction `k` reads at point `2k` and writes at `2k + 1`.
#[derive(Clone, Copy, Debug)]
pub struct Lifetime {
    pub start: usize,
    pub end: usize,
}

impl Lifetime {
    pub open spec fn spec_intersects(self, other: Lifetime) -> bool {
        self.start <= other.end && other.start <= self.end
    }

    fn intersects(self, other: Self) -> (r: bool)
        ensures
            r == self.spec_intersects(other),
    {
        self.start <= other.end && other.start <= self.end
    }

    fn touch(&mut self, point: usize)
        ensures
            final(self).start == (if point < old(self).start {
                point
            } else {
                old(self).start
            }),
            final(self).end == (if point > old(self).end {
                point
            } else {
                old(self).end
            }),
    {
        if point < self.start {
            self.start = point;
        }
        if point > self.end {
            self.end = point;
        }
    }
}

/// A read of a raw physical register block at a program point.
#[derive(Clone, Copy, Debug)]
pub struct PhysicalUse {
    pub register_class: RegisterClass,
    pub register: u8,
    pub width: u8,
    pub point: usize,
}

// ---------------------------------------------------------------------------
// Register files
// ---------------------------------------------------------------------------
/// The register numbers `[start, end)` of a register class.
pub open spec fn class_bounds<T: Target>(target: &T, register_class: RegisterClass) -> (int, int) {
    match register_class {
        RegisterClass::Scalar => (0, target.scalar_register_limit() as int),
        RegisterClass::Vector => (0, target.vector_register_limit() as int),
        RegisterClass::Predicate => {
            let start = target.predicate_register_number() as int;
            let end = start + target.predicate_register_limit();
            (start, if end > u32::MAX { u32::MAX as int } else { end })
        },
    }
}

/// The usable end of a register class: its bound, capped by the 8-bit
/// register field.
pub open spec fn class_end<T: Target>(target: &T, register_class: RegisterClass) -> int {
    let end = class_bounds(target, register_class).1;
    if end < 256 {
        end
    } else {
        256
    }
}

pub open spec fn spec_physical_range_valid<T: Target>(
    target: &T,
    register_class: RegisterClass,
    register: int,
    width: int,
) -> bool {
    width > 0 && register >= class_bounds(target, register_class).0 && register + width
        <= class_end(target, register_class)
}

fn register_bounds<T: Target>(target: &T, register_class: RegisterClass) -> (r: (u32, u32))
    ensures
        r.0 == class_bounds(target, register_class).0,
        r.1 == class_bounds(target, register_class).1,
{
    match register_class {
        RegisterClass::Scalar => (0, target.maximum_scalar_registers()),
        RegisterClass::Vector => (0, target.maximum_vector_registers()),
        RegisterClass::Predicate => {
            let start = target.predicate_register_base() as u32;
            (start, start.saturating_add(target.maximum_predicate_registers()))
        },
    }
}

fn physical_range_valid<T: Target>(
    target: &T,
    register_class: RegisterClass,
    register: u8,
    width: u8,
) -> (r: bool)
    ensures
        r == spec_physical_range_valid(target, register_class, register as int, width as int),
{
    let (start, end) = register_bounds(target, register_class);
    let end = if end < 256 {
        end
    } else {
        256
    };
    width > 0 && register as u32 >= start && register as u32 + width as u32 <= end
}

pub open spec fn spec_overlaps(first_start: int, first_size: int, second_start: int, second_size: int) -> bool {
    first_start < second_start + second_size && second_start < first_start + first_size
}

fn overlaps(first_start: u32, first_size: u8, second_start: u32, second_size: u8) -> (r: bool)
    requires
        first_start <= 256,
        second_start <= 256,
    ensures
        r == spec_overlaps(first_start as int, first_size as int, second_start as int, second_size as int),
{
    first_start < second_start + second_size as u32 && second_start < first_start + first_size as u32
}

// ---------------------------------------------------------------------------
// Reads, writes and well-formedness
// ---------------------------------------------------------------------------
/// Number of consecutive registers an operand of `instruction` reads.
pub open spec fn spec_operand_width(instruction: Instruction, operand: Operand) -> u8 {
    match instruction {
        Instruction::LoadGlobal { address, .. } => if address == operand {
            2
        } else {
            1
        },
        Instruction::StoreGlobal { address, source, register_count, .. } => {
            let address_width: u8 = if address == operand {
                2
            } else {
                1
            };
            let source_width: u8 = if source == operand {
                register_count
            } else {
                1
            };
            if address_width > source_width {
                address_width
            } else {
                source_width
            }
        },
        _ => 1,
    }
}

fn operand_width(instruction: &Instruction, operand: Operand) -> (r: u8)
    ensures
        r == spec_operand_width(*instruction, operand),
{
    match *instruction {
        Instruction::LoadGlobal { address, .. } => if address == operand {
            2
        } else {
            1
        },
        Instruction::StoreGlobal { address, source, register_count, .. } => {
            let address_width: u8 = if address == operand {
                2
            } else {
                1
            };
            let source_width: u8 = if source == operand {
                register_count
            } else {
                1
            };
            if address_width > source_width {
                address_width
            } else {
                source_width
            }
        },
        _ => 1,
    }
}

pub open spec fn is_input(description: ValueDescription) -> bool {
    description.purpose is Parameter || description.purpose is InterpolationCoordinates
}

pub open spec fn uses_at(function: MachineFunction, k: int) -> Seq<Operand> {
    instruction_uses(function.instructions@[k])
}

pub open spec fn definitions_at(function: MachineFunction, k: int) -> Seq<(ValueId, u8)> {
    instruction_definitions(function.instructions@[k])
}

pub open spec fn valid_value(function: MachineFunction, value: ValueId) -> bool {
    value.0 < function.values@.len()
}

pub open spec fn description_of(function: MachineFunction, value: ValueId) -> ValueDescription {
    function.values@[value.0 as int]
}

/// Element `element` of `value` is defined by an instruction before `k`.
pub open spec fn defined_before(function: MachineFunction, value: ValueId, element: int, k: int) -> bool {
    exists|k2: int, d: int|
        0 <= k2 < k && 0 <= d < definitions_at(function, k2).len() && #[trigger] definitions_at(
            function,
            k2,
        )[d] == (value, element as u8) && 0 <= element < 256
}

pub open spec fn value_description_ok<T: Target>(target: &T, description: ValueDescription) -> bool {
    &&& description.register_count > 0
    &&& match description.fixed_register {
        Some(register) => spec_physical_range_valid(
            target,
            description.register_class,
            register as int,
            description.register_count as int,
        ),
        None => !is_input(description),
    }
}

/// A register read of instruction `k` is in range and reads defined data.
pub open spec fn read_ok<T: Target>(
    function: MachineFunction,
    target: &T,
    k: int,
    operand: Operand,
) -> bool {
    let width = spec_operand_width(function.instructions@[k], operand) as int;
    match operand {
        Operand::Value { value, element } => {
            &&& valid_value(function, value)
            &&& element < description_of(function, value).register_count
            &&& width > 0
            &&& element + width <= description_of(function, value).register_count
            &&& (is_input(description_of(function, value)) || forall|c: int|
                element <= c < element + width ==> defined_before(function, value, c, k))
        },
        Operand::Physical { register_class, register } => spec_physical_range_valid(
            target,
            register_class,
            register as int,
            width,
        ),
        Operand::Immediate(_) => true,
    }
}

pub open spec fn tied_ok(instruction: Instruction) -> bool {
    match instruction {
        Instruction::Interpolate { second_step, destination, previous_value, .. } => if second_step {
            previous_value == Some(Operand::Value { value: destination, element: 0 })
        } else {
            previous_value is None
        },
        _ => true,
    }
}

pub open spec fn is_predicate_value(function: MachineFunction, value: ValueId) -> bool {
    valid_value(function, value) && description_of(function, value).register_class
        == RegisterClass::Predicate
}

pub open spec fn predicates_ok(function: MachineFunction, instruction: Instruction) -> bool {
    match instruction {
        Instruction::FloatCompare { destination, .. } => is_predicate_value(function, destination),
        Instruction::DivideScale { predicate: Some(p), .. } => is_predicate_value(function, p),
        Instruction::AddressLow { carry: Some(p), .. } => is_predicate_value(function, p),
        Instruction::AddressHigh { carry: Operand::Value { value, .. }, .. } => is_predicate_value(
            function,
            value,
        ),
        Instruction::DivideFusedMultiplyAdd { predicate: Operand::Value { value, .. }, .. } =>
            is_predicate_value(function, value),
        _ => true,
    }
}

pub open spec fn definition_ok(function: MachineFunction, definition: (ValueId, u8)) -> bool {
    valid_value(function, definition.0) && definition.1 < description_of(
        function,
        definition.0,
    ).register_count
}

pub open spec fn instruction_ok<T: Target>(function: MachineFunction, target: &T, k: int) -> bool {
    &&& forall|u: int|
        0 <= u < uses_at(function, k).len() ==> read_ok(
            function,
            target,
            k,
            #[trigger] uses_at(function, k)[u],
        )
    &&& tied_ok(function.instructions@[k])
    &&& predicates_ok(function, function.instructions@[k])
    &&& forall|d: int|
        0 <= d < definitions_at(function, k).len() ==> definition_ok(
            function,
            #[trigger] definitions_at(function, k)[d],
        )
}

/// The function's values and instructions are well formed for `target`:
/// every value is non-empty and in range, inputs are fixed, every read is in
/// range and of defined data, tied and predicate operands are consistent.
pub open spec fn well_formed<T: Target>(function: MachineFunction, target: &T) -> bool {
    &&& forall|v: int|
        0 <= v < function.values@.len() ==> value_description_ok(
            target,
            #[trigger] function.values@[v],
        )
    &&& forall|k: int| 0 <= k < function.instructions@.len() ==> instruction_ok(function, target, k)
}

// ---------------------------------------------------------------------------
// Liveness
// ---------------------------------------------------------------------------
/// Instruction `k` reads some element of `value`.
pub open spec fn reads_value(function: MachineFunction, value: ValueId, k: int) -> bool {
    exists|u: int|
        0 <= u < uses_at(function, k).len() && (#[trigger] uses_at(function, k)[u]) is Value
            && uses_at(function, k)[u]->value == value
}

/// Instruction `k` defines some element of `value`.
pub open spec fn writes_value(function: MachineFunction, value: ValueId, k: int) -> bool {
    exists|d: int|
        0 <= d < definitions_at(function, k).len() && (#[trigger] definitions_at(function, k)[d]).0
            == value
}

/// `value` is accessed at program point `point` by an instruction before
/// `k`. Inputs are live from entry (point 0) once they are read.
pub open spec fn occurs_before(function: MachineFunction, value: ValueId, point: int, k: int) -> bool {
    ||| exists|k2: int|
        0 <= k2 < k && #[trigger] reads_value(function, value, k2) && (point == 2 * k2 || (point
            == 0 && is_input(description_of(function, value))))
    ||| exists|k2: int| 0 <= k2 < k && #[trigger] writes_value(function, value, k2) && point == 2 * k2 + 1
}

pub open spec fn occurs(function: MachineFunction, value: ValueId, point: int) -> bool {
    occurs_before(function, value, point, function.instructions@.len() as int)
}

pub open spec fn branch_label(instruction: Instruction) -> Option<u32> {
    match instruction {
        Instruction::Branch { label } => Some(label),
        Instruction::BranchIfPredicate { label, .. } => Some(label),
        Instruction::BranchIfNoActiveLanes { label } => Some(label),
        _ => None,
    }
}

/// Instruction `k` branches backwards: its label is defined at or before `k`.
pub open spec fn backward_branch(function: MachineFunction, k: int) -> bool {
    0 <= k < function.instructions@.len() && branch_label(function.instructions@[k]) is Some
        && exists|t: int|
        0 <= t <= k && #[trigger] function.instructions@[t] == Instruction::Label {
            id: branch_label(function.instructions@[k])->0,
        }
}

/// The lifetimes of `function`'s values: each spans every access of its
/// value, starts at the earliest access, and ends at the last access or at a
/// backward branch that keeps the value live around a loop.
pub open spec fn lifetimes_describe(function: MachineFunction, lifetimes: Seq<Option<Lifetime>>) -> bool {
    &&& lifetimes.len() == function.values@.len()
    &&& forall|v: int|
        0 <= v < lifetimes.len() ==> match #[trigger] lifetimes[v] {
            None => forall|k: int|
                #![trigger reads_value(function, ValueId(v as u32), k)]
                #![trigger writes_value(function, ValueId(v as u32), k)]
                0 <= k < function.instructions@.len() ==> !reads_value(function, ValueId(v as u32), k)
                    && !writes_value(function, ValueId(v as u32), k),
            Some(lifetime) => {
                &&& occurs(function, ValueId(v as u32), lifetime.start as int)
                &&& (occurs(function, ValueId(v as u32), lifetime.end as int) || exists|k: int|
                    lifetime.end == 2 * k && backward_branch(function, k))
                &&& forall|p: int|
                    #[trigger] occurs(function, ValueId(v as u32), p) ==> lifetime.start <= p
                        <= lifetime.end
            },
        }
}

/// `record` describes the physical operand `u` read by instruction `k`.
#[verifier::opaque]
pub open spec fn records_read(function: MachineFunction, record: PhysicalUse, k: int, u: int) -> bool {
    &&& 0 <= k < function.instructions@.len()
    &&& 0 <= u < uses_at(function, k).len()
    &&& uses_at(function, k)[u] == (Operand::Physical {
        register_class: record.register_class,
        register: record.register,
    })
    &&& record.width == spec_operand_width(function.instructions@[k], uses_at(function, k)[u])
}

pub open spec fn physical_read(function: MachineFunction, k: int, u: int) -> bool {
    0 <= k < function.instructions@.len() && 0 <= u < uses_at(function, k).len() && uses_at(
        function,
        k,
    )[u] is Physical
}

pub open spec fn record_described(function: MachineFunction, records: Seq<PhysicalUse>, p: int) -> bool {
    exists|k: int, u: int|
        #[trigger] records_read(function, records[p], k, u) && 2 * k <= records[p].point
}

pub open spec fn read_described(function: MachineFunction, records: Seq<PhysicalUse>, k: int, u: int) -> bool {
    exists|p: int|
        #[trigger] records_read(function, records[p], k, u) && 0 <= p < records.len() && 2 * k
            <= records[p].point
}

/// The raw physical register reads: one record per physical operand read,
/// at its read point or at a backward branch after it.
pub open spec fn physical_reads_describe(function: MachineFunction, records: Seq<PhysicalUse>) -> bool {
    &&& forall|p: int| 0 <= p < records.len() ==> #[trigger] record_described(function, records, p)
    &&& forall|k: int, u: int| #[trigger] physical_read(function, k, u) ==> read_described(function, records, k, u)
}

// ---------------------------------------------------------------------------
// Assignment
// ---------------------------------------------------------------------------
pub open spec fn lifetime_key(lifetimes: Seq<Option<Lifetime>>, v: int) -> int {
    match lifetimes[v] {
        Some(lifetime) => lifetime.start as int,
        None => usize::MAX as int,
    }
}

/// Unfixed values are placed in order of lifetime start, then value index.
pub open spec fn placed_before(lifetimes: Seq<Option<Lifetime>>, j: int, i: int) -> bool {
    lifetime_key(lifetimes, j) < lifetime_key(lifetimes, i) || (lifetime_key(lifetimes, j)
        == lifetime_key(lifetimes, i) && j < i)
}

/// When unfixed value `i` is placed, value `j` already holds its registers.
pub open spec fn holds_before(function: MachineFunction, lifetimes: Seq<Option<Lifetime>>, j: int, i: int) -> bool {
    function.values@[j].fixed_register is Some || placed_before(lifetimes, j, i)
}

/// Placing value `i` at `base` collides with no simultaneously live value
/// that already holds registers, and with no later raw physical read.
pub open spec fn placement_free(
    function: MachineFunction,
    lifetimes: Seq<Option<Lifetime>>,
    physical: Seq<PhysicalUse>,
    bases: Seq<u8>,
    i: int,
    base: int,
) -> bool {
    let description = function.values@[i];
    match lifetimes[i] {
        None => true,
        Some(lifetime) => {
            &&& forall|j: int|
                0 <= j < function.values@.len() && j != i && holds_before(function, lifetimes, j, i)
                    && function.values@[j].register_class == description.register_class
                    && (#[trigger] lifetimes[j]) is Some && lifetime.spec_intersects(
                    lifetimes[j]->0,
                ) ==> !spec_overlaps(
                    base,
                    description.register_count as int,
                    bases[j] as int,
                    function.values@[j].register_count as int,
                )
            &&& forall|p: int|
                0 <= p < physical.len() && (#[trigger] physical[p]).register_class
                    == description.register_class && lifetime.start <= physical[p].point
                    ==> !spec_overlaps(
                    base,
                    description.register_count as int,
                    physical[p].register as int,
                    physical[p].width as int,
                )
        },
    }
}

/// The lowest free placement for an unfixed value.
pub open spec fn lowest_free_base<T: Target>(
    function: MachineFunction,
    target: &T,
    lifetimes: Seq<Option<Lifetime>>,
    physical: Seq<PhysicalUse>,
    bases: Seq<u8>,
    i: int,
) -> bool {
    let description = function.values@[i];
    let lower = class_bounds(target, description.register_class).0;
    &&& lower <= bases[i]
    &&& bases[i] + description.register_count <= class_end(target, description.register_class)
    &&& placement_free(function, lifetimes, physical, bases, i, bases[i] as int)
    &&& forall|b: int|
        lower <= b < bases[i] ==> !placement_free(function, lifetimes, physical, bases, i, b)
}

/// Fixed values keep their ABI registers; simultaneously live fixed values of
/// one class do not overlap.
pub open spec fn fixed_placement(function: MachineFunction, lifetimes: Seq<Option<Lifetime>>, bases: Seq<u8>) -> bool {
    &&& forall|i: int|
        0 <= i < function.values@.len() && (#[trigger] function.values@[i]).fixed_register is Some
            ==> bases[i] == function.values@[i].fixed_register->0
    &&& forall|i: int, j: int|
        0 <= j < i < function.values@.len() && (#[trigger] function.values@[i]).fixed_register is Some
            && (#[trigger] function.values@[j]).fixed_register is Some
            && function.values@[i].register_class == function.values@[j].register_class
            && lifetimes[i] is Some && lifetimes[j] is Some && lifetimes[i]->0.spec_intersects(
            lifetimes[j]->0,
        ) ==> !spec_overlaps(
            bases[i] as int,
            function.values@[i].register_count as int,
            bases[j] as int,
            function.values@[j].register_count as int,
        )
}

/// `bases` is the allocation chosen for `function` under the given liveness.
pub open spec fn allocation_chosen<T: Target>(
    function: MachineFunction,
    target: &T,
    lifetimes: Seq<Option<Lifetime>>,
    physical: Seq<PhysicalUse>,
    bases: Seq<u8>,
) -> bool {
    &&& bases.len() == function.values@.len()
    &&& fixed_placement(function, lifetimes, bases)
    &&& forall|i: int|
        0 <= i < function.values@.len() && (#[trigger] function.values@[i]).fixed_register is None
            ==> lowest_free_base(function, target, lifetimes, physical, bases, i)
}

} // verus!

verus! {

// ---------------------------------------------------------------------------
// Liveness computation
// ---------------------------------------------------------------------------
/// The errors that report a malformed function, each with its witness.
pub open spec fn malformation<T: Target>(
    function: MachineFunction,
    target: &T,
    error: RegisterAllocationError,
) -> bool {
    match error {
        RegisterAllocationError::InvalidValue(value) => !valid_value(function, value),
        RegisterAllocationError::EmptyValue(value) => valid_value(function, value)
            && description_of(function, value).register_count == 0,
        RegisterAllocationError::InvalidElement { value, element } => valid_value(function, value)
            && element >= description_of(function, value).register_count,
        RegisterAllocationError::InvalidWidth { value, element, width } => valid_value(
            function,
            value,
        ) && (width == 0 || element + width > description_of(function, value).register_count)
            && exists|k: int, u: int|
            0 <= k < function.instructions@.len() && 0 <= u < uses_at(function, k).len()
                && #[trigger] uses_at(function, k)[u] == (Operand::Value { value, element })
                && width == spec_operand_width(function.instructions@[k], uses_at(function, k)[u]),
        RegisterAllocationError::ReadBeforeDefinition { value, element, instruction } => {
            &&& instruction < function.instructions@.len()
            &&& valid_value(function, value)
            &&& !is_input(description_of(function, value))
            &&& !defined_before(function, value, element as int, instruction as int)
            &&& exists|u: int|
                0 <= u < uses_at(function, instruction as int).len() && (#[trigger] uses_at(
                    function,
                    instruction as int,
                )[u]) is Value && uses_at(function, instruction as int)[u]->value == value
                    && uses_at(function, instruction as int)[u]->element <= element
                    < uses_at(function, instruction as int)[u]->element + spec_operand_width(
                    function.instructions@[instruction as int],
                    uses_at(function, instruction as int)[u],
                )
        },
        RegisterAllocationError::InvalidTiedOperand { instruction } => instruction
            < function.instructions@.len() && !tied_ok(function.instructions@[instruction as int]),
        RegisterAllocationError::InputWithoutFixedRegister(value) => valid_value(function, value)
            && is_input(description_of(function, value)) && description_of(
            function,
            value,
        ).fixed_register is None,
        RegisterAllocationError::WrongRegisterClass { value, expected } => expected
            == RegisterClass::Predicate && valid_value(function, value) && description_of(
            function,
            value,
        ).register_class != RegisterClass::Predicate,
        RegisterAllocationError::InvalidPhysicalRegister { register_class, register } => exists|
            k: int,
            u: int,
        |
            0 <= k < function.instructions@.len() && 0 <= u < uses_at(function, k).len()
                && #[trigger] uses_at(function, k)[u] == (Operand::Physical {
                register_class,
                register,
            }) && !spec_physical_range_valid(
                target,
                register_class,
                register as int,
                spec_operand_width(function.instructions@[k], uses_at(function, k)[u]) as int,
            ),
        RegisterAllocationError::InvalidRegisterRange(value) => valid_value(function, value)
            && description_of(function, value).register_count > 0 && description_of(
            function,
            value,
        ).fixed_register is Some && !spec_physical_range_valid(
            target,
            description_of(function, value).register_class,
            description_of(function, value).fixed_register->0 as int,
            description_of(function, value).register_count as int,
        ),
        _ => false,
    }
}

/// `Err` of the error, if there is one; `Ok` otherwise.
pub open spec fn error_result(error: Option<RegisterAllocationError>) -> Result<(), RegisterAllocationError> {
    match error {
        Some(e) => Err(e),
        None => Ok(()),
    }
}

/// The first element in `c..end` of `value` that no instruction before `k`
/// defines.
pub open spec fn first_undefined(function: MachineFunction, value: ValueId, c: int, end: int, k: int) -> Option<
    int,
>
    decreases end - c,
{
    if c >= end {
        None
    } else if !defined_before(function, value, c, k) {
        Some(c)
    } else {
        first_undefined(function, value, c + 1, end, k)
    }
}

/// The error a read of `width` elements of `value` from `element` on by
/// instruction `k` reports, checked in this order: an unknown value, an
/// element out of range, a width out of range, the first element read before
/// any definition (inputs are defined on entry).
pub open spec fn value_read_error(
    function: MachineFunction,
    value: ValueId,
    element: u8,
    width: u8,
    k: int,
) -> Option<RegisterAllocationError> {
    if !valid_value(function, value) {
        Some(RegisterAllocationError::InvalidValue(value))
    } else if element >= description_of(function, value).register_count {
        Some(RegisterAllocationError::InvalidElement { value, element })
    } else if width == 0 || element + width > description_of(function, value).register_count {
        Some(RegisterAllocationError::InvalidWidth { value, element, width })
    } else if is_input(description_of(function, value)) {
        None
    } else {
        match first_undefined(function, value, element as int, element + width, k) {
            Some(c) => Some(
                RegisterAllocationError::ReadBeforeDefinition {
                    value,
                    element: c as u8,
                    instruction: k as usize,
                },
            ),
            None => None,
        }
    }
}

/// The error register read `operand` of instruction `k` reports, if any.
pub open spec fn read_error<T: Target>(
    function: MachineFunction,
    target: &T,
    k: int,
    operand: Operand,
) -> Option<RegisterAllocationError> {
    let width = spec_operand_width(function.instructions@[k], operand);
    match operand {
        Operand::Value { value, element } => value_read_error(function, value, element, width, k),
        Operand::Physical { register_class, register } => if !spec_physical_range_valid(
            target,
            register_class,
            register as int,
            width as int,
        ) {
            Some(RegisterAllocationError::InvalidPhysicalRegister { register_class, register })
        } else {
            None
        },
        Operand::Immediate(_) => None,
    }
}

/// The error of the first faulty read of instruction `k` from read `u` on.
pub open spec fn reads_error<T: Target>(function: MachineFunction, target: &T, k: int, u: int) -> Option<
    RegisterAllocationError,
>
    decreases uses_at(function, k).len() - u,
{
    if u < 0 || u >= uses_at(function, k).len() {
        None
    } else {
        match read_error(function, target, k, uses_at(function, k)[u]) {
            Some(e) => Some(e),
            None => reads_error(function, target, k, u + 1),
        }
    }
}

/// The error of a mistied interpolation operand of instruction `k`.
pub open spec fn tied_error(instruction: Instruction, k: int) -> Option<RegisterAllocationError> {
    if tied_ok(instruction) {
        None
    } else {
        Some(RegisterAllocationError::InvalidTiedOperand { instruction: k as usize })
    }
}

/// The value an instruction requires to be a predicate, if any.
pub open spec fn predicate_operand(instruction: Instruction) -> Option<ValueId> {
    match instruction {
        Instruction::FloatCompare { destination, .. } => Some(destination),
        Instruction::DivideScale { predicate: Some(p), .. } => Some(p),
        Instruction::AddressLow { carry: Some(p), .. } => Some(p),
        Instruction::AddressHigh { carry: Operand::Value { value, .. }, .. } => Some(value),
        Instruction::DivideFusedMultiplyAdd { predicate: Operand::Value { value, .. }, .. } => Some(
            value,
        ),
        _ => None,
    }
}

/// The error of a predicate operand that is unknown or of another class.
pub open spec fn predicate_error(function: MachineFunction, instruction: Instruction) -> Option<
    RegisterAllocationError,
> {
    match predicate_operand(instruction) {
        Some(value) => if !valid_value(function, value) {
            Some(RegisterAllocationError::InvalidValue(value))
        } else if description_of(function, value).register_class != RegisterClass::Predicate {
            Some(
                RegisterAllocationError::WrongRegisterClass {
                    value,
                    expected: RegisterClass::Predicate,
                },
            )
        } else {
            None
        },
        None => None,
    }
}

/// The error of the first faulty definition of instruction `k` from
/// definition `d` on: an unknown value, else an element out of range.
pub open spec fn writes_error(function: MachineFunction, k: int, d: int) -> Option<RegisterAllocationError>
    decreases definitions_at(function, k).len() - d,
{
    if d < 0 || d >= definitions_at(function, k).len() {
        None
    } else {
        let (value, element) = definitions_at(function, k)[d];
        if !valid_value(function, value) {
            Some(RegisterAllocationError::InvalidValue(value))
        } else if element >= description_of(function, value).register_count {
            Some(RegisterAllocationError::InvalidElement { value, element })
        } else {
            writes_error(function, k, d + 1)
        }
    }
}

/// The error instruction `k` reports: its reads in order, then its tied
/// operand, then its predicate operand, then its definitions in order.
pub open spec fn instruction_error<T: Target>(function: MachineFunction, target: &T, k: int) -> Option<
    RegisterAllocationError,
> {
    match reads_error(function, target, k, 0) {
        Some(e) => Some(e),
        None => match tied_error(function.instructions@[k], k) {
            Some(e) => Some(e),
            None => match predicate_error(function, function.instructions@[k]) {
                Some(e) => Some(e),
                None => writes_error(function, k, 0),
            },
        },
    }
}

/// The error of the first faulty instruction from `k` on.
pub open spec fn instructions_error<T: Target>(function: MachineFunction, target: &T, k: int) -> Option<
    RegisterAllocationError,
>
    decreases function.instructions@.len() - k,
{
    if k < 0 || k >= function.instructions@.len() {
        None
    } else {
        match instruction_error(function, target, k) {
            Some(e) => Some(e),
            None => instructions_error(function, target, k + 1),
        }
    }
}

/// The error a malformed function reports: that of its first malformed
/// value, else that of its first malformed instruction; none for a
/// well-formed function.
pub open spec fn first_malformation<T: Target>(function: MachineFunction, target: &T) -> Option<
    RegisterAllocationError,
> {
    if exists|i: int| #[trigger] first_bad_value(function, target, i) {
        let i = choose|i: int| #[trigger] first_bad_value(function, target, i);
        Some(value_error(function.values@[i], ValueId(i as u32)))
    } else {
        instructions_error(function, target, 0)
    }
}

/// The error a malformed value description reports: an empty value, else
/// a fixed register range out of bounds, else an input without a fixed
/// register.
pub open spec fn value_error(description: ValueDescription, value: ValueId) -> RegisterAllocationError {
    if description.register_count == 0 {
        RegisterAllocationError::EmptyValue(value)
    } else if description.fixed_register is Some {
        RegisterAllocationError::InvalidRegisterRange(value)
    } else {
        RegisterAllocationError::InputWithoutFixedRegister(value)
    }
}

/// Value `i` is the first malformed value of `function`.
pub open spec fn first_bad_value<T: Target>(function: MachineFunction, target: &T, i: int) -> bool {
    &&& 0 <= i < function.values@.len()
    &&& !value_description_ok(target, function.values@[i])
    &&& forall|j: int| 0 <= j < i ==> value_description_ok(target, #[trigger] function.values@[j])
}

/// A malformed value after only well-formed ones is the first malformed
/// value, and no other is.
proof fn lemma_first_bad_at<T: Target>(function: MachineFunction, target: &T, index: int)
    requires
        0 <= index < function.values@.len(),
        !value_description_ok(target, function.values@[index]),
        forall|j: int| 0 <= j < index ==> value_description_ok(target, #[trigger] function.values@[j]),
    ensures
        first_bad_value(function, target, index),
        forall|i: int| #[trigger] first_bad_value(function, target, i) ==> i == index,
{
    assert forall|i: int| #[trigger] first_bad_value(function, target, i) implies i == index by {
        if i < index {
            assert(value_description_ok(target, function.values@[i]));
        } else if i > index {
            assert(value_description_ok(target, function.values@[index]));
        }
    }
}

fn check_values<T: Target>(function: &MachineFunction, target: &T) -> (r: Result<(), RegisterAllocationError>)
    requires
        function.values@.len() <= u32::MAX,
    ensures
        r is Ok <==> forall|v: int|
            0 <= v < function.values@.len() ==> value_description_ok(
                target,
                #[trigger] function.values@[v],
            ),
        r matches Err(e) ==> malformation(*function, target, e),
        forall|i: int|
            #[trigger] first_bad_value(*function, target, i) ==> r == Err::<(), RegisterAllocationError>(
                value_error(function.values@[i], ValueId(i as u32)),
            ),
        r is Err ==> exists|i: int| #[trigger] first_bad_value(*function, target, i),
{
    let mut index: usize = 0;
    while index < function.values.len()
        invariant
            index <= function.values@.len(),
            function.values@.len() <= u32::MAX,
            forall|v: int|
                0 <= v < index ==> value_description_ok(target, #[trigger] function.values@[v]),
        decreases function.values@.len() - index,
    {
        let description = function.values[index];
        let value = ValueId(index as u32);
        if description.register_count == 0 {
            proof {
                lemma_first_bad_at(*function, target, index as int);
            }
            return Err(RegisterAllocationError::EmptyValue(value));
        }
        match description.fixed_register {
            Some(register) => {
                if !physical_range_valid(
                    target,
                    description.register_class,
                    register,
                    description.register_count,
                ) {
                    proof {
                        lemma_first_bad_at(*function, target, index as int);
                    }
                    return Err(RegisterAllocationError::InvalidRegisterRange(value));
                }
            },
            None => {
                match description.purpose {
                    ValuePurpose::Parameter(_) | ValuePurpose::InterpolationCoordinates => {
                        proof {
                            lemma_first_bad_at(*function, target, index as int);
                        }
                        return Err(RegisterAllocationError::InputWithoutFixedRegister(value));
                    },
                    _ => {},
                }
            },
        }
        index = index + 1;
    }
    Ok(())
}

fn require_predicate(function: &MachineFunction, value: ValueId) -> (r: Result<(), RegisterAllocationError>)
    ensures
        r is Ok <==> is_predicate_value(*function, value),
        r matches Err(e) ==> e == RegisterAllocationError::InvalidValue(value) && !valid_value(
            *function,
            value,
        ) || e == (RegisterAllocationError::WrongRegisterClass {
            value,
            expected: RegisterClass::Predicate,
        }) && valid_value(*function, value) && description_of(*function, value).register_class
            != RegisterClass::Predicate,
        r == error_result(
            if !valid_value(*function, value) {
                Some(RegisterAllocationError::InvalidValue(value))
            } else if description_of(*function, value).register_class != RegisterClass::Predicate {
                Some(
                    RegisterAllocationError::WrongRegisterClass {
                        value,
                        expected: RegisterClass::Predicate,
                    },
                )
            } else {
                None
            },
        ),
{
    if value.index() >= function.values.len() {
        return Err(RegisterAllocationError::InvalidValue(value));
    }
    if function.values[value.index()].register_class != RegisterClass::Predicate {
        return Err(
            RegisterAllocationError::WrongRegisterClass { value, expected: RegisterClass::Predicate },
        );
    }
    Ok(())
}

} // verus!

verus! {

// ---------------------------------------------------------------------------
// Liveness bookkeeping while scanning an instruction
// ---------------------------------------------------------------------------
pub open spec fn read_occurrence(function: MachineFunction, value: ValueId, k: int, u: int, point: int) -> bool {
    uses_at(function, k)[u] is Value && uses_at(function, k)[u]->value == value && (point == 2 * k
        || (point == 0 && is_input(description_of(function, value))))
}

pub open spec fn write_occurrence(function: MachineFunction, value: ValueId, k: int, d: int, point: int) -> bool {
    definitions_at(function, k)[d].0 == value && point == 2 * k + 1
}

/// Accesses before instruction `k`, plus the first `u` reads and `d` writes
/// of instruction `k`.
pub open spec fn occurs_through(
    function: MachineFunction,
    value: ValueId,
    point: int,
    k: int,
    u: int,
    d: int,
) -> bool {
    ||| occurs_before(function, value, point, k)
    ||| exists|u2: int| 0 <= u2 < u && #[trigger] read_occurrence(function, value, k, u2, point)
    ||| exists|d2: int| 0 <= d2 < d && #[trigger] write_occurrence(function, value, k, d2, point)
}

pub open spec fn accessed_through(function: MachineFunction, value: ValueId, k: int, u: int, d: int) -> bool {
    ||| exists|k2: int|
        #![trigger reads_value(function, value, k2)]
        #![trigger writes_value(function, value, k2)]
        0 <= k2 < k && (reads_value(function, value, k2) || writes_value(function, value, k2))
    ||| exists|u2: int|
        0 <= u2 < u && (#[trigger] uses_at(function, k)[u2]) is Value && uses_at(function, k)[u2]->value
            == value
    ||| exists|d2: int| 0 <= d2 < d && (#[trigger] definitions_at(function, k)[d2]).0 == value
}

pub open spec fn lifetime_through(
    function: MachineFunction,
    value: ValueId,
    lifetime: Option<Lifetime>,
    k: int,
    u: int,
    d: int,
) -> bool {
    match lifetime {
        None => !accessed_through(function, value, k, u, d),
        Some(l) => {
            &&& occurs_through(function, value, l.start as int, k, u, d)
            &&& occurs_through(function, value, l.end as int, k, u, d)
            &&& forall|p: int|
                #[trigger] occurs_through(function, value, p, k, u, d) ==> l.start <= p <= l.end
        },
    }
}

#[verifier::opaque]
pub open spec fn lifetimes_through(
    function: MachineFunction,
    lifetimes: Seq<Option<Lifetime>>,
    k: int,
    u: int,
    d: int,
) -> bool {
    &&& lifetimes.len() == function.values@.len()
    &&& forall|v: int|
        0 <= v < lifetimes.len() ==> lifetime_through(
            function,
            ValueId(v as u32),
            #[trigger] lifetimes[v],
            k,
            u,
            d,
        )
}

/// Record `p` comes from a physical read before read `u` of instruction `k`.
pub open spec fn record_origin(function: MachineFunction, records: Seq<PhysicalUse>, p: int, k: int, u: int) -> bool {
    exists|k2: int, u2: int|
        #[trigger] records_read(function, records[p], k2, u2) && (k2 < k || (k2 == k && u2 < u))
            && records[p].point == 2 * k2
}

/// Physical read `u2` of instruction `k2` has a record at its read point.
pub open spec fn read_recorded(function: MachineFunction, records: Seq<PhysicalUse>, k2: int, u2: int) -> bool {
    exists|p: int|
        #[trigger] records_read(function, records[p], k2, u2) && 0 <= p < records.len()
            && records[p].point == 2 * k2
}

#[verifier::opaque]
pub open spec fn physical_through(
    function: MachineFunction,
    records: Seq<PhysicalUse>,
    k: int,
    u: int,
) -> bool {
    &&& forall|p: int| 0 <= p < records.len() ==> #[trigger] record_origin(function, records, p, k, u)
    &&& forall|k2: int, u2: int|
        #[trigger] physical_read(function, k2, u2) && (k2 < k || (k2 == k && u2 < u))
            ==> read_recorded(function, records, k2, u2)
}

pub open spec fn element_defined(words: [u64; 4], element: int) -> bool {
    words[element / 64] & (1u64 << ((element % 64) as u64)) != 0
}

pub open spec fn defined_through(function: MachineFunction, defined: Seq<[u64; 4]>, k: int) -> bool {
    &&& defined.len() == function.values@.len()
    &&& forall|v: int, c: int|
        0 <= v < defined.len() && 0 <= c < 256 ==> (element_defined(#[trigger] defined[v], c)
            <==> #[trigger] defined_before(function, ValueId(v as u32), c, k))
}

proof fn lemma_bit(x: u64, s: u64, t: u64)
    requires
        s < 64,
        t < 64,
    ensures
        ((x | (1u64 << s)) & (1u64 << t) != 0) <==> (x & (1u64 << t) != 0 || s == t),
        (0u64 & (1u64 << t)) == 0,
{
    assert(((x | (1u64 << s)) & (1u64 << t) != 0) <==> (x & (1u64 << t) != 0 || s == t))
        by (bit_vector)
        requires
            s < 64,
            t < 64,
    ;
    assert((0u64 & (1u64 << t)) == 0) by (bit_vector);
}

fn mark_defined(words: [u64; 4], element: u8) -> (r: [u64; 4])
    ensures
        forall|c: int|
            0 <= c < 256 ==> (element_defined(r, c) <==> (element_defined(words, c) || c
                == element)),
{
    let word = (element / 64) as usize;
    let mask = 1u64 << (element % 64) as u64;
    let r = if word == 0 {
        [words[0] | mask, words[1], words[2], words[3]]
    } else if word == 1 {
        [words[0], words[1] | mask, words[2], words[3]]
    } else if word == 2 {
        [words[0], words[1], words[2] | mask, words[3]]
    } else {
        [words[0], words[1], words[2], words[3] | mask]
    };
    assert forall|c: int| 0 <= c < 256 implies (element_defined(r, c) <==> (element_defined(
        words,
        c,
    ) || c == element)) by {
        lemma_bit(words[c / 64], (element % 64) as u64, (c % 64) as u64);
    }
    r
}

fn is_defined(words: [u64; 4], element: u8) -> (r: bool)
    ensures
        r == element_defined(words, element as int),
{
    words[(element / 64) as usize] & (1u64 << (element % 64) as u64) != 0
}

} // verus!

verus! {

pub open spec fn defined_partial(function: MachineFunction, value: ValueId, c: int, k: int, d: int) -> bool {
    defined_before(function, value, c, k) || (exists|d2: int|
        0 <= d2 < d && #[trigger] definitions_at(function, k)[d2] == (value, c as u8) && 0 <= c
            < 256)
}

proof fn lemma_read_step(function: MachineFunction, value: ValueId, point: int, k: int, u: int)
    requires
        0 <= u,
    ensures
        occurs_through(function, value, point, k, u + 1, 0) == (occurs_through(
            function,
            value,
            point,
            k,
            u,
            0,
        ) || read_occurrence(function, value, k, u, point)),
        accessed_through(function, value, k, u + 1, 0) == (accessed_through(function, value, k, u, 0)
            || (uses_at(function, k)[u] is Value && uses_at(function, k)[u]->value == value)),
{
    if occurs_through(function, value, point, k, u + 1, 0) && !occurs_before(function, value, point, k) {
        let u2 = choose|u2: int| 0 <= u2 < u + 1 && #[trigger] read_occurrence(function, value, k, u2, point);
        if u2 < u {
            assert(occurs_through(function, value, point, k, u, 0));
        }
    }
    if read_occurrence(function, value, k, u, point) {
        assert(occurs_through(function, value, point, k, u + 1, 0));
    }
    if occurs_through(function, value, point, k, u, 0) && !occurs_before(function, value, point, k) {
        let u2 = choose|u2: int| 0 <= u2 < u && #[trigger] read_occurrence(function, value, k, u2, point);
        assert(occurs_through(function, value, point, k, u + 1, 0));
    }
    if accessed_through(function, value, k, u + 1, 0) {
        if exists|u2: int|
            0 <= u2 < u + 1 && (#[trigger] uses_at(function, k)[u2]) is Value && uses_at(
                function,
                k,
            )[u2]->value == value {
            let u2 = choose|u2: int|
                0 <= u2 < u + 1 && (#[trigger] uses_at(function, k)[u2]) is Value && uses_at(
                    function,
                    k,
                )[u2]->value == value;
            if u2 < u {
                assert(accessed_through(function, value, k, u, 0));
            }
        }
    }
    if accessed_through(function, value, k, u, 0) {
        if exists|u2: int|
            0 <= u2 < u && (#[trigger] uses_at(function, k)[u2]) is Value && uses_at(
                function,
                k,
            )[u2]->value == value {
            let u2 = choose|u2: int|
                0 <= u2 < u && (#[trigger] uses_at(function, k)[u2]) is Value && uses_at(
                    function,
                    k,
                )[u2]->value == value;
            assert(accessed_through(function, value, k, u + 1, 0));
        }
    }
    if uses_at(function, k)[u] is Value && uses_at(function, k)[u]->value == value {
        assert(accessed_through(function, value, k, u + 1, 0));
    }
}

proof fn lemma_write_step(function: MachineFunction, value: ValueId, point: int, k: int, u: int, d: int)
    requires
        0 <= d,
    ensures
        occurs_through(function, value, point, k, u, d + 1) == (occurs_through(
            function,
            value,
            point,
            k,
            u,
            d,
        ) || write_occurrence(function, value, k, d, point)),
        accessed_through(function, value, k, u, d + 1) == (accessed_through(function, value, k, u, d)
            || definitions_at(function, k)[d].0 == value),
{
    if occurs_through(function, value, point, k, u, d + 1) && !occurs_through(
        function,
        value,
        point,
        k,
        u,
        d,
    ) {
        let d2 = choose|d2: int| 0 <= d2 < d + 1 && #[trigger] write_occurrence(function, value, k, d2, point);
        if d2 < d {
            assert(occurs_through(function, value, point, k, u, d));
        }
    }
    if write_occurrence(function, value, k, d, point) {
        assert(occurs_through(function, value, point, k, u, d + 1));
    }
    if accessed_through(function, value, k, u, d + 1) && !accessed_through(function, value, k, u, d) {
        let d2 = choose|d2: int| 0 <= d2 < d + 1 && (#[trigger] definitions_at(function, k)[d2]).0 == value;
        if d2 < d {
            assert(accessed_through(function, value, k, u, d));
        }
    }
    if definitions_at(function, k)[d].0 == value {
        assert(accessed_through(function, value, k, u, d + 1));
    }
}

proof fn lemma_occurs_accessed(function: MachineFunction, value: ValueId, point: int, k: int, u: int, d: int)
    requires
        occurs_through(function, value, point, k, u, d),
    ensures
        accessed_through(function, value, k, u, d),
{
    if occurs_before(function, value, point, k) {
        if exists|k2: int|
            0 <= k2 < k && #[trigger] reads_value(function, value, k2) && (point == 2 * k2 || (point
                == 0 && is_input(description_of(function, value)))) {
            let k2 = choose|k2: int|
                0 <= k2 < k && #[trigger] reads_value(function, value, k2) && (point == 2 * k2 || (
                point == 0 && is_input(description_of(function, value))));
            assert(accessed_through(function, value, k, u, d));
        } else {
            let k2 = choose|k2: int|
                0 <= k2 < k && #[trigger] writes_value(function, value, k2) && point == 2 * k2 + 1;
            assert(accessed_through(function, value, k, u, d));
        }
    } else if exists|u2: int| 0 <= u2 < u && #[trigger] read_occurrence(function, value, k, u2, point) {
        let u2 = choose|u2: int| 0 <= u2 < u && #[trigger] read_occurrence(function, value, k, u2, point);
        assert(accessed_through(function, value, k, u, d));
    } else {
        let d2 = choose|d2: int| 0 <= d2 < d && #[trigger] write_occurrence(function, value, k, d2, point);
        assert(accessed_through(function, value, k, u, d));
    }
}

/// The scan state after all reads and writes of instruction `k` is the
/// state before instruction `k + 1`.
proof fn lemma_instruction_boundary(function: MachineFunction, value: ValueId, point: int, k: int)
    requires
        0 <= k,
    ensures
        occurs_through(
            function,
            value,
            point,
            k,
            uses_at(function, k).len() as int,
            definitions_at(function, k).len() as int,
        ) == occurs_through(function, value, point, k + 1, 0, 0),
        accessed_through(
            function,
            value,
            k,
            uses_at(function, k).len() as int,
            definitions_at(function, k).len() as int,
        ) == accessed_through(function, value, k + 1, 0, 0),
{
    let nu = uses_at(function, k).len() as int;
    let nd = definitions_at(function, k).len() as int;
    if occurs_through(function, value, point, k, nu, nd) {
        if occurs_before(function, value, point, k) {
            if exists|k2: int|
                0 <= k2 < k && #[trigger] reads_value(function, value, k2) && (point == 2 * k2 || (
                point == 0 && is_input(description_of(function, value)))) {
                let k2 = choose|k2: int|
                    0 <= k2 < k && #[trigger] reads_value(function, value, k2) && (point == 2 * k2
                        || (point == 0 && is_input(description_of(function, value))));
                assert(occurs_before(function, value, point, k + 1));
            } else {
                let k2 = choose|k2: int|
                    0 <= k2 < k && #[trigger] writes_value(function, value, k2) && point == 2 * k2
                        + 1;
                assert(occurs_before(function, value, point, k + 1));
            }
        } else if exists|u2: int| 0 <= u2 < nu && #[trigger] read_occurrence(function, value, k, u2, point) {
            let u2 = choose|u2: int| 0 <= u2 < nu && #[trigger] read_occurrence(function, value, k, u2, point);
            assert(reads_value(function, value, k));
            assert(occurs_before(function, value, point, k + 1));
        } else {
            let d2 = choose|d2: int| 0 <= d2 < nd && #[trigger] write_occurrence(function, value, k, d2, point);
            assert(writes_value(function, value, k));
            assert(occurs_before(function, value, point, k + 1));
        }
    }
    if occurs_through(function, value, point, k + 1, 0, 0) {
        if exists|k2: int|
            0 <= k2 < k + 1 && #[trigger] reads_value(function, value, k2) && (point == 2 * k2 || (
            point == 0 && is_input(description_of(function, value)))) {
            let k2 = choose|k2: int|
                0 <= k2 < k + 1 && #[trigger] reads_value(function, value, k2) && (point == 2 * k2
                    || (point == 0 && is_input(description_of(function, value))));
            if k2 < k {
                assert(occurs_before(function, value, point, k));
            } else {
                let u2 = choose|u2: int|
                    0 <= u2 < uses_at(function, k).len() && (#[trigger] uses_at(function, k)[u2]) is Value
                        && uses_at(function, k)[u2]->value == value;
                assert(read_occurrence(function, value, k, u2, point));
            }
        } else {
            let k2 = choose|k2: int|
                0 <= k2 < k + 1 && #[trigger] writes_value(function, value, k2) && point == 2 * k2 + 1;
            if k2 < k {
                assert(occurs_before(function, value, point, k));
            } else {
                let d2 = choose|d2: int|
                    0 <= d2 < definitions_at(function, k).len() && (#[trigger] definitions_at(
                        function,
                        k,
                    )[d2]).0 == value;
                assert(write_occurrence(function, value, k, d2, point));
            }
        }
    }
    if accessed_through(function, value, k, nu, nd) {
        if exists|k2: int|
            #![trigger reads_value(function, value, k2)]
            #![trigger writes_value(function, value, k2)]
            0 <= k2 < k && (reads_value(function, value, k2) || writes_value(function, value, k2)) {
            let k2 = choose|k2: int|
                #![trigger reads_value(function, value, k2)]
                #![trigger writes_value(function, value, k2)]
                0 <= k2 < k && (reads_value(function, value, k2) || writes_value(function, value, k2));
            assert(accessed_through(function, value, k + 1, 0, 0));
        } else if exists|u2: int|
            0 <= u2 < nu && (#[trigger] uses_at(function, k)[u2]) is Value && uses_at(function, k)[u2]->value
                == value {
            assert(reads_value(function, value, k));
            assert(accessed_through(function, value, k + 1, 0, 0));
        } else {
            assert(writes_value(function, value, k));
            assert(accessed_through(function, value, k + 1, 0, 0));
        }
    }
    if accessed_through(function, value, k + 1, 0, 0) {
        let k2 = choose|k2: int|
            #![trigger reads_value(function, value, k2)]
            #![trigger writes_value(function, value, k2)]
            0 <= k2 < k + 1 && (reads_value(function, value, k2) || writes_value(function, value, k2));
        if k2 < k {
            assert(accessed_through(function, value, k, nu, nd));
        } else if reads_value(function, value, k) {
            let u2 = choose|u2: int|
                0 <= u2 < uses_at(function, k).len() && (#[trigger] uses_at(function, k)[u2]) is Value
                    && uses_at(function, k)[u2]->value == value;
            assert(accessed_through(function, value, k, nu, nd));
        } else {
            let d2 = choose|d2: int|
                0 <= d2 < definitions_at(function, k).len() && (#[trigger] definitions_at(function, k)[d2]).0
                    == value;
            assert(accessed_through(function, value, k, nu, nd));
        }
    }
}

proof fn lemma_defined_boundary(function: MachineFunction, value: ValueId, c: int, k: int)
    requires
        0 <= k,
    ensures
        defined_partial(function, value, c, k, definitions_at(function, k).len() as int)
            == defined_before(function, value, c, k + 1),
        defined_partial(function, value, c, k, 0) == defined_before(function, value, c, k),
{
    let nd = definitions_at(function, k).len() as int;
    if defined_partial(function, value, c, k, nd) {
        if defined_before(function, value, c, k) {
            let (k2, d) = choose|k2: int, d: int|
                0 <= k2 < k && 0 <= d < definitions_at(function, k2).len() && #[trigger] definitions_at(
                    function,
                    k2,
                )[d] == (value, c as u8) && 0 <= c < 256;
            assert(defined_before(function, value, c, k + 1));
        } else {
            let d2 = choose|d2: int|
                0 <= d2 < nd && #[trigger] definitions_at(function, k)[d2] == (value, c as u8) && 0
                    <= c < 256;
            assert(defined_before(function, value, c, k + 1));
        }
    }
    if defined_before(function, value, c, k + 1) {
        let (k2, d) = choose|k2: int, d: int|
            0 <= k2 < k + 1 && 0 <= d < definitions_at(function, k2).len() && #[trigger] definitions_at(
                function,
                k2,
            )[d] == (value, c as u8) && 0 <= c < 256;
        if k2 < k {
            assert(defined_before(function, value, c, k));
        } else {
            assert(definitions_at(function, k)[d] == (value, c as u8));
        }
    }
}

} // verus!

verus! {

proof fn lemma_lifetime_read_other(
    function: MachineFunction,
    value: ValueId,
    lifetime: Option<Lifetime>,
    k: int,
    u: int,
)
    requires
        0 <= u,
        !(uses_at(function, k)[u] is Value && uses_at(function, k)[u]->value == value),
        lifetime_through(function, value, lifetime, k, u, 0),
    ensures
        lifetime_through(function, value, lifetime, k, u + 1, 0),
{
    assert forall|p: int| #![trigger occurs_through(function, value, p, k, u + 1, 0)]
        true implies occurs_through(function, value, p, k, u + 1, 0) == occurs_through(
        function,
        value,
        p,
        k,
        u,
        0,
    ) by {
        lemma_read_step(function, value, p, k, u);
    }
    lemma_read_step(function, value, 0, k, u);
}

proof fn lemma_lifetime_read_self(
    function: MachineFunction,
    value: ValueId,
    before: Option<Lifetime>,
    after: Lifetime,
    k: int,
    u: int,
    start: int,
)
    requires
        0 <= u,
        0 <= k,
        uses_at(function, k)[u] is Value && uses_at(function, k)[u]->value == value,
        start == (if is_input(description_of(function, value)) {
            0
        } else {
            2 * k
        }),
        lifetime_through(function, value, before, k, u, 0),
        match before {
            None => after.start == start && after.end == 2 * k,
            Some(l) => after.start == (if start < l.start {
                start
            } else {
                l.start as int
            }) && after.end == (if 2 * k > l.end {
                2 * k
            } else {
                l.end as int
            }),
        },
    ensures
        lifetime_through(function, value, Some(after), k, u + 1, 0),
{
    assert forall|p: int| #![trigger occurs_through(function, value, p, k, u + 1, 0)]
        true implies occurs_through(function, value, p, k, u + 1, 0) == (occurs_through(
        function,
        value,
        p,
        k,
        u,
        0,
    ) || read_occurrence(function, value, k, u, p)) by {
        lemma_read_step(function, value, p, k, u);
    }
    assert(read_occurrence(function, value, k, u, 2 * k));
    assert(read_occurrence(function, value, k, u, start));
    match before {
        None => {
            assert forall|p: int| #[trigger] occurs_through(function, value, p, k, u + 1, 0) implies
                after.start <= p <= after.end by {
                if occurs_through(function, value, p, k, u, 0) {
                    lemma_occurs_accessed(function, value, p, k, u, 0);
                }
            }
        },
        Some(l) => {
        },
    }
}

/// Checks a read of elements `element..element + width` of `value` by
/// instruction `k`, and extends the value's lifetime over it.
fn record_value_read<T: Target>(
    function: &MachineFunction,
    target: &T,
    k: usize,
    u: usize,
    reads: &Vec<Operand>,
    value: ValueId,
    element: u8,
    width: u8,
    lifetimes: &mut Vec<Option<Lifetime>>,
    defined: &Vec<[u64; 4]>,
) -> (r: Result<(), RegisterAllocationError>)
    requires
        k < function.instructions@.len(),
        function.instructions@.len() < usize::MAX / 4,
        reads@ == uses_at(*function, k as int),
        u < reads@.len(),
        reads@[u as int] == (Operand::Value { value, element }),
        width == spec_operand_width(function.instructions@[k as int], reads@[u as int]),
        lifetimes_through(*function, old(lifetimes)@, k as int, u as int, 0),
        old(lifetimes)@.len() == function.values@.len(),
        defined_through(*function, defined@, k as int),
        function.values@.len() <= u32::MAX,
    ensures
        final(lifetimes)@.len() == function.values@.len(),
        r is Ok ==> lifetimes_through(*function, final(lifetimes)@, k as int, u + 1, 0) && read_ok(
            *function,
            target,
            k as int,
            reads@[u as int],
        ),
        r is Err ==> !read_ok(*function, target, k as int, reads@[u as int]),
        r matches Err(e) ==> malformation(*function, target, e),
        r == error_result(value_read_error(*function, value, element, width, k as int)),
{
    let ghost f = *function;
    let ghost kk = k as int;
    if value.index() >= function.values.len() {
        return Err(RegisterAllocationError::InvalidValue(value));
    }
    let description = function.values[value.index()];
    if element >= description.register_count {
        return Err(RegisterAllocationError::InvalidElement { value, element });
    }
    if width == 0 || element as u16 + width as u16 > description.register_count as u16 {
        assert(uses_at(f, kk)[u as int] == (Operand::Value { value, element }));
        return Err(RegisterAllocationError::InvalidWidth { value, element, width });
    }
    let input = match description.purpose {
        ValuePurpose::Parameter(_) | ValuePurpose::InterpolationCoordinates => true,
        ValuePurpose::Temporary => false,
    };
    let words = defined[value.index()];
    let mut current: u8 = element;
    while current < element + width
        invariant
            element <= current <= element + width,
            element + width <= 255,
            words == defined@[value.0 as int],
            value.0 < defined@.len(),
            defined_through(f, defined@, kk),
            input == is_input(description_of(f, value)),
            input || forall|c: int| element <= c < current ==> defined_before(f, value, c, kk),
            kk == k,
            k < function.instructions@.len(),
            f == *function,
            reads@ == uses_at(f, kk),
            u < reads@.len(),
            reads@[u as int] == (Operand::Value { value, element }),
            width == spec_operand_width(function.instructions@[kk], reads@[u as int]),
            lifetimes@.len() == function.values@.len(),
            input || first_undefined(f, value, element as int, element + width, kk)
                == first_undefined(f, value, current as int, element + width, kk),
            value.0 < function.values@.len(),
            description == function.values@[value.0 as int],
            element < description.register_count,
            width > 0,
            element + width <= description.register_count,
        decreases element + width - current,
    {
        proof {
            assert(ValueId((value.0 as int) as u32) == value);
            assert(element_defined(defined@[value.0 as int], current as int) <==> defined_before(
                f,
                ValueId((value.0 as int) as u32),
                current as int,
                kk,
            ));
        }
        if !is_defined(words, current) && !input {
            assert(uses_at(f, kk)[u as int] == (Operand::Value { value, element }));
            proof {
                assert(!defined_before(f, value, current as int, kk));
                assert(first_undefined(f, value, current as int, element + width, kk) == Some(
                    current as int,
                ));
                assert(value_read_error(f, value, element, width, kk) == Some(
                    RegisterAllocationError::ReadBeforeDefinition {
                        value,
                        element: current,
                        instruction: k,
                    },
                ));
            }
            return Err(
                RegisterAllocationError::ReadBeforeDefinition {
                    value,
                    element: current,
                    instruction: k,
                },
            );
        }
        current = current + 1;
    }
    proof {
        if !input {
            assert(first_undefined(f, value, current as int, element + width, kk) == None::<int>);
        }
    }
    let read_point = 2 * k;
    let start = if input {
        0
    } else {
        read_point
    };
    let ghost before = lifetimes@;
    let updated = match lifetimes[value.index()] {
        Some(lifetime) => {
            let mut lifetime = lifetime;
            lifetime.touch(read_point);
            lifetime.touch(start);
            lifetime
        },
        None => Lifetime { start, end: read_point },
    };
    lifetimes.set(value.index(), Some(updated));
    proof {
        reveal(lifetimes_through);
        assert forall|v: int| 0 <= v < lifetimes@.len() implies lifetime_through(
            f,
            ValueId(v as u32),
            #[trigger] lifetimes@[v],
            kk,
            u + 1,
            0,
        ) by {
            assert(lifetime_through(f, ValueId(v as u32), before[v], kk, u as int, 0));
            if v == value.0 {
                assert(ValueId(v as u32) == value);
                lemma_lifetime_read_self(f, value, before[v], updated, kk, u as int, start as int);
            } else {
                assert(ValueId(v as u32) != value);
                lemma_lifetime_read_other(f, ValueId(v as u32), before[v], kk, u as int);
            }
        }
    }
    Ok(())
}


fn record_physical_read<T: Target>(
    function: &MachineFunction,
    target: &T,
    k: usize,
    u: usize,
    reads: &Vec<Operand>,
    register_class: RegisterClass,
    register: u8,
    width: u8,
    physical: &mut Vec<PhysicalUse>,
) -> (r: Result<(), RegisterAllocationError>)
    requires
        k < function.instructions@.len(),
        function.instructions@.len() < usize::MAX / 4,
        reads@ == uses_at(*function, k as int),
        u < reads@.len(),
        reads@[u as int] == (Operand::Physical { register_class, register }),
        width == spec_operand_width(function.instructions@[k as int], reads@[u as int]),
        physical_through(*function, old(physical)@, k as int, u as int),
    ensures
        r is Ok ==> physical_through(*function, final(physical)@, k as int, u + 1) && read_ok(
            *function,
            target,
            k as int,
            reads@[u as int],
        ),
        r is Err ==> !read_ok(*function, target, k as int, reads@[u as int]),
        r matches Err(e) ==> malformation(*function, target, e),
        r == error_result(read_error(*function, target, k as int, reads@[u as int])),
{
    let ghost f = *function;
    let ghost kk = k as int;
    if !physical_range_valid(target, register_class, register, width) {
        assert(uses_at(f, kk)[u as int] == (Operand::Physical { register_class, register }));
        return Err(RegisterAllocationError::InvalidPhysicalRegister { register_class, register });
    }
    let ghost old_physical = physical@;
    physical.push(PhysicalUse { register_class, register, width, point: 2 * k });
    proof {
        reveal(records_read);
        lemma_physical_push(
            f,
            old_physical,
            PhysicalUse { register_class, register, width, point: (2 * k) as usize },
            kk,
            u as int,
        );
    }
    Ok(())
}

proof fn lemma_physical_push(
    f: MachineFunction,
    old_physical: Seq<PhysicalUse>,
    record: PhysicalUse,
    kk: int,
    u: int,
)
    requires
        records_read(f, record, kk, u),
        record.point == 2 * kk,
        physical_through(f, old_physical, kk, u),
    ensures
        physical_through(f, old_physical.push(record), kk, u + 1),
{
    reveal(physical_through);
    let physical = old_physical.push(record);
    let n = old_physical.len() as int;
    assert forall|p: int| 0 <= p < physical.len() implies #[trigger] record_origin(
        f,
        physical,
        p,
        kk,
        u + 1,
    ) by {
        if p < n {
            assert(record_origin(f, old_physical, p, kk, u));
            let (k2, u2) = choose|k2: int, u2: int|
                #[trigger] records_read(f, old_physical[p], k2, u2) && (k2 < kk || (k2 == kk && u2
                    < u)) && old_physical[p].point == 2 * k2;
            assert(physical[p] == old_physical[p]);
            assert(records_read(f, physical[p], k2, u2));
        } else {
            assert(physical[p] == record);
            assert(records_read(f, physical[p], kk, u));
        }
    }
    assert forall|k2: int, u2: int|
        #[trigger] physical_read(f, k2, u2) && (k2 < kk || (k2 == kk && u2 < u + 1)) implies read_recorded(
        f,
        physical,
        k2,
        u2,
    ) by {
        if k2 < kk || u2 < u {
            assert(read_recorded(f, old_physical, k2, u2));
            let p = choose|p: int|
                #[trigger] records_read(f, old_physical[p], k2, u2) && 0 <= p < old_physical.len()
                    && old_physical[p].point == 2 * k2;
            assert(physical[p] == old_physical[p]);
            assert(records_read(f, physical[p], k2, u2));
        } else {
            assert(physical[n] == record);
            assert(records_read(f, physical[n], k2, u2));
        }
    }
}

proof fn lemma_physical_skip(function: MachineFunction, records: Seq<PhysicalUse>, k: int, u: int)
    requires
        0 <= u,
        !(uses_at(function, k)[u] is Physical),
        physical_through(function, records, k, u),
    ensures
        physical_through(function, records, k, u + 1),
{
    reveal(physical_through);
    assert forall|p: int| 0 <= p < records.len() implies #[trigger] record_origin(
        function,
        records,
        p,
        k,
        u + 1,
    ) by {
        assert(record_origin(function, records, p, k, u));
        let (k2, u2) = choose|k2: int, u2: int|
            #[trigger] records_read(function, records[p], k2, u2) && (k2 < k || (k2 == k && u2 < u))
                && records[p].point == 2 * k2;
    }
    assert forall|k2: int, u2: int|
        #[trigger] physical_read(function, k2, u2) && (k2 < k || (k2 == k && u2 < u + 1)) implies read_recorded(
        function,
        records,
        k2,
        u2,
    ) by {
        assert(k2 < k || (k2 == k && u2 < u));
    }
}

/// Checks and records the register reads of instruction `k`.
fn scan_reads<T: Target>(
    function: &MachineFunction,
    target: &T,
    k: usize,
    reads: &Vec<Operand>,
    lifetimes: &mut Vec<Option<Lifetime>>,
    defined: &Vec<[u64; 4]>,
    physical: &mut Vec<PhysicalUse>,
) -> (r: Result<(), RegisterAllocationError>)
    requires
        k < function.instructions@.len(),
        function.instructions@.len() < usize::MAX / 4,
        function.values@.len() <= u32::MAX,
        reads@ == uses_at(*function, k as int),
        lifetimes_through(*function, old(lifetimes)@, k as int, 0, 0),
        old(lifetimes)@.len() == function.values@.len(),
        defined_through(*function, defined@, k as int),
        physical_through(*function, old(physical)@, k as int, 0),
    ensures
        final(lifetimes)@.len() == function.values@.len(),
        r is Ok ==> {
            &&& lifetimes_through(*function, final(lifetimes)@, k as int, reads@.len() as int, 0)
            &&& physical_through(*function, final(physical)@, k as int, reads@.len() as int)
            &&& forall|u: int|
                0 <= u < reads@.len() ==> read_ok(*function, target, k as int, #[trigger] reads@[u])
        },
        r is Err ==> exists|u: int|
            0 <= u < reads@.len() && !read_ok(*function, target, k as int, #[trigger] reads@[u]),
        r matches Err(e) ==> malformation(*function, target, e),
        r == error_result(reads_error(*function, target, k as int, 0)),
{
    let ghost f = *function;
    let ghost kk = k as int;
    let instruction = &function.instructions[k];
    let mut u: usize = 0;
    while u < reads.len()
        invariant
            f == *function,
            kk == k,
            k < function.instructions@.len(),
            function.instructions@.len() < usize::MAX / 4,
            function.values@.len() <= u32::MAX,
            *instruction == function.instructions@[kk],
            reads@ == uses_at(f, kk),
            u <= reads@.len(),
            lifetimes_through(f, lifetimes@, kk, u as int, 0),
            lifetimes@.len() == function.values@.len(),
            defined_through(f, defined@, kk),
            physical_through(f, physical@, kk, u as int),
            forall|u2: int| 0 <= u2 < u ==> read_ok(f, target, kk, #[trigger] reads@[u2]),
            reads_error(f, target, kk, 0) == reads_error(f, target, kk, u as int),
        decreases reads@.len() - u,
    {
        let operand = reads[u];
        let width = operand_width(instruction, operand);
        proof {
            assert(reads_error(f, target, kk, u as int) == match read_error(f, target, kk, operand) {
                Some(e) => Some(e),
                None => reads_error(f, target, kk, u + 1),
            });
        }
        match operand {
            Operand::Value { value, element } => {
                record_value_read(
                    function,
                    target,
                    k,
                    u,
                    reads,
                    value,
                    element,
                    width,
                    lifetimes,
                    defined,
                )?;
                proof {
                    lemma_physical_skip(f, physical@, kk, u as int);
                }
            },
            Operand::Physical { register_class, register } => {
                let ghost before = lifetimes@;
                record_physical_read(
                    function,
                    target,
                    k,
                    u,
                    reads,
                    register_class,
                    register,
                    width,
                    physical,
                )?;
                proof {
                    reveal(lifetimes_through);
                    assert forall|v: int| 0 <= v < lifetimes@.len() implies lifetime_through(
                        f,
                        ValueId(v as u32),
                        #[trigger] lifetimes@[v],
                        kk,
                        u + 1,
                        0,
                    ) by {
                        assert(lifetime_through(f, ValueId(v as u32), before[v], kk, u as int, 0));
                        lemma_lifetime_read_other(f, ValueId(v as u32), before[v], kk, u as int);
                    }
                }
            },
            Operand::Immediate(_) => {
                proof {
                    reveal(lifetimes_through);
                    assert forall|v: int| 0 <= v < lifetimes@.len() implies lifetime_through(
                        f,
                        ValueId(v as u32),
                        #[trigger] lifetimes@[v],
                        kk,
                        u + 1,
                        0,
                    ) by {
                        lemma_lifetime_read_other(f, ValueId(v as u32), lifetimes@[v], kk, u as int);
                    }
                    lemma_physical_skip(f, physical@, kk, u as int);
                }
            },
        }
        u = u + 1;
    }
    Ok(())
}


proof fn lemma_lifetime_write(
    function: MachineFunction,
    value: ValueId,
    before: Option<Lifetime>,
    after: Option<Lifetime>,
    k: int,
    u: int,
    d: int,
)
    requires
        0 <= d,
        0 <= k,
        2 * k + 1 <= usize::MAX,
        lifetime_through(function, value, before, k, u, d),
        definitions_at(function, k)[d].0 == value ==> match before {
            None => after == Some(Lifetime { start: (2 * k + 1) as usize, end: (2 * k + 1) as usize }),
            Some(l) => after is Some && after->0.start == (if 2 * k + 1 < l.start {
                2 * k + 1
            } else {
                l.start as int
            }) && after->0.end == (if 2 * k + 1 > l.end {
                2 * k + 1
            } else {
                l.end as int
            }),
        },
        definitions_at(function, k)[d].0 != value ==> after == before,
    ensures
        lifetime_through(function, value, after, k, u, d + 1),
{
    assert forall|p: int| #![trigger occurs_through(function, value, p, k, u, d + 1)]
        true implies occurs_through(function, value, p, k, u, d + 1) == (occurs_through(
        function,
        value,
        p,
        k,
        u,
        d,
    ) || write_occurrence(function, value, k, d, p)) by {
        lemma_write_step(function, value, p, k, u, d);
    }
    lemma_write_step(function, value, 0, k, u, d);
    if definitions_at(function, k)[d].0 == value {
        assert(write_occurrence(function, value, k, d, 2 * k + 1));
        match before {
            None => {
                assert forall|p: int| #[trigger] occurs_through(function, value, p, k, u, d + 1) implies
                    after->0.start <= p <= after->0.end by {
                    if occurs_through(function, value, p, k, u, d) {
                        lemma_occurs_accessed(function, value, p, k, u, d);
                    }
                }
            },
            Some(l) => {
            },
        }
    }
}

proof fn lemma_lifetimes_boundary(function: MachineFunction, lifetimes: Seq<Option<Lifetime>>, k: int)
    requires
        0 <= k,
        lifetimes_through(
            function,
            lifetimes,
            k,
            uses_at(function, k).len() as int,
            definitions_at(function, k).len() as int,
        ),
    ensures
        lifetimes_through(function, lifetimes, k + 1, 0, 0),
{
    reveal(lifetimes_through);
    let nu = uses_at(function, k).len() as int;
    let nd = definitions_at(function, k).len() as int;
    assert forall|v: int| 0 <= v < lifetimes.len() implies lifetime_through(
        function,
        ValueId(v as u32),
        #[trigger] lifetimes[v],
        k + 1,
        0,
        0,
    ) by {
        assert(lifetime_through(function, ValueId(v as u32), lifetimes[v], k, nu, nd));
        assert forall|p: int| #![trigger occurs_through(function, ValueId(v as u32), p, k + 1, 0, 0)]
            true implies occurs_through(function, ValueId(v as u32), p, k + 1, 0, 0)
            == occurs_through(function, ValueId(v as u32), p, k, nu, nd) by {
            lemma_instruction_boundary(function, ValueId(v as u32), p, k);
        }
        lemma_instruction_boundary(function, ValueId(v as u32), 0, k);
    }
}

proof fn lemma_physical_boundary(function: MachineFunction, records: Seq<PhysicalUse>, k: int)
    requires
        0 <= k,
        physical_through(function, records, k, uses_at(function, k).len() as int),
    ensures
        physical_through(function, records, k + 1, 0),
{
    reveal(physical_through);
    let nu = uses_at(function, k).len() as int;
    assert forall|p: int| 0 <= p < records.len() implies #[trigger] record_origin(
        function,
        records,
        p,
        k + 1,
        0,
    ) by {
        assert(record_origin(function, records, p, k, nu));
        let (k2, u2) = choose|k2: int, u2: int|
            #[trigger] records_read(function, records[p], k2, u2) && (k2 < k || (k2 == k && u2 < nu))
                && records[p].point == 2 * k2;
    }
    assert forall|k2: int, u2: int|
        #[trigger] physical_read(function, k2, u2) && (k2 < k + 1 || (k2 == k + 1 && u2 < 0)) implies read_recorded(
        function,
        records,
        k2,
        u2,
    ) by {
        assert(k2 < k || (k2 == k && u2 < nu));
    }
}

/// Checks the tied operand of an interpolation step.
fn check_tied(instruction: &Instruction, k: usize) -> (r: Result<(), RegisterAllocationError>)
    ensures
        r is Ok <==> tied_ok(*instruction),
        r matches Err(e) ==> e == (RegisterAllocationError::InvalidTiedOperand { instruction: k }),
        r == error_result(tied_error(*instruction, k as int)),
{
    if let Instruction::Interpolate { second_step, destination, previous_value, .. } = *instruction {
        let tied = match previous_value {
            Some(Operand::Value { value, element }) => value == destination && element == 0,
            _ => false,
        };
        if (second_step && !tied) || (!second_step && previous_value.is_some()) {
            return Err(RegisterAllocationError::InvalidTiedOperand { instruction: k });
        }
    }
    Ok(())
}

/// Checks that predicate and carry values live in the predicate class.
fn check_predicates<T: Target>(
    function: &MachineFunction,
    target: &T,
    instruction: &Instruction,
) -> (r: Result<(), RegisterAllocationError>)
    ensures
        r is Ok <==> predicates_ok(*function, *instruction),
        r matches Err(e) ==> malformation(*function, target, e),
        r == error_result(predicate_error(*function, *instruction)),
{
    match *instruction {
        Instruction::FloatCompare { destination, .. } => require_predicate(function, destination),
        Instruction::DivideScale { predicate: Some(predicate), .. }
        | Instruction::AddressLow { carry: Some(predicate), .. } => require_predicate(
            function,
            predicate,
        ),
        Instruction::AddressHigh { carry: Operand::Value { value, .. }, .. }
        | Instruction::DivideFusedMultiplyAdd { predicate: Operand::Value { value, .. }, .. } =>
            require_predicate(function, value),
        _ => Ok(()),
    }
}


/// Checks and records the definitions of instruction `k`.
fn scan_writes<T: Target>(
    function: &MachineFunction,
    target: &T,
    k: usize,
    writes: &Vec<(ValueId, u8)>,
    lifetimes: &mut Vec<Option<Lifetime>>,
    defined: &mut Vec<[u64; 4]>,
) -> (r: Result<(), RegisterAllocationError>)
    requires
        k < function.instructions@.len(),
        function.instructions@.len() < usize::MAX / 4,
        function.values@.len() <= u32::MAX,
        writes@ == definitions_at(*function, k as int),
        lifetimes_through(*function, old(lifetimes)@, k as int, uses_at(*function, k as int).len() as int, 0),
        old(lifetimes)@.len() == function.values@.len(),
        defined_through(*function, old(defined)@, k as int),
    ensures
        final(lifetimes)@.len() == function.values@.len(),
        r is Ok ==> {
            &&& lifetimes_through(*function, final(lifetimes)@, k as int + 1, 0, 0)
            &&& defined_through(*function, final(defined)@, k as int + 1)
            &&& forall|d: int|
                0 <= d < writes@.len() ==> definition_ok(*function, #[trigger] writes@[d])
        },
        r is Err ==> exists|d: int| 0 <= d < writes@.len() && !definition_ok(*function, #[trigger] writes@[d]),
        r matches Err(e) ==> malformation(*function, target, e),
        r == error_result(writes_error(*function, k as int, 0)),
{
    let ghost f = *function;
    let ghost kk = k as int;
    let ghost nu = uses_at(f, kk).len() as int;
    let write_point = 2 * k + 1;
    let mut d: usize = 0;
    proof {
        assert forall|v: int, c: int|
            0 <= v < defined@.len() && 0 <= c < 256 implies (element_defined(
            #[trigger] defined@[v],
            c,
        ) <==> #[trigger] defined_partial(f, ValueId(v as u32), c, kk, 0)) by {
            lemma_defined_boundary(f, ValueId(v as u32), c, kk);
        }
    }
    while d < writes.len()
        invariant
            f == *function,
            kk == k,
            k < function.instructions@.len(),
            function.instructions@.len() < usize::MAX / 4,
            function.values@.len() <= u32::MAX,
            write_point == 2 * k + 1,
            nu == uses_at(f, kk).len(),
            writes@ == definitions_at(f, kk),
            d <= writes@.len(),
            lifetimes_through(f, lifetimes@, kk, nu, d as int),
            lifetimes@.len() == function.values@.len(),
            defined@.len() == function.values@.len(),
            forall|v: int, c: int|
                0 <= v < defined@.len() && 0 <= c < 256 ==> (element_defined(#[trigger] defined@[v], c)
                    <==> #[trigger] defined_partial(f, ValueId(v as u32), c, kk, d as int)),
            forall|d2: int| 0 <= d2 < d ==> definition_ok(f, #[trigger] writes@[d2]),
            writes_error(f, kk, 0) == writes_error(f, kk, d as int),
        decreases writes@.len() - d,
    {
        let (value, element) = writes[d];
        proof {
            assert(writes_error(f, kk, d as int) == (if !valid_value(f, value) {
                Some(RegisterAllocationError::InvalidValue(value))
            } else if element >= description_of(f, value).register_count {
                Some(RegisterAllocationError::InvalidElement { value, element })
            } else {
                writes_error(f, kk, d + 1)
            }));
        }
        if value.index() >= function.values.len() {
            return Err(RegisterAllocationError::InvalidValue(value));
        }
        if element >= function.values[value.index()].register_count {
            return Err(RegisterAllocationError::InvalidElement { value, element });
        }
        let ghost old_defined = defined@;
        let words = mark_defined(defined[value.index()], element);
        defined.set(value.index(), words);
        let ghost before = lifetimes@;
        let updated = match lifetimes[value.index()] {
            Some(lifetime) => {
                let mut lifetime = lifetime;
                lifetime.touch(write_point);
                lifetime
            },
            None => Lifetime { start: write_point, end: write_point },
        };
        lifetimes.set(value.index(), Some(updated));
        proof {
            reveal(lifetimes_through);
            assert forall|v: int| 0 <= v < lifetimes@.len() implies lifetime_through(
                f,
                ValueId(v as u32),
                #[trigger] lifetimes@[v],
                kk,
                nu,
                d + 1,
            ) by {
                assert(lifetime_through(f, ValueId(v as u32), before[v], kk, nu, d as int));
                if v == value.0 {
                    assert(ValueId(v as u32) == value);
                } else {
                    assert(ValueId(v as u32) != value);
                }
                lemma_lifetime_write(f, ValueId(v as u32), before[v], lifetimes@[v], kk, nu, d as int);
            }
            assert forall|v: int, c: int|
                0 <= v < defined@.len() && 0 <= c < 256 implies (element_defined(
                #[trigger] defined@[v],
                c,
            ) <==> #[trigger] defined_partial(f, ValueId(v as u32), c, kk, d + 1)) by {
                assert(element_defined(old_defined[v], c) <==> defined_partial(
                    f,
                    ValueId(v as u32),
                    c,
                    kk,
                    d as int,
                ));
                if defined_partial(f, ValueId(v as u32), c, kk, d + 1) && !defined_partial(
                    f,
                    ValueId(v as u32),
                    c,
                    kk,
                    d as int,
                ) {
                    let d2 = choose|d2: int|
                        0 <= d2 < d + 1 && #[trigger] definitions_at(f, kk)[d2] == (ValueId(v as u32), c as u8)
                            && 0 <= c < 256;
                    assert(d2 == d);
                }
                if v == value.0 && c == element {
                    assert(ValueId(v as u32) == value);
                    assert(definitions_at(f, kk)[d as int] == (ValueId(v as u32), c as u8));
                }
                if v == value.0 {
                    assert(ValueId(v as u32) == value);
                } else {
                    assert(ValueId(v as u32) != value);
                }
            }
        }
        d = d + 1;
    }
    proof {
        lemma_lifetimes_boundary(f, lifetimes@, kk);
        assert forall|v: int, c: int|
            0 <= v < defined@.len() && 0 <= c < 256 implies (element_defined(#[trigger] defined@[v], c)
            <==> #[trigger] defined_before(f, ValueId(v as u32), c, kk + 1)) by {
            lemma_defined_boundary(f, ValueId(v as u32), c, kk);
        }
    }
    Ok(())
}


/// Checks instruction `k` and records its reads and writes.
fn scan_instruction<T: Target>(
    function: &MachineFunction,
    target: &T,
    k: usize,
    lifetimes: &mut Vec<Option<Lifetime>>,
    defined: &mut Vec<[u64; 4]>,
    physical: &mut Vec<PhysicalUse>,
) -> (r: Result<(), RegisterAllocationError>)
    requires
        k < function.instructions@.len(),
        function.instructions@.len() < usize::MAX / 4,
        function.values@.len() <= u32::MAX,
        lifetimes_through(*function, old(lifetimes)@, k as int, 0, 0),
        old(lifetimes)@.len() == function.values@.len(),
        defined_through(*function, old(defined)@, k as int),
        physical_through(*function, old(physical)@, k as int, 0),
    ensures
        final(lifetimes)@.len() == function.values@.len(),
        r is Ok ==> {
            &&& lifetimes_through(*function, final(lifetimes)@, k as int + 1, 0, 0)
            &&& defined_through(*function, final(defined)@, k as int + 1)
            &&& physical_through(*function, final(physical)@, k as int + 1, 0)
            &&& instruction_ok(*function, target, k as int)
        },
        r is Err ==> !instruction_ok(*function, target, k as int),
        r matches Err(e) ==> malformation(*function, target, e),
        r == error_result(instruction_error(*function, target, k as int)),
{
    let instruction = &function.instructions[k];
    let reads = MachineFunction::uses(instruction);
    scan_reads(function, target, k, &reads, lifetimes, defined, physical)?;
    check_tied(instruction, k)?;
    check_predicates(function, target, instruction)?;
    let writes = MachineFunction::definitions(instruction);
    scan_writes(function, target, k, &writes, lifetimes, defined)?;
    proof {
        lemma_physical_boundary(*function, physical@, k as int);
    }
    Ok(())
}

/// Checks every instruction and computes the lifetime of every value and
/// the raw physical register reads.
fn compute_liveness<T: Target>(function: &MachineFunction, target: &T) -> (r: Result<
    (Vec<Option<Lifetime>>, Vec<PhysicalUse>),
    RegisterAllocationError,
>)
    requires
        function.instructions@.len() < usize::MAX / 4,
        function.values@.len() <= u32::MAX,
    ensures
        r matches Ok((lifetimes, physical)) ==> {
            &&& forall|k: int|
                0 <= k < function.instructions@.len() ==> instruction_ok(*function, target, k)
            &&& lifetimes_describe(*function, lifetimes@)
            &&& physical_reads_describe(*function, physical@)
            &&& lifetimes@ == liveness(*function)
            &&& exists|scan: Seq<PhysicalUse>|
                #[trigger] physical_scanned(*function, scan) && physical@ == uses_over_loops(
                    *function,
                    scan,
                    function.instructions@.len() as int,
                )
        },
        r is Err ==> exists|k: int|
            0 <= k < function.instructions@.len() && !instruction_ok(*function, target, k),
        r matches Err(e) ==> malformation(*function, target, e),
        r matches Err(e) ==> instructions_error(*function, target, 0) == Some(e),
        r is Ok ==> instructions_error(*function, target, 0) == None::<RegisterAllocationError>,
{
    let ghost f = *function;
    let mut lifetimes: Vec<Option<Lifetime>> = Vec::new();
    let mut defined: Vec<[u64; 4]> = Vec::new();
    let mut index: usize = 0;
    while index < function.values.len()
        invariant
            index <= function.values@.len(),
            lifetimes@.len() == index,
            defined@.len() == index,
            forall|v: int| 0 <= v < index ==> lifetimes@[v] is None,
            forall|v: int| 0 <= v < index ==> defined@[v] == [0u64, 0u64, 0u64, 0u64],
        decreases function.values@.len() - index,
    {
        lifetimes.push(None);
        defined.push([0u64, 0u64, 0u64, 0u64]);
        index = index + 1;
    }
    let mut physical: Vec<PhysicalUse> = Vec::new();
    proof {
        reveal(lifetimes_through);
        reveal(physical_through);
        assert forall|v: int, c: int|
            0 <= v < defined@.len() && 0 <= c < 256 implies (element_defined(#[trigger] defined@[v], c)
            <==> #[trigger] defined_before(f, ValueId(v as u32), c, 0)) by {
            lemma_bit(0, 0, (c % 64) as u64);
        }
    }
    let mut k: usize = 0;
    while k < function.instructions.len()
        invariant
            f == *function,
            function.instructions@.len() < usize::MAX / 4,
            function.values@.len() <= u32::MAX,
            k <= function.instructions@.len(),
            lifetimes_through(f, lifetimes@, k as int, 0, 0),
            lifetimes@.len() == function.values@.len(),
            defined_through(f, defined@, k as int),
            physical_through(f, physical@, k as int, 0),
            forall|k2: int| 0 <= k2 < k ==> instruction_ok(f, target, k2),
            instructions_error(f, target, 0) == instructions_error(f, target, k as int),
        decreases function.instructions@.len() - k,
    {
        proof {
            assert(instructions_error(f, target, k as int) == match instruction_error(
                f,
                target,
                k as int,
            ) {
                Some(e) => Some(e),
                None => instructions_error(f, target, k + 1),
            });
        }
        scan_instruction(function, target, k, &mut lifetimes, &mut defined, &mut physical)?;
        k = k + 1;
    }
    proof {
        lemma_scan_complete(f, lifetimes@, physical@);
        lemma_scan_exact(f, lifetimes@, physical@);
    }
    let ghost scan = physical@;
    extend_over_backward_branches(function, &mut lifetimes, &mut physical);
    proof {
        assert(physical_scanned(f, scan));
    }
    Ok((lifetimes, physical))
}

proof fn lemma_scan_complete(f: MachineFunction, lifetimes: Seq<Option<Lifetime>>, physical: Seq<PhysicalUse>)
    requires
        lifetimes_through(f, lifetimes, f.instructions@.len() as int, 0, 0),
        lifetimes.len() == f.values@.len(),
        physical_through(f, physical, f.instructions@.len() as int, 0),
    ensures
        lifetimes_describe(f, lifetimes),
        physical_reads_describe(f, physical),
{
    reveal(lifetimes_through);
    reveal(physical_through);
    let n = f.instructions@.len() as int;
    assert forall|v: int| 0 <= v < lifetimes.len() implies match #[trigger] lifetimes[v] {
        None => forall|k: int|
            #![trigger reads_value(f, ValueId(v as u32), k)]
            #![trigger writes_value(f, ValueId(v as u32), k)]
            0 <= k < n ==> !reads_value(f, ValueId(v as u32), k) && !writes_value(f, ValueId(v as u32), k),
        Some(lifetime) => {
            &&& occurs(f, ValueId(v as u32), lifetime.start as int)
            &&& (occurs(f, ValueId(v as u32), lifetime.end as int) || exists|k: int|
                lifetime.end == 2 * k && backward_branch(f, k))
            &&& forall|p: int|
                #[trigger] occurs(f, ValueId(v as u32), p) ==> lifetime.start <= p <= lifetime.end
        },
    } by {
        let value = ValueId(v as u32);
        assert(lifetime_through(f, value, lifetimes[v], n, 0, 0));
        assert forall|p: int| #![trigger occurs(f, value, p)] true implies occurs(f, value, p)
            == occurs_through(f, value, p, n, 0, 0) by {
        }
        match lifetimes[v] {
            None => {
                assert forall|k: int| 0 <= k < n implies !reads_value(f, value, k) && !writes_value(
                    f,
                    value,
                    k,
                ) by {
                    if reads_value(f, value, k) || writes_value(f, value, k) {
                        assert(accessed_through(f, value, n, 0, 0));
                    }
                }
            },
            Some(l) => {
            },
        }
    }
    assert forall|p: int| 0 <= p < physical.len() implies #[trigger] record_described(f, physical, p) by {
        assert(record_origin(f, physical, p, n, 0));
        let (k2, u2) = choose|k2: int, u2: int|
            #[trigger] records_read(f, physical[p], k2, u2) && (k2 < n || (k2 == n && u2 < 0))
                && physical[p].point == 2 * k2;
    }
    assert forall|k: int, u: int| #[trigger] physical_read(f, k, u) implies read_described(
        f,
        physical,
        k,
        u,
    ) by {
        assert(read_recorded(f, physical, k, u));
        let p = choose|p: int|
            #[trigger] records_read(f, physical[p], k, u) && 0 <= p < physical.len()
                && physical[p].point == 2 * k;
    }
}

/// `lifetime` is the span of `value`'s accesses: none when it is never
/// accessed, else from its earliest to its latest access point.
pub open spec fn lifetime_spans(function: MachineFunction, value: ValueId, lifetime: Option<Lifetime>) -> bool {
    match lifetime {
        None => forall|k: int|
            #![trigger reads_value(function, value, k)]
            #![trigger writes_value(function, value, k)]
            0 <= k < function.instructions@.len() ==> !reads_value(function, value, k)
                && !writes_value(function, value, k),
        Some(l) => {
            &&& occurs(function, value, l.start as int)
            &&& occurs(function, value, l.end as int)
            &&& forall|p: int| #[trigger] occurs(function, value, p) ==> l.start <= p <= l.end
        },
    }
}

/// The span of value `v`'s accesses (there is exactly one).
pub open spec fn scanned_lifetime(function: MachineFunction, v: int) -> Option<Lifetime> {
    choose|lifetime: Option<Lifetime>| #[trigger] lifetime_spans(function, ValueId(v as u32), lifetime)
}

/// The liveness the allocator works with: each value's access span, then
/// stretched over the loops of the backward branches, in instruction order.
pub open spec fn liveness(function: MachineFunction) -> Seq<Option<Lifetime>> {
    lifetimes_over_loops(
        function,
        Seq::new(function.values@.len(), |v: int| scanned_lifetime(function, v)),
        function.instructions@.len() as int,
    )
}

/// Record `p` is a physical operand read, at its read point.
pub open spec fn record_at_read_point(function: MachineFunction, records: Seq<PhysicalUse>, p: int) -> bool {
    exists|k: int, u: int|
        #[trigger] records_read(function, records[p], k, u) && records[p].point == 2 * k
}

/// `records` holds the raw physical register reads, each at its read point:
/// one record or more for every physical operand read, and no other.
pub open spec fn physical_scanned(function: MachineFunction, records: Seq<PhysicalUse>) -> bool {
    &&& forall|p: int| 0 <= p < records.len() ==> #[trigger] record_at_read_point(function, records, p)
    &&& forall|k: int, u: int| #[trigger] physical_read(function, k, u) ==> read_recorded(function, records, k, u)
}

/// A value's access span is unique.
proof fn lemma_span_unique(
    function: MachineFunction,
    value: ValueId,
    first: Option<Lifetime>,
    second: Option<Lifetime>,
)
    requires
        lifetime_spans(function, value, first),
        lifetime_spans(function, value, second),
    ensures
        first == second,
{
    let n = function.instructions@.len() as int;
    match (first, second) {
        (Some(a), Some(b)) => {
            assert(a.start <= b.start && b.start <= a.start);
            assert(a.end <= b.end && b.end <= a.end);
        },
        (Some(a), None) => {
            assert(occurs_before(function, value, a.start as int, n));
        },
        (None, Some(b)) => {
            assert(occurs_before(function, value, b.start as int, n));
        },
        (None, None) => {},
    }
}

/// After the whole scan, the lifetimes are the access spans and the
/// records the raw physical reads.
proof fn lemma_scan_exact(f: MachineFunction, lifetimes: Seq<Option<Lifetime>>, physical: Seq<PhysicalUse>)
    requires
        lifetimes_through(f, lifetimes, f.instructions@.len() as int, 0, 0),
        lifetimes.len() == f.values@.len(),
        f.values@.len() <= u32::MAX,
        physical_through(f, physical, f.instructions@.len() as int, 0),
    ensures
        lifetimes == Seq::new(f.values@.len(), |v: int| scanned_lifetime(f, v)),
        physical_scanned(f, physical),
{
    reveal(lifetimes_through);
    reveal(physical_through);
    let n = f.instructions@.len() as int;
    assert forall|v: int| 0 <= v < lifetimes.len() implies lifetimes[v] == scanned_lifetime(f, v) by {
        let value = ValueId(v as u32);
        assert(lifetime_through(f, value, lifetimes[v], n, 0, 0));
        assert forall|p: int| #![trigger occurs(f, value, p)] true implies occurs(f, value, p)
            == occurs_through(f, value, p, n, 0, 0) by {
        }
        match lifetimes[v] {
            None => {
                assert forall|k: int| 0 <= k < n implies !reads_value(f, value, k) && !writes_value(
                    f,
                    value,
                    k,
                ) by {
                    if reads_value(f, value, k) || writes_value(f, value, k) {
                        assert(accessed_through(f, value, n, 0, 0));
                    }
                }
            },
            Some(l) => {},
        }
        assert(lifetime_spans(f, value, lifetimes[v]));
        lemma_span_unique(f, value, lifetimes[v], scanned_lifetime(f, v));
    }
    assert(lifetimes =~= Seq::new(f.values@.len(), |v: int| scanned_lifetime(f, v)));
    assert forall|p: int| 0 <= p < physical.len() implies #[trigger] record_at_read_point(f, physical, p) by {
        assert(record_origin(f, physical, p, n, 0));
        let (k2, u2) = choose|k2: int, u2: int|
            #[trigger] records_read(f, physical[p], k2, u2) && (k2 < n || (k2 == n && u2 < 0))
                && physical[p].point == 2 * k2;
    }
}

/// The first instruction from `j` up to `k` that defines label `label`.
pub open spec fn label_between(function: MachineFunction, label: u32, j: int, k: int) -> Option<int>
    decreases k + 1 - j,
{
    if k < j || j < 0 {
        None
    } else if function.instructions@[j] == (Instruction::Label { id: label }) {
        Some(j)
    } else {
        label_between(function, label, j + 1, k)
    }
}

/// Where the loop that instruction `k` closes begins: the first definition
/// of `k`'s branch label at or before `k`; none if `k` is no backward branch.
pub open spec fn loop_head(function: MachineFunction, k: int) -> Option<int> {
    match branch_label(function.instructions@[k]) {
        Some(label) => label_between(function, label, 0, k),
        None => None,
    }
}

/// A lifetime that is live at the loop head `start` and ends inside the loop
/// is stretched to the backward branch at `end`; any other stays.
pub open spec fn lifetime_extended(lifetime: Option<Lifetime>, start: int, end: int) -> Option<
    Lifetime,
> {
    match lifetime {
        Some(l) => if l.start <= start && l.end >= start && l.end < end {
            Some(Lifetime { start: l.start, end: end as usize })
        } else {
            Some(l)
        },
        None => None,
    }
}

/// A physical-register read inside the loop `start..end` is moved to the
/// backward branch at `end`; any other stays.
pub open spec fn use_extended(record: PhysicalUse, start: int, end: int) -> PhysicalUse {
    if start <= record.point && record.point < end {
        PhysicalUse { point: end as usize, ..record }
    } else {
        record
    }
}

/// The lifetimes after the backward branches among the first `k`
/// instructions, in order, have stretched them over their loops.
pub open spec fn lifetimes_over_loops(
    function: MachineFunction,
    lifetimes: Seq<Option<Lifetime>>,
    k: int,
) -> Seq<Option<Lifetime>>
    decreases k,
{
    if k <= 0 {
        lifetimes
    } else {
        let before = lifetimes_over_loops(function, lifetimes, k - 1);
        match loop_head(function, k - 1) {
            Some(j) => Seq::new(
                before.len(),
                |v: int| lifetime_extended(before[v], 2 * j, 2 * (k - 1)),
            ),
            None => before,
        }
    }
}

/// The physical-register reads after the backward branches among the first
/// `k` instructions, in order, have moved the reads inside their loops.
pub open spec fn uses_over_loops(function: MachineFunction, records: Seq<PhysicalUse>, k: int) -> Seq<
    PhysicalUse,
>
    decreases k,
{
    if k <= 0 {
        records
    } else {
        let before = uses_over_loops(function, records, k - 1);
        match loop_head(function, k - 1) {
            Some(j) => Seq::new(before.len(), |p: int| use_extended(before[p], 2 * j, 2 * (k - 1))),
            None => before,
        }
    }
}

/// Backward edges keep live-in values alive through the end of the loop,
/// even if their last textual use is before the backward branch.
fn extend_over_backward_branches(
    function: &MachineFunction,
    lifetimes: &mut Vec<Option<Lifetime>>,
    physical: &mut Vec<PhysicalUse>,
)
    requires
        function.instructions@.len() < usize::MAX / 4,
        lifetimes_describe(*function, old(lifetimes)@),
        physical_reads_describe(*function, old(physical)@),
    ensures
        lifetimes_describe(*function, final(lifetimes)@),
        physical_reads_describe(*function, final(physical)@),
        final(lifetimes)@ == lifetimes_over_loops(
            *function,
            old(lifetimes)@,
            function.instructions@.len() as int,
        ),
        final(physical)@ == uses_over_loops(
            *function,
            old(physical)@,
            function.instructions@.len() as int,
        ),
{
    let ghost f = *function;
    let ghost lifetimes0 = lifetimes@;
    let ghost physical0 = physical@;
    let n = function.instructions.len();
    let mut k: usize = 0;
    while k < n
        invariant
            f == *function,
            n == function.instructions@.len(),
            n < usize::MAX / 4,
            k <= n,
            lifetimes_describe(f, lifetimes@),
            physical_reads_describe(f, physical@),
            lifetimes@ == lifetimes_over_loops(f, lifetimes0, k as int),
            physical@ == uses_over_loops(f, physical0, k as int),
        decreases n - k,
    {
        let ghost lifetimes_k = lifetimes@;
        let ghost physical_k = physical@;
        let label = match function.instructions[k] {
            Instruction::Branch { label }
            | Instruction::BranchIfPredicate { label, .. }
            | Instruction::BranchIfNoActiveLanes { label } => Some(label),
            _ => None,
        };
        if let Some(label) = label {
            let mut target_index: usize = 0;
            let mut found = false;
            while target_index <= k && !found
                invariant
                    target_index <= k + 1,
                    k < n,
                    n == function.instructions@.len(),
                    found ==> target_index <= k && function.instructions@[target_index as int]
                        == (Instruction::Label { id: label }),
                    found ==> label_between(*function, label, 0, k as int) == Some(
                        target_index as int,
                    ),
                    !found ==> label_between(*function, label, 0, k as int) == label_between(
                        *function,
                        label,
                        target_index as int,
                        k as int,
                    ),
                decreases k + 1 - target_index + (if found {
                    0int
                } else {
                    1int
                }),
            {
                match function.instructions[target_index] {
                    Instruction::Label { id } => {
                        if id == label {
                            found = true;
                        }
                    },
                    _ => {},
                }
                if !found {
                    target_index = target_index + 1;
                }
            }
            if found {
                proof {
                    assert(branch_label(f.instructions@[k as int]) == Some(label));
                    assert(backward_branch(f, k as int));
                }
                let start = target_index * 2;
                let end = k * 2;
                let mut v: usize = 0;
                while v < lifetimes.len()
                    invariant
                        f == *function,
                        end == 2 * k,
                        backward_branch(f, k as int),
                        v <= lifetimes@.len(),
                        lifetimes_describe(f, lifetimes@),
                        lifetimes@.len() == lifetimes_k.len(),
                        forall|w: int|
                            0 <= w < v ==> lifetimes@[w] == lifetime_extended(
                                lifetimes_k[w],
                                start as int,
                                end as int,
                            ),
                        forall|w: int| v <= w < lifetimes@.len() ==> lifetimes@[w] == lifetimes_k[w],
                    decreases lifetimes@.len() - v,
                {
                    if let Some(lifetime) = lifetimes[v] {
                        if lifetime.start <= start && lifetime.end >= start && lifetime.end < end {
                            let ghost before = lifetimes@;
                            lifetimes.set(v, Some(Lifetime { start: lifetime.start, end }));
                            proof {
                                assert forall|w: int| 0 <= w < lifetimes@.len() implies match #[trigger] lifetimes@[w] {
                                    None => forall|k2: int|
                                        #![trigger reads_value(f, ValueId(w as u32), k2)]
                                        #![trigger writes_value(f, ValueId(w as u32), k2)]
                                        0 <= k2 < f.instructions@.len() ==> !reads_value(f, ValueId(w as u32), k2)
                                            && !writes_value(f, ValueId(w as u32), k2),
                                    Some(l) => {
                                        &&& occurs(f, ValueId(w as u32), l.start as int)
                                        &&& (occurs(f, ValueId(w as u32), l.end as int) || exists|k2: int|
                                            l.end == 2 * k2 && backward_branch(f, k2))
                                        &&& forall|p: int|
                                            #[trigger] occurs(f, ValueId(w as u32), p) ==> l.start <= p <= l.end
                                    },
                                } by {
                                    assert(match before[w] {
                                        None => forall|k2: int|
                                            #![trigger reads_value(f, ValueId(w as u32), k2)]
                                            #![trigger writes_value(f, ValueId(w as u32), k2)]
                                            0 <= k2 < f.instructions@.len() ==> !reads_value(f, ValueId(w as u32), k2)
                                                && !writes_value(f, ValueId(w as u32), k2),
                                        Some(l) => {
                                            &&& occurs(f, ValueId(w as u32), l.start as int)
                                            &&& (occurs(f, ValueId(w as u32), l.end as int) || exists|k2: int|
                                                l.end == 2 * k2 && backward_branch(f, k2))
                                            &&& forall|p: int|
                                                #[trigger] occurs(f, ValueId(w as u32), p) ==> l.start <= p <= l.end
                                        },
                                    });
                                    if w == v {
                                        assert(lifetimes@[w]->0.end == 2 * (k as int));
                                    }
                                }
                            }
                        }
                    }
                    v = v + 1;
                }
                let mut p: usize = 0;
                while p < physical.len()
                    invariant
                        f == *function,
                        p <= physical@.len(),
                        physical_reads_describe(f, physical@),
                        physical@.len() == physical_k.len(),
                        forall|q: int|
                            0 <= q < p ==> physical@[q] == use_extended(
                                physical_k[q],
                                start as int,
                                end as int,
                            ),
                        forall|q: int| p <= q < physical@.len() ==> physical@[q] == physical_k[q],
                    decreases physical@.len() - p,
                {
                    let record = physical[p];
                    if start <= record.point && record.point < end {
                        let ghost before = physical@;
                        physical.set(p, PhysicalUse { point: end, ..record });
                        proof {
                            reveal(records_read);
                            assert forall|q: int| 0 <= q < physical@.len() implies #[trigger] record_described(
                                f,
                                physical@,
                                q,
                            ) by {
                                assert(record_described(f, before, q));
                                let (k2, u2) = choose|k2: int, u2: int|
                                    #[trigger] records_read(f, before[q], k2, u2) && 2 * k2 <= before[q].point;
                                assert(records_read(f, physical@[q], k2, u2));
                            }
                            assert forall|k2: int, u2: int| #[trigger] physical_read(f, k2, u2) implies read_described(
                                f,
                                physical@,
                                k2,
                                u2,
                            ) by {
                                assert(read_described(f, before, k2, u2));
                                let q = choose|q: int|
                                    #[trigger] records_read(f, before[q], k2, u2) && 0 <= q < before.len() && 2 * k2
                                        <= before[q].point;
                                assert(records_read(f, physical@[q], k2, u2));
                            }
                        }
                    }
                    p = p + 1;
                }
                proof {
                    assert(loop_head(f, k as int) == Some(target_index as int));
                    assert(lifetimes@ =~= Seq::new(
                        lifetimes_k.len(),
                        |w: int| lifetime_extended(lifetimes_k[w], start as int, end as int),
                    ));
                    assert(physical@ =~= Seq::new(
                        physical_k.len(),
                        |q: int| use_extended(physical_k[q], start as int, end as int),
                    ));
                }
            } else {
                proof {
                    assert(label_between(f, label, (k + 1) as int, k as int) == None::<int>);
                    assert(loop_head(f, k as int) == None::<int>);
                }
            }
        } else {
            proof {
                assert(loop_head(f, k as int) == None::<int>);
            }
        }
        proof {
            assert(lifetimes@ == lifetimes_over_loops(f, lifetimes0, (k + 1) as int));
            assert(physical@ == uses_over_loops(f, physical0, (k + 1) as int));
        }
        k = k + 1;
    }
}


// ---------------------------------------------------------------------------
// Assignment
// ---------------------------------------------------------------------------
/// Fixed values of one class whose lifetimes intersect claim overlapping
/// registers.
pub open spec fn fixed_conflict(
    function: MachineFunction,
    lifetimes: Seq<Option<Lifetime>>,
    first: int,
    second: int,
) -> bool {
    let a = function.values@[first];
    let b = function.values@[second];
    &&& 0 <= first < second < function.values@.len()
    &&& a.fixed_register is Some && b.fixed_register is Some
    &&& a.register_class == b.register_class
    &&& lifetimes[first] is Some && lifetimes[second] is Some
    &&& lifetimes[first]->0.spec_intersects(lifetimes[second]->0)
    &&& spec_overlaps(
        b.fixed_register->0 as int,
        b.register_count as int,
        a.fixed_register->0 as int,
        a.register_count as int,
    )
}

/// Every value placed before unfixed value `i` holds its chosen registers.
pub open spec fn placed_up_to<T: Target>(
    function: MachineFunction,
    target: &T,
    lifetimes: Seq<Option<Lifetime>>,
    physical: Seq<PhysicalUse>,
    bases: Seq<u8>,
    i: int,
) -> bool {
    &&& bases.len() == function.values@.len()
    &&& fixed_placement(function, lifetimes, bases)
    &&& forall|j: int|
        0 <= j < function.values@.len() && (#[trigger] function.values@[j]).fixed_register is None
            && placed_before(lifetimes, j, i) ==> lowest_free_base(
            function,
            target,
            lifetimes,
            physical,
            bases,
            j,
        )
}

/// No placement of unfixed value `i` within its register class is free.
pub open spec fn no_free_base<T: Target>(
    function: MachineFunction,
    target: &T,
    lifetimes: Seq<Option<Lifetime>>,
    physical: Seq<PhysicalUse>,
    bases: Seq<u8>,
    i: int,
) -> bool {
    let description = function.values@[i];
    forall|b: int|
        class_bounds(target, description.register_class).0 <= b && b + description.register_count
            <= class_end(target, description.register_class) ==> !#[trigger] placement_free(
            function,
            lifetimes,
            physical,
            bases,
            i,
            b,
        )
}

pub open spec fn assignment_failure<T: Target>(
    function: MachineFunction,
    target: &T,
    lifetimes: Seq<Option<Lifetime>>,
    physical: Seq<PhysicalUse>,
    error: RegisterAllocationError,
) -> bool {
    match error {
        RegisterAllocationError::ConflictingFixedRegisters { first, second } => {
            &&& fixed_conflict(function, lifetimes, first.0 as int, second.0 as int)
            &&& forall|j: int, i: int| #[trigger]
                fixed_conflict(function, lifetimes, j, i) ==> second.0 < i || (second.0 == i
                    && first.0 <= j)
        },
        RegisterAllocationError::RegistersExhausted(value) => {
            &&& valid_value(function, value)
            &&& description_of(function, value).fixed_register is None
            &&& forall|j: int, i: int| !#[trigger] fixed_conflict(function, lifetimes, j, i)
            &&& exists|bases: Seq<u8>|
                placed_up_to(function, target, lifetimes, physical, bases, value.0 as int)
                    && #[trigger] no_free_base(
                    function,
                    target,
                    lifetimes,
                    physical,
                    bases,
                    value.0 as int,
                )
        },
        _ => false,
    }
}


fn lifetime_key_of(lifetimes: &Vec<Option<Lifetime>>, i: usize) -> (r: usize)
    requires
        i < lifetimes@.len(),
    ensures
        r == lifetime_key(lifetimes@, i as int),
{
    match lifetimes[i] {
        Some(lifetime) => lifetime.start,
        None => usize::MAX,
    }
}

fn is_placed_before(lifetimes: &Vec<Option<Lifetime>>, j: usize, i: usize) -> (r: bool)
    requires
        i < lifetimes@.len(),
        j < lifetimes@.len(),
    ensures
        r == placed_before(lifetimes@, j as int, i as int),
{
    let kj = lifetime_key_of(lifetimes, j);
    let ki = lifetime_key_of(lifetimes, i);
    kj < ki || (kj == ki && j < i)
}

fn placement_is_free(
    function: &MachineFunction,
    lifetimes: &Vec<Option<Lifetime>>,
    physical: &Vec<PhysicalUse>,
    bases: &Vec<u8>,
    allocated: &Vec<bool>,
    c: usize,
    base: u32,
) -> (r: bool)
    requires
        base <= 256,
        c < function.values@.len(),
        bases@.len() == function.values@.len(),
        allocated@.len() == function.values@.len(),
        lifetimes@.len() == function.values@.len(),
        forall|j: int|
            0 <= j < function.values@.len() ==> (#[trigger] allocated@[j] <==> (j != c && holds_before(
                *function,
                lifetimes@,
                j,
                c as int,
            ))),
    ensures
        r == placement_free(*function, lifetimes@, physical@, bases@, c as int, base as int),
{
    let ghost f = *function;
    let description = function.values[c];
    let lifetime = match lifetimes[c] {
        Some(lifetime) => lifetime,
        None => {
            return true;
        },
    };
    let n = function.values.len();
    let mut j: usize = 0;
    while j < n
        invariant
            f == *function,
            n == function.values@.len(),
            j <= n,
            base <= 256,
            c < n,
            description == function.values@[c as int],
            lifetimes@[c as int] == Some(lifetime),
            bases@.len() == n,
            allocated@.len() == n,
            lifetimes@.len() == n,
            forall|j2: int|
                0 <= j2 < n ==> (#[trigger] allocated@[j2] <==> (j2 != c && holds_before(
                    f,
                    lifetimes@,
                    j2,
                    c as int,
                ))),
            forall|j2: int|
                0 <= j2 < j && j2 != c && holds_before(f, lifetimes@, j2, c as int)
                    && function.values@[j2].register_class == description.register_class
                    && (#[trigger] lifetimes@[j2]) is Some && lifetime.spec_intersects(
                    lifetimes@[j2]->0,
                ) ==> !spec_overlaps(
                    base as int,
                    description.register_count as int,
                    bases@[j2] as int,
                    function.values@[j2].register_count as int,
                ),
        decreases n - j,
    {
        if allocated[j] && function.values[j].register_class == description.register_class {
            if let Some(other) = lifetimes[j] {
                if lifetime.intersects(other) && overlaps(
                    base,
                    description.register_count,
                    bases[j] as u32,
                    function.values[j].register_count,
                ) {
                    assert(allocated@[j as int]);
                    return false;
                }
            }
        }
        j = j + 1;
    }
    let mut p: usize = 0;
    while p < physical.len()
        invariant
            f == *function,
            p <= physical@.len(),
            base <= 256,
            description == function.values@[c as int],
            lifetimes@[c as int] == Some(lifetime),
            forall|p2: int|
                0 <= p2 < p && (#[trigger] physical@[p2]).register_class == description.register_class
                    && lifetime.start <= physical@[p2].point ==> !spec_overlaps(
                    base as int,
                    description.register_count as int,
                    physical@[p2].register as int,
                    physical@[p2].width as int,
                ),
        decreases physical@.len() - p,
    {
        let record = physical[p];
        if record.register_class == description.register_class && lifetime.start <= record.point
            && overlaps(base, description.register_count, record.register as u32, record.width) {
            return false;
        }
        p = p + 1;
    }
    true
}

proof fn lemma_lowest_stable<T: Target>(
    function: MachineFunction,
    target: &T,
    lifetimes: Seq<Option<Lifetime>>,
    physical: Seq<PhysicalUse>,
    bases: Seq<u8>,
    c: int,
    b: u8,
    j: int,
)
    requires
        0 <= c < bases.len(),
        0 <= j < bases.len(),
        bases.len() == function.values@.len(),
        lifetimes.len() == function.values@.len(),
        function.values@[c].fixed_register is None,
        function.values@[j].fixed_register is None,
        placed_before(lifetimes, j, c),
        lowest_free_base(function, target, lifetimes, physical, bases, j),
    ensures
        lowest_free_base(function, target, lifetimes, physical, bases.update(c, b), j),
{
    let updated = bases.update(c, b);
    assert(!holds_before(function, lifetimes, c, j));
    assert forall|base: int| #![trigger placement_free(function, lifetimes, physical, updated, j, base)]
        true implies placement_free(function, lifetimes, physical, updated, j, base)
        == placement_free(function, lifetimes, physical, bases, j, base) by {
        assert forall|i: int| 0 <= i < function.values@.len() && i != j && holds_before(function, lifetimes, i, j)
            implies updated[i] == bases[i] by {
        }
    }
}


/// Number of unfixed values among the first `m` that are not yet placed.
pub open spec fn unplaced(function: MachineFunction, allocated: Seq<bool>, m: int) -> nat
    decreases m,
{
    if m <= 0 {
        0
    } else {
        unplaced(function, allocated, m - 1) + if !allocated[m - 1]
            && function.values@[m - 1].fixed_register is None {
            1nat
        } else {
            0nat
        }
    }
}

proof fn lemma_unplaced_mark(function: MachineFunction, allocated: Seq<bool>, c: int, m: int)
    requires
        0 <= c < m,
        m <= allocated.len(),
        !allocated[c],
        function.values@[c].fixed_register is None,
    ensures
        unplaced(function, allocated.update(c, true), m) < unplaced(function, allocated, m),
    decreases m,
{
    if c < m - 1 {
        lemma_unplaced_mark(function, allocated, c, m - 1);
    } else {
        lemma_unplaced_same(function, allocated, c, m - 1);
    }
}

proof fn lemma_unplaced_same(function: MachineFunction, allocated: Seq<bool>, c: int, m: int)
    requires
        0 <= m <= c < allocated.len(),
    ensures
        unplaced(function, allocated.update(c, true), m) == unplaced(function, allocated, m),
    decreases m,
{
    if m > 0 {
        lemma_unplaced_same(function, allocated, c, m - 1);
    }
}

/// Places the fixed values at their ABI registers, rejecting simultaneously
/// live overlapping fixed values.
fn place_fixed(
    function: &MachineFunction,
    lifetimes: &Vec<Option<Lifetime>>,
    bases: &mut Vec<u8>,
    allocated: &mut Vec<bool>,
) -> (r: Result<(), RegisterAllocationError>)
    requires
        function.values@.len() <= u32::MAX,
        lifetimes@.len() == function.values@.len(),
        old(bases)@.len() == function.values@.len(),
        old(allocated)@.len() == function.values@.len(),
        forall|j: int| 0 <= j < function.values@.len() ==> !(#[trigger] old(allocated)@[j]),
    ensures
        final(bases)@.len() == function.values@.len(),
        final(allocated)@.len() == function.values@.len(),
        r is Ok ==> {
            &&& forall|j: int|
                0 <= j < function.values@.len() ==> (#[trigger] final(allocated)@[j]
                    <==> function.values@[j].fixed_register is Some)
            &&& forall|j: int|
                0 <= j < function.values@.len() && (#[trigger] function.values@[j]).fixed_register is Some
                    ==> final(bases)@[j] == function.values@[j].fixed_register->0
            &&& forall|j: int, i: int| !#[trigger] fixed_conflict(*function, lifetimes@, j, i)
        },
        r matches Err(e) ==> e matches RegisterAllocationError::ConflictingFixedRegisters { first, second }
            && fixed_conflict(*function, lifetimes@, first.0 as int, second.0 as int) && forall|
            j: int,
            i: int,
        | #[trigger] fixed_conflict(*function, lifetimes@, j, i) ==> second.0 < i || (second.0
            == i && first.0 <= j),
{
    let ghost f = *function;
    let n = function.values.len();
    let mut index: usize = 0;
    while index < n
        invariant
            f == *function,
            n == function.values@.len(),
            n <= u32::MAX,
            index <= n,
            lifetimes@.len() == n,
            bases@.len() == n,
            allocated@.len() == n,
            forall|j: int|
                0 <= j < n ==> (#[trigger] allocated@[j] <==> (j < index
                    && function.values@[j].fixed_register is Some)),
            forall|j: int|
                0 <= j < index && (#[trigger] function.values@[j]).fixed_register is Some ==> bases@[j]
                    == function.values@[j].fixed_register->0,
            forall|j: int, i: int| i < index ==> !#[trigger] fixed_conflict(f, lifetimes@, j, i),
        decreases n - index,
    {
        let description = function.values[index];
        if let Some(register) = description.fixed_register {
            bases.set(index, register);
            allocated.set(index, true);
            if let Some(lifetime) = lifetimes[index] {
                let mut earlier: usize = 0;
                while earlier < index
                    invariant
                        f == *function,
                        n == function.values@.len(),
                        n <= u32::MAX,
                        index < n,
                        earlier <= index,
                        description == function.values@[index as int],
                        description.fixed_register == Some(register),
                        lifetimes@[index as int] == Some(lifetime),
                        lifetimes@.len() == n,
                        bases@.len() == n,
                        allocated@.len() == n,
                        forall|j: int|
                            0 <= j < index && (#[trigger] function.values@[j]).fixed_register is Some
                                ==> bases@[j] == function.values@[j].fixed_register->0,
                        forall|j: int| 0 <= j < earlier ==> !#[trigger] fixed_conflict(f, lifetimes@, j, index as int),
                        forall|j: int, i: int| i < index ==> !#[trigger] fixed_conflict(f, lifetimes@, j, i),
                    decreases index - earlier,
                {
                    let other = function.values[earlier];
                    if other.register_class == description.register_class
                        && other.fixed_register.is_some() {
                        if let Some(other_lifetime) = lifetimes[earlier] {
                            if lifetime.intersects(other_lifetime) && overlaps(
                                register as u32,
                                description.register_count,
                                bases[earlier] as u32,
                                other.register_count,
                            ) {
                                proof {
                                    assert forall|j: int, i: int| #[trigger]
                                        fixed_conflict(f, lifetimes@, j, i) implies index < i || (
                                    index == i && earlier <= j) by {
                                        if i == index && j < earlier {
                                            assert(!fixed_conflict(f, lifetimes@, j, index as int));
                                        }
                                    }
                                }
                                return Err(
                                    RegisterAllocationError::ConflictingFixedRegisters {
                                        first: ValueId(earlier as u32),
                                        second: ValueId(index as u32),
                                    },
                                );
                            }
                        }
                    }
                    earlier = earlier + 1;
                }
            }
        }
        index = index + 1;
    }
    Ok(())
}

/// Searches the lowest free placement of unfixed value `c`.
fn lowest_base<T: Target>(
    function: &MachineFunction,
    target: &T,
    lifetimes: &Vec<Option<Lifetime>>,
    physical: &Vec<PhysicalUse>,
    bases: &Vec<u8>,
    allocated: &Vec<bool>,
    c: usize,
) -> (r: Option<u8>)
    requires
        c < function.values@.len(),
        function.values@[c as int].register_count > 0,
        bases@.len() == function.values@.len(),
        allocated@.len() == function.values@.len(),
        lifetimes@.len() == function.values@.len(),
        forall|j: int|
            0 <= j < function.values@.len() ==> (#[trigger] allocated@[j] <==> (j != c && holds_before(
                *function,
                lifetimes@,
                j,
                c as int,
            ))),
    ensures
        r matches Some(b) ==> lowest_free_base(*function, target, lifetimes@, physical@, bases@.update(c as int, b), c as int),
        r is None ==> no_free_base(*function, target, lifetimes@, physical@, bases@, c as int),
{
    let description = function.values[c];
    let (lower, upper) = register_bounds(target, description.register_class);
    let upper = if upper < 256 {
        upper
    } else {
        256
    };
    let count = description.register_count as u32;
    if upper < count {
        return None;
    }
    let last = upper - count;
    if lower > last {
        return None;
    }
    let mut base = lower;
    while base <= last
        invariant
            lower == class_bounds(target, description.register_class).0,
            last + count == class_end(target, description.register_class),
            count == description.register_count,
            count > 0,
            description == function.values@[c as int],
            last <= 255,
            lower <= base <= last + 1,
            c < function.values@.len(),
            bases@.len() == function.values@.len(),
            allocated@.len() == function.values@.len(),
            lifetimes@.len() == function.values@.len(),
            forall|j: int|
                0 <= j < function.values@.len() ==> (#[trigger] allocated@[j] <==> (j != c && holds_before(
                    *function,
                    lifetimes@,
                    j,
                    c as int,
                ))),
            forall|b: int|
                lower <= b < base ==> !#[trigger] placement_free(
                    *function,
                    lifetimes@,
                    physical@,
                    bases@,
                    c as int,
                    b,
                ),
        decreases last + 1 - base,
    {
        if placement_is_free(function, lifetimes, physical, bases, allocated, c, base) {
            let chosen = base as u8;
            proof {
                let updated = bases@.update(c as int, chosen);
                assert forall|b: int| #![trigger placement_free(*function, lifetimes@, physical@, updated, c as int, b)]
                    true implies placement_free(*function, lifetimes@, physical@, updated, c as int, b)
                    == placement_free(*function, lifetimes@, physical@, bases@, c as int, b) by {
                    assert forall|i: int| 0 <= i < function.values@.len() && i != c implies updated[i] == bases@[i] by {}
                }
            }
            return Some(chosen);
        }
        base = base + 1;
    }
    None
}


/// Picks the unplaced unfixed value that is placed first.
fn next_unplaced(
    function: &MachineFunction,
    lifetimes: &Vec<Option<Lifetime>>,
    allocated: &Vec<bool>,
) -> (r: Option<usize>)
    requires
        lifetimes@.len() == function.values@.len(),
        allocated@.len() == function.values@.len(),
    ensures
        r matches Some(c) ==> {
            &&& c < function.values@.len()
            &&& !allocated@[c as int]
            &&& function.values@[c as int].fixed_register is None
            &&& forall|j: int|
                0 <= j < function.values@.len() && j != c && !allocated@[j]
                    && (#[trigger] function.values@[j]).fixed_register is None ==> placed_before(
                    lifetimes@,
                    c as int,
                    j,
                )
        },
        r is None ==> forall|j: int|
            0 <= j < function.values@.len() && (#[trigger] function.values@[j]).fixed_register is None
                ==> allocated@[j],
{
    let n = function.values.len();
    let mut best: Option<usize> = None;
    let mut j: usize = 0;
    while j < n
        invariant
            n == function.values@.len(),
            j <= n,
            lifetimes@.len() == n,
            allocated@.len() == n,
            best matches Some(b) ==> b < j && !allocated@[b as int]
                && function.values@[b as int].fixed_register is None && forall|j2: int|
                0 <= j2 < j && j2 != b && !allocated@[j2]
                    && (#[trigger] function.values@[j2]).fixed_register is None ==> placed_before(
                    lifetimes@,
                    b as int,
                    j2,
                ),
            best is None ==> forall|j2: int|
                0 <= j2 < j && (#[trigger] function.values@[j2]).fixed_register is None
                    ==> allocated@[j2],
        decreases n - j,
    {
        if !allocated[j] && function.values[j].fixed_register.is_none() {
            match best {
                Some(b) => {
                    if is_placed_before(lifetimes, j, b) {
                        best = Some(j);
                    }
                },
                None => {
                    best = Some(j);
                },
            }
        }
        j = j + 1;
    }
    best
}

/// Chooses the registers of every value under the given liveness.
fn assign_registers<T: Target>(
    function: &MachineFunction,
    target: &T,
    lifetimes: &Vec<Option<Lifetime>>,
    physical: &Vec<PhysicalUse>,
) -> (r: Result<Vec<u8>, RegisterAllocationError>)
    requires
        function.values@.len() <= u32::MAX,
        lifetimes@.len() == function.values@.len(),
        forall|v: int|
            0 <= v < function.values@.len() ==> (#[trigger] function.values@[v]).register_count > 0,
    ensures
        r matches Ok(bases) ==> allocation_chosen(*function, target, lifetimes@, physical@, bases@),
        r matches Err(e) ==> assignment_failure(*function, target, lifetimes@, physical@, e),
{
    let ghost f = *function;
    let n = function.values.len();
    let mut bases: Vec<u8> = Vec::new();
    let mut allocated: Vec<bool> = Vec::new();
    let mut index: usize = 0;
    while index < n
        invariant
            n == function.values@.len(),
            index <= n,
            bases@.len() == index,
            allocated@.len() == index,
            forall|j: int| 0 <= j < index ==> !(#[trigger] allocated@[j]),
        decreases n - index,
    {
        bases.push(0);
        allocated.push(false);
        index = index + 1;
    }
    place_fixed(function, lifetimes, &mut bases, &mut allocated)?;
    proof {
        assert forall|i: int, j: int|
            0 <= j < i < f.values@.len() && (#[trigger] f.values@[i]).fixed_register is Some
                && (#[trigger] f.values@[j]).fixed_register is Some
                && f.values@[i].register_class == f.values@[j].register_class
                && lifetimes@[i] is Some && lifetimes@[j] is Some && lifetimes@[i]->0.spec_intersects(
                lifetimes@[j]->0,
            ) implies !spec_overlaps(
                bases@[i] as int,
                f.values@[i].register_count as int,
                bases@[j] as int,
                f.values@[j].register_count as int,
            ) by {
            assert(!fixed_conflict(f, lifetimes@, j, i));
        }
    }
    let mut last: Option<usize> = None;
    loop
        invariant
            f == *function,
            n == function.values@.len(),
            n <= u32::MAX,
            lifetimes@.len() == n,
            bases@.len() == n,
            allocated@.len() == n,
            forall|v: int| 0 <= v < n ==> (#[trigger] function.values@[v]).register_count > 0,
            forall|j: int|
                0 <= j < n && (#[trigger] function.values@[j]).fixed_register is Some ==> allocated@[j],
            fixed_placement(f, lifetimes@, bases@),
            forall|j: int, i: int| !#[trigger] fixed_conflict(f, lifetimes@, j, i),
            last matches Some(l) ==> l < n && function.values@[l as int].fixed_register is None,
            forall|j: int|
                0 <= j < n && (#[trigger] function.values@[j]).fixed_register is None ==> (
                allocated@[j] <==> (last matches Some(l) && (j == l || placed_before(
                    lifetimes@,
                    j,
                    l as int,
                )))),
            forall|j: int|
                0 <= j < n && (#[trigger] function.values@[j]).fixed_register is None && allocated@[j]
                    ==> lowest_free_base(f, target, lifetimes@, physical@, bases@, j),
        ensures
            allocation_chosen(f, target, lifetimes@, physical@, bases@),
        decreases unplaced(f, allocated@, n as int),
    {
        let c = match next_unplaced(function, lifetimes, &allocated) {
            Some(c) => c,
            None => {
                break ;
            },
        };
        proof {
            assert forall|j: int| 0 <= j < n implies (#[trigger] allocated@[j] <==> (j != c
                && holds_before(f, lifetimes@, j, c as int))) by {
                if function.values@[j].fixed_register is None && j != c {
                    if allocated@[j] {
                        let l = last->0 as int;
                        if j != l {
                            assert(placed_before(lifetimes@, j, l));
                        }
                        assert(!(c as int == l || placed_before(lifetimes@, c as int, l)));
                        assert(placed_before(lifetimes@, l, c as int));
                    }
                }
            }
        }
        let chosen = match lowest_base(function, target, lifetimes, physical, &bases, &allocated, c) {
            Some(b) => b,
            None => {
                proof {
                    assert(placed_up_to(f, target, lifetimes@, physical@, bases@, c as int));
                    assert(no_free_base(f, target, lifetimes@, physical@, bases@, c as int));
                }
                return Err(RegisterAllocationError::RegistersExhausted(ValueId(c as u32)));
            },
        };
        let ghost before = bases@;
        let ghost before_allocated = allocated@;
        bases.set(c, chosen);
        allocated.set(c, true);
        proof {
            lemma_unplaced_mark(f, before_allocated, c as int, n as int);
            assert forall|j: int|
                0 <= j < n && (#[trigger] function.values@[j]).fixed_register is None && allocated@[j]
                    implies lowest_free_base(f, target, lifetimes@, physical@, bases@, j) by {
                if j != c {
                    lemma_lowest_stable(f, target, lifetimes@, physical@, before, c as int, chosen, j);
                }
            }
        }
        last = Some(c);
    }
    Ok(bases)
}


/// The allocations `allocate_registers` may return for `function`: the
/// allocation chosen under the function's liveness and its raw physical
/// reads moved over their loops.
pub open spec fn allocates<T: Target>(function: MachineFunction, target: &T, bases: Seq<u8>) -> bool {
    exists|scan: Seq<PhysicalUse>|
        lifetimes_describe(function, liveness(function)) && physical_scanned(function, scan)
            && physical_reads_describe(
            function,
            uses_over_loops(function, scan, function.instructions@.len() as int),
        ) && #[trigger] allocation_chosen(
            function,
            target,
            liveness(function),
            uses_over_loops(function, scan, function.instructions@.len() as int),
            bases,
        )
}

/// The errors `allocate_registers` may report for a well-formed function.
pub open spec fn fails_to_assign<T: Target>(
    function: MachineFunction,
    target: &T,
    error: RegisterAllocationError,
) -> bool {
    exists|scan: Seq<PhysicalUse>|
        lifetimes_describe(function, liveness(function)) && physical_scanned(function, scan)
            && physical_reads_describe(
            function,
            uses_over_loops(function, scan, function.instructions@.len() as int),
        ) && #[trigger] assignment_failure(
            function,
            target,
            liveness(function),
            uses_over_loops(function, scan, function.instructions@.len() as int),
            error,
        )
}

/// Allocate every value, reserving fixed ABI registers for their entire live
/// range and raw physical source registers from entry until their last use.
/// The lowest available contiguous block is chosen in instruction/value order.
/// No spilling occurs; an impossible assignment returns an explicit error.
pub fn allocate_registers<T: Target>(function: &MachineFunction, target: &T) -> (r: Result<
    Allocation,
    RegisterAllocationError,
>)
    requires
        function.instructions@.len() < usize::MAX / 4,
        function.values@.len() <= u32::MAX,
    ensures
        r matches Ok(allocation) ==> well_formed(*function, target) && allocates(
            *function,
            target,
            allocation.bases@,
        ),
        r matches Err(e) ==> if well_formed(*function, target) {
            fails_to_assign(*function, target, e)
        } else {
            malformation(*function, target, e)
        },
        forall|i: int|
            #[trigger] first_bad_value(*function, target, i) ==> r == Err::<
                Allocation,
                RegisterAllocationError,
            >(value_error(function.values@[i], ValueId(i as u32))),
        first_malformation(*function, target) is None <==> well_formed(*function, target),
        first_malformation(*function, target) matches Some(e) ==> r == Err::<
            Allocation,
            RegisterAllocationError,
        >(e),
{
    match check_values(function, target) {
        Ok(()) => {},
        Err(e) => {
            return Err(e);
        },
    }
    let (lifetimes, physical) = match compute_liveness(function, target) {
        Ok(liveness) => liveness,
        Err(e) => {
            return Err(e);
        },
    };
    let ghost scan = choose|scan: Seq<PhysicalUse>|
        #[trigger] physical_scanned(*function, scan) && physical@ == uses_over_loops(
            *function,
            scan,
            function.instructions@.len() as int,
        );
    proof {
        assert(well_formed(*function, target));
    }
    match assign_registers(function, target, &lifetimes, &physical) {
        Ok(bases) => {
            proof {
                assert(allocation_chosen(*function, target, lifetimes@, physical@, bases@));
            }
            Ok(Allocation { bases })
        },
        Err(e) => {
            proof {
                assert(assignment_failure(*function, target, lifetimes@, physical@, e));
            }
            Err(e)
        },
    }
}

/// Values of one register class whose lifetimes under the allocator's
/// liveness intersect (a value read around a loop lives through the
/// backward branch) never share a register.
pub proof fn lemma_overlapping_lifetimes_do_not_share_registers<T: Target>(
    function: MachineFunction,
    target: &T,
    bases: Seq<u8>,
    i: int,
    j: int,
)
    requires
        allocates(function, target, bases),
        0 <= i < function.values@.len(),
        0 <= j < function.values@.len(),
        i != j,
        function.values@[i].register_class == function.values@[j].register_class,
        liveness(function)[i] is Some,
        liveness(function)[j] is Some,
        liveness(function)[i]->0.spec_intersects(liveness(function)[j]->0),
    ensures
        !spec_overlaps(
            bases[i] as int,
            function.values@[i].register_count as int,
            bases[j] as int,
            function.values@[j].register_count as int,
        ),
{
    let scan = choose|scan: Seq<PhysicalUse>|
        lifetimes_describe(function, liveness(function)) && physical_scanned(function, scan)
            && physical_reads_describe(
            function,
            uses_over_loops(function, scan, function.instructions@.len() as int),
        ) && #[trigger] allocation_chosen(
            function,
            target,
            liveness(function),
            uses_over_loops(function, scan, function.instructions@.len() as int),
            bases,
        );
    let lifetimes = liveness(function);
    let physical = uses_over_loops(function, scan, function.instructions@.len() as int);
    let vi = function.values@[i];
    let vj = function.values@[j];
    if vi.fixed_register is Some && vj.fixed_register is Some {
        if j < i {
            assert(vi.fixed_register is Some);
        } else {
            assert(vj.fixed_register is Some);
        }
    } else if vi.fixed_register is None && (vj.fixed_register is Some || placed_before(lifetimes, j, i)) {
        assert(lowest_free_base(function, target, lifetimes, physical, bases, i));
        assert(holds_before(function, lifetimes, j, i));
    } else {
        assert(vj.fixed_register is None);
        assert(lowest_free_base(function, target, lifetimes, physical, bases, j));
        assert(holds_before(function, lifetimes, i, j));
    }
}

/// Value `v` is live at `point`: it is accessed at or before and at or
/// after that point.
pub open spec fn live_at(function: MachineFunction, v: int, point: int) -> bool {
    exists|first: int, last: int|
        first <= point <= last && #[trigger] occurs(function, ValueId(v as u32), first) && #[trigger] occurs(
            function,
            ValueId(v as u32),
            last,
        )
}

/// Values of one register class that are live at a common program point
/// never share a register.
pub proof fn lemma_live_values_do_not_share_registers<T: Target>(
    function: MachineFunction,
    target: &T,
    bases: Seq<u8>,
    i: int,
    j: int,
    point: int,
)
    requires
        allocates(function, target, bases),
        0 <= i < function.values@.len(),
        0 <= j < function.values@.len(),
        function.values@.len() <= u32::MAX,
        i != j,
        function.values@[i].register_class == function.values@[j].register_class,
        live_at(function, i, point),
        live_at(function, j, point),
    ensures
        !spec_overlaps(
            bases[i] as int,
            function.values@[i].register_count as int,
            bases[j] as int,
            function.values@[j].register_count as int,
        ),
{
    let scan = choose|scan: Seq<PhysicalUse>|
        lifetimes_describe(function, liveness(function)) && physical_scanned(function, scan)
            && physical_reads_describe(
            function,
            uses_over_loops(function, scan, function.instructions@.len() as int),
        ) && #[trigger] allocation_chosen(
            function,
            target,
            liveness(function),
            uses_over_loops(function, scan, function.instructions@.len() as int),
            bases,
        );
    let lifetimes = liveness(function);
    let physical = uses_over_loops(function, scan, function.instructions@.len() as int);
    let (fi, li) = choose|first: int, last: int|
        first <= point <= last && #[trigger] occurs(function, ValueId(i as u32), first) && #[trigger] occurs(
            function,
            ValueId(i as u32),
            last,
        );
    let (fj, lj) = choose|first: int, last: int|
        first <= point <= last && #[trigger] occurs(function, ValueId(j as u32), first) && #[trigger] occurs(
            function,
            ValueId(j as u32),
            last,
        );
    assert(lifetimes[i] is Some) by {
        if lifetimes[i] is None {
            assert(occurs_before(function, ValueId(i as u32), fi, function.instructions@.len() as int));
        }
    }
    assert(lifetimes[j] is Some) by {
        if lifetimes[j] is None {
            assert(occurs_before(function, ValueId(j as u32), fj, function.instructions@.len() as int));
        }
    }
    assert(lifetimes[i]->0.spec_intersects(lifetimes[j]->0));
    let vi = function.values@[i];
    let vj = function.values@[j];
    if vi.fixed_register is Some && vj.fixed_register is Some {
        if j < i {
            assert(vi.fixed_register is Some);
        } else {
            assert(vj.fixed_register is Some);
        }
    } else if vi.fixed_register is None && (vj.fixed_register is Some || placed_before(lifetimes, j, i)) {
        assert(lowest_free_base(function, target, lifetimes, physical, bases, i));
        assert(holds_before(function, lifetimes, j, i));
    } else {
        assert(vj.fixed_register is None);
        assert(lowest_free_base(function, target, lifetimes, physical, bases, j));
        assert(holds_before(function, lifetimes, i, j));
    }
}

/// One physical read record after the backward branches among the first
/// `k` instructions have moved it over their loops.
pub open spec fn record_over_loops(function: MachineFunction, record: PhysicalUse, k: int) -> PhysicalUse
    decreases k,
{
    if k <= 0 {
        record
    } else {
        let before = record_over_loops(function, record, k - 1);
        match loop_head(function, k - 1) {
            Some(j) => use_extended(before, 2 * j, 2 * (k - 1)),
            None => before,
        }
    }
}

proof fn lemma_uses_over_loops_pointwise(function: MachineFunction, records: Seq<PhysicalUse>, k: int)
    ensures
        uses_over_loops(function, records, k).len() == records.len(),
        forall|p: int|
            0 <= p < records.len() ==> #[trigger] uses_over_loops(function, records, k)[p]
                == record_over_loops(function, records[p], k),
    decreases k,
{
    if k > 0 {
        lemma_uses_over_loops_pointwise(function, records, k - 1);
    }
}

/// `record` is one of `records`.
pub open spec fn record_among(records: Seq<PhysicalUse>, record: PhysicalUse) -> bool {
    exists|q: int| 0 <= q < records.len() && #[trigger] records[q] == record
}

/// Every record of `first` is also a record of `second`.
pub open spec fn records_within(first: Seq<PhysicalUse>, second: Seq<PhysicalUse>) -> bool {
    forall|p: int| 0 <= p < first.len() ==> #[trigger] record_among(second, first[p])
}

/// Two scans of the raw physical reads hold the same records, and so do
/// their records moved over the loops.
proof fn lemma_scans_agree(function: MachineFunction, first: Seq<PhysicalUse>, second: Seq<PhysicalUse>)
    requires
        physical_scanned(function, first),
        physical_scanned(function, second),
    ensures
        records_within(
            uses_over_loops(function, first, function.instructions@.len() as int),
            uses_over_loops(function, second, function.instructions@.len() as int),
        ),
{
    let n = function.instructions@.len() as int;
    lemma_uses_over_loops_pointwise(function, first, n);
    lemma_uses_over_loops_pointwise(function, second, n);
    let moved_first = uses_over_loops(function, first, n);
    let moved_second = uses_over_loops(function, second, n);
    assert forall|p: int| 0 <= p < moved_first.len() implies #[trigger] record_among(
        moved_second,
        moved_first[p],
    ) by {
        assert(record_at_read_point(function, first, p));
        let (k, u) = choose|k: int, u: int|
            #[trigger] records_read(function, first[p], k, u) && first[p].point == 2 * k;
        reveal(records_read);
        assert(physical_read(function, k, u));
        assert(read_recorded(function, second, k, u));
        let q = choose|q: int|
            #[trigger] records_read(function, second[q], k, u) && 0 <= q < second.len()
                && second[q].point == 2 * k;
        assert(second[q] == first[p]);
        assert(moved_second[q] == moved_first[p]);
    }
    assert(records_within(moved_first, moved_second));
}

/// Where the values that hold registers before value `i` sit alike, and
/// the physical records are alike, placing `i` at `base` is free under the
/// one allocation exactly when it is under the other.
proof fn lemma_placement_agrees(
    function: MachineFunction,
    lifetimes: Seq<Option<Lifetime>>,
    first_records: Seq<PhysicalUse>,
    second_records: Seq<PhysicalUse>,
    first: Seq<u8>,
    second: Seq<u8>,
    i: int,
    base: int,
)
    requires
        records_within(first_records, second_records),
        records_within(second_records, first_records),
        forall|j: int|
            0 <= j < function.values@.len() && j != i && #[trigger] holds_before(function, lifetimes, j, i)
                ==> first[j] == second[j],
    ensures
        placement_free(function, lifetimes, first_records, first, i, base) == placement_free(
            function,
            lifetimes,
            second_records,
            second,
            i,
            base,
        ),
{
    let description = function.values@[i];
    match lifetimes[i] {
        None => {},
        Some(lifetime) => {
            if placement_free(function, lifetimes, first_records, first, i, base) {
                assert forall|p: int|
                    0 <= p < second_records.len() && (#[trigger] second_records[p]).register_class
                        == description.register_class && lifetime.start <= second_records[p].point
                        implies !spec_overlaps(
                    base,
                    description.register_count as int,
                    second_records[p].register as int,
                    second_records[p].width as int,
                ) by {
                    assert(record_among(first_records, second_records[p]));
                    let q = choose|q: int| 0 <= q < first_records.len() && #[trigger] first_records[q]
                        == second_records[p];
                }
            }
            if placement_free(function, lifetimes, second_records, second, i, base) {
                assert forall|p: int|
                    0 <= p < first_records.len() && (#[trigger] first_records[p]).register_class
                        == description.register_class && lifetime.start <= first_records[p].point
                        implies !spec_overlaps(
                    base,
                    description.register_count as int,
                    first_records[p].register as int,
                    first_records[p].width as int,
                ) by {
                    assert(record_among(second_records, first_records[p]));
                    let q = choose|q: int| 0 <= q < second_records.len() && #[trigger] second_records[q]
                        == first_records[p];
                }
            }
        },
    }
}

/// Every value placed no later than unfixed value `i` sits alike in two
/// allocations chosen under the same liveness and physical records.
proof fn lemma_placed_alike<T: Target>(
    function: MachineFunction,
    target: &T,
    lifetimes: Seq<Option<Lifetime>>,
    first_records: Seq<PhysicalUse>,
    second_records: Seq<PhysicalUse>,
    first: Seq<u8>,
    second: Seq<u8>,
    i: int,
)
    requires
        allocation_chosen(function, target, lifetimes, first_records, first),
        allocation_chosen(function, target, lifetimes, second_records, second),
        records_within(first_records, second_records),
        records_within(second_records, first_records),
        0 <= i < function.values@.len(),
        function.values@[i].fixed_register is None,
    ensures
        first[i] == second[i],
    decreases lifetime_key(lifetimes, i), i,
{
    assert forall|j: int|
        0 <= j < function.values@.len() && j != i && #[trigger] holds_before(function, lifetimes, j, i)
            implies first[j] == second[j] by {
        if function.values@[j].fixed_register is Some {
            assert(first[j] == function.values@[j].fixed_register->0);
        } else {
            assert(placed_before(lifetimes, j, i));
            assert(lifetime_key(lifetimes, j) >= 0);
            lemma_placed_alike(
                function,
                target,
                lifetimes,
                first_records,
                second_records,
                first,
                second,
                j,
            );
        }
    }
    assert(lowest_free_base(function, target, lifetimes, first_records, first, i));
    assert(lowest_free_base(function, target, lifetimes, second_records, second, i));
    let lower = class_bounds(target, function.values@[i].register_class).0;
    lemma_placement_agrees(
        function,
        lifetimes,
        first_records,
        second_records,
        first,
        second,
        i,
        first[i] as int,
    );
    lemma_placement_agrees(
        function,
        lifetimes,
        first_records,
        second_records,
        first,
        second,
        i,
        second[i] as int,
    );
    if first[i] < second[i] {
        assert(lower <= first[i] < second[i]);
        assert(!placement_free(function, lifetimes, second_records, second, i, first[i] as int));
    } else if second[i] < first[i] {
        assert(lower <= second[i] < first[i]);
        assert(!placement_free(function, lifetimes, first_records, first, i, second[i] as int));
    }
}

/// Allocation is deterministic: a function and target admit one allocation
/// at most.
pub proof fn lemma_allocation_is_determined<T: Target>(
    function: MachineFunction,
    target: &T,
    first: Seq<u8>,
    second: Seq<u8>,
)
    requires
        allocates(function, target, first),
        allocates(function, target, second),
    ensures
        first == second,
{
    let n = function.instructions@.len() as int;
    let first_scan = choose|scan: Seq<PhysicalUse>|
        lifetimes_describe(function, liveness(function)) && physical_scanned(function, scan)
            && physical_reads_describe(function, uses_over_loops(function, scan, n))
            && #[trigger] allocation_chosen(
            function,
            target,
            liveness(function),
            uses_over_loops(function, scan, n),
            first,
        );
    let second_scan = choose|scan: Seq<PhysicalUse>|
        lifetimes_describe(function, liveness(function)) && physical_scanned(function, scan)
            && physical_reads_describe(function, uses_over_loops(function, scan, n))
            && #[trigger] allocation_chosen(
            function,
            target,
            liveness(function),
            uses_over_loops(function, scan, n),
            second,
        );
    let first_records = uses_over_loops(function, first_scan, n);
    let second_records = uses_over_loops(function, second_scan, n);
    lemma_scans_agree(function, first_scan, second_scan);
    lemma_scans_agree(function, second_scan, first_scan);
    assert forall|i: int| 0 <= i < first.len() implies first[i] == second[i] by {
        if function.values@[i].fixed_register is Some {
            assert(first[i] == function.values@[i].fixed_register->0);
        } else {
            lemma_placed_alike(
                function,
                target,
                liveness(function),
                first_records,
                second_records,
                first,
                second,
                i,
            );
        }
    }
    assert(first =~= second);
}

/// Every unfixed value placed before value `bound` sits alike in two
/// partial placements up to `bound` under the same liveness and physical
/// records.
proof fn lemma_placed_alike_up_to<T: Target>(
    function: MachineFunction,
    target: &T,
    lifetimes: Seq<Option<Lifetime>>,
    first_records: Seq<PhysicalUse>,
    second_records: Seq<PhysicalUse>,
    first: Seq<u8>,
    second: Seq<u8>,
    bound: int,
    i: int,
)
    requires
        placed_up_to(function, target, lifetimes, first_records, first, bound),
        placed_up_to(function, target, lifetimes, second_records, second, bound),
        records_within(first_records, second_records),
        records_within(second_records, first_records),
        0 <= i < function.values@.len(),
        function.values@[i].fixed_register is None,
        placed_before(lifetimes, i, bound),
    ensures
        first[i] == second[i],
    decreases lifetime_key(lifetimes, i), i,
{
    assert forall|j: int|
        0 <= j < function.values@.len() && j != i && #[trigger] holds_before(function, lifetimes, j, i)
            implies first[j] == second[j] by {
        if function.values@[j].fixed_register is Some {
            assert(first[j] == function.values@[j].fixed_register->0);
            assert(second[j] == function.values@[j].fixed_register->0);
        } else {
            assert(placed_before(lifetimes, j, i));
            assert(placed_before(lifetimes, j, bound));
            assert(lifetime_key(lifetimes, j) >= 0);
            lemma_placed_alike_up_to(
                function,
                target,
                lifetimes,
                first_records,
                second_records,
                first,
                second,
                bound,
                j,
            );
        }
    }
    assert(lowest_free_base(function, target, lifetimes, first_records, first, i));
    assert(lowest_free_base(function, target, lifetimes, second_records, second, i));
    let lower = class_bounds(target, function.values@[i].register_class).0;
    lemma_placement_agrees(
        function,
        lifetimes,
        first_records,
        second_records,
        first,
        second,
        i,
        first[i] as int,
    );
    lemma_placement_agrees(
        function,
        lifetimes,
        first_records,
        second_records,
        first,
        second,
        i,
        second[i] as int,
    );
    if first[i] < second[i] {
        assert(lower <= first[i] < second[i]);
        assert(!placement_free(function, lifetimes, second_records, second, i, first[i] as int));
    } else if second[i] < first[i] {
        assert(lower <= second[i] < first[i]);
        assert(!placement_free(function, lifetimes, first_records, first, i, second[i] as int));
    }
}

/// A function and target that admit an allocation admit no assignment
/// failure: `allocate_registers` cannot both succeed and fail on them.
pub proof fn lemma_allocation_excludes_failure<T: Target>(
    function: MachineFunction,
    target: &T,
    bases: Seq<u8>,
    error: RegisterAllocationError,
)
    requires
        allocates(function, target, bases),
    ensures
        !fails_to_assign(function, target, error),
{
    if fails_to_assign(function, target, error) {
        let n = function.instructions@.len() as int;
        let lifetimes = liveness(function);
        let first_scan = choose|scan: Seq<PhysicalUse>|
            lifetimes_describe(function, liveness(function)) && physical_scanned(function, scan)
                && physical_reads_describe(function, uses_over_loops(function, scan, n))
                && #[trigger] allocation_chosen(
                function,
                target,
                liveness(function),
                uses_over_loops(function, scan, n),
                bases,
            );
        let second_scan = choose|scan: Seq<PhysicalUse>|
            lifetimes_describe(function, liveness(function)) && physical_scanned(function, scan)
                && physical_reads_describe(function, uses_over_loops(function, scan, n))
                && #[trigger] assignment_failure(
                function,
                target,
                liveness(function),
                uses_over_loops(function, scan, n),
                error,
            );
        let first_records = uses_over_loops(function, first_scan, n);
        let second_records = uses_over_loops(function, second_scan, n);
        lemma_scans_agree(function, first_scan, second_scan);
        lemma_scans_agree(function, second_scan, first_scan);
        match error {
            RegisterAllocationError::ConflictingFixedRegisters { first, second } => {
                let a = first.0 as int;
                let b = second.0 as int;
                assert(fixed_conflict(function, lifetimes, a, b));
                assert(function.values@[a].fixed_register is Some);
                assert(function.values@[b].fixed_register is Some);
            },
            RegisterAllocationError::RegistersExhausted(value) => {
                let v = value.0 as int;
                let partial = choose|partial: Seq<u8>|
                    placed_up_to(function, target, lifetimes, second_records, partial, v)
                        && #[trigger] no_free_base(function, target, lifetimes, second_records, partial, v);
                assert forall|j: int|
                    0 <= j < function.values@.len() && j != v && #[trigger] holds_before(
                        function,
                        lifetimes,
                        j,
                        v,
                    ) implies bases[j] == partial[j] by {
                    if function.values@[j].fixed_register is Some {
                        assert(bases[j] == function.values@[j].fixed_register->0);
                        assert(partial[j] == function.values@[j].fixed_register->0);
                    } else {
                        lemma_placed_alike_up_to(
                            function,
                            target,
                            lifetimes,
                            first_records,
                            second_records,
                            bases,
                            partial,
                            v,
                            j,
                        );
                    }
                }
                assert(lowest_free_base(function, target, lifetimes, first_records, bases, v));
                lemma_placement_agrees(
                    function,
                    lifetimes,
                    first_records,
                    second_records,
                    bases,
                    partial,
                    v,
                    bases[v] as int,
                );
                assert(!placement_free(function, lifetimes, second_records, partial, v, bases[v] as int));
            },
            _ => {},
        }
    }
}

/// Of two values, the one placed first cannot run out of registers when the
/// other was placed after it.
proof fn lemma_earlier_value_placed<T: Target>(
    function: MachineFunction,
    target: &T,
    lifetimes: Seq<Option<Lifetime>>,
    first_records: Seq<PhysicalUse>,
    second_records: Seq<PhysicalUse>,
    first: Seq<u8>,
    second: Seq<u8>,
    earlier: int,
    later: int,
)
    requires
        records_within(first_records, second_records),
        records_within(second_records, first_records),
        0 <= earlier < function.values@.len(),
        0 <= later < function.values@.len(),
        function.values@[earlier].fixed_register is None,
        placed_before(lifetimes, earlier, later),
        placed_up_to(function, target, lifetimes, first_records, first, earlier),
        placed_up_to(function, target, lifetimes, second_records, second, later),
    ensures
        !no_free_base(function, target, lifetimes, first_records, first, earlier),
{
    assert(placed_up_to(function, target, lifetimes, second_records, second, earlier));
    assert forall|j: int|
        0 <= j < function.values@.len() && j != earlier && #[trigger] holds_before(
            function,
            lifetimes,
            j,
            earlier,
        ) implies first[j] == second[j] by {
        if function.values@[j].fixed_register is Some {
            assert(first[j] == function.values@[j].fixed_register->0);
            assert(second[j] == function.values@[j].fixed_register->0);
        } else {
            lemma_placed_alike_up_to(
                function,
                target,
                lifetimes,
                first_records,
                second_records,
                first,
                second,
                earlier,
                j,
            );
        }
    }
    assert(lowest_free_base(function, target, lifetimes, second_records, second, earlier));
    lemma_placement_agrees(
        function,
        lifetimes,
        first_records,
        second_records,
        first,
        second,
        earlier,
        second[earlier] as int,
    );
}

/// Assignment failures are determined: a function and target admit one
/// failure at most, the first conflicting pair of fixed values (by second
/// value, then first) or else the first value in placement order that finds
/// no free registers.
pub proof fn lemma_failure_is_determined<T: Target>(
    function: MachineFunction,
    target: &T,
    first_error: RegisterAllocationError,
    second_error: RegisterAllocationError,
)
    requires
        fails_to_assign(function, target, first_error),
        fails_to_assign(function, target, second_error),
    ensures
        first_error == second_error,
{
    let n = function.instructions@.len() as int;
    let lifetimes = liveness(function);
    let first_scan = choose|scan: Seq<PhysicalUse>|
        lifetimes_describe(function, liveness(function)) && physical_scanned(function, scan)
            && physical_reads_describe(function, uses_over_loops(function, scan, n))
            && #[trigger] assignment_failure(
            function,
            target,
            liveness(function),
            uses_over_loops(function, scan, n),
            first_error,
        );
    let second_scan = choose|scan: Seq<PhysicalUse>|
        lifetimes_describe(function, liveness(function)) && physical_scanned(function, scan)
            && physical_reads_describe(function, uses_over_loops(function, scan, n))
            && #[trigger] assignment_failure(
            function,
            target,
            liveness(function),
            uses_over_loops(function, scan, n),
            second_error,
        );
    let first_records = uses_over_loops(function, first_scan, n);
    let second_records = uses_over_loops(function, second_scan, n);
    lemma_scans_agree(function, first_scan, second_scan);
    lemma_scans_agree(function, second_scan, first_scan);
    match (first_error, second_error) {
        (
            RegisterAllocationError::ConflictingFixedRegisters { first: a1, second: b1 },
            RegisterAllocationError::ConflictingFixedRegisters { first: a2, second: b2 },
        ) => {
            assert(fixed_conflict(function, lifetimes, a1.0 as int, b1.0 as int));
            assert(fixed_conflict(function, lifetimes, a2.0 as int, b2.0 as int));
        },
        (
            RegisterAllocationError::ConflictingFixedRegisters { first: a1, second: b1 },
            RegisterAllocationError::RegistersExhausted(_),
        ) => {
            assert(fixed_conflict(function, lifetimes, a1.0 as int, b1.0 as int));
        },
        (
            RegisterAllocationError::RegistersExhausted(_),
            RegisterAllocationError::ConflictingFixedRegisters { first: a2, second: b2 },
        ) => {
            assert(fixed_conflict(function, lifetimes, a2.0 as int, b2.0 as int));
        },
        (
            RegisterAllocationError::RegistersExhausted(value1),
            RegisterAllocationError::RegistersExhausted(value2),
        ) => {
            let v1 = value1.0 as int;
            let v2 = value2.0 as int;
            let partial1 = choose|partial: Seq<u8>|
                placed_up_to(function, target, lifetimes, first_records, partial, v1)
                    && #[trigger] no_free_base(function, target, lifetimes, first_records, partial, v1);
            let partial2 = choose|partial: Seq<u8>|
                placed_up_to(function, target, lifetimes, second_records, partial, v2)
                    && #[trigger] no_free_base(function, target, lifetimes, second_records, partial, v2);
            if v1 != v2 {
                if placed_before(lifetimes, v1, v2) {
                    lemma_earlier_value_placed(
                        function,
                        target,
                        lifetimes,
                        first_records,
                        second_records,
                        partial1,
                        partial2,
                        v1,
                        v2,
                    );
                } else {
                    assert(placed_before(lifetimes, v2, v1));
                    lemma_earlier_value_placed(
                        function,
                        target,
                        lifetimes,
                        second_records,
                        first_records,
                        partial2,
                        partial1,
                        v2,
                        v1,
                    );
                }
            }
        },
        _ => {},
    }
}

} // verus!
