//! GPU-specific ABI, register allocation results, and machine-code emission.
pub mod emission;
pub mod encoding;
pub mod expansion;
pub mod gfx10;
pub mod listing;

use vstd::prelude::*;

use crate::codegen::machine::{Instruction, MachineFunction, RegisterClass, ValueDescription};

pub use gfx10::{Gfx10, Gfx10Error};

verus! {

/// Calling convention and hardware entry state.
#[derive(Clone, Copy, PartialEq, Eq, Debug, Structural)]
pub enum ShaderStage {
    Vertex,
    Pixel,
}

/// Pixel barycentric interpolation input.
#[derive(Clone, Copy, PartialEq, Eq, Debug, Structural)]
pub enum InterpolationMode {
    Sample,
    Center,
    Centroid,
}

impl InterpolationMode {
    pub open spec fn spec_bits(self) -> u32 {
        match self {
            InterpolationMode::Sample => 1,
            InterpolationMode::Center => 2,
            InterpolationMode::Centroid => 4,
        }
    }

    /// The SPI_PS_INPUT_ENA bit enabling this input.
    #[verifier::when_used_as_spec(spec_bits)]
    pub fn bits(self) -> (r: u32)
        ensures
            r == self.spec_bits(),
    {
        match self {
            InterpolationMode::Sample => 1,
            InterpolationMode::Center => 2,
            InterpolationMode::Centroid => 4,
        }
    }
}

#[derive(Clone, Copy, PartialEq, Eq, Debug, Structural)]
pub enum ParameterLocation {
    Fixed(RegisterClass, u8),
    Unavailable,
}

#[derive(Clone, Copy, Debug)]
pub struct ParameterDescription {
    /// Number of 32-bit registers occupied by this parameter.
    pub size: u8,
    /// Whether the parameter has a vector LLVM type (not the register class).
    pub vector: bool,
}

#[derive(Clone, Debug)]
pub struct Signature {
    pub stage: ShaderStage,
    /// Parameters passed in scalar registers at the beginning of the signature.
    pub number_of_scalar_parameters: u32,
    pub parameters: Vec<ParameterDescription>,
}

/// Physical base register of each machine value, indexed by value id.
#[derive(Clone, Debug)]
pub struct Allocation {
    pub bases: Vec<u8>,
}

impl Default for Allocation {
    fn default() -> (r: Self)
        ensures
            r.bases@ == Seq::<u8>::empty(),
    {
        Allocation { bases: Vec::new() }
    }
}

/// Shader resources and hardware operations relevant to loader configuration.
#[derive(Clone, Copy, Debug)]
pub struct Summary {
    pub number_of_vector_registers: u32,
    pub number_of_scalar_registers: u32,
    pub uses_discard: bool,
    pub interpolation_modes: u32,
}

impl Default for Summary {
    fn default() -> (r: Self)
        ensures
            r.number_of_vector_registers == 0,
            r.number_of_scalar_registers == 0,
            !r.uses_discard,
            r.interpolation_modes == 0,
    {
        Summary {
            number_of_vector_registers: 0,
            number_of_scalar_registers: 0,
            uses_discard: false,
            interpolation_modes: 0,
        }
    }
}

/// The highest register end (`base + count`) over the first `n` allocated
/// values of `class`; zero when there is none.
pub open spec fn register_end(
    values: Seq<ValueDescription>,
    bases: Seq<u8>,
    class: RegisterClass,
    n: int,
) -> u32
    decreases n,
{
    if n <= 0 {
        0
    } else {
        let previous = register_end(values, bases, class, n - 1);
        if n - 1 < bases.len() && values[n - 1].register_class == class {
            let end = (bases[n - 1] + values[n - 1].register_count) as u32;
            if end > previous {
                end
            } else {
                previous
            }
        } else {
            previous
        }
    }
}

/// Instructions that may deactivate lanes (discard).
pub open spec fn is_discard(instruction: Instruction) -> bool {
    instruction is Kill || instruction is ZeroExecutionMask
        || instruction is AndExecutionMaskWithPredicate
}

impl Summary {
    pub fn from_function(function: &MachineFunction, allocation: &Allocation) -> (summary: Self)
        ensures
            summary.number_of_vector_registers == register_end(
                function.values@,
                allocation.bases@,
                RegisterClass::Vector,
                function.values@.len() as int,
            ),
            summary.number_of_scalar_registers == register_end(
                function.values@,
                allocation.bases@,
                RegisterClass::Scalar,
                function.values@.len() as int,
            ),
            summary.uses_discard == exists|k: int|
                0 <= k < function.instructions@.len() && is_discard(
                    #[trigger] function.instructions@[k],
                ),
            summary.interpolation_modes == (if exists|k: int|
                0 <= k < function.instructions@.len()
                    && (#[trigger] function.instructions@[k]) is Interpolate {
                InterpolationMode::Center.spec_bits()
            } else {
                0
            }),
    {
        let mut summary = Summary::default();
        let mut index: usize = 0;
        while index < function.values.len()
            invariant
                index <= function.values@.len(),
                summary.number_of_vector_registers == register_end(
                    function.values@,
                    allocation.bases@,
                    RegisterClass::Vector,
                    index as int,
                ),
                summary.number_of_scalar_registers == register_end(
                    function.values@,
                    allocation.bases@,
                    RegisterClass::Scalar,
                    index as int,
                ),
                !summary.uses_discard,
                summary.interpolation_modes == 0,
            decreases function.values@.len() - index,
        {
            if index < allocation.bases.len() {
                let base = allocation.bases[index];
                let value = &function.values[index];
                let end = base as u32 + value.register_count as u32;
                match value.register_class {
                    RegisterClass::Vector => {
                        if end > summary.number_of_vector_registers {
                            summary.number_of_vector_registers = end;
                        }
                    },
                    RegisterClass::Scalar => {
                        if end > summary.number_of_scalar_registers {
                            summary.number_of_scalar_registers = end;
                        }
                    },
                    // Special predicate VCC_LO does not consume the ordinary SGPR file.
                    RegisterClass::Predicate => {},
                }
            }
            index = index + 1;
        }
        let mut k: usize = 0;
        while k < function.instructions.len()
            invariant
                k <= function.instructions@.len(),
                summary.number_of_vector_registers == register_end(
                    function.values@,
                    allocation.bases@,
                    RegisterClass::Vector,
                    function.values@.len() as int,
                ),
                summary.number_of_scalar_registers == register_end(
                    function.values@,
                    allocation.bases@,
                    RegisterClass::Scalar,
                    function.values@.len() as int,
                ),
                summary.uses_discard == exists|j: int|
                    0 <= j < k && is_discard(#[trigger] function.instructions@[j]),
                summary.interpolation_modes == (if exists|j: int|
                    0 <= j < k && (#[trigger] function.instructions@[j]) is Interpolate {
                    2u32
                } else {
                    0u32
                }),
            decreases function.instructions@.len() - k,
        {
            match function.instructions[k] {
                Instruction::Kill { .. }
                | Instruction::ZeroExecutionMask
                | Instruction::AndExecutionMaskWithPredicate { .. } => {
                    summary.uses_discard = true;
                },
                Instruction::Interpolate { .. } => {
                    summary.interpolation_modes = summary.interpolation_modes
                        | InterpolationMode::Center.bits();
                    assert(0u32 | 2u32 == 2u32) by (bit_vector);
                    assert(2u32 | 2u32 == 2u32) by (bit_vector);
                },
                _ => {},
            }
            k = k + 1;
        }
        summary
    }
}

/// A GPU generation: its hardware ABI, register files, pseudo-instruction
/// expansion and machine encoding.
pub trait Target {
    /// Number of vector registers.
    spec fn vector_register_limit(&self) -> u32;

    /// Number of scalar registers.
    spec fn scalar_register_limit(&self) -> u32;

    /// Number of predicate registers.
    spec fn predicate_register_limit(&self) -> u32;

    /// Physical register number of the first predicate register.
    spec fn predicate_register_number(&self) -> u8;

    /// The processor name, such as `gfx1032`.
    spec fn processor(&self) -> Seq<char>;

    /// Lanes per wave.
    spec fn lanes(&self) -> u32;

    fn processor_name(&self) -> (r: &'static str)
        ensures
            r@ == self.processor(),
    ;

    fn wave_size(&self) -> (r: u32)
        ensures
            r == self.lanes(),
    ;

    fn maximum_vector_registers(&self) -> (r: u32)
        ensures
            r == self.vector_register_limit(),
    ;

    fn maximum_scalar_registers(&self) -> (r: u32)
        ensures
            r == self.scalar_register_limit(),
    ;

    fn maximum_predicate_registers(&self) -> (r: u32)
        ensures
            r == self.predicate_register_limit(),
    ;

    /// Physical register number used for the first predicate register.
    fn predicate_register_base(&self) -> (r: u8)
        ensures
            r == self.predicate_register_number(),
    ;

    /// Where the entry ABI places parameter `index`.
    spec fn parameter_placement(
        &self,
        stage: ShaderStage,
        scalar_parameters: u32,
        parameters: Seq<ParameterDescription>,
        index: u32,
    ) -> ParameterLocation;

    fn parameter_location(&self, signature: &Signature, index: u32) -> (r: ParameterLocation)
        ensures
            r == self.parameter_placement(
                signature.stage,
                signature.number_of_scalar_parameters,
                signature.parameters@,
                index,
            ),
    ;

    /// The vector registers holding the barycentric coordinates of `mode`.
    spec fn coordinate_registers(&self, mode: InterpolationMode) -> Option<(u8, u8)>;

    fn interpolation_coordinates(&self, mode: InterpolationMode) -> (r: Option<(u8, u8)>)
        ensures
            r == self.coordinate_registers(mode),
    ;

    /// The interpolation mode of perspective-correct varyings.
    spec fn perspective_interpolation(&self) -> InterpolationMode;

    fn perspective_mode(&self) -> (r: InterpolationMode)
        ensures
            r == self.perspective_interpolation(),
    ;

    /// Functions small enough to expand: value ids stay within `u32`.
    spec fn expandable(&self, values: Seq<ValueDescription>, instructions: Seq<Instruction>) -> bool;

    /// The outcome of expanding pseudo-instructions, and the values and
    /// instructions the function then holds.
    spec fn expanded(&self, values: Seq<ValueDescription>, instructions: Seq<Instruction>) -> (
        Result<(), Gfx10Error>,
        Seq<ValueDescription>,
        Seq<Instruction>,
    );

    fn expand_pseudo_instructions(&self, function: &mut MachineFunction) -> (r: Result<(), Gfx10Error>)
        requires
            self.expandable(old(function).values@, old(function).instructions@),
        ensures
            (r, final(function).values@, final(function).instructions@) == self.expanded(
                old(function).values@,
                old(function).instructions@,
            ),
    ;

    /// Functions whose encoding reads only known values from the value table.
    spec fn encodable(&self, function: MachineFunction) -> bool;

    /// The machine code of a register-allocated function.
    spec fn machine_code(&self, function: MachineFunction, bases: Seq<u8>) -> Result<
        Seq<u8>,
        Gfx10Error,
    >;

    fn encode_function(&self, function: &MachineFunction, allocation: &Allocation) -> (r: Result<
        Vec<u8>,
        Gfx10Error,
    >)
        requires
            self.encodable(*function),
        ensures
            match self.machine_code(*function, allocation.bases@) {
                Ok(code) => r matches Ok(bytes) && bytes@ == code,
                Err(e) => r == Err::<Vec<u8>, Gfx10Error>(e),
            },
    ;

    /// Instructions whose listing reads only known values.
    spec fn listable_instruction(&self, function: MachineFunction, index: usize) -> bool;

    /// The assembly listing of instruction `index`.
    spec fn instruction_text(&self, function: MachineFunction, bases: Seq<u8>, index: usize) -> Seq<
        char,
    >;

    fn format_instruction(&self, function: &MachineFunction, allocation: &Allocation, index: usize) -> (r:
        String)
        requires
            self.listable_instruction(*function, index),
        ensures
            r@ == self.instruction_text(*function, allocation.bases@, index),
    ;

    /// The loader registers and values for a shader of `stage`.
    spec fn loader_registers(&self, stage: ShaderStage, summary: Summary) -> Seq<(u32, u32)>;

    fn configuration(&self, stage: ShaderStage, summary: &Summary) -> (r: Vec<(u32, u32)>)
        ensures
            r@ == self.loader_registers(stage, *summary),
    ;
}

/// The GFX10.3 target for `processor`, if it names one.
pub fn for_processor(processor: &str) -> (r: Option<Gfx10>)
    ensures
        r is Some <==> gfx10::is_gfx103_processor(processor@),
        r matches Some(target) ==> target.name() == processor@,
{
    gfx10::for_processor(processor)
}

} // verus!
