//! GFX10.3 (RDNA2, wave32) ABI.
//! Export operands are read asynchronously; emission waits before reusing their
//! VGPRs or changing EXEC, and drains exports at control-flow boundaries.
use vstd::prelude::*;

use crate::codegen::machine::{
    FloatBinaryOperation, FloatComparisonKind, Instruction, MachineFunction, Operand,
    RegisterClass, ValueDescription, ValueId, ValuePurpose,
};
use crate::codegen::targets::emission::{destinations_known, function_code};
use crate::codegen::targets::encoding::Source;
use crate::codegen::targets::expansion::expansion;
use crate::codegen::targets::listing::{instruction_listing, listable};
use crate::codegen::targets::{
    Allocation, InterpolationMode, ParameterDescription, ParameterLocation, ShaderStage, Signature,
    Summary, Target,
};
use crate::text::str_equals;

verus! {

#[derive(Debug, PartialEq, Eq)]
pub enum Gfx10Error {
    Unsupported(&'static str),
    MultipleLiterals,
    ImmediateRange,
    Malformed(&'static str),
}

pub const VCC_LO: u8 = 106;

pub const M0: u8 = 124;

pub const NULL: u8 = 125;

pub const EXEC_LO: u8 = 126;

pub const EXP_NULL: u32 = 9;

pub const EXP_POS0: u32 = 12;

pub const SPI_SHADER_PGM_RSRC1_VS: u32 = 0xb128;

pub const SPI_SHADER_PGM_RSRC1_PS: u32 = 0xb028;

pub const SPI_SHADER_PGM_RSRC2_PS: u32 = 0xb02c;

pub const SPI_TMPRING_SIZE: u32 = 0x286e8;

pub const SPI_PS_INPUT_ENA: u32 = 0x286cc;

pub const SPI_PS_INPUT_ADDR: u32 = 0x286d0;

#[derive(Clone, Copy, Debug)]
pub struct Gfx10 {
    processor_name: &'static str,
}

impl Gfx10 {
    pub closed spec fn name(self) -> Seq<char> {
        self.processor_name@
    }
}

/// The GFX10.3 processor named by the low byte of an IP discovery version.
pub open spec fn gfx103_name(ip_discovery_version: u32) -> Seq<char> {
    let minor = ip_discovery_version & 0xff;
    if minor == 1 {
        "gfx1033"@
    } else if minor == 2 {
        "gfx1031"@
    } else if minor == 3 {
        "gfx1035"@
    } else if minor == 4 {
        "gfx1032"@
    } else if minor == 5 {
        "gfx1034"@
    } else if minor == 6 {
        "gfx1036"@
    } else if minor == 7 {
        "gfx1037"@
    } else {
        "gfx1030"@
    }
}

pub fn gfx103_processor(ip_discovery_version: u32) -> (r: &'static str)
    ensures
        r@ == gfx103_name(ip_discovery_version),
{
    match ip_discovery_version & 0xff {
        1 => "gfx1033",
        2 => "gfx1031",
        3 => "gfx1035",
        4 => "gfx1032",
        5 => "gfx1034",
        6 => "gfx1036",
        7 => "gfx1037",
        _ => "gfx1030",
    }
}

/// The GFX10.3 processors this target encodes for.
pub open spec fn is_gfx103_processor(name: Seq<char>) -> bool {
    name == "gfx1030"@ || name == "gfx1031"@ || name == "gfx1032"@ || name == "gfx1033"@ || name
        == "gfx1034"@ || name == "gfx1035"@ || name == "gfx1036"@ || name == "gfx1037"@
}

/// Every IP discovery version names a processor this target encodes for.
pub proof fn lemma_discovered_processor_supported(ip_discovery_version: u32)
    ensures
        is_gfx103_processor(gfx103_name(ip_discovery_version)),
{
}

pub fn for_processor(processor: &str) -> (r: Option<Gfx10>)
    ensures
        r is Some <==> is_gfx103_processor(processor@),
        r matches Some(target) ==> target.name() == processor@,
{
    let names = [
        "gfx1030",
        "gfx1031",
        "gfx1032",
        "gfx1033",
        "gfx1034",
        "gfx1035",
        "gfx1036",
        "gfx1037",
    ];
    let mut i: usize = 0;
    while i < 8
        invariant
            i <= 8,
            names@ == seq![
                "gfx1030",
                "gfx1031",
                "gfx1032",
                "gfx1033",
                "gfx1034",
                "gfx1035",
                "gfx1036",
                "gfx1037",
            ],
            forall|j: int| 0 <= j < i ==> processor@ != (#[trigger] names@[j])@,
        decreases 8 - i,
    {
        if str_equals(processor, names[i]) {
            return Some(Gfx10 { processor_name: names[i] });
        }
        i = i + 1;
    }
    assert(!is_gfx103_processor(processor@)) by {
        assert(processor@ != names@[0]@);
        assert(processor@ != names@[1]@);
        assert(processor@ != names@[2]@);
        assert(processor@ != names@[3]@);
        assert(processor@ != names@[4]@);
        assert(processor@ != names@[5]@);
        assert(processor@ != names@[6]@);
        assert(processor@ != names@[7]@);
    }
    None
}

/// The registers occupied by parameters `from..to`.
pub open spec fn parameter_registers(parameters: Seq<ParameterDescription>, from: int, to: int) -> int
    decreases to - from,
{
    if to <= from {
        0
    } else {
        parameter_registers(parameters, from, to - 1) + parameters[to - 1].size
    }
}

/// A fixed location whose base must fit a register number.
pub open spec fn fixed_at(class: RegisterClass, base: int) -> ParameterLocation {
    if base > 255 {
        ParameterLocation::Unavailable
    } else {
        ParameterLocation::Fixed(class, base as u8)
    }
}

/// The GFX10.3 entry ABI: scalar parameters fill s0 upwards; vertex inputs
/// fill v0 upwards; a pixel shader's only vector parameter is the
/// perspective-center barycentric pair, parameter one after the scalars.
pub open spec fn gfx10_parameter_location(
    stage: ShaderStage,
    scalar_parameters: u32,
    parameters: Seq<ParameterDescription>,
    index: u32,
) -> ParameterLocation {
    if index >= parameters.len() {
        ParameterLocation::Unavailable
    } else if index < scalar_parameters {
        fixed_at(RegisterClass::Scalar, parameter_registers(parameters, 0, index as int))
    } else {
        match stage {
            ShaderStage::Vertex => fixed_at(
                RegisterClass::Vector,
                parameter_registers(parameters, scalar_parameters as int, index as int),
            ),
            ShaderStage::Pixel => if index - scalar_parameters == 1 {
                ParameterLocation::Fixed(RegisterClass::Vector, 0)
            } else {
                ParameterLocation::Unavailable
            },
        }
    }
}

/// The VGPR allocation granule count minus one, for `vector_registers`
/// registers (at least one, and two for a pixel shader).
pub open spec fn vgpr_blocks(stage: ShaderStage, vector_registers: u32) -> u32 {
    let minimum: u32 = if stage == ShaderStage::Pixel {
        2
    } else {
        1
    };
    let registers = if vector_registers > minimum {
        vector_registers
    } else {
        minimum
    };
    ((registers + 7) / 8 - 1) as u32
}

/// The VGPR granules cover the vector registers a shader uses, with less
/// than one granule to spare.
pub proof fn lemma_vgpr_blocks_cover(stage: ShaderStage, vector_registers: u32)
    ensures
        (vgpr_blocks(stage, vector_registers) + 1) * 8 >= vector_registers,
        vector_registers >= 2 ==> (vgpr_blocks(stage, vector_registers) + 1) * 8
            < vector_registers + 8,
{
}

/// The loader register values of a GFX10.3 shader.
pub open spec fn gfx10_configuration(stage: ShaderStage, summary: Summary) -> Seq<(u32, u32)> {
    let resources = seq![
        (
            if stage == ShaderStage::Vertex {
                SPI_SHADER_PGM_RSRC1_VS
            } else {
                SPI_SHADER_PGM_RSRC1_PS
            },
            vgpr_blocks(stage, summary.number_of_vector_registers),
        ),
        (SPI_TMPRING_SIZE, 0u32),
    ];
    let pixel_inputs = if stage == ShaderStage::Pixel {
        seq![(SPI_SHADER_PGM_RSRC2_PS, 0u32), (SPI_PS_INPUT_ENA, 2u32), (SPI_PS_INPUT_ADDR, 2u32)]
    } else {
        seq![]
    };
    resources + pixel_inputs + seq![(4u32, 0u32), (8u32, 0u32)]
}

/// The register base of parameters `from..to`, when it fits a register number.
fn parameter_base(parameters: &Vec<ParameterDescription>, from: usize, to: usize) -> (r: Option<u8>)
    requires
        from <= to <= parameters@.len(),
    ensures
        r == (if parameter_registers(parameters@, from as int, to as int) > 255 {
            None::<u8>
        } else {
            Some(parameter_registers(parameters@, from as int, to as int) as u8)
        }),
{
    let mut sum: u32 = 0;
    let mut k: usize = from;
    while k < to
        invariant
            from <= k <= to <= parameters@.len(),
            sum == parameter_registers(parameters@, from as int, k as int),
            sum <= 255,
        decreases to - k,
    {
        sum = sum + parameters[k].size as u32;
        if sum > 255 {
            proof {
                lemma_parameter_registers_grow(parameters@, from as int, k + 1, to as int);
            }
            return None;
        }
        k = k + 1;
    }
    Some(sum as u8)
}

/// Adding parameters never lowers the register count.
proof fn lemma_parameter_registers_grow(parameters: Seq<ParameterDescription>, from: int, k: int, to: int)
    requires
        from <= k <= to,
    ensures
        parameter_registers(parameters, from, k) <= parameter_registers(parameters, from, to),
    decreases to - k,
{
    if to > k {
        lemma_parameter_registers_grow(parameters, from, k, to - 1);
    }
}

impl Target for Gfx10 {
    open spec fn vector_register_limit(&self) -> u32 {
        256
    }

    open spec fn scalar_register_limit(&self) -> u32 {
        106
    }

    open spec fn predicate_register_limit(&self) -> u32 {
        1
    }

    open spec fn predicate_register_number(&self) -> u8 {
        VCC_LO
    }

    open spec fn processor(&self) -> Seq<char> {
        self.name()
    }

    /// GFX10.3 shaders run in wave32 mode.
    open spec fn lanes(&self) -> u32 {
        32
    }

    fn processor_name(&self) -> (r: &'static str) {
        self.processor_name
    }

    fn wave_size(&self) -> (r: u32) {
        32
    }

    fn maximum_vector_registers(&self) -> (r: u32) {
        256
    }

    fn maximum_scalar_registers(&self) -> (r: u32) {
        106
    }

    fn maximum_predicate_registers(&self) -> (r: u32) {
        1
    }

    fn predicate_register_base(&self) -> (r: u8) {
        VCC_LO
    }

    open spec fn parameter_placement(
        &self,
        stage: ShaderStage,
        scalar_parameters: u32,
        parameters: Seq<ParameterDescription>,
        index: u32,
    ) -> ParameterLocation {
        gfx10_parameter_location(stage, scalar_parameters, parameters, index)
    }

    fn parameter_location(&self, signature: &Signature, index: u32) -> (r: ParameterLocation) {
        if index as usize >= signature.parameters.len() {
            return ParameterLocation::Unavailable;
        }
        if index < signature.number_of_scalar_parameters {
            return match parameter_base(&signature.parameters, 0, index as usize) {
                Some(base) => ParameterLocation::Fixed(RegisterClass::Scalar, base),
                None => ParameterLocation::Unavailable,
            };
        }
        match signature.stage {
            ShaderStage::Vertex => {
                // The vertex index is an integer, but arrives in v0 just like
                // every other non-inreg VS parameter.
                match parameter_base(
                    &signature.parameters,
                    signature.number_of_scalar_parameters as usize,
                    index as usize,
                ) {
                    Some(base) => ParameterLocation::Fixed(RegisterClass::Vector, base),
                    None => ParameterLocation::Unavailable,
                }
            },
            ShaderStage::Pixel => if index - signature.number_of_scalar_parameters == 1 {
                ParameterLocation::Fixed(RegisterClass::Vector, 0)
            } else {
                ParameterLocation::Unavailable
            },
        }
    }

    open spec fn coordinate_registers(&self, mode: InterpolationMode) -> Option<(u8, u8)> {
        if mode == InterpolationMode::Center {
            Some((0u8, 1u8))
        } else {
            None
        }
    }

    fn interpolation_coordinates(&self, mode: InterpolationMode) -> (r: Option<(u8, u8)>) {
        match mode {
            InterpolationMode::Center => Some((0, 1)),
            _ => None,
        }
    }

    open spec fn perspective_interpolation(&self) -> InterpolationMode {
        InterpolationMode::Center
    }

    fn perspective_mode(&self) -> (r: InterpolationMode) {
        InterpolationMode::Center
    }

    open spec fn expandable(&self, values: Seq<ValueDescription>, instructions: Seq<Instruction>) -> bool {
        values.len() + 8 * instructions.len() <= u32::MAX
    }

    open spec fn expanded(&self, values: Seq<ValueDescription>, instructions: Seq<Instruction>) -> (
        Result<(), Gfx10Error>,
        Seq<ValueDescription>,
        Seq<Instruction>,
    ) {
        expansion(values, instructions)
    }

    fn expand_pseudo_instructions(&self, function: &mut MachineFunction) -> (r: Result<(), Gfx10Error>) {
        self.expand(function)
    }

    open spec fn encodable(&self, function: MachineFunction) -> bool {
        destinations_known(function)
    }

    open spec fn machine_code(&self, function: MachineFunction, bases: Seq<u8>) -> Result<
        Seq<u8>,
        Gfx10Error,
    > {
        function_code(function, bases)
    }

    fn encode_function(&self, function: &MachineFunction, allocation: &Allocation) -> (r: Result<
        Vec<u8>,
        Gfx10Error,
    >) {
        self.emit_function(function, allocation)
    }

    open spec fn listable_instruction(&self, function: MachineFunction, index: usize) -> bool {
        listable(function, index)
    }

    open spec fn instruction_text(&self, function: MachineFunction, bases: Seq<u8>, index: usize) -> Seq<
        char,
    > {
        instruction_listing(function, bases, index)
    }

    fn format_instruction(&self, function: &MachineFunction, allocation: &Allocation, index: usize) -> (r:
        String) {
        self.listing(function, allocation, index)
    }

    open spec fn loader_registers(&self, stage: ShaderStage, summary: Summary) -> Seq<(u32, u32)> {
        gfx10_configuration(stage, summary)
    }

    fn configuration(&self, stage: ShaderStage, summary: &Summary) -> (r: Vec<(u32, u32)>) {
        let minimum: u32 = match stage {
            ShaderStage::Pixel => 2,
            ShaderStage::Vertex => 1,
        };
        let registers = if summary.number_of_vector_registers > minimum {
            summary.number_of_vector_registers
        } else {
            minimum
        };
        let blocks = registers / 8 + if registers % 8 != 0 {
            1
        } else {
            0
        } - 1;
        let mut config: Vec<(u32, u32)> = Vec::new();
        config.push(
            (
                match stage {
                    ShaderStage::Vertex => SPI_SHADER_PGM_RSRC1_VS,
                    ShaderStage::Pixel => SPI_SHADER_PGM_RSRC1_PS,
                },
                blocks,
            ),
        );
        config.push((SPI_TMPRING_SIZE, 0));
        if stage == ShaderStage::Pixel {
            config.push((SPI_SHADER_PGM_RSRC2_PS, 0));
            // The PS entry ABI places perspective-center coordinates in v[0:1].
            config.push((SPI_PS_INPUT_ENA, InterpolationMode::Center.bits()));
            config.push((SPI_PS_INPUT_ADDR, InterpolationMode::Center.bits()));
        }
        config.push((4, 0));
        config.push((8, 0));
        assert(config@ =~= gfx10_configuration(stage, *summary));
        config
    }
}


// ---------------------------------------------------------------------------
// Operands after register assignment
// ---------------------------------------------------------------------------
/// The hardware source of `operand` under the allocation `bases`.
pub open spec fn operand_source(function: MachineFunction, bases: Seq<u8>, operand: Operand) -> Result<
    Source,
    Gfx10Error,
> {
    match operand {
        Operand::Immediate(bits) => Ok(Source::Immediate(bits)),
        Operand::Physical { register_class, register } => Ok(
            if register_class == RegisterClass::Vector {
                Source::Vector(register)
            } else {
                Source::Scalar(register)
            },
        ),
        Operand::Value { value, element } => {
            if value.0 >= function.values@.len() {
                Err(Gfx10Error::Malformed("unknown value"))
            } else if element >= function.values@[value.0 as int].register_count {
                Err(Gfx10Error::Malformed("value element out of range"))
            } else if value.0 >= bases.len() {
                Err(Gfx10Error::Malformed("unallocated value"))
            } else if bases[value.0 as int] + element > 255 {
                Err(Gfx10Error::Malformed("register block overflows"))
            } else {
                let register = (bases[value.0 as int] + element) as u8;
                Ok(
                    if function.values@[value.0 as int].register_class == RegisterClass::Vector {
                        Source::Vector(register)
                    } else {
                        Source::Scalar(register)
                    },
                )
            }
        },
    }
}

pub open spec fn vector_register(function: MachineFunction, bases: Seq<u8>, operand: Operand) -> Result<
    u8,
    Gfx10Error,
> {
    match operand_source(function, bases, operand) {
        Err(e) => Err(e),
        Ok(Source::Vector(register)) => Ok(register),
        Ok(_) => Err(Gfx10Error::Unsupported("expected a vector register")),
    }
}

pub open spec fn scalar_register(function: MachineFunction, bases: Seq<u8>, operand: Operand) -> Result<
    u8,
    Gfx10Error,
> {
    match operand_source(function, bases, operand) {
        Err(e) => Err(e),
        Ok(Source::Scalar(register)) => Ok(register),
        Ok(_) => Err(Gfx10Error::Unsupported("expected a scalar or predicate register")),
    }
}

pub open spec fn destination_register(
    function: MachineFunction,
    bases: Seq<u8>,
    value: ValueId,
    element: u8,
    register_class: RegisterClass,
) -> Result<u8, Gfx10Error> {
    if value.0 >= function.values@.len() {
        Err(Gfx10Error::Malformed("unknown destination"))
    } else if function.values@[value.0 as int].register_class != register_class || element
        >= function.values@[value.0 as int].register_count {
        Err(Gfx10Error::Unsupported("destination register class or element"))
    } else if value.0 >= bases.len() {
        Err(Gfx10Error::Malformed("unallocated destination"))
    } else if bases[value.0 as int] + element > 255 {
        Err(Gfx10Error::ImmediateRange)
    } else {
        Ok((bases[value.0 as int] + element) as u8)
    }
}

pub open spec fn predicate_register(function: MachineFunction, bases: Seq<u8>, value: ValueId) -> Result<
    u8,
    Gfx10Error,
> {
    match destination_register(function, bases, value, 0, RegisterClass::Predicate) {
        Err(e) => Err(e),
        Ok(register) => if register != VCC_LO {
            Err(Gfx10Error::Unsupported("predicate must occupy vcc_lo"))
        } else {
            Ok(register)
        },
    }
}

/// A global address is a pair of vector registers.
pub open spec fn address_valid(function: MachineFunction, address: Operand) -> bool {
    match address {
        Operand::Value { value, element } => function.values@[value.0 as int].register_class
            == RegisterClass::Vector && element + 2 <= function.values@[value.0 as int].register_count,
        Operand::Physical { register_class, register } => register_class == RegisterClass::Vector
            && register < 255,
        _ => false,
    }
}

impl Gfx10 {
    pub fn source(&self, function: &MachineFunction, allocation: &Allocation, operand: Operand) -> (r:
        Result<Source, Gfx10Error>)
        ensures
            r == operand_source(*function, allocation.bases@, operand),
    {
        match operand {
            Operand::Immediate(bits) => Ok(Source::Immediate(bits)),
            Operand::Physical { register_class, register } => Ok(
                match register_class {
                    RegisterClass::Vector => Source::Vector(register),
                    RegisterClass::Scalar | RegisterClass::Predicate => Source::Scalar(register),
                },
            ),
            Operand::Value { value, element } => {
                if value.index() >= function.values.len() {
                    return Err(Gfx10Error::Malformed("unknown value"));
                }
                let description = function.values[value.index()];
                if element >= description.register_count {
                    return Err(Gfx10Error::Malformed("value element out of range"));
                }
                if value.index() >= allocation.bases.len() {
                    return Err(Gfx10Error::Malformed("unallocated value"));
                }
                let base = allocation.bases[value.index()];
                if base as u16 + element as u16 > 255 {
                    return Err(Gfx10Error::Malformed("register block overflows"));
                }
                let register = base + element;
                Ok(
                    match description.register_class {
                        RegisterClass::Vector => Source::Vector(register),
                        RegisterClass::Scalar | RegisterClass::Predicate => Source::Scalar(register),
                    },
                )
            },
        }
    }

    pub fn vector(&self, function: &MachineFunction, allocation: &Allocation, operand: Operand) -> (r:
        Result<u8, Gfx10Error>)
        ensures
            r == vector_register(*function, allocation.bases@, operand),
    {
        match self.source(function, allocation, operand)? {
            Source::Vector(register) => Ok(register),
            _ => Err(Gfx10Error::Unsupported("expected a vector register")),
        }
    }

    pub fn scalar(&self, function: &MachineFunction, allocation: &Allocation, operand: Operand) -> (r:
        Result<u8, Gfx10Error>)
        ensures
            r == scalar_register(*function, allocation.bases@, operand),
    {
        match self.source(function, allocation, operand)? {
            Source::Scalar(register) => Ok(register),
            _ => Err(Gfx10Error::Unsupported("expected a scalar or predicate register")),
        }
    }

    pub fn destination(
        &self,
        function: &MachineFunction,
        allocation: &Allocation,
        value: ValueId,
        element: u8,
        register_class: RegisterClass,
    ) -> (r: Result<u8, Gfx10Error>)
        ensures
            r == destination_register(*function, allocation.bases@, value, element, register_class),
    {
        if value.index() >= function.values.len() {
            return Err(Gfx10Error::Malformed("unknown destination"));
        }
        let description = function.values[value.index()];
        if description.register_class != register_class || element >= description.register_count {
            return Err(Gfx10Error::Unsupported("destination register class or element"));
        }
        if value.index() >= allocation.bases.len() {
            return Err(Gfx10Error::Malformed("unallocated destination"));
        }
        let base = allocation.bases[value.index()];
        if base as u16 + element as u16 > 255 {
            return Err(Gfx10Error::ImmediateRange);
        }
        Ok(base + element)
    }

    pub fn vector_destination(&self, function: &MachineFunction, allocation: &Allocation, value: ValueId) -> (r:
        Result<u8, Gfx10Error>)
        ensures
            r == destination_register(
                *function,
                allocation.bases@,
                value,
                0,
                RegisterClass::Vector,
            ),
    {
        self.destination(function, allocation, value, 0, RegisterClass::Vector)
    }

    pub fn predicate_destination(&self, function: &MachineFunction, allocation: &Allocation, value: ValueId) -> (r:
        Result<u8, Gfx10Error>)
        ensures
            r == predicate_register(*function, allocation.bases@, value),
    {
        let register = self.destination(function, allocation, value, 0, RegisterClass::Predicate)?;
        if register != VCC_LO {
            return Err(Gfx10Error::Unsupported("predicate must occupy vcc_lo"));
        }
        Ok(register)
    }

    pub fn validate_address(&self, function: &MachineFunction, address: Operand) -> (r: Result<(), Gfx10Error>)
        requires
            address is Value ==> address->value.0 < function.values@.len(),
        ensures
            r is Ok <==> address_valid(*function, address),
            r is Err ==> r == Err::<(), Gfx10Error>(
                Gfx10Error::Unsupported("global address requires a vector register pair"),
            ),
    {
        let valid = match address {
            Operand::Value { value, element } => {
                let description = function.description(value);
                description.register_class == RegisterClass::Vector && element as u16 + 2
                    <= description.register_count as u16
            },
            Operand::Physical { register_class, register } => {
                register_class == RegisterClass::Vector && register < 255
            },
            _ => false,
        };
        if valid {
            Ok(())
        } else {
            Err(Gfx10Error::Unsupported("global address requires a vector register pair"))
        }
    }

    pub fn validate_register_block(&self, function: &MachineFunction, destination: ValueId, count: u8) -> (r:
        Result<(), Gfx10Error>)
        requires
            destination.0 < function.values@.len(),
        ensures
            r is Ok <==> count <= function.values@[destination.0 as int].register_count,
            r is Err ==> r == Err::<(), Gfx10Error>(
                Gfx10Error::Unsupported("global load destination register block"),
            ),
    {
        if function.description(destination).register_count < count {
            return Err(Gfx10Error::Unsupported("global load destination register block"));
        }
        Ok(())
    }
}

} // verus!
