//! The compiler pipeline after instruction selection: target expansion,
//! register allocation, encoding, the optional listing and the loader
//! configuration.
use vstd::prelude::*;

use crate::codegen::instruction_selection::SelectionError;
use crate::codegen::machine::{instruction_definitions, Instruction, MachineFunction, RegisterClass};
use crate::codegen::register_allocation::{
    allocate_registers, allocates, fails_to_assign, instruction_ok, malformation, well_formed,
    definition_ok, definitions_at, RegisterAllocationError,
};
use crate::codegen::targets::emission::{destinations_known, function_code};
use crate::codegen::targets::expansion::{
    expanded_instruction, expansion, lemma_expansion_leaves_no_pseudo_instructions, loads_known,
};
use crate::codegen::targets::gfx10::gfx10_configuration;
use crate::codegen::targets::listing::{instruction_listing, listable};
use crate::codegen::targets::{
    is_discard, register_end, Gfx10, Gfx10Error, InterpolationMode, ShaderStage, Summary, Target,
};

verus! {

#[derive(Debug)]
pub enum Error {
    UnknownProcessor,
    InstructionSelection(SelectionError),
    RegisterAllocation(RegisterAllocationError),
    TargetExpansion(Gfx10Error),
    Encoding(Gfx10Error),
}

/// Machine code and the registers the driver must program for its entry ABI.
pub struct CompiledShader {
    pub code: Vec<u8>,
    pub configuration: Vec<(u32, u32)>,
    /// Human-readable instruction listing, allocated only when requested.
    pub assembly: Option<String>,
}

/// The loader summary of an allocated function.
pub open spec fn function_summary(function: MachineFunction, bases: Seq<u8>) -> Summary {
    Summary {
        number_of_vector_registers: register_end(
            function.values@,
            bases,
            RegisterClass::Vector,
            function.values@.len() as int,
        ),
        number_of_scalar_registers: register_end(
            function.values@,
            bases,
            RegisterClass::Scalar,
            function.values@.len() as int,
        ),
        uses_discard: exists|k: int|
            0 <= k < function.instructions@.len() && is_discard(#[trigger] function.instructions@[k]),
        interpolation_modes: if exists|k: int|
            0 <= k < function.instructions@.len()
                && (#[trigger] function.instructions@[k]) is Interpolate {
            InterpolationMode::Center.spec_bits()
        } else {
            0
        },
    }
}

/// The listing of the first `n` instructions, one per line.
pub open spec fn function_listing(function: MachineFunction, bases: Seq<u8>, n: int) -> Seq<char>
    decreases n,
{
    if n <= 0 {
        seq![]
    } else if n == 1 {
        instruction_listing(function, bases, 0)
    } else {
        function_listing(function, bases, n - 1) + "\n"@ + instruction_listing(
            function,
            bases,
            (n - 1) as usize,
        )
    }
}

/// What a compiled shader holds for an expanded, allocated function.
pub open spec fn compiled_from(
    shader: CompiledShader,
    function: MachineFunction,
    bases: Seq<u8>,
    stage: ShaderStage,
    include_listing: bool,
) -> bool {
    &&& function_code(function, bases) == Ok::<Seq<u8>, Gfx10Error>(shader.code@)
    &&& shader.configuration@ == gfx10_configuration(stage, function_summary(function, bases))
    &&& match shader.assembly {
        Some(text) => include_listing && text@ == function_listing(
            function,
            bases,
            function.instructions@.len() as int,
        ),
        None => !include_listing,
    }
}

/// A well-formed function names a known value in every constant and copy.
proof fn lemma_moves_known(function: MachineFunction, target: &Gfx10)
    requires
        well_formed(function, target),
    ensures
        forall|k: int|
            0 <= k < function.instructions@.len() && (function.instructions@[k] is Constant
                || function.instructions@[k] is Copy) ==> match #[trigger] function.instructions@[k] {
                Instruction::Constant { destination, .. } => destination.0 < function.values@.len(),
                Instruction::Copy { destination, .. } => destination.0 < function.values@.len(),
                _ => true,
            },
{
    assert forall|k: int|
        0 <= k < function.instructions@.len() && (function.instructions@[k] is Constant
            || function.instructions@[k] is Copy) implies match #[trigger] function.instructions@[k] {
        Instruction::Constant { destination, .. } => destination.0 < function.values@.len(),
        Instruction::Copy { destination, .. } => destination.0 < function.values@.len(),
        _ => true,
    } by {
        assert(instruction_ok(function, target, k));
        reveal(instruction_definitions);
        let definitions = definitions_at(function, k);
        assert(definitions.len() == 1);
        assert(definition_ok(function, definitions[0]));
    }
}

/// Compiles a selected function for a GFX10.3 target: expands
/// pseudo-instructions, allocates registers, encodes, and optionally lists.
pub fn compile_selected(
    target: &Gfx10,
    function: MachineFunction,
    stage: ShaderStage,
    include_listing: bool,
) -> (r: Result<CompiledShader, Error>)
    requires
        function.values@.len() + 8 * function.instructions@.len() <= u32::MAX,
        11 * function.instructions@.len() + 3 < usize::MAX / 4,
        loads_known(function.instructions@, function.values@.len() as int),
    ensures
        ({
            let (outcome, values, instructions) = expansion(
                function.values@,
                function.instructions@,
            );
            match outcome {
                Err(e) => r == Err::<CompiledShader, Error>(Error::TargetExpansion(e)),
                Ok(()) => match r {
                    Err(Error::RegisterAllocation(e)) => exists|expanded: MachineFunction|
                        #![trigger expanded.values@, expanded.instructions@]
                        expanded.values@ == values && expanded.instructions@ == instructions && (
                        if well_formed(expanded, target) {
                            fails_to_assign(expanded, target, e)
                        } else {
                            malformation(expanded, target, e)
                        }),
                    Err(Error::Encoding(e)) => exists|expanded: MachineFunction, bases: Seq<u8>|
                        #![trigger allocates(expanded, target, bases)]
                        expanded.values@ == values && expanded.instructions@ == instructions
                            && well_formed(expanded, target) && allocates(expanded, target, bases)
                            && function_code(expanded, bases) == Err::<Seq<u8>, Gfx10Error>(e),
                    Ok(shader) => exists|expanded: MachineFunction, bases: Seq<u8>|
                        #![trigger allocates(expanded, target, bases)]
                        expanded.values@ == values && expanded.instructions@ == instructions
                            && well_formed(expanded, target) && allocates(expanded, target, bases)
                            && compiled_from(shader, expanded, bases, stage, include_listing),
                    _ => false,
                },
            }
        }),
{
    let mut function = function;
    let ghost original = function;
    match target.expand_pseudo_instructions(&mut function) {
        Ok(()) => {},
        Err(e) => {
            return Err(Error::TargetExpansion(e));
        },
    }
    proof {
        lemma_expansion_leaves_no_pseudo_instructions(original.values@, original.instructions@);
        crate::codegen::targets::expansion::lemma_expansion_length(
            original.values@,
            original.instructions@,
        );
    }
    let allocation = match allocate_registers(&function, target) {
        Ok(allocation) => allocation,
        Err(e) => {
            return Err(Error::RegisterAllocation(e));
        },
    };
    proof {
        lemma_moves_known(function, target);
        assert(destinations_known(function)) by {
            assert forall|k: int|
                0 <= k < function.instructions@.len()
                    && crate::codegen::targets::emission::reads_destination_description(
                    #[trigger] function.instructions@[k],
                ) implies crate::codegen::targets::emission::described_destination(
                function.instructions@[k],
            ).0 < function.values@.len() by {
                assert(expanded_instruction(function.instructions@[k], original.values@.len() as int));
            }
        }
    }
    let summary = Summary::from_function(&function, &allocation);
    let code = match target.encode_function(&function, &allocation) {
        Ok(code) => code,
        Err(e) => {
            return Err(Error::Encoding(e));
        },
    };
    let assembly = if include_listing {
        let mut listing = String::new();
        let mut index: usize = 0;
        while index < function.instructions.len()
            invariant
                index <= function.instructions@.len(),
                well_formed(function, target),
                listing@ == function_listing(function, allocation.bases@, index as int),
            decreases function.instructions@.len() - index,
        {
            if index != 0 {
                listing.append("\n");
            }
            proof {
                lemma_moves_known(function, target);
                assert(listable(function, index));
            }
            let line = target.format_instruction(&function, &allocation, index);
            listing.append(line.as_str());
            proof {
                if index == 0 {
                    assert(listing@ =~= function_listing(function, allocation.bases@, 1));
                }
            }
            index = index + 1;
        }
        Some(listing)
    } else {
        None
    };
    let configuration = target.configuration(stage, &summary);
    let shader = CompiledShader { code, configuration, assembly };
    assert(compiled_from(shader, function, allocation.bases@, stage, include_listing));
    Ok(shader)
}

} // verus!
