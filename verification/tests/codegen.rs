use vantage::codegen::compile_selected;
use vantage::codegen::instruction_selection::{address, vector_operand};
use vantage::codegen::machine::{
    FloatComparisonKind, Instruction, MachineFunction, Operand, RegisterClass, ValueId,
    ValuePurpose,
};
use vantage::codegen::register_allocation::{allocate_registers, RegisterAllocationError};
use vantage::codegen::targets::encoding::{Encoder, Source};
use vantage::codegen::targets::gfx10::{gfx103_processor, EXP_POS0, VCC_LO};
use vantage::codegen::targets::listing::{comparison_mnemonic, scalar_name};
use vantage::codegen::targets::{
    for_processor, Allocation, Gfx10Error, InterpolationMode, ParameterDescription,
    ParameterLocation, ShaderStage, Signature, Summary, Target,
};

/// Encodings in these tests are the expected bytes emitted by LLVM's
/// AMDGPU assembler: `llvm-mc -triple=amdgcn -mcpu=gfx1032 -show-encoding`.
fn instruction_words(code: &[u8]) -> Vec<u32> {
    code.chunks_exact(4)
        .map(|bytes| u32::from_le_bytes([bytes[0], bytes[1], bytes[2], bytes[3]]))
        .collect()
}

#[test]
fn export_source_waits_before_its_vgpr_is_reused() {
    let target = for_processor("gfx1036").unwrap();
    let mut function = MachineFunction::default();
    let position = function.add_value(RegisterClass::Vector, 1, Some(0), ValuePurpose::Parameter(0));
    let zero = function.add_value(RegisterClass::Vector, 1, None, ValuePurpose::Temporary);
    function.instructions.extend([
        Instruction::Export {
            target: EXP_POS0,
            values: [Operand::Value { value: position, element: 0 }; 4],
            mask: 15,
            done: true,
            valid_mask: false,
        },
        Instruction::Copy { destination: zero, source: Operand::Immediate(0) },
        Instruction::Export {
            target: 34,
            values: [Operand::Value { value: zero, element: 0 }; 4],
            mask: 15,
            done: false,
            valid_mask: false,
        },
        Instruction::Return,
    ]);
    let allocation = allocate_registers(&function, &target).unwrap();
    assert_eq!(allocation.bases[position.index()], allocation.bases[zero.index()]);
    let code = target.encode_function(&function, &allocation).unwrap();
    // The POS0 operand remains live in hardware after the allocator's last
    // logical use. Wait for its asynchronous read before writing the zero.
    assert_eq!(
        instruction_words(&code),
        [0xf800_08cf, 0, 0xbf8c_ff0f, 0x7e00_0280, 0xf800_022f, 0, 0xbf81_0000]
    );
}

#[test]
fn vector_multiply_and_arithmetic_shift_match_gfx1032_assembler() {
    let mut encoder = Encoder::new();
    // v_mul_lo_u32 v0, v0, 56
    encoder
        .vop3a(0x169, 0, [Source::Vector(0), Source::Immediate(56), Source::Scalar(0)], 0, 0)
        .unwrap();
    // v_ashrrev_i32 v1, 31, v0 — the sign-extend used by 64-bit GEP indices.
    encoder
        .vop3a(0x118, 1, [Source::Immediate(31), Source::Vector(0), Source::Scalar(0)], 0, 0)
        .unwrap();

    assert_eq!(
        instruction_words(&encoder.code),
        [0xd569_0000, 0x0001_7100, 0xd518_0001, 0x0002_009f]
    );
}

#[test]
fn global_store_matches_gfx1032_assembler() {
    let mut encoder = Encoder::new();
    encoder.global_memory(true, 1, 4, 2, 8).unwrap();

    assert_eq!(instruction_words(&encoder.code), [0xdc70_8008, 0x007d_0402]);
}

#[test]
fn distinct_literal_constants_are_rejected() {
    let mut encoder = Encoder::new();
    let result = encoder.vop3a(
        0x14b,
        0,
        [Source::Immediate(0x3f12_3456), Source::Immediate(0x4012_3456), Source::Vector(1)],
        0,
        0,
    );

    assert_eq!(result, Err(Gfx10Error::MultipleLiterals));
}

#[test]
fn floating_point_compare_matches_gfx1032_assembler() {
    let mut encoder = Encoder::new();
    // v_cmp_lt_f32 vcc_lo, 1.0, v2
    encoder
        .vop3b(
            1,
            VCC_LO,
            0,
            [Source::Immediate(1.0f32.to_bits()), Source::Vector(2), Source::Scalar(0)],
        )
        .unwrap();

    assert_eq!(instruction_words(&encoder.code), [0xd401_006a, 0x0002_04f2]);
}

#[test]
fn processor_names_follow_ip_discovery_minor_version() {
    assert_eq!(gfx103_processor(0x0a03_0004), "gfx1032");
    assert_eq!(gfx103_processor(0x0a03_0000), "gfx1030");
    assert_eq!(gfx103_processor(0x0a03_0006), "gfx1036");
    for version in 0..16u32 {
        assert!(for_processor(gfx103_processor(version)).is_some());
    }
    assert!(for_processor("gfx1100").is_none());
    assert_eq!(for_processor("gfx1035").unwrap().processor_name(), "gfx1035");
}

#[test]
fn branch_displacements_point_at_their_labels() {
    let target = for_processor("gfx1030").unwrap();
    let mut function = MachineFunction::default();
    function.instructions.extend([
        Instruction::Label { id: 7 },
        Instruction::Branch { label: 9 },
        Instruction::Branch { label: 7 },
        Instruction::Label { id: 9 },
        Instruction::Return,
    ]);
    let code = target.encode_function(&function, &Allocation::default()).unwrap();
    // s_branch +1 (skips the backward branch), s_branch -2, s_endpgm.
    assert_eq!(instruction_words(&code), [0xbf82_0001, 0xbf82_fffe, 0xbf81_0000]);
}

#[test]
fn encoding_errors_name_their_cause() {
    let target = for_processor("gfx1030").unwrap();

    let mut duplicate = MachineFunction::default();
    duplicate.instructions.extend([Instruction::Label { id: 1 }, Instruction::Label { id: 1 }]);
    assert_eq!(
        target.encode_function(&duplicate, &Allocation::default()),
        Err(Gfx10Error::Malformed("duplicate label"))
    );

    let mut unknown = MachineFunction::default();
    unknown.instructions.push(Instruction::Branch { label: 3 });
    assert_eq!(
        target.encode_function(&unknown, &Allocation::default()),
        Err(Gfx10Error::Malformed("branch to unknown label"))
    );

    let mut pseudo = MachineFunction::default();
    pseudo.instructions.push(Instruction::Kill { condition: Operand::Immediate(0) });
    assert_eq!(
        target.encode_function(&pseudo, &Allocation::default()),
        Err(Gfx10Error::Malformed("unexpanded instruction"))
    );

    let mut predicate = MachineFunction::default();
    let flag = predicate.add_value(RegisterClass::Predicate, 1, Some(VCC_LO), ValuePurpose::Temporary);
    predicate.instructions.push(Instruction::Constant { destination: flag, bits: 1 });
    assert_eq!(
        target.encode_function(&predicate, &Allocation { bases: vec![VCC_LO] }),
        Err(Gfx10Error::Unsupported("predicate constant"))
    );

    let mut export = MachineFunction::default();
    export.instructions.push(Instruction::Export {
        target: 64,
        values: [Operand::Immediate(0); 4],
        mask: 0,
        done: true,
        valid_mask: true,
    });
    assert_eq!(
        target.encode_function(&export, &Allocation::default()),
        Err(Gfx10Error::ImmediateRange)
    );
}

#[test]
fn discard_expands_to_a_shared_completion_block() {
    let target = for_processor("gfx1030").unwrap();
    let mut function = MachineFunction::default();
    function.instructions.extend([
        Instruction::Label { id: 4 },
        Instruction::Kill { condition: Operand::Immediate(0) },
        Instruction::Kill { condition: Operand::Immediate(1) },
        Instruction::Return,
    ]);
    target.expand_pseudo_instructions(&mut function).unwrap();
    assert_eq!(
        function.instructions,
        vec![
            Instruction::Label { id: 4 },
            Instruction::ZeroExecutionMask,
            Instruction::BranchIfNoActiveLanes { label: 5 },
            Instruction::Return,
            Instruction::Label { id: 5 },
            Instruction::Export {
                target: 9,
                values: [Operand::Immediate(0); 4],
                mask: 0,
                done: true,
                valid_mask: true,
            },
            Instruction::Return,
        ]
    );

    let mut unterminated = MachineFunction::default();
    unterminated.instructions.push(Instruction::ZeroExecutionMask);
    assert_eq!(
        target.expand_pseudo_instructions(&mut unterminated),
        Err(Gfx10Error::Malformed("discard shader must end with return"))
    );

    let mut exhausted = MachineFunction::default();
    exhausted.instructions.push(Instruction::Label { id: u32::MAX });
    assert_eq!(
        target.expand_pseudo_instructions(&mut exhausted),
        Err(Gfx10Error::Malformed("no free label for discard completion"))
    );
}

#[test]
fn division_expands_with_eight_temporaries() {
    let target = for_processor("gfx1030").unwrap();
    let mut function = MachineFunction::default();
    let quotient = function.add_value(RegisterClass::Vector, 1, None, ValuePurpose::Temporary);
    function.instructions.push(Instruction::FloatDivide {
        destination: quotient,
        first: Operand::Immediate(0x4000_0000),
        second: Operand::Immediate(0x4040_0000),
    });
    target.expand_pseudo_instructions(&mut function).unwrap();
    assert_eq!(function.values.len(), 9);
    assert_eq!(function.instructions.len(), 11);
    assert_eq!(function.values[8].register_class, RegisterClass::Predicate);
    assert_eq!(function.values[8].fixed_register, Some(VCC_LO));
    assert_eq!(
        function.instructions[2],
        Instruction::FusedMultiplyAdd {
            destination: ValueId(4),
            first: Operand::Value { value: ValueId(1), element: 0 },
            second: Operand::Value { value: ValueId(3), element: 0 },
            third: Operand::Immediate(0x3f80_0000),
            negate_first: true,
        }
    );
    assert_eq!(
        function.instructions[10],
        Instruction::DivideFixup {
            destination: quotient,
            first: Operand::Value { value: ValueId(7), element: 0 },
            second: Operand::Immediate(0x4040_0000),
            third: Operand::Immediate(0x4000_0000),
        }
    );
}

#[test]
fn exponential_expands_with_denormal_scaling() {
    let target = for_processor("gfx1030").unwrap();
    let mut function = MachineFunction::default();
    let result = function.add_value(RegisterClass::Vector, 1, None, ValuePurpose::Temporary);
    function.instructions.push(Instruction::ExponentialBaseTwo {
        destination: result,
        source: Operand::Immediate(0x3f80_0000),
    });
    target.expand_pseudo_instructions(&mut function).unwrap();
    assert_eq!(function.values.len(), 4);
    assert_eq!(
        function.instructions[0],
        Instruction::FloatCompare {
            comparison: FloatComparisonKind::OrderedGreaterThan,
            destination: ValueId(1),
            first: Operand::Immediate((-126.0f32).to_bits()),
            second: Operand::Immediate(0x3f80_0000),
        }
    );
    assert_eq!(
        function.instructions[3],
        Instruction::Select {
            destination: ValueId(3),
            condition: Operand::Value { value: ValueId(1), element: 0 },
            when_true: Operand::Immediate((-64i32) as u32),
            when_false: Operand::Immediate(0),
        }
    );
}

#[test]
fn listing_names_registers_and_literals() {
    let target = for_processor("gfx1032").unwrap();
    let mut function = MachineFunction::default();
    let value = function.add_value(RegisterClass::Vector, 1, None, ValuePurpose::Temporary);
    let mask = function.add_value(RegisterClass::Scalar, 1, None, ValuePurpose::Temporary);
    function.instructions.extend([
        Instruction::IntegerMultiply {
            destination: value,
            first: Operand::Value { value, element: 0 },
            second: Operand::Immediate(56),
        },
        Instruction::Constant { destination: mask, bits: 0xffff_ffff },
        Instruction::Label { id: 12 },
        Instruction::Copy { destination: value, source: Operand::Value { value: ValueId(9), element: 0 } },
    ]);
    let allocation = Allocation { bases: vec![3, 106] };
    assert_eq!(target.format_instruction(&function, &allocation, 0), "v_mul_lo_u32 v3, v3, 0x00000038");
    assert_eq!(target.format_instruction(&function, &allocation, 1), "s_mov_b32 vcc_lo, 0xffffffff");
    assert_eq!(target.format_instruction(&function, &allocation, 2), "label12:");
    assert_eq!(
        target.format_instruction(&function, &allocation, 3),
        "v_mov_b32 v3, invalid operand: Malformed(\"unknown value\")"
    );
    assert_eq!(target.format_instruction(&function, &allocation, 9), "invalid instruction index 9");
    assert_eq!(scalar_name(17), "s17");
    assert_eq!(scalar_name(125), "null");
    assert_eq!(comparison_mnemonic(FloatComparisonKind::UnorderedNotEqual), "neq");
}

#[test]
fn pixel_configuration_enables_center_interpolation() {
    let target = for_processor("gfx1030").unwrap();
    let summary = Summary {
        number_of_vector_registers: 17,
        number_of_scalar_registers: 2,
        uses_discard: false,
        interpolation_modes: 0,
    };
    assert_eq!(
        target.configuration(ShaderStage::Pixel, &summary),
        vec![
            (0xb028, 2),
            (0x286e8, 0),
            (0xb02c, 0),
            (0x286cc, 2),
            (0x286d0, 2),
            (4, 0),
            (8, 0)
        ]
    );
    let empty = Summary::default();
    assert_eq!(
        target.configuration(ShaderStage::Vertex, &empty),
        vec![(0xb128, 0), (0x286e8, 0), (4, 0), (8, 0)]
    );
    assert_eq!(target.interpolation_coordinates(InterpolationMode::Center), Some((0, 1)));
    assert_eq!(target.interpolation_coordinates(InterpolationMode::Sample), None);
    assert_eq!(target.perspective_mode(), InterpolationMode::Center);
}

#[test]
fn parameters_fill_registers_in_order() {
    let target = for_processor("gfx1030").unwrap();
    let parameter = |size| ParameterDescription { size, vector: false };
    let vertex = Signature {
        stage: ShaderStage::Vertex,
        number_of_scalar_parameters: 2,
        parameters: vec![parameter(2), parameter(1), parameter(1), parameter(4), parameter(1)],
    };
    assert_eq!(target.parameter_location(&vertex, 1), ParameterLocation::Fixed(RegisterClass::Scalar, 2));
    assert_eq!(target.parameter_location(&vertex, 2), ParameterLocation::Fixed(RegisterClass::Vector, 0));
    assert_eq!(target.parameter_location(&vertex, 4), ParameterLocation::Fixed(RegisterClass::Vector, 5));
    assert_eq!(target.parameter_location(&vertex, 5), ParameterLocation::Unavailable);
    let pixel = Signature { stage: ShaderStage::Pixel, ..vertex.clone() };
    assert_eq!(target.parameter_location(&pixel, 3), ParameterLocation::Fixed(RegisterClass::Vector, 0));
    assert_eq!(target.parameter_location(&pixel, 2), ParameterLocation::Unavailable);
}

#[test]
fn summary_counts_registers_discards_and_interpolation() {
    let mut function = MachineFunction::default();
    let wide = function.add_value(RegisterClass::Vector, 4, None, ValuePurpose::Temporary);
    let scalar = function.add_value(RegisterClass::Scalar, 2, None, ValuePurpose::Temporary);
    function.instructions.push(Instruction::Kill { condition: Operand::Immediate(0) });
    let _ = (wide, scalar);
    let summary = Summary::from_function(&function, &Allocation { bases: vec![5, 3] });
    assert_eq!(summary.number_of_vector_registers, 9);
    assert_eq!(summary.number_of_scalar_registers, 5);
    assert!(summary.uses_discard);
    assert_eq!(summary.interpolation_modes, 0);
}

#[test]
fn compiled_shader_holds_code_configuration_and_listing() {
    let target = for_processor("gfx1034").unwrap();
    let mut function = MachineFunction::default();
    let color = function.add_value(RegisterClass::Vector, 1, None, ValuePurpose::Temporary);
    function.instructions.extend([
        Instruction::Copy { destination: color, source: Operand::Immediate(0x3f80_0000) },
        Instruction::Export {
            target: 0,
            values: [Operand::Value { value: color, element: 0 }; 4],
            mask: 15,
            done: true,
            valid_mask: true,
        },
        Instruction::Return,
    ]);
    let shader = compile_selected(&target, function, ShaderStage::Pixel, true).unwrap();
    assert_eq!(
        instruction_words(&shader.code),
        [0x7e00_02f2, 0xf800_180f, 0, 0xbf81_0000]
    );
    assert_eq!(shader.configuration[0], (0xb028, 0));
    assert_eq!(
        shader.assembly.as_deref(),
        Some("v_mov_b32 v0, 0x3f800000\nexp 0 v0, v0, v0, v0 en:f done:true vm:true\ns_endpgm")
    );
}

#[test]
fn selection_materializes_vector_operands_and_addresses() {
    let mut function = MachineFunction::default();
    let scalar = function.add_value(RegisterClass::Scalar, 1, None, ValuePurpose::Temporary);
    let operand = vector_operand(&mut function, Operand::Value { value: scalar, element: 0 });
    assert_eq!(operand, Operand::Value { value: ValueId(1), element: 0 });
    assert_eq!(
        function.instructions,
        vec![Instruction::Copy {
            destination: ValueId(1),
            source: Operand::Value { value: scalar, element: 0 }
        }]
    );
    assert_eq!(vector_operand(&mut function, operand), operand);

    let pair = ValueId(1);
    let destination = address(&mut function, VCC_LO, pair, Operand::Immediate(0xffff_fff0));
    assert_eq!(destination, ValueId(2));
    assert_eq!(
        function.instructions[2],
        Instruction::AddressHigh {
            destination,
            destination_element: 1,
            first: Operand::Value { value: pair, element: 1 },
            second: Operand::Immediate(0xffff_ffff),
            carry: Operand::Value { value: ValueId(3), element: 0 },
        }
    );
}

#[test]
fn visitors_see_what_the_lists_hold() {
    let instructions = [
        Instruction::DivideScale {
            destination: ValueId(3),
            predicate: Some(ValueId(4)),
            first: Operand::Value { value: ValueId(1), element: 0 },
            second: Operand::Immediate(7),
            third: Operand::Value { value: ValueId(2), element: 0 },
        },
        Instruction::LoadGlobal {
            destination: ValueId(5),
            register_count: 3,
            address: Operand::Value { value: ValueId(6), element: 0 },
            offset: 16,
        },
        Instruction::Constant { destination: ValueId(0), bits: 1 },
    ];
    for instruction in &instructions {
        let mut defined = Vec::new();
        MachineFunction::visit_definitions(instruction, |value, element| {
            defined.push((value, element))
        });
        assert_eq!(defined, MachineFunction::definitions(instruction));
        let mut used = Vec::new();
        MachineFunction::visit_uses(instruction, |operand| used.push(operand));
        assert_eq!(used, MachineFunction::uses(instruction));
    }
    let mut defined = Vec::new();
    MachineFunction::visit_definitions(&instructions[1], |value, element| {
        defined.push((value, element))
    });
    assert_eq!(defined, vec![(ValueId(5), 0), (ValueId(5), 1), (ValueId(5), 2)]);
    let mut used = Vec::new();
    MachineFunction::visit_uses(&instructions[0], |operand| used.push(operand));
    assert_eq!(used, vec![Operand::Value { value: ValueId(1), element: 0 }, Operand::Value { value: ValueId(2), element: 0 }]);
}

#[test]
fn loop_carried_value_keeps_its_register_through_the_loop() {
    let target = for_processor("gfx1036").unwrap();
    let mut function = MachineFunction::default();
    let carried = function.add_value(RegisterClass::Vector, 1, None, ValuePurpose::Temporary);
    let inner = function.add_value(RegisterClass::Vector, 1, None, ValuePurpose::Temporary);
    let sink = function.add_value(RegisterClass::Vector, 1, None, ValuePurpose::Temporary);
    function.instructions.extend([
        Instruction::Copy { destination: carried, source: Operand::Immediate(1) },
        Instruction::Label { id: 7 },
        // Last textual read of `carried`; the loop reads it again.
        Instruction::Copy { destination: sink, source: Operand::Value { value: carried, element: 0 } },
        Instruction::Copy { destination: inner, source: Operand::Immediate(2) },
        Instruction::Copy { destination: sink, source: Operand::Value { value: inner, element: 0 } },
        Instruction::Branch { label: 7 },
        Instruction::Return,
    ]);
    let allocation = allocate_registers(&function, &target).unwrap();
    assert_ne!(allocation.bases[carried.0 as usize], allocation.bases[inner.0 as usize]);
    // Deterministic: the same function allocates the same way again.
    assert_eq!(allocate_registers(&function, &target).unwrap().bases, allocation.bases);
}

#[test]
fn first_malformed_value_is_reported() {
    let target = for_processor("gfx1036").unwrap();
    let mut function = MachineFunction::default();
    function.add_value(RegisterClass::Vector, 1, None, ValuePurpose::Temporary);
    let input = function.add_value(RegisterClass::Vector, 1, None, ValuePurpose::Parameter(0));
    let empty = function.add_value(RegisterClass::Vector, 0, None, ValuePurpose::Temporary);
    let _ = empty;
    function.instructions.push(Instruction::Return);
    assert_eq!(
        allocate_registers(&function, &target).unwrap_err(),
        RegisterAllocationError::InputWithoutFixedRegister(input)
    );
}

#[test]
fn own_definition_does_not_satisfy_a_read() {
    let target = for_processor("gfx1036").unwrap();
    let mut function = MachineFunction::default();
    let value = function.add_value(RegisterClass::Vector, 1, None, ValuePurpose::Temporary);
    function.instructions.push(Instruction::Copy {
        destination: value,
        source: Operand::Value { value, element: 0 },
    });
    assert_eq!(
        allocate_registers(&function, &target).unwrap_err(),
        RegisterAllocationError::ReadBeforeDefinition { value, element: 0, instruction: 0 }
    );
}
