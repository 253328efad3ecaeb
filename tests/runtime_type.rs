use evmjit::builder::{Builder, Instr, Operand};
use evmjit::ir::{IrType, TypeTable};
use evmjit::jit_context::JITContext;
use evmjit::layout::{matches_layout, FieldShape, Layout, RuntimeDataField, NUM_RUNTIME_DATA_FIELDS};
use evmjit::providers::{EnvDataType, MemoryRepresentationType, RuntimeDataType};
use evmjit::rt_type::{ExtractError, RuntimeType, RuntimeTypeManager};

fn fresh() -> (TypeTable, RuntimeDataType, EnvDataType, MemoryRepresentationType, RuntimeType) {
    let mut tab = TypeTable::new();
    let rt_data = RuntimeDataType::new(&mut tab);
    let env = EnvDataType::new(&mut tab);
    let memrep = MemoryRepresentationType::new(&mut tab);
    let rt = RuntimeType::init(&mut tab, &rt_data, &env, &memrep);
    (tab, rt_data, env, memrep, rt)
}

fn body_of(tab: &TypeTable, id: usize) -> Vec<usize> {
    match tab.get(id) {
        IrType::Record { body: Some(b), .. } => b.clone(),
        _ => panic!("not a record with a body"),
    }
}

#[test]
fn test_runtime_type() {
    let (tab, _, _, _, rt) = fresh();
    let rt_struct = rt.get_type();

    assert!(RuntimeType::is_runtime_type(&tab, rt_struct));

    // Test that we have a pointer to RuntimeData

    let rt_struct_ptr = rt.get_ptr_type();
    match tab.get(rt_struct_ptr) {
        IrType::Pointer { pointee } => {
            assert!(matches!(tab.get(*pointee), IrType::Record { .. }));
            assert!(RuntimeType::is_runtime_type(&tab, *pointee));
        }
        _ => panic!("the pointer type is not a pointer"),
    }
}

#[test]
fn context_runtime_type_has_three_fields_and_validates() {
    let ctx = JITContext::new();
    let tab = ctx.llvm_context();
    let rt = ctx.rt();
    let fields = body_of(tab, rt.get_type());
    assert_eq!(fields.len(), 3);
    assert!(RuntimeType::is_runtime_type(tab, rt.get_type()));
    assert_eq!(fields[0], ctx.rt_data().get_ptr_type());
    assert_eq!(fields[1], ctx.env().get_ptr_type());
    assert_eq!(fields[2], ctx.memrep().get_type());
    assert!(RuntimeDataType::is_rt_data_type(tab, ctx.rt_data().get_type()));
    assert!(EnvDataType::is_env_data_type(tab, ctx.env().get_type()));
    assert!(MemoryRepresentationType::is_mem_representation_type(tab, ctx.memrep().get_type()));
    assert_eq!(ctx.module().name, "evm");
    assert!(ctx.builder().function.is_none());
}

#[test]
fn two_field_record_is_not_runtime_type() {
    let (mut tab, rt_data, env, _, _) = fresh();
    let id = tab.add_record(Some("Runtime".to_string()), Some(vec![rt_data.get_ptr_type(), env.get_ptr_type()]), false);
    assert!(!RuntimeType::is_runtime_type(&tab, id));
}

#[test]
fn four_field_record_is_not_runtime_type() {
    let (mut tab, rt_data, env, memrep, _) = fresh();
    let extra = tab.int_type(64);
    let fields = vec![rt_data.get_ptr_type(), env.get_ptr_type(), memrep.get_type(), extra];
    let id = tab.add_record(Some("Runtime".to_string()), Some(fields), false);
    assert!(!RuntimeType::is_runtime_type(&tab, id));
}

#[test]
fn opaque_record_is_not_runtime_type() {
    let (mut tab, _, _, _, _) = fresh();
    let id = tab.add_record(Some("Runtime".to_string()), None, false);
    assert!(!RuntimeType::is_runtime_type(&tab, id));
    assert!(!tab.is_sized(id));
}

#[test]
fn packed_record_is_not_runtime_type() {
    let (mut tab, rt_data, env, memrep, _) = fresh();
    let fields = vec![rt_data.get_ptr_type(), env.get_ptr_type(), memrep.get_type()];
    let id = tab.add_record(Some("Runtime".to_string()), Some(fields), true);
    assert!(!RuntimeType::is_runtime_type(&tab, id));
}

#[test]
fn wrong_name_is_not_runtime_type() {
    let (mut tab, rt_data, env, memrep, _) = fresh();
    let fields = vec![rt_data.get_ptr_type(), env.get_ptr_type(), memrep.get_type()];
    let named = tab.add_record(Some("Runtime2".to_string()), Some(fields.clone()), false);
    assert!(!RuntimeType::is_runtime_type(&tab, named));
    let unnamed = tab.add_record(None, Some(fields), false);
    assert!(!RuntimeType::is_runtime_type(&tab, unnamed));
}

#[test]
fn same_shape_under_right_name_is_runtime_type() {
    let (mut tab, rt_data, env, memrep, rt) = fresh();
    let fields = vec![rt_data.get_ptr_type(), env.get_ptr_type(), memrep.get_type()];
    let id = tab.add_record(Some("Runtime".to_string()), Some(fields), false);
    assert_ne!(id, rt.get_type());
    assert!(RuntimeType::is_runtime_type(&tab, id));
}

#[test]
fn first_field_not_pointer_is_not_runtime_type() {
    let (mut tab, rt_data, env, memrep, _) = fresh();
    let fields = vec![rt_data.get_type(), env.get_ptr_type(), memrep.get_type()];
    let id = tab.add_record(Some("Runtime".to_string()), Some(fields), false);
    assert!(!RuntimeType::is_runtime_type(&tab, id));
}

#[test]
fn first_field_pointee_not_runtime_data_is_not_runtime_type() {
    let (mut tab, _, env, memrep, _) = fresh();
    let i64t = tab.int_type(64);
    let fake = tab.add_record(Some("RuntimeData".to_string()), Some(vec![i64t, i64t]), false);
    let fake_ptr = tab.pointer_to(fake);
    assert!(!RuntimeDataType::is_rt_data_type(&tab, fake));
    let id = tab.add_record(Some("Runtime".to_string()), Some(vec![fake_ptr, env.get_ptr_type(), memrep.get_type()]), false);
    assert!(!RuntimeType::is_runtime_type(&tab, id));
}

#[test]
fn non_record_is_not_runtime_type() {
    let (tab, _, _, _, rt) = fresh();
    assert!(!RuntimeType::is_runtime_type(&tab, rt.get_ptr_type()));
    assert!(!RuntimeType::is_runtime_type(&tab, tab.len_exec()));
}

#[test]
fn record_holding_opaque_by_value_is_unsized() {
    let mut tab = TypeTable::new();
    let opaque = tab.add_record(Some("Hidden".to_string()), None, false);
    let holder = tab.add_record(None, Some(vec![opaque]), false);
    assert!(!tab.is_sized(holder));
    let p = tab.pointer_to(opaque);
    let via_ptr = tab.add_record(None, Some(vec![p]), false);
    assert!(tab.is_sized(via_ptr));
    let f = tab.add_function(None, vec![p]);
    assert!(!tab.is_sized(f));
}

#[test]
fn lookups_on_one_table_are_interned() {
    let mut tab = TypeTable::new();
    let a = tab.int_type(64);
    let len = tab.len_exec();
    let b = tab.int_type(64);
    assert_eq!(a, b);
    assert_eq!(tab.len_exec(), len);
    let p = tab.pointer_to(a);
    let q = tab.pointer_to(b);
    assert_eq!(p, q);
    let c = tab.int_type(256);
    assert_ne!(a, c);
    assert_eq!(tab.len_exec(), len + 2);
}

#[test]
fn provider_lookups_are_stable() {
    let ctx = JITContext::new();
    assert_eq!(ctx.rt().get_type(), ctx.rt().get_type());
    assert_eq!(ctx.rt().get_ptr_type(), ctx.rt().get_ptr_type());
    assert_eq!(ctx.rt_data().get_ptr_type(), ctx.rt_data().get_ptr_type());
    let word = ctx.evm_types().word;
    assert_eq!(ctx.evm_types().word, word);
    assert!(matches!(ctx.llvm_context().get(word), IrType::Int { bits: 256 }));
}

#[test]
fn field_index_table_matches_layout() {
    let shapes = evmjit::layout::layout_fields_exec(Layout::RuntimeData).unwrap();
    assert_eq!(shapes.len(), NUM_RUNTIME_DATA_FIELDS);
    for i in 0..NUM_RUNTIME_DATA_FIELDS {
        let f = RuntimeDataField::from_index(i);
        assert_eq!(f.to_index(), i);
        assert_eq!(shapes[i], f.shape());
    }
    assert_eq!(RuntimeDataField::Gas.to_index(), 0);
    assert_eq!(RuntimeDataField::Depth.to_index(), 9);
    assert_eq!(RuntimeDataField::Value.shape(), FieldShape::Int { bits: 256 });
    assert_eq!(RuntimeDataField::CallData.shape(), FieldShape::PtrToInt { bits: 8 });
    assert_eq!(RuntimeDataField::Depth.to_name(), "depth");
}

fn positioned_context() -> JITContext {
    let mut ctx = JITContext::new();
    let p = ctx.rt().get_ptr_type();
    ctx.builder_mut().position_at_function_start(vec![p]);
    ctx
}

#[test]
fn extractor_depth_matches_direct_extraction() {
    let mut ctx = positioned_context();
    let m = RuntimeTypeManager::new(&mut ctx).unwrap();
    let depth = m.get_depth();
    let data = match m.get_data_ptr() {
        Operand::Inst(i) => i,
        _ => panic!("data pointer is not an instruction"),
    };
    // The record value is loaded through the data pointer, right after the
    // environment pointer.
    let record = match ctx.builder().instr(5) {
        Instr::Load { ptr, ty } => {
            assert_eq!(ptr, Operand::Inst(data));
            assert_eq!(ty, ctx.rt_data().get_type());
            Operand::Inst(5)
        }
        _ => panic!("no load of the record"),
    };
    let idx = RuntimeDataField::Depth.to_index();
    let field_ty = body_of(ctx.llvm_context(), ctx.rt_data().get_type())[idx];
    let expected = Instr::ExtractValue { agg: record, index: idx as u32, ty: field_ty, label: RuntimeDataField::Depth };
    match depth {
        Operand::Inst(i) => assert_eq!(ctx.builder().instr(i), expected),
        _ => panic!("depth is not an instruction"),
    }
    assert_eq!(depth, Operand::Inst(6 + 9));
    assert!(matches!(ctx.llvm_context().get(field_ty), IrType::Int { bits: 64 }));
}

#[test]
fn extractor_emits_sixteen_instructions_in_order() {
    let mut ctx = positioned_context();
    let m = RuntimeTypeManager::new(&mut ctx).unwrap();
    assert_eq!(ctx.builder().code_len(), 16);
    assert_eq!(m.get_data_ptr(), Operand::Inst(1));
    assert_eq!(m.get_mem_ptr(), Operand::Inst(2));
    assert_eq!(m.get_env_ptr(), Operand::Inst(4));
    assert_eq!(ctx.builder().instr(0), Instr::StructGep { base: Operand::Param(0), index: 0, ty: ctx.rt().data_slot_ptr_type });
    assert_eq!(ctx.builder().instr(1), Instr::Load { ptr: Operand::Inst(0), ty: ctx.rt_data().get_ptr_type() });
    assert_eq!(ctx.builder().instr(2), Instr::StructGep { base: Operand::Param(0), index: 2, ty: ctx.memrep().get_ptr_type() });
    assert_eq!(ctx.builder().instr(3), Instr::StructGep { base: Operand::Param(0), index: 1, ty: ctx.rt().env_slot_ptr_type });
    assert_eq!(ctx.builder().instr(4), Instr::Load { ptr: Operand::Inst(3), ty: ctx.env().get_ptr_type() });
    assert_eq!(m.get_address(), Operand::Inst(6 + 7));
    assert_eq!(m.get_sender(), Operand::Inst(6 + 8));
    assert_eq!(m.get_value(), Operand::Inst(6 + 4));
    for i in 0..NUM_RUNTIME_DATA_FIELDS {
        let f = RuntimeDataField::from_index(i);
        match ctx.builder().instr(6 + i) {
            Instr::ExtractValue { agg, index, label, .. } => {
                assert_eq!(agg, Operand::Inst(5));
                assert_eq!(index as usize, i);
                assert_eq!(label, f);
            }
            _ => panic!("not a field read"),
        }
        // Reads are repeatable.
        assert_eq!(m.get_field(f), m.get_field(f));
    }
}

#[test]
fn extractor_without_function_emits_nothing() {
    let mut ctx = JITContext::new();
    let r = RuntimeTypeManager::new(&mut ctx);
    assert!(matches!(r, Err(ExtractError::NoEnclosingFunction)));
    assert_eq!(ctx.builder().code_len(), 0);
}

#[test]
fn extractor_without_parameters_emits_nothing() {
    let mut ctx = JITContext::new();
    ctx.builder_mut().position_at_function_start(vec![]);
    let r = RuntimeTypeManager::new(&mut ctx);
    assert!(matches!(r, Err(ExtractError::NoParameters)));
    assert_eq!(ctx.builder().code_len(), 0);
}

#[test]
fn extractor_with_wrong_first_parameter_emits_nothing() {
    let mut ctx = JITContext::new();
    let word_ptr = ctx.evm_types().word_ptr;
    let rt_ptr = ctx.rt().get_ptr_type();
    ctx.builder_mut().position_at_function_start(vec![word_ptr, rt_ptr]);
    let r = RuntimeTypeManager::new(&mut ctx);
    assert!(matches!(r, Err(ExtractError::RuntimeArgMismatch)));
    assert_eq!(ctx.builder().code_len(), 0);
}

#[test]
fn builder_starts_outside_any_function() {
    let b = Builder::new();
    assert!(b.function.is_none());
    assert_eq!(b.code_len(), 0);
}

#[test]
fn leaf_layouts_validate_only_their_own_records() {
    let (tab, rt_data, env, memrep, rt) = fresh();
    assert!(matches_layout(&tab, rt_data.get_type(), Layout::RuntimeData));
    assert!(!matches_layout(&tab, memrep.get_type(), Layout::RuntimeData));
    assert!(!matches_layout(&tab, rt_data.get_type(), Layout::MemRep));
    assert!(matches_layout(&tab, env.get_type(), Layout::Env));
    assert!(!matches_layout(&tab, rt.get_type(), Layout::Env));
    assert_eq!(body_of(&tab, rt_data.get_type()).len(), 10);
    assert_eq!(body_of(&tab, memrep.get_type()).len(), 3);
}

#[test]
fn constants_and_callbacks_use_context_types() {
    let ctx = JITContext::new();
    let c = ctx.evm_constants();
    assert_eq!(c.word_zero.ty, ctx.evm_types().word);
    assert_eq!(c.word_one.value, 1);
    assert_eq!(c.size_zero.ty, ctx.evm_types().size);
    match ctx.llvm_context().get(ctx.callback_types().storage_load) {
        IrType::Function { ret: None, params } => {
            assert_eq!(params, &vec![ctx.env().get_ptr_type(), ctx.evm_types().word_ptr, ctx.evm_types().word_ptr]);
        }
        _ => panic!("not a function signature"),
    }
    assert_eq!(ctx.attributes().function_attrs.len(), 1);
}
