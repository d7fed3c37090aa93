use shader_compiler_llvm_7::builder::InsertionPoint;
use shader_compiler_llvm_7::config::{
    CompilerIndependentConfig, LLVM7CompilerConfig, OptimizationMode,
};
use shader_compiler_llvm_7::context::{DisposeEvent, LLVM7Context};
use shader_compiler_llvm_7::module::Instruction;
use shader_compiler_llvm_7::types::{TypeKind, VectorLength};
use shader_compiler_llvm_7::values::ValueKind;

fn test_config(multiplier: u32) -> LLVM7CompilerConfig {
    LLVM7CompilerConfig {
        variable_vector_length_multiplier: multiplier,
        optimization_mode: OptimizationMode::NoOptimizations,
    }
}

#[test]
fn default_configs() {
    let independent = CompilerIndependentConfig::default();
    assert_eq!(independent.optimization_mode, OptimizationMode::NoOptimizations);
    let config = LLVM7CompilerConfig::default();
    assert_eq!(config.variable_vector_length_multiplier, 1);
    assert_eq!(config.optimization_mode, OptimizationMode::NoOptimizations);
}

#[test]
fn config_from_independent() {
    let independent = CompilerIndependentConfig { optimization_mode: OptimizationMode::Normal };
    let config = LLVM7CompilerConfig::from(independent);
    assert_eq!(config.variable_vector_length_multiplier, 1);
    assert_eq!(config.optimization_mode, OptimizationMode::Normal);
}

#[test]
fn scalar_types() {
    let ctx = LLVM7Context::new(1, test_config(1));
    let tb = ctx.create_type_builder();
    assert_eq!(tb.build_bool().kind, TypeKind::Bool);
    assert_eq!(tb.build_i8().kind, TypeKind::I8);
    assert_eq!(tb.build_i16().kind, TypeKind::I16);
    assert_eq!(tb.build_i32().kind, TypeKind::I32);
    assert_eq!(tb.build_i64().kind, TypeKind::I64);
    assert_eq!(tb.build_f32().kind, TypeKind::F32);
    assert_eq!(tb.build_f64().kind, TypeKind::F64);
    assert_eq!(tb.build_bool().context_id, 1);
}

#[test]
fn pointer_and_array_types() {
    let ctx = LLVM7Context::new(1, test_config(1));
    let tb = ctx.create_type_builder();
    let p = tb.build_pointer(tb.build_i32());
    assert_eq!(p.kind, TypeKind::Pointer { target: Box::new(TypeKind::I32) });
    let a = tb.build_array(tb.build_i8(), 17);
    assert_eq!(a.kind, TypeKind::Array { element: Box::new(TypeKind::I8), count: 17 });
    let at_limit = tb.build_array(tb.build_i8(), u32::MAX as usize);
    assert_eq!(at_limit.kind, TypeKind::Array { element: Box::new(TypeKind::I8), count: u32::MAX });
}

#[test]
fn modules_with_equal_names_stay_distinct() {
    let mut ctx = LLVM7Context::new(5, test_config(1));
    let a = ctx.create_module("shader");
    let b = ctx.create_module("shader");
    assert_ne!(a.id, b.id);
    let log = ctx.dispose();
    assert_eq!(
        log,
        vec![
            DisposeEvent::DisposeModule { module_id: a.id },
            DisposeEvent::DisposeModule { module_id: b.id },
            DisposeEvent::DisposeContext { context_id: 5 },
        ]
    );
}

#[test]
fn struct_and_function_types() {
    let ctx = LLVM7Context::new(1, test_config(1));
    let tb = ctx.create_type_builder();
    let s = tb.build_struct(vec![tb.build_bool(), tb.build_i64()]);
    assert_eq!(s.kind, TypeKind::Struct { members: vec![TypeKind::Bool, TypeKind::I64] });
    let f = tb.build_function(vec![tb.build_i32(), tb.build_i32()], Some(tb.build_i32()));
    assert_eq!(
        f.kind,
        TypeKind::Function {
            arguments: vec![TypeKind::I32, TypeKind::I32],
            return_type: Box::new(TypeKind::I32),
        }
    );
    let void_fn = tb.build_function(vec![], None);
    assert_eq!(
        void_fn.kind,
        TypeKind::Function { arguments: vec![], return_type: Box::new(TypeKind::Void) }
    );
}

#[test]
fn fixed_vector_length_ignores_multiplier() {
    for multiplier in [1, 2, 7] {
        let ctx = LLVM7Context::new(1, test_config(multiplier));
        let tb = ctx.create_type_builder();
        let v = tb.build_vector(tb.build_f32(), VectorLength::Fixed { length: 4 });
        assert_eq!(v.kind, TypeKind::Vector { element: Box::new(TypeKind::F32), length: 4 });
    }
}

#[test]
fn variable_vector_length_scales_by_multiplier() {
    let ctx = LLVM7Context::new(1, test_config(3));
    let tb = ctx.create_type_builder();
    let v = tb.build_vector(tb.build_f32(), VectorLength::Variable { base_length: 4 });
    assert_eq!(v.kind, TypeKind::Vector { element: Box::new(TypeKind::F32), length: 12 });
}

#[test]
fn create_module_registers_in_context() {
    let mut ctx = LLVM7Context::new(9, test_config(1));
    let m = ctx.create_module("first");
    assert_eq!(m.context_id, 9);
    assert_eq!(m.name, "first");
    assert!(!m.verified);
    assert!(m.functions.is_empty());
    assert_eq!(ctx.modules, vec![m.id]);
    let m2 = ctx.create_module("second");
    assert_ne!(m.id, m2.id);
    assert_eq!(ctx.modules, vec![m.id, m2.id]);
}

#[test]
fn dispose_releases_each_module_before_context() {
    let mut ctx = LLVM7Context::new(4, test_config(1));
    let a = ctx.create_module("a");
    let b = ctx.create_module("b");
    let log = ctx.dispose();
    assert_eq!(
        log,
        vec![
            DisposeEvent::DisposeModule { module_id: a.id },
            DisposeEvent::DisposeModule { module_id: b.id },
            DisposeEvent::DisposeContext { context_id: 4 },
        ]
    );
}

#[test]
fn add_function_reports_parent_module() {
    let mut ctx = LLVM7Context::new(2, test_config(1));
    let tb = ctx.create_type_builder();
    let mut m = ctx.create_module("m");
    let ty = tb.build_function(vec![tb.build_i32()], Some(tb.build_i32()));
    let f = m.add_function("f", ty);
    assert_eq!(f.parent_module_id(), m.id);
    assert_eq!(f.context_id, m.context_id);
    assert_eq!(m.functions.len(), 1);
    assert_eq!(m.functions[0].name, "f");
    assert!(m.functions[0].blocks.is_empty());
}

#[test]
fn append_new_basic_block_grows_function() {
    let mut ctx = LLVM7Context::new(2, test_config(1));
    let tb = ctx.create_type_builder();
    let mut m = ctx.create_module("m");
    let f = m.add_function("f", tb.build_function(vec![], None));
    let entry = f.append_new_basic_block(&mut m, Some("entry"));
    assert_eq!(entry.function_index, f.index);
    assert_eq!(entry.block_index, 0);
    let second = f.append_new_basic_block(&mut m, None);
    assert_eq!(second.block_index, 1);
    assert_eq!(m.functions[0].blocks.len(), 2);
    assert_eq!(m.functions[0].blocks[0].name, "entry");
    assert_eq!(m.functions[0].blocks[1].name, "");
    assert!(m.functions[0].blocks[0].instructions.is_empty());
}

#[test]
fn basic_block_usable_as_value() {
    let mut ctx = LLVM7Context::new(2, test_config(1));
    let tb = ctx.create_type_builder();
    let mut m = ctx.create_module("m");
    let f = m.add_function("f", tb.build_function(vec![], None));
    let bb = f.append_new_basic_block(&mut m, None);
    let v = bb.as_value();
    assert_eq!(
        v.kind,
        ValueKind::BasicBlockRef {
            module_id: m.id,
            function_index: f.index,
            block_index: 0,
        }
    );
    assert_eq!(bb.as_basic_block(), bb);
    let fv = f.as_value();
    assert_eq!(fv.kind, ValueKind::FunctionRef { module_id: m.id, function_index: f.index });
}

#[test]
fn builder_attach_then_return_detaches() {
    let mut ctx = LLVM7Context::new(2, test_config(1));
    let tb = ctx.create_type_builder();
    let mut m = ctx.create_module("m");
    let f = m.add_function("f", tb.build_function(vec![], None));
    let bb = f.append_new_basic_block(&mut m, None);
    let builder = ctx.create_builder();
    assert_eq!(builder.insertion_point, InsertionPoint::Detached);
    let builder = builder.attach(bb);
    assert_eq!(builder.insertion_point, InsertionPoint::Attached { block: bb });
    assert_eq!(builder.current_basic_block(), bb);
    let builder = builder.build_return(&mut m, None);
    assert_eq!(builder.insertion_point, InsertionPoint::Detached);
    assert_eq!(m.functions[0].blocks[0].instructions, vec![Instruction::Return { value: None }]);
}

#[test]
fn verify_accepts_structurally_valid_module() {
    let mut ctx = LLVM7Context::new(2, test_config(1));
    let tb = ctx.create_type_builder();
    let mut m = ctx.create_module("m");
    let f = m.add_function("f", tb.build_function(vec![], None));
    let bb = f.append_new_basic_block(&mut m, None);
    let builder = ctx.create_builder().attach(bb);
    builder.build_return(&mut m, None);
    let verified = m.verify().expect("structurally valid module must verify");
    assert!(verified.verified);
    assert_eq!(verified.functions.len(), 1);
}

#[test]
fn verify_rejects_block_without_terminator() {
    let mut ctx = LLVM7Context::new(2, test_config(1));
    let tb = ctx.create_type_builder();
    let mut m = ctx.create_module("m");
    let f = m.add_function("f", tb.build_function(vec![], None));
    f.append_new_basic_block(&mut m, None);
    let failure = m.verify().expect_err("empty block must fail verification");
    assert!(!failure.diagnostic.is_empty());
    assert!(!failure.module.verified);
    assert_eq!(failure.module.name, "m");
    assert_eq!(failure.module.functions.len(), 1);
}

#[test]
fn declaration_only_module_verifies() {
    let mut ctx = LLVM7Context::new(2, test_config(1));
    let tb = ctx.create_type_builder();
    let mut m = ctx.create_module("m");
    m.add_function("external_fn", tb.build_function(vec![], None));
    assert!(m.verify().is_ok());
}

#[test]
fn unchecked_escape_hatch_marks_verified() {
    let mut ctx = LLVM7Context::new(2, test_config(1));
    let m = ctx.create_module("m");
    let verified = m.to_verified_module_unchecked();
    assert!(verified.verified);
    let back = verified.into_module();
    assert!(!back.verified);
}

#[test]
fn source_file_name_is_metadata_only() {
    let mut ctx = LLVM7Context::new(2, test_config(1));
    let mut m = ctx.create_module("m");
    assert_eq!(m.source_file_name, "");
    m.set_source_file_name("shader.frag");
    assert_eq!(m.source_file_name, "shader.frag");
    assert_eq!(m.name, "m");
}
