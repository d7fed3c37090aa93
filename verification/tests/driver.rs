use shader_compiler_llvm_7::config::{LLVM7CompilerConfig, OptimizationMode};
use shader_compiler_llvm_7::context::LLVM7Context;
use shader_compiler_llvm_7::driver::{
    CallableFunctions, CodeGenOptLevel, CodeModel, CompileInputs, HostTargetInfo,
    LLVM7CompiledCode, LLVM7Compiler, NativeTargetInitializer, RelocMode, RunError,
    SymbolResolution, TargetResolution, codegen_opt_level, resolve_external_symbol,
};

fn host() -> HostTargetInfo {
    HostTargetInfo {
        triple: "x86_64-unknown-linux-gnu".to_string(),
        cpu_name: "generic".to_string(),
        cpu_features: "+sse2".to_string(),
    }
}

#[test]
fn compiler_name() {
    assert_eq!(LLVM7Compiler.name(), "LLVM 7");
}

#[test]
fn initialization_runs_exactly_once() {
    let mut guard = NativeTargetInitializer::new();
    assert!(!guard.initialized);
    assert!(guard.initialize());
    assert!(guard.initialized);
    assert!(!guard.initialize());
    assert!(!guard.initialize());
    assert!(guard.initialized);
}

#[test]
fn opt_level_follows_optimization_mode() {
    assert_eq!(codegen_opt_level(OptimizationMode::NoOptimizations), CodeGenOptLevel::LevelNone);
    assert_eq!(codegen_opt_level(OptimizationMode::Normal), CodeGenOptLevel::LevelDefault);
}

#[test]
fn external_symbols_are_rejected() {
    assert_eq!(resolve_external_symbol("memcpy"), SymbolResolution::Unresolved);
}

#[test]
fn callable_functions_reject_duplicate_keys() {
    let mut ctx = LLVM7Context::new(1, LLVM7CompilerConfig::default());
    let tb = ctx.create_type_builder();
    let mut m = ctx.create_module("m");
    let f = m.add_function("f", tb.build_function(vec![], None));
    let g = m.add_function("g", tb.build_function(vec![], None));
    let mut callable = CallableFunctions::new();
    assert!(callable.insert("main".to_string(), f));
    assert!(!callable.insert("main".to_string(), g));
    assert_eq!(callable.len(), 1);
    assert!(callable.contains_key(&"main".to_string()));
    assert!(!callable.contains_key(&"other".to_string()));
    assert!(callable.insert("other".to_string(), g));
    assert_eq!(callable.len(), 2);
}

#[test]
fn compile_inputs_check_frontend_contract() {
    let mut ctx = LLVM7Context::new(1, LLVM7CompilerConfig::default());
    let tb = ctx.create_type_builder();
    let mut m = ctx.create_module("m");
    let f = m.add_function("f", tb.build_function(vec![], None));
    let mut other = ctx.create_module("other");
    let stray = other.add_function("stray", tb.build_function(vec![], None));

    let mut callable = CallableFunctions::new();
    callable.insert("f".to_string(), f);
    let inputs = CompileInputs { module: m.to_verified_module_unchecked(), callable_functions: callable };
    assert!(inputs.check());

    let mut bad = CallableFunctions::new();
    bad.insert("stray".to_string(), stray);
    let bad_inputs = CompileInputs { module: inputs.module, callable_functions: bad };
    assert!(!bad_inputs.check());
}

#[test]
fn compiled_code_lookup_by_function_key() {
    let mut code = LLVM7CompiledCode::new();
    assert!(code.record_entry("add".to_string(), 0x1000));
    assert!(code.record_entry("sub".to_string(), 0x2000));
    assert!(!code.record_entry("add".to_string(), 0x3000));
    assert_eq!(code.lookup(&"add".to_string()), Some(0x1000));
    assert_eq!(code.lookup(&"sub".to_string()), Some(0x2000));
    assert_eq!(code.lookup(&"mul".to_string()), None);
}

#[test]
fn run_surfaces_target_lookup_failure() {
    let mut ctx = LLVM7Context::new(1, LLVM7CompilerConfig::default());
    let tb = ctx.create_type_builder();
    let mut m = ctx.create_module("m");
    let f = m.add_function("f", tb.build_function(vec![], None));
    let module_id = m.id;
    let mut callable = CallableFunctions::new();
    callable.insert("f".to_string(), f);
    let inputs =
        CompileInputs { module: m.to_verified_module_unchecked(), callable_functions: callable };
    assert!(inputs.check());

    let mut guard = NativeTargetInitializer::new();
    let config = LLVM7CompilerConfig::default();
    let resolution = TargetResolution::Failed {
        message: "no target for triple \"riscv128-unknown-none\"".to_string(),
    };
    let err = LLVM7Compiler
        .run(&mut guard, &config, inputs, host(), resolution)
        .expect_err("a failed target lookup must be a recoverable error");
    match err {
        RunError::TargetLookupFailed { message } => {
            assert!(message.contains("riscv128-unknown-none"));
        }
        other => panic!("wrong error: {:?}", other),
    }
    // the context still owns its module: nothing leaked on the error path
    assert_eq!(ctx.modules, vec![module_id]);
    assert!(guard.initialized);
}

#[test]
fn run_rejects_target_without_jit() {
    let mut ctx = LLVM7Context::new(1, LLVM7CompilerConfig::default());
    let tb = ctx.create_type_builder();
    let mut m = ctx.create_module("m");
    let f = m.add_function("f", tb.build_function(vec![], None));
    let mut callable = CallableFunctions::new();
    callable.insert("f".to_string(), f);
    let inputs =
        CompileInputs { module: m.to_verified_module_unchecked(), callable_functions: callable };

    let mut guard = NativeTargetInitializer::new();
    let config = LLVM7CompilerConfig::default();
    let err = LLVM7Compiler
        .run(&mut guard, &config, inputs, host(), TargetResolution::Resolved {
            supports_jit: false,
        })
        .expect_err("a target without JIT support must be a recoverable error");
    match err {
        RunError::TargetHasNoJIT { triple } => assert_eq!(triple, "x86_64-unknown-linux-gnu"),
        other => panic!("wrong error: {:?}", other),
    }
}

#[test]
fn run_builds_module_with_add_function_and_looks_it_up() {
    let mut ctx = LLVM7Context::new(1, LLVM7CompilerConfig {
        variable_vector_length_multiplier: 1,
        optimization_mode: OptimizationMode::Normal,
    });
    let tb = ctx.create_type_builder();
    let mut m = ctx.create_module("sum");
    let add_ty = tb.build_function(vec![tb.build_i32(), tb.build_i32()], Some(tb.build_i32()));
    let add = m.add_function("add", add_ty);
    let entry = add.append_new_basic_block(&mut m, Some("entry"));
    let builder = ctx.create_builder().attach(entry);
    builder.build_return(&mut m, Some(add.as_value()));
    let verified = m.verify().expect("the add module is structurally valid");

    let mut callable = CallableFunctions::new();
    assert!(callable.insert("add".to_string(), add));
    let inputs = CompileInputs { module: verified, callable_functions: callable };
    assert!(inputs.check());

    let mut guard = NativeTargetInitializer::new();
    let config = LLVM7CompilerConfig {
        variable_vector_length_multiplier: 1,
        optimization_mode: OptimizationMode::Normal,
    };
    let plan = LLVM7Compiler
        .run(&mut guard, &config, inputs, host(), TargetResolution::Resolved {
            supports_jit: true,
        })
        .expect("a usable target must yield a compilation plan");
    assert_eq!(plan.target_machine.triple, "x86_64-unknown-linux-gnu");
    assert_eq!(plan.target_machine.cpu_name, "generic");
    assert_eq!(plan.target_machine.cpu_features, "+sse2");
    assert_eq!(plan.target_machine.opt_level, CodeGenOptLevel::LevelDefault);
    assert_eq!(plan.target_machine.reloc_mode, RelocMode::RelocDefault);
    assert_eq!(plan.target_machine.code_model, CodeModel::ModelJITDefault);
    assert_eq!(plan.module.name, "sum");
    assert!(plan.module.verified);

    // the JIT stage resolves one entry point per function key
    let mut code = LLVM7CompiledCode::new();
    assert!(code.record_entry("add".to_string(), 0x4000));
    assert_eq!(code.lookup(&"add".to_string()), Some(0x4000));
    assert_eq!(code.lookup(&"missing".to_string()), None);
}
