//! The compiler driver: one-shot orchestration of a compile run.
//!
//! The driver's decisions — when the process-wide native-target
//! initialization runs, whether a resolved target may be used, which
//! optimization level, relocation and code-model settings the target machine
//! gets, and which function keys the final artifact answers to — are verified
//! here over plain values. The engine actions those decisions call for
//! (querying the host target, constructing the target machine, JIT-loading
//! the module, resolving addresses) are performed outside and their outcomes
//! handed back in.

use vstd::prelude::*;

use crate::config::{LLVM7CompilerConfig, OptimizationMode};
use crate::module::LLVM7Module;
use crate::values::LLVM7Function;

verus! {

/// The guard around the process-wide native-target initialization: the
/// underlying engine initialization must run at most once per process,
/// however many runs the driver makes.
#[derive(Clone, Copy, Debug, PartialEq, Eq, Structural)]
pub struct NativeTargetInitializer {
    pub initialized: bool,
}

/// What one pass through the guard does: the guard ends initialized, and the
/// underlying initialization is performed exactly when the guard was not
/// initialized before.
pub open spec fn spec_initialize(before: bool) -> (bool, bool) {
    (true, !before)
}

impl NativeTargetInitializer {
    pub fn new() -> (r: NativeTargetInitializer)
        ensures
            !r.initialized,
    {
        NativeTargetInitializer { initialized: false }
    }

    /// Passes through the guard, reporting whether the underlying
    /// initialization must be performed now.
    pub fn initialize(&mut self) -> (performed: bool)
        ensures
            (final(self).initialized, performed) == spec_initialize(old(self).initialized),
            final(self).initialized,
            performed == !old(self).initialized,
    {
        let performed = !self.initialized;
        self.initialized = true;
        performed
    }
}

/// However many times the guard is passed, the underlying initialization is
/// performed exactly once — on the first pass — and every later pass sees an
/// initialized guard and performs nothing.
pub proof fn lemma_initialization_performed_exactly_once(before: bool)
    ensures
        ({
            let (g1, p1) = spec_initialize(before);
            let (g2, p2) = spec_initialize(g1);
            &&& g1
            &&& g2
            &&& !before ==> p1
            &&& !p2
        }),
{
}

/// What the engine reports of the running host: its target triple, CPU name
/// and CPU feature set.
#[derive(Debug)]
pub struct HostTargetInfo {
    pub triple: String,
    pub cpu_name: String,
    pub cpu_features: String,
}

/// The engine's answer to resolving a target for the host triple.
#[derive(Debug)]
pub enum TargetResolution {
    /// A target exists for the triple; it may or may not support JIT
    /// execution.
    Resolved { supports_jit: bool },
    /// No target exists; the engine's diagnostic text says why.
    Failed { message: String },
}

/// The engine's code-generation optimization levels.
#[derive(Clone, Copy, Debug, PartialEq, Eq, Structural)]
pub enum CodeGenOptLevel {
    LevelNone,
    LevelLess,
    LevelDefault,
    LevelAggressive,
}

/// The engine's relocation modes.
#[derive(Clone, Copy, Debug, PartialEq, Eq, Structural)]
pub enum RelocMode {
    RelocDefault,
    RelocStatic,
    RelocPIC,
    RelocDynamicNoPic,
}

/// The engine's code models.
#[derive(Clone, Copy, Debug, PartialEq, Eq, Structural)]
pub enum CodeModel {
    ModelDefault,
    ModelJITDefault,
    ModelSmall,
    ModelKernel,
    ModelMedium,
    ModelLarge,
}

/// The optimization level a configured optimization mode asks of the engine.
pub open spec fn opt_level_for(mode: OptimizationMode) -> CodeGenOptLevel {
    match mode {
        OptimizationMode::NoOptimizations => CodeGenOptLevel::LevelNone,
        OptimizationMode::Normal => CodeGenOptLevel::LevelDefault,
    }
}

pub fn codegen_opt_level(mode: OptimizationMode) -> (r: CodeGenOptLevel)
    ensures
        r == opt_level_for(mode),
{
    match mode {
        OptimizationMode::NoOptimizations => CodeGenOptLevel::LevelNone,
        OptimizationMode::Normal => CodeGenOptLevel::LevelDefault,
    }
}

/// Everything the engine needs to build a target machine for JIT execution.
#[derive(Debug)]
pub struct TargetMachineDescription {
    pub triple: String,
    pub cpu_name: String,
    pub cpu_features: String,
    pub opt_level: CodeGenOptLevel,
    pub reloc_mode: RelocMode,
    pub code_model: CodeModel,
}

/// A recoverable failure of a run, surfaced to the caller with the engine's
/// diagnostic where there is one.
#[derive(Debug)]
pub enum RunError {
    /// The engine found no target for the host triple; its diagnostic names
    /// the triple it was asked about.
    TargetLookupFailed { message: String },
    /// A target exists for the triple but cannot execute code just-in-time.
    TargetHasNoJIT { triple: String },
}

/// Decides target selection for a run: a lookup failure and a target without
/// JIT support are recoverable errors — the latter naming the offending
/// triple — and a usable target yields the machine description the JIT stage
/// needs, combining the host's triple, CPU name and features with the
/// configured optimization level and JIT-appropriate relocation and
/// code-model settings.
pub fn plan_target_machine(
    config: &LLVM7CompilerConfig,
    host: HostTargetInfo,
    resolution: TargetResolution,
) -> (r: Result<TargetMachineDescription, RunError>)
    ensures
        resolution matches TargetResolution::Failed { message } ==> r == Err::<
            TargetMachineDescription,
            RunError,
        >(RunError::TargetLookupFailed { message }),
        (resolution matches TargetResolution::Resolved { supports_jit } && !supports_jit) ==> r
            == Err::<TargetMachineDescription, RunError>(RunError::TargetHasNoJIT {
            triple: host.triple,
        }),
        (resolution matches TargetResolution::Resolved { supports_jit } && supports_jit) ==> r
            == Ok::<TargetMachineDescription, RunError>(TargetMachineDescription {
            triple: host.triple,
            cpu_name: host.cpu_name,
            cpu_features: host.cpu_features,
            opt_level: opt_level_for(config.optimization_mode),
            reloc_mode: RelocMode::RelocDefault,
            code_model: CodeModel::ModelJITDefault,
        }),
{
    match resolution {
        TargetResolution::Failed { message } => Err(RunError::TargetLookupFailed { message }),
        TargetResolution::Resolved { supports_jit } => {
            if !supports_jit {
                Err(RunError::TargetHasNoJIT { triple: host.triple })
            } else {
                Ok(
                    TargetMachineDescription {
                        triple: host.triple,
                        cpu_name: host.cpu_name,
                        cpu_features: host.cpu_features,
                        opt_level: codegen_opt_level(config.optimization_mode),
                        reloc_mode: RelocMode::RelocDefault,
                        code_model: CodeModel::ModelJITDefault,
                    },
                )
            }
        },
    }
}

/// The runtime address of an external symbol, or the refusal to supply one.
#[derive(Clone, Copy, Debug, PartialEq, Eq, Structural)]
pub enum SymbolResolution {
    ResolvedAt { address: u64 },
    Unresolved,
}

/// The resolution policy for symbols a JIT-loaded module references but does
/// not define: modules handed to the JIT stage must be self-contained, so
/// every external reference is rejected, which fails the load rather than
/// handing compiled code a dangling address.
pub fn resolve_external_symbol(_name: &str) -> (r: SymbolResolution)
    ensures
        r == SymbolResolution::Unresolved,
{
    SymbolResolution::Unresolved
}

/// A unique-keyed mapping from caller-chosen function keys to function
/// handles; inserting a duplicate key is rejected by the mapping itself.
#[derive(Debug)]
pub struct CallableFunctions {
    pub entries: Vec<(String, LLVM7Function)>,
}

impl CallableFunctions {
    pub open spec fn spec_contains_key(self, key: Seq<char>) -> bool {
        exists|i: int| 0 <= i < self.entries@.len() && (#[trigger] self.entries@[i].0@) == key
    }

    /// No key appears twice.
    pub open spec fn wf(self) -> bool {
        forall|i: int, j: int|
            0 <= i < j < self.entries@.len() ==> (#[trigger] self.entries@[i].0@) != (
            #[trigger] self.entries@[j].0@)
    }

    pub fn new() -> (r: CallableFunctions)
        ensures
            r.entries@.len() == 0,
            r.wf(),
    {
        CallableFunctions { entries: Vec::new() }
    }

    pub fn len(&self) -> (r: usize)
        ensures
            r == self.entries@.len(),
    {
        self.entries.len()
    }

    pub fn contains_key(&self, key: &String) -> (r: bool)
        ensures
            r == self.spec_contains_key(key@),
    {
        let n = self.entries.len();
        let mut i: usize = 0;
        while i < n
            invariant
                n == self.entries@.len(),
                i <= n,
                forall|j: int| 0 <= j < i ==> (#[trigger] self.entries@[j].0@) != key@,
            decreases n - i,
        {
            if self.entries[i].0 == *key {
                return true;
            }
            i += 1;
        }
        false
    }

    /// Adds a key, unless the key is already present: a duplicate key leaves
    /// the mapping unchanged and is reported rejected.
    pub fn insert(&mut self, key: String, function: LLVM7Function) -> (r: bool)
        ensures
            old(self).spec_contains_key(key@) ==> !r && *final(self) == *old(self),
            !old(self).spec_contains_key(key@) ==> r && final(self).entries@ == old(
                self,
            ).entries@.push((key, function)),
            old(self).wf() ==> final(self).wf(),
    {
        if self.contains_key(&key) {
            false
        } else {
            let ghost before = self.entries@;
            self.entries.push((key, function));
            proof {
                if old(self).wf() {
                    assert forall|i: int, j: int| 0 <= i < j < self.entries@.len() implies (
                    #[trigger] self.entries@[i].0@) != (#[trigger] self.entries@[j].0@) by {
                        if j == self.entries@.len() - 1 {
                            assert(before[i].0@ != self.entries@[j].0@);
                        }
                    }
                }
            }
            true
        }
    }

    /// Every key maps to a function whose recorded parent is `module` and
    /// whose position lies inside it: what the frontend contract demands of
    /// the callable-function table it supplies.
    pub open spec fn all_owned_by(self, module: LLVM7Module) -> bool {
        forall|i: int|
            0 <= i < self.entries@.len() ==> {
                let f = (#[trigger] self.entries@[i]).1;
                &&& f.module_id == module.id
                &&& f.context_id == module.context_id
                &&& f.index < module.functions@.len()
            }
    }

    /// Checks `all_owned_by` at run time, so an unverified caller can test
    /// the frontend's output before the driver relies on it.
    pub fn check_all_owned_by(&self, module: &LLVM7Module) -> (r: bool)
        ensures
            r == self.all_owned_by(*module),
    {
        let n = self.entries.len();
        let mut i: usize = 0;
        while i < n
            invariant
                n == self.entries@.len(),
                i <= n,
                forall|j: int|
                    0 <= j < i ==> {
                        let f = (#[trigger] self.entries@[j]).1;
                        &&& f.module_id == module.id
                        &&& f.context_id == module.context_id
                        &&& f.index < module.functions@.len()
                    },
            decreases n - i,
        {
            let f = &self.entries[i].1;
            if !(f.module_id == module.id && f.context_id == module.context_id && f.index
                < module.functions.len()) {
                return false;
            }
            i += 1;
        }
        true
    }

    /// Checks key uniqueness at run time.
    pub fn check_keys_unique(&self) -> (r: bool)
        ensures
            r == self.wf(),
    {
        let n = self.entries.len();
        let mut i: usize = 0;
        while i < n
            invariant
                n == self.entries@.len(),
                i <= n,
                forall|a: int, b: int|
                    0 <= a < b < n && a < i ==> (#[trigger] self.entries@[a].0@) != (
                    #[trigger] self.entries@[b].0@),
            decreases n - i,
        {
            let mut j: usize = i + 1;
            while j < n
                invariant
                    n == self.entries@.len(),
                    i < j <= n,
                    forall|b: int| i < b < j ==> self.entries@[i as int].0@ != (
                    #[trigger] self.entries@[b].0@),
                decreases n - j,
            {
                if self.entries[i].0 == self.entries[j].0 {
                    return false;
                }
                j += 1;
            }
            i += 1;
        }
        true
    }
}

/// What the external frontend hands back: one finished, verified module plus
/// the unique-keyed table of functions the caller wants to call after
/// compilation, all of which must belong to that module.
#[derive(Debug)]
pub struct CompileInputs {
    pub module: LLVM7Module,
    pub callable_functions: CallableFunctions,
}

impl CompileInputs {
    /// The frontend contract: the module has passed verification, keys are
    /// unique, and every callable function belongs to the module.
    pub open spec fn wf(self) -> bool {
        &&& self.module.verified
        &&& self.callable_functions.wf()
        &&& self.callable_functions.all_owned_by(self.module)
    }

    /// Checks the frontend contract at run time, for unverified callers that
    /// receive these inputs from outside.
    pub fn check(&self) -> (r: bool)
        ensures
            r == self.wf(),
    {
        self.module.verified && self.callable_functions.check_keys_unique()
            && self.callable_functions.check_all_owned_by(&self.module)
    }
}

/// Everything the JIT stage needs from a successful run: the target machine
/// to build, the verified module to load eagerly, and the keys the compiled
/// artifact must answer to.
#[derive(Debug)]
pub struct CompilationPlan {
    pub target_machine: TargetMachineDescription,
    pub module: LLVM7Module,
    pub callable_functions: CallableFunctions,
}

/// The final artifact: compiled, callable entry points looked up by the same
/// function keys the frontend chose. It owns the JIT stack's loaded code and
/// outlives the context that built the intermediate representation.
#[derive(Debug)]
pub struct LLVM7CompiledCode {
    pub entries: Vec<(String, u64)>,
}

impl LLVM7CompiledCode {
    pub open spec fn spec_contains_key(self, key: Seq<char>) -> bool {
        exists|i: int| 0 <= i < self.entries@.len() && (#[trigger] self.entries@[i].0@) == key
    }

    pub open spec fn wf(self) -> bool {
        forall|i: int, j: int|
            0 <= i < j < self.entries@.len() ==> (#[trigger] self.entries@[i].0@) != (
            #[trigger] self.entries@[j].0@)
    }

    pub fn new() -> (r: LLVM7CompiledCode)
        ensures
            r.entries@.len() == 0,
            r.wf(),
    {
        LLVM7CompiledCode { entries: Vec::new() }
    }

    /// Records the entry point the JIT stage resolved for one function key;
    /// a duplicate key is rejected and changes nothing.
    pub fn record_entry(&mut self, key: String, address: u64) -> (r: bool)
        ensures
            old(self).spec_contains_key(key@) ==> !r && *final(self) == *old(self),
            !old(self).spec_contains_key(key@) ==> r && final(self).entries@ == old(
                self,
            ).entries@.push((key, address)),
            old(self).wf() ==> final(self).wf(),
    {
        let n = self.entries.len();
        let mut i: usize = 0;
        while i < n
            invariant
                n == self.entries@.len(),
                i <= n,
                forall|j: int| 0 <= j < i ==> (#[trigger] self.entries@[j].0@) != key@,
            decreases n - i,
        {
            if self.entries[i].0 == key {
                return false;
            }
            i += 1;
        }
        let ghost before = self.entries@;
        self.entries.push((key, address));
        proof {
            if old(self).wf() {
                assert forall|i: int, j: int| 0 <= i < j < self.entries@.len() implies (
                #[trigger] self.entries@[i].0@) != (#[trigger] self.entries@[j].0@) by {
                    if j == self.entries@.len() - 1 {
                        assert(before[i].0@ != self.entries@[j].0@);
                    }
                }
            }
        }
        true
    }

    /// The runtime-callable entry point recorded for a function key, if the
    /// key is one the artifact was built with.
    pub fn lookup(&self, key: &String) -> (r: Option<u64>)
        ensures
            r matches Some(address) ==> exists|i: int|
                0 <= i < self.entries@.len() && (#[trigger] self.entries@[i].0@) == key@
                    && self.entries@[i].1 == address,
            r is None ==> !self.spec_contains_key(key@),
    {
        let n = self.entries.len();
        let mut i: usize = 0;
        while i < n
            invariant
                n == self.entries@.len(),
                i <= n,
                forall|j: int| 0 <= j < i ==> (#[trigger] self.entries@[j].0@) != key@,
            decreases n - i,
        {
            if self.entries[i].0 == *key {
                return Some(self.entries[i].1);
            }
            i += 1;
        }
        None
    }
}

/// The backend itself: stateless, one execution per `run` call.
#[derive(Clone, Copy, Debug)]
pub struct LLVM7Compiler;

impl LLVM7Compiler {
    pub fn name(self) -> (r: &'static str)
        ensures
            r@ == "LLVM 7"@,
    {
        "LLVM 7"
    }

    /// One compile run, given the frontend's finished inputs and the engine's
    /// answers about the host: passes the native-target initialization guard,
    /// then decides target selection. The caller must have checked the
    /// frontend contract (`CompileInputs::check`); a frontend that hands over
    /// functions a module does not own is a bug this driver refuses to work
    /// around. A target-lookup failure or a target without JIT support is
    /// returned as a recoverable error; otherwise the run yields the
    /// compilation plan whose target machine, module and function keys the
    /// JIT stage executes.
    pub fn run(
        self,
        guard: &mut NativeTargetInitializer,
        config: &LLVM7CompilerConfig,
        inputs: CompileInputs,
        host: HostTargetInfo,
        resolution: TargetResolution,
    ) -> (r: Result<CompilationPlan, RunError>)
        requires
            inputs.wf(),
        ensures
            final(guard).initialized,
            resolution matches TargetResolution::Failed { message } ==> r == Err::<
                CompilationPlan,
                RunError,
            >(RunError::TargetLookupFailed { message }),
            (resolution matches TargetResolution::Resolved { supports_jit } && !supports_jit)
                ==> r == Err::<CompilationPlan, RunError>(RunError::TargetHasNoJIT {
                triple: host.triple,
            }),
            (resolution matches TargetResolution::Resolved { supports_jit } && supports_jit) ==> {
                &&& r matches Ok(plan)
                &&& plan.target_machine == (TargetMachineDescription {
                    triple: host.triple,
                    cpu_name: host.cpu_name,
                    cpu_features: host.cpu_features,
                    opt_level: opt_level_for(config.optimization_mode),
                    reloc_mode: RelocMode::RelocDefault,
                    code_model: CodeModel::ModelJITDefault,
                })
                &&& plan.module == inputs.module
                &&& plan.callable_functions == inputs.callable_functions
            },
    {
        let _ = guard.initialize();
        let CompileInputs { module, callable_functions } = inputs;
        match plan_target_machine(config, host, resolution) {
            Ok(target_machine) => Ok(
                CompilationPlan { target_machine, module, callable_functions },
            ),
            Err(e) => Err(e),
        }
    }
}

} // verus!
