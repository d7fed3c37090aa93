//! Run configuration: optimization mode and the vector-length multiplier.

use vstd::prelude::*;

verus! {

/// How aggressively the code-generation engine should optimize.
#[derive(Clone, Copy, Debug, PartialEq, Eq, Structural)]
pub enum OptimizationMode {
    NoOptimizations,
    Normal,
}

/// Configuration that is meaningful for every backend, chosen before a run
/// begins and immutable for its duration.
#[derive(Clone, Copy, Debug, PartialEq, Eq, Structural)]
pub struct CompilerIndependentConfig {
    pub optimization_mode: OptimizationMode,
}

impl Default for CompilerIndependentConfig {
    fn default() -> (r: Self)
        ensures
            r.optimization_mode == OptimizationMode::NoOptimizations,
    {
        CompilerIndependentConfig { optimization_mode: OptimizationMode::NoOptimizations }
    }
}

/// Configuration of one compiler run: the shared settings plus the multiplier
/// applied to variable vector lengths, so that the same abstract code can
/// target machines with different native vector widths.
#[derive(Clone, Copy, Debug, PartialEq, Eq, Structural)]
pub struct LLVM7CompilerConfig {
    pub variable_vector_length_multiplier: u32,
    pub optimization_mode: OptimizationMode,
}

impl Default for LLVM7CompilerConfig {
    fn default() -> (r: Self)
        ensures
            r.variable_vector_length_multiplier == 1,
            r.optimization_mode == OptimizationMode::NoOptimizations,
    {
        LLVM7CompilerConfig {
            variable_vector_length_multiplier: 1,
            optimization_mode: OptimizationMode::NoOptimizations,
        }
    }
}

impl From<CompilerIndependentConfig> for LLVM7CompilerConfig {
    fn from(v: CompilerIndependentConfig) -> (r: Self) {
        LLVM7CompilerConfig {
            variable_vector_length_multiplier: 1,
            optimization_mode: v.optimization_mode,
        }
    }
}

impl vstd::std_specs::convert::FromSpecImpl<CompilerIndependentConfig> for LLVM7CompilerConfig {
    open spec fn obeys_from_spec() -> bool {
        true
    }

    open spec fn from_spec(v: CompilerIndependentConfig) -> Self {
        LLVM7CompilerConfig {
            variable_vector_length_multiplier: 1,
            optimization_mode: v.optimization_mode,
        }
    }
}

} // verus!
