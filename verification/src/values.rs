//! Thin, copyable handles into engine-owned objects: values, basic blocks and
//! functions. None of them owns anything; each carries the tags of the
//! context, module and position it refers to, and is valid only while that
//! owner is alive.

use vstd::prelude::*;

verus! {

/// What a generic value handle refers to.
#[derive(Clone, Copy, Debug, PartialEq, Eq, Structural)]
pub enum ValueKind {
    /// A function, usable as a value (for calls and address-taking).
    FunctionRef { module_id: u64, function_index: usize },
    /// A basic block, usable as a value (for branch targets).
    BasicBlockRef { module_id: u64, function_index: usize, block_index: usize },
}

/// An opaque, copyable value handle scoped to one context.
#[derive(Clone, Copy, Debug, PartialEq, Eq, Structural)]
pub struct LLVM7Value {
    pub context_id: u64,
    pub kind: ValueKind,
}

/// A handle to one basic block of one function; it has no disposal of its
/// own — its lifetime is the function's.
#[derive(Clone, Copy, Debug, PartialEq, Eq, Structural)]
pub struct LLVM7BasicBlock {
    pub context_id: u64,
    pub module_id: u64,
    pub function_index: usize,
    pub block_index: usize,
}

impl LLVM7BasicBlock {
    /// A basic block is simultaneously usable as a generic value, for branch
    /// targets.
    pub fn as_value(&self) -> (r: LLVM7Value)
        ensures
            r.context_id == self.context_id,
            r.kind == (ValueKind::BasicBlockRef {
                module_id: self.module_id,
                function_index: self.function_index,
                block_index: self.block_index,
            }),
    {
        LLVM7Value {
            context_id: self.context_id,
            kind: ValueKind::BasicBlockRef {
                module_id: self.module_id,
                function_index: self.function_index,
                block_index: self.block_index,
            },
        }
    }

    pub fn as_basic_block(&self) -> (r: LLVM7BasicBlock)
        ensures
            r == *self,
    {
        *self
    }
}

/// A handle to one function of one module; a function never moves between
/// modules, so the module tag it carries is its parent for good.
#[derive(Clone, Copy, Debug, PartialEq, Eq, Structural)]
pub struct LLVM7Function {
    pub context_id: u64,
    pub module_id: u64,
    pub index: usize,
}

impl LLVM7Function {
    pub fn as_value(&self) -> (r: LLVM7Value)
        ensures
            r.context_id == self.context_id,
            r.kind == (ValueKind::FunctionRef {
                module_id: self.module_id,
                function_index: self.index,
            }),
    {
        LLVM7Value {
            context_id: self.context_id,
            kind: ValueKind::FunctionRef {
                module_id: self.module_id,
                function_index: self.index,
            },
        }
    }

    /// The module that owns this function: the one it was added to.
    pub fn parent_module_id(&self) -> (r: u64)
        ensures
            r == self.module_id,
    {
        self.module_id
    }
}

} // verus!
