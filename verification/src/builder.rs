//! The instruction builder: a two-state machine, detached or attached to
//! exactly one basic block. Instructions can be emitted only while attached;
//! emitting a block terminator clears the insertion point and returns the
//! builder to detached.

use vstd::prelude::*;

use crate::module::{Instruction, LLVM7Module, module_same_metadata};
use crate::values::{LLVM7BasicBlock, LLVM7Value};

verus! {

/// Where the builder inserts instructions, if anywhere.
#[derive(Clone, Copy, Debug, PartialEq, Eq, Structural)]
pub enum InsertionPoint {
    Detached,
    Attached { block: LLVM7BasicBlock },
}

/// An instruction builder. Its lifetime is independent of the ownership
/// chain, but everything it emits mutates a module of the same context;
/// the contracts' ownership-tag checks keep objects of different contexts
/// apart.
#[derive(Clone, Copy, Debug, PartialEq, Eq, Structural)]
pub struct LLVM7Builder {
    pub insertion_point: InsertionPoint,
}

impl LLVM7Builder {
    pub open spec fn is_detached(self) -> bool {
        self.insertion_point is Detached
    }

    /// A builder may emit instructions exactly while it is attached.
    pub open spec fn can_emit(self) -> bool {
        self.insertion_point is Attached
    }

    pub open spec fn is_attached_to(self, block: LLVM7BasicBlock) -> bool {
        self.insertion_point == (InsertionPoint::Attached { block })
    }

    /// The state after attaching to a block.
    pub open spec fn spec_attach(self, block: LLVM7BasicBlock) -> LLVM7Builder {
        LLVM7Builder { insertion_point: InsertionPoint::Attached { block } }
    }

    /// The state after emitting a block terminator: the insertion point is
    /// cleared, whatever it was.
    pub open spec fn spec_after_terminator(self) -> LLVM7Builder {
        LLVM7Builder { insertion_point: InsertionPoint::Detached }
    }

    /// Binds the builder to the end of `basic_block`. Attaching a builder
    /// that is already attached is a caller bug.
    pub fn attach(self, basic_block: LLVM7BasicBlock) -> (r: LLVM7Builder)
        requires
            self.is_detached(),
        ensures
            r == self.spec_attach(basic_block),
    {
        LLVM7Builder { insertion_point: InsertionPoint::Attached { block: basic_block } }
    }

    /// The block the builder is bound to; valid only while attached.
    pub fn current_basic_block(&self) -> (r: LLVM7BasicBlock)
        requires
            self.can_emit(),
        ensures
            self.is_attached_to(r),
    {
        match &self.insertion_point {
            InsertionPoint::Attached { block } => *block,
            InsertionPoint::Detached => vstd::pervasive::unreached(),
        }
    }

    /// Emits a return terminator — value-carrying or void — at the end of the
    /// current block, then clears the insertion point. Emitting while
    /// detached, pointing the builder at a block outside `module`, or mixing
    /// objects of different contexts is a caller bug.
    pub fn build_return(self, module: &mut LLVM7Module, value: Option<LLVM7Value>) -> (r:
        LLVM7Builder)
        requires
            !old(module).verified,
            self.can_emit(),
            self.insertion_point matches InsertionPoint::Attached { block } ==> {
                &&& block.module_id == old(module).id
                &&& block.context_id == old(module).context_id
                &&& block.function_index < old(module).functions@.len()
                &&& block.block_index < old(module).functions@[
                    block.function_index as int
                ].blocks@.len()
            },
            value matches Some(v) ==> v.context_id == old(module).context_id,
        ensures
            r == self.spec_after_terminator(),
            module_same_metadata(*old(module), *final(module)),
            final(module).functions@.len() == old(module).functions@.len(),
            self.insertion_point matches InsertionPoint::Attached { block } ==> {
                let fi = block.function_index as int;
                let bi = block.block_index as int;
                let f = final(module).functions@[fi];
                let g = old(module).functions@[fi];
                &&& forall|k: int|
                    0 <= k < old(module).functions@.len() && k != fi
                        ==> final(module).functions@[k] == old(module).functions@[k]
                &&& f.name == g.name
                &&& f.ty == g.ty
                &&& f.blocks@.len() == g.blocks@.len()
                &&& forall|k: int| 0 <= k < g.blocks@.len() && k != bi ==> f.blocks@[k] == g.blocks@[k]
                &&& f.blocks@[bi].name == g.blocks@[bi].name
                &&& f.blocks@[bi].instructions@ == g.blocks@[bi].instructions@.push(
                    Instruction::Return { value },
                )
            },
    {
        let block = match &self.insertion_point {
            InsertionPoint::Attached { block } => *block,
            InsertionPoint::Detached => vstd::pervasive::unreached(),
        };
        let ghost functions_before = module.functions@;
        let mut f = module.functions.remove(block.function_index);
        let ghost blocks_before = f.blocks@;
        let mut b = f.blocks.remove(block.block_index);
        b.instructions.push(Instruction::Return { value });
        f.blocks.insert(block.block_index, b);
        module.functions.insert(block.function_index, f);
        proof {
            let fi = block.function_index as int;
            let bi = block.block_index as int;
            assert forall|k: int| 0 <= k < functions_before.len() && k != fi implies
                module.functions@[k] == functions_before[k] by {
                if k < fi {
                    assert(module.functions@[k] == functions_before.remove(fi)[k]);
                } else {
                    assert(module.functions@[k] == functions_before.remove(fi)[k - 1]);
                }
            }
            assert forall|k: int| 0 <= k < blocks_before.len() && k != bi implies
                module.functions@[fi].blocks@[k] == blocks_before[k] by {
                if k < bi {
                    assert(module.functions@[fi].blocks@[k] == blocks_before.remove(bi)[k]);
                } else {
                    assert(module.functions@[fi].blocks@[k] == blocks_before.remove(bi)[k - 1]);
                }
            }
        }
        LLVM7Builder { insertion_point: InsertionPoint::Detached }
    }
}

/// A builder emits instructions if and only if it is attached: every emitting
/// operation requires `can_emit`, attaching enables it, and a terminator
/// always puts the builder back into the detached state.
pub proof fn lemma_attach_then_terminator_detaches(b: LLVM7Builder, block: LLVM7BasicBlock)
    requires
        b.is_detached(),
    ensures
        !b.can_emit(),
        b.spec_attach(block).can_emit(),
        b.spec_attach(block).is_attached_to(block),
        b.spec_attach(block).spec_after_terminator().is_detached(),
{
}

} // verus!
