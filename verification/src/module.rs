//! Modules: mutable containers of functions, owned by exactly one context,
//! progressing from unverified to verified.
//!
//! A module records the structure the engine would hold for it — each
//! function's name, signature and basic blocks, and each block's
//! instructions — so that verification is a checked, stated property rather
//! than a promise.

use vstd::prelude::*;

use crate::no_nul;
use crate::types::LLVM7Type;
use crate::values::{LLVM7BasicBlock, LLVM7Function, LLVM7Value};

verus! {

/// One instruction of a basic block.
#[derive(Clone, Copy, Debug, PartialEq, Eq, Structural)]
pub enum Instruction {
    /// A return terminator, value-carrying or void.
    Return { value: Option<LLVM7Value> },
}

/// Whether an instruction ends its basic block.
pub open spec fn is_terminator(i: Instruction) -> bool {
    match i {
        Instruction::Return { .. } => true,
    }
}

/// The contents of one basic block: a straight-line instruction sequence.
#[derive(Debug)]
pub struct BasicBlockData {
    pub name: String,
    pub instructions: Vec<Instruction>,
}

/// One function of a module: its name, its signature, and the basic blocks
/// appended to it so far. A function without blocks is a body-less
/// declaration.
#[derive(Debug)]
pub struct FunctionData {
    pub name: String,
    pub ty: LLVM7Type,
    pub blocks: Vec<BasicBlockData>,
}

/// A unit of compilation: a set of functions owned by exactly one context.
#[derive(Debug)]
pub struct LLVM7Module {
    pub context_id: u64,
    pub id: u64,
    pub name: String,
    pub source_file_name: String,
    pub functions: Vec<FunctionData>,
    /// Whether this module has passed (or was explicitly granted) the
    /// structural check that gates the JIT stage.
    pub verified: bool,
}

/// A failed verification: the diagnostic text and the original module,
/// unconsumed, so the caller can inspect it before discarding.
#[derive(Debug)]
pub struct VerificationFailure {
    pub module: LLVM7Module,
    pub diagnostic: String,
}

/// A structurally valid block holds at least one instruction, ends with a
/// terminator, and has no terminator anywhere but at its end.
pub open spec fn block_structurally_valid(b: BasicBlockData) -> bool {
    &&& b.instructions@.len() > 0
    &&& is_terminator(b.instructions@.last())
    &&& forall|i: int|
        0 <= i < b.instructions@.len() - 1 ==> !is_terminator(#[trigger] b.instructions@[i])
}

/// A structurally valid function is a declaration or has only structurally
/// valid blocks.
pub open spec fn function_structurally_valid(f: FunctionData) -> bool {
    forall|i: int| 0 <= i < f.blocks@.len() ==> block_structurally_valid(#[trigger] f.blocks@[i])
}

/// Everything of two modules agrees except possibly the verified tag.
pub open spec fn module_same_contents(a: LLVM7Module, b: LLVM7Module) -> bool {
    &&& a.context_id == b.context_id
    &&& a.id == b.id
    &&& a.name == b.name
    &&& a.source_file_name == b.source_file_name
    &&& a.functions == b.functions
}

/// The metadata of two modules agrees; only the function list may differ.
pub open spec fn module_same_metadata(a: LLVM7Module, b: LLVM7Module) -> bool {
    &&& a.context_id == b.context_id
    &&& a.id == b.id
    &&& a.name == b.name
    &&& a.source_file_name == b.source_file_name
    &&& a.verified == b.verified
}

impl LLVM7Module {
    /// Every basic block of every function ends with exactly one terminator.
    pub open spec fn structurally_valid(self) -> bool {
        forall|i: int|
            0 <= i < self.functions@.len() ==> function_structurally_valid(
                #[trigger] self.functions@[i],
            )
    }

    /// Sets the source file name recorded for this module: metadata only,
    /// nothing else depends on it. Like every mutating operation, it is legal
    /// only before verification.
    pub fn set_source_file_name(&mut self, source_file_name: &str)
        requires
            !old(self).verified,
        ensures
            final(self).source_file_name@ == source_file_name@,
            final(self).context_id == old(self).context_id,
            final(self).id == old(self).id,
            final(self).name == old(self).name,
            final(self).functions == old(self).functions,
            final(self).verified == old(self).verified,
    {
        self.source_file_name = source_file_name.to_owned();
    }

    /// Registers a new, body-less function of the given signature and returns
    /// its handle. The name must not contain an embedded terminator
    /// character, and the type handle must come from the owning context;
    /// violating either is a caller bug. Name collisions are the engine's own
    /// symbol rules' business and are not re-validated here.
    pub fn add_function(&mut self, name: &str, ty: LLVM7Type) -> (r: LLVM7Function)
        requires
            !old(self).verified,
            no_nul(name@),
            ty.context_id == old(self).context_id,
        ensures
            module_same_metadata(*old(self), *final(self)),
            final(self).functions@.len() == old(self).functions@.len() + 1,
            final(self).functions@.drop_last() == old(self).functions@,
            final(self).functions@.last().name@ == name@,
            final(self).functions@.last().ty == ty,
            final(self).functions@.last().blocks@.len() == 0,
            r == (LLVM7Function {
                context_id: old(self).context_id,
                module_id: old(self).id,
                index: old(self).functions@.len() as usize,
            }),
    {
        let index = self.functions.len();
        self.functions.push(FunctionData { name: name.to_owned(), ty, blocks: Vec::new() });
        LLVM7Function { context_id: self.context_id, module_id: self.id, index }
    }

    /// Runs the structural checker. On success the module is returned with
    /// its verified tag set; on failure the original module comes back
    /// unconsumed, together with a non-empty diagnostic, so a misbehaving
    /// frontend is a recoverable failure rather than a crash.
    pub fn verify(self) -> (r: Result<LLVM7Module, VerificationFailure>)
        ensures
            self.structurally_valid() <==> r is Ok,
            r matches Ok(m) ==> m.verified && module_same_contents(m, self),
            r matches Err(e) ==> e.module == self && e.diagnostic@
                == "a basic block does not end with exactly one terminator"@ && e.diagnostic@.len()
                > 0,
    {
        let n = self.functions.len();
        let mut fi: usize = 0;
        while fi < n
            invariant
                n == self.functions@.len(),
                fi <= n,
                forall|k: int|
                    0 <= k < fi ==> function_structurally_valid(#[trigger] self.functions@[k]),
            decreases n - fi,
        {
            if !function_structure_ok(&self.functions[fi]) {
                proof {
                    reveal_strlit("a basic block does not end with exactly one terminator");
                }
                return Err(
                    VerificationFailure {
                        module: self,
                        diagnostic: "a basic block does not end with exactly one terminator"
                            .to_owned(),
                    },
                );
            }
            fi += 1;
        }
        Ok(LLVM7Module { verified: true, ..self })
    }

    /// The escape hatch: forces the module into verified status without
    /// running the checker, for a caller with out-of-band proof of validity.
    /// Handing an invalid module to the JIT stage this way is that caller's
    /// risk.
    pub fn to_verified_module_unchecked(self) -> (r: LLVM7Module)
        ensures
            r.verified,
            module_same_contents(r, self),
    {
        LLVM7Module { verified: true, ..self }
    }

    /// A verified module is the same module; this steps back to the
    /// operations legal on an unverified one, so anything built afterwards
    /// must pass verification again before the JIT stage.
    pub fn into_module(self) -> (r: LLVM7Module)
        ensures
            !r.verified,
            module_same_contents(r, self),
    {
        LLVM7Module { verified: false, ..self }
    }
}

fn instruction_is_terminator(i: &Instruction) -> (r: bool)
    ensures
        r == is_terminator(*i),
{
    match i {
        Instruction::Return { .. } => true,
    }
}

fn block_structure_ok(b: &BasicBlockData) -> (r: bool)
    ensures
        r == block_structurally_valid(*b),
{
    let n = b.instructions.len();
    if n == 0 {
        return false;
    }
    if !instruction_is_terminator(&b.instructions[n - 1]) {
        return false;
    }
    let mut i: usize = 0;
    while i < n - 1
        invariant
            n == b.instructions@.len(),
            n >= 1,
            i <= n - 1,
            is_terminator(b.instructions@.last()),
            forall|j: int| 0 <= j < i ==> !is_terminator(#[trigger] b.instructions@[j]),
        decreases n - 1 - i,
    {
        if instruction_is_terminator(&b.instructions[i]) {
            return false;
        }
        i += 1;
    }
    true
}

fn function_structure_ok(f: &FunctionData) -> (r: bool)
    ensures
        r == function_structurally_valid(*f),
{
    let n = f.blocks.len();
    let mut i: usize = 0;
    while i < n
        invariant
            n == f.blocks@.len(),
            i <= n,
            forall|k: int| 0 <= k < i ==> block_structurally_valid(#[trigger] f.blocks@[k]),
        decreases n - i,
    {
        if !block_structure_ok(&f.blocks[i]) {
            return false;
        }
        i += 1;
    }
    true
}

impl LLVM7Function {
    /// Appends a new, empty basic block at the end of this function. The
    /// handle must refer into the given module, and the block name, when
    /// given, must not contain an embedded terminator character.
    pub fn append_new_basic_block(&self, module: &mut LLVM7Module, name: Option<&str>) -> (r:
        LLVM7BasicBlock)
        requires
            !old(module).verified,
            self.module_id == old(module).id,
            self.context_id == old(module).context_id,
            self.index < old(module).functions@.len(),
            name matches Some(n) ==> no_nul(n@),
        ensures
            module_same_metadata(*old(module), *final(module)),
            final(module).functions@.len() == old(module).functions@.len(),
            forall|k: int|
                0 <= k < old(module).functions@.len() && k != self.index
                    ==> final(module).functions@[k] == old(module).functions@[k],
            ({
                let f = final(module).functions@[self.index as int];
                let g = old(module).functions@[self.index as int];
                &&& f.name == g.name
                &&& f.ty == g.ty
                &&& f.blocks@.len() == g.blocks@.len() + 1
                &&& f.blocks@.drop_last() == g.blocks@
                &&& f.blocks@.last().instructions@.len() == 0
                &&& f.blocks@.last().name@ == (match name {
                    Some(n) => n@,
                    None => Seq::<char>::empty(),
                })
            }),
            r == (LLVM7BasicBlock {
                context_id: self.context_id,
                module_id: self.module_id,
                function_index: self.index,
                block_index: old(module).functions@[self.index as int].blocks@.len() as usize,
            }),
    {
        let ghost before = module.functions@;
        let mut f = module.functions.remove(self.index);
        let block_index = f.blocks.len();
        let block_name = match name {
            Some(n) => n.to_owned(),
            None => String::new(),
        };
        f.blocks.push(BasicBlockData { name: block_name, instructions: Vec::new() });
        module.functions.insert(self.index, f);
        proof {
            assert forall|k: int| 0 <= k < before.len() && k != self.index implies module.functions@[k]
                == before[k] by {
                if k < self.index {
                    assert(module.functions@[k] == before.remove(self.index as int)[k]);
                } else {
                    assert(module.functions@[k] == before.remove(self.index as int)[k - 1]);
                }
            }
            assert(module.functions@[self.index as int].blocks@.drop_last() =~= before[self.index
                as int].blocks@);
        }
        LLVM7BasicBlock {
            context_id: self.context_id,
            module_id: self.module_id,
            function_index: self.index,
            block_index,
        }
    }
}

} // verus!
