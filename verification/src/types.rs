//! The type system builder: a pure mapping from abstract type descriptors to
//! type handles scoped to one context.
//!
//! A type handle records the tag of the context that produced it and a
//! structural description of the type it stands for, so that contracts can
//! say exactly which type every builder call constructs.

use vstd::prelude::*;

verus! {

/// The structure of a type, as the engine sees it.
#[derive(Debug, PartialEq, Eq)]
pub enum TypeKind {
    Bool,
    I8,
    I16,
    I32,
    I64,
    F32,
    F64,
    Void,
    Pointer { target: Box<TypeKind> },
    Array { element: Box<TypeKind>, count: u32 },
    Vector { element: Box<TypeKind>, length: u32 },
    Struct { members: Vec<TypeKind> },
    Function { arguments: Vec<TypeKind>, return_type: Box<TypeKind> },
}

/// An opaque, copyable type handle: valid only while the context whose tag it
/// carries is alive.
#[derive(Debug, PartialEq, Eq)]
pub struct LLVM7Type {
    pub context_id: u64,
    pub kind: TypeKind,
}

/// The length of a vector type: either a fixed count, or a base count that
/// the context scales by its configured vector-length multiplier.
#[derive(Clone, Copy, Debug, PartialEq, Eq, Structural)]
pub enum VectorLength {
    Fixed { length: u32 },
    Variable { base_length: u32 },
}

/// The element count a vector type gets for a requested length under a given
/// vector-length multiplier.
pub open spec fn effective_vector_length(length: VectorLength, multiplier: u32) -> int {
    match length {
        VectorLength::Fixed { length } => length as int,
        VectorLength::Variable { base_length } => base_length * multiplier,
    }
}

/// A fixed vector length never depends on the context's multiplier.
pub proof fn lemma_fixed_vector_length_ignores_multiplier(length: u32, m1: u32, m2: u32)
    ensures
        effective_vector_length(VectorLength::Fixed { length }, m1) == effective_vector_length(
            VectorLength::Fixed { length },
            m2,
        ),
        effective_vector_length(VectorLength::Fixed { length }, m1) == length,
{
}

/// A variable vector length is exactly the base length scaled by the
/// multiplier.
pub proof fn lemma_variable_vector_length_scales(base_length: u32, multiplier: u32)
    ensures
        effective_vector_length(VectorLength::Variable { base_length }, multiplier)
            == base_length * multiplier,
{
}

/// Builds type handles for one context, carrying that context's
/// vector-length multiplier.
#[derive(Clone, Copy, Debug)]
pub struct LLVM7TypeBuilder {
    pub context_id: u64,
    pub variable_vector_length_multiplier: u32,
}

impl LLVM7TypeBuilder {
    pub fn build_bool(&self) -> (r: LLVM7Type)
        ensures
            r.context_id == self.context_id,
            r.kind == TypeKind::Bool,
    {
        LLVM7Type { context_id: self.context_id, kind: TypeKind::Bool }
    }

    pub fn build_i8(&self) -> (r: LLVM7Type)
        ensures
            r.context_id == self.context_id,
            r.kind == TypeKind::I8,
    {
        LLVM7Type { context_id: self.context_id, kind: TypeKind::I8 }
    }

    pub fn build_i16(&self) -> (r: LLVM7Type)
        ensures
            r.context_id == self.context_id,
            r.kind == TypeKind::I16,
    {
        LLVM7Type { context_id: self.context_id, kind: TypeKind::I16 }
    }

    pub fn build_i32(&self) -> (r: LLVM7Type)
        ensures
            r.context_id == self.context_id,
            r.kind == TypeKind::I32,
    {
        LLVM7Type { context_id: self.context_id, kind: TypeKind::I32 }
    }

    pub fn build_i64(&self) -> (r: LLVM7Type)
        ensures
            r.context_id == self.context_id,
            r.kind == TypeKind::I64,
    {
        LLVM7Type { context_id: self.context_id, kind: TypeKind::I64 }
    }

    pub fn build_f32(&self) -> (r: LLVM7Type)
        ensures
            r.context_id == self.context_id,
            r.kind == TypeKind::F32,
    {
        LLVM7Type { context_id: self.context_id, kind: TypeKind::F32 }
    }

    pub fn build_f64(&self) -> (r: LLVM7Type)
        ensures
            r.context_id == self.context_id,
            r.kind == TypeKind::F64,
    {
        LLVM7Type { context_id: self.context_id, kind: TypeKind::F64 }
    }

    pub fn build_pointer(&self, target: LLVM7Type) -> (r: LLVM7Type)
        requires
            target.context_id == self.context_id,
        ensures
            r.context_id == self.context_id,
            r.kind matches TypeKind::Pointer { target: t } && *t == target.kind,
    {
        LLVM7Type {
            context_id: self.context_id,
            kind: TypeKind::Pointer { target: Box::new(target.kind) },
        }
    }

    /// The element count must fit the width the engine accepts for array
    /// sizes; a larger count is a caller bug, not a recoverable failure.
    pub fn build_array(&self, element: LLVM7Type, count: usize) -> (r: LLVM7Type)
        requires
            element.context_id == self.context_id,
            count <= u32::MAX,
        ensures
            r.context_id == self.context_id,
            r.kind matches TypeKind::Array { element: e, count: c } && *e == element.kind && c
                == count,
    {
        LLVM7Type {
            context_id: self.context_id,
            kind: TypeKind::Array { element: Box::new(element.kind), count: count as u32 },
        }
    }

    /// The effective length after scaling must be nonzero and must not
    /// overflow the engine's length representation; violating either is a
    /// caller bug.
    pub fn build_vector(&self, element: LLVM7Type, length: VectorLength) -> (r: LLVM7Type)
        requires
            element.context_id == self.context_id,
            effective_vector_length(length, self.variable_vector_length_multiplier) != 0,
            effective_vector_length(length, self.variable_vector_length_multiplier) <= u32::MAX,
        ensures
            r.context_id == self.context_id,
            r.kind matches TypeKind::Vector { element: e, length: l } && *e == element.kind && l
                == effective_vector_length(length, self.variable_vector_length_multiplier),
    {
        let effective: u32 = match length {
            VectorLength::Fixed { length } => length,
            VectorLength::Variable { base_length } => base_length
                * self.variable_vector_length_multiplier,
        };
        LLVM7Type {
            context_id: self.context_id,
            kind: TypeKind::Vector { element: Box::new(element.kind), length: effective },
        }
    }

    /// The member count must fit the width the engine accepts for member
    /// counts.
    pub fn build_struct(&self, members: Vec<LLVM7Type>) -> (r: LLVM7Type)
        requires
            members@.len() <= u32::MAX,
            forall|i: int| 0 <= i < members@.len() ==> members@[i].context_id == self.context_id,
        ensures
            r.context_id == self.context_id,
            r.kind matches TypeKind::Struct { members: m } && m@ == members@.map_values(
                |t: LLVM7Type| t.kind,
            ),
    {
        let kinds = type_kinds_of(members);
        LLVM7Type { context_id: self.context_id, kind: TypeKind::Struct { members: kinds } }
    }

    /// The argument count must fit the width the engine accepts; a missing
    /// return type means a void-returning signature.
    pub fn build_function(&self, arguments: Vec<LLVM7Type>, return_type: Option<LLVM7Type>) -> (r:
        LLVM7Type)
        requires
            arguments@.len() <= u32::MAX,
            forall|i: int|
                0 <= i < arguments@.len() ==> arguments@[i].context_id == self.context_id,
            return_type matches Some(t) ==> t.context_id == self.context_id,
        ensures
            r.context_id == self.context_id,
            r.kind matches TypeKind::Function { arguments: a, return_type: rt } && a@
                == arguments@.map_values(|t: LLVM7Type| t.kind) && *rt == (match return_type {
                Some(t) => t.kind,
                None => TypeKind::Void,
            }),
    {
        let kinds = type_kinds_of(arguments);
        let ret = match return_type {
            Some(t) => t.kind,
            None => TypeKind::Void,
        };
        LLVM7Type {
            context_id: self.context_id,
            kind: TypeKind::Function { arguments: kinds, return_type: Box::new(ret) },
        }
    }
}

/// Strips the context tags off a list of type handles, keeping the structure
/// of each type.
fn type_kinds_of(types: Vec<LLVM7Type>) -> (r: Vec<TypeKind>)
    ensures
        r@ == types@.map_values(|t: LLVM7Type| t.kind),
{
    let mut rest = types;
    let mut kinds: Vec<TypeKind> = Vec::new();
    let ghost all = rest@;
    while rest.len() > 0
        invariant
            kinds@.len() + rest@.len() == all.len(),
            kinds@ == all.take(kinds@.len() as int).map_values(|t: LLVM7Type| t.kind),
            rest@ == all.skip(kinds@.len() as int),
        decreases rest@.len(),
    {
        let t = rest.remove(0);
        kinds.push(t.kind);
        proof {
            assert(all.take(kinds@.len() as int).map_values(|t: LLVM7Type| t.kind) =~= kinds@);
            assert(all.skip(kinds@.len() as int) =~= rest@);
        }
    }
    proof {
        assert(all.take(all.len() as int) =~= all);
    }
    kinds
}

} // verus!
