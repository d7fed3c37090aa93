//! The compilation context: the root owner of every module created during a
//! run, and of the run's immutable configuration.
//!
//! The borrow graph of a run is a strict tree — context over modules over
//! functions over blocks — so the context keeps an arena-style registry of
//! the modules it must release, and its disposal produces an explicit plan:
//! every owned module is released exactly once, and the context itself only
//! after all of them.

use vstd::prelude::*;

use crate::builder::{InsertionPoint, LLVM7Builder};
use crate::config::LLVM7CompilerConfig;
use crate::module::LLVM7Module;
use crate::no_nul;
use crate::types::LLVM7TypeBuilder;

verus! {

/// One step of tearing a run down.
#[derive(Clone, Copy, Debug, PartialEq, Eq, Structural)]
pub enum DisposeEvent {
    /// Release one module owned by the context.
    DisposeModule { module_id: u64 },
    /// Release the context object itself.
    DisposeContext { context_id: u64 },
}

/// The order in which a context must be torn down: each owned module first,
/// the context itself last.
pub open spec fn dispose_plan(c: LLVM7Context) -> Seq<DisposeEvent> {
    c.modules@.map_values(|m: u64| DisposeEvent::DisposeModule { module_id: m }).push(
        DisposeEvent::DisposeContext { context_id: c.id },
    )
}

/// Owns the engine's compilation state for one run: the registry of created
/// modules, a counter for fresh module tags, and the run configuration.
#[derive(Debug)]
pub struct LLVM7Context {
    pub id: u64,
    pub next_module_id: u64,
    pub modules: Vec<u64>,
    pub config: LLVM7CompilerConfig,
}

impl LLVM7Context {
    /// The registry is consistent: every registered module tag was issued by
    /// the counter, and no tag is registered twice.
    pub open spec fn wf(self) -> bool {
        &&& forall|i: int|
            0 <= i < self.modules@.len() ==> #[trigger] self.modules@[i] < self.next_module_id
        &&& forall|i: int, j: int|
            0 <= i < j < self.modules@.len() ==> #[trigger] self.modules@[i] != #[trigger] self.modules@[j]
    }

    /// A fresh context owning nothing yet. The tag tells contexts apart, so
    /// that mixing objects of different contexts is caught at the API
    /// boundary.
    pub fn new(id: u64, config: LLVM7CompilerConfig) -> (r: LLVM7Context)
        ensures
            r.wf(),
            r.id == id,
            r.config == config,
            r.modules@.len() == 0,
            r.next_module_id == 0,
    {
        LLVM7Context { id, next_module_id: 0, modules: Vec::new(), config }
    }

    /// Allocates a new module and registers it in the owned-module set before
    /// anything else can go wrong, so no early exit can leak it. The name
    /// must not contain an embedded terminator character.
    pub fn create_module(&mut self, name: &str) -> (r: LLVM7Module)
        requires
            old(self).wf(),
            no_nul(name@),
            old(self).next_module_id < u64::MAX,
        ensures
            final(self).wf(),
            final(self).id == old(self).id,
            final(self).config == old(self).config,
            final(self).modules@ == old(self).modules@.push(r.id),
            final(self).next_module_id == old(self).next_module_id + 1,
            r.id == old(self).next_module_id,
            !old(self).modules@.contains(r.id),
            r.context_id == old(self).id,
            r.name@ == name@,
            r.source_file_name@.len() == 0,
            r.functions@.len() == 0,
            !r.verified,
    {
        let module_id = self.next_module_id;
        self.modules.push(module_id);
        self.next_module_id = module_id + 1;
        proof {
            assert forall|i: int, j: int| 0 <= i < j < self.modules@.len() implies
                #[trigger] self.modules@[i] != #[trigger] self.modules@[j] by {
                if j == self.modules@.len() - 1 {
                    assert(old(self).modules@[i] < module_id);
                }
            }
            assert(!old(self).modules@.contains(module_id)) by {
                if old(self).modules@.contains(module_id) {
                    let i = choose|i: int|
                        0 <= i < old(self).modules@.len() && old(self).modules@[i] == module_id;
                    assert(old(self).modules@[i] < module_id);
                }
            }
        }
        LLVM7Module {
            context_id: self.id,
            id: module_id,
            name: name.to_owned(),
            source_file_name: String::new(),
            functions: Vec::new(),
            verified: false,
        }
    }

    /// A fresh builder, detached: it cannot emit anything until it is
    /// attached to a block.
    pub fn create_builder(&self) -> (r: LLVM7Builder)
        ensures
            r.is_detached(),
    {
        LLVM7Builder { insertion_point: InsertionPoint::Detached }
    }

    /// A type builder scoped to this context, carrying the configured
    /// vector-length multiplier.
    pub fn create_type_builder(&self) -> (r: LLVM7TypeBuilder)
        ensures
            r.context_id == self.id,
            r.variable_vector_length_multiplier == self.config.variable_vector_length_multiplier,
    {
        LLVM7TypeBuilder {
            context_id: self.id,
            variable_vector_length_multiplier: self.config.variable_vector_length_multiplier,
        }
    }

    /// Consumes the context and returns the teardown plan: the engine action
    /// for each owned module, then the one for the context itself. The plan
    /// is exactly `dispose_plan`, whose soundness
    /// `lemma_dispose_plan_releases_each_module_once` states.
    pub fn dispose(self) -> (log: Vec<DisposeEvent>)
        ensures
            log@ == dispose_plan(self),
    {
        let ghost all = self.modules@;
        let mut log: Vec<DisposeEvent> = Vec::new();
        let n = self.modules.len();
        let mut i: usize = 0;
        while i < n
            invariant
                n == self.modules@.len(),
                i <= n,
                all == self.modules@,
                log@ == all.take(i as int).map_values(
                    |m: u64| DisposeEvent::DisposeModule { module_id: m },
                ),
            decreases n - i,
        {
            log.push(DisposeEvent::DisposeModule { module_id: self.modules[i] });
            i += 1;
            proof {
                assert(all.take(i as int).map_values(
                    |m: u64| DisposeEvent::DisposeModule { module_id: m },
                ) =~= log@);
            }
        }
        log.push(DisposeEvent::DisposeContext { context_id: self.id });
        proof {
            assert(all.take(n as int) =~= all);
        }
        log
    }
}

/// In the teardown plan of a consistent context, every module the context
/// owns is released exactly once — the plan lists each owned module and no
/// event appears twice — and every module release comes before the release of
/// the owning context, which is the last event.
pub proof fn lemma_dispose_plan_releases_each_module_once(c: LLVM7Context)
    requires
        c.wf(),
    ensures
        dispose_plan(c).len() == c.modules@.len() + 1,
        forall|k: int|
            0 <= k < c.modules@.len() ==> dispose_plan(c)[k] == (DisposeEvent::DisposeModule {
                module_id: c.modules@[k],
            }),
        forall|i: int, j: int|
            0 <= i < j < dispose_plan(c).len() ==> dispose_plan(c)[i] != dispose_plan(c)[j],
        dispose_plan(c).last() == (DisposeEvent::DisposeContext { context_id: c.id }),
        forall|i: int| 0 <= i < dispose_plan(c).len() - 1 ==> dispose_plan(c)[i] is DisposeModule,
{
    let plan = dispose_plan(c);
    assert forall|i: int, j: int| 0 <= i < j < plan.len() implies plan[i] != plan[j] by {
        if j < c.modules@.len() {
            assert(c.modules@[i] != c.modules@[j]);
        }
    }
}

/// Every module a consistent context owns — so every module `create_module`
/// registered — is released exactly once by the teardown plan, and always
/// before the owning context is released.
pub proof fn lemma_owned_module_released_once_before_context(c: LLVM7Context, module_id: u64)
    requires
        c.wf(),
        c.modules@.contains(module_id),
    ensures
        exists|i: int|
            0 <= i < dispose_plan(c).len() - 1 && dispose_plan(c)[i]
                == (DisposeEvent::DisposeModule { module_id }),
        forall|i: int, j: int|
            0 <= i < dispose_plan(c).len() && 0 <= j < dispose_plan(c).len() && dispose_plan(c)[i]
                == (DisposeEvent::DisposeModule { module_id }) && dispose_plan(c)[j]
                == (DisposeEvent::DisposeModule { module_id }) ==> i == j,
        dispose_plan(c).last() == (DisposeEvent::DisposeContext { context_id: c.id }),
{
    lemma_dispose_plan_releases_each_module_once(c);
    let plan = dispose_plan(c);
    let k = choose|k: int| 0 <= k < c.modules@.len() && c.modules@[k] == module_id;
    assert(0 <= k < plan.len() - 1 && plan[k] == (DisposeEvent::DisposeModule { module_id }));
    assert forall|i: int, j: int|
        0 <= i < plan.len() && 0 <= j < plan.len() && plan[i] == (DisposeEvent::DisposeModule {
            module_id,
        }) && plan[j] == (DisposeEvent::DisposeModule { module_id }) implies i == j by {
        if i < j {
            assert(plan[i] != plan[j]);
        }
        if j < i {
            assert(plan[j] != plan[i]);
        }
    }
}

} // verus!
