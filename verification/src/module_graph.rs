use vstd::prelude::*;

use crate::identifier::ModuleIdentifier;
use crate::normal_module::{NormalModule, ParserAndGenerator};

verus! {

/// The modules of a compilation, found by their identifiers.
pub struct ModuleGraph<G: ParserAndGenerator> {
    modules: Vec<NormalModule<G>>,
}

impl<G: ParserAndGenerator> ModuleGraph<G> {
    /// The modules of the graph, in the order in which they were added.
    pub closed spec fn modules(&self) -> Seq<NormalModule<G>> {
        self.modules@
    }

    /// No two modules of the graph have the same identifier.
    pub closed spec fn wf(&self) -> bool {
        forall|i: int, j: int|
            0 <= i < j < self.modules@.len() ==> self.modules@[i].spec_identifier()
                != self.modules@[j].spec_identifier()
    }

    /// Whether the graph holds a module with the identifier.
    pub open spec fn holds(&self, id: Seq<char>) -> bool {
        exists|i: int| 0 <= i < self.modules().len() && self.modules()[i].spec_identifier() == id
    }

    /// The module with the identifier, where the graph holds one.
    pub open spec fn spec_module_by_identifier(&self, id: Seq<char>) -> Option<&NormalModule<G>> {
        if self.holds(id) {
            Some(
                &self.modules()[choose|i: int|
                    0 <= i < self.modules().len() && self.modules()[i].spec_identifier() == id],
            )
        } else {
            None
        }
    }

    pub fn new() -> (g: Self)
        ensures
            g.wf(),
            g.modules().len() == 0,
    {
        ModuleGraph { modules: Vec::new() }
    }

    fn position(&self, id: &ModuleIdentifier) -> (r: Option<usize>)
        ensures
            match r {
                Some(i) => i < self.modules().len() && self.modules()[i as int].spec_identifier()
                    == id@,
                None => !self.holds(id@),
            },
    {
        let mut i: usize = 0;
        while i < self.modules.len()
            invariant
                0 <= i <= self.modules@.len(),
                forall|j: int| 0 <= j < i ==> self.modules@[j].spec_identifier() != id@,
            decreases self.modules@.len() - i,
        {
            if *self.modules[i].identifier() == *id {
                return Some(i);
            }
            i = i + 1;
        }
        None
    }

    /// The module with the identifier, where the graph holds one.
    pub fn module_by_identifier(&self, id: &ModuleIdentifier) -> (m: Option<&NormalModule<G>>)
        requires
            self.wf(),
        ensures
            m == self.spec_module_by_identifier(id@),
            match m {
                Some(found) => found.spec_identifier() == id@,
                None => !self.holds(id@),
            },
    {
        match self.position(id) {
            Some(i) => {
                proof {
                    assert(self.holds(id@));
                    let k = choose|k: int|
                        0 <= k < self.modules().len() && self.modules()[k].spec_identifier()
                            == id@;
                    assert(self.modules()[k].spec_identifier() == id@);
                }
                Some(&self.modules[i])
            },
            None => None,
        }
    }

    /// Adds a module, unless the graph holds one with the same identifier
    /// already. Says whether the module was added.
    pub fn add_module(&mut self, module: NormalModule<G>) -> (added: bool)
        requires
            old(self).wf(),
        ensures
            final(self).wf(),
            added == !old(self).holds(module.spec_identifier()),
            final(self).modules() == if added {
                old(self).modules().push(module)
            } else {
                old(self).modules()
            },
    {
        match self.position(module.identifier()) {
            Some(_) => false,
            None => {
                proof {
                    assert forall|i: int| 0 <= i < self.modules@.len() implies self.modules@[i].spec_identifier()
                        != module.spec_identifier() by {
                        if self.modules@[i].spec_identifier() == module.spec_identifier() {
                            assert(0 <= i < self.modules().len()
                                && self.modules()[i].spec_identifier()
                                == module.spec_identifier());
                            assert(self.holds(module.spec_identifier()));
                        }
                    }
                }
                self.modules.push(module);
                true
            },
        }
    }
}

} // verus!
