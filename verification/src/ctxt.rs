//! The session context: the program under analysis and the results computed
//! once per session.

use vstd::prelude::*;
use std::collections::HashMap;
use std::sync::Arc;
use crate::instance::{CrateNum, DefId};
use crate::program::{crate_index_from, prelude_surface, Program};

verus! {

/// The name of the unit `cnum`, where the program lists it.
pub open spec fn crate_name_of(prog: Program, cnum: CrateNum) -> Option<String> {
    match crate_index_from(prog.crates@, cnum, 0) {
        Some(i) => Some(prog.crates@[i].name),
        None => None,
    }
}

/// Hands out another handle to a shared index by `Arc::clone`. Trusted: the
/// new handle points at the same allocation, so it holds the same map.
#[verifier::external_body]
fn share_index(index: &Arc<HashMap<DefId, CrateNum>>) -> (r: Arc<HashMap<DefId, CrateNum>>)
    ensures
        r == *index,
{
    Arc::clone(index)
}

/// The program of one session together with what has been computed from it so far.
pub struct AnalysisCtxt {
    program: Program,
    prelude: Option<Arc<HashMap<DefId, CrateNum>>>,
}

impl View for AnalysisCtxt {
    type V = Program;

    closed spec fn view(&self) -> Program {
        self.program
    }
}

impl AnalysisCtxt {
    /// The prelude surface held in the cache, if it has been computed.
    pub closed spec fn cached(&self) -> Option<Map<DefId, CrateNum>> {
        match self.prelude {
            Some(m) => Some(m@),
            None => None,
        }
    }

    /// A cached result is the result of the query on this session's program.
    #[verifier::type_invariant]
    spec fn wf(&self) -> bool {
        self.prelude matches Some(m) ==> m@ == prelude_surface(self.program)
    }

    /// Starts a session on `program`, with nothing computed yet.
    pub fn new(program: Program) -> (r: AnalysisCtxt)
        ensures
            r@ == program,
            r.cached() is None,
    {
        AnalysisCtxt { program, prelude: None }
    }

    pub fn program(&self) -> (r: &Program)
        ensures
            *r == self@,
    {
        &self.program
    }

    /// The name of the current unit.
    pub fn local_crate_name(&self) -> (r: &String)
        ensures
            *r == self@.local_crate_name,
    {
        &self.program.local_crate_name
    }

    /// The name of the unit `cnum`; `None` where the program does not list it.
    pub fn crate_name(&self, cnum: CrateNum) -> (r: Option<&String>)
        ensures
            match r {
                Some(name) => crate_name_of(self@, cnum) == Some(*name),
                None => crate_name_of(self@, cnum) is None,
            },
    {
        match self.program.find_crate(cnum) {
            Some(i) => Some(&self.program.crates[i].name),
            None => None,
        }
    }

    /// Whether `def_id` is the drop glue.
    pub fn is_drop_in_place(&self, def_id: DefId) -> (r: bool)
        ensures
            r == (self@.drop_in_place == Some(def_id)),
    {
        match self.program.drop_in_place {
            Some(d) => d == def_id,
            None => false,
        }
    }

    /// Whether `def_id` is the explicit drop function.
    pub fn is_mem_drop(&self, def_id: DefId) -> (r: bool)
        ensures
            r == (self@.mem_drop == Some(def_id)),
    {
        match self.program.mem_drop {
            Some(d) => d == def_id,
            None => false,
        }
    }

    /// The prelude surface of the session's program. The first request
    /// computes it and stores it; from then on the stored map is handed out
    /// and the context does not change any more.
    pub fn prelude_def_ids(&mut self) -> (r: Arc<HashMap<DefId, CrateNum>>)
        ensures
            final(self)@ == old(self)@,
            r@ == prelude_surface(old(self)@),
            final(self).cached() == Some(r@),
            old(self).cached() is Some ==> *final(self) == *old(self) && old(self).cached() == Some(
                r@,
            ),
    {
        proof {
            use_type_invariant(&*self);
        }
        if let Some(index) = &self.prelude {
            return share_index(index);
        }
        let index = Arc::new(self.program.prelude_surface());
        let r = share_index(&index);
        self.prelude = Some(index);
        r
    }
}

} // verus!
