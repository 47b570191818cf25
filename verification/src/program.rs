//! The resolved program as the host hands it over, and the prelude surface
//! computed from it.

use vstd::prelude::*;
use vstd::string::*;
use std::collections::HashMap;
use crate::instance::{CrateNum, DefId, PseudoCanonicalInput};

verus! {

/// One member of a module.
#[derive(Debug)]
pub struct ModChild {
    pub name: String,
    pub def_id: DefId,
    /// The member resolves to a module declaration.
    pub is_mod: bool,
    pub is_public: bool,
}

/// A module and its members, in declaration order.
#[derive(Debug)]
pub struct Module {
    pub def_id: DefId,
    pub children: Vec<ModChild>,
}

/// One compiled unit other than the current one.
#[derive(Debug)]
pub struct CrateData {
    pub cnum: CrateNum,
    pub name: String,
    /// The current unit depends on this unit directly, not through another one.
    pub is_direct: bool,
    /// The unit's top-level module.
    pub root: DefId,
}

/// Everything the analyses read from the host.
#[derive(Debug)]
pub struct Program {
    pub local_crate_name: String,
    pub crates: Vec<CrateData>,
    pub modules: Vec<Module>,
    /// For each generic symbol, its instance at its own parameters under its
    /// own environment.
    pub identities: Vec<PseudoCanonicalInput>,
    /// The symbol that is the drop glue, where the host knows one.
    pub drop_in_place: Option<DefId>,
    /// The symbol of the explicit drop function, where the host knows one.
    pub mem_drop: Option<DefId>,
}

/// Index of the first module at or after `i` whose identity is `def_id`.
pub open spec fn module_index_from(modules: Seq<Module>, def_id: DefId, i: int) -> Option<int>
    decreases modules.len() - i,
{
    if i < 0 || i >= modules.len() {
        None
    } else if modules[i].def_id == def_id {
        Some(i)
    } else {
        module_index_from(modules, def_id, i + 1)
    }
}

/// The members of `def_id`; none where the host lists no such module.
pub open spec fn module_children(modules: Seq<Module>, def_id: DefId) -> Seq<ModChild> {
    match module_index_from(modules, def_id, 0) {
        Some(i) => modules[i].children@,
        None => Seq::empty(),
    }
}

pub open spec fn is_prelude_mod(c: ModChild) -> bool {
    c.is_mod && c.name@ == "prelude"@
}

/// The first member at or after `i` that is a module named `prelude`.
pub open spec fn prelude_from(children: Seq<ModChild>, i: int) -> Option<DefId>
    decreases children.len() - i,
{
    if i < 0 || i >= children.len() {
        None
    } else if is_prelude_mod(children[i]) {
        Some(children[i].def_id)
    } else {
        prelude_from(children, i + 1)
    }
}

/// `m` after recording each public member of `children`, in order, as exported by `cnum`.
pub open spec fn add_public(m: Map<DefId, CrateNum>, children: Seq<ModChild>, cnum: CrateNum) -> Map<
    DefId,
    CrateNum,
>
    decreases children.len(),
{
    if children.len() == 0 {
        m
    } else {
        let before = add_public(m, children.drop_last(), cnum);
        if children.last().is_public {
            before.insert(children.last().def_id, cnum)
        } else {
            before
        }
    }
}

/// What the unit `c` adds to the surface `m`: nothing unless it is a direct
/// dependency with a top-level module named `prelude`, else that module's
/// public members.
pub open spec fn add_crate(m: Map<DefId, CrateNum>, modules: Seq<Module>, c: CrateData) -> Map<
    DefId,
    CrateNum,
> {
    if !c.is_direct {
        m
    } else {
        match prelude_from(module_children(modules, c.root), 0) {
            None => m,
            Some(p) => add_public(m, module_children(modules, p), c.cnum),
        }
    }
}

/// The surface contributed by the first `n` units; a later unit overwrites an earlier one.
pub open spec fn surface_upto(prog: Program, n: int) -> Map<DefId, CrateNum>
    decreases n,
{
    if n <= 0 {
        Map::empty()
    } else {
        add_crate(surface_upto(prog, n - 1), prog.modules@, prog.crates@[n - 1])
    }
}

/// Every symbol reachable through the prelude of a direct dependency, with the
/// unit that exports it.
pub open spec fn prelude_surface(prog: Program) -> Map<DefId, CrateNum> {
    surface_upto(prog, prog.crates@.len() as int)
}

/// Index of the first unit at or after `i` whose identity is `cnum`.
pub open spec fn crate_index_from(crates: Seq<CrateData>, cnum: CrateNum, i: int) -> Option<int>
    decreases crates.len() - i,
{
    if i < 0 || i >= crates.len() {
        None
    } else if crates[i].cnum == cnum {
        Some(i)
    } else {
        crate_index_from(crates, cnum, i + 1)
    }
}

/// Index of the first recorded identity instance at or after `i` for `def_id`.
pub open spec fn identity_index_from(ids: Seq<PseudoCanonicalInput>, def_id: DefId, i: int) -> Option<
    int,
>
    decreases ids.len() - i,
{
    if i < 0 || i >= ids.len() {
        None
    } else if ids[i].value.def_id == def_id {
        Some(i)
    } else {
        identity_index_from(ids, def_id, i + 1)
    }
}

/// Some unit among the first `n` has identity `cnum`.
pub open spec fn names_crate(crates: Seq<CrateData>, n: int, cnum: CrateNum) -> bool {
    exists|k: int| 0 <= k < n && k < crates.len() && (#[trigger] crates[k]).cnum == cnum
}

/// Some public member of `children` is the symbol `id`.
pub open spec fn has_public(children: Seq<ModChild>, id: DefId) -> bool {
    exists|j: int|
        0 <= j < children.len() && (#[trigger] children[j]).is_public && children[j].def_id == id
}

/// The unit `c` exports `id` through its prelude.
pub open spec fn exports(modules: Seq<Module>, c: CrateData, id: DefId) -> bool {
    c.is_direct && match prelude_from(module_children(modules, c.root), 0) {
        Some(p) => has_public(module_children(modules, p), id),
        None => false,
    }
}

/// Recording the public members of a module adds exactly those members,
/// overwrites what they mapped to, and leaves every other entry alone.
pub proof fn lemma_add_public(
    m: Map<DefId, CrateNum>,
    children: Seq<ModChild>,
    cnum: CrateNum,
    id: DefId,
)
    ensures
        add_public(m, children, cnum).contains_key(id) <==> m.contains_key(id) || has_public(
            children,
            id,
        ),
        has_public(children, id) ==> add_public(m, children, cnum)[id] == cnum,
        !has_public(children, id) && m.contains_key(id) ==> add_public(m, children, cnum)[id]
            == m[id],
    decreases children.len(),
{
    if children.len() > 0 {
        let front = children.drop_last();
        let last = children.last();
        lemma_add_public(m, front, cnum, id);
        if has_public(front, id) {
            let j = choose|j: int|
                0 <= j < front.len() && (#[trigger] front[j]).is_public && front[j].def_id == id;
            assert(children[j].is_public && children[j].def_id == id);
        }
        if last.is_public && last.def_id == id {
            assert(children[children.len() - 1].is_public);
        }
        if has_public(children, id) && !(last.is_public && last.def_id == id) {
            let j = choose|j: int|
                0 <= j < children.len() && (#[trigger] children[j]).is_public && children[j].def_id
                    == id;
            assert(front[j].is_public && front[j].def_id == id);
        }
    }
}

/// What one unit does to the surface: its exports are added under its own
/// identity, everything else stays.
pub proof fn lemma_add_crate(m: Map<DefId, CrateNum>, modules: Seq<Module>, c: CrateData, id: DefId)
    ensures
        add_crate(m, modules, c).contains_key(id) <==> m.contains_key(id) || exports(
            modules,
            c,
            id,
        ),
        exports(modules, c, id) ==> add_crate(m, modules, c)[id] == c.cnum,
        !exports(modules, c, id) && m.contains_key(id) ==> add_crate(m, modules, c)[id] == m[id],
{
    if c.is_direct {
        match prelude_from(module_children(modules, c.root), 0) {
            Some(p) => {
                lemma_add_public(m, module_children(modules, p), c.cnum, id);
            },
            None => {},
        }
    }
}

/// A symbol is in the surface only if some unit exports it through its prelude.
pub proof fn lemma_surface_only_exports(prog: Program, n: int, id: DefId)
    requires
        0 <= n <= prog.crates@.len(),
        surface_upto(prog, n).contains_key(id),
    ensures
        exists|k: int| 0 <= k < n && exports(prog.modules@, #[trigger] prog.crates@[k], id),
    decreases n,
{
    if n > 0 {
        lemma_add_crate(surface_upto(prog, n - 1), prog.modules@, prog.crates@[n - 1], id);
        if exports(prog.modules@, prog.crates@[n - 1], id) {
        } else {
            lemma_surface_only_exports(prog, n - 1, id);
            let k = choose|k: int|
                0 <= k < n - 1 && exports(prog.modules@, #[trigger] prog.crates@[k], id);
            assert(exports(prog.modules@, prog.crates@[k], id));
        }
    }
}

/// A symbol that units export is in the surface, mapped to the last unit
/// that exports it.
pub proof fn lemma_surface_names_last_exporter(prog: Program, n: int, id: DefId, k: int)
    requires
        0 <= k < n <= prog.crates@.len(),
        exports(prog.modules@, prog.crates@[k], id),
        forall|j: int| k < j < n ==> !exports(prog.modules@, #[trigger] prog.crates@[j], id),
    ensures
        surface_upto(prog, n).contains_key(id),
        surface_upto(prog, n)[id] == prog.crates@[k].cnum,
    decreases n,
{
    lemma_add_crate(surface_upto(prog, n - 1), prog.modules@, prog.crates@[n - 1], id);
    if k < n - 1 {
        lemma_surface_names_last_exporter(prog, n - 1, id, k);
    }
}

/// Whatever the surface maps a symbol to is one of the program's units.
pub proof fn lemma_surface_names_crates(prog: Program, n: int, id: DefId)
    requires
        0 <= n <= prog.crates@.len(),
        surface_upto(prog, n).contains_key(id),
    ensures
        names_crate(prog.crates@, n, surface_upto(prog, n)[id]),
    decreases n,
{
    if n > 0 {
        let prev = surface_upto(prog, n - 1);
        let now = surface_upto(prog, n);
        lemma_add_crate(prev, prog.modules@, prog.crates@[n - 1], id);
        if exports(prog.modules@, prog.crates@[n - 1], id) {
            assert(prog.crates@[n - 1].cnum == now[id]);
        } else {
            lemma_surface_names_crates(prog, n - 1, id);
            let k = choose|k: int|
                0 <= k < n - 1 && k < prog.crates@.len() && (#[trigger] prog.crates@[k]).cnum
                    == prev[id];
            assert(prog.crates@[k].cnum == now[id]);
        }
    }
}

/// A unit that occurs at or after `i` is found by the search from `i`.
pub proof fn lemma_crate_index_found(crates: Seq<CrateData>, cnum: CrateNum, i: int, k: int)
    requires
        0 <= i <= k < crates.len(),
        crates[k].cnum == cnum,
    ensures
        crate_index_from(crates, cnum, i) is Some,
    decreases k - i,
{
    if crates[i].cnum != cnum {
        lemma_crate_index_found(crates, cnum, i + 1, k);
    }
}

impl Program {
    /// Position of the module `def_id` in the module table.
    pub fn find_module(&self, def_id: DefId) -> (r: Option<usize>)
        ensures
            match r {
                Some(i) => module_index_from(self.modules@, def_id, 0) == Some(i as int) && i
                    < self.modules@.len(),
                None => module_index_from(self.modules@, def_id, 0) is None,
            },
    {
        let mut i: usize = 0;
        while i < self.modules.len()
            invariant
                i <= self.modules.len(),
                module_index_from(self.modules@, def_id, 0) == module_index_from(
                    self.modules@,
                    def_id,
                    i as int,
                ),
            decreases self.modules.len() - i,
        {
            if self.modules[i].def_id == def_id {
                return Some(i);
            }
            i += 1;
        }
        None
    }

    /// Position of the unit `cnum` in the unit table.
    pub fn find_crate(&self, cnum: CrateNum) -> (r: Option<usize>)
        ensures
            match r {
                Some(i) => crate_index_from(self.crates@, cnum, 0) == Some(i as int) && i
                    < self.crates@.len(),
                None => crate_index_from(self.crates@, cnum, 0) is None,
            },
    {
        let mut i: usize = 0;
        while i < self.crates.len()
            invariant
                i <= self.crates.len(),
                crate_index_from(self.crates@, cnum, 0) == crate_index_from(
                    self.crates@,
                    cnum,
                    i as int,
                ),
            decreases self.crates.len() - i,
        {
            if self.crates[i].cnum == cnum {
                return Some(i);
            }
            i += 1;
        }
        None
    }

    /// Position of the identity instance recorded for `def_id`.
    pub fn find_identity(&self, def_id: DefId) -> (r: Option<usize>)
        ensures
            match r {
                Some(i) => identity_index_from(self.identities@, def_id, 0) == Some(i as int) && i
                    < self.identities@.len(),
                None => identity_index_from(self.identities@, def_id, 0) is None,
            },
    {
        let mut i: usize = 0;
        while i < self.identities.len()
            invariant
                i <= self.identities.len(),
                identity_index_from(self.identities@, def_id, 0) == identity_index_from(
                    self.identities@,
                    def_id,
                    i as int,
                ),
            decreases self.identities.len() - i,
        {
            if self.identities[i].value.def_id == def_id {
                return Some(i);
            }
            i += 1;
        }
        None
    }

    /// The module named `prelude` among the members of `def_id`, if there is one.
    pub fn find_prelude(&self, def_id: DefId) -> (r: Option<DefId>)
        ensures
            r == prelude_from(module_children(self.modules@, def_id), 0),
    {
        let Some(m) = self.find_module(def_id) else {
            return None;
        };
        let children = &self.modules[m].children;
        let prelude = String::from_str("prelude");
        let mut i: usize = 0;
        while i < children.len()
            invariant
                i <= children.len(),
                prelude@ == "prelude"@,
                children@ == module_children(self.modules@, def_id),
                prelude_from(children@, 0) == prelude_from(children@, i as int),
            decreases children.len() - i,
        {
            if children[i].is_mod && children[i].name == prelude {
                return Some(children[i].def_id);
            }
            i += 1;
        }
        None
    }

    /// Builds the prelude surface of this program.
    pub fn prelude_surface(&self) -> (defs: HashMap<DefId, CrateNum>)
        ensures
            defs@ == prelude_surface(*self),
    {
        broadcast use vstd::std_specs::hash::group_hash_axioms;

        let mut defs: HashMap<DefId, CrateNum> = HashMap::new();
        let mut n: usize = 0;
        while n < self.crates.len()
            invariant
                n <= self.crates.len(),
                defs@ == surface_upto(*self, n as int),
            decreases self.crates.len() - n,
        {
            let c = &self.crates[n];
            if c.is_direct {
                if let Some(p) = self.find_prelude(c.root) {
                    if let Some(m) = self.find_module(p) {
                        let children = &self.modules[m].children;
                        let ghost before = defs@;
                        let mut i: usize = 0;
                        while i < children.len()
                            invariant
                                i <= children.len(),
                                defs@ == add_public(before, children@.take(i as int), c.cnum),
                            decreases children.len() - i,
                        {
                            proof {
                                assert(children@.take(i + 1).drop_last() =~= children@.take(
                                    i as int,
                                ));
                            }
                            if children[i].is_public {
                                defs.insert(children[i].def_id, c.cnum);
                            }
                            i += 1;
                        }
                        assert(children@.take(children.len() as int) =~= children@);
                    }
                }
            }
            n += 1;
        }
        defs
    }
}

} // verus!
