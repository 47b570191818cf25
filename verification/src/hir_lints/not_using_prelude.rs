//! Detects an item that is available via a prelude but is imported from
//! another path instead.

use vstd::prelude::*;
use vstd::string::*;
use crate::ctxt::{crate_name_of, AnalysisCtxt};
use crate::diagnostic::{Diag, DiagView, Level};
use crate::instance::{CrateNum, DefId};
use crate::program::{
    lemma_crate_index_found, lemma_surface_names_crates, prelude_surface, Program,
};
use crate::span::{MultiSpan, MultiSpanView, Span};
use crate::text::{has_substring, str_contains};

verus! {

/// The form of an import declaration.
#[derive(Clone, Copy, Debug, PartialEq, Eq, Structural)]
pub enum UseKind {
    /// One name is imported.
    Single,
    /// Everything under the path is imported.
    Glob,
    /// The common stem of a braced list of imports.
    ListStem,
}

/// The path of an import and what it resolved to.
#[derive(Debug)]
pub struct UsePath {
    pub segments: Vec<String>,
    /// One entry per namespace in which the name resolved; `None` where the
    /// resolution is not a declared item.
    pub res: Vec<Option<DefId>>,
}

#[derive(Debug)]
pub enum ItemKind {
    Use(UsePath, UseKind),
    Other,
}

/// One item of the current unit.
#[derive(Debug)]
pub struct Item {
    pub kind: ItemKind,
    pub span: Span,
}

/// Some segment of the path is literally `prelude`.
pub open spec fn names_prelude(segments: Seq<String>) -> bool {
    exists|i: int| 0 <= i < segments.len() && (#[trigger] segments[i])@ == "prelude"@
}

/// Every resolution is a declared item that the surface holds.
pub open spec fn all_in_prelude(surface: Map<DefId, CrateNum>, res: Seq<Option<DefId>>) -> bool {
    forall|i: int|
        0 <= i < res.len() ==> (#[trigger] res[i]) is Some && surface.contains_key(res[i].unwrap())
}

/// The import brings in only what a prelude already offers, and nothing
/// suppresses the warning.
pub open spec fn redundant(prog: Program, path: UsePath) -> bool {
    &&& !names_prelude(path.segments@)
    &&& path.res@.len() > 0
    &&& all_in_prelude(prelude_surface(prog), path.res@)
    &&& !has_substring(prog.local_crate_name@, "doctest"@)
}

/// The lint warns about `item`.
pub open spec fn should_warn(prog: Program, item: Item) -> bool {
    match item.kind {
        ItemKind::Use(path, UseKind::Single) => redundant(prog, path),
        _ => false,
    }
}

/// The unit through whose prelude the first resolution of `path` is exported.
pub open spec fn exporting_crate(prog: Program, path: UsePath) -> CrateNum {
    prelude_surface(prog)[path.res@[0].unwrap()]
}

pub open spec fn help_text(crate_name: Seq<char>) -> Seq<char> {
    "import with `"@ + crate_name + "::prelude::*` instead"@
}

/// The warning for an import at `span` of an item that `crate_name` exports.
pub open spec fn warning(span: Span, crate_name: Seq<char>) -> DiagView {
    DiagView::fresh(
        Level::Warning,
        "not_using_prelude"@,
        "this item is available via prelude"@,
    ).with_span(MultiSpanView::single(span)).with_child(
        Level::Help,
        MultiSpanView::empty(),
        help_text(crate_name),
    )
}

/// The warning that the lint gives for `item`.
pub open spec fn warning_for(prog: Program, item: Item) -> DiagView
    recommends
        should_warn(prog, item),
{
    match item.kind {
        ItemKind::Use(path, _) => warning(
            item.span,
            crate_name_of(prog, exporting_crate(prog, path)).unwrap()@,
        ),
        ItemKind::Other => warning(item.span, Seq::empty()),
    }
}

pub struct NotUsingPrelude {
    pub cx: AnalysisCtxt,
}

impl NotUsingPrelude {
    pub fn new(cx: AnalysisCtxt) -> (r: NotUsingPrelude)
        ensures
            r.cx == cx,
    {
        NotUsingPrelude { cx }
    }

    /// Looks at one item and returns the warning to emit for it, if any.
    pub fn check_item(&mut self, item: &Item) -> (r: Option<Diag>)
        ensures
            final(self).cx@ == old(self).cx@,
            final(self).cx.cached() == Some(prelude_surface(old(self).cx@)) || *final(self) == *old(
                self,
            ),
            r is Some <==> should_warn(old(self).cx@, *item),
            r matches Some(d) ==> d@ == warning_for(old(self).cx@, *item),
    {
        broadcast use vstd::std_specs::hash::group_hash_axioms;

        let path = match &item.kind {
            ItemKind::Use(path, UseKind::Single) => path,
            _ => {
                return None;
            },
        };

        // Manual prelude import. This is possibly the user trying to solve
        // conflicts or performing a rename.
        let prelude_name = String::from_str("prelude");
        let mut s: usize = 0;
        while s < path.segments.len()
            invariant
                s <= path.segments.len(),
                *self == *old(self),
                item.kind == ItemKind::Use(*path, UseKind::Single),
                prelude_name@ == "prelude"@,
                forall|k: int| 0 <= k < s ==> (#[trigger] path.segments@[k])@ != "prelude"@,
            decreases path.segments.len() - s,
        {
            if path.segments[s] == prelude_name {
                assert(path.segments@[s as int]@ == "prelude"@);
                return None;
            }
            s += 1;
        }

        if path.res.len() == 0 {
            return None;
        }

        let prelude = self.cx.prelude_def_ids();
        // A `use` may bring in things from multiple namespaces. To avoid
        // false positives, warn only if all of them are available through a
        // prelude.
        let mut i: usize = 0;
        while i < path.res.len()
            invariant
                i <= path.res.len(),
                self.cx@ == old(self).cx@,
                self.cx.cached() == Some(prelude@),
                prelude@ == prelude_surface(self.cx@),
                item.kind == ItemKind::Use(*path, UseKind::Single),
                all_in_prelude(prelude@, path.res@.take(i as int)),
            decreases path.res.len() - i,
        {
            let present = match path.res[i] {
                Some(id) => prelude.contains_key(&id),
                None => false,
            };
            if !present {
                assert(!(path.res@[i as int] is Some && prelude@.contains_key(
                    path.res@[i as int].unwrap(),
                )));
                return None;
            }
            assert forall|k: int| 0 <= k < i + 1 implies (#[trigger] path.res@.take(i + 1)[k])
                is Some && prelude@.contains_key(path.res@.take(i + 1)[k].unwrap()) by {
                if k < i {
                    assert(path.res@.take(i as int)[k] == path.res@[k]);
                }
            }
            i += 1;
        }
        assert(path.res@.take(path.res.len() as int) =~= path.res@);

        // The lint is off in units generated for documentation tests.
        if str_contains(self.cx.local_crate_name().as_str(), "doctest") {
            return None;
        }

        let Some(imported) = path.res[0] else {
            return None;
        };
        let Some(cnum) = prelude.get(&imported) else {
            return None;
        };
        proof {
            let prog = self.cx@;
            lemma_surface_names_crates(prog, prog.crates@.len() as int, imported);
            let k = choose|k: int|
                0 <= k < prog.crates@.len() && (#[trigger] prog.crates@[k]).cnum == *cnum;
            lemma_crate_index_found(prog.crates@, *cnum, 0, k);
        }
        let Some(crate_name) = self.cx.crate_name(*cnum) else {
            return None;
        };

        let mut help = String::from_str("import with `");
        help.append(crate_name.as_str());
        help.append("::prelude::*` instead");
        assert(help@ =~= help_text(crate_name@));

        let mut diag = Diag::new(
            Level::Warning,
            String::from_str("not_using_prelude"),
            String::from_str("this item is available via prelude"),
        );
        diag.set_span(MultiSpan::from_span(item.span));
        diag.help(help);
        Some(diag)
    }
}

/// An import of a single name warns whenever everything it resolves to is in
/// the prelude surface, no segment of its path is `prelude`, and the current
/// unit is not a documentation test; the warning names a unit of the program,
/// the one that exports the first resolution.
pub proof fn lemma_redundant_import_warns(prog: Program, item: Item, path: UsePath)
    requires
        item.kind == ItemKind::Use(path, UseKind::Single),
        path.res@.len() > 0,
        all_in_prelude(prelude_surface(prog), path.res@),
        !names_prelude(path.segments@),
        !has_substring(prog.local_crate_name@, "doctest"@),
    ensures
        should_warn(prog, item),
        crate_name_of(prog, exporting_crate(prog, path)) is Some,
        warning_for(prog, item) == warning(
            item.span,
            crate_name_of(prog, exporting_crate(prog, path)).unwrap()@,
        ),
{
    let id = path.res@[0].unwrap();
    lemma_surface_names_crates(prog, prog.crates@.len() as int, id);
    let cnum = exporting_crate(prog, path);
    let k = choose|k: int| 0 <= k < prog.crates@.len() && (#[trigger] prog.crates@[k]).cnum == cnum;
    lemma_crate_index_found(prog.crates@, cnum, 0, k);
}

/// An import does not warn if one of its resolutions is missing from the
/// prelude surface.
pub proof fn lemma_partial_import_is_silent(prog: Program, item: Item, path: UsePath, kind: UseKind, i: int)
    requires
        item.kind == ItemKind::Use(path, kind),
        0 <= i < path.res@.len(),
        path.res@[i] is None || !prelude_surface(prog).contains_key(path.res@[i].unwrap()),
    ensures
        !should_warn(prog, item),
{
}

/// Imports of anything but a single name, and paths that go through a module
/// named `prelude`, never warn.
pub proof fn lemma_glob_and_prelude_paths_are_silent(prog: Program, item: Item)
    requires
        match item.kind {
            ItemKind::Use(path, kind) => kind != UseKind::Single || names_prelude(path.segments@),
            ItemKind::Other => true,
        },
    ensures
        !should_warn(prog, item),
{
}

} // verus!
