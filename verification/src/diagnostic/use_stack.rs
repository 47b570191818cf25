//! Rendering of use chains into diagnostics.
//!
//! A use chain explains why an instance counts as used: each site names the
//! instance that makes the use and where it does so. Not every use is a call,
//! so this is a use stack rather than a call stack.

use vstd::prelude::*;
use vstd::string::*;
use crate::ctxt::AnalysisCtxt;
use crate::diagnostic::{display_text, Diag, DiagView, Level, PolyDisplay, SubdiagView};
use crate::instance::{DefId, Instance, PseudoCanonicalInput};
use crate::program::{identity_index_from, Program};
use crate::span::{MultiSpan, MultiSpanView, Span};

verus! {

#[derive(Debug)]
pub enum UseSiteKind {
    /// Used due to a direct function call.
    Call(Span),
    /// Used due to a variable drop.
    Drop {
        /// Span that causes the drop.
        drop_span: Span,
        /// Span of the place being dropped.
        place_span: Span,
    },
    /// A function is used when it is coerced into a function pointer.
    PointerCoercion(Span),
    /// A function is used as it is a trait method and the trait vtable is constructed.
    Vtable(Span),
    /// Some other type of usage, with the note that describes it.
    Other(Span, String),
}

impl UseSiteKind {
    pub open spec fn spec_span(&self) -> Span {
        match *self {
            UseSiteKind::Call(span) => span,
            UseSiteKind::Drop { drop_span, place_span } => drop_span,
            UseSiteKind::PointerCoercion(span) => span,
            UseSiteKind::Vtable(span) => span,
            UseSiteKind::Other(span, _) => span,
        }
    }

    /// The location of the use, with the dropped value labelled for a drop.
    pub open spec fn spec_multispan(&self) -> MultiSpanView {
        match *self {
            UseSiteKind::Drop { drop_span, place_span } => MultiSpanView::single(
                drop_span,
            ).with_label(place_span, "value being dropped is here"@),
            _ => MultiSpanView::single(self.spec_span()),
        }
    }

    /// The wording of the note for a use of this kind.
    pub open spec fn spec_note_text(&self) -> Seq<char> {
        match *self {
            UseSiteKind::Call(_) => "which is called from here"@,
            UseSiteKind::Drop { .. } => "which is dropped here"@,
            UseSiteKind::PointerCoercion(_) => "which is used as a pointer here"@,
            UseSiteKind::Vtable(_) => "which is used as a vtable here"@,
            UseSiteKind::Other(_, text) => text@,
        }
    }

    pub fn span(&self) -> (r: Span)
        ensures
            r == self.spec_span(),
    {
        match self {
            UseSiteKind::Call(span) => *span,
            UseSiteKind::Drop { drop_span, place_span: _ } => *drop_span,
            UseSiteKind::PointerCoercion(span) => *span,
            UseSiteKind::Vtable(span) => *span,
            UseSiteKind::Other(span, _) => *span,
        }
    }

    pub fn multispan(&self) -> (r: MultiSpan)
        ensures
            r@ == self.spec_multispan(),
    {
        match self {
            UseSiteKind::Drop { drop_span, place_span } => {
                let mut multispan = MultiSpan::from_span(*drop_span);
                multispan.push_span_label(*place_span, String::from_str("value being dropped is here"));
                multispan
            },
            _ => MultiSpan::from_span(self.span()),
        }
    }

    pub fn note_text(&self) -> (r: String)
        ensures
            r@ == self.spec_note_text(),
    {
        match self {
            UseSiteKind::Call(_) => String::from_str("which is called from here"),
            UseSiteKind::Drop { .. } => String::from_str("which is dropped here"),
            UseSiteKind::PointerCoercion(_) => String::from_str("which is used as a pointer here"),
            UseSiteKind::Vtable(_) => String::from_str("which is used as a vtable here"),
            UseSiteKind::Other(_, text) => text.clone(),
        }
    }
}

#[derive(Debug)]
pub struct UseSite {
    /// A instance that makes the use.
    pub instance: PseudoCanonicalInput,
    /// A specific use occured in the instance.
    pub kind: UseSiteKind,
}

/// The instance of `def_id` at its own parameters, where the program records one.
pub open spec fn poly_instance_of(prog: Program, def_id: DefId) -> Option<PseudoCanonicalInput> {
    match identity_index_from(prog.identities@, def_id, 0) {
        Some(i) => Some(prog.identities@[i]),
        None => None,
    }
}

/// `input` is its symbol's instance at the symbol's own parameters, under the
/// symbol's own environment: nothing has been specialized.
pub open spec fn fully_polymorphic(prog: Program, input: PseudoCanonicalInput) -> bool {
    match poly_instance_of(prog, input.value.def_id) {
        Some(poly) => poly.same(&input),
        None => false,
    }
}

/// `inst` is the drop glue of the type that is its first argument.
pub open spec fn is_drop_glue(prog: Program, inst: Instance) -> bool {
    prog.drop_in_place == Some(inst.def_id) && inst.args@.len() > 0
}

/// `inst` is a call of the explicit drop function.
pub open spec fn is_explicit_drop(prog: Program, inst: Instance) -> bool {
    prog.mem_drop == Some(inst.def_id)
}

/// A site that is left out of the chain of locations.
pub open spec fn is_suppressed(prog: Program, site: UseSite) -> bool {
    is_drop_glue(prog, site.instance.value) || is_explicit_drop(prog, site.instance.value)
}

pub open spec fn drop_glue_text(inst: Instance) -> Seq<char> {
    "called from drop glue of `"@ + inst.args@[0].text@ + "`"@
}

pub open spec fn inside_text(input: PseudoCanonicalInput) -> Seq<char> {
    "inside instance `"@ + display_text(input) + "`"@
}

/// `d` after the location of a use has been recorded: as the primary location
/// while there is none, as a note afterwards.
pub open spec fn located(d: DiagView, kind: UseSiteKind) -> DiagView {
    if d.span.is_dummy() {
        d.with_span(kind.spec_multispan())
    } else {
        d.with_child(Level::Note, kind.spec_multispan(), kind.spec_note_text())
    }
}

/// `d` after one site has been rendered.
pub open spec fn note_site(prog: Program, d: DiagView, site: UseSite) -> DiagView {
    if is_drop_glue(prog, site.instance.value) {
        d.with_note(drop_glue_text(site.instance.value))
    } else if is_explicit_drop(prog, site.instance.value) {
        d
    } else if fully_polymorphic(prog, site.instance) {
        located(d, site.kind)
    } else {
        located(d, site.kind).with_note(inside_text(site.instance))
    }
}

/// `d` after the whole chain has been rendered, the last site first.
pub open spec fn rendered(prog: Program, d: DiagView, use_stack: Seq<UseSite>) -> DiagView
    decreases use_stack.len(),
{
    if use_stack.len() == 0 {
        d
    } else {
        rendered(prog, note_site(prog, d, use_stack.last()), use_stack.drop_last())
    }
}

impl AnalysisCtxt {
    /// Obtain the polymorphic instance of `def_id`.
    pub fn poly_instance_of_def_id(&self, def_id: DefId) -> (r: Option<&PseudoCanonicalInput>)
        ensures
            match r {
                Some(poly) => poly_instance_of(self@, def_id) == Some(*poly),
                None => poly_instance_of(self@, def_id) is None,
            },
    {
        match self.program().find_identity(def_id) {
            Some(i) => Some(&self.program().identities[i]),
            None => None,
        }
    }

    /// Determine if the instance is fully polymorphic, or if it is already specialized.
    pub fn is_fully_polymorphic(&self, instance: &PseudoCanonicalInput) -> (r: bool)
        ensures
            r == fully_polymorphic(self@, *instance),
    {
        match self.poly_instance_of_def_id(instance.value.def_id) {
            Some(poly) => poly.same_as(instance),
            None => false,
        }
    }

    /// Renders one site of a use chain into `diag`.
    pub fn note_use_site(&self, diag: &mut Diag, site: &UseSite)
        ensures
            final(diag)@ == note_site(self@, old(diag)@, *site),
    {
        let instance = &site.instance.value;
        if self.is_drop_in_place(instance.def_id) && instance.args.len() > 0 {
            let mut text = String::from_str("called from drop glue of `");
            text.append(instance.args[0].text.as_str());
            text.append("`");
            assert(text@ =~= drop_glue_text(*instance));
            diag.note(text);
            return;
        }
        // A call of the explicit drop function is left out: it is mostly noise.
        if self.is_mem_drop(instance.def_id) {
            return;
        }
        if diag.span.is_dummy() {
            diag.set_span(site.kind.multispan());
        } else {
            diag.span_note(site.kind.multispan(), site.kind.note_text());
        }
        if !self.is_fully_polymorphic(&site.instance) {
            let mut text = String::from_str("inside instance `");
            text.append(PolyDisplay(&site.instance).render().as_str());
            text.append("`");
            assert(text@ =~= inside_text(site.instance));
            diag.note(text);
        }
    }

    /// Renders a use chain, given from the outermost site to the innermost,
    /// into `diag`: the innermost site first.
    pub fn note_use_stack(&self, diag: &mut Diag, use_stack: &[UseSite])
        ensures
            final(diag)@ == rendered(self@, old(diag)@, use_stack@),
    {
        let ghost start = diag@;
        let mut i: usize = use_stack.len();
        assert(use_stack@.take(i as int) =~= use_stack@);
        while i > 0
            invariant
                i <= use_stack.len(),
                rendered(self@, start, use_stack@) == rendered(
                    self@,
                    diag@,
                    use_stack@.take(i as int),
                ),
            decreases i,
        {
            i -= 1;
            proof {
                assert(use_stack@.take(i + 1).last() == use_stack@[i as int]);
                assert(use_stack@.take(i + 1).drop_last() =~= use_stack@.take(i as int));
            }
            self.note_use_site(diag, &use_stack[i]);
        }
    }
}

/// Rendering starts with the innermost site: a chain that ends in `inner` is
/// rendered by rendering `inner` and then the chain before it.
pub proof fn lemma_render_innermost_first(
    prog: Program,
    d: DiagView,
    outer: Seq<UseSite>,
    inner: UseSite,
)
    ensures
        rendered(prog, d, outer.push(inner)) == rendered(prog, note_site(prog, d, inner), outer),
{
    assert(outer.push(inner).drop_last() =~= outer);
}

/// A chain given as `a`, `b`, `c` is rendered as `c`, then `b`, then `a`.
pub proof fn lemma_render_reverses(prog: Program, d: DiagView, a: UseSite, b: UseSite, c: UseSite)
    ensures
        rendered(prog, d, seq![a, b, c]) == note_site(
            prog,
            note_site(prog, note_site(prog, d, c), b),
            a,
        ),
{
    let e = Seq::<UseSite>::empty();
    assert(seq![a, b, c] =~= e.push(a).push(b).push(c));
    lemma_render_innermost_first(prog, d, e.push(a).push(b), c);
    lemma_render_innermost_first(prog, note_site(prog, d, c), e.push(a), b);
    lemma_render_innermost_first(prog, note_site(prog, note_site(prog, d, c), b), e, a);
}

/// One site never removes or changes what the diagnostic already holds: a
/// primary location that is set stays, and notes are only appended.
pub proof fn lemma_site_appends(prog: Program, d: DiagView, site: UseSite)
    ensures
        !d.span.is_dummy() ==> note_site(prog, d, site).span == d.span,
        d.children.is_prefix_of(note_site(prog, d, site).children),
        note_site(prog, d, site).level == d.level,
        note_site(prog, d, site).lint == d.lint,
        note_site(prog, d, site).message == d.message,
{
}

/// Once a diagnostic has a primary location, rendering a chain keeps it, and
/// keeps every note that was there, in place.
pub proof fn lemma_primary_location_set_once(prog: Program, d: DiagView, use_stack: Seq<UseSite>)
    ensures
        !d.span.is_dummy() ==> rendered(prog, d, use_stack).span == d.span,
        d.children.is_prefix_of(rendered(prog, d, use_stack).children),
    decreases use_stack.len(),
{
    if use_stack.len() > 0 {
        let next = note_site(prog, d, use_stack.last());
        lemma_site_appends(prog, d, use_stack.last());
        lemma_primary_location_set_once(prog, next, use_stack.drop_last());
    }
}

/// The primary location of a diagnostic that had none is that of the first
/// site, counted from the innermost, that is not suppressed.
pub proof fn lemma_primary_from_first_unsuppressed(
    prog: Program,
    d: DiagView,
    use_stack: Seq<UseSite>,
    k: int,
)
    requires
        d.span.is_dummy(),
        0 <= k < use_stack.len(),
        !is_suppressed(prog, use_stack[k]),
        !use_stack[k].kind.spec_multispan().is_dummy(),
        forall|j: int| k < j < use_stack.len() ==> is_suppressed(prog, #[trigger] use_stack[j]),
    ensures
        rendered(prog, d, use_stack).span == use_stack[k].kind.spec_multispan(),
    decreases use_stack.len(),
{
    let next = note_site(prog, d, use_stack.last());
    if k == use_stack.len() - 1 {
        lemma_primary_location_set_once(prog, next, use_stack.drop_last());
    } else {
        assert(is_suppressed(prog, use_stack[use_stack.len() - 1]));
        lemma_primary_from_first_unsuppressed(prog, next, use_stack.drop_last(), k);
    }
}

/// Once the primary location is taken, a site that is not suppressed adds a
/// note at its own location, worded by its kind, right after the notes
/// already there.
pub proof fn lemma_later_site_adds_located_note(prog: Program, d: DiagView, site: UseSite)
    requires
        !d.span.is_dummy(),
        !is_suppressed(prog, site),
    ensures
        note_site(prog, d, site).span == d.span,
        note_site(prog, d, site).children.len() > d.children.len(),
        note_site(prog, d, site).children[d.children.len() as int] == (SubdiagView {
            level: Level::Note,
            message: site.kind.spec_note_text(),
            span: site.kind.spec_multispan(),
        }),
{
}

/// A site whose instance is specialized ends with a note that names the
/// instance; a site whose instance is fully polymorphic adds no such note.
pub proof fn lemma_specialized_site_names_instance(prog: Program, d: DiagView, site: UseSite)
    requires
        !is_suppressed(prog, site),
    ensures
        fully_polymorphic(prog, site.instance) ==> note_site(prog, d, site) == located(d, site.kind),
        !fully_polymorphic(prog, site.instance) ==> note_site(prog, d, site) == located(
            d,
            site.kind,
        ).with_note(inside_text(site.instance)),
{
}

/// A drop-glue site leaves the primary location alone and adds exactly one
/// note, which points at no location.
pub proof fn lemma_drop_glue_never_primary(prog: Program, d: DiagView, site: UseSite)
    requires
        is_drop_glue(prog, site.instance.value),
    ensures
        note_site(prog, d, site).span == d.span,
        note_site(prog, d, site) == d.with_note(drop_glue_text(site.instance.value)),
{
}

/// A site that calls the explicit drop function changes nothing.
pub proof fn lemma_explicit_drop_is_silent(prog: Program, d: DiagView, site: UseSite)
    requires
        is_explicit_drop(prog, site.instance.value),
        !is_drop_glue(prog, site.instance.value),
    ensures
        note_site(prog, d, site) == d,
{
}

/// The instance that the program records for a symbol is fully polymorphic.
pub proof fn lemma_identity_is_fully_polymorphic(prog: Program, def_id: DefId)
    requires
        poly_instance_of(prog, def_id) is Some,
    ensures
        fully_polymorphic(prog, poly_instance_of(prog, def_id).unwrap()),
{
    lemma_identity_found_has_symbol(prog.identities@, def_id, 0);
}

proof fn lemma_identity_found_has_symbol(ids: Seq<PseudoCanonicalInput>, def_id: DefId, i: int)
    requires
        0 <= i,
        identity_index_from(ids, def_id, i) is Some,
    ensures
        ({
            let k = identity_index_from(ids, def_id, i).unwrap();
            i <= k < ids.len() && ids[k].value.def_id == def_id
        }),
    decreases ids.len() - i,
{
    if i < ids.len() && ids[i].value.def_id != def_id {
        lemma_identity_found_has_symbol(ids, def_id, i + 1);
    }
}

} // verus!
