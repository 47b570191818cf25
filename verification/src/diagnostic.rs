//! Diagnostics under construction, and the rendering of instances in their text.

use vstd::prelude::*;
use vstd::string::*;
use crate::instance::{Predicate, PseudoCanonicalInput};
use crate::span::{MultiSpan, MultiSpanView};

pub mod use_stack;

verus! {

/// How a diagnostic, or one of its attached messages, is presented.
#[derive(Clone, Copy, Debug, PartialEq, Eq, Structural)]
pub enum Level {
    Warning,
    Note,
    Help,
}

/// A message attached to a diagnostic, with the locations it points at (possibly none).
#[derive(Debug)]
pub struct Subdiag {
    pub level: Level,
    pub message: String,
    pub span: MultiSpan,
}

/// The mathematical content of a [`Subdiag`].
pub struct SubdiagView {
    pub level: Level,
    pub message: Seq<char>,
    pub span: MultiSpanView,
}

impl View for Subdiag {
    type V = SubdiagView;

    open spec fn view(&self) -> SubdiagView {
        SubdiagView { level: self.level, message: self.message@, span: self.span@ }
    }
}

pub open spec fn subdiag_view(s: Subdiag) -> SubdiagView {
    s@
}

/// A diagnostic being built: the primary location is set at most once by the
/// renderers, and attached messages are only ever appended.
#[derive(Debug)]
pub struct Diag {
    pub level: Level,
    pub lint: String,
    pub message: String,
    pub span: MultiSpan,
    pub children: Vec<Subdiag>,
}

/// The mathematical content of a [`Diag`].
pub struct DiagView {
    pub level: Level,
    pub lint: Seq<char>,
    pub message: Seq<char>,
    pub span: MultiSpanView,
    pub children: Seq<SubdiagView>,
}

impl DiagView {
    pub open spec fn fresh(level: Level, lint: Seq<char>, message: Seq<char>) -> DiagView {
        DiagView { level, lint, message, span: MultiSpanView::empty(), children: Seq::empty() }
    }

    pub open spec fn with_span(self, span: MultiSpanView) -> DiagView {
        DiagView { span, ..self }
    }

    pub open spec fn with_message(self, message: Seq<char>) -> DiagView {
        DiagView { message, ..self }
    }

    pub open spec fn with_child(self, level: Level, span: MultiSpanView, message: Seq<char>) -> DiagView {
        DiagView { children: self.children.push(SubdiagView { level, message, span }), ..self }
    }

    /// A note that points at no location.
    pub open spec fn with_note(self, message: Seq<char>) -> DiagView {
        self.with_child(Level::Note, MultiSpanView::empty(), message)
    }
}

impl View for Diag {
    type V = DiagView;

    open spec fn view(&self) -> DiagView {
        DiagView {
            level: self.level,
            lint: self.lint@,
            message: self.message@,
            span: self.span@,
            children: self.children@.map_values(|s: Subdiag| subdiag_view(s)),
        }
    }
}

impl Diag {
    /// A diagnostic with no location and no attached message yet.
    pub fn new(level: Level, lint: String, message: String) -> (r: Diag)
        ensures
            r@ == DiagView::fresh(level, lint@, message@),
    {
        let r = Diag { level, lint, message, span: MultiSpan::new(), children: Vec::new() };
        assert(r@.children =~= Seq::empty());
        r
    }

    /// Replaces the primary message.
    pub fn primary_message(&mut self, message: String)
        ensures
            final(self)@ == old(self)@.with_message(message@),
    {
        self.message = message;
    }

    /// Sets the primary location.
    pub fn set_span(&mut self, span: MultiSpan)
        ensures
            final(self)@ == old(self)@.with_span(span@),
    {
        self.span = span;
    }

    /// Appends a message of the given level that points at `span`.
    pub fn sub(&mut self, level: Level, span: MultiSpan, message: String)
        ensures
            final(self)@ == old(self)@.with_child(level, span@, message@),
    {
        let ghost child = SubdiagView { level, message: message@, span: span@ };
        self.children.push(Subdiag { level, message, span });
        assert(self@.children =~= old(self)@.children.push(child));
    }

    /// Appends a note without location.
    pub fn note(&mut self, message: String)
        ensures
            final(self)@ == old(self)@.with_note(message@),
    {
        self.sub(Level::Note, MultiSpan::new(), message);
    }

    /// Appends a note that points at `span`.
    pub fn span_note(&mut self, span: MultiSpan, message: String)
        ensures
            final(self)@ == old(self)@.with_child(Level::Note, span@, message@),
    {
        self.sub(Level::Note, span, message);
    }

    /// Appends a help message without location.
    pub fn help(&mut self, message: String)
        ensures
            final(self)@ == old(self)@.with_child(Level::Help, MultiSpanView::empty(), message@),
    {
        self.sub(Level::Help, MultiSpan::new(), message);
    }
}

/// The predicates' renderings in their given order, separated by `", "`.
pub open spec fn bounds_text(bounds: Seq<Predicate>) -> Seq<char>
    decreases bounds.len(),
{
    if bounds.len() == 0 {
        Seq::empty()
    } else if bounds.len() == 1 {
        bounds[0].text@
    } else {
        bounds_text(bounds.drop_last()) + ", "@ + bounds.last().text@
    }
}

/// The instance's own rendering, followed by `" where "` and its assumed
/// predicates when there are any.
pub open spec fn display_text(input: PseudoCanonicalInput) -> Seq<char> {
    if input.typing_env.caller_bounds@.len() == 0 {
        input.value.text@
    } else {
        input.value.text@ + " where "@ + bounds_text(input.typing_env.caller_bounds@)
    }
}

/// Shows an instance together with the environment it is interpreted in.
pub struct PolyDisplay<'a>(pub &'a PseudoCanonicalInput);

impl<'a> PolyDisplay<'a> {
    pub fn render(&self) -> (r: String)
        ensures
            r@ == display_text(*self.0),
    {
        let input = self.0;
        let mut out = input.value.text.clone();
        let bounds = &input.typing_env.caller_bounds;
        if bounds.len() > 0 {
            let ghost head = input.value.text@ + " where "@;
            out.append(" where ");
            let mut i: usize = 0;
            while i < bounds.len()
                invariant
                    i <= bounds.len(),
                    out@ == head + bounds_text(bounds@.take(i as int)),
                decreases bounds.len() - i,
            {
                proof {
                    assert(bounds@.take(i + 1).drop_last() =~= bounds@.take(i as int));
                    assert(bounds@.take(i + 1).last() == bounds@[i as int]);
                }
                if i > 0 {
                    out.append(", ");
                    assert(out@ =~= head + (bounds_text(bounds@.take(i as int)) + ", "@));
                }
                out.append(bounds[i].text.as_str());
                assert(out@ =~= head + bounds_text(bounds@.take(i + 1)));
                i += 1;
            }
            assert(bounds@.take(bounds.len() as int) =~= bounds@);
        }
        out
    }
}

/// The rendering is the instance's text alone exactly when nothing is assumed;
/// otherwise it continues with a `where` clause.
pub proof fn lemma_where_clause_iff_bounds(input: PseudoCanonicalInput)
    ensures
        input.typing_env.caller_bounds@.len() == 0 <==> display_text(input) == input.value.text@,
        input.typing_env.caller_bounds@.len() > 0 ==> display_text(input).len()
            >= input.value.text@.len() + 7 && display_text(input).subrange(
            0,
            input.value.text@.len() + 7 as int,
        ) == input.value.text@ + " where "@,
{
    reveal_strlit(" where ");
    let d = display_text(input);
    let t = input.value.text@;
    if input.typing_env.caller_bounds@.len() > 0 {
        assert(d.len() >= t.len() + 7);
        assert(d.subrange(0, t.len() + 7 as int) =~= t + " where "@);
    }
}

} // verus!
