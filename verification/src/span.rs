//! Source locations: single spans and labelled groups of spans.

use vstd::prelude::*;

verus! {

/// A half-open range of source positions. The all-zero span is the dummy span.
#[derive(Clone, Copy, Debug, PartialEq, Eq, Structural)]
pub struct Span {
    pub lo: u32,
    pub hi: u32,
}

impl Span {
    pub open spec fn spec_is_dummy(self) -> bool {
        self.lo == 0 && self.hi == 0
    }

    /// The dummy span, which stands for "no location".
    pub fn dummy() -> (r: Span)
        ensures
            r == (Span { lo: 0, hi: 0 }),
            r.spec_is_dummy(),
    {
        Span { lo: 0, hi: 0 }
    }

    #[verifier::when_used_as_spec(spec_is_dummy)]
    pub fn is_dummy(self) -> (r: bool)
        ensures
            r == self.spec_is_dummy(),
    {
        self.lo == 0 && self.hi == 0
    }
}

/// A span together with the text shown next to it.
#[derive(Debug)]
pub struct SpanLabel {
    pub span: Span,
    pub label: String,
}

impl View for SpanLabel {
    type V = (Span, Seq<char>);

    open spec fn view(&self) -> (Span, Seq<char>) {
        (self.span, self.label@)
    }
}

pub open spec fn label_view(l: SpanLabel) -> (Span, Seq<char>) {
    l@
}

/// The mathematical content of a [`MultiSpan`].
pub struct MultiSpanView {
    pub primary_spans: Seq<Span>,
    pub span_labels: Seq<(Span, Seq<char>)>,
}

impl MultiSpanView {
    /// A multi-span is dummy when none of its primary spans is a real location.
    pub open spec fn is_dummy(self) -> bool {
        forall|i: int| 0 <= i < self.primary_spans.len() ==> (#[trigger] self.primary_spans[i]).spec_is_dummy()
    }

    pub open spec fn empty() -> MultiSpanView {
        MultiSpanView { primary_spans: Seq::empty(), span_labels: Seq::empty() }
    }

    pub open spec fn single(span: Span) -> MultiSpanView {
        MultiSpanView { primary_spans: seq![span], span_labels: Seq::empty() }
    }

    pub open spec fn with_label(self, span: Span, label: Seq<char>) -> MultiSpanView {
        MultiSpanView {
            primary_spans: self.primary_spans,
            span_labels: self.span_labels.push((span, label)),
        }
    }
}

/// Primary spans plus labelled secondary spans.
#[derive(Debug)]
pub struct MultiSpan {
    pub primary_spans: Vec<Span>,
    pub span_labels: Vec<SpanLabel>,
}

impl View for MultiSpan {
    type V = MultiSpanView;

    open spec fn view(&self) -> MultiSpanView {
        MultiSpanView {
            primary_spans: self.primary_spans@,
            span_labels: self.span_labels@.map_values(|l: SpanLabel| label_view(l)),
        }
    }
}

impl MultiSpan {
    /// A multi-span with no location at all.
    pub fn new() -> (r: MultiSpan)
        ensures
            r@ == MultiSpanView::empty(),
            r@.is_dummy(),
    {
        let r = MultiSpan { primary_spans: Vec::new(), span_labels: Vec::new() };
        assert(r@.span_labels =~= Seq::empty());
        r
    }

    /// A multi-span whose only primary span is `span`.
    pub fn from_span(span: Span) -> (r: MultiSpan)
        ensures
            r@ == MultiSpanView::single(span),
    {
        let mut primary_spans: Vec<Span> = Vec::new();
        primary_spans.push(span);
        let r = MultiSpan { primary_spans, span_labels: Vec::new() };
        assert(r@.span_labels =~= Seq::empty());
        assert(r@.primary_spans =~= seq![span]);
        r
    }

    /// Attaches `label` to `span`, after the labels already present.
    pub fn push_span_label(&mut self, span: Span, label: String)
        ensures
            final(self)@ == old(self)@.with_label(span, label@),
    {
        self.span_labels.push(SpanLabel { span, label });
        assert(self@.span_labels =~= old(self)@.span_labels.push((span, label@)));
    }

    /// Whether every primary span is the dummy span (so also when there is none).
    pub fn is_dummy(&self) -> (r: bool)
        ensures
            r == self@.is_dummy(),
    {
        let mut i: usize = 0;
        while i < self.primary_spans.len()
            invariant
                i <= self.primary_spans.len(),
                forall|j: int| 0 <= j < i ==> (#[trigger] self.primary_spans@[j]).spec_is_dummy(),
            decreases self.primary_spans.len() - i,
        {
            if !self.primary_spans[i].is_dummy() {
                assert(!self@.primary_spans[i as int].spec_is_dummy());
                return false;
            }
            i += 1;
        }
        true
    }
}

} // verus!
