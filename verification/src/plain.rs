use vstd::prelude::*;
use vstd::string::*;

verus! {

/// A byte range of a document's source, `start..end`.
#[derive(Debug, Clone, Copy, PartialEq, Eq, Default, Structural)]
pub struct Span {
    pub start: usize,
    pub end: usize,
}

/// What a format parser needs to know of where its source sits in the whole
/// document.
#[derive(Debug, Clone, Copy, PartialEq, Eq, Default, Structural)]
pub struct NodeContext {
    /// Byte offset of this source within the document.
    pub offset: usize,
}

/// A paragraph node: text, shaped as written, and the span of source it came
/// from.
pub struct Paragraph {
    text: String,
    span: Span,
}

impl Default for Paragraph {
    /// An empty paragraph with an empty span at the start.
    fn default() -> (p: Paragraph)
        ensures
            p.text_spec() == Seq::<char>::empty(),
            p.span_spec() == (Span { start: 0, end: 0 }),
    {
        Paragraph { text: String::new(), span: Span { start: 0, end: 0 } }
    }
}

impl Paragraph {
    /// The paragraph's text.
    pub closed spec fn text_spec(&self) -> Seq<char> {
        self.text@
    }

    /// The source span the paragraph came from.
    pub closed spec fn span_spec(&self) -> Span {
        self.span
    }

    /// Append text verbatim.
    pub fn push_str(&mut self, s: &str)
        ensures
            final(self).text_spec() == old(self).text_spec() + s@,
            final(self).span_spec() == old(self).span_spec(),
    {
        self.text.append(s);
    }

    /// Set the source span.
    pub fn set_span(&mut self, span: Span)
        ensures
            final(self).text_spec() == old(self).text_spec(),
            final(self).span_spec() == span,
    {
        self.span = span;
    }

    /// The paragraph's text.
    pub fn text(&self) -> (t: &str)
        ensures
            t@ == self.text_spec(),
    {
        self.text.as_str()
    }

    /// The source span the paragraph came from.
    pub fn span(&self) -> (s: Span)
        ensures
            s == self.span_spec(),
    {
        self.span
    }
}

/// A block of a parsed document.
pub enum BlockNode {
    Paragraph(Paragraph),
}

/// A parsed document: its source and its blocks.
pub struct ParsedDocument {
    pub source: String,
    pub blocks: Vec<BlockNode>,
}

/// The document that plain text parses to: its source kept as written, and a
/// single paragraph that holds the whole source, spanning its bytes from the
/// context's offset.
pub open spec fn is_plain_document(doc: ParsedDocument, source: Seq<char>, source_bytes: nat, offset: usize) -> bool {
    &&& doc.source@ == source
    &&& doc.blocks@.len() == 1
    &&& doc.blocks@[0] matches BlockNode::Paragraph(p) && {
        &&& p.text_spec() == source
        &&& p.span_spec() == (Span { start: offset, end: (offset + source_bytes) as usize })
    }
}

/// Parse plain text into a single paragraph node, verbatim.
///
/// Nothing in the source is interpreted: no emphasis, no headings, no block
/// structure. Newlines and leading whitespace survive as written, so literal
/// content reads exactly as it was written.
pub fn parse(source: &str, cx: &mut NodeContext) -> (doc: ParsedDocument)
    requires
        old(cx).offset + source.spec_bytes().len() <= usize::MAX,
    ensures
        is_plain_document(doc, source@, source.spec_bytes().len(), old(cx).offset),
        *final(cx) == *old(cx),
{
    let mut paragraph = Paragraph::default();
    paragraph.push_str(source);
    paragraph.set_span(Span { start: cx.offset, end: cx.offset + source.len() });
    let mut blocks: Vec<BlockNode> = Vec::new();
    blocks.push(BlockNode::Paragraph(paragraph));
    ParsedDocument { source: source.to_owned(), blocks }
}

} // verus!
