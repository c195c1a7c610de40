use gpui_component::plain::{parse, BlockNode, NodeContext, Span};

#[test]
fn plain_text_is_one_verbatim_paragraph() {
    let source = "{\n  \"a\": 1,\n    *not emphasis*\n}";
    let mut cx = NodeContext { offset: 0 };
    let doc = parse(source, &mut cx);
    assert_eq!(doc.source, source);
    assert_eq!(doc.blocks.len(), 1);
    match &doc.blocks[0] {
        BlockNode::Paragraph(p) => {
            assert_eq!(p.text(), source);
            assert_eq!(p.span(), Span { start: 0, end: source.len() });
        }
    }
    assert_eq!(cx.offset, 0);
}

#[test]
fn span_starts_at_the_context_offset_and_counts_bytes() {
    let source = "héllo\n";
    let mut cx = NodeContext { offset: 17 };
    let doc = parse(source, &mut cx);
    match &doc.blocks[0] {
        BlockNode::Paragraph(p) => {
            assert_eq!(p.span(), Span { start: 17, end: 17 + 7 });
            assert_eq!(p.text(), "héllo\n");
        }
    }
    assert_eq!(cx.offset, 17);
}

#[test]
fn empty_source_gives_an_empty_paragraph() {
    let mut cx = NodeContext { offset: 3 };
    let doc = parse("", &mut cx);
    assert_eq!(doc.blocks.len(), 1);
    match &doc.blocks[0] {
        BlockNode::Paragraph(p) => {
            assert_eq!(p.text(), "");
            assert_eq!(p.span(), Span { start: 3, end: 3 });
        }
    }
}
