use hackc_compile::prim_defs::Comment;

#[test]
fn comments_compare_by_kind_then_text() {
    let line = Comment::CmtLine("// a");
    let block = Comment::CmtBlock("/* a */");
    assert!(line < block);
    assert!(Comment::CmtLine("a") < Comment::CmtLine("b"));
    assert_eq!(line, Comment::CmtLine("// a"));
    assert_ne!(line, Comment::CmtBlock("// a"));
}
