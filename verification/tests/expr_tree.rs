use hackc_compile::expr_tree::{char_boundary, replace_from_last, sort_by_start_pos, ByteSpan};

fn span(start: usize, end: usize) -> ByteSpan {
    ByteSpan { start, end }
}

fn lit(start: usize, end: usize, text: &str) -> (ByteSpan, Vec<u8>) {
    (span(start, end), text.as_bytes().to_vec())
}

#[test]
fn sort_orders_by_start_and_keeps_ties_in_order() {
    let mut items = vec![(span(9, 10), 'a'), (span(2, 4), 'b'), (span(9, 12), 'c'), (span(0, 1), 'd')];
    sort_by_start_pos(&mut items);
    let order: Vec<char> = items.iter().map(|(_, c)| *c).collect();
    assert_eq!(order, vec!['d', 'b', 'a', 'c']);
}

#[test]
fn literals_are_replaced_where_they_stand() {
    let src = "$c = Code`bar()`; $d = Code`baz()`;";
    let mut literals = vec![lit(23, 34, "DESUGARED_2"), lit(5, 16, "D1")];
    sort_by_start_pos(&mut literals);
    let out = replace_from_last(src.as_bytes(), &literals).unwrap();
    assert_eq!(String::from_utf8(out).unwrap(), "$c = D1; $d = DESUGARED_2;");
}

#[test]
fn no_literals_leave_the_text_unchanged() {
    let out = replace_from_last(b"abc", &vec![]).unwrap();
    assert_eq!(out, b"abc".to_vec());
}

#[test]
fn replacement_can_grow_and_shrink_the_text() {
    let mut literals = vec![lit(0, 1, "xyz"), lit(2, 5, "")];
    sort_by_start_pos(&mut literals);
    let out = replace_from_last(b"abcdefg", &literals).unwrap();
    assert_eq!(out, b"xyzbfg".to_vec());
}

#[test]
fn span_past_the_end_is_refused() {
    let literals = vec![lit(2, 9, "x")];
    assert!(replace_from_last(b"abc", &literals).is_none());
}

#[test]
fn span_that_ends_before_it_starts_is_refused() {
    let literals = vec![lit(2, 1, "x")];
    assert!(replace_from_last(b"abc", &literals).is_none());
}

#[test]
fn span_inside_a_character_is_refused() {
    let src = "aé";
    let literals = vec![lit(2, 3, "x")];
    assert!(replace_from_last(src.as_bytes(), &literals).is_none());
}

#[test]
fn char_boundaries_of_multibyte_text() {
    let bytes = "aé".as_bytes().to_vec();
    assert!(char_boundary(&bytes, 0));
    assert!(char_boundary(&bytes, 1));
    assert!(!char_boundary(&bytes, 2));
    assert!(char_boundary(&bytes, 3));
    assert!(!char_boundary(&bytes, 4));
}
