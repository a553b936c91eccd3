use distilllab::order::{pair_less, text_less};

#[test]
fn text_order_is_by_characters_with_prefixes_first() {
    assert!(text_less("2026-04-05T00:00:01Z", "2026-04-05T00:00:02Z"));
    assert!(!text_less("b", "a"));
    assert!(text_less("run", "run-1"));
    assert!(!text_less("same", "same"));
    assert!(text_less("", "a"));
}

#[test]
fn pair_order_compares_first_then_second() {
    assert!(pair_less("t1", "z", "t2", "a"));
    assert!(pair_less("t1", "a", "t1", "b"));
    assert!(!pair_less("t1", "b", "t1", "b"));
    assert!(!pair_less("t2", "a", "t1", "z"));
}
