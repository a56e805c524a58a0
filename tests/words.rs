use songbot::Words;

#[test]
pub fn test_words() {
    let w = Words::new("");
    assert_eq!(Vec::<(usize, &str)>::new(), w.collect_words());

    let w = Words::new("Foo Bar");
    assert_eq!(vec![(0, "Foo"), (4, "Bar")], w.collect_words());

    let w = Words::new(" Foo   ");
    assert_eq!(vec![(1, "Foo")], w.collect_words());

    let w = Words::new("test test PrideGive");
    assert_eq!(
        vec![(0, "test"), (5, "test"), (10, "PrideGive")],
        w.collect_words()
    );
}

#[test]
fn words_unicode_whitespace() {
    let w = Words::new("a\u{3000}b\u{a0}c\u{2003}d\té");
    assert_eq!(
        vec![(0, "a"), (4, "b"), (7, "c"), (11, "d"), (13, "é")],
        w.collect_words()
    );
}

#[test]
fn words_next_steps() {
    let mut w = Words::new("  one two");
    assert_eq!(Some((2, "one")), w.next());
    assert_eq!(Some((6, "two")), w.next());
    assert_eq!(None, w.next());
    assert_eq!(None, w.next());
}
