use harper_core::Span;

#[test]
fn overlaps() {
    assert!(Span::new(0, 5).overlaps_with(Span::new(3, 6)));
    assert!(Span::new(0, 5).overlaps_with(Span::new(2, 3)));
    assert!(Span::new(0, 5).overlaps_with(Span::new(4, 5)));
}

#[test]
fn touching_spans_overlap() {
    assert!(Span::new(0, 5).overlaps_with(Span::new(5, 8)));
    assert!(Span::new(5, 8).overlaps_with(Span::new(0, 5)));
}

#[test]
fn separate_spans_do_not_overlap() {
    assert!(!Span::new(0, 4).overlaps_with(Span::new(5, 8)));
    assert!(!Span::new(5, 8).overlaps_with(Span::new(0, 4)));
}

#[test]
fn length_and_emptiness() {
    assert_eq!(Span::new(3, 10).len(), 7);
    assert!(!Span::new(3, 10).is_empty());
    assert_eq!(Span::new(4, 4).len(), 0);
    assert!(Span::new(4, 4).is_empty());
}

#[test]
fn content_is_the_window() {
    let source: Vec<char> = "hello world".chars().collect();
    let span = Span::new(6, 11);
    assert!(span.fits_in(&source));
    assert_eq!(span.get_content(&source), &['w', 'o', 'r', 'l', 'd']);
    assert_eq!(span.get_content_string(&source), "world");
    assert_eq!(Span::new(2, 2).get_content_string(&source), "");
    assert!(!Span::new(6, 12).fits_in(&source));
    assert!(!Span::new(7, 6).fits_in(&source));
}

#[test]
fn resizing() {
    let mut span = Span::new(2, 5);
    span.set_len(10);
    assert_eq!(span, Span::new(2, 12));
    let copy = span.with_len(1);
    assert_eq!(copy, Span::new(2, 3));
    assert_eq!(span, Span::new(2, 12));
    span.push_by(4);
    assert_eq!(span, Span::new(6, 16));
}
