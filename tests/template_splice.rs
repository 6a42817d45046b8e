use fractal_viewer::template::{compose_program_source, insert_custom_func};

#[test]
fn splice_replaces_marked_span() {
    let r = insert_custom_func("head\n//>>\nold body\n//<<\ntail", "NEW");
    assert_eq!(r, Some("head\nNEW\ntail".to_string()));
}

#[test]
fn splice_keeps_custom_text_verbatim() {
    let custom = "inline Complex_t f(Complex_t z, Complex_t c) { return c; } //>> //<<";
    let r = insert_custom_func("A//>>B//<<C", custom).unwrap();
    assert_eq!(r, format!("A{custom}C"));
}

#[test]
fn splice_without_open_marker_is_none() {
    assert_eq!(insert_custom_func("no markers //<< here", "X"), None);
}

#[test]
fn splice_without_close_marker_is_none() {
    assert_eq!(insert_custom_func("a //>> b", "X"), None);
}

#[test]
fn splice_close_marker_before_open_is_none() {
    assert_eq!(insert_custom_func("a //<< b //>> c", "X"), None);
}

#[test]
fn splice_stops_at_a_further_marker() {
    let r = insert_custom_func("a//>>b//<<c//<<d", "X");
    assert_eq!(r, Some("aXc".to_string()));
    let r = insert_custom_func("a//>>b//<<c//>>d", "X");
    assert_eq!(r, Some("aXc".to_string()));
}

#[test]
fn splice_handles_non_ascii_text() {
    let r = insert_custom_func("é//>>ü//<<ß", "ω");
    assert_eq!(r, Some("éωß".to_string()));
}

#[test]
fn program_source_without_custom_function() {
    let r = compose_program_source("S;", "F//>>f//<<;", "K;", None);
    assert_eq!(r, Some("S;F//>>f//<<;K;".to_string()));
}

#[test]
fn program_source_with_custom_function() {
    let r = compose_program_source("S;", "F//>>f//<<;", "K;", Some("g"));
    assert_eq!(r, Some("S;Fg;K;".to_string()));
}

#[test]
fn program_source_with_unmarked_template_is_none() {
    assert_eq!(compose_program_source("S", "F", "K", Some("g")), None);
}
