use arise::bucket::AriseBucket;
use arise::builders::build_metainfo;
use arise::markers::Marker;
use arise::markers::marker_text;
use arise::scan::chars_of;
use arise::scan::line_contains;
use arise::scan::split_lines;

/// The twenty counters in catalogue order.
fn counts(b: &AriseBucket) -> Vec<usize> {
    vec![
        b.comment_singleline_cnt,
        b.comment_multiline_begin_cnt,
        b.comment_multiline_end_cnt,
        b.operator_assign_cnt,
        b.operator_plus_cnt,
        b.operator_minus_cnt,
        b.key_name_begin_cnt,
        b.key_name_end_cnt,
        b.multiplier_list_begin_cnt,
        b.multiplier_list_end_cnt,
        b.offset_variables_begin_cnt,
        b.offset_variables_end_cnt,
        b.section_header_begin_cnt,
        b.section_header_end_cnt,
        b.section_measures_begin_cnt,
        b.section_measures_end_cnt,
        b.section_meters_begin_cnt,
        b.section_meters_end_cnt,
        b.section_footer_begin_cnt,
        b.section_footer_end_cnt,
    ]
}

fn scan(input: &str) -> AriseBucket {
    let mut b = AriseBucket::new();
    b.arise_in = String::from(input);
    build_metainfo(b).unwrap()
}

#[test]
fn catalogue_holds_the_twenty_literals() {
    assert_eq!(marker_text(Marker::CommentSingleline), ";");
    assert_eq!(marker_text(Marker::CommentMultilineBegin), "/*");
    assert_eq!(marker_text(Marker::CommentMultilineEnd), "*/");
    assert_eq!(marker_text(Marker::OperatorAssign), ":=");
    assert_eq!(marker_text(Marker::OperatorPlus), "+");
    assert_eq!(marker_text(Marker::OperatorMinus), "-");
    assert_eq!(marker_text(Marker::KeyNameBegin), "<:");
    assert_eq!(marker_text(Marker::KeyNameEnd), ":>");
    assert_eq!(marker_text(Marker::MultiplierListBegin), "<multiplier list begin>");
    assert_eq!(marker_text(Marker::MultiplierListEnd), "<multiplier list end>");
    assert_eq!(marker_text(Marker::OffsetVariablesBegin), "<offset variables begin>");
    assert_eq!(marker_text(Marker::OffsetVariablesEnd), "<offset variables end>");
    assert_eq!(marker_text(Marker::SectionHeaderBegin), "<header begin>");
    assert_eq!(marker_text(Marker::SectionHeaderEnd), "<header end>");
    assert_eq!(marker_text(Marker::SectionMeasuresBegin), "<measures begin>");
    assert_eq!(marker_text(Marker::SectionMeasuresEnd), "<measures end>");
    assert_eq!(marker_text(Marker::SectionMetersBegin), "<meters begin>");
    assert_eq!(marker_text(Marker::SectionMetersEnd), "<meters end>");
    assert_eq!(marker_text(Marker::SectionFooterBegin), "<footer begin>");
    assert_eq!(marker_text(Marker::SectionFooterEnd), "<footer end>");
}

#[test]
fn fresh_bucket_is_zeroed() {
    let b = AriseBucket::new();
    assert_eq!(counts(&b), vec![0; 20]);
    assert_eq!(b.arise_in, "");
    assert_eq!(b.skin_out, "");
}

#[test]
fn line_without_markers_counts_nothing() {
    let b = scan("hello world\nnothing here\n");
    assert_eq!(counts(&b), vec![0; 20]);
}

#[test]
fn marker_twice_in_one_line_counts_once() {
    let b = scan(";; two semicolons, one line\n");
    let mut expected = vec![0; 20];
    expected[0] = 1;
    assert_eq!(counts(&b), expected);
}

#[test]
fn marker_on_two_lines_counts_twice() {
    let b = scan("; first\n; second\n");
    let mut expected = vec![0; 20];
    expected[0] = 2;
    assert_eq!(counts(&b), expected);
}

#[test]
fn overlapping_markers_count_independently() {
    let b = scan("<header begin> <: x\n");
    let mut expected = vec![0; 20];
    expected[6] = 1;
    expected[12] = 1;
    assert_eq!(counts(&b), expected);
}

#[test]
fn marker_split_across_lines_does_not_count() {
    let b = scan("<header\nbegin>\n");
    assert_eq!(counts(&b), vec![0; 20]);
}

#[test]
fn every_marker_is_recognized() {
    let mut input = String::new();
    input.push_str("/* one\n");
    input.push_str("*/ two\n");
    input.push_str("a := b\n");
    input.push_str("a + b\n");
    input.push_str("a - b\n");
    input.push_str("<: key\n");
    input.push_str("key :>\n");
    input.push_str("<multiplier list begin>\n");
    input.push_str("<multiplier list end>\n");
    input.push_str("<offset variables begin>\n");
    input.push_str("<offset variables end>\n");
    input.push_str("<header begin>\n");
    input.push_str("<header end>\n");
    input.push_str("<measures begin>\n");
    input.push_str("<measures end>\n");
    input.push_str("<meters begin>\n");
    input.push_str("<meters end>\n");
    input.push_str("<footer begin>\n");
    input.push_str("<footer end>\n");
    let b = scan(&input);
    // One line per marker, except the singleline-comment marker, which
    // occurs nowhere in this input.
    let expected = vec![0, 1, 1, 1, 1, 1, 1, 1, 1, 1, 1, 1, 1, 1, 1, 1, 1, 1, 1, 1];
    assert_eq!(counts(&b), expected);
}

#[test]
fn scanning_twice_with_fresh_buckets_is_idempotent() {
    let input = "x := y + z\n; note\n<header begin>\n";
    let b1 = scan(input);
    let b2 = scan(input);
    assert_eq!(counts(&b1), counts(&b2));
}

#[test]
fn crlf_line_endings_scan_like_lf() {
    let b = scan("x := y\r\n; c\r\n");
    let mut expected = vec![0; 20];
    expected[0] = 1;
    expected[3] = 1;
    assert_eq!(counts(&b), expected);
}

#[test]
fn line_contains_finds_substrings() {
    let line = chars_of("a := b + c");
    assert!(line_contains(&line, ":="));
    assert!(line_contains(&line, "+"));
    assert!(line_contains(&line, "a := b"));
    assert!(!line_contains(&line, "-"));
    assert!(!line_contains(&line, "*/"));
    assert!(line_contains(&line, ""));
    let empty = chars_of("");
    assert!(!line_contains(&empty, ";"));
}

#[test]
fn split_lines_follows_newlines() {
    let text = chars_of("one\r\ntwo\nlast");
    let lines = split_lines(&text);
    assert_eq!(lines.len(), 3);
    assert_eq!(lines[0], vec!['o', 'n', 'e']);
    assert_eq!(lines[1], vec!['t', 'w', 'o']);
    assert_eq!(lines[2], vec!['l', 'a', 's', 't']);

    let empty = chars_of("");
    assert_eq!(split_lines(&empty).len(), 0);

    let trailing = chars_of("a\n");
    assert_eq!(split_lines(&trailing).len(), 1);
}
