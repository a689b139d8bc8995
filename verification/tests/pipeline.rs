use arise::builders::AriseError;
use arise::builders::body_string;
use arise::builders::build_skin_body;
use arise::builders::build_skin_footer;
use arise::builders::build_skin_header;
use arise::builders::evolve_skin;
use arise::builders::footer_string;
use arise::builders::header_string;
use arise::builders::metainfo_string;
use arise::paths::basename;
use arise::paths::basename_from;

/// The full fixed output text: the four blocks, each separated from the
/// previous content by one newline.
fn expected_output() -> String {
    let mut s = String::new();
    s.push_str("; -- Metainfo-Text --\n");
    s.push_str("\n");
    s.push_str("; --- Skin Header-Start ---\n");
    s.push_str("[Rainmeter]\n");
    s.push_str("Update=10000\n");
    s.push_str("\n");
    s.push_str("[Metadata]\n");
    s.push_str("Name=AriseWorld\n");
    s.push_str("Author=clunion\n");
    s.push_str("Information=Shows a \"Hello, World!\"-kind text display\n");
    s.push_str("Version=0.1\n");
    s.push_str("License=Creative Commons Attribution - Non - Commercial - Share Alike 3.0\n");
    s.push_str("; --- Skin Header-End -----\n");
    s.push_str("\n");
    s.push_str("\n");
    s.push_str("; --- Skin Body-Start ---\n");
    s.push_str("[SimpleMeter]\n");
    s.push_str("Meter=String\n");
    s.push_str("Text=\" Arise, World!\"\n");
    s.push_str("AntiAlias=1\n");
    s.push_str("FontSize=40\n");
    s.push_str("FontFace=SegoeUI\n");
    s.push_str("FontColor=200,220,255\n");
    s.push_str("SolidColor=64,64,64,128,1\n");
    s.push_str("; --- Skin Body-End -----\n");
    s.push_str("\n");
    s.push_str("\n");
    s.push_str("; --- Skin Footer-Start ---\n");
    s.push_str("; --- Skin Footer-End -----\n");
    s.push_str("\n");
    s
}

#[test]
fn empty_input_gives_zero_counts_and_full_output() {
    let b = evolve_skin(String::new()).unwrap();
    assert_eq!(b.comment_singleline_cnt, 0);
    assert_eq!(b.comment_multiline_begin_cnt, 0);
    assert_eq!(b.comment_multiline_end_cnt, 0);
    assert_eq!(b.operator_assign_cnt, 0);
    assert_eq!(b.operator_plus_cnt, 0);
    assert_eq!(b.operator_minus_cnt, 0);
    assert_eq!(b.key_name_begin_cnt, 0);
    assert_eq!(b.key_name_end_cnt, 0);
    assert_eq!(b.multiplier_list_begin_cnt, 0);
    assert_eq!(b.multiplier_list_end_cnt, 0);
    assert_eq!(b.offset_variables_begin_cnt, 0);
    assert_eq!(b.offset_variables_end_cnt, 0);
    assert_eq!(b.section_header_begin_cnt, 0);
    assert_eq!(b.section_header_end_cnt, 0);
    assert_eq!(b.section_measures_begin_cnt, 0);
    assert_eq!(b.section_measures_end_cnt, 0);
    assert_eq!(b.section_meters_begin_cnt, 0);
    assert_eq!(b.section_meters_end_cnt, 0);
    assert_eq!(b.section_footer_begin_cnt, 0);
    assert_eq!(b.section_footer_end_cnt, 0);
    assert_eq!(b.skin_out, expected_output());
}

#[test]
fn one_expression_line_counts_each_operator_once() {
    let b = evolve_skin(String::from("x := y + z - w ; comment")).unwrap();
    assert_eq!(b.operator_assign_cnt, 1);
    assert_eq!(b.operator_plus_cnt, 1);
    assert_eq!(b.operator_minus_cnt, 1);
    assert_eq!(b.comment_singleline_cnt, 1);
    assert_eq!(b.comment_multiline_begin_cnt, 0);
    assert_eq!(b.comment_multiline_end_cnt, 0);
    assert_eq!(b.key_name_begin_cnt, 0);
    assert_eq!(b.key_name_end_cnt, 0);
    assert_eq!(b.multiplier_list_begin_cnt, 0);
    assert_eq!(b.multiplier_list_end_cnt, 0);
    assert_eq!(b.offset_variables_begin_cnt, 0);
    assert_eq!(b.offset_variables_end_cnt, 0);
    assert_eq!(b.section_header_begin_cnt, 0);
    assert_eq!(b.section_header_end_cnt, 0);
    assert_eq!(b.section_measures_begin_cnt, 0);
    assert_eq!(b.section_measures_end_cnt, 0);
    assert_eq!(b.section_meters_begin_cnt, 0);
    assert_eq!(b.section_meters_end_cnt, 0);
    assert_eq!(b.section_footer_begin_cnt, 0);
    assert_eq!(b.section_footer_end_cnt, 0);
}

#[test]
fn header_delimiters_on_separate_lines_count_once_each() {
    let b = evolve_skin(String::from("<header begin>\n<header end>\n")).unwrap();
    assert_eq!(b.section_header_begin_cnt, 1);
    assert_eq!(b.section_header_end_cnt, 1);
}

#[test]
fn running_twice_gives_byte_identical_output() {
    let input = "x := y + z\n; note\n<header begin>\n";
    let b1 = evolve_skin(String::from(input)).unwrap();
    let b2 = evolve_skin(String::from(input)).unwrap();
    assert_eq!(b1.skin_out, b2.skin_out);
    assert_eq!(b1.skin_out.as_bytes(), b2.skin_out.as_bytes());
    assert_eq!(b1.operator_assign_cnt, b2.operator_assign_cnt);
    assert_eq!(b1.comment_singleline_cnt, b2.comment_singleline_cnt);
    assert_eq!(b1.section_header_begin_cnt, b2.section_header_begin_cnt);
}

#[test]
fn output_opens_with_metainfo_then_header_banner() {
    let b = evolve_skin(String::from("anything at all\n")).unwrap();
    assert!(b.skin_out.starts_with("; -- Metainfo-Text --\n\n; --- Skin Header-Start ---\n"));
    assert_eq!(b.skin_out, expected_output());
}

#[test]
fn input_buffer_passes_through_unchanged() {
    let input = "keep me intact\n";
    let b = evolve_skin(String::from(input)).unwrap();
    assert_eq!(b.arise_in, input);
}

#[test]
fn block_strings_hold_the_fixed_texts() {
    assert_eq!(metainfo_string(), "; -- Metainfo-Text --\n");
    assert!(header_string().starts_with("; --- Skin Header-Start ---\n[Rainmeter]\nUpdate=10000\n"));
    assert!(header_string().ends_with("; --- Skin Header-End -----\n\n"));
    assert!(body_string().starts_with("; --- Skin Body-Start ---\n[SimpleMeter]\n"));
    assert!(body_string().ends_with("; --- Skin Body-End -----\n\n"));
    assert_eq!(footer_string(), "; --- Skin Footer-Start ---\n; --- Skin Footer-End -----\n\n");
    assert_eq!(
        format!(
            "{}\n{}\n{}\n{}",
            metainfo_string(),
            header_string(),
            body_string(),
            footer_string()
        ),
        expected_output()
    );
}

#[test]
fn builders_after_metainfo_leave_counters_alone() {
    let b = evolve_skin(String::from("; one\n; two\n")).unwrap();
    assert_eq!(b.comment_singleline_cnt, 2);
    let b = build_skin_header(b).unwrap();
    let b = build_skin_body(b).unwrap();
    let b = build_skin_footer(b).unwrap();
    assert_eq!(b.comment_singleline_cnt, 2);
    assert_eq!(b.operator_plus_cnt, 0);
}

#[test]
fn error_messages_name_the_failure() {
    assert_eq!(AriseError::InputUnreadable.message(), "input file missing or unreadable");
    assert_eq!(AriseError::OutputUnwritable.message(), "output file could not be written");
}

#[test]
fn basename_takes_the_part_after_the_last_separator() {
    assert_eq!(basename_from("a/b/c.txt", '/'), "c.txt");
    assert_eq!(basename_from("no-separator.rs", '/'), "no-separator.rs");
    assert_eq!(basename_from("trailing/", '/'), "");
    assert_eq!(basename_from("C:\\dir\\file.ini", '\\'), "file.ini");
    assert_eq!(basename("plain-name.log"), "plain-name.log");
}
