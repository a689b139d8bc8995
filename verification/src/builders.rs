//! The four ordered section builders and the pipeline that runs them.
//!
//! Each builder takes the accumulator by value and returns it with one fixed
//! block of output text appended, separated from the previous content by a
//! single newline.  Only the metainfo step scans the input; the other three
//! leave the counters and the remaining input untouched.  The execution
//! order is fixed: metainfo, header, body, footer.

use vstd::prelude::*;

use crate::bucket::AriseBucket;
use crate::bucket::lemma_scan_deterministic;
use crate::markers::Marker;
use crate::markers::marker_literal;
use crate::markers::marker_text;
use crate::scan::chars_of;
use crate::scan::line_has;
use crate::scan::lemma_count_take_step;
use crate::scan::line_contains;
use crate::scan::line_views;
use crate::scan::lines_of;
use crate::scan::split_lines;

verus! {

/// What can go wrong around a generation run.  The builders themselves
/// never fail; the variants name the failures of the surrounding file work,
/// so that one uniform result threads through every build step.
#[derive(Clone, Copy, PartialEq, Eq, Structural, Debug)]
pub enum AriseError {
    /// The input file is missing or could not be read.
    InputUnreadable,
    /// The output file could not be created or written.
    OutputUnwritable,
}

impl AriseError {
    /// A short description of the failure.
    pub fn message(&self) -> (s: &'static str)
        ensures
            *self == AriseError::InputUnreadable ==> s@ == "input file missing or unreadable"@,
            *self == AriseError::OutputUnwritable ==> s@ == "output file could not be written"@,
    {
        match self {
            AriseError::InputUnreadable => "input file missing or unreadable",
            AriseError::OutputUnwritable => "output file could not be written",
        }
    }
}

/// The fixed metainfo block.
pub open spec fn metainfo_text() -> Seq<char> {
    "; -- Metainfo-Text --\n"@
}

/// The comment banner that opens the skin header block.
pub open spec fn header_banner() -> Seq<char> {
    "; --- Skin Header-Start ---\n"@
}

/// The fixed skin header block: the `[Rainmeter]` and `[Metadata]` stanzas.
pub open spec fn header_text() -> Seq<char> {
    header_banner() + "[Rainmeter]\n"@ + "Update=10000\n"@ + "\n"@ + "[Metadata]\n"@
        + "Name=AriseWorld\n"@ + "Author=clunion\n"@
        + "Information=Shows a \"Hello, World!\"-kind text display\n"@ + "Version=0.1\n"@
        + "License=Creative Commons Attribution - Non - Commercial - Share Alike 3.0\n"@
        + "; --- Skin Header-End -----\n"@ + "\n"@
}

/// The fixed skin body block: the `[SimpleMeter]` stanza.
pub open spec fn body_text() -> Seq<char> {
    "; --- Skin Body-Start ---\n"@ + "[SimpleMeter]\n"@ + "Meter=String\n"@
        + "Text=\" Arise, World!\"\n"@ + "AntiAlias=1\n"@ + "FontSize=40\n"@ + "FontFace=SegoeUI\n"@
        + "FontColor=200,220,255\n"@ + "SolidColor=64,64,64,128,1\n"@
        + "; --- Skin Body-End -----\n"@ + "\n"@
}

/// The fixed skin footer block: comment delimiters only.
pub open spec fn footer_text() -> Seq<char> {
    "; --- Skin Footer-Start ---\n"@ + "; --- Skin Footer-End -----\n"@ + "\n"@
}

/// The whole generated skin text: the four blocks in their fixed order,
/// each separated from the previous content by one newline.
pub open spec fn skin_text() -> Seq<char> {
    metainfo_text() + "\n"@ + header_text() + "\n"@ + body_text() + "\n"@ + footer_text()
}

/// The metainfo block as a string.
pub fn metainfo_string() -> (s: String)
    ensures
        s@ == metainfo_text(),
{
    String::from_str("; -- Metainfo-Text --\n")
}

/// The skin header block as a string.
pub fn header_string() -> (s: String)
    ensures
        s@ == header_text(),
{
    let mut s = String::from_str("; --- Skin Header-Start ---\n");
    s.append("[Rainmeter]\n");
    s.append("Update=10000\n");
    s.append("\n");
    s.append("[Metadata]\n");
    s.append("Name=AriseWorld\n");
    s.append("Author=clunion\n");
    s.append("Information=Shows a \"Hello, World!\"-kind text display\n");
    s.append("Version=0.1\n");
    s.append("License=Creative Commons Attribution - Non - Commercial - Share Alike 3.0\n");
    s.append("; --- Skin Header-End -----\n");
    s.append("\n");
    s
}

/// The skin body block as a string.
pub fn body_string() -> (s: String)
    ensures
        s@ == body_text(),
{
    let mut s = String::from_str("; --- Skin Body-Start ---\n");
    s.append("[SimpleMeter]\n");
    s.append("Meter=String\n");
    s.append("Text=\" Arise, World!\"\n");
    s.append("AntiAlias=1\n");
    s.append("FontSize=40\n");
    s.append("FontFace=SegoeUI\n");
    s.append("FontColor=200,220,255\n");
    s.append("SolidColor=64,64,64,128,1\n");
    s.append("; --- Skin Body-End -----\n");
    s.append("\n");
    s
}

/// The skin footer block as a string.
pub fn footer_string() -> (s: String)
    ensures
        s@ == footer_text(),
{
    let mut s = String::from_str("; --- Skin Footer-Start ---\n");
    s.append("; --- Skin Footer-End -----\n");
    s.append("\n");
    s
}

/// Tests one line for the presence of every marker literal and raises the
/// counter of each marker that is present by one.
#[verifier::rlimit(50)]
fn scan_line(arise: &mut AriseBucket, line: &Vec<char>)
    requires
        old(arise).comment_singleline_cnt < usize::MAX,
        old(arise).comment_multiline_begin_cnt < usize::MAX,
        old(arise).comment_multiline_end_cnt < usize::MAX,
        old(arise).operator_assign_cnt < usize::MAX,
        old(arise).operator_plus_cnt < usize::MAX,
        old(arise).operator_minus_cnt < usize::MAX,
        old(arise).key_name_begin_cnt < usize::MAX,
        old(arise).key_name_end_cnt < usize::MAX,
        old(arise).multiplier_list_begin_cnt < usize::MAX,
        old(arise).multiplier_list_end_cnt < usize::MAX,
        old(arise).offset_variables_begin_cnt < usize::MAX,
        old(arise).offset_variables_end_cnt < usize::MAX,
        old(arise).section_header_begin_cnt < usize::MAX,
        old(arise).section_header_end_cnt < usize::MAX,
        old(arise).section_measures_begin_cnt < usize::MAX,
        old(arise).section_measures_end_cnt < usize::MAX,
        old(arise).section_meters_begin_cnt < usize::MAX,
        old(arise).section_meters_end_cnt < usize::MAX,
        old(arise).section_footer_begin_cnt < usize::MAX,
        old(arise).section_footer_end_cnt < usize::MAX,
    ensures
        final(arise).comment_singleline_cnt == old(arise).comment_singleline_cnt + (if line_has(
            line@,
            marker_literal(Marker::CommentSingleline),
        ) {
            1int
        } else {
            0int
        }),
        final(arise).comment_multiline_begin_cnt == old(arise).comment_multiline_begin_cnt + (
        if line_has(line@, marker_literal(Marker::CommentMultilineBegin)) {
            1int
        } else {
            0int
        }),
        final(arise).comment_multiline_end_cnt == old(arise).comment_multiline_end_cnt + (
        if line_has(line@, marker_literal(Marker::CommentMultilineEnd)) {
            1int
        } else {
            0int
        }),
        final(arise).operator_assign_cnt == old(arise).operator_assign_cnt + (if line_has(
            line@,
            marker_literal(Marker::OperatorAssign),
        ) {
            1int
        } else {
            0int
        }),
        final(arise).operator_plus_cnt == old(arise).operator_plus_cnt + (if line_has(
            line@,
            marker_literal(Marker::OperatorPlus),
        ) {
            1int
        } else {
            0int
        }),
        final(arise).operator_minus_cnt == old(arise).operator_minus_cnt + (if line_has(
            line@,
            marker_literal(Marker::OperatorMinus),
        ) {
            1int
        } else {
            0int
        }),
        final(arise).key_name_begin_cnt == old(arise).key_name_begin_cnt + (if line_has(
            line@,
            marker_literal(Marker::KeyNameBegin),
        ) {
            1int
        } else {
            0int
        }),
        final(arise).key_name_end_cnt == old(arise).key_name_end_cnt + (if line_has(
            line@,
            marker_literal(Marker::KeyNameEnd),
        ) {
            1int
        } else {
            0int
        }),
        final(arise).multiplier_list_begin_cnt == old(arise).multiplier_list_begin_cnt + (
        if line_has(line@, marker_literal(Marker::MultiplierListBegin)) {
            1int
        } else {
            0int
        }),
        final(arise).multiplier_list_end_cnt == old(arise).multiplier_list_end_cnt + (if line_has(
            line@,
            marker_literal(Marker::MultiplierListEnd),
        ) {
            1int
        } else {
            0int
        }),
        final(arise).offset_variables_begin_cnt == old(arise).offset_variables_begin_cnt + (
        if line_has(line@, marker_literal(Marker::OffsetVariablesBegin)) {
            1int
        } else {
            0int
        }),
        final(arise).offset_variables_end_cnt == old(arise).offset_variables_end_cnt + (
        if line_has(line@, marker_literal(Marker::OffsetVariablesEnd)) {
            1int
        } else {
            0int
        }),
        final(arise).section_header_begin_cnt == old(arise).section_header_begin_cnt + (
        if line_has(line@, marker_literal(Marker::SectionHeaderBegin)) {
            1int
        } else {
            0int
        }),
        final(arise).section_header_end_cnt == old(arise).section_header_end_cnt + (if line_has(
            line@,
            marker_literal(Marker::SectionHeaderEnd),
        ) {
            1int
        } else {
            0int
        }),
        final(arise).section_measures_begin_cnt == old(arise).section_measures_begin_cnt + (
        if line_has(line@, marker_literal(Marker::SectionMeasuresBegin)) {
            1int
        } else {
            0int
        }),
        final(arise).section_measures_end_cnt == old(arise).section_measures_end_cnt + (
        if line_has(line@, marker_literal(Marker::SectionMeasuresEnd)) {
            1int
        } else {
            0int
        }),
        final(arise).section_meters_begin_cnt == old(arise).section_meters_begin_cnt + (
        if line_has(line@, marker_literal(Marker::SectionMetersBegin)) {
            1int
        } else {
            0int
        }),
        final(arise).section_meters_end_cnt == old(arise).section_meters_end_cnt + (if line_has(
            line@,
            marker_literal(Marker::SectionMetersEnd),
        ) {
            1int
        } else {
            0int
        }),
        final(arise).section_footer_begin_cnt == old(arise).section_footer_begin_cnt + (
        if line_has(line@, marker_literal(Marker::SectionFooterBegin)) {
            1int
        } else {
            0int
        }),
        final(arise).section_footer_end_cnt == old(arise).section_footer_end_cnt + (if line_has(
            line@,
            marker_literal(Marker::SectionFooterEnd),
        ) {
            1int
        } else {
            0int
        }),
        final(arise).arise_in == old(arise).arise_in,
        final(arise).skin_out == old(arise).skin_out,
{
    let hit: bool = line_contains(line, marker_text(Marker::CommentSingleline));
    arise.comment_singleline_cnt = arise.comment_singleline_cnt + (if hit { 1 } else { 0 });
    let hit: bool = line_contains(line, marker_text(Marker::CommentMultilineBegin));
    arise.comment_multiline_begin_cnt = arise.comment_multiline_begin_cnt + (if hit { 1 } else { 0 });
    let hit: bool = line_contains(line, marker_text(Marker::CommentMultilineEnd));
    arise.comment_multiline_end_cnt = arise.comment_multiline_end_cnt + (if hit { 1 } else { 0 });
    let hit: bool = line_contains(line, marker_text(Marker::OperatorAssign));
    arise.operator_assign_cnt = arise.operator_assign_cnt + (if hit { 1 } else { 0 });
    let hit: bool = line_contains(line, marker_text(Marker::OperatorPlus));
    arise.operator_plus_cnt = arise.operator_plus_cnt + (if hit { 1 } else { 0 });
    let hit: bool = line_contains(line, marker_text(Marker::OperatorMinus));
    arise.operator_minus_cnt = arise.operator_minus_cnt + (if hit { 1 } else { 0 });
    let hit: bool = line_contains(line, marker_text(Marker::KeyNameBegin));
    arise.key_name_begin_cnt = arise.key_name_begin_cnt + (if hit { 1 } else { 0 });
    let hit: bool = line_contains(line, marker_text(Marker::KeyNameEnd));
    arise.key_name_end_cnt = arise.key_name_end_cnt + (if hit { 1 } else { 0 });
    let hit: bool = line_contains(line, marker_text(Marker::MultiplierListBegin));
    arise.multiplier_list_begin_cnt = arise.multiplier_list_begin_cnt + (if hit { 1 } else { 0 });
    let hit: bool = line_contains(line, marker_text(Marker::MultiplierListEnd));
    arise.multiplier_list_end_cnt = arise.multiplier_list_end_cnt + (if hit { 1 } else { 0 });
    let hit: bool = line_contains(line, marker_text(Marker::OffsetVariablesBegin));
    arise.offset_variables_begin_cnt = arise.offset_variables_begin_cnt + (if hit { 1 } else { 0 });
    let hit: bool = line_contains(line, marker_text(Marker::OffsetVariablesEnd));
    arise.offset_variables_end_cnt = arise.offset_variables_end_cnt + (if hit { 1 } else { 0 });
    let hit: bool = line_contains(line, marker_text(Marker::SectionHeaderBegin));
    arise.section_header_begin_cnt = arise.section_header_begin_cnt + (if hit { 1 } else { 0 });
    let hit: bool = line_contains(line, marker_text(Marker::SectionHeaderEnd));
    arise.section_header_end_cnt = arise.section_header_end_cnt + (if hit { 1 } else { 0 });
    let hit: bool = line_contains(line, marker_text(Marker::SectionMeasuresBegin));
    arise.section_measures_begin_cnt = arise.section_measures_begin_cnt + (if hit { 1 } else { 0 });
    let hit: bool = line_contains(line, marker_text(Marker::SectionMeasuresEnd));
    arise.section_measures_end_cnt = arise.section_measures_end_cnt + (if hit { 1 } else { 0 });
    let hit: bool = line_contains(line, marker_text(Marker::SectionMetersBegin));
    arise.section_meters_begin_cnt = arise.section_meters_begin_cnt + (if hit { 1 } else { 0 });
    let hit: bool = line_contains(line, marker_text(Marker::SectionMetersEnd));
    arise.section_meters_end_cnt = arise.section_meters_end_cnt + (if hit { 1 } else { 0 });
    let hit: bool = line_contains(line, marker_text(Marker::SectionFooterBegin));
    arise.section_footer_begin_cnt = arise.section_footer_begin_cnt + (if hit { 1 } else { 0 });
    let hit: bool = line_contains(line, marker_text(Marker::SectionFooterEnd));
    arise.section_footer_end_cnt = arise.section_footer_end_cnt + (if hit { 1 } else { 0 });
}

/// Performs the metainfo step: scans the whole input line by line, raising
/// each marker's counter at most once per line, then emits the metainfo
/// block.  A scan must start from a zeroed accumulator.
pub fn build_metainfo(arise_p: AriseBucket) -> (r: Result<AriseBucket, AriseError>)
    requires
        arise_p.counters_zero(),
    ensures
        r is Ok,
        r->Ok_0.counts_are(lines_of(arise_p.arise_in@)),
        r->Ok_0.arise_in@ == arise_p.arise_in@,
        r->Ok_0.skin_out@ == metainfo_text(),
{
    let ghost input = arise_p.arise_in@;
    let mut arise = arise_p;
    let text = chars_of(arise.arise_in.as_str());
    let lines = split_lines(&text);
    let ghost ls = line_views(lines@);
    proof {
        assert(ls.take(0) =~= Seq::<Seq<char>>::empty());
    }
    let n: usize = lines.len();
    let mut i: usize = 0;
    while i < n
        invariant
            n == lines@.len(),
            0 <= i <= n,
            ls == line_views(lines@),
            arise.counts_are(ls.take(i as int)),
            arise.arise_in@ == input,
        decreases n - i,
    {
        let line = &lines[i];
        proof {
            lemma_count_take_step(ls, i as int);
            assert(ls[i as int] == lines@[i as int]@);
        }
        scan_line(&mut arise, line);
        proof {
            assert(arise.counts_are(ls.take(i as int + 1)));
        }
        i += 1;
    }
    proof {
        assert(ls.take(n as int) =~= ls);
    }
    arise.skin_out = metainfo_string();
    Ok(arise)
}

/// Appends the fixed skin header block, separated from the previous output
/// by one newline.  Counters and remaining input are untouched.
pub fn build_skin_header(arise_p: AriseBucket) -> (r: Result<AriseBucket, AriseError>)
    ensures
        r is Ok,
        r->Ok_0.same_counts_and_input(arise_p),
        r->Ok_0.skin_out@ == arise_p.skin_out@ + "\n"@ + header_text(),
{
    let mut arise = arise_p;
    let block = header_string();
    arise.skin_out.append("\n");
    arise.skin_out.append(block.as_str());
    Ok(arise)
}

/// Appends the fixed skin body block, separated from the previous output by
/// one newline.  Counters and remaining input are untouched.
pub fn build_skin_body(arise_p: AriseBucket) -> (r: Result<AriseBucket, AriseError>)
    ensures
        r is Ok,
        r->Ok_0.same_counts_and_input(arise_p),
        r->Ok_0.skin_out@ == arise_p.skin_out@ + "\n"@ + body_text(),
{
    let mut arise = arise_p;
    let block = body_string();
    arise.skin_out.append("\n");
    arise.skin_out.append(block.as_str());
    Ok(arise)
}

/// Appends the fixed skin footer block, separated from the previous output
/// by one newline.  Counters and remaining input are untouched.
pub fn build_skin_footer(arise_p: AriseBucket) -> (r: Result<AriseBucket, AriseError>)
    ensures
        r is Ok,
        r->Ok_0.same_counts_and_input(arise_p),
        r->Ok_0.skin_out@ == arise_p.skin_out@ + "\n"@ + footer_text(),
{
    let mut arise = arise_p;
    let block = footer_string();
    arise.skin_out.append("\n");
    arise.skin_out.append(block.as_str());
    Ok(arise)
}

/// The accumulator state after a full generation run over `input`: every
/// counter holds its marker's line count, the input buffer still holds the
/// source text, and the output buffer holds the whole generated skin text.
pub open spec fn evolved(b: AriseBucket, input: Seq<char>) -> bool {
    &&& b.counts_are(lines_of(input))
    &&& b.arise_in@ == input
    &&& b.skin_out@ == skin_text()
}

/// Runs the four build steps in their fixed order over the given source
/// text: metainfo (which scans), header, body, footer.  The finished
/// accumulator's `skin_out` buffer holds the text to write out.
pub fn evolve_skin(arise_in: String) -> (r: Result<AriseBucket, AriseError>)
    ensures
        r is Ok,
        evolved(r->Ok_0, arise_in@),
{
    let mut arise = AriseBucket::new();
    arise.arise_in = arise_in;
    let arise = match build_metainfo(arise) {
        Ok(a) => a,
        Err(e) => {
            return Err(e);
        },
    };
    let arise = match build_skin_header(arise) {
        Ok(a) => a,
        Err(e) => {
            return Err(e);
        },
    };
    let arise = match build_skin_body(arise) {
        Ok(a) => a,
        Err(e) => {
            return Err(e);
        },
    };
    let arise = match build_skin_footer(arise) {
        Ok(a) => a,
        Err(e) => {
            return Err(e);
        },
    };
    Ok(arise)
}

/// The pipeline is deterministic: two runs over the same input leave
/// identical counters and byte-identical output text.
pub proof fn lemma_pipeline_deterministic(b1: AriseBucket, b2: AriseBucket, input: Seq<char>)
    requires
        evolved(b1, input),
        evolved(b2, input),
    ensures
        b1.skin_out@ == b2.skin_out@,
        forall|m: Marker| #[trigger] b1.count_of(m) == b2.count_of(m),
{
    lemma_scan_deterministic(b1, b2, input);
}

/// Whatever the input held, the output text opens with the metainfo line
/// and then the skin header banner, in that fixed order.
pub proof fn lemma_output_opens_with_metainfo_then_banner()
    ensures
        skin_text().take(metainfo_text().len() as int) == metainfo_text(),
        skin_text()[metainfo_text().len() as int] == '\n',
        skin_text().subrange(
            metainfo_text().len() as int + 1,
            metainfo_text().len() as int + 1 + header_banner().len(),
        ) == header_banner(),
{
    reveal_strlit("\n");
    assert(skin_text().take(metainfo_text().len() as int) =~= metainfo_text());
    assert(skin_text()[metainfo_text().len() as int] == '\n');
    assert(skin_text().subrange(
        metainfo_text().len() as int + 1,
        metainfo_text().len() as int + 1 + header_banner().len(),
    ) =~= header_banner());
}

} // verus!
