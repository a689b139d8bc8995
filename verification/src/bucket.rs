//! The accumulator ("bucket") that the pipeline threads through its steps.

use vstd::prelude::*;

use crate::markers::Marker;
use crate::markers::marker_literal;
use crate::scan::count_matches;
use crate::scan::lines_of;

verus! {

/// Carries one counter per marker together with the two text buffers of a
/// generation run: `arise_in`, the source text still to be consumed, and
/// `skin_out`, the output text generated so far.  A bucket is created fresh
/// for each run and flows through the section builders in order.
#[derive(Debug, Clone)]
pub struct AriseBucket {
    pub comment_singleline_cnt: usize,
    pub comment_multiline_begin_cnt: usize,
    pub comment_multiline_end_cnt: usize,
    pub operator_assign_cnt: usize,
    pub operator_plus_cnt: usize,
    pub operator_minus_cnt: usize,
    pub key_name_begin_cnt: usize,
    pub key_name_end_cnt: usize,
    pub multiplier_list_begin_cnt: usize,
    pub multiplier_list_end_cnt: usize,
    pub offset_variables_begin_cnt: usize,
    pub offset_variables_end_cnt: usize,
    pub section_header_begin_cnt: usize,
    pub section_header_end_cnt: usize,
    pub section_measures_begin_cnt: usize,
    pub section_measures_end_cnt: usize,
    pub section_meters_begin_cnt: usize,
    pub section_meters_end_cnt: usize,
    pub section_footer_begin_cnt: usize,
    pub section_footer_end_cnt: usize,
    pub arise_in: String,
    pub skin_out: String,
}

impl AriseBucket {
    /// The counter that belongs to the marker.
    pub open spec fn count_of(self, m: Marker) -> usize {
        match m {
            Marker::CommentSingleline => self.comment_singleline_cnt,
            Marker::CommentMultilineBegin => self.comment_multiline_begin_cnt,
            Marker::CommentMultilineEnd => self.comment_multiline_end_cnt,
            Marker::OperatorAssign => self.operator_assign_cnt,
            Marker::OperatorPlus => self.operator_plus_cnt,
            Marker::OperatorMinus => self.operator_minus_cnt,
            Marker::KeyNameBegin => self.key_name_begin_cnt,
            Marker::KeyNameEnd => self.key_name_end_cnt,
            Marker::MultiplierListBegin => self.multiplier_list_begin_cnt,
            Marker::MultiplierListEnd => self.multiplier_list_end_cnt,
            Marker::OffsetVariablesBegin => self.offset_variables_begin_cnt,
            Marker::OffsetVariablesEnd => self.offset_variables_end_cnt,
            Marker::SectionHeaderBegin => self.section_header_begin_cnt,
            Marker::SectionHeaderEnd => self.section_header_end_cnt,
            Marker::SectionMeasuresBegin => self.section_measures_begin_cnt,
            Marker::SectionMeasuresEnd => self.section_measures_end_cnt,
            Marker::SectionMetersBegin => self.section_meters_begin_cnt,
            Marker::SectionMetersEnd => self.section_meters_end_cnt,
            Marker::SectionFooterBegin => self.section_footer_begin_cnt,
            Marker::SectionFooterEnd => self.section_footer_end_cnt,
        }
    }

    /// Every marker's counter holds the number of the given lines that
    /// contain that marker's literal.
    pub open spec fn counts_are(self, lines: Seq<Seq<char>>) -> bool {
        &&& self.comment_singleline_cnt == count_matches(
            lines,
            marker_literal(Marker::CommentSingleline),
        )
        &&& self.comment_multiline_begin_cnt == count_matches(
            lines,
            marker_literal(Marker::CommentMultilineBegin),
        )
        &&& self.comment_multiline_end_cnt == count_matches(
            lines,
            marker_literal(Marker::CommentMultilineEnd),
        )
        &&& self.operator_assign_cnt == count_matches(
            lines,
            marker_literal(Marker::OperatorAssign),
        )
        &&& self.operator_plus_cnt == count_matches(lines, marker_literal(Marker::OperatorPlus))
        &&& self.operator_minus_cnt == count_matches(lines, marker_literal(Marker::OperatorMinus))
        &&& self.key_name_begin_cnt == count_matches(lines, marker_literal(Marker::KeyNameBegin))
        &&& self.key_name_end_cnt == count_matches(lines, marker_literal(Marker::KeyNameEnd))
        &&& self.multiplier_list_begin_cnt == count_matches(
            lines,
            marker_literal(Marker::MultiplierListBegin),
        )
        &&& self.multiplier_list_end_cnt == count_matches(
            lines,
            marker_literal(Marker::MultiplierListEnd),
        )
        &&& self.offset_variables_begin_cnt == count_matches(
            lines,
            marker_literal(Marker::OffsetVariablesBegin),
        )
        &&& self.offset_variables_end_cnt == count_matches(
            lines,
            marker_literal(Marker::OffsetVariablesEnd),
        )
        &&& self.section_header_begin_cnt == count_matches(
            lines,
            marker_literal(Marker::SectionHeaderBegin),
        )
        &&& self.section_header_end_cnt == count_matches(
            lines,
            marker_literal(Marker::SectionHeaderEnd),
        )
        &&& self.section_measures_begin_cnt == count_matches(
            lines,
            marker_literal(Marker::SectionMeasuresBegin),
        )
        &&& self.section_measures_end_cnt == count_matches(
            lines,
            marker_literal(Marker::SectionMeasuresEnd),
        )
        &&& self.section_meters_begin_cnt == count_matches(
            lines,
            marker_literal(Marker::SectionMetersBegin),
        )
        &&& self.section_meters_end_cnt == count_matches(
            lines,
            marker_literal(Marker::SectionMetersEnd),
        )
        &&& self.section_footer_begin_cnt == count_matches(
            lines,
            marker_literal(Marker::SectionFooterBegin),
        )
        &&& self.section_footer_end_cnt == count_matches(
            lines,
            marker_literal(Marker::SectionFooterEnd),
        )
    }

    /// Every counter is zero: the state a scan must start from.
    pub open spec fn counters_zero(self) -> bool {
        &&& self.comment_singleline_cnt == 0
        &&& self.comment_multiline_begin_cnt == 0
        &&& self.comment_multiline_end_cnt == 0
        &&& self.operator_assign_cnt == 0
        &&& self.operator_plus_cnt == 0
        &&& self.operator_minus_cnt == 0
        &&& self.key_name_begin_cnt == 0
        &&& self.key_name_end_cnt == 0
        &&& self.multiplier_list_begin_cnt == 0
        &&& self.multiplier_list_end_cnt == 0
        &&& self.offset_variables_begin_cnt == 0
        &&& self.offset_variables_end_cnt == 0
        &&& self.section_header_begin_cnt == 0
        &&& self.section_header_end_cnt == 0
        &&& self.section_measures_begin_cnt == 0
        &&& self.section_measures_end_cnt == 0
        &&& self.section_meters_begin_cnt == 0
        &&& self.section_meters_end_cnt == 0
        &&& self.section_footer_begin_cnt == 0
        &&& self.section_footer_end_cnt == 0
    }

    /// The counters and the input buffer agree with `other`'s; only the
    /// output buffer may differ.  This is what a section builder that does
    /// not scan preserves.
    pub open spec fn same_counts_and_input(self, other: AriseBucket) -> bool {
        &&& self.comment_singleline_cnt == other.comment_singleline_cnt
        &&& self.comment_multiline_begin_cnt == other.comment_multiline_begin_cnt
        &&& self.comment_multiline_end_cnt == other.comment_multiline_end_cnt
        &&& self.operator_assign_cnt == other.operator_assign_cnt
        &&& self.operator_plus_cnt == other.operator_plus_cnt
        &&& self.operator_minus_cnt == other.operator_minus_cnt
        &&& self.key_name_begin_cnt == other.key_name_begin_cnt
        &&& self.key_name_end_cnt == other.key_name_end_cnt
        &&& self.multiplier_list_begin_cnt == other.multiplier_list_begin_cnt
        &&& self.multiplier_list_end_cnt == other.multiplier_list_end_cnt
        &&& self.offset_variables_begin_cnt == other.offset_variables_begin_cnt
        &&& self.offset_variables_end_cnt == other.offset_variables_end_cnt
        &&& self.section_header_begin_cnt == other.section_header_begin_cnt
        &&& self.section_header_end_cnt == other.section_header_end_cnt
        &&& self.section_measures_begin_cnt == other.section_measures_begin_cnt
        &&& self.section_measures_end_cnt == other.section_measures_end_cnt
        &&& self.section_meters_begin_cnt == other.section_meters_begin_cnt
        &&& self.section_meters_end_cnt == other.section_meters_end_cnt
        &&& self.section_footer_begin_cnt == other.section_footer_begin_cnt
        &&& self.section_footer_end_cnt == other.section_footer_end_cnt
        &&& self.arise_in@ == other.arise_in@
    }

    /// Creates a fresh accumulator: all counters zero, both buffers empty.
    pub fn new() -> (b: AriseBucket)
        ensures
            b.counters_zero(),
            b.arise_in@ == Seq::<char>::empty(),
            b.skin_out@ == Seq::<char>::empty(),
    {
        let b = AriseBucket {
            comment_singleline_cnt: 0,
            comment_multiline_begin_cnt: 0,
            comment_multiline_end_cnt: 0,
            operator_assign_cnt: 0,
            operator_plus_cnt: 0,
            operator_minus_cnt: 0,
            key_name_begin_cnt: 0,
            key_name_end_cnt: 0,
            multiplier_list_begin_cnt: 0,
            multiplier_list_end_cnt: 0,
            offset_variables_begin_cnt: 0,
            offset_variables_end_cnt: 0,
            section_header_begin_cnt: 0,
            section_header_end_cnt: 0,
            section_measures_begin_cnt: 0,
            section_measures_end_cnt: 0,
            section_meters_begin_cnt: 0,
            section_meters_end_cnt: 0,
            section_footer_begin_cnt: 0,
            section_footer_end_cnt: 0,
            arise_in: String::new(),
            skin_out: String::new(),
        };
        b
    }
}

/// Scanning is deterministic and depends only on the line-partitioned input:
/// any two accumulators whose counters were filled from the same input hold
/// identical counts, whichever run produced them.
pub proof fn lemma_scan_deterministic(b1: AriseBucket, b2: AriseBucket, input: Seq<char>)
    requires
        b1.counts_are(lines_of(input)),
        b2.counts_are(lines_of(input)),
    ensures
        forall|m: Marker| #[trigger] b1.count_of(m) == b2.count_of(m),
{
    assert forall|m: Marker| #[trigger] b1.count_of(m) == b2.count_of(m) by {
        assert(b1.count_of(m) == count_matches(lines_of(input), marker_literal(m)));
        assert(b2.count_of(m) == count_matches(lines_of(input), marker_literal(m)));
    }
}

} // verus!
