//! The fixed catalogue of marker substrings the line scanner recognizes.

use vstd::prelude::*;

verus! {

/// One of the twenty fixed literal substrings that the scanner searches for
/// in each line of generator-definition input: comment delimiters, operators,
/// key-name delimiters, multiplier-list delimiters, offset-variable
/// delimiters and the four begin/end section delimiter pairs.
#[derive(Clone, Copy, PartialEq, Eq, Structural, Debug)]
pub enum Marker {
    CommentSingleline,
    CommentMultilineBegin,
    CommentMultilineEnd,
    OperatorAssign,
    OperatorPlus,
    OperatorMinus,
    KeyNameBegin,
    KeyNameEnd,
    MultiplierListBegin,
    MultiplierListEnd,
    OffsetVariablesBegin,
    OffsetVariablesEnd,
    SectionHeaderBegin,
    SectionHeaderEnd,
    SectionMeasuresBegin,
    SectionMeasuresEnd,
    SectionMetersBegin,
    SectionMetersEnd,
    SectionFooterBegin,
    SectionFooterEnd,
}

/// The literal substring a marker stands for, as a sequence of characters.
/// The catalogue is immutable: this mapping is the single definition shared
/// by the scanner and by every contract that speaks of marker counts.
pub open spec fn marker_literal(m: Marker) -> Seq<char> {
    match m {
        Marker::CommentSingleline => ";"@,
        Marker::CommentMultilineBegin => "/*"@,
        Marker::CommentMultilineEnd => "*/"@,
        Marker::OperatorAssign => ":="@,
        Marker::OperatorPlus => "+"@,
        Marker::OperatorMinus => "-"@,
        Marker::KeyNameBegin => "<:"@,
        Marker::KeyNameEnd => ":>"@,
        Marker::MultiplierListBegin => "<multiplier list begin>"@,
        Marker::MultiplierListEnd => "<multiplier list end>"@,
        Marker::OffsetVariablesBegin => "<offset variables begin>"@,
        Marker::OffsetVariablesEnd => "<offset variables end>"@,
        Marker::SectionHeaderBegin => "<header begin>"@,
        Marker::SectionHeaderEnd => "<header end>"@,
        Marker::SectionMeasuresBegin => "<measures begin>"@,
        Marker::SectionMeasuresEnd => "<measures end>"@,
        Marker::SectionMetersBegin => "<meters begin>"@,
        Marker::SectionMetersEnd => "<meters end>"@,
        Marker::SectionFooterBegin => "<footer begin>"@,
        Marker::SectionFooterEnd => "<footer end>"@,
    }
}

/// The same literal substring, as an executable string slice.
pub fn marker_text(m: Marker) -> (s: &'static str)
    ensures
        s@ == marker_literal(m),
{
    match m {
        Marker::CommentSingleline => ";",
        Marker::CommentMultilineBegin => "/*",
        Marker::CommentMultilineEnd => "*/",
        Marker::OperatorAssign => ":=",
        Marker::OperatorPlus => "+",
        Marker::OperatorMinus => "-",
        Marker::KeyNameBegin => "<:",
        Marker::KeyNameEnd => ":>",
        Marker::MultiplierListBegin => "<multiplier list begin>",
        Marker::MultiplierListEnd => "<multiplier list end>",
        Marker::OffsetVariablesBegin => "<offset variables begin>",
        Marker::OffsetVariablesEnd => "<offset variables end>",
        Marker::SectionHeaderBegin => "<header begin>",
        Marker::SectionHeaderEnd => "<header end>",
        Marker::SectionMeasuresBegin => "<measures begin>",
        Marker::SectionMeasuresEnd => "<measures end>",
        Marker::SectionMetersBegin => "<meters begin>",
        Marker::SectionMetersEnd => "<meters end>",
        Marker::SectionFooterBegin => "<footer begin>",
        Marker::SectionFooterEnd => "<footer end>",
    }
}

} // verus!
