//! The fixed table of benchmark patterns.
use vstd::prelude::*;

verus! {

/// Number of entries in the benchmark table.
pub const PATTERN_COUNT: usize = 8;

/// A named regular expression measured by the benchmark.
#[derive(Clone, Copy, Debug)]
pub struct Pattern {
    /// Short identifier printed in the report row.
    pub name: &'static str,
    /// Regular-expression source handed to the matcher.
    pub source: &'static str,
}

/// The benchmark table as (name, source) pairs, in declaration order.
pub open spec fn pattern_table() -> Seq<(Seq<char>, Seq<char>)> {
    seq![
        ("literal_alt"@, r"error|warning|fatal|critical"@),
        ("anchored"@, r"^HTTP/[12]\.[01]"@),
        ("inner_literal"@, r".*@example\.com"@),
        ("suffix"@, r".*\.(txt|log|md)"@),
        ("char_class"@, r"[\w]+"@),
        ("email"@, r"[\w.+-]+@[\w.-]+\.[\w.-]+"@),
        ("uri"@, r"[\w]+://[^/\s?#]+[^\s?#]+(?:\?[^\s#]*)?(?:#[^\s]*)?"@),
        ("ip"@, r"(?:(?:25[0-5]|2[0-4][0-9]|1[0-9][0-9]|[1-9]?[0-9])\.){3}(?:25[0-5]|2[0-4][0-9]|1[0-9][0-9]|[1-9]?[0-9])"@),
    ]
}

/// The view of a pattern: its name and its source.
pub open spec fn pattern_view(p: Pattern) -> (Seq<char>, Seq<char>) {
    (p.name@, p.source@)
}

/// The benchmark patterns, in the fixed order in which they are measured.
pub fn benchmark_patterns() -> (r: Vec<Pattern>)
    ensures
        r@.len() == PATTERN_COUNT,
        r@.len() == pattern_table().len(),
        forall|i: int| 0 <= i < r@.len() ==> #[trigger] pattern_view(r@[i]) == pattern_table()[i],
{
    let r = vec![
        Pattern { name: "literal_alt", source: r"error|warning|fatal|critical" },
        Pattern { name: "anchored", source: r"^HTTP/[12]\.[01]" },
        Pattern { name: "inner_literal", source: r".*@example\.com" },
        Pattern { name: "suffix", source: r".*\.(txt|log|md)" },
        Pattern { name: "char_class", source: r"[\w]+" },
        Pattern { name: "email", source: r"[\w.+-]+@[\w.-]+\.[\w.-]+" },
        Pattern { name: "uri", source: r"[\w]+://[^/\s?#]+[^\s?#]+(?:\?[^\s#]*)?(?:#[^\s]*)?" },
        Pattern { name: "ip", source: r"(?:(?:25[0-5]|2[0-4][0-9]|1[0-9][0-9]|[1-9]?[0-9])\.){3}(?:25[0-5]|2[0-4][0-9]|1[0-9][0-9]|[1-9]?[0-9])" },
    ];
    r
}

} // verus!
