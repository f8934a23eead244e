//! Per-release analysis output: language-keyed line statistics and the
//! naming of the report file each analyzed unit is written to.

use vstd::prelude::*;
use vstd::string::StringExecFns;

verus! {

/// Aggregate line counts of one source kind.
#[derive(Debug, Default)]
pub struct Stats {
    /// Blank lines.
    pub blanks: u64,
    /// Lines of code.
    pub code: u64,
    /// Comment lines.
    pub comments: u64,
}

/// The line counts of one analyzed file.
#[derive(Debug, Default)]
pub struct Report {
    /// The file the counts belong to.
    pub name: String,
    /// Its line counts.
    pub stats: Stats,
}

/// The aggregate counts of one language, with the per-file reports they
/// were summed from.
#[derive(Debug, Default)]
pub struct LanguageStats {
    /// Blank lines across the language's files.
    pub blanks: u64,
    /// Lines of code across the language's files.
    pub code: u64,
    /// Comment lines across the language's files.
    pub comments: u64,
    /// The per-file reports.
    pub reports: Vec<Report>,
}

impl LanguageStats {
    /// Fold another aggregate into this one: counts are summed and the
    /// per-file reports concatenated.
    pub fn merge(&mut self, other: LanguageStats)
        requires
            old(self).blanks + other.blanks <= u64::MAX,
            old(self).code + other.code <= u64::MAX,
            old(self).comments + other.comments <= u64::MAX,
        ensures
            final(self).blanks == old(self).blanks + other.blanks,
            final(self).code == old(self).code + other.code,
            final(self).comments == old(self).comments + other.comments,
            final(self).reports@ == old(self).reports@ + other.reports@,
    {
        let mut other = other;
        self.blanks = self.blanks + other.blanks;
        self.code = self.code + other.code;
        self.comments = self.comments + other.comments;
        self.reports.append(&mut other.reports);
    }
}

/// The output of analyzing a single kernel.
#[derive(Debug)]
pub struct Output {
    /// The tag that we build for.
    pub tag: String,
    /// Statistics for all languages, keyed by language name.
    pub all: Vec<(String, LanguageStats)>,
}

impl Output {
    /// Construct a new kernel output.
    pub fn new(tag: String) -> (o: Output)
        ensures
            o.tag == tag,
            o.all@ == Seq::<(String, LanguageStats)>::empty(),
    {
        Output { tag, all: Vec::new() }
    }
}

/// The name of the compressed report written for the unit labeled
/// `label`: `linux-{label}.json.gz`. A run finding this file in place
/// skips the unit, so acquisition stays safely re-runnable.
pub fn stats_file_name(label: &str) -> (r: String)
    ensures
        r@ == "linux-"@ + label@ + ".json.gz"@,
{
    let mut r = String::from_str("linux-");
    r.append(label);
    r.append(".json.gz");
    r
}

} // verus!
