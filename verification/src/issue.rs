//! What the service reports: issues, their categories, and how severe each
//! category is.

use vstd::prelude::*;
use vstd::string::*;

verus! {

/// The kind of problem that an issue describes. The service may add kinds:
/// one that is not known here is `Other`.
#[derive(Clone, Copy, Debug, PartialEq, Eq, Structural)]
pub enum Category {
    Misspelling,
    Typographical,
    Style,
    Grammar,
    Inconsistency,
    Uncategorized,
    NonConformance,
    Other,
}

/// How serious an issue is.
#[derive(Clone, Copy, Debug, PartialEq, Eq, Structural)]
pub enum Severity {
    Error,
    Warning,
}

/// One problem that the service found in the text.
#[derive(Clone, Debug)]
pub struct Issue {
    /// Full description.
    pub message: String,
    /// Terse description; may be empty.
    pub short_message: String,
    /// Suggested fixes, best first; may be empty.
    pub replacements: Vec<String>,
    /// Where the span starts, in characters of the text.
    pub offset: usize,
    /// How many characters the span covers.
    pub length: usize,
    pub category: Category,
}

/// The severity of a category: spelling and grammar are errors, everything
/// else, known or not, is a warning.
pub open spec fn severity_of(category: Category) -> Severity {
    match category {
        Category::Misspelling | Category::Grammar => Severity::Error,
        _ => Severity::Warning,
    }
}

/// The category that the service writes as `tag`.
pub open spec fn category_of_tag(tag: Seq<char>) -> Category {
    if tag == "misspelling"@ {
        Category::Misspelling
    } else if tag == "typographical"@ {
        Category::Typographical
    } else if tag == "style"@ {
        Category::Style
    } else if tag == "grammar"@ {
        Category::Grammar
    } else if tag == "inconsistency"@ {
        Category::Inconsistency
    } else if tag == "uncategorized"@ {
        Category::Uncategorized
    } else if tag == "non-conformance"@ {
        Category::NonConformance
    } else {
        Category::Other
    }
}

/// Whether two texts hold the same characters.
pub fn same_text(a: &str, b: &str) -> (same: bool)
    ensures
        same == (a@ == b@),
{
    let n: usize = a.unicode_len();
    if b.unicode_len() != n {
        return false;
    }
    let mut i: usize = 0;
    while i < n
        invariant
            i <= n,
            n == a@.len(),
            n == b@.len(),
            forall|k: int| 0 <= k < i ==> a@[k] == b@[k],
        decreases n - i,
    {
        if a.get_char(i) != b.get_char(i) {
            return false;
        }
        i = i + 1;
    }
    assert(a@ =~= b@);
    true
}

/// Decides how severe an issue of the given category is.
pub fn classify(category: Category) -> (severity: Severity)
    ensures
        severity == severity_of(category),
{
    match category {
        Category::Misspelling | Category::Grammar => Severity::Error,
        _ => Severity::Warning,
    }
}

impl Category {
    /// Reads a category as the service writes it. A tag that is not known
    /// gives `Other`.
    pub fn from_tag(tag: &str) -> (category: Category)
        ensures
            category == category_of_tag(tag@),
    {
        if same_text(tag, "misspelling") {
            Category::Misspelling
        } else if same_text(tag, "typographical") {
            Category::Typographical
        } else if same_text(tag, "style") {
            Category::Style
        } else if same_text(tag, "grammar") {
            Category::Grammar
        } else if same_text(tag, "inconsistency") {
            Category::Inconsistency
        } else if same_text(tag, "uncategorized") {
            Category::Uncategorized
        } else if same_text(tag, "non-conformance") {
            Category::NonConformance
        } else {
            Category::Other
        }
    }
}

/// Only spelling and grammar are errors.
pub proof fn error_only_for_spelling_and_grammar(category: Category)
    ensures
        severity_of(category) == Severity::Error <==> category == Category::Misspelling
            || category == Category::Grammar,
        severity_of(category) == Severity::Warning <==> category != Category::Misspelling
            && category != Category::Grammar,
{
}

/// Whatever the service writes as category, the issue has a severity: an
/// error for the tags of spelling and grammar, a warning for every other
/// tag, known or not.
pub proof fn severity_of_any_tag(tag: Seq<char>)
    ensures
        severity_of(category_of_tag(tag)) == Severity::Error <==> tag == "misspelling"@ || tag
            == "grammar"@,
        severity_of(category_of_tag(tag)) == Severity::Warning <==> tag != "misspelling"@ && tag
            != "grammar"@,
{
    reveal_strlit("misspelling");
    reveal_strlit("typographical");
    reveal_strlit("style");
    reveal_strlit("grammar");
    assert("misspelling"@.len() == 11);
    assert("typographical"@.len() == 13);
    assert("style"@.len() == 5);
    assert("grammar"@.len() == 7);
}

} // verus!
