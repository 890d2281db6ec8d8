//! From an issue to a diagnostic: a title, the source with one span marked
//! and labelled, and a suggestion beneath where the service made one.

use annotate_snippets::display_list::{DisplayList, FormatOptions};
use annotate_snippets::snippet::{Annotation, AnnotationType, Slice, Snippet, SourceAnnotation};
use vstd::prelude::*;
use vstd::string::*;
use crate::issue::{classify, severity_of, Issue, Severity};
use crate::normalize::{normalize, normalized};

verus! {

/// How diagnostics are laid out.
#[derive(Clone, Copy, Debug, PartialEq, Eq, Structural)]
pub struct RenderOptions {
    /// Leave out source lines that are far from the span.
    pub fold: bool,
    /// Colour the output with terminal escape sequences.
    pub color: bool,
}

/// Why an issue cannot be shown.
#[derive(Clone, Copy, Debug, PartialEq, Eq, Structural)]
pub enum RenderError {
    /// The span ends behind the end of the text, which has `source_len`
    /// characters.
    SpanOutOfBounds { offset: usize, length: usize, source_len: usize },
}

/// What a diagnostic holds, as plain values.
pub struct DiagnosticView {
    pub severity: Severity,
    pub title: Seq<char>,
    pub source: Seq<char>,
    /// The number given to the first line of `source`.
    pub line_start: nat,
    /// The span `[span.0, span.1)`, in characters of `source`.
    pub span: (nat, nat),
    pub label: Seq<char>,
    pub help: Option<Seq<char>>,
    pub fold: bool,
    pub color: bool,
}

/// One issue, ready to be shown. Its span always lies within its source.
pub struct Diagnostic<'a> {
    severity: Severity,
    title: String,
    source: &'a str,
    line_start: usize,
    span: (usize, usize),
    label: String,
    help: Option<String>,
    fold: bool,
    color: bool,
}

/// The text that `annotate_snippets` writes for a diagnostic: what
/// `DisplayList::from` makes of the snippet with that title, that one slice
/// with its one annotation and that footer, put through `Display`.
pub uninterp spec fn block_text(diagnostic: DiagnosticView) -> Seq<char>;

/// Whether the span of `issue` lies within a text of `source_len`
/// characters. A span may touch the end of the text.
pub open spec fn span_fits(source_len: nat, issue: Issue) -> bool {
    issue.offset + issue.length <= source_len
}

/// The error for an issue whose span does not fit.
pub open spec fn span_error(source_len: nat, issue: Issue) -> RenderError {
    RenderError::SpanOutOfBounds {
        offset: issue.offset,
        length: issue.length,
        source_len: source_len as usize,
    }
}

/// Whether the span of every issue lies within a text of `source_len`
/// characters.
pub open spec fn all_fit(source_len: nat, issues: Seq<Issue>) -> bool {
    forall|i: int| 0 <= i < issues.len() ==> span_fits(source_len, #[trigger] issues[i])
}

/// Whether issue `i` is the first whose span does not fit.
pub open spec fn first_misfit(source_len: nat, issues: Seq<Issue>, i: int) -> bool {
    &&& 0 <= i < issues.len()
    &&& !span_fits(source_len, issues[i])
    &&& forall|j: int| 0 <= j < i ==> span_fits(source_len, #[trigger] issues[j])
}

/// The title of the diagnostic: made from the short message, or from the
/// message where the service sent no short one.
pub open spec fn title_of(issue: Issue) -> Seq<char> {
    if issue.short_message@.len() == 0 {
        normalized(issue.message@)
    } else {
        normalized(issue.short_message@)
    }
}

/// The label at the span: made from the message, or the word `here` where
/// the message already serves as title.
pub open spec fn label_of(issue: Issue) -> Seq<char> {
    if issue.short_message@.len() == 0 {
        "here"@
    } else {
        normalized(issue.message@)
    }
}

/// The line that proposes `replacement`.
pub open spec fn suggestion_of(replacement: Seq<char>) -> Seq<char> {
    "try replacing the text with \""@ + replacement + "\""@
}

/// The suggestion beneath the diagnostic: the first replacement, if the
/// service proposed any.
pub open spec fn help_of(issue: Issue) -> Option<Seq<char>> {
    if issue.replacements@.len() == 0 {
        None
    } else {
        Some(suggestion_of(issue.replacements@[0]@))
    }
}

/// The diagnostic for `issue` over `source`.
pub open spec fn diagnostic_of(
    source: Seq<char>,
    issue: Issue,
    options: RenderOptions,
) -> DiagnosticView {
    DiagnosticView {
        severity: severity_of(issue.category),
        title: title_of(issue),
        source: source,
        line_start: 1,
        span: (issue.offset as nat, (issue.offset + issue.length) as nat),
        label: label_of(issue),
        help: help_of(issue),
        fold: options.fold,
        color: options.color,
    }
}

impl Default for RenderOptions {
    /// Folded and coloured.
    fn default() -> (options: Self)
        ensures
            options.fold,
            options.color,
    {
        RenderOptions { fold: true, color: true }
    }
}

impl<'a> View for Diagnostic<'a> {
    type V = DiagnosticView;

    closed spec fn view(&self) -> DiagnosticView {
        DiagnosticView {
            severity: self.severity,
            title: self.title@,
            source: self.source@,
            line_start: self.line_start as nat,
            span: (self.span.0 as nat, self.span.1 as nat),
            label: self.label@,
            help: match self.help {
                Some(text) => Some(text@),
                None => None,
            },
            fold: self.fold,
            color: self.color,
        }
    }
}

impl<'a> Diagnostic<'a> {
    #[verifier::type_invariant]
    spec fn span_in_source(self) -> bool {
        self.span.0 <= self.span.1 <= self.source@.len()
    }

    /// How serious the issue is.
    pub fn severity(&self) -> (severity: Severity)
        ensures
            severity == self@.severity,
    {
        self.severity
    }

    /// The title line, without the word that names the severity.
    pub fn title(&self) -> (title: &str)
        ensures
            title@ == self@.title,
    {
        self.title.as_str()
    }

    /// The text in which the span lies.
    pub fn source(&self) -> (source: &'a str)
        ensures
            source@ == self@.source,
    {
        self.source
    }

    /// The number given to the first line of the source.
    pub fn line_start(&self) -> (line_start: usize)
        ensures
            line_start == self@.line_start,
    {
        self.line_start
    }

    /// The label written at the span.
    pub fn label(&self) -> (label: &str)
        ensures
            label@ == self@.label,
    {
        self.label.as_str()
    }

    /// The suggestion beneath the source, if there is one.
    pub fn help(&self) -> (help: Option<&str>)
        ensures
            help is Some <==> self@.help is Some,
            help matches Some(text) ==> self@.help == Some(text@),
    {
        match &self.help {
            Some(text) => Some(text.as_str()),
            None => None,
        }
    }

    /// Whether source lines far from the span are left out.
    pub fn fold(&self) -> (fold: bool)
        ensures
            fold == self@.fold,
    {
        self.fold
    }

    /// Whether the text is coloured.
    pub fn color(&self) -> (color: bool)
        ensures
            color == self@.color,
    {
        self.color
    }

    /// The diagnostic as text: a title line, the source with the span
    /// underlined and labelled, and the suggestion beneath, if there is one.
    pub fn to_text(&self) -> (text: String)
        ensures
            text@ == block_text(self@),
    {
        proof {
            use_type_invariant(self);
        }
        format_block(self)
    }

    /// The span, as the characters `[start, end)` of the source. It always
    /// lies within the source.
    pub fn span(&self) -> (span: (usize, usize))
        ensures
            span.0 == self@.span.0,
            span.1 == self@.span.1,
            span.0 <= span.1 <= self@.source.len(),
    {
        proof {
            use_type_invariant(self);
        }
        self.span
    }
}

/// Hands a diagnostic to `annotate_snippets`: `DisplayList::from` on a
/// snippet of one slice with one annotation, then `to_string`. Believed, not
/// proved: the text depends on the diagnostic alone. The span has to lie
/// within the source, counted in characters, or the call panics.
#[verifier::external_body]
fn format_block(d: &Diagnostic<'_>) -> (text: String)
    requires
        d@.span.0 <= d@.span.1 <= d@.source.len(),
    ensures
        text@ == block_text(d@),
{
    let annotation_type = match d.severity {
        Severity::Error => AnnotationType::Error,
        Severity::Warning => AnnotationType::Warning,
    };
    let mark = SourceAnnotation { label: &d.label, annotation_type, range: d.span };
    let help = |text| Annotation { id: None, label: Some(text), annotation_type: AnnotationType::Help };
    let snippet = Snippet {
        title: Some(Annotation { id: None, label: Some(&d.title), annotation_type }),
        footer: d.help.as_deref().map(help).into_iter().collect(),
        slices: vec![Slice { source: d.source, line_start: d.line_start, origin: None, fold: d.fold, annotations: vec![mark] }],
        opt: FormatOptions { color: d.color, ..Default::default() },
    };
    DisplayList::from(snippet).to_string()
}

/// Writes the line that proposes `replacement`.
pub fn suggestion_text(replacement: &str) -> (text: String)
    ensures
        text@ == suggestion_of(replacement@),
{
    let mut text = String::from_str("try replacing the text with \"");
    text.append(replacement);
    text.append("\"");
    text
}

/// Builds the diagnostic for one issue over the text that was sent. Fails
/// exactly where the span of the issue does not lie within the text.
pub fn render<'a>(source: &'a str, issue: &Issue, options: &RenderOptions) -> (res: Result<
    Diagnostic<'a>,
    RenderError,
>)
    ensures
        res is Ok <==> span_fits(source@.len(), *issue),
        res matches Ok(diagnostic) ==> diagnostic@ == diagnostic_of(source@, *issue, *options),
        res matches Err(error) ==> error == span_error(source@.len(), *issue),
{
    let source_len: usize = source.unicode_len();
    let misfit = RenderError::SpanOutOfBounds {
        offset: issue.offset,
        length: issue.length,
        source_len,
    };
    let span_end: usize = match issue.offset.checked_add(issue.length) {
        Some(end) => end,
        None => {
            return Err(misfit);
        },
    };
    if span_end > source_len {
        return Err(misfit);
    }
    let severity = classify(issue.category);
    let (title, label) = if issue.short_message.as_str().is_empty() {
        (normalize(issue.message.as_str()), String::from_str("here"))
    } else {
        (normalize(issue.short_message.as_str()), normalize(issue.message.as_str()))
    };
    let help = if issue.replacements.len() == 0 {
        None
    } else {
        Some(suggestion_text(issue.replacements[0].as_str()))
    };
    Ok(
        Diagnostic {
            severity,
            title,
            source,
            line_start: 1,
            span: (issue.offset, span_end),
            label,
            help,
            fold: options.fold,
            color: options.color,
        },
    )
}

/// Builds the diagnostics for all issues of one response, one for each issue
/// and in the order of the response. Each depends on its own issue alone. If
/// the span of any issue does not fit, nothing is built, and the error is
/// that of the first such issue.
pub fn render_all<'a>(source: &'a str, issues: &Vec<Issue>, options: &RenderOptions) -> (res:
    Result<Vec<Diagnostic<'a>>, RenderError>)
    ensures
        res is Ok <==> all_fit(source@.len(), issues@),
        res matches Ok(diagnostics) ==> {
            &&& diagnostics@.len() == issues@.len()
            &&& forall|i: int|
                #![trigger diagnostics@[i]]
                0 <= i < issues@.len() ==> diagnostics@[i]@ == diagnostic_of(
                    source@,
                    issues@[i],
                    *options,
                )
        },
        res matches Err(error) ==> exists|i: int|
            first_misfit(source@.len(), issues@, i) && error == span_error(
                source@.len(),
                #[trigger] issues@[i],
            ),
{
    let mut diagnostics: Vec<Diagnostic<'a>> = Vec::new();
    let mut k: usize = 0;
    while k < issues.len()
        invariant
            k <= issues@.len(),
            diagnostics@.len() == k,
            forall|j: int| 0 <= j < k ==> span_fits(source@.len(), #[trigger] issues@[j]),
            forall|i: int|
                #![trigger diagnostics@[i]]
                0 <= i < k ==> diagnostics@[i]@ == diagnostic_of(source@, issues@[i], *options),
        decreases issues@.len() - k,
    {
        match render(source, &issues[k], options) {
            Ok(diagnostic) => {
                diagnostics.push(diagnostic);
            },
            Err(error) => {
                assert(first_misfit(source@.len(), issues@, k as int));
                return Err(error);
            },
        }
        k = k + 1;
    }
    Ok(diagnostics)
}

/// The whole report on one response: the text of one diagnostic for each
/// issue, in the order of the response. Fails as `render_all` does.
pub fn report(source: &str, issues: &Vec<Issue>, options: &RenderOptions) -> (res: Result<
    Vec<String>,
    RenderError,
>)
    ensures
        res is Ok <==> all_fit(source@.len(), issues@),
        res matches Ok(blocks) ==> {
            &&& blocks@.len() == issues@.len()
            &&& forall|i: int|
                #![trigger blocks@[i]]
                0 <= i < issues@.len() ==> blocks@[i]@ == block_text(
                    diagnostic_of(source@, issues@[i], *options),
                )
        },
        res matches Err(error) ==> exists|i: int|
            first_misfit(source@.len(), issues@, i) && error == span_error(
                source@.len(),
                #[trigger] issues@[i],
            ),
{
    let diagnostics = match render_all(source, issues, options) {
        Ok(diagnostics) => diagnostics,
        Err(error) => {
            return Err(error);
        },
    };
    let mut blocks: Vec<String> = Vec::new();
    let mut k: usize = 0;
    while k < diagnostics.len()
        invariant
            k <= diagnostics@.len(),
            diagnostics@.len() == issues@.len(),
            blocks@.len() == k,
            forall|i: int|
                #![trigger diagnostics@[i]]
                0 <= i < issues@.len() ==> diagnostics@[i]@ == diagnostic_of(
                    source@,
                    issues@[i],
                    *options,
                ),
            forall|i: int|
                #![trigger blocks@[i]]
                0 <= i < k ==> blocks@[i]@ == block_text(
                    diagnostic_of(source@, issues@[i], *options),
                ),
        decreases diagnostics@.len() - k,
    {
        blocks.push(diagnostics[k].to_text());
        k = k + 1;
    }
    Ok(blocks)
}

} // verus!
