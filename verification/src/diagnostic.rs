//! Failure values of the pipeline and their two renderings: the structured
//! form handed to callers, and the single message of the throwing API.

use vstd::prelude::*;

verus! {

/// What stage of the pipeline failed.
#[derive(Debug, Clone, Copy, PartialEq, Eq, Structural)]
pub enum DiagnosticKind {
    Parse,
    Validation,
    Backend,
    Usage,
}

/// The name of a diagnostic kind, as callers see it.
pub open spec fn kind_name(kind: DiagnosticKind) -> Seq<char> {
    match kind {
        DiagnosticKind::Parse => "parse"@,
        DiagnosticKind::Validation => "validation"@,
        DiagnosticKind::Backend => "backend"@,
        DiagnosticKind::Usage => "usage"@,
    }
}

impl DiagnosticKind {
    /// The name of this kind: `"parse"`, `"validation"`, `"backend"` or `"usage"`.
    pub fn name(&self) -> (r: &'static str)
        ensures
            r@ == kind_name(*self),
    {
        match self {
            DiagnosticKind::Parse => "parse",
            DiagnosticKind::Validation => "validation",
            DiagnosticKind::Backend => "backend",
            DiagnosticKind::Usage => "usage",
        }
    }
}

/// A source location attached to a diagnostic, before it leaves the library.
#[derive(Debug)]
pub struct Label {
    /// 1-based line number.
    pub line: u32,
    /// 1-based column, in bytes, of the start of the span.
    pub column: u32,
    /// Length of the span in bytes.
    pub length: u32,
    /// What this location refers to.
    pub message: String,
}

/// One source location attached to a diagnostic, as callers see it.
#[derive(Debug)]
pub struct NagaLabel {
    /// 1-based line number.
    pub line: u32,
    /// 1-based column (bytes) of the start of the span.
    pub column: u32,
    /// Length (bytes) of the span.
    pub length: u32,
    /// What this location refers to.
    pub message: String,
}

/// Machine-readable diagnostic. `message` is the human-oriented rendering,
/// identical to the body of the message of the throwing API; `labels` is
/// the machine interface for editors and tooling.
#[derive(Debug)]
pub struct NagaDiagnostic {
    /// Error class: `"parse"`, `"validation"`, `"backend"` or `"usage"`.
    pub kind: String,
    /// Human-readable rendering of the error.
    pub message: String,
    /// Source locations involved; empty when the error carries no spans.
    pub labels: Vec<NagaLabel>,
    /// Extra context lines from the frontend, if any.
    pub notes: Vec<String>,
}

/// Internal failure value. `message` is the human-oriented rendering, which
/// the throwing API raises as it is, while the detailed API also exposes
/// `labels` and `notes` as data.
#[derive(Debug)]
pub struct Diagnostic {
    pub kind: DiagnosticKind,
    /// Display name of the failed stage, e.g. `"WGSL"`, `"HLSL"`.
    /// Empty for kinds without a stage (validation, usage).
    pub form: &'static str,
    pub message: String,
    pub labels: Vec<Label>,
    pub notes: Vec<String>,
}

/// A diagnostic as plain values: kind, form, message, labels (each as line,
/// column, length and description) and notes.
pub struct DiagView {
    pub kind: DiagnosticKind,
    pub form: Seq<char>,
    pub message: Seq<char>,
    pub labels: Seq<(int, int, int, Seq<char>)>,
    pub notes: Seq<Seq<char>>,
}

/// A label as plain values.
pub open spec fn label_view(l: Label) -> (int, int, int, Seq<char>) {
    (l.line as int, l.column as int, l.length as int, l.message@)
}

/// Labels as plain values.
pub open spec fn labels_view(labels: Seq<Label>) -> Seq<(int, int, int, Seq<char>)> {
    labels.map_values(|l: Label| label_view(l))
}

/// Strings as plain values.
pub open spec fn strings_view(s: Seq<String>) -> Seq<Seq<char>> {
    s.map_values(|t: String| t@)
}

/// A diagnostic as plain values.
pub open spec fn diag_view(d: Diagnostic) -> DiagView {
    DiagView {
        kind: d.kind,
        form: d.form@,
        message: d.message@,
        labels: labels_view(d.labels@),
        notes: strings_view(d.notes@),
    }
}

/// A diagnostic of `kind` and `form` with the message `msg` and no labels or notes.
pub open spec fn plain_view(kind: DiagnosticKind, form: Seq<char>, msg: Seq<char>) -> DiagView {
    DiagView { kind, form, message: msg, labels: Seq::empty(), notes: Seq::empty() }
}

/// The usage error with the message `msg`.
pub open spec fn usage_view(msg: Seq<char>) -> DiagView {
    plain_view(DiagnosticKind::Usage, ""@, msg)
}

/// `d` is a usage error whose message is `msg`, with no labels or notes.
pub open spec fn is_usage_error(d: Diagnostic, msg: Seq<char>) -> bool {
    diag_view(d) == usage_view(msg)
}

/// `d` is a parse error of `form` whose message is `msg`, with no labels or notes.
pub open spec fn is_plain_parse_error(d: Diagnostic, form: Seq<char>, msg: Seq<char>) -> bool {
    diag_view(d) == plain_view(DiagnosticKind::Parse, form, msg)
}

/// A diagnostic as callers of the detailed API see it, as plain values.
pub struct NagaView {
    pub kind: Seq<char>,
    pub message: Seq<char>,
    pub labels: Seq<(int, int, int, Seq<char>)>,
    pub notes: Seq<Seq<char>>,
}

/// A label handed to callers, as plain values.
pub open spec fn naga_label_view(l: NagaLabel) -> (int, int, int, Seq<char>) {
    (l.line as int, l.column as int, l.length as int, l.message@)
}

/// A diagnostic handed to callers, as plain values.
pub open spec fn naga_view(n: NagaDiagnostic) -> NagaView {
    NagaView {
        kind: n.kind@,
        message: n.message@,
        labels: n.labels@.map_values(|l: NagaLabel| naga_label_view(l)),
        notes: strings_view(n.notes@),
    }
}

/// What the detailed API hands callers for a diagnostic.
pub open spec fn exported_view(d: DiagView) -> NagaView {
    NagaView { kind: kind_name(d.kind), message: d.message, labels: d.labels, notes: d.notes }
}

/// What the throwing API raises for a diagnostic: its message, identical to
/// the message that the detailed API hands callers.
pub open spec fn thrown_view(d: DiagView) -> Seq<char> {
    d.message
}

/// The message of the error that the throwing API raises for `d`.
pub open spec fn thrown_text(d: Diagnostic) -> Seq<char> {
    d.message@
}

/// `n` is `d` handed to callers: the same kind (by name), message, labels and notes.
pub open spec fn exported(d: Diagnostic, n: NagaDiagnostic) -> bool {
    &&& n.kind@ == kind_name(d.kind)
    &&& n.message@ == d.message@
    &&& n.labels@.len() == d.labels@.len()
    &&& forall|i: int|
        0 <= i < d.labels@.len() ==> {
            &&& #[trigger] n.labels@[i].line == d.labels@[i].line
            &&& n.labels@[i].column == d.labels@[i].column
            &&& n.labels@[i].length == d.labels@[i].length
            &&& n.labels@[i].message@ == d.labels@[i].message@
        }
    &&& n.notes@ == d.notes@
}

impl Diagnostic {
    /// A parse error of `form` with the given message and no labels or notes.
    pub fn parse(form: &'static str, message: String) -> (d: Diagnostic)
        ensures
            is_plain_parse_error(d, form@, message@),
    {
        let d = Diagnostic {
            kind: DiagnosticKind::Parse,
            form,
            message,
            labels: Vec::new(),
            notes: Vec::new(),
        };
        assert(diag_view(d).labels =~= Seq::<(int, int, int, Seq<char>)>::empty());
        assert(diag_view(d).notes =~= Seq::<Seq<char>>::empty());
        d
    }

    /// A usage error (bad option value) with the given message.
    pub fn usage(message: String) -> (d: Diagnostic)
        ensures
            is_usage_error(d, message@),
    {
        let d = Diagnostic {
            kind: DiagnosticKind::Usage,
            form: "",
            message,
            labels: Vec::new(),
            notes: Vec::new(),
        };
        assert(diag_view(d).labels =~= Seq::<(int, int, int, Seq<char>)>::empty());
        assert(diag_view(d).notes =~= Seq::<Seq<char>>::empty());
        d
    }

    /// The structured form handed to callers of the detailed API.
    pub fn into_napi(self) -> (n: NagaDiagnostic)
        ensures
            exported(self, n),
            naga_view(n) == exported_view(diag_view(self)),
    {
        let mut labels: Vec<NagaLabel> = Vec::new();
        let count = self.labels.len();
        let mut i: usize = 0;
        while i < count
            invariant
                count == self.labels@.len(),
                i <= count,
                labels@.len() == i,
                forall|j: int|
                    0 <= j < i ==> {
                        &&& #[trigger] labels@[j].line == self.labels@[j].line
                        &&& labels@[j].column == self.labels@[j].column
                        &&& labels@[j].length == self.labels@[j].length
                        &&& labels@[j].message@ == self.labels@[j].message@
                    },
            decreases count - i,
        {
            let label = &self.labels[i];
            let message = label.message.clone();
            assert(message@ == self.labels@[i as int].message@);
            labels.push(
                NagaLabel { line: label.line, column: label.column, length: label.length, message },
            );
            i = i + 1;
        }
        let n = NagaDiagnostic {
            kind: String::from_str(self.kind.name()),
            message: self.message,
            labels,
            notes: self.notes,
        };
        assert forall|j: int| 0 <= j < n.labels@.len() implies #[trigger] naga_view(n).labels[j]
            == diag_view(self).labels[j] by {
            assert(n.labels@[j].line == self.labels@[j].line);
        }
        assert(naga_view(n).labels =~= diag_view(self).labels);
        assert(naga_view(n).kind == kind_name(self.kind));
        assert(naga_view(n).message == diag_view(self).message);
        assert(naga_view(n).notes == diag_view(self).notes);
        n
    }

    /// The message of the error that the throwing API raises: the message of
    /// the diagnostic, identical to the one the detailed API hands callers.
    pub fn thrown_message(&self) -> (s: String)
        ensures
            s@ == thrown_text(*self),
            s@ == thrown_view(diag_view(*self)),
    {
        self.message.clone()
    }
}

} // verus!
