//! Source-kind detection, captured outputs, and the outcome classifier.

use vstd::prelude::*;
use crate::archive::StorageCategory;
use crate::text::{chars_of, compare, normalize, normalized};

verus! {

/// Legacy dialect of a source program, told by its file extension.
#[derive(PartialEq, Eq, Structural, Clone, Copy, Debug)]
pub enum SourceKind {
    /// `.cbl` or `.cob`: has a fixture-execution contract, so it is validated.
    Cobol,
    /// Anything else: translated and built, never compared.
    Assembler,
}

pub open spec fn ends_with(s: Seq<char>, suffix: Seq<char>) -> bool {
    s.len() >= suffix.len() && s.subrange(s.len() - suffix.len(), s.len() as int) == suffix
}

pub open spec fn kind_of_key(key: Seq<char>) -> SourceKind {
    if ends_with(key, seq!['.', 'c', 'b', 'l']) || ends_with(key, seq!['.', 'c', 'o', 'b']) {
        SourceKind::Cobol
    } else {
        SourceKind::Assembler
    }
}

fn ends_with_ext(cs: &Vec<char>, a: char, b: char, c: char) -> (r: bool)
    ensures
        r == ends_with(cs@, seq!['.', a, b, c]),
{
    let n = cs.len();
    if n < 4 {
        false
    } else {
        let r = cs[n - 4] == '.' && cs[n - 3] == a && cs[n - 2] == b && cs[n - 1] == c;
        assert(r == (cs@.subrange(n - 4, n as int) =~= seq!['.', a, b, c]));
        r
    }
}

/// Tells the dialect of a source object from its key.
pub fn detect_source_kind(key: &str) -> (r: SourceKind)
    ensures
        r == kind_of_key(key@),
{
    let cs = chars_of(key);
    if ends_with_ext(&cs, 'c', 'b', 'l') || ends_with_ext(&cs, 'c', 'o', 'b') {
        SourceKind::Cobol
    } else {
        SourceKind::Assembler
    }
}

impl SourceKind {
    /// Whether outputs of this dialect are compared against the candidate.
    pub fn requires_validation(&self) -> (r: bool)
        ensures
            r == (*self == SourceKind::Cobol),
    {
        match self {
            SourceKind::Cobol => true,
            SourceKind::Assembler => false,
        }
    }

    pub open spec fn language_view(&self) -> Seq<char> {
        match *self {
            SourceKind::Cobol => "COBOL"@,
            SourceKind::Assembler => "Assembler"@,
        }
    }

    /// The dialect's name as the translation request gives it.
    pub fn language_name(&self) -> (r: String)
        ensures
            r@ == self.language_view(),
    {
        match self {
            SourceKind::Cobol => String::from_str("COBOL"),
            SourceKind::Assembler => String::from_str("Assembler"),
        }
    }
}

/// What a successful run left behind.
pub struct ExecutionResult {
    pub stdout: String,
    /// The fixed output file, where the program wrote one that could be read.
    pub output_artifact: Option<String>,
}

impl ExecutionResult {
    pub open spec fn captured_view(&self) -> Seq<char> {
        match self.output_artifact {
            Some(a) => a@,
            None => self.stdout@,
        }
    }

    /// The authoritative output: the output file, or standard output where
    /// there is none.
    pub fn captured(&self) -> (r: &str)
        ensures
            r@ == self.captured_view(),
    {
        match &self.output_artifact {
            Some(a) => a.as_str(),
            None => self.stdout.as_str(),
        }
    }
}

/// How far one variant (legacy or candidate) got.
pub enum VariantOutcome {
    /// The compiler refused it; its diagnostic text.
    BuildFailed(String),
    /// It built but exited with failure; its error output.
    RunFailed(String),
    Completed(ExecutionResult),
}

pub struct ComparisonOutcome {
    pub matched: bool,
    pub status_message: String,
    pub storage_category: StorageCategory,
}

pub open spec fn failure_text(label: Seq<char>, o: VariantOutcome) -> Seq<char> {
    match o {
        VariantOutcome::BuildFailed(d) => label + " compilation failed: "@ + d@,
        VariantOutcome::RunFailed(e) => label + " execution failed: "@ + e@,
        VariantOutcome::Completed(_) => Seq::empty(),
    }
}

/// Status text of a validated task where at least one variant failed: the
/// failure of each one that failed, the COBOL program first, joined by `"; "`.
pub open spec fn failures_text(legacy: VariantOutcome, candidate: VariantOutcome) -> Seq<char> {
    let l = failure_text("COBOL"@, legacy);
    let c = failure_text("Rust"@, candidate);
    if l.len() == 0 {
        c
    } else if c.len() == 0 {
        l
    } else {
        l + "; "@ + c
    }
}

pub open spec fn mismatch_text(legacy: Seq<char>, candidate: Seq<char>) -> Seq<char> {
    "Output mismatch. COBOL: '"@ + normalized(legacy) + "', Rust: '"@ + normalized(candidate)
        + "'"@
}

pub open spec fn is_completed(o: VariantOutcome) -> bool {
    o is Completed
}

/// The outcome of a task whose dialect is validated.
pub open spec fn validated_outcome(legacy: VariantOutcome, candidate: VariantOutcome) -> (
    bool,
    Seq<char>,
    StorageCategory,
) {
    match (legacy, candidate) {
        (VariantOutcome::Completed(l), VariantOutcome::Completed(c)) => {
            if normalized(l.captured_view()) == normalized(c.captured_view()) {
                (true, "SUCCESS - Outputs match!"@, StorageCategory::Validated)
            } else {
                (
                    false,
                    mismatch_text(l.captured_view(), c.captured_view()),
                    StorageCategory::NeedsReview,
                )
            }
        },
        _ => (false, failures_text(legacy, candidate), StorageCategory::Failed),
    }
}

/// The outcome of a task whose dialect is not validated: the candidate's
/// build is reported, nothing is compared.
pub open spec fn unvalidated_outcome(build_ok: bool, diagnostic: Seq<char>) -> (
    bool,
    Seq<char>,
    StorageCategory,
) {
    if build_ok {
        (
            false,
            "Rust compiles successfully. Assembler validation requires mainframe access."@,
            StorageCategory::Unvalidated,
        )
    } else {
        (false, "Rust compilation failed: "@ + diagnostic, StorageCategory::Unvalidated)
    }
}

impl ComparisonOutcome {
    pub open spec fn view_triple(&self) -> (bool, Seq<char>, StorageCategory) {
        (self.matched, self.status_message@, self.storage_category)
    }
}

fn push_failure(out: &mut String, label: &str, o: &VariantOutcome)
    ensures
        final(out)@ == old(out)@ + failure_text(label@, *o),
{
    match o {
        VariantOutcome::BuildFailed(d) => {
            out.append(label);
            out.append(" compilation failed: ");
            out.append(d.as_str());
            assert(final(out)@ =~= old(out)@ + failure_text(label@, *o));
        },
        VariantOutcome::RunFailed(e) => {
            out.append(label);
            out.append(" execution failed: ");
            out.append(e.as_str());
            assert(final(out)@ =~= old(out)@ + failure_text(label@, *o));
        },
        VariantOutcome::Completed(_) => {
            assert(final(out)@ =~= old(out)@ + failure_text(label@, *o));
        },
    }
}

/// Classifies a validated task from how far each variant got: `Validated`
/// when both ran and their outputs agree after normalisation, `NeedsReview`
/// when both ran and they differ, `Failed` when either did not run.
pub fn classify_validated(legacy: &VariantOutcome, candidate: &VariantOutcome) -> (r:
    ComparisonOutcome)
    ensures
        r.view_triple() == validated_outcome(*legacy, *candidate),
{
    match (legacy, candidate) {
        (VariantOutcome::Completed(l), VariantOutcome::Completed(c)) => {
            let lo = l.captured();
            let co = c.captured();
            if compare(lo, co) {
                ComparisonOutcome {
                    matched: true,
                    status_message: String::from_str("SUCCESS - Outputs match!"),
                    storage_category: StorageCategory::Validated,
                }
            } else {
                let mut m = String::from_str("Output mismatch. COBOL: '");
                let nl = normalize(lo);
                let nc = normalize(co);
                m.append(nl.as_str());
                m.append("', Rust: '");
                m.append(nc.as_str());
                m.append("'");
                assert(m@ =~= mismatch_text(lo@, co@));
                ComparisonOutcome {
                    matched: false,
                    status_message: m,
                    storage_category: StorageCategory::NeedsReview,
                }
            }
        },
        _ => {
            let mut m = String::new();
            push_failure(&mut m, "COBOL", legacy);
            let legacy_failed = !is_completed_exec(legacy);
            if legacy_failed && !is_completed_exec(candidate) {
                m.append("; ");
            }
            push_failure(&mut m, "Rust", candidate);
            proof {
                reveal_strlit("COBOL");
                reveal_strlit("Rust");
            }
            assert(m@ =~= failures_text(*legacy, *candidate));
            ComparisonOutcome {
                matched: false,
                status_message: m,
                storage_category: StorageCategory::Failed,
            }
        },
    }
}

fn is_completed_exec(o: &VariantOutcome) -> (r: bool)
    ensures
        r == is_completed(*o),
{
    match o {
        VariantOutcome::Completed(_) => true,
        _ => false,
    }
}

/// Classifies a task whose dialect has no fixture-execution contract:
/// `Unvalidated`, never matched, with the candidate's build reported.
pub fn classify_unvalidated(build_ok: bool, diagnostic: &str) -> (r: ComparisonOutcome)
    ensures
        r.view_triple() == unvalidated_outcome(build_ok, diagnostic@),
{
    if build_ok {
        ComparisonOutcome {
            matched: false,
            status_message: String::from_str(
                "Rust compiles successfully. Assembler validation requires mainframe access.",
            ),
            storage_category: StorageCategory::Unvalidated,
        }
    } else {
        let mut m = String::from_str("Rust compilation failed: ");
        m.append(diagnostic);
        ComparisonOutcome {
            matched: false,
            status_message: m,
            storage_category: StorageCategory::Unvalidated,
        }
    }
}

} // verus!
