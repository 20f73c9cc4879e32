//! Batch planning helpers and the batch bookkeeping: the destination path
//! for each collected source, and the counts and ordered failure list that
//! one sequential worker accumulates.

use vstd::prelude::*;
use crate::pathing::file_name_of;
use crate::pathing::file_name_spec;
use crate::pathing::file_stem_of;
use crate::pathing::file_stem_spec;
use crate::pathing::join_path;
use crate::pathing::join_path_spec;
use crate::progress::find_first;
use crate::progress::find_first_char;
use crate::progress::lemma_find_first;
use crate::progress::trim_of;
use crate::progress::trim_spec;
use crate::strings::seq_views;

verus! {

/// Shared settings of one batch: the destination directory and an optional
/// destination-extension override.
pub struct BatchInput {
    pub dest_dir: String,
    pub to_ext: Option<String>,
}

/// Why a batch destination could not be derived.
#[derive(Clone, Copy, Debug, PartialEq, Eq, Structural)]
pub enum BatchError {
    NoFileName,
}

impl BatchError {
    /// Human-readable description.
    pub fn message(&self) -> (r: String)
        ensures
            r@ == "source must have a file name"@,
    {
        String::from_str("source must have a file name")
    }
}

/// Spec: the string without its leading `.` characters.
pub open spec fn drop_leading_dots(s: Seq<char>) -> Seq<char>
    decreases s.len(),
{
    if s.len() > 0 && s[0] == '.' {
        drop_leading_dots(s.drop_first())
    } else {
        s
    }
}

/// The string without its leading `.` characters.
fn trim_leading_dots<'a>(s: &'a str) -> (r: &'a str)
    ensures
        r@ == drop_leading_dots(s@),
{
    let n: usize = s.unicode_len();
    let mut i: usize = 0;
    proof {
        assert(s@.subrange(0, n as int) =~= s@);
    }
    while i < n
        invariant
            n == s@.len(),
            i <= n,
            drop_leading_dots(s@) == drop_leading_dots(s@.subrange(i as int, n as int)),
        decreases n - i,
    {
        if s.get_char(i) != '.' {
            proof {
                let w = s@.subrange(i as int, n as int);
                assert(w[0] == s@[i as int]);
            }
            return s.substring_char(i, n);
        }
        i = i + 1;
        proof {
            let prev = s@.subrange(i - 1, n as int);
            assert(prev[0] == '.');
            assert(prev.drop_first() =~= s@.subrange(i as int, n as int));
        }
    }
    proof {
        assert(s@.subrange(n as int, n as int) =~= Seq::<char>::empty());
    }
    s.substring_char(n, n)
}

/// Spec: the destination path for one batch source: the destination
/// directory joined with the source's file name, or — under an extension
/// override — with the source's stem and the override (its leading dots
/// removed). Fails when the source has no file name.
pub open spec fn dest_for_source_spec(input: BatchInput, source: Seq<char>) -> Result<
    Seq<char>,
    BatchError,
> {
    if file_name_spec(source).len() == 0 {
        Err(BatchError::NoFileName)
    } else {
        match input.to_ext {
            Some(e) => Ok(
                join_path_spec(
                    input.dest_dir@,
                    file_stem_spec(source) + seq!['.'] + drop_leading_dots(e@),
                ),
            ),
            None => Ok(join_path_spec(input.dest_dir@, file_name_spec(source))),
        }
    }
}

/// The destination path for one batch source.
pub fn dest_for_source(input: &BatchInput, source: &str) -> (r: Result<String, BatchError>)
    ensures
        match r {
            Ok(d) => dest_for_source_spec(*input, source@) == Ok::<Seq<char>, BatchError>(d@),
            Err(e) => dest_for_source_spec(*input, source@) == Err::<Seq<char>, BatchError>(e),
        },
{
    let name = file_name_of(source);
    if name.unicode_len() == 0 {
        return Err(BatchError::NoFileName);
    }
    match &input.to_ext {
        Some(e) => {
            let stem = file_stem_of(source);
            let sanitized = trim_leading_dots(e.as_str());
            let mut file = String::from_str(stem);
            crate::strings::push_char(&mut file, '.');
            file.append(sanitized);
            let joined = join_path(input.dest_dir.as_str(), file.as_str());
            proof {
                assert(file@ =~= file_stem_spec(source@) + seq!['.'] + drop_leading_dots(
                    input.to_ext->0@,
                ));
            }
            Ok(joined)
        },
        None => Ok(join_path(input.dest_dir.as_str(), name)),
    }
}

/// Spec: the glob metacharacters.
pub open spec fn has_glob_char(s: Seq<char>) -> bool {
    exists|i: int| 0 <= i < s.len() && (s[i] == '*' || s[i] == '?' || s[i] == '[')
}

/// True when the input looks like a glob pattern rather than a plain path.
pub fn looks_like_glob(input: &str) -> (r: bool)
    ensures
        r == has_glob_char(input@),
{
    let n: usize = input.unicode_len();
    let mut i: usize = 0;
    while i < n
        invariant
            n == input@.len(),
            i <= n,
            forall|j: int|
                0 <= j < i ==> !(input@[j] == '*' || input@[j] == '?' || input@[j] == '['),
        decreases n - i,
    {
        let c = input.get_char(i);
        if c == '*' || c == '?' || c == '[' {
            return true;
        }
        i = i + 1;
    }
    false
}

/// Spec: a one-line segment when the line is non-empty, else nothing.
pub open spec fn line_if_visible(t: Seq<char>) -> Seq<Seq<char>> {
    if t.len() > 0 {
        seq![t]
    } else {
        Seq::empty()
    }
}

/// Spec: the input split at newlines, each line trimmed, empty lines
/// dropped.
pub open spec fn cleaned_lines_spec(s: Seq<char>) -> Seq<Seq<char>>
    decreases s.len(),
{
    let nl = find_first(s, '\n');
    if !(0 <= nl < s.len()) {
        line_if_visible(trim_spec(s))
    } else {
        line_if_visible(trim_spec(s.subrange(0, nl))) + cleaned_lines_spec(
            s.subrange(nl + 1, s.len() as int),
        )
    }
}

/// Splits newline-separated input into trimmed, non-empty lines, in order.
pub fn clean_input_lines(text: &str) -> (r: Vec<String>)
    ensures
        seq_views(r@) == cleaned_lines_spec(text@),
{
    let n: usize = text.unicode_len();
    let mut out: Vec<String> = Vec::new();
    let mut pos: usize = 0;
    proof {
        assert(text@.subrange(0, n as int) =~= text@);
        assert(seq_views(out@) =~~= Seq::<Seq<char>>::empty());
    }
    loop
        invariant
            n == text@.len(),
            pos <= n,
            cleaned_lines_spec(text@) == seq_views(out@) + cleaned_lines_spec(
                text@.subrange(pos as int, n as int),
            ),
        decreases n - pos,
    {
        let window = text.substring_char(pos, n);
        let ghost w = text@.subrange(pos as int, n as int);
        match find_first_char(window, '\n') {
            Some(i) => {
                proof {
                    lemma_find_first(w, '\n');
                }
                let line = trim_of(window.substring_char(0, i));
                let ghost before = out@;
                if line.unicode_len() > 0 {
                    let owned = String::from_str(line);
                    out.push(owned);
                    proof {
                        crate::strings::lemma_seq_views_push(before, owned);
                    }
                }
                pos = pos + i + 1;
                proof {
                    assert(w.subrange(0, i as int) =~= window@.subrange(0, i as int));
                    assert(w.subrange(i + 1, w.len() as int) =~= text@.subrange(
                        pos as int,
                        n as int,
                    ));
                    assert(seq_views(out@) =~~= seq_views(before) + line_if_visible(trim_spec(
                        w.subrange(0, i as int),
                    )));
                    assert(seq_views(out@) + cleaned_lines_spec(text@.subrange(pos as int, n as int))
                        =~~= seq_views(before) + cleaned_lines_spec(w));
                }
            },
            None => {
                let line = trim_of(window);
                let ghost before = out@;
                if line.unicode_len() > 0 {
                    let owned = String::from_str(line);
                    out.push(owned);
                    proof {
                        crate::strings::lemma_seq_views_push(before, owned);
                    }
                }
                proof {
                    assert(seq_views(out@) =~~= seq_views(before) + line_if_visible(trim_spec(w)));
                    assert(seq_views(out@) =~~= seq_views(before) + cleaned_lines_spec(w));
                    assert(seq_views(out@) =~~= cleaned_lines_spec(text@));
                }
                return out;
            },
        }
    }
}

/// One failed plan: which source, and why.
pub struct BatchFailure {
    pub source: String,
    pub message: String,
}

/// The aggregate a single sequential batch worker accumulates: how many
/// plans succeeded, and the failures in the order they happened. One
/// plan's failure never disturbs what was already recorded.
pub struct BatchRunner {
    pub succeeded: u64,
    pub failures: Vec<BatchFailure>,
}

/// The counts a finished batch reports.
#[derive(Clone, Copy, Debug, PartialEq, Eq, Structural)]
pub struct BatchSummary {
    pub total: u64,
    pub succeeded: u64,
    pub failed: u64,
}

impl BatchRunner {
    /// An empty tally.
    pub fn new() -> (r: BatchRunner)
        ensures
            r.succeeded == 0,
            r.failures@.len() == 0,
    {
        BatchRunner { succeeded: 0, failures: Vec::new() }
    }

    /// Records one successful plan.
    pub fn record_success(&mut self)
        requires
            old(self).succeeded < u64::MAX,
        ensures
            final(self).succeeded == old(self).succeeded + 1,
            final(self).failures == old(self).failures,
    {
        self.succeeded = self.succeeded + 1;
    }

    /// Records one failed plan; the failure goes to the end of the list, so
    /// the report keeps the order in which the batch ran.
    pub fn record_failure(&mut self, source: String, message: String)
        ensures
            final(self).succeeded == old(self).succeeded,
            final(self).failures@ == old(self).failures@.push(
                BatchFailure { source, message },
            ),
    {
        self.failures.push(BatchFailure { source, message });
    }

    /// The final counts: the total is exactly the successes plus the
    /// failures, so no plan is dropped from the report.
    pub fn summary(&self) -> (r: BatchSummary)
        requires
            self.succeeded + self.failures@.len() <= u64::MAX,
        ensures
            r.total == self.succeeded + self.failures@.len(),
            r.succeeded == self.succeeded,
            r.failed == self.failures@.len(),
    {
        let failed = self.failures.len() as u64;
        BatchSummary { total: self.succeeded + failed, succeeded: self.succeeded, failed }
    }
}

} // verus!
