//! The diagnostic session of one formatting attempt: which files are ignored,
//! how many errors were seen, and whether they may all be cleared.
use vstd::prelude::*;

verus! {

/// Whether `path` is `entry` itself or lies under the directory `entry`.
pub open spec fn covers(entry: Seq<char>, path: Seq<char>) -> bool {
    entry.len() <= path.len() && path.subrange(0, entry.len() as int) == entry && (entry.len()
        == path.len() || path[entry.len() as int] == '/')
}

pub open spec fn spec_is_match(entries: Seq<String>, path: Seq<char>) -> bool {
    exists|i: int| 0 <= i < entries.len() && covers(#[trigger] entries[i]@, path)
}

/// The set of paths whose errors are not reported. Its entries are plain paths,
/// not glob patterns: a path is ignored when it, or a directory that holds it,
/// is an entry of the set.
pub struct IgnorePathSet {
    pub entries: Vec<String>,
}

fn covers_exec(entry: &str, path: &str) -> (r: bool)
    ensures
        r == covers(entry@, path@),
{
    let m = entry.unicode_len();
    let n = path.unicode_len();
    if m > n {
        return false;
    }
    let mut i: usize = 0;
    while i < m
        invariant
            i <= m <= n,
            m == entry@.len(),
            n == path@.len(),
            forall|j: int| 0 <= j < i ==> path@[j] == entry@[j],
        decreases m - i,
    {
        if path.get_char(i) != entry.get_char(i) {
            assert(path@.subrange(0, m as int)[i as int] != entry@[i as int]);
            return false;
        }
        i += 1;
    }
    assert(path@.subrange(0, m as int) =~= entry@);
    m == n || path.get_char(m) == '/'
}

impl IgnorePathSet {
    /// Whether `path` is ignored.
    pub fn is_match(&self, path: &str) -> (r: bool)
        ensures
            r == spec_is_match(self.entries@, path@),
    {
        let mut i: usize = 0;
        while i < self.entries.len()
            invariant
                i <= self.entries@.len(),
                forall|j: int| 0 <= j < i ==> !covers(#[trigger] self.entries@[j]@, path@),
            decreases self.entries@.len() - i,
        {
            if covers_exec(self.entries[i].as_str(), path) {
                return true;
            }
            i += 1;
        }
        false
    }
}

/// How a session reports the errors of the parser.
#[derive(Clone, Copy, Debug, PartialEq, Eq, Structural)]
pub enum ErrorEmission {
    /// Do not emit errors from the underlying parser.
    Silence,
    /// Emit every parser error except ones from files specified in the `ignore` config option.
    Default,
}

/// A parser error: the real file of its primary location, where it has one,
/// and its message.
pub struct Diagnostic {
    pub file: Option<String>,
    pub message: String,
}

pub open spec fn diagnostic_file(d: Diagnostic) -> Option<Seq<char>> {
    match d.file {
        Some(f) => Some(f@),
        None => None,
    }
}

/// What a session is, as the contracts see it.
pub struct SessionView {
    pub emission: ErrorEmission,
    pub ignored: Seq<String>,
    pub error_count: nat,
    pub non_ignorable: bool,
    pub can_reset: bool,
}

/// Whether a diagnostic located in `file` comes from an ignored file.
pub open spec fn in_ignored_file(ignored: Seq<String>, file: Option<Seq<char>>) -> bool {
    match file {
        Some(f) => spec_is_match(ignored, f),
        None => false,
    }
}

/// The session after one more diagnostic located in `file`, and whether that
/// diagnostic is shown.
pub open spec fn after_diagnostic(v: SessionView, file: Option<Seq<char>>) -> (SessionView, bool) {
    let counted = SessionView {
        error_count: if v.error_count < usize::MAX {
            v.error_count + 1
        } else {
            v.error_count
        },
        ..v
    };
    match v.emission {
        ErrorEmission::Silence => (counted, false),
        ErrorEmission::Default => if in_ignored_file(v.ignored, file) {
            (SessionView { can_reset: !v.non_ignorable, ..counted }, false)
        } else {
            (SessionView { non_ignorable: true, can_reset: false, ..counted }, true)
        },
    }
}

/// The session after a batch of diagnostics, one after the other.
pub open spec fn after_diagnostics(v: SessionView, files: Seq<Option<Seq<char>>>) -> SessionView
    decreases files.len(),
{
    if files.len() == 0 {
        v
    } else {
        after_diagnostic(after_diagnostics(v, files.drop_last()), files.last()).0
    }
}

pub open spec fn diagnostic_files(ds: Seq<Diagnostic>) -> Seq<Option<Seq<char>>> {
    ds.map_values(|d: Diagnostic| diagnostic_file(d))
}

/// Once an error outside the ignored files has been seen, the errors can no
/// longer be cleared, whatever diagnostics come after.
pub proof fn lemma_non_ignorable_latches(v: SessionView, files: Seq<Option<Seq<char>>>)
    requires
        v.non_ignorable,
        !v.can_reset,
    ensures
        after_diagnostics(v, files).non_ignorable,
        !after_diagnostics(v, files).can_reset,
    decreases files.len(),
{
    if files.len() > 0 {
        lemma_non_ignorable_latches(v, files.drop_last());
    }
}

/// In a reporting session with no error yet outside the ignored files, after
/// a non-empty batch of diagnostics the errors can be cleared exactly when
/// every one of them came from an ignored file.
pub proof fn lemma_can_reset_iff_all_ignored(v: SessionView, files: Seq<Option<Seq<char>>>)
    requires
        v.emission == ErrorEmission::Default,
        !v.non_ignorable,
    ensures
        after_diagnostics(v, files).emission == v.emission,
        after_diagnostics(v, files).ignored == v.ignored,
        after_diagnostics(v, files).non_ignorable <==> exists|i: int|
            0 <= i < files.len() && !in_ignored_file(v.ignored, #[trigger] files[i]),
        files.len() > 0 ==> (after_diagnostics(v, files).can_reset <==> forall|i: int|
            0 <= i < files.len() ==> in_ignored_file(v.ignored, #[trigger] files[i])),
    decreases files.len(),
{
    if files.len() > 0 {
        let init = files.drop_last();
        lemma_can_reset_iff_all_ignored(v, init);
        let last = files.len() - 1;
        let prev = after_diagnostics(v, init);
        assert(files.last() == files[last]);
        assert forall|i: int| 0 <= i < last implies files[i] == #[trigger] init[i] by {}
        if in_ignored_file(v.ignored, files[last]) {
            if exists|i: int| 0 <= i < files.len() && !in_ignored_file(v.ignored, #[trigger] files[i]) {
                let i = choose|i: int|
                    0 <= i < files.len() && !in_ignored_file(v.ignored, #[trigger] files[i]);
                assert(!in_ignored_file(v.ignored, init[i]));
            }
            if exists|i: int| 0 <= i < init.len() && !in_ignored_file(v.ignored, #[trigger] init[i]) {
                let i = choose|i: int|
                    0 <= i < init.len() && !in_ignored_file(v.ignored, #[trigger] init[i]);
                assert(!in_ignored_file(v.ignored, files[i]));
            }
        } else {
            assert(!in_ignored_file(v.ignored, files[last]));
        }
    }
}

/// The session of one formatting attempt.
pub struct ParseSess {
    emission: ErrorEmission,
    ignore_path_set: IgnorePathSet,
    error_count: usize,
    has_non_ignorable_parser_errors: bool,
    can_reset_errors: bool,
}

impl View for ParseSess {
    type V = SessionView;

    closed spec fn view(&self) -> SessionView {
        SessionView {
            emission: self.emission,
            ignored: self.ignore_path_set.entries@,
            error_count: self.error_count as nat,
            non_ignorable: self.has_non_ignorable_parser_errors,
            can_reset: self.can_reset_errors,
        }
    }
}

impl ParseSess {
    #[verifier::type_invariant]
    spec fn inv(&self) -> bool {
        self.has_non_ignorable_parser_errors ==> !self.can_reset_errors
    }

    pub fn new(error_emission: ErrorEmission, ignore_path_set: IgnorePathSet) -> (r: ParseSess)
        ensures
            r@ == (SessionView {
                emission: error_emission,
                ignored: ignore_path_set.entries@,
                error_count: 0,
                non_ignorable: false,
                can_reset: false,
            }),
    {
        ParseSess {
            emission: error_emission,
            ignore_path_set,
            error_count: 0,
            has_non_ignorable_parser_errors: false,
            can_reset_errors: false,
        }
    }

    /// Whether every error seen so far came from an ignored file; never once an
    /// error outside them has been seen.
    pub fn can_reset_errors(&self) -> (r: bool)
        ensures
            r == self@.can_reset,
            self@.non_ignorable ==> !r,
    {
        proof {
            use_type_invariant(self);
        }
        self.can_reset_errors
    }

    pub fn ignore_file(&self, path: &str) -> (r: bool)
        ensures
            r == spec_is_match(self@.ignored, path@),
    {
        self.ignore_path_set.is_match(path)
    }

    /// Swallows every later diagnostic; the count of errors starts again at zero.
    pub fn set_silent_emitter(&mut self)
        ensures
            final(self)@ == (SessionView {
                emission: ErrorEmission::Silence,
                error_count: 0,
                ..old(self)@
            }),
    {
        proof {
            use_type_invariant(&*self);
        }
        self.emission = ErrorEmission::Silence;
        self.error_count = 0;
    }

    pub fn has_errors(&self) -> (r: bool)
        ensures
            r == (self@.error_count > 0),
    {
        self.error_count > 0
    }

    /// Clears the count of errors. Only errors that all came from ignored files
    /// may be cleared.
    pub fn reset_errors(&mut self)
        requires
            old(self)@.can_reset,
        ensures
            final(self)@ == (SessionView { error_count: 0, ..old(self)@ }),
    {
        proof {
            use_type_invariant(&*self);
        }
        self.error_count = 0;
    }

    /// Replays a batch of diagnostics in order; returns, for each, whether it
    /// is to be shown.
    pub fn emit_diagnostics(&mut self, diagnostics: &Vec<Diagnostic>) -> (r: Vec<bool>)
        ensures
            final(self)@ == after_diagnostics(old(self)@, diagnostic_files(diagnostics@)),
            r@.len() == diagnostics@.len(),
            forall|i: int|
                0 <= i < r@.len() ==> #[trigger] r@[i] == after_diagnostic(
                    after_diagnostics(old(self)@, diagnostic_files(diagnostics@).take(i)),
                    diagnostic_file(diagnostics@[i]),
                ).1,
    {
        let ghost files = diagnostic_files(diagnostics@);
        let mut shown: Vec<bool> = Vec::new();
        let mut i: usize = 0;
        while i < diagnostics.len()
            invariant
                i <= diagnostics@.len(),
                files == diagnostic_files(diagnostics@),
                self@ == after_diagnostics(old(self)@, files.take(i as int)),
                shown@.len() == i,
                forall|k: int|
                    0 <= k < i ==> #[trigger] shown@[k] == after_diagnostic(
                        after_diagnostics(old(self)@, files.take(k)),
                        diagnostic_file(diagnostics@[k]),
                    ).1,
            decreases diagnostics@.len() - i,
        {
            let ghost before = self@;
            let s = self.emit_diagnostic(&diagnostics[i]);
            shown.push(s);
            i += 1;
            assert(files.take(i as int).drop_last() =~= files.take(i - 1));
            assert(files.take(i as int).last() == diagnostic_file(diagnostics@[i - 1]));
        }
        assert(files.take(diagnostics@.len() as int) =~= files);
        shown
    }

    /// Records one diagnostic; returns whether it is to be shown.
    pub fn emit_diagnostic(&mut self, diagnostic: &Diagnostic) -> (r: bool)
        ensures
            (final(self)@, r) == after_diagnostic(old(self)@, diagnostic_file(*diagnostic)),
    {
        proof {
            use_type_invariant(&*self);
        }
        if self.error_count < usize::MAX {
            self.error_count = self.error_count + 1;
        }
        match self.emission {
            ErrorEmission::Silence => false,
            ErrorEmission::Default => {
                let ignored = match &diagnostic.file {
                    Some(path) => self.ignore_path_set.is_match(path.as_str()),
                    None => false,
                };
                if ignored {
                    if !self.has_non_ignorable_parser_errors {
                        self.can_reset_errors = true;
                    }
                    false
                } else {
                    self.can_reset_errors = false;
                    self.has_non_ignorable_parser_errors = true;
                    true
                }
            },
        }
    }
}

} // verus!
