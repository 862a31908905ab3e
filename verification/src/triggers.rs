//! Which failover triggers run, and in what order.
//!
//! The configured path names one executable, or a directory of them. Of a
//! directory, the regular files directly in it run, in the ascending order
//! of their names, byte by byte: `02-b` before `10-a`, and `10-a` before
//! `9-c`.

use vstd::prelude::*;
use vstd::relations::sorted_by;
use vstd::relations::total_ordering;
use vstd::seq_lib::lemma_sorted_unique;
use vstd::seq_lib::to_multiset_insert;

verus! {

/// How an external executable ended.
#[derive(Clone, Copy, Debug, PartialEq, Eq, Structural)]
pub enum Exit {
    /// It could not be started.
    Unlaunched,
    /// It exited with this status.
    Code(i32),
    /// It ended without an exit status.
    Killed,
}

impl Exit {
    /// Only an exit with status zero is a success.
    pub open spec fn spec_success(self) -> bool {
        self == Exit::Code(0)
    }

    /// Whether the executable ran and exited with status zero.
    #[verifier::when_used_as_spec(spec_success)]
    pub fn success(self) -> (ok: bool)
        ensures
            ok == self.spec_success(),
    {
        match self {
            Exit::Code(status) => status == 0,
            _ => false,
        }
    }
}

/// What the configured path is.
#[derive(Clone, Copy, Debug, PartialEq, Eq, Structural)]
pub enum PathKind {
    /// A regular file.
    File,
    /// A directory.
    Directory,
    /// Neither, or nothing at all.
    Other,
}

/// One entry of a directory.
#[derive(Clone, Debug)]
pub struct Entry {
    /// The entry's path: the directory's, and the entry's name behind it.
    pub path: Vec<u8>,
    /// Whether the entry is a regular file.
    pub is_file: bool,
}

/// Whether `a` comes no later than `b` in the order of the dictionary, byte
/// by byte: at the first place where they differ `a` has the smaller byte,
/// or `a` ends before they differ.
pub open spec fn lex_le(a: Seq<u8>, b: Seq<u8>) -> bool
    decreases a.len(),
{
    if a.len() == 0 {
        true
    } else if b.len() == 0 {
        false
    } else if a[0] != b[0] {
        a[0] < b[0]
    } else {
        lex_le(a.drop_first(), b.drop_first())
    }
}

/// The order of the dictionary on byte strings, as a relation.
pub open spec fn byte_order() -> spec_fn(Seq<u8>, Seq<u8>) -> bool {
    |a: Seq<u8>, b: Seq<u8>| lex_le(a, b)
}

proof fn lemma_lex_reflexive(a: Seq<u8>)
    ensures
        lex_le(a, a),
    decreases a.len(),
{
    if a.len() > 0 {
        lemma_lex_reflexive(a.drop_first());
    }
}

proof fn lemma_lex_antisymmetric(a: Seq<u8>, b: Seq<u8>)
    requires
        lex_le(a, b),
        lex_le(b, a),
    ensures
        a == b,
    decreases a.len(),
{
    if a.len() > 0 && b.len() > 0 {
        lemma_lex_antisymmetric(a.drop_first(), b.drop_first());
        assert(b =~= seq![b[0]] + b.drop_first());
    }
}

proof fn lemma_lex_transitive(a: Seq<u8>, b: Seq<u8>, c: Seq<u8>)
    requires
        lex_le(a, b),
        lex_le(b, c),
    ensures
        lex_le(a, c),
    decreases a.len(),
{
    if a.len() > 0 && b.len() > 0 && c.len() > 0 && a[0] == b[0] && b[0] == c[0] {
        lemma_lex_transitive(a.drop_first(), b.drop_first(), c.drop_first());
    }
}

proof fn lemma_lex_connected(a: Seq<u8>, b: Seq<u8>)
    ensures
        lex_le(a, b) || lex_le(b, a),
    decreases a.len(),
{
    if a.len() > 0 && b.len() > 0 && a[0] == b[0] {
        lemma_lex_connected(a.drop_first(), b.drop_first());
    }
}

/// The order of the dictionary is a total order: any two byte strings are
/// comparable, and only equal ones both ways.
pub proof fn lemma_byte_order_is_total()
    ensures
        total_ordering(byte_order()),
{
    let r = byte_order();
    assert forall|x: Seq<u8>| #[trigger] r(x, x) by {
        lemma_lex_reflexive(x);
    }
    assert forall|x: Seq<u8>, y: Seq<u8>| #[trigger] r(x, y) && #[trigger] r(y, x) implies x
        == y by {
        lemma_lex_antisymmetric(x, y);
    }
    assert forall|x: Seq<u8>, y: Seq<u8>, z: Seq<u8>| #[trigger]
        r(x, y) && #[trigger] r(y, z) implies r(x, z) by {
        lemma_lex_transitive(x, y, z);
    }
    assert forall|x: Seq<u8>, y: Seq<u8>| #[trigger] r(x, y) || #[trigger] r(y, x) by {
        lemma_lex_connected(x, y);
    }
}

/// Whether `a` comes no later than `b` in the order of the dictionary.
pub fn precedes(a: &Vec<u8>, b: &Vec<u8>) -> (le: bool)
    ensures
        le == lex_le(a@, b@),
{
    let mut i: usize = 0;
    proof {
        assert(a@.skip(0) =~= a@);
        assert(b@.skip(0) =~= b@);
    }
    while i < a.len() && i < b.len()
        invariant
            i <= a.len(),
            i <= b.len(),
            lex_le(a@, b@) == lex_le(a@.skip(i as int), b@.skip(i as int)),
        decreases a.len() - i,
    {
        proof {
            assert(a@.skip(i as int).drop_first() =~= a@.skip(i + 1));
            assert(b@.skip(i as int).drop_first() =~= b@.skip(i + 1));
        }
        if a[i] != b[i] {
            return a[i] < b[i];
        }
        i += 1;
    }
    i == a.len()
}

/// The paths in `files`, each as its bytes.
pub open spec fn paths(files: Seq<Vec<u8>>) -> Seq<Seq<u8>> {
    Seq::new(files.len(), |i: int| files[i]@)
}

/// The paths of the regular files among `entries`, in the order of the
/// entries.
pub open spec fn regular_files(entries: Seq<Entry>) -> Seq<Seq<u8>>
    decreases entries.len(),
{
    if entries.len() == 0 {
        Seq::empty()
    } else if entries.last().is_file {
        regular_files(entries.drop_last()).push(entries.last().path@)
    } else {
        regular_files(entries.drop_last())
    }
}

/// The triggers to run, in the order in which they run: the path itself
/// where it is a file; the regular files among the entries of the
/// directory, in the order of the dictionary, where it is a directory; and
/// none where it is neither.
pub open spec fn trigger_order(path: Seq<u8>, kind: PathKind, entries: Seq<Entry>) -> Seq<
    Seq<u8>,
> {
    match kind {
        PathKind::File => seq![path],
        PathKind::Directory => regular_files(entries).sort_by(byte_order()),
        PathKind::Other => Seq::empty(),
    }
}

/// A copy of `bytes`.
fn copy_of(bytes: &Vec<u8>) -> (copy: Vec<u8>)
    ensures
        copy@ == bytes@,
{
    let mut copy: Vec<u8> = Vec::new();
    let mut i: usize = 0;
    while i < bytes.len()
        invariant
            i <= bytes.len(),
            copy@ == bytes@.take(i as int),
        decreases bytes.len() - i,
    {
        copy.push(bytes[i]);
        i += 1;
    }
    copy
}

/// Puts `file` into `files`, which are in order, at its place.
fn insert_in_order(files: &mut Vec<Vec<u8>>, file: Vec<u8>)
    requires
        sorted_by(paths(old(files)@), byte_order()),
    ensures
        sorted_by(paths(final(files)@), byte_order()),
        paths(final(files)@).to_multiset() == paths(old(files)@).to_multiset().insert(file@),
{
    proof {
        lemma_byte_order_is_total();
    }
    let ghost before = paths(files@);
    let mut at: usize = 0;
    while at < files.len() && precedes(&files[at], &file)
        invariant
            at <= files.len(),
            files@ == old(files)@,
            before == paths(files@),
            forall|k: int| 0 <= k < at ==> lex_le(#[trigger] before[k], file@),
        decreases files.len() - at,
    {
        at += 1;
    }
    files.insert(at, file);
    proof {
        let after = paths(files@);
        assert(after =~= before.insert(at as int, file@));
        to_multiset_insert(before, at as int, file@);
        let r = byte_order();
        assert forall|i: int, j: int| 0 <= i < j < after.len() implies #[trigger] r(
            after[i],
            after[j],
        ) by {
            if i == at {
                // the file that stood at this place comes later than the new one
                lemma_lex_connected(before[at as int], file@);
                if j - 1 > at {
                    assert(r(before[at as int], before[j - 1]));
                    lemma_lex_transitive(file@, before[at as int], before[j - 1]);
                }
            }
        }
    }
}

/// Returns the failover triggers found at the configured path, in the order
/// in which they run.
///
/// `path` is the configured path and `kind` what it was found to be. For a
/// directory, `entries` holds its direct entries; otherwise `entries` is
/// not looked at.
pub fn collect_files(path: &Vec<u8>, kind: PathKind, entries: &Vec<Entry>) -> (files: Vec<
    Vec<u8>,
>)
    ensures
        paths(files@) == trigger_order(path@, kind, entries@),
{
    let mut files: Vec<Vec<u8>> = Vec::new();
    match kind {
        PathKind::File => {
            files.push(copy_of(path));
        },
        PathKind::Directory => {
            let mut i: usize = 0;
            proof {
                assert(paths(files@) =~= Seq::<Seq<u8>>::empty());
            }
            while i < entries.len()
                invariant
                    i <= entries.len(),
                    sorted_by(paths(files@), byte_order()),
                    paths(files@).to_multiset() == regular_files(
                        entries@.take(i as int),
                    ).to_multiset(),
                decreases entries.len() - i,
            {
                proof {
                    let upto = entries@.take(i + 1);
                    assert(upto.drop_last() =~= entries@.take(i as int));
                    if entries@[i as int].is_file {
                        vstd::seq_lib::to_multiset_build(
                            regular_files(entries@.take(i as int)),
                            entries@[i as int].path@,
                        );
                    }
                }
                if entries[i].is_file {
                    insert_in_order(&mut files, copy_of(&entries[i].path));
                }
                i += 1;
            }
            proof {
                assert(entries@.take(i as int) =~= entries@);
                let all = regular_files(entries@);
                lemma_byte_order_is_total();
                all.lemma_sort_by_ensures(byte_order());
                lemma_sorted_unique(paths(files@), all.sort_by(byte_order()), byte_order());
            }
        },
        PathKind::Other => {},
    }
    files
}

/// The run of the triggers, as contracts see it.
pub struct RunState {
    /// The triggers, in the order in which they run.
    pub files: Seq<Seq<u8>>,
    /// How many of them have run.
    pub done: int,
    /// How many of those could not be started or did not exit with status
    /// zero.
    pub failures: int,
}

impl RunState {
    /// A run in which nothing has run yet.
    pub open spec fn fresh(files: Seq<Seq<u8>>) -> RunState {
        RunState { files, done: 0, failures: 0 }
    }

    /// No more triggers have run than there are, and no more have failed
    /// than have run.
    pub open spec fn wf(self) -> bool {
        0 <= self.failures <= self.done <= self.files.len()
    }

    /// The trigger to run now, if any is left.
    pub open spec fn current(self) -> Option<Seq<u8>> {
        if self.done < self.files.len() {
            Some(self.files[self.done])
        } else {
            None
        }
    }

    /// The run after the current trigger ended with `exit`: the next one is
    /// due, however this one ended.
    pub open spec fn record(self, exit: Exit) -> RunState {
        if self.done < self.files.len() {
            RunState {
                done: self.done + 1,
                failures: self.failures + if exit.spec_success() {
                    0int
                } else {
                    1int
                },
                ..self
            }
        } else {
            self
        }
    }

    /// The run after the triggers ended with `exits`, one after the other.
    pub open spec fn after(self, exits: Seq<Exit>) -> RunState
        decreases exits.len(),
    {
        if exits.len() == 0 {
            self
        } else {
            self.after(exits.drop_last()).record(exits.last())
        }
    }
}

/// How many of `exits` are no success.
pub open spec fn failed(exits: Seq<Exit>) -> int
    decreases exits.len(),
{
    if exits.len() == 0 {
        0
    } else {
        failed(exits.drop_last()) + if exits.last().spec_success() {
            0int
        } else {
            1int
        }
    }
}

/// No trigger's failure keeps a later trigger from running: after as many
/// exits as there are triggers, however they ended, every trigger has run,
/// in the order of the run, and the failures are counted.
pub proof fn lemma_every_trigger_runs(files: Seq<Seq<u8>>, exits: Seq<Exit>)
    requires
        exits.len() <= files.len(),
    ensures
        RunState::fresh(files).after(exits).wf(),
        RunState::fresh(files).after(exits).files == files,
        RunState::fresh(files).after(exits).done == exits.len(),
        RunState::fresh(files).after(exits).failures == failed(exits),
        exits.len() < files.len() ==> RunState::fresh(files).after(exits).current() == Some(
            files[exits.len() as int],
        ),
        exits.len() == files.len() ==> RunState::fresh(files).after(exits).current() is None,
    decreases exits.len(),
{
    if exits.len() > 0 {
        lemma_every_trigger_runs(files, exits.drop_last());
    }
}

/// The run of the failover triggers on one new primary: one after the
/// other, each to its end, whatever becomes of them.
pub struct Run {
    files: Vec<Vec<u8>>,
    done: usize,
    failures: usize,
}

impl View for Run {
    type V = RunState;

    closed spec fn view(&self) -> RunState {
        RunState {
            files: paths(self.files@),
            done: self.done as int,
            failures: self.failures as int,
        }
    }
}

impl Run {
    #[verifier::type_invariant]
    spec fn inv(self) -> bool {
        self@.wf()
    }

    /// A run of `files`, in their order.
    pub fn new(files: Vec<Vec<u8>>) -> (run: Run)
        ensures
            run@ == RunState::fresh(paths(files@)),
    {
        Run { files, done: 0, failures: 0 }
    }

    /// The trigger to run now, if any is left.
    pub fn current(&self) -> (file: Option<&Vec<u8>>)
        ensures
            match file {
                Some(path) => self@.current() == Some(path@),
                None => self@.current() is None,
            },
    {
        if self.done < self.files.len() {
            Some(&self.files[self.done])
        } else {
            None
        }
    }

    /// Notes how the current trigger ended. The next one is due then,
    /// however this one ended. Changes nothing when no trigger is left.
    pub fn record(&mut self, exit: Exit)
        ensures
            final(self)@ == old(self)@.record(exit),
            final(self)@.wf(),
    {
        proof {
            use_type_invariant(&*self);
        }
        if self.done < self.files.len() {
            self.done = self.done + 1;
            if !exit.success() {
                self.failures = self.failures + 1;
            }
        }
    }

    /// How many triggers have run.
    pub fn done(&self) -> (count: usize)
        ensures
            count == self@.done,
    {
        self.done
    }

    /// How many of the triggers that have run could not be started or did
    /// not exit with status zero.
    pub fn failures(&self) -> (count: usize)
        ensures
            count == self@.failures,
            count <= self@.done,
    {
        proof {
            use_type_invariant(self);
        }
        self.failures
    }
}

} // verus!
