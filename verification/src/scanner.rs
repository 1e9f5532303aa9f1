//! The version scanner: which directories to look into for a kernel binary,
//! and which of the binaries found there to run.
//!
//! Reading directories and running binaries is the caller's business. The walk
//! through the directory tree is a state machine, [`ScanDirs`]: the caller
//! takes a directory from it, lists the directory and hands the subdirectories
//! back. The choice among the candidates is [`find_latest_kernel`].

use crate::version::KernelVersion;
use vstd::prelude::*;

verus! {

/// The walk that collects the directories to scan: the configured install
/// directory, the application's core directory and every directory below it.
///
/// Directories still to be listed wait on a stack, so the walk goes depth
/// first; a directory is recorded when its parent is listed.
#[derive(Debug)]
pub struct ScanDirs {
    dirs: Vec<String>,
    stack: Vec<String>,
}

/// The texts of a list of strings.
pub open spec fn texts(list: Seq<String>) -> Seq<Seq<char>> {
    Seq::new(list.len(), |i: int| list[i]@)
}

/// The list that holds a directory, if there is one, and nothing else.
pub open spec fn one_or_none(dir: Option<String>) -> Seq<Seq<char>> {
    match dir {
        Some(d) => seq![d@],
        None => Seq::empty(),
    }
}

impl ScanDirs {
    /// The directories recorded so far, in the order in which they are scanned.
    pub closed spec fn recorded(self) -> Seq<Seq<char>> {
        texts(self.dirs@)
    }

    /// The directories that wait to be listed, the next one last.
    pub closed spec fn waiting(self) -> Seq<Seq<char>> {
        texts(self.stack@)
    }

    /// Starts a walk. The install directory, where one is configured, is
    /// scanned first and not descended into; the core directory, where the
    /// application has one, comes next and is the root of the descent.
    pub fn new(install_dir: Option<String>, core_dir: Option<String>) -> (walk: ScanDirs)
        ensures
            walk.recorded() == one_or_none(install_dir) + one_or_none(core_dir),
            walk.waiting() == one_or_none(core_dir),
    {
        let mut dirs: Vec<String> = Vec::new();
        let mut stack: Vec<String> = Vec::new();
        if let Some(dir) = install_dir {
            dirs.push(dir);
        }
        if let Some(dir) = core_dir {
            dirs.push(dir.clone());
            stack.push(dir);
        }
        let walk = ScanDirs { dirs, stack };
        assert(walk.recorded() =~= one_or_none(install_dir) + one_or_none(core_dir));
        assert(walk.waiting() =~= one_or_none(core_dir));
        walk
    }

    /// Takes the directory to list next: the one that was put on the stack
    /// last. None when the walk is over.
    pub fn next_dir(&mut self) -> (dir: Option<String>)
        ensures
            final(self).recorded() == old(self).recorded(),
            match dir {
                Some(d) => old(self).waiting().len() > 0 && d@ == old(self).waiting().last()
                    && final(self).waiting() == old(self).waiting().drop_last(),
                None => old(self).waiting().len() == 0 && final(self).waiting() == old(
                    self,
                ).waiting(),
            },
    {
        let dir = self.stack.pop();
        proof {
            if dir is Some {
                assert(self.waiting() =~= old(self).waiting().drop_last());
            }
        }
        dir
    }

    /// Hands in the subdirectories of the directory taken last, in the order
    /// in which the listing gave them: each is recorded and put on the stack.
    pub fn add_subdirs(&mut self, subdirs: Vec<String>)
        ensures
            final(self).recorded() == old(self).recorded() + texts(subdirs@),
            final(self).waiting() == old(self).waiting() + texts(subdirs@),
    {
        let n = subdirs.len();
        let mut i: usize = 0;
        while i < n
            invariant
                n == subdirs@.len(),
                i <= n,
                self.recorded() == old(self).recorded() + texts(subdirs@.take(i as int)),
                self.waiting() == old(self).waiting() + texts(subdirs@.take(i as int)),
            decreases n - i,
        {
            let ghost recorded_before = self.recorded();
            let ghost waiting_before = self.waiting();
            let path = subdirs[i].clone();
            self.dirs.push(path.clone());
            self.stack.push(path);
            proof {
                let grown = texts(subdirs@.take(i + 1));
                assert(grown =~= texts(subdirs@.take(i as int)).push(subdirs@[i as int]@));
                assert(self.recorded() =~= recorded_before.push(subdirs@[i as int]@));
                assert(self.waiting() =~= waiting_before.push(subdirs@[i as int]@));
                assert(self.recorded() =~= old(self).recorded() + grown);
                assert(self.waiting() =~= old(self).waiting() + grown);
            }
            i = i + 1;
        }
        assert(subdirs@.take(n as int) =~= subdirs@);
    }

    /// Ends the walk and gives the directories recorded, in scan order.
    pub fn into_dirs(self) -> (dirs: Vec<String>)
        ensures
            texts(dirs@) == self.recorded(),
    {
        self.dirs
    }
}

/// A walk that is run against a directory tree: the directories recorded, the
/// directories that wait to be listed, and the directories listed so far.
pub ghost struct WalkRun {
    pub recorded: Seq<Seq<char>>,
    pub waiting: Seq<Seq<char>>,
    pub listed: Seq<Seq<char>>,
}

/// The run of a walk from `run` on, `steps` steps long at most, against a tree
/// in which `tree(dir)` are the subdirectories of `dir`: in each step the
/// directory that waits last is taken as by [`ScanDirs::next_dir`] and its
/// subdirectories are handed in as by [`ScanDirs::add_subdirs`].
pub open spec fn walk_on(
    run: WalkRun,
    tree: spec_fn(Seq<char>) -> Seq<Seq<char>>,
    steps: nat,
) -> WalkRun
    decreases steps,
{
    if steps == 0 || run.waiting.len() == 0 {
        run
    } else {
        let dir = run.waiting.last();
        walk_on(
            WalkRun {
                recorded: run.recorded + tree(dir),
                waiting: run.waiting.drop_last() + tree(dir),
                listed: run.listed.push(dir),
            },
            tree,
            (steps - 1) as nat,
        )
    }
}

/// The start of a run: what [`ScanDirs::new`] records and puts on the stack
/// for an install directory, if there is one, and a core directory.
pub open spec fn walk_start(install_dir: Option<Seq<char>>, core_dir: Seq<char>) -> WalkRun {
    WalkRun {
        recorded: (match install_dir {
            Some(dir) => seq![dir],
            None => Seq::<Seq<char>>::empty(),
        }) + seq![core_dir],
        waiting: seq![core_dir],
        listed: Seq::empty(),
    }
}

/// Whether every subdirectory of a directory listed is recorded, and every
/// directory recorded from position `from` on is listed or waits to be.
pub open spec fn walk_is_sound(
    run: WalkRun,
    tree: spec_fn(Seq<char>) -> Seq<Seq<char>>,
    from: int,
) -> bool {
    &&& forall|i: int, j: int|
        0 <= i < run.listed.len() && 0 <= j < tree(run.listed[i]).len()
            ==> run.recorded.contains(#[trigger] tree(run.listed[i])[j])
    &&& forall|i: int|
        from <= i < run.recorded.len() ==> run.listed.contains(#[trigger] run.recorded[i])
            || run.waiting.contains(run.recorded[i])
}

proof fn lemma_walk_stays_sound(
    run: WalkRun,
    tree: spec_fn(Seq<char>) -> Seq<Seq<char>>,
    from: int,
    steps: nat,
)
    requires
        0 <= from,
        walk_is_sound(run, tree, from),
    ensures
        walk_is_sound(walk_on(run, tree, steps), tree, from),
        walk_on(run, tree, steps).recorded.len() >= run.recorded.len(),
        forall|i: int|
            0 <= i < run.recorded.len() ==> walk_on(run, tree, steps).recorded[i]
                == run.recorded[i],
    decreases steps,
{
    if steps > 0 && run.waiting.len() > 0 {
        let dir = run.waiting.last();
        let subdirs = tree(dir);
        let next = WalkRun {
            recorded: run.recorded + subdirs,
            waiting: run.waiting.drop_last() + subdirs,
            listed: run.listed.push(dir),
        };
        assert forall|i: int, j: int|
            0 <= i < next.listed.len() && 0 <= j < tree(next.listed[i]).len()
            implies next.recorded.contains(#[trigger] tree(next.listed[i])[j]) by {
            if i < run.listed.len() {
                let c = tree(run.listed[i])[j];
                assert(run.recorded.contains(c));
                let k = choose|k: int| 0 <= k < run.recorded.len() && run.recorded[k] == c;
                assert(next.recorded[k] == c);
            } else {
                assert(next.listed[i] == dir);
                assert(next.recorded[run.recorded.len() + j] == subdirs[j]);
            }
        }
        assert forall|i: int| from <= i < next.recorded.len() implies next.listed.contains(
            #[trigger] next.recorded[i],
        ) || next.waiting.contains(next.recorded[i]) by {
            let r = next.recorded[i];
            if i < run.recorded.len() {
                assert(r == run.recorded[i]);
                if run.listed.contains(r) {
                    let k = choose|k: int| 0 <= k < run.listed.len() && run.listed[k] == r;
                    assert(next.listed[k] == r);
                } else {
                    let k = choose|k: int| 0 <= k < run.waiting.len() && run.waiting[k] == r;
                    if k == run.waiting.len() - 1 {
                        assert(next.listed[run.listed.len() as int] == r);
                    } else {
                        assert(next.waiting[k] == r);
                    }
                }
            } else {
                let j = i - run.recorded.len();
                assert(r == subdirs[j]);
                assert(next.waiting[run.waiting.len() - 1 + j] == r);
            }
        }
        lemma_walk_stays_sound(next, tree, from, (steps - 1) as nat);
        assert forall|i: int| 0 <= i < run.recorded.len() implies walk_on(
            run,
            tree,
            steps,
        ).recorded[i] == run.recorded[i] by {
            assert(next.recorded[i] == run.recorded[i]);
        }
    }
}

/// A walk that has come to its end has recorded the core directory and, with
/// every directory at or below it that it has recorded, all the
/// subdirectories of that directory: every directory that can be reached from
/// the core directory is scanned. The install directory is recorded, but not
/// descended into.
pub proof fn law_finished_walk_has_every_subdirectory(
    install_dir: Option<Seq<char>>,
    core_dir: Seq<char>,
    tree: spec_fn(Seq<char>) -> Seq<Seq<char>>,
    steps: nat,
)
    requires
        walk_on(walk_start(install_dir, core_dir), tree, steps).waiting.len() == 0,
    ensures
        ({
            let start = walk_start(install_dir, core_dir);
            let end = walk_on(start, tree, steps);
            let core_at = start.recorded.len() - 1;
            &&& end.recorded.len() >= start.recorded.len()
            &&& end.recorded[core_at] == core_dir
            &&& install_dir is Some ==> end.recorded[0] == install_dir->0
            &&& forall|i: int, j: int|
                core_at <= i < end.recorded.len() && 0 <= j < tree(end.recorded[i]).len()
                    ==> end.recorded.contains(#[trigger] tree(end.recorded[i])[j])
        }),
{
    let start = walk_start(install_dir, core_dir);
    let end = walk_on(start, tree, steps);
    let core_at = start.recorded.len() - 1;
    assert(start.waiting[0] == core_dir);
    assert(start.recorded[core_at] == core_dir);
    if install_dir is Some {
        assert(start.recorded[0] == install_dir->0);
    }
    assert(walk_is_sound(start, tree, core_at));
    lemma_walk_stays_sound(start, tree, core_at, steps);
    assert forall|i: int, j: int|
        core_at <= i < end.recorded.len() && 0 <= j < tree(end.recorded[i]).len()
        implies end.recorded.contains(#[trigger] tree(end.recorded[i])[j]) by {
        let r = end.recorded[i];
        assert(end.listed.contains(r) || end.waiting.contains(r));
        let k = choose|k: int| 0 <= k < end.listed.len() && end.listed[k] == r;
        assert(end.recorded.contains(tree(end.listed[k])[j]));
    }
}

/// A kernel binary found in a scanned directory, with the version that it
/// reported, if one could be had.
#[derive(Debug)]
pub struct KernelBinaryCandidate {
    pub path: String,
    pub parsed_version: Option<KernelVersion>,
}

/// The versions of the candidates, in scan order.
pub open spec fn versions_of(candidates: Seq<KernelBinaryCandidate>) -> Seq<Option<KernelVersion>> {
    Seq::new(candidates.len(), |i: int| candidates[i].parsed_version)
}

/// Whether candidate `i` reported a version above `0.0.0` that no candidate
/// exceeds and that no earlier candidate reaches.
pub open spec fn is_latest_parsed(versions: Seq<Option<KernelVersion>>, i: int) -> bool {
    &&& 0 <= i < versions.len()
    &&& versions[i] is Some
    &&& versions[i]->0.newer_than(KernelVersion::zero())
    &&& forall|j: int|
        0 <= j < versions.len() && (#[trigger] versions[j]) is Some ==> !versions[j]->0.newer_than(
            versions[i]->0,
        )
    &&& forall|j: int|
        0 <= j < i && (#[trigger] versions[j]) is Some ==> versions[i]->0.newer_than(versions[j]->0)
}

/// Whether candidate `i` is the first that reported no version, while no
/// candidate reported a version above `0.0.0`.
pub open spec fn is_fallback(versions: Seq<Option<KernelVersion>>, i: int) -> bool {
    &&& 0 <= i < versions.len()
    &&& versions[i] is None
    &&& forall|j: int| 0 <= j < i ==> (#[trigger] versions[j]) is Some
    &&& forall|j: int|
        0 <= j < versions.len() && (#[trigger] versions[j]) is Some ==> !versions[j]->0.newer_than(
            KernelVersion::zero(),
        )
}

/// Whether candidate `i` is the one to run.
pub open spec fn is_selected(versions: Seq<Option<KernelVersion>>, i: int) -> bool {
    is_latest_parsed(versions, i) || is_fallback(versions, i)
}

/// The candidate to run: the first among those with the newest version above
/// `0.0.0`; where no candidate reported such a version, the first that
/// reported none at all; and none where every candidate reported `0.0.0`, or
/// where there is no candidate.
pub open spec fn selected_index(versions: Seq<Option<KernelVersion>>) -> Option<int> {
    if exists|i: int| is_selected(versions, i) {
        Some(choose|i: int| is_selected(versions, i))
    } else {
        None
    }
}

/// At most one candidate is the one to run.
pub proof fn lemma_selected_unique(versions: Seq<Option<KernelVersion>>, i: int, j: int)
    requires
        is_selected(versions, i),
        is_selected(versions, j),
    ensures
        i == j,
{
    if is_latest_parsed(versions, i) && is_latest_parsed(versions, j) {
        if i < j {
            assert(versions[i] is Some);
        } else if j < i {
            assert(versions[j] is Some);
        }
    } else if is_fallback(versions, i) && is_fallback(versions, j) {
        if i < j {
            assert(versions[i] is None);
        } else if j < i {
            assert(versions[j] is None);
        }
    } else if is_latest_parsed(versions, i) {
        assert(versions[i] is Some);
    } else {
        assert(versions[j] is Some);
    }
}

/// A candidate that is the one to run is what [`selected_index`] names.
pub proof fn lemma_selected_is(versions: Seq<Option<KernelVersion>>, i: int)
    requires
        is_selected(versions, i),
    ensures
        selected_index(versions) == Some(i),
{
    let chosen = choose|k: int| is_selected(versions, k);
    lemma_selected_unique(versions, i, chosen);
}

/// Among the first `n` candidates, of which one reported a version above
/// `0.0.0`, the first that reported the newest such version.
proof fn lemma_first_newest(versions: Seq<Option<KernelVersion>>, n: int) -> (b: int)
    requires
        0 <= n <= versions.len(),
        exists|k: int|
            0 <= k < n && (#[trigger] versions[k]) is Some && versions[k]->0.newer_than(
                KernelVersion::zero(),
            ),
    ensures
        0 <= b < n,
        versions[b] is Some,
        versions[b]->0.newer_than(KernelVersion::zero()),
        forall|j: int|
            0 <= j < n && (#[trigger] versions[j]) is Some ==> !versions[j]->0.newer_than(
                versions[b]->0,
            ),
        forall|j: int|
            0 <= j < b && (#[trigger] versions[j]) is Some ==> versions[b]->0.newer_than(
                versions[j]->0,
            ),
    decreases n,
{
    let last = n - 1;
    if exists|k: int|
        0 <= k < last && (#[trigger] versions[k]) is Some && versions[k]->0.newer_than(
            KernelVersion::zero(),
        ) {
        let earlier = lemma_first_newest(versions, last);
        if versions[last] is Some && versions[last]->0.newer_than(versions[earlier]->0) {
            last
        } else {
            earlier
        }
    } else {
        let k = choose|k: int|
            0 <= k < n && (#[trigger] versions[k]) is Some && versions[k]->0.newer_than(
                KernelVersion::zero(),
            );
        assert(k == last);
        last
    }
}

/// As soon as one candidate reports a version above `0.0.0`, the candidate to
/// run is one that reported a version, and no candidate reported a newer one:
/// a candidate without a version is kept only until a real version appears.
pub proof fn law_parsed_version_beats_fallback(versions: Seq<Option<KernelVersion>>)
    requires
        exists|k: int|
            0 <= k < versions.len() && (#[trigger] versions[k]) is Some
                && versions[k]->0.newer_than(KernelVersion::zero()),
    ensures
        selected_index(versions) matches Some(best) && is_latest_parsed(versions, best),
{
    let best = lemma_first_newest(versions, versions.len() as int);
    assert(is_latest_parsed(versions, best));
    lemma_selected_is(versions, best);
}

/// Where every candidate reports a version and no two report the same, the
/// candidate to run is the one whose version is newer than every other, as
/// long as that version is above `0.0.0`.
pub proof fn law_newest_distinct_version_wins(versions: Seq<Option<KernelVersion>>)
    requires
        forall|i: int| 0 <= i < versions.len() ==> (#[trigger] versions[i]) is Some,
        forall|i: int, j: int|
            0 <= i < j < versions.len() ==> #[trigger] versions[i] != #[trigger] versions[j],
        exists|k: int|
            0 <= k < versions.len() && (#[trigger] versions[k])->0.newer_than(
                KernelVersion::zero(),
            ),
    ensures
        selected_index(versions) matches Some(best) && 0 <= best < versions.len() && forall|j: int|
            0 <= j < versions.len() && j != best ==> versions[best]->0.newer_than(
                (#[trigger] versions[j])->0,
            ),
{
    let k = choose|k: int|
        0 <= k < versions.len() && (#[trigger] versions[k])->0.newer_than(KernelVersion::zero());
    assert(versions[k] is Some);
    law_parsed_version_beats_fallback(versions);
    let best = selected_index(versions)->0;
    assert forall|j: int| 0 <= j < versions.len() && j != best implies versions[best]->0.newer_than(
        (#[trigger] versions[j])->0,
    ) by {
        assert(versions[j] is Some);
        assert(!versions[j]->0.newer_than(versions[best]->0));
        if j < best {
            assert(versions[j] != versions[best]);
        } else {
            assert(versions[best] != versions[j]);
        }
    }
}

/// Of two candidates that report the same version, the later one is never the
/// one to run: on a tie the earlier candidate is kept.
pub proof fn law_tie_keeps_earlier(versions: Seq<Option<KernelVersion>>, earlier: int, later: int)
    requires
        0 <= earlier < later < versions.len(),
        versions[earlier] is Some,
        versions[earlier] == versions[later],
    ensures
        selected_index(versions) != Some(later),
{
    if selected_index(versions) == Some(later) {
        let chosen = choose|k: int| is_selected(versions, k);
        assert(is_selected(versions, chosen));
        assert(is_latest_parsed(versions, later));
        assert(versions[later]->0.newer_than(versions[earlier]->0));
    }
}

/// A single candidate that reports no version is the one to run.
pub proof fn law_lone_unparsed_candidate_is_kept(versions: Seq<Option<KernelVersion>>)
    requires
        versions.len() == 1,
        versions[0] is None,
    ensures
        selected_index(versions) == Some(0int),
{
    assert(is_fallback(versions, 0));
    lemma_selected_is(versions, 0);
}

/// A candidate that reports a version above `0.0.0` displaces a candidate
/// without a version that was found before it.
pub proof fn law_later_parsed_candidate_wins(versions: Seq<Option<KernelVersion>>)
    requires
        versions.len() == 2,
        versions[0] is None,
        versions[1] is Some,
        versions[1]->0.newer_than(KernelVersion::zero()),
    ensures
        selected_index(versions) == Some(1int),
{
    assert(is_latest_parsed(versions, 1));
    lemma_selected_is(versions, 1);
}

/// A candidate without a version never displaces a candidate that was
/// recorded before it, with a version or without.
pub proof fn law_unparsed_candidate_never_displaces(
    versions: Seq<Option<KernelVersion>>,
    earlier: int,
    later: int,
)
    requires
        0 <= earlier < later < versions.len(),
        versions[later] is None,
        selected_index(versions.take(later)) == Some(earlier),
    ensures
        selected_index(versions) != Some(later),
{
    let before = versions.take(later);
    let chosen = choose|k: int| is_selected(before, k);
    assert(is_selected(before, earlier));
    if selected_index(versions) == Some(later) {
        let picked = choose|k: int| is_selected(versions, k);
        assert(is_selected(versions, later));
        assert(is_fallback(versions, later));
        assert(versions[earlier] is Some);
        assert(before[earlier] == versions[earlier]);
        assert(is_latest_parsed(before, earlier));
        assert(!versions[earlier]->0.newer_than(KernelVersion::zero()));
    }
}

/// The index of the candidate to run.
pub fn select_latest(candidates: &Vec<KernelBinaryCandidate>) -> (best: Option<usize>)
    ensures
        match best {
            Some(i) => selected_index(versions_of(candidates@)) == Some(i as int),
            None => selected_index(versions_of(candidates@)) is None,
        },
{
    let ghost versions = versions_of(candidates@);
    let n = candidates.len();
    let mut max_version = KernelVersion::new(0, 0, 0);
    let mut best: Option<usize> = None;
    let mut i: usize = 0;
    while i < n
        invariant
            n == candidates@.len(),
            i <= n,
            versions == versions_of(candidates@),
            forall|j: int|
                0 <= j < i && (#[trigger] versions[j]) is Some ==> !versions[j]->0.newer_than(
                    max_version,
                ),
            max_version == KernelVersion::zero() ==> match best {
                Some(b) => b < i && versions[b as int] is None && forall|j: int|
                    0 <= j < b ==> (#[trigger] versions[j]) is Some,
                None => forall|j: int| 0 <= j < i ==> (#[trigger] versions[j]) is Some,
            },
            max_version != KernelVersion::zero() ==> match best {
                Some(b) => b < i && versions[b as int] == Some(max_version) && forall|j: int|
                    0 <= j < b && (#[trigger] versions[j]) is Some ==> max_version.newer_than(
                        versions[j]->0,
                    ),
                None => false,
            },
        decreases n - i,
    {
        assert(versions[i as int] == candidates@[i as int].parsed_version);
        match candidates[i].parsed_version {
            Some(v) => {
                if v.is_newer_than(&max_version) {
                    max_version = v;
                    best = Some(i);
                }
            },
            None => {
                if best.is_none() {
                    best = Some(i);
                }
            },
        }
        i = i + 1;
    }
    proof {
        match best {
            Some(b) => {
                if max_version == KernelVersion::zero() {
                    assert(is_fallback(versions, b as int));
                } else {
                    assert(is_latest_parsed(versions, b as int));
                }
                lemma_selected_is(versions, b as int);
            },
            None => {
                assert forall|k: int| !is_selected(versions, k) by {
                    if 0 <= k < versions.len() {
                        assert(versions[k] is Some);
                        assert(!versions[k]->0.newer_than(KernelVersion::zero()));
                    }
                }
            },
        }
    }
    best
}

/// The path of the kernel binary to run, given the binaries found in the
/// scanned directories, in scan order. See [`selected_index`] for the choice.
pub fn find_latest_kernel(candidates: &Vec<KernelBinaryCandidate>) -> (best: Option<String>)
    ensures
        match best {
            Some(path) => selected_index(versions_of(candidates@)) matches Some(i) && 0 <= i
                < candidates@.len() && path@ == candidates@[i].path@,
            None => selected_index(versions_of(candidates@)) is None,
        },
{
    match select_latest(candidates) {
        Some(i) => {
            proof {
                let chosen = choose|k: int| is_selected(versions_of(candidates@), k);
                assert(is_selected(versions_of(candidates@), chosen));
            }
            Some(candidates[i].path.clone())
        },
        None => None,
    }
}

} // verus!
