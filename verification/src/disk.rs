//! What the steps of a run leave on disk, on a model of the file system.
//!
//! The model holds the files with their bytes and the directories, and
//! says what a step that succeeds does to them. On it, bundling is shown
//! to be re-runnable: doing the steps of a run a second time changes
//! nothing.

use vstd::prelude::*;
use vstd::utf8::encode_utf8;
use crate::assembler::{steps_of, work_for, StepView};
use crate::interface::PluginInterface;
use crate::layout::{artifact_location, bundle_home, profile_dir, target_root};
use crate::plan::{macos_descriptors, planned};
use crate::target::CompilationTarget;
use crate::text::begins_with;

verus! {

/// A file system: the files by their paths, and the directories.
pub struct Disk {
    pub files: Map<Seq<char>, Seq<u8>>,
    pub dirs: Set<Seq<char>>,
}

/// The directories that exist once `path` is created with its parents:
/// `path` itself and each part of it that ends before a `/`.
pub open spec fn dirs_made(path: Seq<char>) -> Set<Seq<char>> {
    Set::new(
        |d: Seq<char>|
            exists|k: int|
                0 < k <= path.len() && d == #[trigger] path.subrange(0, k) && (k == path.len()
                    || path[k] == '/'),
    )
}

/// The file that a step writes, if it writes one.
pub open spec fn file_written(step: StepView) -> Option<Seq<char>> {
    match step {
        StepView::CreateDirs { path } => None,
        StepView::Place { from, to } => Some(to),
        StepView::Write { path, contents } => Some(path),
    }
}

/// The file that a step copies, if it copies one.
pub open spec fn file_placed(step: StepView) -> Option<Seq<char>> {
    match step {
        StepView::Place { from, to } => Some(from),
        _ => None,
    }
}

/// The disk after `step` succeeded. Creating directories leaves those that
/// exist as they are; placing and writing replace what the destination
/// held, and a text is written in UTF-8.
pub open spec fn perform(disk: Disk, step: StepView) -> Disk {
    match step {
        StepView::CreateDirs { path } => Disk {
            files: disk.files,
            dirs: disk.dirs.union(dirs_made(path)),
        },
        StepView::Place { from, to } => if disk.files.dom().contains(from) {
            Disk { files: disk.files.insert(to, disk.files[from]), dirs: disk.dirs }
        } else {
            disk
        },
        StepView::Write { path, contents } => Disk {
            files: disk.files.insert(path, encode_utf8(contents)),
            dirs: disk.dirs,
        },
    }
}

/// The disk after the first `n` steps of `work` succeeded, one after the
/// other.
pub open spec fn perform_all(disk: Disk, work: Seq<StepView>, n: int) -> Disk
    decreases n,
{
    if n <= 0 {
        disk
    } else {
        perform(perform_all(disk, work, n - 1), work[n - 1])
    }
}

/// Whether one of the first `n` steps of `work` writes the file `p`.
pub open spec fn written_before(work: Seq<StepView>, n: int, p: Seq<char>) -> bool
    decreases n,
{
    n > 0 && (file_written(work[n - 1]) == Some(p) || written_before(work, n - 1, p))
}

/// Whether no step of `work` writes a file that a step of `work` copies.
pub open spec fn sources_kept(work: Seq<StepView>) -> bool {
    forall|i: int|
        0 <= i < work.len() && file_placed(#[trigger] work[i]) is Some ==> !written_before(
            work,
            work.len() as int,
            file_placed(work[i])->0,
        )
}

/// Whether every file that a step of `work` copies is on `disk`.
pub open spec fn sources_exist(disk: Disk, work: Seq<StepView>) -> bool {
    forall|i: int|
        0 <= i < work.len() && file_placed(#[trigger] work[i]) is Some
            ==> disk.files.dom().contains(file_placed(work[i])->0)
}

/// Whether two disks agree on the file `p`: both hold it with the same
/// bytes, or neither holds it.
pub open spec fn same_file(a: Disk, b: Disk, p: Seq<char>) -> bool {
    &&& a.files.dom().contains(p) == b.files.dom().contains(p)
    &&& a.files.dom().contains(p) ==> a.files[p] == b.files[p]
}

/// A file written by none of the first steps is written by none of fewer.
proof fn lemma_written_grows(work: Seq<StepView>, m: int, n: int, p: Seq<char>)
    requires
        m <= n,
        !written_before(work, n, p),
    ensures
        !written_before(work, m, p),
    decreases n - m,
{
    if m < n {
        lemma_written_grows(work, m, n - 1, p);
    }
}

/// A file that no step writes is left as it was.
pub proof fn lemma_unwritten_kept(disk: Disk, work: Seq<StepView>, n: int, p: Seq<char>)
    requires
        !written_before(work, n, p),
    ensures
        same_file(perform_all(disk, work, n), disk, p),
    decreases n,
{
    if n > 0 {
        lemma_unwritten_kept(disk, work, n - 1, p);
    }
}

/// Directories are never removed, and those of a step stay.
proof fn lemma_dirs_grow(disk: Disk, work: Seq<StepView>, m: int, n: int)
    requires
        0 <= m <= n,
    ensures
        perform_all(disk, work, m).dirs.subset_of(perform_all(disk, work, n).dirs),
    decreases n - m,
{
    if m < n {
        lemma_dirs_grow(disk, work, m, n - 1);
    }
}

/// How the second run stands after `n` steps, file by file: a file that
/// one of those steps wrote is as the first run had it after `n` steps;
/// any other file is as the first run left it in the end.
spec fn rerun_agrees(
    again: Disk,
    first: Disk,
    end: Disk,
    work: Seq<StepView>,
    n: int,
    p: Seq<char>,
) -> bool {
    if written_before(work, n, p) {
        same_file(again, first, p)
    } else {
        same_file(again, end, p)
    }
}

/// The second run, step by step.
proof fn lemma_rerun(disk: Disk, work: Seq<StepView>, n: int)
    requires
        0 <= n <= work.len(),
        sources_kept(work),
        sources_exist(disk, work),
    ensures
        perform_all(perform_all(disk, work, work.len() as int), work, n).dirs == perform_all(
            disk,
            work,
            work.len() as int,
        ).dirs,
        forall|p: Seq<char>| #[trigger]
            rerun_agrees(
                perform_all(perform_all(disk, work, work.len() as int), work, n),
                perform_all(disk, work, n),
                perform_all(disk, work, work.len() as int),
                work,
                n,
                p,
            ),
    decreases n,
{
    let len = work.len() as int;
    let end = perform_all(disk, work, len);
    if n > 0 {
        lemma_rerun(disk, work, n - 1);
        let step = work[n - 1];
        let again_before = perform_all(end, work, n - 1);
        let first_before = perform_all(disk, work, n - 1);
        let again = perform_all(end, work, n);
        let first = perform_all(disk, work, n);
        assert(again == perform(again_before, step));
        assert(first == perform(first_before, step));
        lemma_dirs_grow(disk, work, n, len);
        assert(first.dirs.subset_of(end.dirs));
        assert(again.dirs =~= end.dirs);
        match step {
            StepView::Place { from, to } => {
                assert(file_placed(work[n - 1]) == Some(from));
                assert(!written_before(work, len, from));
                assert(disk.files.dom().contains(from));
                lemma_written_grows(work, n - 1, len, from);
                lemma_unwritten_kept(disk, work, len, from);
                lemma_unwritten_kept(disk, work, n - 1, from);
                assert(rerun_agrees(again_before, first_before, end, work, n - 1, from));
                assert(again_before.files.dom().contains(from));
                assert(first_before.files.dom().contains(from));
                assert(again_before.files[from] == first_before.files[from]);
            },
            _ => {},
        }
        assert forall|p: Seq<char>| #[trigger]
            rerun_agrees(again, first, end, work, n, p) by {
            assert(rerun_agrees(again_before, first_before, end, work, n - 1, p));
        }
    } else {
        assert forall|p: Seq<char>| #[trigger]
            rerun_agrees(end, disk, end, work, 0, p) by {}
    }
}

/// Doing the steps of `work` a second time changes nothing, provided that
/// the files it copies exist and that it writes none of them.
pub proof fn lemma_steps_rerunnable(disk: Disk, work: Seq<StepView>)
    requires
        sources_kept(work),
        sources_exist(disk, work),
    ensures
        perform_all(perform_all(disk, work, work.len() as int), work, work.len() as int)
            == perform_all(disk, work, work.len() as int),
{
    let len = work.len() as int;
    let end = perform_all(disk, work, len);
    let again = perform_all(end, work, len);
    lemma_rerun(disk, work, len);
    assert forall|p: Seq<char>| same_file(again, end, p) by {
        assert(rerun_agrees(again, end, end, work, len, p));
    }
    assert forall|p: Seq<char>| #[trigger]
        again.files.dom().contains(p) == end.files.dom().contains(p) && (
        again.files.dom().contains(p) ==> again.files[p] == end.files[p]) by {
        assert(same_file(again, end, p));
    }
    assert(again.files =~= end.files);
}

/// Whether `p` lies under the bundle home.
pub open spec fn in_bundle_home(p: Seq<char>) -> bool {
    begins_with(p, bundle_home() + "/"@)
}

/// The build leaves its library outside the bundle home.
pub proof fn lemma_artifact_outside_bundle_home(
    package: Seq<char>,
    target: CompilationTarget,
    release: bool,
    triple: Option<Seq<char>>,
)
    requires
        artifact_location(package, target, release, triple) is Some,
    ensures
        !in_bundle_home(artifact_location(package, target, release, triple)->0),
{
    reveal_strlit("target/bundled");
    reveal_strlit("target");
    reveal_strlit("target/");
    reveal_strlit("/");
    reveal_strlit("debug");
    reveal_strlit("release");
    reveal_strlit("x86_64-unknown-linux-gnu");
    reveal_strlit("x86_64-apple-darwin");
    reveal_strlit("x86_64-pc-windows-gnu");
    let artifact = artifact_location(package, target, release, triple)->0;
    let home = bundle_home() + "/"@;
    assert(home.len() == 15);
    assert(home[7] == 'b');
    let root = target_root(triple)->0;
    assert(root.len() >= 6);
    if in_bundle_home(artifact) {
        assert(artifact.subrange(0, 15)[7] == 'b');
        assert(artifact[7] == 'b');
        match triple {
            None => {
                assert(root =~= "target"@);
                assert(artifact[7] == profile_dir(release)[0]);
            },
            Some(t) => {
                assert(root.len() > 7);
                assert(artifact[7] == root[7]);
                assert(root[7] == t[0]);
            },
        }
    }
}

/// Every file that the steps of a plan write lies under the bundle home,
/// and the one file they copy is the library.
proof fn lemma_plan_writes_into_home(
    name: Seq<char>,
    interface: PluginInterface,
    target: CompilationTarget,
    artifact: Seq<char>,
    k: int,
)
    requires
        0 <= k < steps_of(planned(name, interface, target), artifact).len(),
    ensures
        ({
            let step = steps_of(planned(name, interface, target), artifact)[k];
            &&& file_written(step) matches Some(p) ==> in_bundle_home(p)
            &&& file_placed(step) matches Some(f) ==> f == artifact
        }),
{
    let plan = planned(name, interface, target);
    let step = steps_of(plan, artifact)[k];
    let home = bundle_home() + "/"@;
    if k == 1 {
        assert(plan.library_path.subrange(0, home.len() as int) =~= home);
    } else if k >= 2 {
        let file = macos_descriptors(name, target)[k - 2];
        assert(file_written(step) == Some(file.path));
        assert(file.path.subrange(0, home.len() as int) =~= home);
    }
}

/// The same of all the steps of a run.
proof fn lemma_work_writes_into_home(
    found: Seq<PluginInterface>,
    n: int,
    name: Seq<char>,
    target: CompilationTarget,
    artifact: Seq<char>,
    k: int,
)
    requires
        0 <= n <= found.len(),
        0 <= k < work_for(found, n, name, target, artifact).len(),
    ensures
        ({
            let step = work_for(found, n, name, target, artifact)[k];
            &&& file_written(step) matches Some(p) ==> in_bundle_home(p)
            &&& file_placed(step) matches Some(f) ==> f == artifact
        }),
    decreases n,
{
    if n > 0 {
        let before = work_for(found, n - 1, name, target, artifact);
        if k < before.len() {
            lemma_work_writes_into_home(found, n - 1, name, target, artifact, k);
        } else {
            lemma_plan_writes_into_home(name, found[n - 1], target, artifact, k - before.len());
        }
    }
}

/// A file outside the bundle home is written by no step of a run.
proof fn lemma_outside_is_unwritten(work: Seq<StepView>, n: int, p: Seq<char>)
    requires
        0 <= n <= work.len(),
        !in_bundle_home(p),
        forall|k: int|
            0 <= k < work.len() && file_written(#[trigger] work[k]) is Some ==> in_bundle_home(
                file_written(work[k])->0,
            ),
    ensures
        !written_before(work, n, p),
    decreases n,
{
    if n > 0 {
        lemma_outside_is_unwritten(work, n - 1, p);
        assert(file_written(work[n - 1]) is Some ==> in_bundle_home(
            file_written(work[n - 1])->0,
        ));
    }
}

/// Bundling is re-runnable. Where the library is where the build leaves
/// it, the steps that make its bundles leave the library itself as it was,
/// so that it is classified as before; and doing them a second time
/// leaves every file and every directory as the first time left it.
pub proof fn lemma_rebundling_changes_nothing(
    disk: Disk,
    package: Seq<char>,
    name: Seq<char>,
    target: CompilationTarget,
    release: bool,
    triple: Option<Seq<char>>,
    found: Seq<PluginInterface>,
)
    requires
        artifact_location(package, target, release, triple) is Some,
        disk.files.dom().contains(artifact_location(package, target, release, triple)->0),
    ensures
        ({
            let artifact = artifact_location(package, target, release, triple)->0;
            let work = work_for(found, found.len() as int, name, target, artifact);
            let once = perform_all(disk, work, work.len() as int);
            &&& same_file(once, disk, artifact)
            &&& perform_all(once, work, work.len() as int) == once
        }),
{
    let artifact = artifact_location(package, target, release, triple)->0;
    let work = work_for(found, found.len() as int, name, target, artifact);
    let len = work.len() as int;
    lemma_artifact_outside_bundle_home(package, target, release, triple);
    assert forall|k: int|
        0 <= k < work.len() && file_written(#[trigger] work[k]) is Some implies in_bundle_home(
        file_written(work[k])->0,
    ) by {
        lemma_work_writes_into_home(found, found.len() as int, name, target, artifact, k);
    }
    lemma_outside_is_unwritten(work, len, artifact);
    assert forall|i: int|
        0 <= i < work.len() && file_placed(#[trigger] work[i]) is Some implies file_placed(
        work[i],
    )->0 == artifact by {
        lemma_work_writes_into_home(found, found.len() as int, name, target, artifact, i);
    }
    assert(sources_kept(work));
    assert(sources_exist(disk, work));
    lemma_unwritten_kept(disk, work, len, artifact);
    lemma_steps_rerunnable(disk, work);
}

} // verus!
