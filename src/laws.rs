use vstd::prelude::*;
use crate::shard::{digest_hex, join, key_dir, key_file, segment, shard_prefix};
use crate::store::{advance, delete_task, get_task, open_task, put_task, update_task, tmp_file, marker_name, OutcomeModel, ReplyModel, RequestModel, StepModel, StoreError, TaskModel};

verus! {

/// A filesystem as the store sees it: the directories that exist and the
/// contents of each file.
pub struct Disk {
    pub dirs: Set<Seq<char>>,
    pub files: Map<Seq<char>, Seq<char>>,
}

/// How a filesystem without faults answers a request.
pub open spec fn respond(d: Disk, r: RequestModel) -> (Disk, ReplyModel) {
    match r {
        RequestModel::Probe(p) => if d.dirs.contains(p) || d.files.contains_key(p) {
            (d, ReplyModel::Done)
        } else {
            (d, ReplyModel::Failed(StoreError::NotFound))
        },
        RequestModel::MakeDirs(p) => (Disk { dirs: d.dirs.insert(p), ..d }, ReplyModel::Done),
        RequestModel::CreateNew(p, v) => if d.files.contains_key(p) {
            (d, ReplyModel::Failed(StoreError::AlreadyExists))
        } else {
            (Disk { files: d.files.insert(p, v), ..d }, ReplyModel::Done)
        },
        RequestModel::ReadAll(p) => if d.files.contains_key(p) {
            (d, ReplyModel::Contents(d.files[p]))
        } else {
            (d, ReplyModel::Failed(StoreError::NotFound))
        },
        RequestModel::Rename(a, b) => if d.files.contains_key(a) {
            (Disk { files: d.files.remove(a).insert(b, d.files[a]), ..d }, ReplyModel::Done)
        } else {
            (d, ReplyModel::Failed(StoreError::NotFound))
        },
        RequestModel::Remove(p) => if d.files.contains_key(p) {
            (Disk { files: d.files.remove(p), ..d }, ReplyModel::Done)
        } else {
            (d, ReplyModel::Failed(StoreError::NotFound))
        },
    }
}

/// Runs task `t` against `d` for at most `fuel` steps, performing each
/// request as `respond` describes.
pub open spec fn drive(t: TaskModel, reply: ReplyModel, d: Disk, fuel: nat) -> (Disk, OutcomeModel)
    decreases fuel,
{
    if fuel == 0 {
        (d, OutcomeModel::Failed(StoreError::Other))
    } else {
        let (t2, s) = advance(t, reply);
        match s {
            StepModel::Finish(o) => (d, o),
            StepModel::Perform(r) => {
                let (d2, rep) = respond(d, r);
                drive(t2, rep, d2, (fuel - 1) as nat)
            },
        }
    }
}

/// The disk and outcome after running task `t` to its end on `d`.
pub open spec fn run(t: TaskModel, d: Disk) -> (Disk, OutcomeModel) {
    drive(t, ReplyModel::Done, d, 5)
}

/// A key's record directory is the root followed by three slices of four
/// digits of the key's hexadecimal digest, taken in order; it depends on the
/// root and the key alone, so every call and every process finds the same
/// place, and the record file is named by the key.
pub proof fn lemma_key_path_layout(root: Seq<char>, key: Seq<char>)
    ensures
        segment(key, 0) == digest_hex(key).subrange(0, 4),
        segment(key, 1) == digest_hex(key).subrange(4, 8),
        segment(key, 2) == digest_hex(key).subrange(8, 12),
        key_dir(root, key) == join(join(join(root, segment(key, 0)), segment(key, 1)), segment(key, 2)),
        key_file(root, key) == join(key_dir(root, key), key),
{
    reveal_with_fuel(shard_prefix, 4);
}

/// A record exists on `d`.
pub open spec fn present(d: Disk, root: Seq<char>, key: Seq<char>) -> bool {
    d.files.contains_key(key_file(root, key))
}

/// Putting an absent key succeeds, and reading it right after gives the value
/// that was put.
pub proof fn lemma_put_then_get(root: Seq<char>, key: Seq<char>, value: Seq<char>, d: Disk)
    requires
        !present(d, root, key),
    ensures
        run(put_task(root, key, value), d).1 == OutcomeModel::Done,
        run(get_task(root, key), run(put_task(root, key, value), d).0).1 == OutcomeModel::Value(value),
{
    reveal_with_fuel(drive, 4);
}

/// Putting a key that is present fails with `AlreadyExists` and leaves every
/// record as it was, so a read still gives the value first put.
pub proof fn lemma_put_present_fails(root: Seq<char>, key: Seq<char>, value: Seq<char>, d: Disk)
    requires
        present(d, root, key),
    ensures
        run(put_task(root, key, value), d).1 == OutcomeModel::Failed(StoreError::AlreadyExists),
        run(put_task(root, key, value), d).0.files == d.files,
        run(get_task(root, key), run(put_task(root, key, value), d).0).1
            == OutcomeModel::Value(d.files[key_file(root, key)]),
{
    reveal_with_fuel(drive, 4);
}

/// Updating an absent key creates it with the value, whether or not its
/// shard directory exists, provided the temporary file is not there.
pub proof fn lemma_update_absent_creates(
    root: Seq<char>,
    key: Seq<char>,
    value: Seq<char>,
    stamp: nat,
    d: Disk,
)
    requires
        !present(d, root, key),
        !d.files.contains_key(tmp_file(root, key, stamp)),
    ensures
        run(update_task(root, key, value, stamp), d).1 == OutcomeModel::Done,
        run(get_task(root, key), run(update_task(root, key, value, stamp), d).0).1
            == OutcomeModel::Value(value),
{
    reveal_with_fuel(drive, 5);
}

/// Updating a present key replaces its value. The record's file changes in
/// one request only, the final rename: after the value is written to the
/// temporary file the record still holds the old value in full, and after
/// the rename it holds the new one.
pub proof fn lemma_update_present_replaces(
    root: Seq<char>,
    key: Seq<char>,
    value: Seq<char>,
    stamp: nat,
    d: Disk,
)
    requires
        present(d, root, key),
        d.dirs.contains(key_dir(root, key)),
        !d.files.contains_key(tmp_file(root, key, stamp)),
    ensures
        ({
            let t = update_task(root, key, value, stamp);
            let (t1, s1) = advance(t, ReplyModel::Done);
            let (d1, r1) = respond(d, RequestModel::Probe(key_dir(root, key)));
            let (t2, s2) = advance(t1, r1);
            let (d2, r2) = respond(d1, RequestModel::CreateNew(tmp_file(root, key, stamp), value));
            let (t3, s3) = advance(t2, r2);
            let (d3, r3) = respond(d2, RequestModel::Rename(tmp_file(root, key, stamp), key_file(root, key)));
            &&& s1 == StepModel::Perform(RequestModel::Probe(key_dir(root, key)))
            &&& s2 == StepModel::Perform(RequestModel::CreateNew(tmp_file(root, key, stamp), value))
            &&& s3 == StepModel::Perform(RequestModel::Rename(tmp_file(root, key, stamp), key_file(root, key)))
            &&& d1.files[key_file(root, key)] == d.files[key_file(root, key)]
            &&& d2.files[key_file(root, key)] == d.files[key_file(root, key)]
            &&& d3.files[key_file(root, key)] == value
            &&& advance(t3, r3).1 == StepModel::Finish(OutcomeModel::Done)
            &&& run(t, d) == (d3, OutcomeModel::Done)
        }),
        run(get_task(root, key), run(update_task(root, key, value, stamp), d).0).1
            == OutcomeModel::Value(value),
{
    reveal_with_fuel(drive, 5);
}

/// Deleting a present key succeeds and a read after it fails with
/// `NotFound`; deleting an absent key fails with `NotFound` and changes
/// nothing.
pub proof fn lemma_delete(root: Seq<char>, key: Seq<char>, d: Disk)
    ensures
        present(d, root, key) ==> run(delete_task(root, key), d).1 == OutcomeModel::Done,
        present(d, root, key) ==> run(get_task(root, key), run(delete_task(root, key), d).0).1
            == OutcomeModel::Failed(StoreError::NotFound),
        !present(d, root, key) ==> run(delete_task(root, key), d) == (
            d,
            OutcomeModel::Failed(StoreError::NotFound),
        ),
{
    reveal_with_fuel(drive, 3);
}

/// Opening a valid store root (the root and its marker exist) succeeds and
/// changes nothing, so opening it again gives the same result.
pub proof fn lemma_open_existing(root: Seq<char>, d: Disk)
    requires
        d.dirs.contains(root),
        d.dirs.contains(join(root, marker_name())),
    ensures
        run(open_task(root), d) == (d, OutcomeModel::Opened(root)),
        run(open_task(root), run(open_task(root), d).0) == (d, OutcomeModel::Opened(root)),
{
    reveal_with_fuel(drive, 4);
}

} // verus!
