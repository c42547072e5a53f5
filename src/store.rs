//! Writing a cache entry so that no reader ever sees half of it: the text
//! goes to a locked temporary file beside the entry, which is then renamed
//! over the entry.
use vstd::prelude::*;
use crate::entry::{decimal, decimal_string, lemma_decimal_injective, lemma_decimal_nonempty};

verus! {

/// One file-system operation of the store protocol.
#[derive(Debug)]
pub enum StoreOp {
    /// Create (or truncate) this file and take an exclusive lock on it.
    CreateLocked(String),
    /// Write the whole text to the file.
    Write(String, String),
    /// Release the lock on the file.
    Unlock(String),
    /// Rename the first file onto the second, atomically.
    Rename(String, String),
}

/// The mathematical content of an operation.
pub enum OpModel {
    CreateLocked(Seq<char>),
    Write(Seq<char>, Seq<char>),
    Unlock(Seq<char>),
    Rename(Seq<char>, Seq<char>),
}

impl View for StoreOp {
    type V = OpModel;

    open spec fn view(&self) -> OpModel {
        match self {
            StoreOp::CreateLocked(p) => OpModel::CreateLocked(p@),
            StoreOp::Write(p, t) => OpModel::Write(p@, t@),
            StoreOp::Unlock(p) => OpModel::Unlock(p@),
            StoreOp::Rename(a, b) => OpModel::Rename(a@, b@),
        }
    }
}

/// A file system seen as the text each path holds.
pub type Files = Map<Seq<char>, Seq<char>>;

/// The file system after one operation.
pub open spec fn apply_op(fs: Files, op: OpModel) -> Files {
    match op {
        OpModel::CreateLocked(p) => fs.insert(p, Seq::empty()),
        OpModel::Write(p, t) => fs.insert(p, t),
        OpModel::Unlock(_) => fs,
        OpModel::Rename(a, b) => if fs.contains_key(a) {
            fs.remove(a).insert(b, fs[a])
        } else {
            fs
        },
    }
}

/// The file system after a sequence of operations.
pub open spec fn apply_ops(fs: Files, ops: Seq<OpModel>) -> Files
    decreases ops.len(),
{
    if ops.len() == 0 {
        fs
    } else {
        apply_op(apply_ops(fs, ops.drop_last()), ops.last())
    }
}

/// The file system after `op` was cut short: a write may have put down only
/// the first `n` characters of its text; the other operations happen whole
/// or not at all.
pub open spec fn apply_torn(fs: Files, op: OpModel, n: int) -> Files {
    match op {
        OpModel::Write(p, t) => fs.insert(p, t.take(n)),
        _ => fs,
    }
}

/// The temporary file that writer `writer` uses while storing the entry at
/// `path`; each writer has its own.
pub open spec fn temp_path_of(path: Seq<char>, writer: u64) -> Seq<char> {
    path + ".new."@ + decimal(writer as nat)
}

/// The protocol that stores `text` at `path` through the temporary file `tmp`.
pub open spec fn store_ops_spec(path: Seq<char>, tmp: Seq<char>, text: Seq<char>) -> Seq<OpModel> {
    seq![
        OpModel::CreateLocked(tmp),
        OpModel::Write(tmp, text),
        OpModel::Unlock(tmp),
        OpModel::Rename(tmp, path),
    ]
}

/// The temporary file name for writer `writer` of the entry at `path`.
pub fn temp_path(path: &str, writer: u64) -> (r: String)
    ensures
        r@ == temp_path_of(path@, writer),
{
    String::from_str(path).concat(".new.").concat(decimal_string(writer).as_str())
}

/// The operations, in order, by which writer `writer` (a process id, say)
/// stores `text` as the entry at `path`.
pub fn store_ops(path: &str, writer: u64, text: &str) -> (r: Vec<StoreOp>)
    ensures
        r@.map_values(|o: StoreOp| o@) == store_ops_spec(
            path@,
            temp_path_of(path@, writer),
            text@,
        ),
{
    let mut ops: Vec<StoreOp> = Vec::new();
    ops.push(StoreOp::CreateLocked(temp_path(path, writer)));
    ops.push(StoreOp::Write(temp_path(path, writer), String::from_str(text)));
    ops.push(StoreOp::Unlock(temp_path(path, writer)));
    ops.push(StoreOp::Rename(temp_path(path, writer), String::from_str(path)));
    proof {
        assert(ops@.map_values(|o: StoreOp| o@) =~= store_ops_spec(
            path@,
            temp_path_of(path@, writer),
            text@,
        ));
    }
    ops
}

/// Different writers use different temporary files, none of them the entry.
pub proof fn lemma_temp_paths_distinct(path: Seq<char>, w1: u64, w2: u64)
    ensures
        temp_path_of(path, w1) != path,
        w1 != w2 ==> temp_path_of(path, w1) != temp_path_of(path, w2),
{
    reveal_strlit(".new.");
    lemma_decimal_nonempty(w1 as nat);
    assert(temp_path_of(path, w1).len() > path.len());
    if w1 != w2 && temp_path_of(path, w1) == temp_path_of(path, w2) {
        let p = path + ".new."@;
        assert(temp_path_of(path, w1).len() == p.len() + decimal(w1 as nat).len());
        assert(decimal(w1 as nat) =~= temp_path_of(path, w1).skip(p.len() as int));
        assert(decimal(w2 as nat) =~= temp_path_of(path, w2).skip(p.len() as int));
        lemma_decimal_injective(w1 as nat, w2 as nat);
    }
}

/// What `fs` holds at `path`, if anything.
pub open spec fn content_at(fs: Files, path: Seq<char>) -> Option<Seq<char>> {
    if fs.contains_key(path) {
        Some(fs[path])
    } else {
        None
    }
}

/// However early a store is cut short, the entry's path holds either what
/// it held before (or nothing, as before) or the whole new text; once the
/// protocol completes it holds the new text.
pub proof fn lemma_store_never_torn(
    fs: Files,
    path: Seq<char>,
    tmp: Seq<char>,
    text: Seq<char>,
    k: int,
)
    requires
        tmp != path,
        0 <= k <= 4,
    ensures
        content_at(apply_ops(fs, store_ops_spec(path, tmp, text).take(k)), path) == content_at(
            fs,
            path,
        ) || content_at(apply_ops(fs, store_ops_spec(path, tmp, text).take(k)), path) == Some(
            text,
        ),
        content_at(apply_ops(fs, store_ops_spec(path, tmp, text)), path) == Some(text),
{
    let ops = store_ops_spec(path, tmp, text);
    assert(ops.take(0).len() == 0);
    assert(ops.take(1).drop_last() =~= ops.take(0));
    assert(ops.take(2).drop_last() =~= ops.take(1));
    assert(ops.take(3).drop_last() =~= ops.take(2));
    assert(ops.take(4).drop_last() =~= ops.take(3));
    assert(ops.take(4) =~= ops);
    assert(apply_ops(fs, ops.take(0)) == fs);
    assert(ops.take(1).last() == ops[0]);
    assert(ops.take(2).last() == ops[1]);
    assert(ops.take(3).last() == ops[2]);
    assert(ops.take(4).last() == ops[3]);
    let f1 = apply_ops(fs, ops.take(1));
    let f2 = apply_ops(fs, ops.take(2));
    let f3 = apply_ops(fs, ops.take(3));
    let f4 = apply_ops(fs, ops.take(4));
    assert(f1 == fs.insert(tmp, Seq::empty()));
    assert(f2 == f1.insert(tmp, text));
    assert(f3 == f2);
    assert(f2.contains_key(tmp) && f2[tmp] == text);
    assert(f4 == f3.remove(tmp).insert(path, text));
}

/// A crash in the middle of any operation of a store, a half-finished write
/// included, leaves the entry's path as it was: a torn text only ever
/// reaches the temporary file.
pub proof fn lemma_torn_write_invisible(
    fs: Files,
    path: Seq<char>,
    tmp: Seq<char>,
    text: Seq<char>,
    k: int,
    n: int,
)
    requires
        tmp != path,
        0 <= k < 4,
        0 <= n <= text.len(),
    ensures
        content_at(
            apply_torn(
                apply_ops(fs, store_ops_spec(path, tmp, text).take(k)),
                store_ops_spec(path, tmp, text)[k],
                n,
            ),
            path,
        ) == content_at(apply_ops(fs, store_ops_spec(path, tmp, text).take(k)), path),
{
}

/// Two stores run side by side, their operations interleaved as `turns`
/// says (`true`: the first writer moves, `false`: the second). Gives the file
/// system and how many operations of each have run.
pub open spec fn interleaved(
    fs: Files,
    a: Seq<OpModel>,
    b: Seq<OpModel>,
    turns: Seq<bool>,
) -> (Files, int, int)
    decreases turns.len(),
{
    if turns.len() == 0 {
        (fs, 0, 0)
    } else {
        let (f, i, j) = interleaved(fs, a, b, turns.drop_last());
        if turns.last() && 0 <= i < a.len() {
            (apply_op(f, a[i]), i + 1, j)
        } else if !turns.last() && 0 <= j < b.len() {
            (apply_op(f, b[j]), i, j + 1)
        } else {
            (f, i, j)
        }
    }
}

/// Two writers storing the same entry at once, each through its own
/// temporary file, however their operations interleave and wherever both
/// stop: the entry holds what it held before, or one writer's whole text;
/// once either has renamed, it holds one of the two texts whole.
pub proof fn lemma_concurrent_stores_whole(
    fs: Files,
    path: Seq<char>,
    tmp_a: Seq<char>,
    text_a: Seq<char>,
    tmp_b: Seq<char>,
    text_b: Seq<char>,
    turns: Seq<bool>,
)
    requires
        tmp_a != path,
        tmp_b != path,
        tmp_a != tmp_b,
    ensures
        ({
            let (f, i, j) = interleaved(
                fs,
                store_ops_spec(path, tmp_a, text_a),
                store_ops_spec(path, tmp_b, text_b),
                turns,
            );
            &&& content_at(f, path) == content_at(fs, path) || content_at(f, path) == Some(text_a)
                || content_at(f, path) == Some(text_b)
            &&& (i == 4 || j == 4) ==> (content_at(f, path) == Some(text_a) || content_at(f, path)
                == Some(text_b))
        }),
    decreases turns.len(),
{
    lemma_interleaved_inv(fs, path, tmp_a, text_a, tmp_b, text_b, turns);
}

proof fn lemma_interleaved_inv(
    fs: Files,
    path: Seq<char>,
    tmp_a: Seq<char>,
    text_a: Seq<char>,
    tmp_b: Seq<char>,
    text_b: Seq<char>,
    turns: Seq<bool>,
)
    requires
        tmp_a != path,
        tmp_b != path,
        tmp_a != tmp_b,
    ensures
        ({
            let (f, i, j) = interleaved(
                fs,
                store_ops_spec(path, tmp_a, text_a),
                store_ops_spec(path, tmp_b, text_b),
                turns,
            );
            &&& 0 <= i <= 4 && 0 <= j <= 4
            &&& content_at(f, path) == content_at(fs, path) || content_at(f, path) == Some(text_a)
                || content_at(f, path) == Some(text_b)
            &&& (i == 4 || j == 4) ==> (content_at(f, path) == Some(text_a) || content_at(f, path)
                == Some(text_b))
            &&& (2 <= i < 4) ==> content_at(f, tmp_a) == Some(text_a)
            &&& (2 <= j < 4) ==> content_at(f, tmp_b) == Some(text_b)
        }),
    decreases turns.len(),
{
    if turns.len() > 0 {
        lemma_interleaved_inv(fs, path, tmp_a, text_a, tmp_b, text_b, turns.drop_last());
    }
}

} // verus!
