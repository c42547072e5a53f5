//! The launch decisions: splitting the command line, the clean step, and
//! whether the cached executable can be run or the script must be rebuilt.
use vstd::prelude::*;
use crate::entry::{CacheEntry, EntryModel};

verus! {

/// Whether a command-line word is an option: its first byte is `-`.
pub open spec fn is_option_word(s: Seq<char>) -> bool {
    let b = vstd::utf8::encode_utf8(s);
    b.len() > 0 && b[0] == 45u8
}

/// Index of the script path among `args`, searching from `i`: the first word
/// that is not an option, or the word after the first `--` (none if `--` is
/// last).
pub open spec fn script_index_from(args: Seq<Seq<char>>, i: int) -> Option<int>
    decreases args.len() - i,
{
    if i < 0 || i >= args.len() {
        None
    } else if args[i] == "--"@ {
        if i + 1 < args.len() {
            Some(i + 1)
        } else {
            None
        }
    } else if !is_option_word(args[i]) {
        Some(i)
    } else {
        script_index_from(args, i + 1)
    }
}

/// Index of the script path in the full command line (program name first).
pub open spec fn script_index(args: Seq<Seq<char>>) -> Option<int> {
    script_index_from(args, 1)
}

/// Finds the script path in the full command line; see `script_index`.
pub fn find_script_index(args: &Vec<String>) -> (r: Option<usize>)
    ensures
        match r {
            Some(i) => i < args@.len() && script_index(args@.map_values(|s: String| s@)) == Some(
                i as int,
            ),
            None => script_index(args@.map_values(|s: String| s@)) is None,
        },
{
    let ghost words = args@.map_values(|s: String| s@);
    let dashes = String::from_str("--");
    proof {
        reveal_strlit("--");
    }
    let mut i: usize = 1;
    while i < args.len()
        invariant
            1 <= i,
            words == args@.map_values(|s: String| s@),
            dashes@ == "--"@,
            script_index(words) == script_index_from(words, i as int),
        decreases args@.len() - i,
    {
        let word = &args[i];
        if *word == dashes {
            if i + 1 < args.len() {
                return Some(i + 1);
            } else {
                return None;
            }
        }
        let bytes = word.as_str().as_bytes();
        if bytes.len() == 0 || bytes[0] != 45u8 {
            return Some(i);
        }
        i = i + 1;
    }
    None
}

/// Splits the full command line into the launcher's own part (up to and
/// including the script path) and the words passed through to the script.
/// Without a script path everything is the launcher's.
pub fn split_args(args: &Vec<String>) -> (r: (Vec<String>, Vec<String>))
    ensures
        match script_index(args@.map_values(|s: String| s@)) {
            Some(i) => r.0@ == args@.take(i + 1) && r.1@ == args@.skip(i + 1),
            None => r.0@ == args@ && r.1@.len() == 0,
        },
{
    let found = find_script_index(args);
    let mut own: Vec<String> = Vec::new();
    let mut rest: Vec<String> = Vec::new();
    let n: usize = args.len();
    let cut: usize = match found {
        Some(i) => {
            assert(i < n);
            i + 1
        },
        None => args.len(),
    };
    let mut j: usize = 0;
    while j < args.len()
        invariant
            cut <= args@.len(),
            j <= args@.len(),
            j <= cut ==> own@ == args@.take(j as int) && rest@.len() == 0,
            j > cut ==> own@ == args@.take(cut as int) && rest@ == args@.subrange(
                cut as int,
                j as int,
            ),
        decreases args@.len() - j,
    {
        if j < cut {
            own.push(args[j].clone());
            proof {
                assert(args@.take(j as int + 1) =~= args@.take(j as int).push(args@[j as int]));
            }
        } else {
            rest.push(args[j].clone());
            proof {
                assert(args@.subrange(cut as int, j as int + 1) =~= args@.subrange(
                    cut as int,
                    j as int,
                ).push(args@[j as int]));
            }
        }
        j = j + 1;
    }
    proof {
        assert(args@.take(args@.len() as int) =~= args@);
        assert(args@.subrange(cut as int, args@.len() as int) =~= args@.skip(cut as int));
        if cut == args@.len() {
            assert(args@.skip(cut as int) =~= Seq::<String>::empty());
        }
    }
    (own, rest)
}

/// The launcher's settings, as given on its command line.
#[derive(Debug, Clone, Copy)]
pub struct Options {
    /// Build optimised (the default) rather than a debug build.
    pub release: bool,
    /// Trace each decision on standard error.
    pub verbose: bool,
    /// Rebuild whatever the cache says.
    pub force: bool,
    /// Drop the cache entry before deciding.
    pub clean: bool,
    /// Drop the cache entry, then stop.
    pub clean_only: bool,
    /// Skip the modification-time shortcut and always compare digests.
    pub hash_only: bool,
}

/// What to do with the cache entry before anything else.
#[derive(Debug, Clone, Copy)]
pub struct CleanPlan {
    /// Delete the entry file; a missing file is no error.
    pub remove_entry: bool,
    /// Stop there, successfully, without building or running.
    pub finish: bool,
}

pub fn clean_plan(opts: &Options) -> (r: CleanPlan)
    ensures
        r == clean_plan_spec(*opts),
{
    CleanPlan { remove_entry: opts.clean || opts.clean_only, finish: opts.clean_only }
}

/// The next step of the cache check.
#[derive(Debug)]
pub enum Next {
    /// Run the cached executable at this path.
    Launch(String),
    /// Read the script's modification time and check the cached executable exists.
    CheckMtime,
    /// Hash the script's content and check the cached executable exists.
    CheckHash,
    /// Build the script, fingerprint it afresh and store a new entry.
    Rebuild,
}

/// The mathematical content of a step; `Finish` is the clean-only stop.
pub enum Step {
    Finish,
    Launch(Seq<char>),
    CheckMtime,
    CheckHash,
    Rebuild,
}

impl View for Next {
    type V = Step;

    open spec fn view(&self) -> Step {
        match self {
            Next::Launch(p) => Step::Launch(p@),
            Next::CheckMtime => Step::CheckMtime,
            Next::CheckHash => Step::CheckHash,
            Next::Rebuild => Step::Rebuild,
        }
    }
}

/// The step after the cache lookup.
pub open spec fn after_lookup_spec(force: bool, hash_only: bool, entry: Option<EntryModel>) -> Step {
    if force || entry is None {
        Step::Rebuild
    } else if hash_only {
        Step::CheckHash
    } else {
        Step::CheckMtime
    }
}

/// The step after reading the modification time: the cheap hit needs an
/// unchanged time and an executable still on disk.
pub open spec fn after_mtime_spec(e: EntryModel, mtime: u64, artifact_exists: bool) -> Step {
    if e.mtime == mtime && artifact_exists {
        Step::Launch(e.artifact)
    } else {
        Step::CheckHash
    }
}

/// The step after hashing: the digest decides.
pub open spec fn after_hash_spec(e: EntryModel, hash: Seq<char>, artifact_exists: bool) -> Step {
    if e.hash == hash && artifact_exists {
        Step::Launch(e.artifact)
    } else {
        Step::Rebuild
    }
}

/// Where one whole run ends, for a script whose current modification time is
/// `mtime` and digest `hash`, with `entry` in the cache and the cached
/// executable present on disk or not: `Finish`, `Launch` or `Rebuild`.
pub open spec fn run_outcome(
    opts: Options,
    entry: Option<EntryModel>,
    mtime: u64,
    hash: Seq<char>,
    artifact_exists: bool,
) -> Step {
    if opts.clean_only {
        Step::Finish
    } else {
        let entry = if opts.clean {
            None
        } else {
            entry
        };
        match after_lookup_spec(opts.force, opts.hash_only, entry) {
            Step::CheckMtime => match after_mtime_spec(entry.unwrap(), mtime, artifact_exists) {
                Step::CheckHash => after_hash_spec(entry.unwrap(), hash, artifact_exists),
                s => s,
            },
            Step::CheckHash => after_hash_spec(entry.unwrap(), hash, artifact_exists),
            s => s,
        }
    }
}

/// The entry remembered after a rebuild: both fields of the fresh
/// fingerprint and the new executable.
pub open spec fn rebuilt_entry(mtime: u64, hash: Seq<char>, artifact: Seq<char>) -> EntryModel {
    EntryModel { mtime, hash, artifact }
}

/// The entry option seen through its model.
pub open spec fn entry_view(entry: &Option<CacheEntry>) -> Option<EntryModel> {
    match entry {
        Some(e) => Some(e@),
        None => None,
    }
}

/// Decides after the cache lookup; `entry` is `None` on a miss, including
/// an entry that could not be read.
pub fn after_lookup(opts: &Options, entry: &Option<CacheEntry>) -> (r: Next)
    ensures
        r@ == after_lookup_spec(opts.force, opts.hash_only, entry_view(entry)),
{
    if opts.force {
        Next::Rebuild
    } else {
        match entry {
            None => Next::Rebuild,
            Some(_) => if opts.hash_only {
                Next::CheckHash
            } else {
                Next::CheckMtime
            },
        }
    }
}

/// Decides from the script's current modification time.
pub fn after_mtime(entry: &CacheEntry, mtime: u64, artifact_exists: bool) -> (r: Next)
    ensures
        r@ == after_mtime_spec(entry@, mtime, artifact_exists),
{
    if entry.fingerprint.mtime == mtime && artifact_exists {
        Next::Launch(entry.artifact.clone())
    } else {
        Next::CheckHash
    }
}

/// Decides from the script's current digest.
pub fn after_hash(entry: &CacheEntry, hash: &String, artifact_exists: bool) -> (r: Next)
    ensures
        r@ == after_hash_spec(entry@, hash@, artifact_exists),
{
    if entry.fingerprint.hash == *hash && artifact_exists {
        Next::Launch(entry.artifact.clone())
    } else {
        Next::Rebuild
    }
}

/// Whether the cache lets a run skip the build: the entry survives the
/// clean step, no rebuild is forced, the cached executable is on disk, and
/// either the modification time (outside hash-only mode) or the digest is
/// unchanged.
pub open spec fn cache_valid(
    opts: Options,
    entry: Option<EntryModel>,
    mtime: u64,
    hash: Seq<char>,
    artifact_exists: bool,
) -> bool {
    &&& !opts.clean
    &&& !opts.force
    &&& entry is Some
    &&& artifact_exists
    &&& ((!opts.hash_only && entry.unwrap().mtime == mtime) || entry.unwrap().hash == hash)
}

/// Apart from clean-only, a run launches the cached executable exactly when
/// the cache is valid, and rebuilds otherwise.
pub proof fn lemma_launch_iff_cache_valid(
    opts: Options,
    entry: Option<EntryModel>,
    mtime: u64,
    hash: Seq<char>,
    artifact_exists: bool,
)
    requires
        !opts.clean_only,
    ensures
        run_outcome(opts, entry, mtime, hash, artifact_exists) == if cache_valid(
            opts,
            entry,
            mtime,
            hash,
            artifact_exists,
        ) {
            Step::Launch(entry.unwrap().artifact)
        } else {
            Step::Rebuild
        },
{
}

/// A run with no cache entry builds; the entry it stores then makes a second
/// run on the unchanged script launch the same executable without building.
/// Outside hash-only mode that second run does not even hash the script.
pub proof fn lemma_second_run_hits(
    opts: Options,
    mtime: u64,
    hash: Seq<char>,
    artifact: Seq<char>,
)
    requires
        !opts.force,
        !opts.clean,
        !opts.clean_only,
    ensures
        run_outcome(opts, None, mtime, hash, true) == Step::Rebuild,
        run_outcome(opts, Some(rebuilt_entry(mtime, hash, artifact)), mtime, hash, true)
            == Step::Launch(artifact),
        !opts.hash_only ==> after_lookup_spec(
            opts.force,
            opts.hash_only,
            Some(rebuilt_entry(mtime, hash, artifact)),
        ) == Step::CheckMtime && after_mtime_spec(rebuilt_entry(mtime, hash, artifact), mtime, true)
            == Step::Launch(artifact),
{
}

/// A content change is caught once the digest is compared: in hash-only
/// mode on the next run, otherwise as soon as the modification time differs
/// too. Either way the run rebuilds.
pub proof fn lemma_changed_content_rebuilds(
    opts: Options,
    entry: EntryModel,
    mtime: u64,
    hash: Seq<char>,
    artifact_exists: bool,
)
    requires
        !opts.clean_only,
        entry.hash != hash,
        opts.hash_only || entry.mtime != mtime,
    ensures
        run_outcome(opts, Some(entry), mtime, hash, artifact_exists) == Step::Rebuild,
{
}

/// Clean-only stops successfully whether or not there is an entry, and never
/// builds.
pub proof fn lemma_clean_only_finishes(
    opts: Options,
    entry: Option<EntryModel>,
    mtime: u64,
    hash: Seq<char>,
    artifact_exists: bool,
)
    requires
        opts.clean_only,
    ensures
        run_outcome(opts, entry, mtime, hash, artifact_exists) == Step::Finish,
        clean_plan_spec(opts).finish,
{
}

/// The clean plan for `opts`.
pub open spec fn clean_plan_spec(opts: Options) -> CleanPlan {
    CleanPlan { remove_entry: opts.clean || opts.clean_only, finish: opts.clean_only }
}

} // verus!
