//! The cache entry: the fingerprint of a script and the artifact built from
//! it, and the JSON text it is stored as.
use vstd::prelude::*;
use crate::digest::{is_digest, is_digest_text};
use crate::json::{json_quoted, json_text_at, json_u64_at, quote, string_at, u64_at};

verus! {

/// The identity of a source file at a point in time.
#[derive(Debug)]
pub struct Fingerprint {
    /// Modification time, in whole seconds since the Unix epoch.
    pub mtime: u64,
    /// Lowercase hex BLAKE3 digest of the file's content.
    pub hash: String,
}

/// What is remembered of a script between runs.
#[derive(Debug)]
pub struct CacheEntry {
    pub fingerprint: Fingerprint,
    /// Absolute path of the executable built from the script.
    pub artifact: String,
}

/// The mathematical content of a cache entry.
pub struct EntryModel {
    pub mtime: u64,
    pub hash: Seq<char>,
    pub artifact: Seq<char>,
}

impl View for CacheEntry {
    type V = EntryModel;

    open spec fn view(&self) -> EntryModel {
        EntryModel {
            mtime: self.fingerprint.mtime,
            hash: self.fingerprint.hash@,
            artifact: self.artifact@,
        }
    }
}

/// The decimal digit character for `d < 10`.
pub open spec fn digit_char(d: nat) -> char {
    (('0' as nat) + d) as char
}

/// Decimal spelling of `n`, without leading zeros.
pub open spec fn decimal(n: nat) -> Seq<char>
    decreases n,
{
    if n < 10 {
        seq![digit_char(n)]
    } else {
        decimal(n / 10) + seq![digit_char(n % 10)]
    }
}

/// The text an entry is stored as:
/// `{"fp":{"mtime":M,"hash":H},"bin":B}`, with `H` and `B` JSON string literals.
pub open spec fn entry_text(e: EntryModel) -> Seq<char> {
    "{\"fp\":{\"mtime\":"@ + decimal(e.mtime as nat) + ",\"hash\":"@ + json_quoted(e.hash)
        + "},\"bin\":"@ + json_quoted(e.artifact) + "}"@
}

/// The entry that a stored text decodes to: all three fields must be present,
/// with their types, and the hash must have the shape of a digest; anything
/// else reads as no entry.
pub open spec fn entry_of_text(text: Seq<char>) -> Option<EntryModel> {
    match (
        json_u64_at(text, "/fp/mtime"@),
        json_text_at(text, "/fp/hash"@),
        json_text_at(text, "/bin"@),
    ) {
        (Some(m), Some(h), Some(b)) => if is_digest(h) {
            Some(EntryModel { mtime: m, hash: h, artifact: b })
        } else {
            None
        },
        _ => None,
    }
}

/// Every decimal spelling has at least one digit, and only one for `n < 10`.
pub proof fn lemma_decimal_nonempty(n: nat)
    ensures
        decimal(n).len() >= 1,
        n >= 10 ==> decimal(n).len() >= 2,
    decreases n,
{
    if n >= 10 {
        lemma_decimal_nonempty(n / 10);
    }
}

/// Different numbers have different decimal spellings.
pub proof fn lemma_decimal_injective(a: nat, b: nat)
    requires
        decimal(a) == decimal(b),
    ensures
        a == b,
    decreases a,
{
    lemma_decimal_nonempty(a);
    lemma_decimal_nonempty(b);
    if a >= 10 && b >= 10 {
        let da = decimal(a);
        assert(da.drop_last() =~= decimal(a / 10));
        assert(decimal(b).drop_last() =~= decimal(b / 10));
        lemma_decimal_injective(a / 10, b / 10);
        assert(da.last() == digit_char(a % 10));
        assert(decimal(b).last() == digit_char(b % 10));
    } else if a < 10 && b < 10 {
        assert(decimal(a)[0] == digit_char(a));
        assert(decimal(b)[0] == digit_char(b));
    }
}

fn digit_str(d: u64) -> (r: &'static str)
    requires
        d < 10,
    ensures
        r@ == seq![digit_char(d as nat)],
{
    if d == 0 {
        proof { reveal_strlit("0"); }
        "0"
    } else if d == 1 {
        proof { reveal_strlit("1"); }
        "1"
    } else if d == 2 {
        proof { reveal_strlit("2"); }
        "2"
    } else if d == 3 {
        proof { reveal_strlit("3"); }
        "3"
    } else if d == 4 {
        proof { reveal_strlit("4"); }
        "4"
    } else if d == 5 {
        proof { reveal_strlit("5"); }
        "5"
    } else if d == 6 {
        proof { reveal_strlit("6"); }
        "6"
    } else if d == 7 {
        proof { reveal_strlit("7"); }
        "7"
    } else if d == 8 {
        proof { reveal_strlit("8"); }
        "8"
    } else {
        proof { reveal_strlit("9"); }
        "9"
    }
}

/// Decimal spelling of `n`.
pub fn decimal_string(n: u64) -> (r: String)
    ensures
        r@ == decimal(n as nat),
    decreases n,
{
    if n < 10 {
        String::from_str(digit_str(n))
    } else {
        let high = decimal_string(n / 10);
        high.concat(digit_str(n % 10))
    }
}

impl CacheEntry {
    pub fn new(mtime: u64, hash: String, artifact: String) -> (r: CacheEntry)
        ensures
            r@ == (EntryModel { mtime, hash: hash@, artifact: artifact@ }),
    {
        CacheEntry { fingerprint: Fingerprint { mtime, hash }, artifact }
    }

    /// The JSON text this entry is stored as.
    pub fn encode(&self) -> (r: String)
        ensures
            r@ == entry_text(self@),
    {
        let mut out = String::from_str("{\"fp\":{\"mtime\":");
        out.append(decimal_string(self.fingerprint.mtime).as_str());
        out.append(",\"hash\":");
        out.append(quote(self.fingerprint.hash.as_str()).as_str());
        out.append("},\"bin\":");
        out.append(quote(self.artifact.as_str()).as_str());
        out.append("}");
        out
    }

    /// Reads a stored entry back. Text that is not JSON, or lacks a field, or
    /// holds one of the wrong type, or whose hash is not 64 lowercase hex
    /// digits, gives `None`: a damaged entry is a miss.
    pub fn decode(text: &str) -> (r: Option<CacheEntry>)
        ensures
            match r {
                Some(e) => entry_of_text(text@) == Some(e@),
                None => entry_of_text(text@) is None,
            },
    {
        let mtime = u64_at(text, "/fp/mtime");
        let hash = string_at(text, "/fp/hash");
        let artifact = string_at(text, "/bin");
        proof {
            reveal_strlit("/fp/mtime");
            reveal_strlit("/fp/hash");
            reveal_strlit("/bin");
        }
        match (mtime, hash, artifact) {
            (Some(m), Some(h), Some(b)) => if is_digest_text(h.as_str()) {
                Some(CacheEntry::new(m, h, b))
            } else {
                None
            },
            _ => None,
        }
    }
}

} // verus!
