//! Content identity: a streaming BLAKE3 digest in lowercase hex, and the
//! cache-entry names derived from a script's absolute path.
use vstd::prelude::*;

verus! {

/// The BLAKE3 digest of `bytes`, as 64 lowercase hexadecimal characters.
pub uninterp spec fn blake3_hex(bytes: Seq<u8>) -> Seq<char>;

/// The bytes fed so far to a BLAKE3 hashing state.
pub uninterp spec fn absorbed(h: blake3::Hasher) -> Seq<u8>;

#[verifier::external_type_specification]
#[verifier::external_body]
pub struct ExHasher(blake3::Hasher);

/// Relies on blake3::Hasher::new: a fresh state has absorbed nothing.
#[verifier::external_body]
fn hasher_new() -> (r: blake3::Hasher)
    ensures
        absorbed(r) == Seq::<u8>::empty(),
{
    blake3::Hasher::new()
}

/// Relies on blake3::Hasher::update: the state absorbs `data` after what it held.
#[verifier::external_body]
fn hasher_update(h: &mut blake3::Hasher, data: &[u8])
    ensures
        absorbed(*final(h)) == absorbed(*old(h)) + data@,
{
    h.update(data);
}

/// A lowercase hexadecimal digit.
pub open spec fn is_hex_digit(c: char) -> bool {
    ('0' <= c && c <= '9') || ('a' <= c && c <= 'f')
}

/// The shape of every digest: 64 lowercase hexadecimal digits.
pub open spec fn is_digest(s: Seq<char>) -> bool {
    s.len() == 64 && forall|i: int| 0 <= i < 64 ==> is_hex_digit(#[trigger] s[i])
}

/// Relies on blake3::Hasher::finalize and blake3::Hash::to_hex: the digest of
/// everything absorbed, as 64 digits of `0123456789abcdef`.
#[verifier::external_body]
fn hasher_hex(h: &blake3::Hasher) -> (r: String)
    ensures
        r@ == blake3_hex(absorbed(*h)),
        is_digest(r@),
{
    h.finalize().to_hex().to_string()
}

/// A streaming content hasher: the file is fed in chunks of any size, and the
/// digest depends on the concatenation of the chunks alone.
pub struct ContentHasher {
    state: blake3::Hasher,
}

impl View for ContentHasher {
    type V = Seq<u8>;

    closed spec fn view(&self) -> Seq<u8> {
        absorbed(self.state)
    }
}

impl ContentHasher {
    pub fn new() -> (r: ContentHasher)
        ensures
            r@ == Seq::<u8>::empty(),
    {
        ContentHasher { state: hasher_new() }
    }

    pub fn update(&mut self, chunk: &[u8])
        ensures
            final(self)@ == old(self)@ + chunk@,
    {
        hasher_update(&mut self.state, chunk);
    }

    /// The hex digest of every byte fed so far.
    pub fn finish(&self) -> (r: String)
        ensures
            r@ == blake3_hex(self@),
            is_digest(r@),
    {
        hasher_hex(&self.state)
    }
}

/// Digest of a byte string, fed in one piece.
pub fn digest_hex(bytes: &[u8]) -> (r: String)
    ensures
        r@ == blake3_hex(bytes@),
        is_digest(r@),
{
    let mut h = ContentHasher::new();
    h.update(bytes);
    proof {
        assert(h@ =~= bytes@);
    }
    h.finish()
}

/// Whether `s` has the shape of a digest.
pub fn is_digest_text(s: &str) -> (r: bool)
    ensures
        r == is_digest(s@),
{
    if !s.is_ascii() {
        proof {
            if is_digest(s@) {
                assert forall|i: int| 0 <= i < s@.len() implies '\0' <= #[trigger] s@[i] <= '\u{7f}' by {
                    assert(is_hex_digit(s@[i]));
                }
            }
        }
        return false;
    }
    let b = s.as_bytes();
    proof {
        vstd::string::is_ascii_spec_bytes(s);
    }
    if b.len() != 64 {
        return false;
    }
    let mut i: usize = 0;
    while i < 64
        invariant
            b@ == Seq::new(s@.len(), |k: int| s@[k] as u8),
            s@.len() == 64,
            vstd::utf8::is_ascii_chars(s@),
            i <= 64,
            forall|k: int| 0 <= k < i ==> is_hex_digit(#[trigger] s@[k]),
        decreases 64 - i,
    {
        let c = b[i];
        let ghost ch = s@[i as int];
        proof {
            assert('\0' <= ch <= '\u{7f}');
            assert(c == ch as u8);
            assert(c as u32 == ch as u32);
        }
        if !((48u8 <= c && c <= 57u8) || (97u8 <= c && c <= 102u8)) {
            return false;
        }
        i = i + 1;
    }
    true
}

/// File name of the cache entry for a script, given its absolute path.
pub open spec fn entry_name_of(path: Seq<char>) -> Seq<char> {
    blake3_hex(encode_path(path)) + ".json"@
}

/// The raw bytes of a path string.
pub open spec fn encode_path(path: Seq<char>) -> Seq<u8> {
    vstd::utf8::encode_utf8(path)
}

/// The cache key of an absolute path: the digest of the path's bytes.
/// The script's content plays no part in it.
pub fn path_key(path: &str) -> (r: String)
    ensures
        r@ == blake3_hex(encode_path(path@)),
{
    digest_hex(path.as_bytes())
}

/// Name of the cache-entry file for the script at `path`.
pub fn entry_file_name(path: &str) -> (r: String)
    ensures
        r@ == entry_name_of(path@),
{
    let key = path_key(path);
    key.concat(".json")
}

/// Two different absolute paths share a cache entry only through a BLAKE3
/// collision: their byte strings differ, yet their digests would be equal.
/// The script's content plays no part in the entry's name.
pub proof fn lemma_distinct_paths_distinct_entries(path_a: Seq<char>, path_b: Seq<char>)
    requires
        path_a != path_b,
        entry_name_of(path_a) == entry_name_of(path_b),
    ensures
        encode_path(path_a) != encode_path(path_b),
        blake3_hex(encode_path(path_a)) == blake3_hex(encode_path(path_b)),
{
    vstd::utf8::encode_utf8_decode_utf8(path_a);
    vstd::utf8::encode_utf8_decode_utf8(path_b);
    let h1 = blake3_hex(encode_path(path_a));
    let h2 = blake3_hex(encode_path(path_b));
    let n1 = entry_name_of(path_a);
    reveal_strlit(".json");
    assert(n1 == h1 + ".json"@);
    assert(entry_name_of(path_b) == h2 + ".json"@);
    assert(n1.len() == h1.len() + 5);
    assert(n1.len() == h2.len() + 5);
    assert(h1.len() == h2.len());
    assert(h1 =~= n1.take(h1.len() as int));
    assert(h2 =~= n1.take(h2.len() as int));
}

} // verus!
