//! File names: which ones the player takes, and the order they are listed in.
//!
//! Both are decided on a name's UTF-8 bytes, as the file system has them.

use vstd::prelude::*;
use vstd::utf8::encode_utf8;

verus! {

/// A sequence of file names, each as its characters.
pub type Names = Seq<Seq<char>>;

/// The names that a vector of strings holds.
pub open spec fn names_of(v: Seq<String>) -> Names {
    Seq::new(v.len(), |i: int| v[i]@)
}

/// Lexicographic order on byte strings: the first byte that differs decides,
/// and a string goes before every string that it begins.
pub open spec fn bytes_le(a: Seq<u8>, b: Seq<u8>) -> bool
    decreases a.len(),
{
    if a.len() == 0 {
        true
    } else if b.len() == 0 {
        false
    } else if a[0] != b[0] {
        a[0] < b[0]
    } else {
        bytes_le(a.skip(1), b.skip(1))
    }
}

/// The order in which names are listed: that of their UTF-8 bytes.
pub open spec fn name_le(a: Seq<char>, b: Seq<char>) -> bool {
    bytes_le(encode_utf8(a), encode_utf8(b))
}

/// Every name goes before the names after it.
pub open spec fn ascending(names: Names) -> bool {
    forall|i: int, j: int| 0 <= i < j < names.len() ==> name_le(#[trigger] names[i], #[trigger] names[j])
}

/// An ASCII capital letter as its small letter; any other byte as it is.
pub open spec fn ascii_lower(b: u8) -> u8 {
    if 0x41 <= b <= 0x5a {
        (b + 0x20) as u8
    } else {
        b
    }
}

/// Whether a name in bytes ends in a dot and `mp3`, in capital or small
/// letters, with at least one byte before the dot.
pub open spec fn is_supported_bytes(b: Seq<u8>) -> bool {
    &&& b.len() >= 5
    &&& b[b.len() - 4] == 0x2e
    &&& ascii_lower(b[b.len() - 3]) == 0x6d
    &&& ascii_lower(b[b.len() - 2]) == 0x70
    &&& b[b.len() - 1] == 0x33
}

/// Whether a file of this name is taken into a playlist.
pub open spec fn has_supported_extension(name: Seq<char>) -> bool {
    is_supported_bytes(encode_utf8(name))
}

pub proof fn lemma_bytes_le_reflexive(a: Seq<u8>)
    ensures
        bytes_le(a, a),
    decreases a.len(),
{
    if a.len() > 0 {
        lemma_bytes_le_reflexive(a.skip(1));
    }
}

/// Of two byte strings one goes before the other.
pub proof fn lemma_bytes_le_total(a: Seq<u8>, b: Seq<u8>)
    ensures
        bytes_le(a, b) || bytes_le(b, a),
    decreases a.len(),
{
    if a.len() > 0 && b.len() > 0 && a[0] == b[0] {
        lemma_bytes_le_total(a.skip(1), b.skip(1));
    }
}

pub proof fn lemma_bytes_le_transitive(a: Seq<u8>, b: Seq<u8>, c: Seq<u8>)
    requires
        bytes_le(a, b),
        bytes_le(b, c),
    ensures
        bytes_le(a, c),
    decreases a.len(),
{
    if a.len() > 0 && b.len() > 0 && c.len() > 0 && a[0] == b[0] && b[0] == c[0] {
        lemma_bytes_le_transitive(a.skip(1), b.skip(1), c.skip(1));
    }
}

/// Two byte strings that go before each other are the same.
pub proof fn lemma_bytes_le_antisymmetric(a: Seq<u8>, b: Seq<u8>)
    requires
        bytes_le(a, b),
        bytes_le(b, a),
    ensures
        a == b,
    decreases a.len(),
{
    if a.len() > 0 && b.len() > 0 {
        lemma_bytes_le_antisymmetric(a.skip(1), b.skip(1));
        assert(a =~= seq![a[0]] + a.skip(1));
        assert(b =~= seq![b[0]] + b.skip(1));
    } else {
        assert(a =~= b);
    }
}

/// Compares two byte strings.
pub fn bytes_in_order(a: &[u8], b: &[u8]) -> (le: bool)
    ensures
        le == bytes_le(a@, b@),
{
    let mut i: usize = 0;
    proof {
        assert(a@.skip(0) =~= a@);
        assert(b@.skip(0) =~= b@);
    }
    while i < a.len() && i < b.len()
        invariant
            i <= a.len(),
            i <= b.len(),
            bytes_le(a@, b@) == bytes_le(a@.skip(i as int), b@.skip(i as int)),
        decreases a.len() - i,
    {
        if a[i] != b[i] {
            return a[i] < b[i];
        }
        proof {
            assert(a@.skip(i as int).skip(1) =~= a@.skip(i + 1));
            assert(b@.skip(i as int).skip(1) =~= b@.skip(i + 1));
        }
        i += 1;
    }
    i == a.len()
}

/// Whether `a` is listed before `b`, or is the same name.
pub fn names_in_order(a: &str, b: &str) -> (le: bool)
    ensures
        le == name_le(a@, b@),
{
    bytes_in_order(a.as_bytes(), b.as_bytes())
}

/// Whether a file of this name is taken into a playlist.
pub fn is_supported_name(name: &str) -> (supported: bool)
    ensures
        supported == has_supported_extension(name@),
{
    let b = name.as_bytes();
    let n = b.len();
    if n < 5 {
        return false;
    }
    let m = b[n - 3];
    let p = b[n - 2];
    b[n - 4] == 0x2e && (m == 0x6d || m == 0x4d) && (p == 0x70 || p == 0x50) && b[n - 1] == 0x33
}

} // verus!
