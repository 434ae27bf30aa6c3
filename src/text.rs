//! Bridging native, NUL-terminated output buffers to owned, validated text.
use vstd::prelude::*;
use vstd::string::StringSliceAdditionalSpecFns;
use vstd::utf8::{decode_utf8, valid_utf8};

verus! {

/// Capacity of every output buffer handed to the native renderer; the native
/// side truncates longer renderings to fit.
pub const VALUE_BUFFER_LEN: usize = 1024;

/// `n` is the length of the C string at the start of `b`: no NUL byte comes
/// before position `n`, and position `n` is either a NUL byte or the end of `b`.
pub open spec fn is_c_str_len(b: Seq<u8>, n: int) -> bool {
    &&& 0 <= n <= b.len()
    &&& forall|i: int| 0 <= i < n ==> b[i] != 0
    &&& n < b.len() ==> b[n] == 0
}

/// The length of the C string at the start of `b`.
pub open spec fn c_str_len(b: Seq<u8>) -> int {
    choose|n: int| is_c_str_len(b, n)
}

/// The bytes of `b` before its first NUL byte (all of `b` when it has none).
pub open spec fn c_str_bytes(b: Seq<u8>) -> Seq<u8> {
    b.subrange(0, c_str_len(b))
}

/// The text held by a native buffer: its C string decoded as UTF-8, or `None`
/// when those bytes are not well-formed UTF-8.
pub open spec fn buffer_text(b: Seq<u8>) -> Option<Seq<char>> {
    if valid_utf8(c_str_bytes(b)) {
        Some(decode_utf8(c_str_bytes(b)))
    } else {
        None
    }
}

/// A buffer has exactly one C-string length.
pub proof fn lemma_c_str_len_unique(b: Seq<u8>, n: int, m: int)
    requires
        is_c_str_len(b, n),
        is_c_str_len(b, m),
    ensures
        n == m,
{
    if n < m {
        assert(b[n] != 0);
    } else if m < n {
        assert(b[m] != 0);
    }
}

/// The length of the C string at the start of `b`.
pub fn c_str_length(b: &[u8]) -> (n: usize)
    ensures
        is_c_str_len(b@, n as int),
        n as int == c_str_len(b@),
{
    let mut i: usize = 0;
    while i < b.len() && b[i] != 0
        invariant
            0 <= i <= b@.len(),
            forall|j: int| 0 <= j < i ==> b@[j] != 0,
        decreases b@.len() - i,
    {
        i = i + 1;
    }
    proof {
        assert(is_c_str_len(b@, i as int));
        lemma_c_str_len_unique(b@, i as int, c_str_len(b@));
    }
    i
}

/// Relies on `String::from_utf8`: it succeeds exactly when the bytes are
/// well-formed UTF-8, and the string then holds the characters they encode.
#[verifier::external_body]
fn string_from_utf8(bytes: Vec<u8>) -> (r: Option<String>)
    ensures
        r is Some <==> valid_utf8(bytes@),
        r matches Some(s) ==> s@ == decode_utf8(bytes@),
{
    String::from_utf8(bytes).ok()
}

/// Copies the C string at the start of a native buffer out into an owned
/// string. Bytes that are not well-formed UTF-8 give `None`: they are never
/// replaced or dropped.
pub fn text_from_buffer(b: &[u8]) -> (r: Option<String>)
    ensures
        match r {
            Some(s) => buffer_text(b@) == Some(s@),
            None => buffer_text(b@) is None,
        },
{
    let n = c_str_length(b);
    let mut bytes: Vec<u8> = Vec::with_capacity(n);
    let mut i: usize = 0;
    while i < n
        invariant
            n <= b@.len(),
            0 <= i <= n,
            bytes@ == b@.subrange(0, i as int),
        decreases n - i,
    {
        bytes.push(b[i]);
        i = i + 1;
        assert(bytes@ =~= b@.subrange(0, i as int));
    }
    string_from_utf8(bytes)
}

/// A zeroed output buffer of the capacity that the native renderer is given.
pub fn new_value_buffer() -> (r: Vec<u8>)
    ensures
        r@ == Seq::new(VALUE_BUFFER_LEN as nat, |i: int| 0u8),
{
    let r = vec![0u8; VALUE_BUFFER_LEN];
    assert(r@ =~= Seq::new(VALUE_BUFFER_LEN as nat, |i: int| 0u8));
    r
}

/// The NUL-terminated bytes handed to the native parser for a file path:
/// the path's UTF-8 encoding followed by one NUL byte. A path that holds a NUL
/// byte of its own cannot be expressed this way and gives `None`.
pub fn c_path(path: &str) -> (r: Option<Vec<u8>>)
    ensures
        match r {
            Some(v) => !path.spec_bytes().contains(0u8) && v@ == path.spec_bytes().push(0u8),
            None => path.spec_bytes().contains(0u8),
        },
{
    let b = path.as_bytes();
    let mut v: Vec<u8> = Vec::new();
    let mut i: usize = 0;
    while i < b.len()
        invariant
            b@ == path.spec_bytes(),
            0 <= i <= b@.len(),
            v@ == b@.subrange(0, i as int),
            forall|j: int| 0 <= j < i ==> b@[j] != 0,
        decreases b@.len() - i,
    {
        if b[i] == 0 {
            assert(b@[i as int] == 0u8);
            return None;
        }
        v.push(b[i]);
        i = i + 1;
        assert(v@ =~= b@.subrange(0, i as int));
    }
    assert(!b@.contains(0u8));
    assert(v@ =~= b@);
    v.push(0u8);
    Some(v)
}

} // verus!
