//! Adapter between growable byte text and the fixed-size, NUL-terminated
//! character buffers of the C ABI.
//!
//! The native layer exchanges text in fixed-capacity byte arrays that it
//! interprets as a run of bytes up to the first terminator. Two conversions
//! live here:
//!
//! - on the way in, [`nul_terminated`] produces an owned copy of the caller's
//!   text that ends in a terminator, appending exactly one byte when the text
//!   does not already end in one and nothing otherwise — the caller's own
//!   buffer is never touched;
//! - on the way out, [`charbuf_decode`] reads a buffer up to its first
//!   terminator rather than trusting the buffer's full capacity.

use vstd::prelude::*;

verus! {

/// The byte that ends a run of text inside a native character buffer.
pub const TERMINATOR: u8 = 0;

/// Capacity in bytes of a native metadata key buffer.
pub const METADATA_KEY_CAPACITY: usize = 256;

/// Capacity in bytes of a native metadata value buffer.
pub const METADATA_VALUE_CAPACITY: usize = 4096;

/// Capacity in bytes of a native lobby secret buffer.
pub const LOBBY_SECRET_CAPACITY: usize = 128;

/// Whether `s` already ends in the terminator byte.
pub open spec fn spec_is_terminated(s: Seq<u8>) -> bool {
    s.len() > 0 && s.last() == TERMINATOR
}

/// `s` with a terminator appended when it does not already end in one.
pub open spec fn spec_terminated(s: Seq<u8>) -> Seq<u8> {
    if spec_is_terminated(s) {
        s
    } else {
        s.push(TERMINATOR)
    }
}

/// Length of the run of text in a buffer: the index of the first terminator,
/// or the whole length when no terminator occurs.
pub open spec fn spec_text_len(s: Seq<u8>) -> nat
    decreases s.len(),
{
    if s.len() == 0 {
        0
    } else if s[0] == TERMINATOR {
        0
    } else {
        1 + spec_text_len(s.drop_first())
    }
}

/// The text that a native buffer carries: its bytes before the first
/// terminator.
pub open spec fn spec_decoded(s: Seq<u8>) -> Seq<u8> {
    s.take(spec_text_len(s) as int)
}

/// `spec_text_len` is the least index holding a terminator: everything before
/// it is ordinary text, and it only falls short of the length when a
/// terminator stands at it.
pub proof fn lemma_text_len_bounds(s: Seq<u8>)
    ensures
        spec_text_len(s) <= s.len(),
        forall|j: int| 0 <= j < spec_text_len(s) ==> s[j] != TERMINATOR,
        spec_text_len(s) < s.len() ==> s[spec_text_len(s) as int] == TERMINATOR,
    decreases s.len(),
{
    if s.len() > 0 && s[0] != TERMINATOR {
        lemma_text_len_bounds(s.drop_first());
        assert forall|j: int| 0 <= j < spec_text_len(s) implies s[j] != TERMINATOR by {
            if j > 0 {
                assert(s.drop_first()[j - 1] == s[j]);
            }
        }
    }
}

/// Conversely, an index below which no terminator occurs, and at which one
/// stands (or which is the whole length), is `spec_text_len`.
pub proof fn lemma_text_len_at(s: Seq<u8>, i: int)
    requires
        0 <= i <= s.len(),
        forall|j: int| 0 <= j < i ==> s[j] != TERMINATOR,
        i < s.len() ==> s[i] == TERMINATOR,
    ensures
        spec_text_len(s) == i,
    decreases s.len(),
{
    if i > 0 {
        assert(s[0] != TERMINATOR);
        assert forall|j: int| 0 <= j < i - 1 implies s.drop_first()[j] != TERMINATOR by {
            assert(s.drop_first()[j] == s[j + 1]);
        }
        assert(i - 1 < s.drop_first().len() ==> s.drop_first()[i - 1] == s[i]);
        lemma_text_len_at(s.drop_first(), i - 1);
    }
}

/// Terminating text that does not yet end in a terminator appends exactly one
/// byte: the result ends in the terminator and everything before that final
/// byte is the original text, unchanged in length and contents.
pub proof fn lemma_terminate_appends_exactly_one(s: Seq<u8>)
    requires
        !spec_is_terminated(s),
    ensures
        spec_terminated(s).len() == s.len() + 1,
        spec_terminated(s).last() == TERMINATOR,
        spec_terminated(s).drop_last() == s,
{
    assert(spec_terminated(s).drop_last() =~= s);
}

/// Terminating text that already ends in a terminator changes nothing.
pub proof fn lemma_terminate_of_terminated(s: Seq<u8>)
    requires
        spec_is_terminated(s),
    ensures
        spec_terminated(s) == s,
{
}

/// Termination is idempotent: a second pass never appends a second byte.
pub proof fn lemma_terminate_idempotent(s: Seq<u8>)
    ensures
        spec_terminated(spec_terminated(s)) == spec_terminated(s),
{
}

/// Returns an owned copy of `bytes`.
pub fn copy_bytes(bytes: &Vec<u8>) -> (r: Vec<u8>)
    ensures
        r@ == bytes@,
{
    let mut r: Vec<u8> = Vec::new();
    let mut i: usize = 0;
    while i < bytes.len()
        invariant
            i <= bytes.len(),
            r@ == bytes@.take(i as int),
        decreases bytes.len() - i,
    {
        r.push(bytes[i]);
        i += 1;
        assert(r@ =~= bytes@.take(i as int));
    }
    assert(r@ =~= bytes@);
    r
}

/// Compares two byte strings by contents.
pub fn bytes_eq(a: &Vec<u8>, b: &Vec<u8>) -> (r: bool)
    ensures
        r == (a@ == b@),
{
    if a.len() != b.len() {
        return false;
    }
    let mut i: usize = 0;
    while i < a.len()
        invariant
            i <= a.len(),
            a@.len() == b@.len(),
            forall|j: int| 0 <= j < i ==> a@[j] == b@[j],
        decreases a.len() - i,
    {
        if a[i] != b[i] {
            return false;
        }
        i += 1;
    }
    proof {
        assert(a@ =~= b@);
    }
    true
}

/// Returns an owned, terminated copy of `text`, appending exactly one
/// terminator when `text` does not already end in one. The caller's buffer is
/// borrowed immutably and never altered.
pub fn nul_terminated(text: &Vec<u8>) -> (r: Vec<u8>)
    ensures
        r@ == spec_terminated(text@),
{
    let mut r = copy_bytes(text);
    if r.len() == 0 || r[r.len() - 1] != TERMINATOR {
        r.push(TERMINATOR);
    }
    r
}

/// Length of the run of text in `buf`: the index of its first terminator, or
/// `buf.len()` when it holds none.
pub fn charbuf_len(buf: &Vec<u8>) -> (n: usize)
    ensures
        n == spec_text_len(buf@),
{
    let mut i: usize = 0;
    while i < buf.len() && buf[i] != TERMINATOR
        invariant
            i <= buf.len(),
            forall|j: int| 0 <= j < i ==> buf@[j] != TERMINATOR,
        decreases buf.len() - i,
    {
        i += 1;
    }
    proof {
        lemma_text_len_at(buf@, i as int);
    }
    i
}

/// Decodes a native buffer: returns its bytes before the first terminator,
/// never trusting the buffer's full capacity.
pub fn charbuf_decode(buf: &Vec<u8>) -> (r: Vec<u8>)
    ensures
        r@ == spec_decoded(buf@),
        forall|j: int| 0 <= j < r@.len() ==> r@[j] != TERMINATOR,
{
    let n = charbuf_len(buf);
    proof {
        lemma_text_len_bounds(buf@);
    }
    let mut r: Vec<u8> = Vec::new();
    let mut i: usize = 0;
    while i < n
        invariant
            i <= n,
            n == spec_text_len(buf@),
            n <= buf.len(),
            r@ == buf@.take(i as int),
        decreases n - i,
    {
        r.push(buf[i]);
        i += 1;
        assert(r@ =~= buf@.take(i as int));
    }
    r
}

} // verus!
