//! Bounded, null-terminated byte buffers.
//!
//! Every string field of an event record is a pre-sized byte buffer holding
//! a null-terminated string. Writes into such a field truncate the source to
//! the field's capacity and always place a terminator inside the field;
//! bytes past the terminator keep whatever (stale) value they had, so only
//! the bytes up to the first zero are meaningful.

use vstd::pervasive::VecAdditionalExecFns;
use vstd::prelude::*;

verus! {

/// Longest path a record can carry, in bytes, excluding the terminator.
pub const MAX_PATH_LEN: usize = 4096;

/// Longest leaf name a record can carry, in bytes, excluding the terminator.
pub const MAX_FILENAME_LEN: usize = 256;

/// Capacity of a path field: the longest path plus its terminator.
pub const PATH_BUF_LEN: usize = MAX_PATH_LEN + 1;

/// Capacity of a name field: the longest name plus its terminator.
pub const NAME_BUF_LEN: usize = MAX_FILENAME_LEN + 1;

/// Whether no byte of `s` is zero: the shape of a C string's content.
pub open spec fn no_null(s: Seq<u8>) -> bool {
    forall|i: int| 0 <= i < s.len() ==> s[i] != 0
}

/// Index of the first zero byte of `s`, or `s.len()` when none occurs.
pub open spec fn first_null(s: Seq<u8>) -> int
    decreases s.len(),
{
    if s.len() == 0 {
        0
    } else if s[0] == 0 {
        0
    } else {
        1 + first_null(s.skip(1))
    }
}

/// The string stored in buffer `s`: its bytes up to the first zero, or the
/// whole buffer when no terminator occurs within it.
pub open spec fn cstr(s: Seq<u8>) -> Seq<u8> {
    s.take(first_null(s))
}

/// The string stored when `src` is written into a field of capacity `cap`:
/// `src` itself when it fits beside a terminator, else its first `cap - 1`
/// bytes.
pub open spec fn truncated(src: Seq<u8>, cap: int) -> Seq<u8> {
    if src.len() < cap {
        src
    } else {
        src.take(cap - 1)
    }
}

/// Contents of buffer `dst` after the bounded, null-terminated copy of
/// `src` into it: the (possibly truncated) source bytes, a zero, and the
/// untouched tail of the buffer.
pub open spec fn spec_write(dst: Seq<u8>, src: Seq<u8>) -> Seq<u8> {
    let n = truncated(src, dst.len() as int).len() as int;
    Seq::new(
        dst.len(),
        |i: int|
            if i < n {
                src[i]
            } else if i == n {
                0u8
            } else {
                dst[i]
            },
    )
}

/// A buffer whose first `n` bytes are non-zero and whose byte `n` (when it
/// exists) is zero has its first zero exactly at `n`.
pub proof fn lemma_first_null_at(s: Seq<u8>, n: int)
    requires
        0 <= n <= s.len(),
        forall|i: int| 0 <= i < n ==> s[i] != 0,
        n < s.len() ==> s[n] == 0,
    ensures
        first_null(s) == n,
    decreases n,
{
    if s.len() == 0 {
    } else if n == 0 {
    } else {
        assert(s[0] != 0);
        let t = s.skip(1);
        assert forall|i: int| 0 <= i < n - 1 implies t[i] != 0 by {
            assert(t[i] == s[i + 1]);
        }
        assert(n - 1 < t.len() ==> t[n - 1] == 0) by {
            if n - 1 < t.len() {
                assert(t[n - 1] == s[n]);
            }
        }
        lemma_first_null_at(t, n - 1);
    }
}

/// After a bounded write of a null-free source, the stored string is
/// exactly the (possibly truncated) source, and the terminator sits right
/// after it.
pub proof fn lemma_cstr_of_write(dst: Seq<u8>, src: Seq<u8>)
    requires
        dst.len() >= 1,
        no_null(src),
    ensures
        cstr(spec_write(dst, src)) == truncated(src, dst.len() as int),
        spec_write(dst, src)[truncated(src, dst.len() as int).len() as int] == 0,
{
    let w = spec_write(dst, src);
    let n = truncated(src, dst.len() as int).len() as int;
    assert(0 <= n < dst.len());
    lemma_first_null_at(w, n);
    assert(w.take(n) =~= truncated(src, dst.len() as int));
}

/// Truncation law: when a null-free source does not fit beside the
/// terminator, the stored string is exactly the first `capacity - 1` source
/// bytes, and the terminator still lies inside the field.
pub proof fn lemma_truncation(dst: Seq<u8>, src: Seq<u8>)
    requires
        dst.len() >= 1,
        no_null(src),
        src.len() >= dst.len(),
    ensures
        cstr(spec_write(dst, src)) == src.take(dst.len() - 1),
        spec_write(dst, src)[dst.len() - 1] == 0,
{
    lemma_cstr_of_write(dst, src);
}

/// Copies `src` into the pre-sized buffer `dst`, truncating to the buffer's
/// capacity and always null-terminating; bytes past the terminator keep
/// their previous (stale) value.
pub fn write_bounded(dst: &mut Vec<u8>, src: &Vec<u8>)
    requires
        old(dst).len() >= 1,
    ensures
        final(dst)@ == spec_write(old(dst)@, src@),
{
    let ghost dst0 = dst@;
    let cap = dst.len();
    let n: usize = if src.len() < cap {
        src.len()
    } else {
        cap - 1
    };
    assert(n == truncated(src@, cap as int).len());
    let mut i: usize = 0;
    while i < n
        invariant
            i <= n,
            n <= src.len(),
            n < cap,
            dst.len() == cap == dst0.len(),
            forall|j: int| 0 <= j < i ==> dst@[j] == src@[j],
            forall|j: int| i <= j < cap ==> dst@[j] == dst0[j],
        decreases n - i,
    {
        let b = src[i];
        dst.set(i, b);
        i = i + 1;
    }
    dst.set(n, 0);
    proof {
        assert(dst@ =~= spec_write(dst0, src@));
    }
}

/// Stores the explicit "no string" value: a terminator in the first byte.
pub fn write_empty(dst: &mut Vec<u8>)
    requires
        old(dst).len() >= 1,
    ensures
        final(dst)@ == old(dst)@.update(0, 0u8),
        cstr(final(dst)@) == Seq::<u8>::empty(),
{
    dst.set(0, 0);
    proof {
        lemma_first_null_at(dst@, 0);
        assert(dst@.take(0) =~= Seq::<u8>::empty());
    }
}

/// A fresh all-zero buffer of length `n`, holding the empty string.
pub fn zeroed_buf(n: usize) -> (v: Vec<u8>)
    ensures
        v@.len() == n,
        forall|i: int| 0 <= i < n ==> v@[i] == 0,
        n >= 1 ==> cstr(v@) == Seq::<u8>::empty(),
{
    let mut v: Vec<u8> = Vec::new();
    while v.len() < n
        invariant
            v.len() <= n,
            forall|i: int| 0 <= i < v.len() ==> v@[i] == 0,
        decreases n - v.len(),
    {
        v.push(0);
    }
    proof {
        if n >= 1 {
            lemma_first_null_at(v@, 0);
            assert(v@.take(0) =~= Seq::<u8>::empty());
        }
    }
    v
}

} // verus!
