//! The chunk plan: how a file of a given length is split into the bounded
//! request bodies that one upload carries, in order.

use vstd::prelude::*;
use vstd::assert_seqs_equal;
use crate::MAX_BODY_SIZE;
use crate::MAX_FILE_SIZE;

verus! {

/// The lengths of the request bodies that carry the byte range `[off, total)`
/// of a `total`-byte file: a full `MAX_BODY_SIZE` window while strictly more
/// than one window of bytes remains, then a single final window with whatever
/// is left.  `chunk_lengths(0, total)` is the plan for a whole file; for a
/// file that fits in one body it is a single chunk.
pub open spec fn chunk_lengths(off: int, total: int) -> Seq<int>
    decreases total - off,
{
    if off + MAX_BODY_SIZE < total {
        seq![MAX_BODY_SIZE as int] + chunk_lengths(off + MAX_BODY_SIZE, total)
    } else {
        seq![total - off]
    }
}

/// The sum of the elements of a sequence of integers.
pub open spec fn sum_seq(s: Seq<int>) -> int
    decreases s.len(),
{
    if s.len() == 0 {
        0
    } else {
        s[0] + sum_seq(s.subrange(1, s.len() as int))
    }
}

/// The chunk plan covers the range exactly: the chunk lengths sum to
/// `total - off`, every chunk is at most `MAX_BODY_SIZE` bytes, every chunk
/// but the last is exactly `MAX_BODY_SIZE` bytes, and as long as bytes remain
/// the final chunk is never empty.
pub proof fn lemma_chunk_lengths(off: int, total: int)
    requires
        0 <= off <= total,
    ensures
        chunk_lengths(off, total).len() >= 1,
        sum_seq(chunk_lengths(off, total)) == total - off,
        forall|i: int|
            0 <= i < chunk_lengths(off, total).len() ==> 0 <= #[trigger] chunk_lengths(
                off,
                total,
            )[i] <= MAX_BODY_SIZE,
        forall|i: int|
            0 <= i < chunk_lengths(off, total).len() - 1 ==> #[trigger] chunk_lengths(
                off,
                total,
            )[i] == MAX_BODY_SIZE,
        off < total ==> chunk_lengths(off, total).last() > 0,
    decreases total - off,
{
    let s = chunk_lengths(off, total);
    if off + MAX_BODY_SIZE < total {
        let rest = chunk_lengths(off + MAX_BODY_SIZE, total);
        lemma_chunk_lengths(off + MAX_BODY_SIZE, total);
        assert_seqs_equal!(s.subrange(1, s.len() as int), rest);
        assert(sum_seq(s) == s[0] + sum_seq(rest));
        assert(forall|i: int| 1 <= i < s.len() ==> #[trigger] s[i] == rest[i - 1]);
        assert(s.last() == rest.last());
    } else {
        assert(s =~= seq![total - off]);
        assert(s.subrange(1, 1) =~= Seq::<int>::empty());
        assert(sum_seq(Seq::<int>::empty()) == 0);
        assert(sum_seq(s) == s[0] + sum_seq(s.subrange(1, 1)));
        assert(sum_seq(s) == total - off);
    }
}

/// A file that fits in a single request body is carried by exactly one chunk
/// holding the whole file: the single-shot path issues exactly one request.
pub proof fn lemma_single_shot_one_chunk(total: int)
    requires
        0 <= total <= MAX_BODY_SIZE,
    ensures
        chunk_lengths(0, total) =~= seq![total],
{
}

/// On the session path the plan opens with one full body and never closes
/// empty: for a file over the one-body cap the chunk lengths sum to the file
/// length, the first chunk is exactly `MAX_BODY_SIZE`, at least two requests
/// are issued, the final chunk holds between one byte and one full body, and
/// exactly two requests — start and finish, with no append between them —
/// are issued precisely when the file fits in two bodies.
pub proof fn lemma_session_plan_shape(total: int)
    requires
        MAX_BODY_SIZE < total,
    ensures
        sum_seq(chunk_lengths(0, total)) == total,
        chunk_lengths(0, total)[0] == MAX_BODY_SIZE,
        chunk_lengths(0, total).len() >= 2,
        0 < chunk_lengths(0, total).last() <= MAX_BODY_SIZE,
        chunk_lengths(0, total).len() == 2 <==> total <= 2 * MAX_BODY_SIZE,
{
    lemma_chunk_lengths(0, total);
    let s = chunk_lengths(0, total);
    let rest = chunk_lengths(MAX_BODY_SIZE as int, total);
    lemma_chunk_lengths(MAX_BODY_SIZE as int, total);
    assert(s == seq![MAX_BODY_SIZE as int] + rest);
    assert(s.len() == 1 + rest.len());
    assert(s.last() == rest.last());
    assert(0 <= s.len() - 1 < s.len());
    assert(s[s.len() - 1] <= MAX_BODY_SIZE);
    if total <= 2 * MAX_BODY_SIZE {
        assert(rest =~= seq![total - MAX_BODY_SIZE]);
    } else {
        let rest2 = chunk_lengths(2 * MAX_BODY_SIZE as int, total);
        lemma_chunk_lengths(2 * MAX_BODY_SIZE as int, total);
        assert(rest == seq![MAX_BODY_SIZE as int] + rest2);
        assert(rest.len() >= 2);
    }
}

/// Each window the session state machine issues carries the head of the
/// remaining chunk plan, and advancing the cursor by one full body moves the
/// plan to its tail: the plan shrinks by one chunk per request, so the
/// session ends after finitely many appends.
pub proof fn lemma_windows_follow_plan(off: int, total: int)
    requires
        0 <= off < total,
    ensures
        chunk_lengths(off, total)[0] == if off + MAX_BODY_SIZE < total {
            MAX_BODY_SIZE as int
        } else {
            total - off
        },
        off + MAX_BODY_SIZE < total ==> chunk_lengths(off, total).subrange(
            1,
            chunk_lengths(off, total).len() as int,
        ) =~= chunk_lengths(off + MAX_BODY_SIZE, total),
        off + MAX_BODY_SIZE < total ==> chunk_lengths(off + MAX_BODY_SIZE, total).len()
            == chunk_lengths(off, total).len() - 1,
{
    if off + MAX_BODY_SIZE < total {
        let s = chunk_lengths(off, total);
        let rest = chunk_lengths(off + MAX_BODY_SIZE, total);
        assert_seqs_equal!(s.subrange(1, s.len() as int), rest);
    }
}

/// Computes the whole chunk plan for a `total`-byte file: the length of every
/// request body its upload will carry, in order.
pub fn chunk_plan(total: u64) -> (plan: Vec<u64>)
    requires
        total <= MAX_FILE_SIZE,
    ensures
        plan@.len() == chunk_lengths(0, total as int).len(),
        forall|i: int|
            0 <= i < plan@.len() ==> plan@[i] == #[trigger] chunk_lengths(0, total as int)[i],
{
    let mut plan: Vec<u64> = Vec::new();
    let mut off: u64 = 0;
    while off + MAX_BODY_SIZE < total
        invariant
            total <= MAX_FILE_SIZE,
            off <= total,
            chunk_lengths(0, total as int) =~= plan@.map_values(|c: u64| c as int)
                + chunk_lengths(off as int, total as int),
        decreases total - off,
    {
        let ghost before = plan@.map_values(|c: u64| c as int);
        plan.push(MAX_BODY_SIZE);
        off = off + MAX_BODY_SIZE;
        proof {
            assert_seqs_equal!(plan@.map_values(|c: u64| c as int), before.push(MAX_BODY_SIZE as int));
            assert(chunk_lengths(0, total as int) =~= before.push(MAX_BODY_SIZE as int)
                + chunk_lengths(off as int, total as int));
        }
    }
    let ghost before = plan@.map_values(|c: u64| c as int);
    let last: u64 = total - off;
    plan.push(last);
    proof {
        assert(chunk_lengths(off as int, total as int) =~= seq![last as int]);
        assert_seqs_equal!(plan@.map_values(|c: u64| c as int), before.push(last as int));
        assert(plan@.map_values(|c: u64| c as int) =~= chunk_lengths(0, total as int));
        assert forall|i: int| 0 <= i < plan@.len() implies plan@[i] == #[trigger] chunk_lengths(
            0,
            total as int,
        )[i] by {
            assert(plan@.map_values(|c: u64| c as int)[i] == plan@[i] as int);
        }
    }
    plan
}

} // verus!
