use vstd::prelude::*;

use crate::debug_ctx::{PerEntry, SrcLoc, next_frame, per_entries};
use crate::msg_buf::{gated_push, keep_newest};

verus! {

/// The entries `s` after `MsgBuf::push` of each of `msgs` in turn, through an enable flag that
/// stays `enabled`.
pub open spec fn push_all<Msg>(s: Seq<Msg>, enabled: bool, msgs: Seq<Msg>) -> Seq<Msg>
    decreases msgs.len(),
{
    if msgs.len() == 0 {
        s
    } else {
        gated_push(push_all(s, enabled, msgs.drop_last()), enabled, msgs.last())
    }
}

/// The persistent entries `s` after `per` recorded each of `es` in turn, with the
/// enable flag staying `enabled` and the cap staying `cap`.
pub open spec fn per_all(s: Seq<PerEntry>, enabled: bool, es: Seq<PerEntry>, cap: nat) -> Seq<
    PerEntry,
>
    decreases es.len(),
{
    if es.len() == 0 {
        s
    } else {
        per_entries(per_all(s, enabled, es.drop_last(), cap), enabled, es.last(), cap)
    }
}

/// The enable flag `e` after `n` calls of `MsgBuf::toggle`.
pub open spec fn toggled(e: bool, n: nat) -> bool
    decreases n,
{
    if n == 0 {
        e
    } else {
        !toggled(e, (n - 1) as nat)
    }
}

/// The frame counter `start` after `n` calls of `inc_frame`.
pub open spec fn advanced(start: u32, n: nat) -> u32
    decreases n,
{
    if n == 0 {
        start
    } else {
        next_frame(advanced(start, (n - 1) as nat))
    }
}

/// Pushing while enabled appends every message, in call order: the buffer grows by
/// exactly the number of pushes.
pub proof fn lemma_enabled_pushes_append<Msg>(s: Seq<Msg>, msgs: Seq<Msg>)
    ensures
        push_all(s, true, msgs) == s + msgs,
        push_all(s, true, msgs).len() == s.len() + msgs.len(),
    decreases msgs.len(),
{
    if msgs.len() > 0 {
        lemma_enabled_pushes_append(s, msgs.drop_last());
        assert(s + msgs == (s + msgs.drop_last()).push(msgs.last()));
    } else {
        assert(s + msgs == s);
    }
}

/// Pushing while disabled adds nothing.
pub proof fn lemma_disabled_pushes_keep<Msg>(s: Seq<Msg>, msgs: Seq<Msg>)
    ensures
        push_all(s, false, msgs) == s,
    decreases msgs.len(),
{
    if msgs.len() > 0 {
        lemma_disabled_pushes_keep(s, msgs.drop_last());
    }
}

/// Trimming to `max` leaves at most `max` entries; when there were more, exactly the
/// newest `max` remain in their original order, the oldest of them being the one that
/// stood at position `s.len() - max`.
pub proof fn lemma_trim_keeps_newest<Msg>(s: Seq<Msg>, max: nat)
    ensures
        keep_newest(s, max).len() <= max,
        s.len() <= max ==> keep_newest(s, max) == s,
        max < s.len() ==> keep_newest(s, max).len() == max && forall|i: int|
            0 <= i < max ==> #[trigger] keep_newest(s, max)[i] == s[s.len() - max + i],
{
}

/// Toggling an even number of times restores the flag; an odd number of times flips it.
pub proof fn lemma_toggle_parity(e: bool, n: nat)
    ensures
        toggled(e, n) == (if n % 2 == 0 {
            e
        } else {
            !e
        }),
    decreases n,
{
    if n > 0 {
        lemma_toggle_parity(e, (n - 1) as nat);
    }
}

/// After `n` advances from a fresh counter, the counter reads `n`, modulo 2^32.
pub proof fn lemma_advances_count(n: nat)
    ensures
        advanced(0, n) == n % 0x1_0000_0000,
    decreases n,
{
    if n > 0 {
        lemma_advances_count((n - 1) as nat);
    }
}

/// An entry that `per` records after `n` advances from a fresh counter, into an enabled
/// buffer whose cap is not zero, is the newest entry and carries frame `n` (modulo 2^32).
pub proof fn lemma_frame_stamp(
    n: nat,
    s: Seq<PerEntry>,
    info: String,
    src_loc: Option<SrcLoc>,
    cap: nat,
)
    requires
        cap > 0,
    ensures
        per_entries(s, true, (PerEntry { frame: advanced(0, n), info, src_loc }), cap).last()
            == (PerEntry { frame: advanced(0, n), info, src_loc }),
        per_entries(
            s,
            true,
            (PerEntry { frame: advanced(0, n), info, src_loc }),
            cap,
        ).last().frame == n % 0x1_0000_0000,
{
    lemma_advances_count(n);
}

/// Keeping the newest `cap` after each push keeps the same as keeping the newest `cap`
/// once at the end.
proof fn lemma_keep_newest_push<T>(t: Seq<T>, x: T, cap: nat)
    ensures
        keep_newest(keep_newest(t, cap).push(x), cap) == keep_newest(t.push(x), cap),
{
    let k = keep_newest(t, cap);
    assert(keep_newest(k.push(x), cap) =~= keep_newest(t.push(x), cap));
}

/// With the persistent buffer enabled and within its cap, recording entries one by one
/// leaves exactly the newest `cap` of them all, oldest first.
pub proof fn lemma_persistent_cap(s: Seq<PerEntry>, es: Seq<PerEntry>, cap: nat)
    requires
        s.len() <= cap,
    ensures
        per_all(s, true, es, cap) == keep_newest(s + es, cap),
        per_all(s, true, es, cap).len() == if s.len() + es.len() <= cap {
            s.len() + es.len()
        } else {
            cap
        },
    decreases es.len(),
{
    if es.len() > 0 {
        lemma_persistent_cap(s, es.drop_last(), cap);
        assert(s + es == (s + es.drop_last()).push(es.last()));
        lemma_keep_newest_push(s + es.drop_last(), es.last(), cap);
    } else {
        assert(s + es == s);
    }
}

} // verus!
