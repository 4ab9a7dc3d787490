//! Laws of the dual-slot protocol.
//!
//! Each proof function here states a guarantee of [`Movetex`](crate::Movetex)
//! that spans more than one operation, over the outcome predicates that the
//! operations' own contracts establish. The hypotheses of each law are
//! exactly those contracts, so every law applies to any run of the real code.

use vstd::prelude::*;

use crate::Movetex;

verus! {

/// Read after construct: a cell freshly constructed with `v` shows readers a
/// clone of `v` (for a value whose `Clone` returns an equal value, exactly
/// `v`), stages exactly `v` for the first writer, and starts with no write in
/// flight.
pub proof fn lemma_read_after_construct<T: Clone>(v: T, cell: Movetex<T>)
    requires
        Movetex::new_outcome(cell, v),
    ensures
        cloned(v, cell.read_value()),
        cell.staged() == Some(v),
        !cell.write_in_flight(),
{
}

/// Single-writer exclusion: while one writer holds the claim, any other
/// `write` attempt fails and leaves the cell exactly as it was — no
/// interleaving ever applies both mutations without one failing.
pub proof fn lemma_single_writer_exclusion<T: Clone, F: FnOnce(T) -> T>(
    held: Movetex<T>,
    after: Movetex<T>,
    mutator: F,
    ok: bool,
)
    requires
        held.write_in_flight(),
        Movetex::write_outcome(held, after, mutator, ok),
    ensures
        !ok,
        after.staged() == held.staged(),
        after.read_value() == held.read_value(),
{
}

/// Reader isolation: a read issued while a write is in its mutation phase —
/// after the claim, before the publish — observes exactly the value that was
/// visible before the claim, never a torn or intermediate state; a read
/// issued after the publish observes exactly the finished published value.
pub proof fn lemma_reader_isolation<T: Clone>(
    pre: Movetex<T>,
    mid: Movetex<T>,
    post: Movetex<T>,
    grant: Option<T>,
    value: T,
)
    requires
        Movetex::claim_outcome(pre, mid, grant),
        Movetex::publish_outcome(mid, post, value),
    ensures
        mid.read_value() == pre.read_value(),
        cloned(value, post.read_value()),
{
}

/// Write visibility: a successful `write` applies the mutator to the staged
/// value and publishes a clone of the result to readers, and that published
/// value stays visible across any subsequent `swap` — only another
/// successful `write` can replace what readers observe.
pub proof fn lemma_write_visibility<T: Clone, F: FnOnce(T) -> T>(
    pre: Movetex<T>,
    written: Movetex<T>,
    swapped: Movetex<T>,
    mutator: F,
    value: T,
    previous: Option<T>,
)
    requires
        Movetex::write_outcome(pre, written, mutator, true),
        Movetex::swap_outcome(written, swapped, value, previous),
    ensures
        call_ensures(mutator, (pre.staged()->0,), written.staged()->0),
        cloned(written.staged()->0, written.read_value()),
        swapped.read_value() == written.read_value(),
{
}

/// Swap/old-value correctness: each successful `swap` in a series hands back
/// exactly the value installed by the immediately preceding `swap` (or the
/// initially staged value), and never touches what readers observe.
pub proof fn lemma_swap_returns_previous<T: Clone>(
    s0: Movetex<T>,
    s1: Movetex<T>,
    s2: Movetex<T>,
    first: T,
    second: T,
    r1: Option<T>,
    r2: Option<T>,
)
    requires
        Movetex::swap_outcome(s0, s1, first, r1),
        Movetex::swap_outcome(s1, s2, second, r2),
    ensures
        r1 == s0.staged(),
        r2 == Some(first),
        s2.read_value() == s0.read_value(),
{
}

/// Swap under a claim: a `swap` issued while a write holds the claim reports
/// busy (`None`) rather than handing back a value, yet still installs its
/// argument as the new staged value.
pub proof fn lemma_swap_busy<T: Clone>(
    held: Movetex<T>,
    after: Movetex<T>,
    value: T,
    previous: Option<T>,
)
    requires
        held.write_in_flight(),
        Movetex::swap_outcome(held, after, value, previous),
    ensures
        previous is None,
        after.staged() == Some(value),
{
}

/// Swap then write: a successful `write` issued after a `swap` runs its
/// mutator on exactly the swapped-in value and publishes a clone of the
/// result — the only path by which a swapped value ever reaches readers.
pub proof fn lemma_swap_then_write_propagates<T: Clone, F: FnOnce(T) -> T>(
    s0: Movetex<T>,
    s1: Movetex<T>,
    s2: Movetex<T>,
    value: T,
    previous: Option<T>,
    mutator: F,
)
    requires
        Movetex::swap_outcome(s0, s1, value, previous),
        Movetex::write_outcome(s1, s2, mutator, true),
    ensures
        call_ensures(mutator, (value,), s2.staged()->0),
        cloned(s2.staged()->0, s2.read_value()),
{
}

/// No write is lost: two consecutive successful `write` calls chain exactly —
/// the second mutator runs on precisely the value the first one produced (the
/// staged copy is handed on unchanged, never re-cloned), and readers end up
/// with a clone of the final result. Together with single-writer exclusion,
/// which shows a failed attempt has no effect, a retry loop around `write`
/// applies every mutation exactly once.
pub proof fn lemma_no_write_lost<T: Clone, F: FnOnce(T) -> T, G: FnOnce(T) -> T>(
    s0: Movetex<T>,
    s1: Movetex<T>,
    s2: Movetex<T>,
    first: F,
    second: G,
)
    requires
        Movetex::write_outcome(s0, s1, first, true),
        Movetex::write_outcome(s1, s2, second, true),
    ensures
        call_ensures(first, (s0.staged()->0,), s1.staged()->0),
        call_ensures(second, (s1.staged()->0,), s2.staged()->0),
        cloned(s2.staged()->0, s2.read_value()),
{
}

} // verus!
