//! Compaction of the episodic memory: old summaries of adjacent ticks are merged.

use vstd::prelude::*;
use vstd::string::*;

use crate::text::{
    byte_len, clean_cut, cuts_cleanly, dec, dec_u64, first_n, join, joined, lines_of, list_has,
    over_bytes, shorten, shortened, split_lines, texts,
};
use crate::types::{ArtifactId, ExoError};

verus! {

/// How a compaction works.
#[derive(Debug, Clone, Copy, PartialEq, Eq, Structural)]
pub struct CompactionConfig {
    /// How many of the newest summaries stay as they are.
    pub preserve_recent: usize,
}

impl Default for CompactionConfig {
    fn default() -> (r: Self)
        ensures
            r.preserve_recent == 3,
    {
        CompactionConfig { preserve_recent: 3 }
    }
}

/// The outcome of a compaction.
#[derive(Debug, Clone, Copy, PartialEq, Eq, Structural)]
pub enum CompactionResult {
    /// There was nothing to merge.
    NoAction,
    Compacted {
        /// How many summaries were merged.
        entries_merged: usize,
        /// How many summaries took their place.
        summaries_written: usize,
    },
}

/// A summary of what happened in a range of ticks.
#[derive(Debug, PartialEq, Eq)]
pub struct EpisodicSummary {
    pub id: ArtifactId,
    pub start_tick: u64,
    pub end_tick: u64,
    pub summary: String,
    pub key_events: Vec<String>,
}

/// A summary that is to be written.
#[derive(Debug, PartialEq, Eq)]
pub struct MergedSummary {
    pub start_tick: u64,
    pub end_tick: u64,
    pub summary: String,
    pub key_events: Vec<String>,
}

/// A summary that is to be written, and the summaries that are to be deleted for
/// it.
#[derive(Debug, PartialEq, Eq)]
pub struct Merge {
    pub merged: MergedSummary,
    pub originals: Vec<EpisodicSummary>,
}

/// How many bytes of the first line of a summary are kept whole.
pub const LINE_LIMIT: usize = 100;

/// How many bytes of a longer first line are kept.
pub const LINE_KEEP: usize = 97;

/// How many key events a merged summary keeps.
pub const EVENT_LIMIT: usize = 10;

// ---------------------------------------------------------------------------
// When to compact
// ---------------------------------------------------------------------------

/// One more than the largest number below which every whole number has a 64-bit
/// floating-point number of its own.
pub const EXACT_LIMIT: u64 = 0x20_0000_0000_0000;

/// How far the 64-bit floating-point numbers next to `n` lie apart, or one if they lie
/// closer.
pub open spec fn spacing(n: nat) -> nat
    decreases n,
{
    if n < EXACT_LIMIT {
        1
    } else {
        2 * spacing(n / 2)
    }
}

/// The 64-bit floating-point number next to `n`. Of two that are equally near it is the
/// one with the even fraction.
pub open spec fn nearest(n: nat) -> nat {
    let unit = spacing(n);
    let rest = n % unit;
    if 2 * rest > unit || (2 * rest == unit && (n / unit) % 2 == 1) {
        (n / unit + 1) * unit
    } else {
        n / unit * unit
    }
}

/// More than four fifths of the capacity are in use, in 64-bit floating-point numbers.
///
/// The number next to four fifths is 7205759403792794 / 2^53, with an even fraction. The
/// quotient lies above it if it lies above the middle between it and the next one.
pub open spec fn is_crowded(count: u64, capacity: u64) -> bool {
    nearest(count as nat) * 0x40_0000_0000_0000 > nearest(capacity as nat) * 14411518807585589
}

/// The context was truncated, or more than four fifths of the capacity are in use.
pub open spec fn wants_compaction(truncated: nat, count: u64, capacity: Option<u64>) -> bool {
    truncated > 0 || (capacity matches Some(c) && c > 0 && is_crowded(count, c))
}

/// Up to a capacity of 2^50 no rounding shows: the memory is crowded if more than four
/// fifths of the capacity are in use.
pub proof fn crowded_above_four_fifths(count: u64, capacity: u64)
    requires
        count < EXACT_LIMIT,
        capacity <= 0x4_0000_0000_0000,
    ensures
        is_crowded(count, capacity) == (5 * count > 4 * capacity),
{
    small_numbers_are_exact(count as nat);
    small_numbers_are_exact(capacity as nat);
}

proof fn small_numbers_are_exact(n: nat)
    requires
        n < EXACT_LIMIT,
    ensures
        nearest(n) == n,
{
    let unit = spacing(n);
    assert(n / unit * unit == n && n % unit == 0) by (nonlinear_arith)
        requires
            unit == 1,
    ;
}

proof fn spacing_is_small(n: nat)
    ensures
        1 <= spacing(n),
        spacing(n) == 1 || spacing(n) * EXACT_LIMIT <= 2 * n,
    decreases n,
{
    if n >= EXACT_LIMIT {
        spacing_is_small(n / 2);
    }
}

/// The 64-bit floating-point number next to `n`.
fn nearest_to(n: u64) -> (r: u128)
    ensures
        r == nearest(n as nat),
        r <= 0x2_0000_0000_0000_0000,
{
    let mut unit: u64 = 1;
    let mut left: u64 = n;
    while left >= EXACT_LIMIT
        invariant
            spacing(n as nat) == unit * spacing(left as nat),
            unit >= 1,
            unit * left <= n,
        decreases left,
    {
        proof {
            assert(unit <= 0x800) by (nonlinear_arith)
                requires
                    unit * left <= n,
                    left >= EXACT_LIMIT,
                    n <= u64::MAX,
            ;
            assert(unit * spacing(left as nat) == (2 * unit) * spacing((left / 2) as nat))
                by (nonlinear_arith)
                requires
                    spacing(left as nat) == 2 * spacing((left / 2) as nat),
            ;
            assert((2 * unit) * (left / 2) <= unit * left) by (nonlinear_arith)
                requires
                    2 * (left / 2) <= left,
                    unit >= 1,
            ;
        }
        unit = 2 * unit;
        left = left / 2;
    }
    assert(unit * spacing(left as nat) == unit) by (nonlinear_arith)
        requires
            spacing(left as nat) == 1,
    ;
    proof {
        spacing_is_small(n as nat);
    }
    assert(unit <= 0x1000) by {
        if unit != 1 {
            assert(unit * EXACT_LIMIT <= 2 * n);
        }
    }
    let whole: u64 = n / unit;
    let rest: u64 = n % unit;
    assert(whole * unit <= n) by (nonlinear_arith)
        requires
            whole == n / unit,
            unit >= 1,
    ;
    assert((whole + 1) * unit == whole * unit + unit) by (nonlinear_arith);
    if 2 * rest > unit || (2 * rest == unit && whole % 2 == 1) {
        (whole as u128 + 1) * (unit as u128)
    } else {
        (whole as u128) * (unit as u128)
    }
}

/// Tells whether the memory should be compacted: the context was truncated, or more
/// than four fifths of the capacity are in use.
pub fn should_compact(
    truncated_sections: &Vec<String>,
    episodic_count: u64,
    episodic_capacity: Option<u64>,
) -> (r: bool)
    ensures
        r == wants_compaction(truncated_sections@.len(), episodic_count, episodic_capacity),
{
    if truncated_sections.len() > 0 {
        return true;
    }
    match episodic_capacity {
        Some(capacity) => {
            if capacity > 0 {
                return nearest_to(episodic_count) * 0x40_0000_0000_0000 > nearest_to(capacity)
                    * 14411518807585589;
            }
            false
        },
        None => false,
    }
}

// ---------------------------------------------------------------------------
// Order
// ---------------------------------------------------------------------------

/// `x` placed behind all summaries that do not start after it.
pub open spec fn placed(s: Seq<EpisodicSummary>, x: EpisodicSummary) -> Seq<EpisodicSummary>
    decreases s.len(),
{
    if s.len() == 0 || s.last().start_tick <= x.start_tick {
        s.push(x)
    } else {
        placed(s.drop_last(), x).push(s.last())
    }
}

/// The summaries by the tick in which they start. Those with the same start keep
/// their order.
pub open spec fn by_start(s: Seq<EpisodicSummary>) -> Seq<EpisodicSummary>
    decreases s.len(),
{
    if s.len() == 0 {
        s
    } else {
        placed(by_start(s.drop_last()), s.last())
    }
}

/// No summary starts before the one in front of it.
pub open spec fn is_ordered(s: Seq<EpisodicSummary>) -> bool {
    forall|i: int, j: int|
        0 <= i < j < s.len() ==> (#[trigger] s[i]).start_tick <= (#[trigger] s[j]).start_tick
}

proof fn placed_is_ordered(s: Seq<EpisodicSummary>, x: EpisodicSummary)
    requires
        is_ordered(s),
    ensures
        is_ordered(placed(s, x)),
        placed(s, x).to_multiset() == s.to_multiset().insert(x),
        placed(s, x).len() == s.len() + 1,
        forall|i: int|
            0 <= i < placed(s, x).len() ==> (#[trigger] placed(s, x)[i]) == x || s.contains(
                placed(s, x)[i],
            ),
    decreases s.len(),
{
    broadcast use vstd::seq_lib::group_to_multiset_ensures;

    if s.len() == 0 || s.last().start_tick <= x.start_tick {
        assert forall|i: int| 0 <= i < placed(s, x).len() implies (#[trigger] placed(s, x)[i]) == x
            || s.contains(placed(s, x)[i]) by {
            if i < s.len() {
                assert(s[i] == placed(s, x)[i]);
            }
        }
        assert forall|i: int, j: int| 0 <= i < j < placed(s, x).len() implies (#[trigger] placed(
            s,
            x,
        )[i]).start_tick <= (#[trigger] placed(s, x)[j]).start_tick by {
            if j == s.len() {
                assert(s[i].start_tick <= s[s.len() - 1].start_tick);
            }
        }
    } else {
        let front = s.drop_last();
        assert(is_ordered(front)) by {
            assert forall|i: int, j: int| 0 <= i < j < front.len() implies (
            #[trigger] front[i]).start_tick <= (#[trigger] front[j]).start_tick by {
                assert(s[i].start_tick <= s[j].start_tick);
            }
        }
        placed_is_ordered(front, x);
        let p = placed(front, x);
        assert(s =~= front.push(s.last()));
        assert(p.push(s.last()).to_multiset() == p.to_multiset().insert(s.last()));
        assert(s.to_multiset() == front.to_multiset().insert(s.last()));
        assert(front.to_multiset().insert(x).insert(s.last()) =~= front.to_multiset().insert(
            s.last(),
        ).insert(x));
        assert forall|i: int| 0 <= i < placed(s, x).len() implies (#[trigger] placed(s, x)[i]) == x
            || s.contains(placed(s, x)[i]) by {
            if i < p.len() {
                assert(p[i] == x || front.contains(p[i]));
                if front.contains(p[i]) {
                    let k = choose|k: int| 0 <= k < front.len() && front[k] == p[i];
                    assert(s[k] == p[i]);
                }
            } else {
                assert(s[s.len() - 1] == s.last());
            }
        }
        assert forall|i: int, j: int| 0 <= i < j < placed(s, x).len() implies (#[trigger] placed(
            s,
            x,
        )[i]).start_tick <= (#[trigger] placed(s, x)[j]).start_tick by {
            if j == p.len() {
                assert(p[i] == x || front.contains(p[i]));
                if front.contains(p[i]) {
                    let k = choose|k: int| 0 <= k < front.len() && front[k] == p[i];
                    assert(s[k].start_tick <= s[s.len() - 1].start_tick);
                }
            }
        }
    }
}

/// Ordering the summaries loses none and adds none.
pub proof fn ordering_keeps_summaries(s: Seq<EpisodicSummary>)
    ensures
        is_ordered(by_start(s)),
        by_start(s).to_multiset() == s.to_multiset(),
        by_start(s).len() == s.len(),
    decreases s.len(),
{
    broadcast use vstd::seq_lib::group_to_multiset_ensures;

    if s.len() > 0 {
        ordering_keeps_summaries(s.drop_last());
        placed_is_ordered(by_start(s.drop_last()), s.last());
        assert(s =~= s.drop_last().push(s.last()));
    }
}

/// Orders the summaries by the tick in which they start.
pub fn sort_by_start(summaries: Vec<EpisodicSummary>) -> (r: Vec<EpisodicSummary>)
    ensures
        r@ == by_start(summaries@),
{
    let mut rest = summaries;
    let ghost all = summaries@;
    let ghost mut done: int = 0;
    let mut out: Vec<EpisodicSummary> = Vec::new();
    assert(all.subrange(0, all.len() as int) =~= all);
    assert(out@ =~= by_start(all.subrange(0, 0)));
    while rest.len() > 0
        invariant
            0 <= done <= all.len(),
            rest@ == all.subrange(done, all.len() as int),
            out@ == by_start(all.subrange(0, done)),
        decreases rest@.len(),
    {
        let x = rest.remove(0);
        let ghost before = out@;
        let mut p: usize = out.len();
        assert(before.subrange(0, p as int) =~= before);
        assert(before.subrange(p as int, before.len() as int) =~= Seq::<EpisodicSummary>::empty());
        assert(placed(before, x) =~= placed(before.subrange(0, p as int), x) + before.subrange(
            p as int,
            before.len() as int,
        ));
        while p > 0 && out[p - 1].start_tick > x.start_tick
            invariant
                out@ == before,
                p <= before.len(),
                placed(before, x) == placed(before.subrange(0, p as int), x) + before.subrange(
                    p as int,
                    before.len() as int,
                ),
            decreases p,
        {
            let ghost front = before.subrange(0, p as int);
            assert(front.drop_last() =~= before.subrange(0, p - 1));
            assert(placed(front, x) == placed(before.subrange(0, p - 1), x).push(
                before[p - 1],
            ));
            assert(placed(before, x) =~= placed(before.subrange(0, p - 1), x) + before.subrange(
                p - 1,
                before.len() as int,
            ));
            p = p - 1;
        }
        assert(placed(before.subrange(0, p as int), x) == before.subrange(0, p as int).push(x));
        out.insert(p, x);
        assert(out@ =~= placed(before, x));
        proof {
            assert(rest@ =~= all.subrange(done + 1, all.len() as int));
            assert(all.subrange(0, done + 1).drop_last() =~= all.subrange(0, done));
            done = done + 1;
        }
    }
    assert(all.subrange(0, done) =~= all);
    out
}

// ---------------------------------------------------------------------------
// Groups
// ---------------------------------------------------------------------------

/// `next` follows `last` closely enough to be merged with it.
pub open spec fn adjoins(last: EpisodicSummary, next: EpisodicSummary) -> bool {
    next.start_tick <= last.end_tick + 2
}

/// The summaries cut into groups: a new group begins where a summary does not
/// adjoin the one in front of it.
pub open spec fn grouped(s: Seq<EpisodicSummary>) -> Seq<Seq<EpisodicSummary>>
    decreases s.len(),
{
    if s.len() == 0 {
        Seq::empty()
    } else {
        let front = grouped(s.drop_last());
        if s.len() > 1 && adjoins(s[s.len() - 2], s.last()) {
            front.drop_last().push(front.last().push(s.last()))
        } else {
            front.push(seq![s.last()])
        }
    }
}

/// The contents of a list of groups.
pub open spec fn contents(groups: Seq<Vec<EpisodicSummary>>) -> Seq<Seq<EpisodicSummary>> {
    Seq::new(groups.len(), |i: int| groups[i]@)
}

/// No group is empty, and the groups put together are the summaries.
pub proof fn groups_cover_summaries(s: Seq<EpisodicSummary>)
    ensures
        grouped(s).flatten() == s,
        s.len() > 0 ==> grouped(s).len() > 0 && grouped(s).last().len() > 0 && grouped(
            s,
        ).last().last() == s.last(),
        forall|i: int| 0 <= i < grouped(s).len() ==> (#[trigger] grouped(s)[i]).len() > 0,
    decreases s.len(),
{
    if s.len() == 0 {
        assert(grouped(s).flatten() =~= s);
    } else {
        let front = grouped(s.drop_last());
        groups_cover_summaries(s.drop_last());
        assert(s =~= s.drop_last().push(s.last()));
        if s.len() > 1 && adjoins(s[s.len() - 2], s.last()) {
            let head = front.drop_last();
            let grown = front.last().push(s.last());
            assert(front =~= head.push(front.last()));
            head.lemma_flatten_push(front.last());
            head.lemma_flatten_push(grown);
            assert(head.flatten() + grown =~= (head.flatten() + front.last()).push(s.last()));
        } else {
            front.lemma_flatten_push(seq![s.last()]);
            assert(front.flatten() + seq![s.last()] =~= s);
        }
    }
}

/// Cuts the summaries into groups of summaries that adjoin one another.
pub fn group_consecutive(summaries: Vec<EpisodicSummary>) -> (groups: Vec<Vec<EpisodicSummary>>)
    requires
        forall|i: int|
            0 <= i < summaries@.len() - 1 ==> (#[trigger] summaries@[i]).end_tick <= u64::MAX - 2,
    ensures
        contents(groups@) == grouped(summaries@),
{
    let mut rest = summaries;
    let ghost all = summaries@;
    let mut groups: Vec<Vec<EpisodicSummary>> = Vec::new();
    if rest.len() == 0 {
        assert(contents(groups@) =~= grouped(all));
        return groups;
    }
    let first = rest.remove(0);
    let mut prev_end: u64 = first.end_tick;
    let mut current: Vec<EpisodicSummary> = Vec::new();
    current.push(first);
    let ghost mut done: int = 1;
    assert(rest@ =~= all.subrange(1, all.len() as int));
    assert(all.subrange(0, 1).drop_last() =~= Seq::<EpisodicSummary>::empty());
    assert(current@ =~= seq![all[0]]);
    assert(grouped(all.subrange(0, 1).drop_last()) =~= Seq::<Seq<EpisodicSummary>>::empty());
    assert(all.subrange(0, 1).last() == all[0]);
    assert(contents(groups@).push(current@) =~= grouped(all.subrange(0, 1)));
    while rest.len() > 0
        invariant
            1 <= done <= all.len(),
            rest@ == all.subrange(done, all.len() as int),
            contents(groups@).push(current@) == grouped(all.subrange(0, done)),
            prev_end == all[done - 1].end_tick,
            forall|i: int|
                0 <= i < all.len() - 1 ==> (#[trigger] all[i]).end_tick <= u64::MAX - 2,
        decreases rest@.len(),
    {
        let ghost seen = all.subrange(0, done + 1);
        let ghost front = contents(groups@).push(current@);
        let ghost groups_before = groups@;
        let ghost current_before = current@;
        assert(seen.drop_last() =~= all.subrange(0, done));
        assert(seen[seen.len() - 2] == all[done - 1]);
        assert(front.drop_last() =~= contents(groups@));
        let next = rest.remove(0);
        assert(next == all[done]);
        let joins = next.start_tick <= prev_end + 2;
        prev_end = next.end_tick;
        if joins {
            current.push(next);
            assert(contents(groups@).push(current@) =~= grouped(seen));
        } else {
            groups.push(current);
            assert(contents(groups@) =~= contents(groups_before).push(current_before));
            current = Vec::new();
            current.push(next);
            assert(current@ =~= seq![all[done]]);
            assert(contents(groups@).push(current@) =~= grouped(seen));
        }
        proof {
            assert(rest@ =~= all.subrange(done + 1, all.len() as int));
            done = done + 1;
        }
    }
    assert(all.subrange(0, done) =~= all);
    let ghost last = current@;
    let ghost front = groups@;
    groups.push(current);
    assert(contents(groups@) =~= contents(front).push(last));
    groups
}

// ---------------------------------------------------------------------------
// Merging
// ---------------------------------------------------------------------------

/// The earliest start.
pub open spec fn first_start(group: Seq<EpisodicSummary>) -> u64
    decreases group.len(),
{
    if group.len() <= 1 {
        group[0].start_tick
    } else if group.last().start_tick < first_start(group.drop_last()) {
        group.last().start_tick
    } else {
        first_start(group.drop_last())
    }
}

/// The latest end.
pub open spec fn last_end(group: Seq<EpisodicSummary>) -> u64
    decreases group.len(),
{
    if group.len() <= 1 {
        group[0].end_tick
    } else if group.last().end_tick > last_end(group.drop_last()) {
        group.last().end_tick
    } else {
        last_end(group.drop_last())
    }
}

/// The first line of a text.
pub open spec fn first_line(text: Seq<char>) -> Seq<char> {
    if lines_of(text).len() > 0 {
        lines_of(text)[0]
    } else {
        text
    }
}

/// What a merged summary says of a summary: its first line, shortened.
pub open spec fn headline(s: EpisodicSummary) -> Seq<char> {
    shortened(first_line(s.summary@), LINE_LIMIT as nat, LINE_KEEP as int)
}

/// The first line can be shortened without splitting a character.
pub open spec fn headline_cuts(s: EpisodicSummary) -> bool {
    byte_len(first_line(s.summary@)) > LINE_LIMIT ==> cuts_cleanly(
        first_line(s.summary@),
        LINE_KEEP as int,
    )
}

/// The headlines of a group.
pub open spec fn headlines(group: Seq<EpisodicSummary>) -> Seq<Seq<char>> {
    Seq::new(group.len(), |i: int| headline(group[i]))
}

/// The key events of a group, in order.
pub open spec fn all_events(group: Seq<EpisodicSummary>) -> Seq<Seq<char>>
    decreases group.len(),
{
    if group.len() == 0 {
        Seq::empty()
    } else {
        all_events(group.drop_last()) + texts(group.last().key_events@)
    }
}

/// The texts without those that occurred before.
pub open spec fn distinct(s: Seq<Seq<char>>) -> Seq<Seq<char>>
    decreases s.len(),
{
    if s.len() == 0 {
        s
    } else if distinct(s.drop_last()).contains(s.last()) {
        distinct(s.drop_last())
    } else {
        distinct(s.drop_last()).push(s.last())
    }
}

/// The text of a merged summary.
pub open spec fn merged_text(group: Seq<EpisodicSummary>) -> Seq<char> {
    "Compacted ticks "@ + dec(first_start(group) as nat) + "-"@ + dec(last_end(group) as nat)
        + ": "@ + joined(headlines(group), "; "@)
}

/// `m` is what a group is merged into.
pub open spec fn merges(m: MergedSummary, group: Seq<EpisodicSummary>) -> bool {
    &&& m.start_tick == first_start(group)
    &&& m.end_tick == last_end(group)
    &&& m.summary@ == merged_text(group)
    &&& texts(m.key_events@) == first_n(distinct(all_events(group)), EVENT_LIMIT as int)
}

fn headline_of(s: &EpisodicSummary) -> (r: String)
    requires
        headline_cuts(*s),
    ensures
        r@ == headline(*s),
{
    let lines = split_lines(s.summary.as_str());
    assert(texts(lines@).len() == lines@.len());
    let line = if lines.len() > 0 {
        assert(texts(lines@)[0] == lines@[0]@);
        lines[0].as_str()
    } else {
        s.summary.as_str()
    };
    shorten(line, LINE_LIMIT, LINE_KEEP)
}

/// Merges a group of summaries into one.
///
/// The merged summary covers the ticks of all of them, quotes the first line of
/// each, and keeps the first ten different key events.
pub fn merge_summaries(group: &Vec<EpisodicSummary>) -> (m: MergedSummary)
    requires
        group@.len() > 0,
        headlines_cut(group@),
    ensures
        merges(m, group@),
{
    let mut start_tick: u64 = group[0].start_tick;
    let mut end_tick: u64 = group[0].end_tick;
    let mut lines: Vec<String> = Vec::new();
    let mut events: Vec<String> = Vec::new();
    let mut i: usize = 0;
    assert(texts(events@) =~= distinct(all_events(group@.subrange(0, 0))));
    assert(texts(lines@) =~= headlines(group@.subrange(0, 0)));
    while i < group.len()
        invariant
            group@.len() > 0,
            i <= group@.len(),
            forall|k: int| 0 <= k < group@.len() ==> headline_cuts(#[trigger] group@[k]),
            i == 0 ==> start_tick == group@[0].start_tick && end_tick == group@[0].end_tick,
            i > 0 ==> start_tick == first_start(group@.subrange(0, i as int)) && end_tick
                == last_end(group@.subrange(0, i as int)),
            texts(lines@) == headlines(group@.subrange(0, i as int)),
            texts(events@) == distinct(all_events(group@.subrange(0, i as int))),
        decreases group@.len() - i,
    {
        let entry = &group[i];
        let ghost seen = group@.subrange(0, i + 1);
        let ghost front = group@.subrange(0, i as int);
        assert(seen.drop_last() =~= front);
        assert(seen.last() == *entry);
        if entry.start_tick < start_tick {
            start_tick = entry.start_tick;
        }
        if entry.end_tick > end_tick {
            end_tick = entry.end_tick;
        }
        let ghost lines_before = lines@;
        assert(texts(lines_before).len() == headlines(front).len());
        lines.push(headline_of(entry));
        assert forall|k: int| 0 <= k < seen.len() implies #[trigger] texts(lines@)[k] == headlines(
            seen,
        )[k] by {
            if k < i {
                assert(texts(lines_before)[k] == headlines(front)[k]);
                assert(front[k] == seen[k]);
            }
        }
        assert(texts(lines@) =~= headlines(seen));
        let ghost base = all_events(front);
        let mut j: usize = 0;
        assert(base + texts(entry.key_events@).subrange(0, 0) =~= base);
        while j < entry.key_events.len()
            invariant
                j <= entry.key_events@.len(),
                texts(events@) == distinct(
                    base + texts(entry.key_events@).subrange(0, j as int),
                ),
            decreases entry.key_events@.len() - j,
        {
            let ghost now = base + texts(entry.key_events@).subrange(0, j + 1);
            assert(now.drop_last() =~= base + texts(entry.key_events@).subrange(0, j as int));
            assert(now.last() == entry.key_events@[j as int]@);
            let ghost events_before = events@;
            if !list_has(&events, entry.key_events[j].as_str()) {
                events.push(entry.key_events[j].clone());
                assert(texts(events@) =~= texts(events_before).push(
                    entry.key_events@[j as int]@,
                ));
            }
            j = j + 1;
        }
        assert(texts(entry.key_events@).subrange(0, entry.key_events@.len() as int) =~= texts(
            entry.key_events@,
        ));
        i = i + 1;
    }
    assert(group@.subrange(0, group@.len() as int) =~= group@);
    let ghost all = events@;
    if events.len() > EVENT_LIMIT {
        events.truncate(EVENT_LIMIT);
    }
    assert(texts(events@) =~= first_n(texts(all), EVENT_LIMIT as int));
    let mut summary = "Compacted ticks ".to_owned();
    summary.append(dec_u64(start_tick).as_str());
    summary.append("-");
    summary.append(dec_u64(end_tick).as_str());
    summary.append(": ");
    summary.append(join(&lines, "; ").as_str());
    MergedSummary { start_tick, end_tick, summary, key_events: events }
}

/// The merged summary covers the ticks of every summary of the group.
pub proof fn merged_ticks_cover_group(group: Seq<EpisodicSummary>)
    requires
        group.len() > 0,
    ensures
        forall|i: int|
            0 <= i < group.len() ==> first_start(group) <= (#[trigger] group[i]).start_tick
                && group[i].end_tick <= last_end(group),
    decreases group.len(),
{
    if group.len() > 1 {
        let front = group.drop_last();
        merged_ticks_cover_group(front);
        assert forall|i: int| 0 <= i < group.len() implies first_start(group) <= (
        #[trigger] group[i]).start_tick && group[i].end_tick <= last_end(group) by {
            if i < front.len() {
                assert(front[i] == group[i]);
            }
        }
    }
}

// ---------------------------------------------------------------------------
// The compaction
// ---------------------------------------------------------------------------

/// The summaries that may be merged: all but the newest, ordered by their start. The
/// newest come first in `all`.
pub open spec fn mergeable(all: Seq<EpisodicSummary>, preserve: nat) -> Seq<EpisodicSummary> {
    if all.len() <= preserve {
        Seq::empty()
    } else {
        by_start(all.subrange(preserve as int, all.len() as int))
    }
}

/// The groups with more than one summary, in order.
pub open spec fn real_groups(groups: Seq<Seq<EpisodicSummary>>) -> Seq<Seq<EpisodicSummary>>
    decreases groups.len(),
{
    if groups.len() == 0 {
        groups
    } else if groups.last().len() > 1 {
        real_groups(groups.drop_last()).push(groups.last())
    } else {
        real_groups(groups.drop_last())
    }
}

/// The merges replace these groups, in order.
pub open spec fn replaces(merges_done: Seq<Merge>, groups: Seq<Seq<EpisodicSummary>>) -> bool {
    &&& merges_done.len() == groups.len()
    &&& forall|i: int|
        0 <= i < groups.len() ==> (#[trigger] merges_done[i]).originals@ == groups[i] && merges(
            merges_done[i].merged,
            groups[i],
        )
}

/// The summaries can be compacted: the ends that are compared are not at the end of their
/// range, and the first lines that are quoted can be shortened without splitting a
/// character.
pub open spec fn compactable(all: Seq<EpisodicSummary>, preserve: nat) -> bool {
    let pool = mergeable(all, preserve);
    let groups = real_groups(grouped(pool));
    &&& forall|i: int| 0 <= i < pool.len() - 1 ==> (#[trigger] pool[i]).end_tick <= u64::MAX - 2
    &&& forall|g: int| 0 <= g < groups.len() ==> headlines_cut(#[trigger] groups[g])
}

/// The first lines of a group can be shortened without splitting a character.
pub open spec fn headlines_cut(group: Seq<EpisodicSummary>) -> bool {
    forall|i: int| 0 <= i < group.len() ==> headline_cuts(#[trigger] group[i])
}

/// The summaries that may be merged, ordered by their start.
fn mergeable_of(all_summaries: Vec<EpisodicSummary>, config: &CompactionConfig) -> (r: Vec<
    EpisodicSummary,
>)
    ensures
        r@ == mergeable(all_summaries@, config.preserve_recent as nat),
{
    if all_summaries.len() <= config.preserve_recent {
        return Vec::new();
    }
    let mut newest = all_summaries;
    let old = newest.split_off(config.preserve_recent);
    sort_by_start(old)
}

fn can_quote_all(group: &Vec<EpisodicSummary>) -> (r: bool)
    ensures
        r == headlines_cut(group@),
{
    let mut i: usize = 0;
    while i < group.len()
        invariant
            i <= group@.len(),
            forall|k: int| 0 <= k < i ==> headline_cuts(#[trigger] group@[k]),
        decreases group@.len() - i,
    {
        let s = &group[i];
        let lines = split_lines(s.summary.as_str());
        assert(texts(lines@).len() == lines@.len());
        let line = if lines.len() > 0 {
            assert(texts(lines@)[0] == lines@[0]@);
            lines[0].as_str()
        } else {
            s.summary.as_str()
        };
        if over_bytes(line, LINE_LIMIT) && !clean_cut(line, LINE_KEEP) {
            assert(!headline_cuts(group@[i as int]));
            return false;
        }
        i = i + 1;
    }
    true
}

/// The real groups are the groups with more than one summary.
proof fn real_groups_are_those(groups: Seq<Seq<EpisodicSummary>>)
    ensures
        forall|d: int|
            0 <= d < groups.len() && (#[trigger] groups[d]).len() > 1 ==> exists|g: int|
                0 <= g < real_groups(groups).len() && #[trigger] real_groups(groups)[g]
                    == groups[d],
        forall|g: int|
            0 <= g < real_groups(groups).len() ==> exists|d: int|
                0 <= d < groups.len() && groups[d].len() > 1 && #[trigger] groups[d]
                    == #[trigger] real_groups(groups)[g],
    decreases groups.len(),
{
    if groups.len() > 0 {
        let front = groups.drop_last();
        let kept = real_groups(groups);
        real_groups_are_those(front);
        assert forall|d: int| 0 <= d < groups.len() && (#[trigger] groups[d]).len() > 1 implies exists|
            g: int,
        | 0 <= g < kept.len() && #[trigger] kept[g] == groups[d] by {
            if d < front.len() {
                assert(front[d] == groups[d]);
                let g = choose|g: int|
                    0 <= g < real_groups(front).len() && #[trigger] real_groups(front)[g]
                        == front[d];
                assert(kept[g] == groups[d]);
            } else {
                assert(kept[kept.len() - 1] == groups[d]);
            }
        }
        assert forall|g: int| 0 <= g < kept.len() implies exists|d: int|
            0 <= d < groups.len() && groups[d].len() > 1 && #[trigger] groups[d]
                == #[trigger] kept[g] by {
            if g < real_groups(front).len() {
                let d = choose|d: int|
                    0 <= d < front.len() && front[d].len() > 1 && #[trigger] front[d]
                        == real_groups(front)[g];
                assert(groups[d] == kept[g]);
            } else {
                assert(groups[groups.len() - 1] == kept[g]);
            }
        }
    }
}

/// Merges the groups with more than one summary.
fn merge_groups(all_groups: Vec<Vec<EpisodicSummary>>) -> (r: Vec<Merge>)
    requires
        forall|g: int|
            0 <= g < real_groups(contents(all_groups@)).len() ==> headlines_cut(
                #[trigger] real_groups(contents(all_groups@))[g],
            ),
    ensures
        replaces(r@, real_groups(contents(all_groups@))),
{
    let mut out: Vec<Merge> = Vec::new();
    let mut groups = all_groups;
    let ghost list = contents(all_groups@);
    let ghost mut done: int = 0;
    assert(list.subrange(0, list.len() as int) =~= list);
    assert(list.subrange(0, 0) =~= Seq::<Seq<EpisodicSummary>>::empty());
    while groups.len() > 0
        invariant
            forall|g: int|
                0 <= g < real_groups(list).len() ==> headlines_cut(
                    #[trigger] real_groups(list)[g],
                ),
            0 <= done <= list.len(),
            contents(groups@) == list.subrange(done, list.len() as int),
            replaces(out@, real_groups(list.subrange(0, done))),
        decreases groups@.len(),
    {
        let ghost left = groups@;
        let group = groups.remove(0);
        proof {
            assert(contents(left).len() == left.len());
            assert(list.subrange(done, list.len() as int)[0] == list[done]);
            assert(contents(left)[0] == left[0]@);
            assert(group@ == list[done]);
            assert forall|k: int| 0 <= k < groups@.len() implies #[trigger] contents(groups@)[k]
                == list.subrange(done + 1, list.len() as int)[k] by {
                assert(contents(left)[k + 1] == list.subrange(done, list.len() as int)[k + 1]);
            }
            assert(contents(groups@) =~= list.subrange(done + 1, list.len() as int));
            assert(list.subrange(0, done + 1).drop_last() =~= list.subrange(0, done));
            real_groups_are_those(list);
        }
        if group.len() > 1 {
            assert(headlines_cut(group@)) by {
                let g = choose|g: int|
                    0 <= g < real_groups(list).len() && #[trigger] real_groups(list)[g]
                        == list[done];
                assert(headlines_cut(real_groups(list)[g]));
            }
            let merged = merge_summaries(&group);
            out.push(Merge { merged, originals: group });
        }
        proof {
            done = done + 1;
        }
    }
    assert(list.subrange(0, done) =~= list);
    out
}

/// Plans a compaction of the summaries, which are given with the newest first.
///
/// The newest summaries stay. The others are ordered by their start and grouped;
/// each group of more than one summary is to be replaced by one merged summary.
pub fn plan_compaction(all_summaries: Vec<EpisodicSummary>, config: &CompactionConfig) -> (r: Vec<
    Merge,
>)
    requires
        compactable(all_summaries@, config.preserve_recent as nat),
    ensures
        replaces(
            r@,
            real_groups(grouped(mergeable(all_summaries@, config.preserve_recent as nat))),
        ),
        replaced_count(r@) <= usize::MAX,
{
    let ghost all = all_summaries@;
    assert(all_summaries.len() <= usize::MAX);
    let merges_done = merge_groups(group_consecutive(mergeable_of(all_summaries, config)));
    proof {
        replaced_are_few(merges_done@, all, config.preserve_recent as nat);
    }
    merges_done
}

/// Plans a compaction as `plan_compaction` does, or nothing if the summaries cannot be
/// compacted.
pub fn try_plan_compaction(all_summaries: Vec<EpisodicSummary>, config: &CompactionConfig) -> (r:
    Option<Vec<Merge>>)
    ensures
        match r {
            Some(merges_done) => {
                &&& compactable(all_summaries@, config.preserve_recent as nat)
                &&& replaces(
                    merges_done@,
                    real_groups(grouped(mergeable(all_summaries@, config.preserve_recent as nat))),
                )
                &&& replaced_count(merges_done@) <= usize::MAX
            },
            None => !compactable(all_summaries@, config.preserve_recent as nat),
        },
{
    let ghost all = all_summaries@;
    let ghost pool = mergeable(all, config.preserve_recent as nat);
    assert(all_summaries.len() <= usize::MAX);
    let ordered = mergeable_of(all_summaries, config);
    let mut i: usize = 0;
    while i < ordered.len()
        invariant
            ordered@ == pool,
            all == all_summaries@,
            pool == mergeable(all, config.preserve_recent as nat),
            i <= pool.len(),
            forall|k: int|
                0 <= k < i && k < pool.len() - 1 ==> (#[trigger] pool[k]).end_tick <= u64::MAX - 2,
        decreases pool.len() - i,
    {
        if i < ordered.len() - 1 && ordered[i].end_tick > u64::MAX - 2 {
            assert(pool[i as int].end_tick > u64::MAX - 2);
            return None;
        }
        i = i + 1;
    }
    let groups = group_consecutive(ordered);
    let ghost list = grouped(pool);
    assert(contents(groups@).len() == groups@.len());
    let mut g: usize = 0;
    while g < groups.len()
        invariant
            g <= groups@.len(),
            groups@.len() == list.len(),
            contents(groups@) == list,
            list == grouped(pool),
            all == all_summaries@,
            pool == mergeable(all, config.preserve_recent as nat),
            forall|k: int|
                0 <= k < g && (#[trigger] list[k]).len() > 1 ==> headlines_cut(list[k]),
        decreases groups@.len() - g,
    {
        assert(list[g as int] == groups@[g as int]@);
        if groups[g].len() > 1 && !can_quote_all(&groups[g]) {
            proof {
                real_groups_are_those(list);
                let k = choose|k: int|
                    0 <= k < real_groups(list).len() && #[trigger] real_groups(list)[k]
                        == list[g as int];
                assert(!headlines_cut(real_groups(list)[k]));
            }
            return None;
        }
        g = g + 1;
    }
    proof {
        real_groups_are_those(list);
        assert forall|k: int| 0 <= k < real_groups(list).len() implies headlines_cut(
            #[trigger] real_groups(list)[k],
        ) by {
            let group = real_groups(list)[k];
            let d = choose|d: int|
                0 <= d < list.len() && list[d].len() > 1 && #[trigger] list[d] == group;
            assert(headlines_cut(list[d]));
        }
    }
    let merges_done = merge_groups(groups);
    proof {
        replaced_are_few(merges_done@, all, config.preserve_recent as nat);
    }
    Some(merges_done)
}

proof fn members_survive_ordering(s: Seq<EpisodicSummary>)
    ensures
        forall|i: int| 0 <= i < by_start(s).len() ==> s.contains(#[trigger] by_start(s)[i]),
    decreases s.len(),
{
    if s.len() > 0 {
        let front = s.drop_last();
        members_survive_ordering(front);
        ordering_keeps_summaries(front);
        placed_is_ordered(by_start(front), s.last());
        assert forall|i: int| 0 <= i < by_start(s).len() implies s.contains(
            #[trigger] by_start(s)[i],
        ) by {
            let x = placed(by_start(front), s.last())[i];
            if x == s.last() {
                assert(s[s.len() - 1] == x);
            } else {
                let k = choose|k: int| 0 <= k < by_start(front).len() && by_start(front)[k] == x;
                assert(front.contains(x));
                let j = choose|j: int| 0 <= j < front.len() && front[j] == x;
                assert(s[j] == x);
            }
        }
    }
}

proof fn group_members_in_flat(groups: Seq<Seq<EpisodicSummary>>, g: int)
    requires
        0 <= g < groups.len(),
    ensures
        forall|i: int|
            0 <= i < groups[g].len() ==> groups.flatten().contains(#[trigger] groups[g][i]),
    decreases groups.len(),
{
    let rest = groups.drop_first();
    assert(groups.flatten() == groups.first() + rest.flatten());
    assert forall|i: int| 0 <= i < groups[g].len() implies groups.flatten().contains(
        #[trigger] groups[g][i],
    ) by {
        if g == 0 {
            assert((groups.first() + rest.flatten())[i] == groups[0][i]);
        } else {
            group_members_in_flat(rest, g - 1);
            assert(rest[g - 1] == groups[g]);
            let x = rest[g - 1][i];
            let k = choose|k: int| 0 <= k < rest.flatten().len() && rest.flatten()[k] == x;
            assert((groups.first() + rest.flatten())[groups.first().len() + k] == x);
        }
    }
}

/// How many summaries the merges replace.
pub open spec fn replaced_count(merges_done: Seq<Merge>) -> nat
    decreases merges_done.len(),
{
    if merges_done.len() == 0 {
        0
    } else {
        replaced_count(merges_done.drop_last()) + merges_done.last().originals@.len()
    }
}

proof fn replaced_in_groups(merges_done: Seq<Merge>, groups: Seq<Seq<EpisodicSummary>>)
    requires
        replaces(merges_done, real_groups(groups)),
    ensures
        replaced_count(merges_done) <= groups.flatten().len(),
        replaced_count(merges_done) >= 2 * merges_done.len(),
    decreases groups.len(),
{
    if groups.len() > 0 {
        let front = groups.drop_last();
        assert(groups =~= front.push(groups.last()));
        front.lemma_flatten_push(groups.last());
        if groups.last().len() > 1 {
            let fewer = merges_done.drop_last();
            assert(replaces(fewer, real_groups(front))) by {
                assert forall|i: int| 0 <= i < real_groups(front).len() implies (
                #[trigger] fewer[i]).originals@ == real_groups(front)[i] && merges(
                    fewer[i].merged,
                    real_groups(front)[i],
                ) by {
                    assert(merges_done[i].originals@ == real_groups(groups)[i]);
                }
            }
            replaced_in_groups(fewer, front);
            assert(merges_done[merges_done.len() - 1].originals@ == groups.last());
        } else {
            replaced_in_groups(merges_done, front);
        }
    }
}

proof fn replaced_are_few(merges_done: Seq<Merge>, all: Seq<EpisodicSummary>, preserve: nat)
    requires
        replaces(merges_done, real_groups(grouped(mergeable(all, preserve)))),
    ensures
        replaced_count(merges_done) <= all.len(),
        replaced_count(merges_done) >= 2 * merges_done.len(),
{
    let pool = mergeable(all, preserve);
    groups_cover_summaries(pool);
    replaced_in_groups(merges_done, grouped(pool));
    if all.len() > preserve {
        ordering_keeps_summaries(all.subrange(preserve as int, all.len() as int));
    }
}

/// The newest summaries stay: every summary that is replaced is one of the others. With
/// no others nothing is replaced, and each merged summary replaces two at least.
pub proof fn newest_summaries_stay(
    merges_done: Seq<Merge>,
    all: Seq<EpisodicSummary>,
    preserve: nat,
)
    requires
        replaces(merges_done, real_groups(grouped(mergeable(all, preserve)))),
    ensures
        forall|m: int, i: int|
            0 <= m < merges_done.len() && 0 <= i < merges_done[m].originals@.len()
                ==> all.subrange(preserve as int, all.len() as int).contains(
                #[trigger] merges_done[m].originals@[i],
            ),
        all.len() <= preserve ==> merges_done.len() == 0,
        replaced_count(merges_done) >= 2 * merges_done.len(),
{
    let pool = mergeable(all, preserve);
    let groups = grouped(pool);
    replaced_are_few(merges_done, all, preserve);
    groups_cover_summaries(pool);
    real_groups_are_those(groups);
    if all.len() > preserve {
        let old = all.subrange(preserve as int, all.len() as int);
        members_survive_ordering(old);
        assert forall|m: int, i: int|
            0 <= m < merges_done.len() && 0 <= i < merges_done[m].originals@.len() implies old.contains(
            #[trigger] merges_done[m].originals@[i],
        ) by {
            assert(merges_done[m].originals@ == real_groups(groups)[m]);
            let d = choose|d: int|
                0 <= d < groups.len() && groups[d].len() > 1 && #[trigger] groups[d]
                    == real_groups(groups)[m];
            group_members_in_flat(groups, d);
            let x = groups[d][i];
            assert(pool.contains(x));
        }
    }
}

/// The outcome of a compaction that carried out the merges.
pub open spec fn outcome_of(merges_done: Seq<Merge>) -> CompactionResult {
    if replaced_count(merges_done) == 0 {
        CompactionResult::NoAction
    } else {
        CompactionResult::Compacted {
            entries_merged: replaced_count(merges_done) as usize,
            summaries_written: merges_done.len() as usize,
        }
    }
}

/// The outcome of a compaction that carried out the merges.
pub fn compaction_result(merges_done: &Vec<Merge>) -> (r: CompactionResult)
    requires
        replaced_count(merges_done@) <= usize::MAX,
    ensures
        r == outcome_of(merges_done@),
{
    let mut count: usize = 0;
    let mut i: usize = 0;
    while i < merges_done.len()
        invariant
            i <= merges_done@.len(),
            replaced_count(merges_done@) <= usize::MAX,
            count == replaced_count(merges_done@.subrange(0, i as int)),
        decreases merges_done@.len() - i,
    {
        proof {
            assert(merges_done@.subrange(0, i + 1).drop_last() =~= merges_done@.subrange(
                0,
                i as int,
            ));
            replaced_count_grows(merges_done@, i + 1);
        }
        count = count + merges_done[i].originals.len();
        i = i + 1;
    }
    assert(merges_done@.subrange(0, merges_done@.len() as int) =~= merges_done@);
    if count == 0 {
        CompactionResult::NoAction
    } else {
        CompactionResult::Compacted { entries_merged: count, summaries_written: merges_done.len() }
    }
}

proof fn replaced_count_grows(merges_done: Seq<Merge>, k: int)
    requires
        0 <= k <= merges_done.len(),
    ensures
        replaced_count(merges_done.subrange(0, k)) <= replaced_count(merges_done),
    decreases merges_done.len() - k,
{
    if k == merges_done.len() {
        assert(merges_done.subrange(0, k) =~= merges_done);
    } else {
        replaced_count_grows(merges_done, k + 1);
        assert(merges_done.subrange(0, k + 1).drop_last() =~= merges_done.subrange(0, k));
    }
}

// ---------------------------------------------------------------------------
// Carrying the merges out
// ---------------------------------------------------------------------------

/// Merges that are being carried out.
#[derive(Debug)]
pub struct CompactionRun {
    pub merges: Vec<Merge>,
    /// The merge whose turn it is.
    pub at: usize,
    /// Its merged summary was written.
    pub written: bool,
    /// How many of the summaries that it replaces were deleted.
    pub deleted: usize,
}

/// What a compaction asks for.
#[derive(Debug)]
pub enum CompactionRequest {
    /// Write the merged summary of a merge.
    Write { merge: usize },
    /// Delete a summary that a merge replaces.
    Delete { merge: usize, original: usize },
    Finish(CompactionResult),
    Fail(ExoError),
}

/// What the compaction asks for in this state.
pub open spec fn asked(run: CompactionRun) -> CompactionRequest {
    if run.at >= run.merges@.len() {
        CompactionRequest::Finish(outcome_of(run.merges@))
    } else if !run.written {
        CompactionRequest::Write { merge: run.at }
    } else {
        CompactionRequest::Delete { merge: run.at, original: run.deleted }
    }
}

/// `next` is the state after `run` when what was asked for was done.
pub open spec fn moves_on(run: CompactionRun, next: CompactionRun) -> bool {
    let originals = run.merges@[run.at as int].originals@;
    let gone = if run.written {
        run.deleted + 1
    } else {
        0
    };
    &&& next.merges == run.merges
    &&& if gone < originals.len() {
        next.at == run.at && next.written && next.deleted == gone
    } else {
        next.at == run.at + 1 && !next.written && next.deleted == 0
    }
}

impl CompactionRun {
    /// The merges were counted, and there is something left to delete if the merged
    /// summary was written.
    pub open spec fn wf(self) -> bool {
        &&& replaced_count(self.merges@) <= usize::MAX
        &&& self.at <= self.merges@.len()
        &&& self.written ==> self.at < self.merges@.len() && self.deleted
            < self.merges@[self.at as int].originals@.len()
    }

    fn request(&self) -> (r: CompactionRequest)
        requires
            self.wf(),
        ensures
            r == asked(*self),
    {
        if self.at >= self.merges.len() {
            CompactionRequest::Finish(compaction_result(&self.merges))
        } else if !self.written {
            CompactionRequest::Write { merge: self.at }
        } else {
            CompactionRequest::Delete { merge: self.at, original: self.deleted }
        }
    }

    /// Takes the outcome of the latest request and returns the next request. The first
    /// failure ends the compaction.
    pub fn step(&mut self, outcome: Result<(), ExoError>) -> (r: CompactionRequest)
        requires
            old(self).wf(),
            old(self).at < old(self).merges@.len(),
        ensures
            final(self).wf(),
            match outcome {
                Ok(_) => moves_on(*old(self), *final(self)) && r == asked(*final(self)),
                Err(e) => *final(self) == *old(self) && r == CompactionRequest::Fail(e),
            },
    {
        match outcome {
            Err(e) => {
                return CompactionRequest::Fail(e);
            },
            Ok(_) => {},
        }
        assert(self.merges.len() <= usize::MAX);
        let replaced: usize = self.merges[self.at].originals.len();
        let gone: usize = if self.written {
            self.deleted + 1
        } else {
            0
        };
        if gone < replaced {
            self.written = true;
            self.deleted = gone;
        } else {
            self.at = self.at + 1;
            self.written = false;
            self.deleted = 0;
        }
        self.request()
    }
}

/// Begins to carry merges out.
pub fn start_compaction(merges_planned: Vec<Merge>) -> (r: (CompactionRun, CompactionRequest))
    requires
        replaced_count(merges_planned@) <= usize::MAX,
    ensures
        r.0.wf(),
        r.0.merges == merges_planned,
        r.0.at == 0,
        !r.0.written,
        r.0.deleted == 0,
        r.1 == asked(r.0),
{
    let run = CompactionRun { merges: merges_planned, at: 0, written: false, deleted: 0 };
    let request = run.request();
    (run, request)
}

/// A summary is deleted only once the merged summary that takes its place was written:
/// the request before the first deletion of a merge is to write its merged summary, and
/// the request before another deletion is to delete the summary in front. So a merged
/// summary that cannot be written costs no summary.
pub proof fn written_before_deleted(run: CompactionRun, next: CompactionRun)
    requires
        run.wf(),
        run.at < run.merges@.len(),
        moves_on(run, next),
    ensures
        asked(next) matches CompactionRequest::Delete { merge, original } ==> asked(run) == (
        if original == 0 {
            CompactionRequest::Write { merge }
        } else {
            CompactionRequest::Delete { merge, original: (original - 1) as usize }
        }),
{
}

} // verus!
