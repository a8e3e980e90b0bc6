//! The space of conversation identifiers and the order in which it is searched.
//!
//! Identifiers are the 32-bit numbers but zero. A search for a free one starts
//! behind the identifier handed out last and goes round the space once, from
//! the largest identifier on to `1`.

use vstd::prelude::*;
use vstd::relations::injective_on;
use vstd::set_lib::*;

verus! {

/// The largest conversation identifier.
pub const LAST_CONV: u32 = 0xFFFF_FFFF;

/// The identifier tried after `conv`: the next number, and `1` after the last.
pub open spec fn following(conv: u32) -> u32 {
    if conv == LAST_CONV {
        1
    } else {
        (conv + 1) as u32
    }
}

/// How many numbers lie strictly between `cursor` and `conv` on the way up
/// from `cursor`, round the end of the 32-bit range.
pub open spec fn gap(cursor: u32, conv: u32) -> int {
    if conv > cursor {
        conv - cursor - 1
    } else {
        conv - cursor - 1 + 0x1_0000_0000
    }
}

/// No identifier is left: every number but zero is live.
pub open spec fn exhausted(live: Set<u32>) -> bool {
    forall|conv: u32| conv != 0 ==> #[trigger] live.contains(conv)
}

/// `conv` is the identifier that a search from `cursor` finds: it is not zero,
/// it is not live, and every identifier that the search meets before it is.
pub open spec fn is_next_free(live: Set<u32>, cursor: u32, conv: u32) -> bool {
    &&& conv != 0
    &&& !live.contains(conv)
    &&& forall|other: u32|
        other != 0 && gap(cursor, other) < gap(cursor, conv) ==> #[trigger] live.contains(other)
}

/// The identifier that a search from `cursor` finds. It means something only
/// where an identifier is left.
pub open spec fn next_free(live: Set<u32>, cursor: u32) -> u32 {
    choose|conv: u32| is_next_free(live, cursor, conv)
}

/// The identifier tried after `conv`.
pub fn successor(conv: u32) -> (next: u32)
    ensures
        next == following(conv),
        next != 0,
{
    if conv == LAST_CONV {
        1
    } else {
        conv + 1
    }
}

/// A search has one answer: two identifiers that both come first are the same.
pub proof fn lemma_next_free_unique(live: Set<u32>, cursor: u32, first: u32, second: u32)
    requires
        is_next_free(live, cursor, first),
        is_next_free(live, cursor, second),
    ensures
        first == second,
{
    if gap(cursor, first) < gap(cursor, second) {
        assert(live.contains(first));
    } else if gap(cursor, second) < gap(cursor, first) {
        assert(live.contains(second));
    }
}

/// Where an identifier is left, a search finds one.
pub proof fn lemma_next_free_exists(live: Set<u32>, cursor: u32)
    requires
        !exhausted(live),
    ensures
        exists|conv: u32| is_next_free(live, cursor, conv),
{
    let free = choose|conv: u32| conv != 0 && !live.contains(conv);
    lemma_search_finds(live, cursor, free, gap(cursor, free));
}

/// Induction behind `lemma_next_free_exists`: of the free identifiers within
/// `reach` of the cursor, one is nearest.
proof fn lemma_search_finds(live: Set<u32>, cursor: u32, free: u32, reach: int)
    requires
        free != 0,
        !live.contains(free),
        gap(cursor, free) == reach,
    ensures
        exists|conv: u32| is_next_free(live, cursor, conv),
    decreases reach,
{
    if exists|nearer: u32| nearer != 0 && !live.contains(nearer) && gap(cursor, nearer) < reach {
        let nearer = choose|nearer: u32|
            nearer != 0 && !live.contains(nearer) && gap(cursor, nearer) < reach;
        lemma_search_finds(live, cursor, nearer, gap(cursor, nearer));
    } else {
        assert(is_next_free(live, cursor, free));
    }
}

/// Where an identifier is left, `next_free` is the one that the search finds,
/// and no other identifier is.
pub proof fn lemma_next_free(live: Set<u32>, cursor: u32)
    requires
        !exhausted(live),
    ensures
        is_next_free(live, cursor, next_free(live, cursor)),
        forall|conv: u32| is_next_free(live, cursor, conv) ==> conv == next_free(live, cursor),
{
    lemma_next_free_exists(live, cursor);
    assert forall|conv: u32| is_next_free(live, cursor, conv) implies conv == next_free(
        live,
        cursor,
    ) by {
        lemma_next_free_unique(live, cursor, conv, next_free(live, cursor));
    }
}

/// The identifiers, as a set: every 32-bit number but zero.
pub open spec fn all_convs() -> Set<u32> {
    Set::new(|conv: u32| conv != 0)
}

/// There are `2^32 - 1` identifiers.
pub proof fn lemma_count_of_convs()
    ensures
        all_convs().finite(),
        all_convs().len() == 0xFFFF_FFFF,
{
    let numbers = set_int_range(1, 0x1_0000_0000);
    let narrow = |i: int| i as u32;
    lemma_int_range(1, 0x1_0000_0000);
    assert(injective_on(narrow, numbers));
    assert forall|conv: u32| all_convs().contains(conv) implies numbers.map(narrow).contains(
        conv,
    ) by {
        assert(numbers.contains(conv as int) && narrow(conv as int) == conv);
    }
    assert(numbers.map(narrow) =~= all_convs());
    lemma_map_size(numbers, all_convs(), narrow);
}

/// The space is used up exactly when the live identifiers, zero left aside,
/// number `2^32 - 1`; more than that they never are.
pub proof fn lemma_exhausted_by_count(live: Set<u32>)
    requires
        live.finite(),
    ensures
        live.remove(0).len() <= 0xFFFF_FFFF,
        exhausted(live) <==> live.remove(0).len() == 0xFFFF_FFFF,
{
    lemma_count_of_convs();
    let used = live.remove(0);
    assert(used.subset_of(all_convs()));
    lemma_len_subset(used, all_convs());
    if exhausted(live) {
        assert(used =~= all_convs());
    } else {
        let free = choose|conv: u32| conv != 0 && !live.contains(conv);
        assert(used.subset_of(all_convs().remove(free)));
        lemma_len_subset(used, all_convs().remove(free));
    }
}

} // verus!
