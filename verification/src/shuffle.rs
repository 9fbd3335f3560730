use std::time::{Duration, SystemTime};
use vstd::prelude::*;

verus! {

/// `std::time::SystemTime`, declared so that a clock reading can be passed
/// between the clock wrappers; Verus sees nothing inside it.
#[verifier::external_type_specification]
#[verifier::external_body]
pub struct ExSystemTime(SystemTime);

/// Odd constant that mixes the length of the shuffled list into the seed.
pub const SEED_MIX: u64 = 0x9E37_79B9_7F4A_7C15;

/// One step of the 64-bit XorShift generator (shifts 13, 7, 17).
pub open spec fn xorshift(state: u64) -> u64 {
    let a = state ^ (state << 13u64);
    let b = a ^ (a >> 7u64);
    b ^ (b << 17u64)
}

/// `s` with the entries at `i` and `j` exchanged.
pub open spec fn swap_entries(s: Seq<usize>, i: int, j: int) -> Seq<usize> {
    s.update(i, s[j]).update(j, s[i])
}

/// The Fisher-Yates steps for the positions `index`, `index - 1`, ..., `1`,
/// where `state` is the generator state before the step at `index`: each step
/// advances the generator and exchanges the entry at the position with the
/// entry at the generator value modulo the position plus one.
pub open spec fn shuffle_steps(s: Seq<usize>, state: u64, index: nat) -> Seq<usize>
    decreases index,
{
    if index == 0 {
        s
    } else {
        let next = xorshift(state);
        let j = (next as usize) as int % ((index + 1) as int);
        shuffle_steps(swap_entries(s, index as int, j), next, (index - 1) as nat)
    }
}

/// The generator state that a shuffle of a list of `len` entries starts from,
/// for the clock reading `clock`.
pub open spec fn initial_state(clock: u64, len: usize) -> u64 {
    clock ^ vstd::wrapping::u64_specs::wrapping_mul(len as u64, SEED_MIX)
}

/// The order that `shuffle_indices_with_clock` leaves `s` in for the clock
/// reading `clock`.
pub open spec fn shuffled(s: Seq<usize>, clock: u64) -> Seq<usize> {
    if s.len() < 2 {
        s
    } else {
        shuffle_steps(s, initial_state(clock, s.len() as usize), (s.len() - 1) as nat)
    }
}

/// Exchanging two entries keeps the entries of a list.
pub proof fn lemma_swap_keeps_entries(s: Seq<usize>, i: int, j: int)
    requires
        0 <= i < s.len(),
        0 <= j < s.len(),
    ensures
        swap_entries(s, i, j).len() == s.len(),
        swap_entries(s, i, j).to_multiset() == s.to_multiset(),
{
    broadcast use vstd::seq_lib::to_multiset_update;
    broadcast use vstd::seq_lib::to_multiset_contains;
    broadcast use vstd::multiset::group_multiset_axioms;

    assert(s.contains(s[i]));
    let t = s.update(i, s[j]);
    assert(t[j] == s[j]);
    assert(t.to_multiset() =~= s.to_multiset().insert(s[j]).remove(s[i]));
    assert(t.update(j, s[i]).to_multiset() =~= t.to_multiset().insert(s[i]).remove(s[j]));
    assert(swap_entries(s, i, j).to_multiset() =~= s.to_multiset());
}

/// The Fisher-Yates steps keep the entries of a list.
pub proof fn lemma_shuffle_steps_keep_entries(s: Seq<usize>, state: u64, index: nat)
    requires
        index < s.len(),
    ensures
        shuffle_steps(s, state, index).len() == s.len(),
        shuffle_steps(s, state, index).to_multiset() == s.to_multiset(),
    decreases index,
{
    if index > 0 {
        let next = xorshift(state);
        let j = (next as usize) as int % ((index + 1) as int);
        lemma_swap_keeps_entries(s, index as int, j);
        lemma_shuffle_steps_keep_entries(swap_entries(s, index as int, j), next, (index - 1) as nat);
    }
}

/// Shuffling rearranges a list: whatever the clock reads, the shuffled list
/// holds the same entries, each as often as before.
pub proof fn law_shuffle_is_permutation(s: Seq<usize>, clock: u64)
    ensures
        shuffled(s, clock).len() == s.len(),
        shuffled(s, clock).to_multiset() == s.to_multiset(),
{
    if s.len() >= 2 {
        lemma_shuffle_steps_keep_entries(
            s,
            initial_state(clock, s.len() as usize),
            (s.len() - 1) as nat,
        );
    }
}

/// The Fisher-Yates steps from position `index` down never touch the
/// entries above `index`.
proof fn lemma_shuffle_steps_keep_higher_entries(s: Seq<usize>, state: u64, index: nat, k: int)
    requires
        index < s.len(),
        index < k < s.len(),
    ensures
        shuffle_steps(s, state, index)[k] == s[k],
    decreases index,
{
    if index > 0 {
        let next = xorshift(state);
        let j = (next as usize) as int % ((index + 1) as int);
        let t = swap_entries(s, index as int, j);
        assert(t[k] == s[k]);
        lemma_shuffle_steps_keep_higher_entries(t, next, (index - 1) as nat, k);
    }
}

/// For every list of two or more entries and every clock reading, the last
/// position of the shuffled list holds the entry that the first generator
/// step picks: the entry at the generator's first value modulo the length.
pub proof fn law_shuffle_last_entry(s: Seq<usize>, clock: u64)
    requires
        s.len() >= 2,
    ensures
        shuffled(s, clock).len() == s.len(),
        shuffled(s, clock)[s.len() - 1] == s[(xorshift(initial_state(clock, s.len() as usize))
            as usize) as int % (s.len() as int)],
{
    let n = s.len();
    let st = initial_state(clock, n as usize);
    let next = xorshift(st);
    let j = (next as usize) as int % (n as int);
    let t = swap_entries(s, n - 1, j);
    assert(shuffled(s, clock) == shuffle_steps(t, next, (n - 2) as nat));
    law_shuffle_is_permutation(s, clock);
    if n > 2 {
        lemma_shuffle_steps_keep_higher_entries(t, next, (n - 2) as nat, n - 1);
    }
    assert(t[n - 1] == s[j]);
}

/// Shuffles `indices` in place with the XorShift generator seeded from the
/// clock reading `clock` (nanoseconds, truncated to 64 bits).
pub fn shuffle_indices_with_clock(indices: &mut [usize], clock: u64)
    ensures
        final(indices)@ == shuffled(old(indices)@, clock),
{
    let len = indices.len();
    if len < 2 {
        return;
    }
    let mut state: u64 = clock ^ (len as u64).wrapping_mul(SEED_MIX);
    let mut index: usize = len - 1;
    while index > 0
        invariant
            index < len,
            indices.len() == len,
            len >= 2,
            shuffle_steps(indices@, state, index as nat) == shuffled(old(indices)@, clock),
        decreases index,
    {
        state = state ^ (state << 13u64);
        state = state ^ (state >> 7u64);
        state = state ^ (state << 17u64);
        let j = (state as usize) % (index + 1);
        let ghost before = indices@;
        let at_index = indices[index];
        let at_j = indices[j];
        indices[index] = at_j;
        indices[j] = at_index;
        assert(indices@ =~= swap_entries(before, index as int, j as int));
        index = index - 1;
    }
}

/// `std::time::SystemTime::now`: the current wall-clock time. Nothing is
/// claimed of it: it depends on the machine's clock.
#[verifier::external_body]
fn system_time_now() -> SystemTime {
    SystemTime::now()
}

/// `std::time::SystemTime::duration_since` with `UNIX_EPOCH` as the earlier
/// time, its error mapped to `None`. Nothing is claimed of the result: it
/// depends on the time that was read.
#[verifier::external_body]
fn time_since_unix_epoch(time: &SystemTime) -> Option<Duration> {
    time.duration_since(std::time::UNIX_EPOCH).ok()
}

/// `std::time::Duration::as_nanos`: the whole nanoseconds of a duration.
/// Nothing is claimed of the result: it only seeds the shuffle, whose
/// contract holds for every seed.
#[verifier::external_body]
fn duration_as_nanos(duration: &Duration) -> u128 {
    duration.as_nanos()
}

/// Reads the wall clock as nanoseconds since the Unix epoch, truncated to 64
/// bits; a clock set before the epoch reads 0.
pub fn clock_nanos() -> u64 {
    let now = system_time_now();
    match time_since_unix_epoch(&now) {
        Some(elapsed) => duration_as_nanos(&elapsed) as u64,
        None => 0,
    }
}

/// Shuffles `indices` in place with an XorShift generator seeded from the
/// current time. Whatever the clock reads, the result rearranges the entries.
pub fn shuffle_indices(indices: &mut [usize])
    ensures
        exists|clock: u64| final(indices)@ == shuffled(old(indices)@, clock),
        final(indices)@.len() == old(indices)@.len(),
        final(indices)@.to_multiset() == old(indices)@.to_multiset(),
{
    let clock = clock_nanos();
    shuffle_indices_with_clock(indices, clock);
    proof {
        law_shuffle_is_permutation(old(indices)@, clock);
    }
}

/// The icons that drop in the Recycle Bin catch animation, in icon order:
/// every icon index below `icon_count` except `recycle_index`.
pub open spec fn drop_candidates(icon_count: nat, recycle_index: nat) -> Seq<usize>
    decreases icon_count,
{
    if icon_count == 0 {
        Seq::empty()
    } else {
        let before = drop_candidates((icon_count - 1) as nat, recycle_index);
        if icon_count - 1 == recycle_index {
            before
        } else {
            before.push((icon_count - 1) as usize)
        }
    }
}

/// The candidates are increasing, lie below `icon_count`, skip the Recycle
/// Bin and hold every other index below `icon_count`.
pub proof fn lemma_drop_candidates(icon_count: nat, recycle_index: nat)
    requires
        icon_count <= usize::MAX + 1,
    ensures
        forall|k: int|
            0 <= k < drop_candidates(icon_count, recycle_index).len() ==> {
                let x = #[trigger] drop_candidates(icon_count, recycle_index)[k];
                x < icon_count && x != recycle_index
            },
        forall|k: int, l: int|
            0 <= k < l < drop_candidates(icon_count, recycle_index).len()
                ==> drop_candidates(icon_count, recycle_index)[k]
                < drop_candidates(icon_count, recycle_index)[l],
        forall|x: usize|
            x < icon_count && x != recycle_index ==> drop_candidates(
                icon_count,
                recycle_index,
            ).contains(x),
    decreases icon_count,
{
    if icon_count > 0 {
        lemma_drop_candidates((icon_count - 1) as nat, recycle_index);
        let before = drop_candidates((icon_count - 1) as nat, recycle_index);
        let c = drop_candidates(icon_count, recycle_index);
        assert forall|x: usize| x < icon_count && x != recycle_index implies c.contains(x) by {
            if x < icon_count - 1 {
                assert(before.contains(x));
                let k = choose|k: int| 0 <= k < before.len() && before[k] == x;
                if icon_count - 1 != recycle_index {
                    assert(c[k] == x);
                }
            } else {
                assert(c[c.len() - 1] == x);
            }
        }
    }
}

/// The Recycle Bin catch animation drops every icon but the Recycle Bin
/// exactly once, whatever order the clock picks.
pub proof fn law_drop_order_holds_each_icon_once(
    icon_count: usize,
    recycle_index: usize,
    clock: u64,
    x: usize,
)
    ensures
        shuffled(drop_candidates(icon_count as nat, recycle_index as nat), clock).to_multiset().count(
            x,
        ) == (if x < icon_count && x != recycle_index {
            1nat
        } else {
            0nat
        }),
{
    broadcast use vstd::seq_lib::to_multiset_contains;

    let c = drop_candidates(icon_count as nat, recycle_index as nat);
    lemma_drop_candidates(icon_count as nat, recycle_index as nat);
    law_shuffle_is_permutation(c, clock);
    assert(c.no_duplicates()) by {
        assert forall|k: int, l: int| 0 <= k < c.len() && 0 <= l < c.len() && k != l implies c[k]
            != c[l] by {
            if k < l {
                assert(c[k] < c[l]);
            } else {
                assert(c[l] < c[k]);
            }
        }
    }
    c.lemma_multiset_has_no_duplicates();
    if x < icon_count && x != recycle_index {
        assert(c.contains(x));
        assert(c.to_multiset().count(x) > 0);
    } else {
        if c.contains(x) {
            let k = choose|k: int| 0 <= k < c.len() && c[k] == x;
            assert(c[k] < icon_count && c[k] != recycle_index);
        }
        assert(c.to_multiset().count(x) == 0);
    }
}

/// Lists the icon indices below `icon_count` other than `recycle_index`, in
/// increasing order.
fn drop_candidate_list(icon_count: usize, recycle_index: usize) -> (list: Vec<usize>)
    ensures
        list@ == drop_candidates(icon_count as nat, recycle_index as nat),
{
    let mut list: Vec<usize> = Vec::new();
    let mut i: usize = 0;
    while i < icon_count
        invariant
            i <= icon_count,
            list@ == drop_candidates(i as nat, recycle_index as nat),
        decreases icon_count - i,
    {
        if i != recycle_index {
            list.push(i);
        }
        i = i + 1;
    }
    list
}

/// The drop order of the Recycle Bin catch animation for the clock reading
/// `clock`: the icons other than the Recycle Bin, shuffled.
pub fn drop_order_with_clock(icon_count: usize, recycle_index: usize, clock: u64) -> (order: Vec<
    usize,
>)
    ensures
        order@ == shuffled(drop_candidates(icon_count as nat, recycle_index as nat), clock),
{
    let mut order = drop_candidate_list(icon_count, recycle_index);
    shuffle_indices_with_clock(order.as_mut_slice(), clock);
    order
}

/// A random drop order for the Recycle Bin catch animation: every icon index
/// below `icon_count` except `recycle_index`, each once, shuffled with a
/// generator seeded from the current time.
pub fn randomized_drop_order(icon_count: usize, recycle_index: usize) -> (order: Vec<usize>)
    ensures
        exists|clock: u64|
            order@ == shuffled(drop_candidates(icon_count as nat, recycle_index as nat), clock),
        forall|x: usize|
            order@.to_multiset().count(x) == (if x < icon_count && x != recycle_index {
                1nat
            } else {
                0nat
            }),
{
    let mut order = drop_candidate_list(icon_count, recycle_index);
    shuffle_indices(order.as_mut_slice());
    proof {
        let clock = choose|clock: u64|
            order@ == shuffled(drop_candidates(icon_count as nat, recycle_index as nat), clock);
        assert forall|x: usize|
            order@.to_multiset().count(x) == (if x < icon_count && x != recycle_index {
                1nat
            } else {
                0nat
            }) by {
            law_drop_order_holds_each_icon_once(icon_count, recycle_index, clock, x);
        }
    }
    order
}

} // verus!
