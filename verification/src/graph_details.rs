use vstd::prelude::*;

use crate::flag_types::DebugGraphDetails;
use crate::flags::{
    by_ones_serialization, entries_named, greedy_level, greedy_levels, greedy_names, is_single_bit,
    lemma_greedy_level_one_clears, lemma_greedy_level_skip, lemma_greedy_levels_end,
    lemma_greedy_levels_names, lemma_greedy_step_names, lemma_lookup_own_nick,
    lemma_nicks_distinct_by_key, no_plus, parse_flags_spec, popcount,
};

verus! {

/// The entries of the graph details have plain, distinct nicks, each naming
/// its own value.
proof fn lemma_graph_details_entries_named()
    ensures
        entries_named(DebugGraphDetails::spec_values(), DebugGraphDetails::spec_values()),
{
    reveal_strlit("media-type");
    reveal_strlit("caps-details");
    reveal_strlit("non-default-params");
    reveal_strlit("states");
    reveal_strlit("full-params");
    reveal_strlit("all");
    reveal_strlit("verbose");
    let v = DebugGraphDetails::spec_values();
    let key = |s: Seq<char>| if s.len() == 10 { 0int } else if s.len() == 12 { 1int } else if s.len() == 18 { 2int } else if s.len() == 6 { 3int } else if s.len() == 11 { 4int } else if s.len() == 3 { 5int } else if s.len() == 7 { 6int } else { -1int };
    assert forall|i: int| 0 <= i < v.len() implies key(#[trigger] v[i].nick@) == i by {
        if i == 0 {
            assert(key(v[0].nick@) == 0);
        } else if i == 1 {
            assert(key(v[1].nick@) == 1);
        } else if i == 2 {
            assert(key(v[2].nick@) == 2);
        } else if i == 3 {
            assert(key(v[3].nick@) == 3);
        } else if i == 4 {
            assert(key(v[4].nick@) == 4);
        } else if i == 5 {
            assert(key(v[5].nick@) == 5);
        } else if i == 6 {
            assert(key(v[6].nick@) == 6);
        }
    }
    lemma_nicks_distinct_by_key(v, key);
    assert forall|i: int| 0 <= i < v.len() implies {
        &&& lookup_nick_of(v, i)
        &&& (#[trigger] v[i]).nick@.len() > 0
        &&& no_plus(v[i].nick@)
    } by {
        if i == 0 {
            lemma_lookup_own_nick(v, 0);
            assert(no_plus(v[0].nick@));
        } else if i == 1 {
            lemma_lookup_own_nick(v, 1);
            assert(no_plus(v[1].nick@));
        } else if i == 2 {
            lemma_lookup_own_nick(v, 2);
            assert(no_plus(v[2].nick@));
        } else if i == 3 {
            lemma_lookup_own_nick(v, 3);
            assert(no_plus(v[3].nick@));
        } else if i == 4 {
            lemma_lookup_own_nick(v, 4);
            assert(no_plus(v[4].nick@));
        } else if i == 5 {
            lemma_lookup_own_nick(v, 5);
            assert(no_plus(v[5].nick@));
        } else if i == 6 {
            lemma_lookup_own_nick(v, 6);
            assert(no_plus(v[6].nick@));
        }
    }
}

/// The nick of the entry at `i` names its value.
spec fn lookup_nick_of(v: Seq<crate::flags::FlagsValue>, i: int) -> bool {
    crate::flags::lookup_nick(v, v[i].nick@) == Some(v[i].value)
}

/// The numbers of bits set in the values of the graph details, and which of
/// them are single bits.
proof fn lemma_graph_details_popcounts()
    ensures
        forall|i: int| 0 <= i < 5 ==> popcount((#[trigger] DebugGraphDetails::spec_values()[i]).value) == 1
            && is_single_bit(DebugGraphDetails::spec_values()[i].value),
        popcount(DebugGraphDetails::spec_values()[5].value) == 4,
        popcount(DebugGraphDetails::spec_values()[6].value) == 32,
{
    let v = DebugGraphDetails::spec_values();
    reveal_with_fuel(popcount, 33);
    assert(popcount(0x1) == 1);
    assert(popcount(0x2) == 1);
    assert(popcount(0x4) == 1);
    assert(popcount(0x8) == 1);
    assert(popcount(0x10) == 1);
    assert(popcount(0xf) == 4);
    assert(popcount(0xffffffff) == 32);
    assert(is_single_bit(1) && is_single_bit(2) && is_single_bit(4) && is_single_bit(8)
        && is_single_bit(16)) by (bit_vector);
    assert forall|i: int| 0 <= i < 5 implies popcount((#[trigger] v[i]).value) == 1
        && is_single_bit(v[i].value) by {
        if i == 0 {
        } else if i == 1 {
        } else if i == 2 {
        } else if i == 3 {
        } else {
        }
    }
}

/// Reading back the serialization of graph details gives back the details
/// when the serialization names every bit: all bits set, or only bits of
/// the five single details.
pub proof fn lemma_graph_details_roundtrip(bits: u32)
    requires
        bits == 0xffff_ffffu32 || bits & !0x1fu32 == 0,
    ensures
        parse_flags_spec(
            DebugGraphDetails::spec_values(),
            by_ones_serialization(DebugGraphDetails::spec_values(), bits),
        ) == Some(bits),
        bits & DebugGraphDetails::spec_all_bits() == bits,
{
    let v = DebugGraphDetails::spec_values();
    lemma_graph_details_entries_named();
    lemma_graph_details_popcounts();
    assert(bits & 0xffff_ffffu32 == bits && bits & !bits == 0 && bits & !0u32 == bits)
        by (bit_vector);
    let acc0 = (Seq::<char>::empty(), bits);
    assert(greedy_names(v, bits, acc0));
    let fin = greedy_levels(v, 32, acc0);
    lemma_greedy_levels_names(v, 32, bits, acc0);
    if bits == 0xffff_ffffu32 {
        let head = v.drop_last();
        assert forall|i: int| 0 <= i < head.len() implies popcount((#[trigger] head[i]).value) != 32 by {
            assert(head[i] == v[i]);
        }
        lemma_greedy_level_skip(head, 32, acc0);
        assert(v.last() == v[6]);
        let l32 = greedy_level(v, 32, acc0);
        lemma_greedy_step_names(v, bits, acc0, v[6]);
        assert(l32.1 == 0) by {
            assert(bits & !0xffff_ffffu32 == 0) by (bit_vector)
                requires bits == 0xffff_ffffu32;
        }
        lemma_greedy_levels_names(v, 31, bits, l32);
        assert(fin == greedy_levels(v, 31, l32));
        let x = fin.1;
        assert(x & !0u32 == 0 ==> x == 0) by (bit_vector);
    } else {
        lemma_greedy_levels_end(v, 32, acc0);
        let z = choose|z: (Seq<char>, u32)| fin == greedy_level(v, 1, z);
        lemma_greedy_level_one_clears(v, z);
        assert(fin.1 & v[0].value == 0);
        assert(fin.1 & v[1].value == 0);
        assert(fin.1 & v[2].value == 0);
        assert(fin.1 & v[3].value == 0);
        assert(fin.1 & v[4].value == 0);
        let x = fin.1;
        assert(x & !bits == 0 && bits & !0x1fu32 == 0 && x & 1 == 0 && x & 2 == 0 && x & 4 == 0
            && x & 8 == 0 && x & 0x10 == 0 ==> x == 0) by (bit_vector);
    }
    assert(fin.1 == 0);
    assert(by_ones_serialization(v, bits) == fin.0);
}

} // verus!
