use vstd::prelude::*;

use crate::text::{chars_to_string, push_str};

verus! {

/// A value registered for a flags type: its bits and its short name.
#[derive(Clone, Copy)]
pub struct FlagsValue {
    pub value: u32,
    pub nick: &'static str,
}

/// The error returned when a flags string names a flag that the type does
/// not have.
#[derive(Clone, Copy, Debug, PartialEq, Eq, Structural)]
pub struct FlagsParseError;

/// `v` has exactly one bit set.
pub open spec fn is_single_bit(v: u32) -> bool {
    v != 0 && v & ((v - 1) as u32) == 0
}

/// Appends `nick` to a `+`-separated list of nicks.
pub open spec fn append_nick(acc: Seq<char>, nick: Seq<char>) -> Seq<char> {
    if acc.len() == 0 {
        nick
    } else {
        acc + seq!['+'] + nick
    }
}

/// Serialization of `bits` naming, in the order of `values`, each
/// single-bit value set in `bits` whose bit was not named before: the text,
/// and the bits named so far.
pub open spec fn single_bit_serialization(values: Seq<FlagsValue>, bits: u32) -> (Seq<char>, u32)
    decreases values.len(),
{
    if values.len() == 0 {
        (Seq::empty(), 0u32)
    } else {
        let prev = single_bit_serialization(values.drop_last(), bits);
        let v = values.last().value;
        if is_single_bit(v) && bits & v != 0 && prev.1 & v == 0 {
            (append_nick(prev.0, values.last().nick@), prev.1 | v)
        } else {
            prev
        }
    }
}

/// The number of bits set in `v`.
pub open spec fn popcount(v: u32) -> nat
    decreases v,
{
    if v == 0 {
        0
    } else {
        (v % 2) as nat + popcount(v / 2)
    }
}

/// One step of the greedy serialization: the value `e` is named when all
/// its bits are among the bits `acc.1` still to name, which then lose them.
pub open spec fn greedy_step(acc: (Seq<char>, u32), e: FlagsValue) -> (Seq<char>, u32) {
    if e.value != 0 && acc.1 & e.value == e.value {
        (append_nick(acc.0, e.nick@), acc.1 & !e.value)
    } else {
        acc
    }
}

/// The greedy steps over the values of `values` with `k` bits set, in the
/// order of `values`.
pub open spec fn greedy_level(values: Seq<FlagsValue>, k: nat, acc: (Seq<char>, u32)) -> (Seq<
    char,
>, u32)
    decreases values.len(),
{
    if values.len() == 0 {
        acc
    } else {
        let prev = greedy_level(values.drop_last(), k, acc);
        if popcount(values.last().value) == k {
            greedy_step(prev, values.last())
        } else {
            prev
        }
    }
}

/// The greedy steps over the values with `k`, then `k - 1`, ..., then one
/// bit set.
pub open spec fn greedy_levels(values: Seq<FlagsValue>, k: nat, acc: (Seq<char>, u32)) -> (Seq<
    char,
>, u32)
    decreases k,
{
    if k == 0 {
        acc
    } else {
        greedy_levels(values, (k - 1) as nat, greedy_level(values, k, acc))
    }
}

/// Serialization of `bits` naming the values of `values` sorted by
/// decreasing number of bits set (ties in the order of `values`), each one
/// whose bits are all still unnamed.
pub open spec fn by_ones_serialization(values: Seq<FlagsValue>, bits: u32) -> Seq<char> {
    greedy_levels(values, 32, (Seq::empty(), bits)).0
}

/// The value of the first entry of `values` whose nick is `nick`.
pub open spec fn lookup_nick(values: Seq<FlagsValue>, nick: Seq<char>) -> Option<u32>
    decreases values.len(),
{
    if values.len() == 0 {
        None
    } else if values[0].nick@ == nick {
        Some(values[0].value)
    } else {
        lookup_nick(values.drop_first(), nick)
    }
}

/// The `+`-separated fields of `s`.
pub open spec fn plus_fields(s: Seq<char>) -> Seq<Seq<char>>
    decreases s.len(),
{
    if s.len() == 0 {
        seq![Seq::empty()]
    } else {
        let f = plus_fields(s.drop_last());
        if s.last() == '+' {
            f.push(Seq::empty())
        } else {
            f.update(f.len() - 1, f.last().push(s.last()))
        }
    }
}

/// The union of the values named by `fields`, or `None` if one of them
/// names no value.
pub open spec fn parse_fields(values: Seq<FlagsValue>, fields: Seq<Seq<char>>) -> Option<u32>
    decreases fields.len(),
{
    if fields.len() == 0 {
        Some(0u32)
    } else {
        match (parse_fields(values, fields.drop_last()), lookup_nick(values, fields.last())) {
            (Some(a), Some(b)) => Some(a | b),
            _ => None,
        }
    }
}

/// The bits named by the flags string `s`: none for the empty string, else
/// the union of the values named by the `+`-separated fields of `s`, or
/// `None` if a field names no value.
pub open spec fn parse_flags_spec(values: Seq<FlagsValue>, s: Seq<char>) -> Option<u32> {
    if s.len() == 0 {
        Some(0u32)
    } else {
        parse_fields(values, plus_fields(s))
    }
}

/// A flags string has at least one field.
pub proof fn lemma_plus_fields_len(s: Seq<char>)
    ensures
        plus_fields(s).len() >= 1,
    decreases s.len(),
{
    if s.len() > 0 {
        lemma_plus_fields_len(s.drop_last());
    }
}

/// The number of bits set in `v` is at most `v`.
proof fn lemma_popcount_le(v: u32)
    ensures
        popcount(v) <= v,
    decreases v,
{
    if v != 0 {
        lemma_popcount_le(v / 2);
    }
}

/// Returns the number of bits set in `v`.
pub fn count_ones(v: u32) -> (r: u32)
    ensures
        r == popcount(v),
{
    let mut x: u32 = v;
    let mut n: u32 = 0;
    proof {
        lemma_popcount_le(v);
    }
    while x != 0
        invariant
            n + popcount(x) == popcount(v),
            popcount(v) <= v,
        decreases x,
    {
        n = n + x % 2;
        x = x / 2;
    }
    n
}

/// Returns whether the characters of `s` are those of `t`.
pub fn str_equals_chars(s: &str, t: &Vec<char>) -> (r: bool)
    ensures
        r == (s@ == t@),
{
    let n = s.unicode_len();
    if n != t.len() {
        return false;
    }
    let mut i: usize = 0;
    while i < n
        invariant
            n == s@.len(),
            n == t@.len(),
            i <= n,
            forall|j: int| 0 <= j < i ==> s@[j] == t@[j],
        decreases n - i,
    {
        if s.get_char(i) != t[i] {
            return false;
        }
        i = i + 1;
    }
    proof {
        assert(s@ =~= t@);
    }
    true
}

/// Returns the value of the first entry of `values` whose nick is `nick`.
pub fn lookup_nick_value(values: &Vec<FlagsValue>, nick: &Vec<char>) -> (r: Option<u32>)
    ensures
        r == lookup_nick(values@, nick@),
{
    let mut i: usize = 0;
    proof {
        assert(values@.skip(0) =~= values@);
    }
    while i < values.len()
        invariant
            i <= values.len(),
            lookup_nick(values@, nick@) == lookup_nick(values@.skip(i as int), nick@),
        decreases values.len() - i,
    {
        proof {
            assert(values@.skip(i as int).drop_first() =~= values@.skip(i as int + 1));
        }
        if str_equals_chars(values[i].nick, nick) {
            return Some(values[i].value);
        }
        i = i + 1;
    }
    None
}

/// Serializes `bits`, naming each single-bit value of `values` set in
/// `bits`, in the order of `values`, with `+` between the names.
pub fn serialize_single_bit(values: &Vec<FlagsValue>, bits: u32) -> (r: String)
    ensures
        r@ == single_bit_serialization(values@, bits).0,
{
    let mut out: Vec<char> = Vec::new();
    let mut handled: u32 = 0;
    let mut i: usize = 0;
    while i < values.len()
        invariant
            i <= values.len(),
            (out@, handled) == single_bit_serialization(values@.take(i as int), bits),
        decreases values.len() - i,
    {
        let v = values[i].value;
        proof {
            assert(values@.take(i as int + 1).drop_last() =~= values@.take(i as int));
        }
        if v != 0 && v & (v - 1) == 0 && bits & v != 0 && handled & v == 0 {
            if out.len() > 0 {
                out.push('+');
            }
            push_str(&mut out, values[i].nick);
            handled = handled | v;
            proof {
                assert(out@ =~= append_nick(
                    single_bit_serialization(values@.take(i as int), bits).0,
                    values@[i as int].nick@,
                ));
            }
        }
        i = i + 1;
    }
    proof {
        assert(values@.take(values.len() as int) =~= values@);
    }
    chars_to_string(&out)
}

/// Serializes `bits` greedily, naming the values of `values` by decreasing
/// number of bits set (ties in the order of `values`), each one whose bits
/// are all still unnamed, with `+` between the names.
pub fn serialize_by_ones_decreasing(values: &Vec<FlagsValue>, bits: u32) -> (r: String)
    ensures
        r@ == by_ones_serialization(values@, bits),
{
    let mut out: Vec<char> = Vec::new();
    let mut rest: u32 = bits;
    let mut k: u32 = 32;
    while k > 0
        invariant
            k <= 32,
            greedy_levels(values@, k as nat, (out@, rest)) == greedy_levels(
                values@,
                32,
                (Seq::empty(), bits),
            ),
        decreases k,
    {
        let ghost before = (out@, rest);
        let mut i: usize = 0;
        while i < values.len()
            invariant
                i <= values.len(),
                (out@, rest) == greedy_level(values@.take(i as int), k as nat, before),
            decreases values.len() - i,
        {
            let v = values[i].value;
            proof {
                assert(values@.take(i as int + 1).drop_last() =~= values@.take(i as int));
            }
            if count_ones(v) == k && v != 0 && rest & v == v {
                let ghost prev = out@;
                if out.len() > 0 {
                    out.push('+');
                }
                push_str(&mut out, values[i].nick);
                rest = rest & !v;
                proof {
                    assert(out@ =~= append_nick(prev, values@[i as int].nick@));
                }
            }
            i = i + 1;
        }
        proof {
            assert(values@.take(values.len() as int) =~= values@);
        }
        k = k - 1;
    }
    chars_to_string(&out)
}

/// Parses a flags string: the empty string names no flag; otherwise each
/// `+`-separated field is the nick of a value of `values`, and the result is
/// the union of those values. Returns `None` if a field is not such a nick.
pub fn parse_flags(values: &Vec<FlagsValue>, s: &str) -> (r: Option<u32>)
    ensures
        r == parse_flags_spec(values@, s@),
{
    let n = s.unicode_len();
    if n == 0 {
        return Some(0);
    }
    let mut cur: Vec<char> = Vec::new();
    let mut acc: u32 = 0;
    let mut ok = true;
    let mut i: usize = 0;
    proof {
        assert(s@.take(0) =~= Seq::<char>::empty());
        assert(plus_fields(Seq::<char>::empty()).drop_last() =~= Seq::<Seq<char>>::empty());
    }
    while i < n
        invariant
            n == s@.len(),
            i <= n,
            cur@ == plus_fields(s@.take(i as int)).last(),
            ok ==> parse_fields(values@, plus_fields(s@.take(i as int)).drop_last()) == Some(acc),
            !ok ==> parse_fields(values@, plus_fields(s@.take(i as int)).drop_last()) is None,
        decreases n - i,
    {
        let c = s.get_char(i);
        let ghost f = plus_fields(s@.take(i as int));
        proof {
            lemma_plus_fields_len(s@.take(i as int));
            assert(s@.take(i as int + 1).drop_last() =~= s@.take(i as int));
            assert(s@.take(i as int + 1).last() == c);
        }
        if c == '+' {
            let found = lookup_nick_value(values, &cur);
            match found {
                Some(b) => {
                    if ok {
                        acc = acc | b;
                    }
                },
                None => {
                    ok = false;
                },
            }
            proof {
                assert(plus_fields(s@.take(i as int + 1)).drop_last() =~= f);
                assert(f.drop_last().push(f.last()) =~= f);
            }
            cur = Vec::new();
        } else {
            cur.push(c);
            proof {
                assert(plus_fields(s@.take(i as int + 1)).drop_last() =~= f.drop_last());
            }
        }
        i = i + 1;
    }
    let ghost f = plus_fields(s@);
    proof {
        assert(s@.take(n as int) =~= s@);
        lemma_plus_fields_len(s@);
        assert(f.drop_last().push(f.last()) =~= f);
    }
    match lookup_nick_value(values, &cur) {
        Some(b) => {
            if ok {
                Some(acc | b)
            } else {
                None
            }
        },
        None => None,
    }
}

/// No character of `s` is `+`.
pub open spec fn no_plus(s: Seq<char>) -> bool {
    forall|i: int| 0 <= i < s.len() ==> s[i] != '+'
}

/// Every nick of `values` is non-empty and holds no `+`.
pub open spec fn nicks_plain(values: Seq<FlagsValue>) -> bool {
    forall|i: int| 0 <= i < values.len() ==> values[i].nick@.len() > 0 && no_plus(#[trigger] values[i].nick@)
}

/// No two entries of `values` have the same nick.
pub open spec fn nicks_distinct(values: Seq<FlagsValue>) -> bool {
    forall|i: int, j: int|
        0 <= i < j < values.len() ==> #[trigger] values[i].nick@ != #[trigger] values[j].nick@
}

/// The union of the single-bit values of `values`.
pub open spec fn single_bit_cover(values: Seq<FlagsValue>) -> u32
    decreases values.len(),
{
    if values.len() == 0 {
        0u32
    } else {
        let c = single_bit_cover(values.drop_last());
        if is_single_bit(values.last().value) {
            c | values.last().value
        } else {
            c
        }
    }
}

/// Nicks are distinct when a function of the nick gives back the index of
/// each entry.
pub proof fn lemma_nicks_distinct_by_key(values: Seq<FlagsValue>, key: spec_fn(Seq<char>) -> int)
    requires
        forall|i: int| 0 <= i < values.len() ==> key(#[trigger] values[i].nick@) == i,
    ensures
        nicks_distinct(values),
{
    assert forall|i: int, j: int| 0 <= i < j < values.len() implies #[trigger] values[i].nick@
        != #[trigger] values[j].nick@ by {
        assert(key(values[i].nick@) == i);
        assert(key(values[j].nick@) == j);
    }
}

/// Parsing one more field joins the value it names to the others.
pub proof fn lemma_parse_fields_push(values: Seq<FlagsValue>, fields: Seq<Seq<char>>, f: Seq<char>)
    ensures
        parse_fields(values, fields.push(f)) == (match (
            parse_fields(values, fields),
            lookup_nick(values, f),
        ) {
            (Some(a), Some(b)) => Some(a | b),
            _ => None,
        }),
{
    assert(fields.push(f).drop_last() =~= fields);
}

/// Appending `+` and a plain nick to a string adds one field.
pub proof fn lemma_plus_fields_append(s: Seq<char>, n: Seq<char>)
    requires
        no_plus(n),
    ensures
        plus_fields(s + seq!['+'] + n) == plus_fields(s).push(n),
    decreases n.len(),
{
    let t = s + seq!['+'] + n;
    if n.len() == 0 {
        assert(t.drop_last() =~= s);
        assert(t.last() == '+');
        assert(plus_fields(t) == plus_fields(t.drop_last()).push(Seq::empty()));
        assert(n =~= Seq::<char>::empty());
    } else {
        let m = n.drop_last();
        assert(no_plus(m));
        lemma_plus_fields_append(s, m);
        assert(t.drop_last() =~= s + seq!['+'] + m);
        assert(t.last() == n.last());
        assert(n.last() != '+');
        let f = plus_fields(t.drop_last());
        assert(f == plus_fields(s).push(m));
        assert(f.last() == m);
        assert(plus_fields(t) == f.update(f.len() - 1, f.last().push(t.last())));
        assert(m.push(n.last()) =~= n);
        assert(f.update(f.len() - 1, n) =~= plus_fields(s).push(n));
    }
}

/// A plain nick is a single field.
pub proof fn lemma_plus_fields_plain(n: Seq<char>)
    requires
        no_plus(n),
    ensures
        plus_fields(n) == seq![n],
    decreases n.len(),
{
    if n.len() == 0 {
        assert(n =~= Seq::<char>::empty());
    } else {
        let m = n.drop_last();
        assert(no_plus(m));
        lemma_plus_fields_plain(m);
        assert(n.last() != '+');
        let f = plus_fields(m);
        assert(f == seq![m]);
        assert(plus_fields(n) == f.update(f.len() - 1, f.last().push(n.last())));
        assert(m.push(n.last()) =~= n);
        assert(f.update(0, n) =~= seq![n]);
    }
}

/// With distinct nicks, each nick names the value of its own entry.
pub proof fn lemma_lookup_own_nick(values: Seq<FlagsValue>, i: int)
    requires
        nicks_distinct(values),
        0 <= i < values.len(),
    ensures
        lookup_nick(values, values[i].nick@) == Some(values[i].value),
    decreases i,
{
    if i > 0 {
        let rest = values.drop_first();
        assert(nicks_distinct(rest)) by {
            assert forall|a: int, b: int| 0 <= a < b < rest.len() implies #[trigger] rest[a].nick@
                != #[trigger] rest[b].nick@ by {
                assert(rest[a] == values[a + 1]);
                assert(rest[b] == values[b + 1]);
            }
        }
        assert(values[0].nick@ != values[i].nick@);
        lemma_lookup_own_nick(rest, i - 1);
        assert(rest[i - 1] == values[i]);
    }
}

/// Facts on the bits of a single-bit value.
proof fn lemma_single_bit_facts(b: u32, c: u32, h: u32, v: u32)
    requires
        v != 0,
        v & ((v - 1) as u32) == 0,
    ensures
        b & v != 0 ==> b & v == v,
        b & (c | v) == (b & c) | (b & v),
        h & v != 0 ==> h | v == h,
        0u32 | v == v,
        h | 0u32 == h,
{
    let w = (v - 1) as u32;
    assert(w + 1 == v);
    assert(b & v != 0 ==> b & v == v) by (bit_vector)
        requires
            v != 0u32,
            v & w == 0u32,
            w + 1 == v,
    ;
    assert(b & (c | v) == (b & c) | (b & v)) by (bit_vector);
    assert(h & v != 0 ==> h | v == h) by (bit_vector)
        requires
            v != 0u32,
            v & w == 0u32,
            w + 1 == v,
    ;
    assert(0u32 | v == v) by (bit_vector);
    assert(h | 0u32 == h) by (bit_vector);
}

/// Parsing the serialization of a prefix of `values`: the named bits are
/// those of `bits` covered by the prefix, the text is empty exactly when no
/// bit is named, and otherwise it parses back to the named bits.
proof fn lemma_single_bit_prefix(values: Seq<FlagsValue>, bits: u32, k: int)
    requires
        nicks_plain(values),
        nicks_distinct(values),
        0 <= k <= values.len(),
    ensures
        ({
            let (t, h) = single_bit_serialization(values.take(k), bits);
            &&& h == bits & single_bit_cover(values.take(k))
            &&& (t.len() == 0 <==> h == 0)
            &&& t.len() > 0 ==> parse_fields(values, plus_fields(t)) == Some(h)
        }),
    decreases k,
{
    if k == 0 {
        assert(values.take(0) =~= Seq::<FlagsValue>::empty());
        assert(bits & 0u32 == 0u32) by (bit_vector);
    } else {
        lemma_single_bit_prefix(values, bits, k - 1);
        let p = values.take(k);
        assert(p.drop_last() =~= values.take(k - 1));
        let e = values[k - 1];
        assert(p.last() == e);
        let v = e.value;
        let prev = single_bit_serialization(values.take(k - 1), bits);
        let t = prev.0;
        let h = prev.1;
        let c = single_bit_cover(values.take(k - 1));
        assert(single_bit_serialization(p, bits) == (if is_single_bit(v) && bits & v != 0 && h & v
            == 0 {
            (append_nick(t, e.nick@), h | v)
        } else {
            prev
        }));
        assert(single_bit_cover(p) == (if is_single_bit(v) {
            c | v
        } else {
            c
        }));
        assert(e.nick@.len() > 0 && no_plus(e.nick@));
        if is_single_bit(v) {
            lemma_single_bit_facts(bits, c, h, v);
            if bits & v != 0 && h & v == 0 {
                lemma_lookup_own_nick(values, k - 1);
                let t2 = append_nick(t, e.nick@);
                let fs = plus_fields(t2);
                if t.len() == 0 {
                    lemma_plus_fields_plain(e.nick@);
                    assert(fs == seq![e.nick@]);
                    assert(fs.drop_last() =~= Seq::<Seq<char>>::empty());
                    assert(parse_fields(values, fs.drop_last()) == Some(0u32));
                    assert(h == 0);
                } else {
                    lemma_plus_fields_append(t, e.nick@);
                    assert(fs == plus_fields(t).push(e.nick@));
                    assert(fs.drop_last() =~= plus_fields(t));
                }
                assert(fs.last() == e.nick@);
                assert(parse_fields(values, fs) == Some(h | v));
                assert(h | v != 0u32) by (bit_vector)
                    requires
                        v != 0u32,
                ;
            } else if bits & v != 0 {
                assert(bits & (c | v) == h);
            } else {
                assert(bits & (c | v) == h);
            }
        }
    }
}

/// Parsing the serialization of `bits` over a table of distinct plain nicks
/// gives back the bits of `bits` that single-bit values of the table cover.
pub proof fn lemma_single_bit_roundtrip(values: Seq<FlagsValue>, bits: u32)
    requires
        nicks_plain(values),
        nicks_distinct(values),
    ensures
        parse_flags_spec(values, single_bit_serialization(values, bits).0) == Some(
            bits & single_bit_cover(values),
        ),
{
    lemma_single_bit_prefix(values, bits, values.len() as int);
    assert(values.take(values.len() as int) =~= values);
}


/// The flags string `acc.0` names exactly the bits of `bits` that are not
/// among the bits `acc.1` left to name, and only bits of `bits` are left.
pub open spec fn greedy_names(values: Seq<FlagsValue>, bits: u32, acc: (Seq<char>, u32)) -> bool {
    &&& acc.1 & !bits == 0
    &&& parse_flags_spec(values, acc.0) == Some(bits & !acc.1)
}

/// Each entry of `entries` has a plain nick that names its value in
/// `values`.
pub open spec fn entries_named(values: Seq<FlagsValue>, entries: Seq<FlagsValue>) -> bool {
    forall|i: int|
        0 <= i < entries.len() ==> {
            &&& lookup_nick(values, (#[trigger] entries[i]).nick@) == Some(entries[i].value)
            &&& entries[i].nick@.len() > 0
            &&& no_plus(entries[i].nick@)
        }
}

/// Bit facts of one greedy step.
proof fn lemma_greedy_step_bits(b: u32, r: u32, v: u32)
    ensures
        r & !b == 0 && r & v == v ==> (r & !v) & !b == 0 && (b & !r) | v == b & !(r & !v),
        (r & !v) & !r == 0,
        r & !r == 0,
        (r & !v) & v == 0,
{
    assert(r & !b == 0 && r & v == v ==> (r & !v) & !b == 0 && (b & !r) | v == b & !(r & !v))
        by (bit_vector);
    assert((r & !v) & !r == 0 && r & !r == 0 && (r & !v) & v == 0) by (bit_vector);
}

/// A greedy step keeps the text naming the bits already named, and only
/// removes bits from those left.
pub proof fn lemma_greedy_step_names(
    values: Seq<FlagsValue>,
    bits: u32,
    acc: (Seq<char>, u32),
    e: FlagsValue,
)
    requires
        greedy_names(values, bits, acc),
        lookup_nick(values, e.nick@) == Some(e.value),
        e.nick@.len() > 0,
        no_plus(e.nick@),
    ensures
        greedy_names(values, bits, greedy_step(acc, e)),
        greedy_step(acc, e).1 & !acc.1 == 0,
{
    let r = acc.1;
    let v = e.value;
    lemma_greedy_step_bits(bits, r, v);
    if v != 0 && r & v == v {
        let n = e.nick@;
        if acc.0.len() == 0 {
            lemma_plus_fields_plain(n);
            assert(seq![n] =~= Seq::<Seq<char>>::empty().push(n));
            lemma_parse_fields_push(values, Seq::empty(), n);
            assert(bits & !r == 0);
        } else {
            lemma_plus_fields_append(acc.0, n);
            lemma_parse_fields_push(values, plus_fields(acc.0), n);
        }
    }
}

/// The greedy steps of one level keep the text naming the bits already
/// named, and only remove bits from those left.
pub proof fn lemma_greedy_level_names(
    values: Seq<FlagsValue>,
    entries: Seq<FlagsValue>,
    k: nat,
    bits: u32,
    acc: (Seq<char>, u32),
)
    requires
        greedy_names(values, bits, acc),
        entries_named(values, entries),
    ensures
        greedy_names(values, bits, greedy_level(entries, k, acc)),
        greedy_level(entries, k, acc).1 & !acc.1 == 0,
    decreases entries.len(),
{
    if entries.len() == 0 {
        lemma_greedy_step_bits(bits, acc.1, 0);
    } else {
        let rest = entries.drop_last();
        assert(entries_named(values, rest)) by {
            assert forall|i: int| 0 <= i < rest.len() implies #[trigger] rest[i] == entries[i] by {}
        }
        lemma_greedy_level_names(values, rest, k, bits, acc);
        let prev = greedy_level(rest, k, acc);
        let e = entries.last();
        assert(e == entries[entries.len() - 1]);
        lemma_greedy_step_names(values, bits, prev, e);
        let next = greedy_step(prev, e);
        let (x, y, z) = (next.1, prev.1, acc.1);
        assert(x & !y == 0 && y & !z == 0 ==> x & !z == 0) by (bit_vector);
        lemma_greedy_step_bits(bits, acc.1, 0);
    }
}

/// All the greedy levels keep the text naming the bits already named, and
/// only remove bits from those left.
pub proof fn lemma_greedy_levels_names(
    values: Seq<FlagsValue>,
    k: nat,
    bits: u32,
    acc: (Seq<char>, u32),
)
    requires
        greedy_names(values, bits, acc),
        entries_named(values, values),
    ensures
        greedy_names(values, bits, greedy_levels(values, k, acc)),
        greedy_levels(values, k, acc).1 & !acc.1 == 0,
    decreases k,
{
    if k == 0 {
        lemma_greedy_step_bits(bits, acc.1, 0);
    } else {
        let mid = greedy_level(values, k, acc);
        lemma_greedy_level_names(values, values, k, bits, acc);
        lemma_greedy_levels_names(values, (k - 1) as nat, bits, mid);
        let (x, y, z) = (greedy_levels(values, (k - 1) as nat, mid).1, mid.1, acc.1);
        assert(x & !y == 0 && y & !z == 0 ==> x & !z == 0) by (bit_vector);
    }
}

/// The greedy levels end with the level of single bits.
pub proof fn lemma_greedy_levels_end(values: Seq<FlagsValue>, k: nat, acc: (Seq<char>, u32))
    requires
        k >= 1,
    ensures
        exists|z: (Seq<char>, u32)| greedy_levels(values, k, acc) == greedy_level(values, 1, z),
    decreases k,
{
    if k == 1 {
        let z = greedy_level(values, 1, acc);
        assert(greedy_levels(values, 0, z) == z);
        assert(greedy_levels(values, 1, acc) == greedy_level(values, 1, acc));
    } else {
        lemma_greedy_levels_end(values, (k - 1) as nat, greedy_level(values, k, acc));
    }
}

/// After the level of single bits, no single-bit value of one bit is left.
pub proof fn lemma_greedy_level_one_clears(entries: Seq<FlagsValue>, acc: (Seq<char>, u32))
    ensures
        forall|i: int|
            0 <= i < entries.len() && popcount(entries[i].value) == 1 && is_single_bit(
                entries[i].value,
            ) ==> greedy_level(entries, 1, acc).1 & (#[trigger] entries[i]).value == 0,
    decreases entries.len(),
{
    if entries.len() > 0 {
        let rest = entries.drop_last();
        lemma_greedy_level_one_clears(rest, acc);
        let prev = greedy_level(rest, 1, acc);
        let e = entries.last();
        let next = greedy_level(entries, 1, acc);
        assert(next.1 & !prev.1 == 0) by {
            lemma_greedy_step_bits(0, prev.1, e.value);
        }
        assert forall|i: int|
            0 <= i < entries.len() && popcount(entries[i].value) == 1 && is_single_bit(
                entries[i].value,
            ) implies next.1 & (#[trigger] entries[i]).value == 0 by {
            let w = entries[i].value;
            if i < entries.len() - 1 {
                assert(rest[i] == entries[i]);
                assert(prev.1 & w == 0);
                let (x, y) = (next.1, prev.1);
                assert(x & !y == 0 && y & w == 0 ==> x & w == 0) by (bit_vector);
            } else {
                lemma_single_bit_facts(prev.1, 0, 0, w);
                lemma_greedy_step_bits(0, prev.1, w);
            }
        }
    }
}


/// A level at which no entry has that number of bits set changes nothing.
pub proof fn lemma_greedy_level_skip(entries: Seq<FlagsValue>, k: nat, acc: (Seq<char>, u32))
    requires
        forall|i: int| 0 <= i < entries.len() ==> popcount((#[trigger] entries[i]).value) != k,
    ensures
        greedy_level(entries, k, acc) == acc,
    decreases entries.len(),
{
    if entries.len() > 0 {
        let rest = entries.drop_last();
        assert forall|i: int| 0 <= i < rest.len() implies popcount((#[trigger] rest[i]).value) != k by {
            assert(rest[i] == entries[i]);
        }
        lemma_greedy_level_skip(rest, k, acc);
        assert(entries.last() == entries[entries.len() - 1]);
    }
}

} // verus!
