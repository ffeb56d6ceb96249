use vstd::prelude::*;

use crate::text::{chars_to_string, push_str};
use crate::flag_types::DebugColorFlags;
use crate::flags::{
    lemma_lookup_own_nick, lemma_nicks_distinct_by_key, lemma_parse_fields_push, lemma_plus_fields_append,
    lemma_plus_fields_plain, nicks_distinct, no_plus, parse_fields, parse_flags_spec, plus_fields,
};

verus! {

/// The name of the color numbered `c` in debug color flags.
pub open spec fn color_nick(c: u32) -> Seq<char> {
    if c == 0 {
        "black"@
    } else if c == 1 {
        "red"@
    } else if c == 2 {
        "green"@
    } else if c == 3 {
        "yellow"@
    } else if c == 4 {
        "blue"@
    } else if c == 5 {
        "magenta"@
    } else if c == 6 {
        "cyan"@
    } else {
        "white"@
    }
}

/// The serialization of debug color flags: the foreground color held in the
/// low three bits, the background color held in bits 4 to 6, then `bold`
/// (bit 8) and `underline` (bit 9) when set, joined with `+`.
pub open spec fn debug_color_serialization(bits: u32) -> Seq<char> {
    "fg-"@ + color_nick(bits & 7) + "+bg-"@ + color_nick((bits & 0x70) / 16) + (if bits & 0x100
        != 0 {
        "+bold"@
    } else {
        Seq::empty()
    }) + (if bits & 0x200 != 0 {
        "+underline"@
    } else {
        Seq::empty()
    })
}

/// Appends the name of the color numbered `c` to `out`.
fn push_color(out: &mut Vec<char>, c: u32)
    ensures
        final(out)@ == old(out)@ + color_nick(c),
{
    if c == 0 {
        push_str(out, "black");
    } else if c == 1 {
        push_str(out, "red");
    } else if c == 2 {
        push_str(out, "green");
    } else if c == 3 {
        push_str(out, "yellow");
    } else if c == 4 {
        push_str(out, "blue");
    } else if c == 5 {
        push_str(out, "magenta");
    } else if c == 6 {
        push_str(out, "cyan");
    } else {
        push_str(out, "white");
    }
}

/// Serializes debug color flags: the foreground color, the background
/// color, then `bold` and `underline` when set, joined with `+`.
pub fn serialize_debug_color(bits: u32) -> (r: String)
    ensures
        r@ == debug_color_serialization(bits),
{
    let mut out: Vec<char> = Vec::new();
    push_str(&mut out, "fg-");
    push_color(&mut out, bits & 7);
    push_str(&mut out, "+bg-");
    push_color(&mut out, (bits & 0x70) / 16);
    let ghost colors = out@;
    if bits & 0x100 != 0 {
        push_str(&mut out, "+bold");
    }
    let ghost bold = out@;
    if bits & 0x200 != 0 {
        push_str(&mut out, "+underline");
    }
    proof {
        assert(colors =~= "fg-"@ + color_nick(bits & 7) + "+bg-"@ + color_nick((bits & 0x70) / 16));
        assert(out@ =~= debug_color_serialization(bits));
    }
    chars_to_string(&out)
}


/// The nicks of the debug color flags are distinct.
pub proof fn lemma_debug_color_nicks_distinct()
    ensures
        nicks_distinct(DebugColorFlags::spec_values()),
{
    reveal_strlit("fg-black");
    reveal_strlit("fg-red");
    reveal_strlit("fg-green");
    reveal_strlit("fg-yellow");
    reveal_strlit("fg-blue");
    reveal_strlit("fg-magenta");
    reveal_strlit("fg-cyan");
    reveal_strlit("fg-white");
    reveal_strlit("bg-black");
    reveal_strlit("bg-red");
    reveal_strlit("bg-green");
    reveal_strlit("bg-yellow");
    reveal_strlit("bg-blue");
    reveal_strlit("bg-magenta");
    reveal_strlit("bg-cyan");
    reveal_strlit("bg-white");
    reveal_strlit("bold");
    reveal_strlit("underline");
    let v = DebugColorFlags::spec_values();
    let key = |s: Seq<char>| if s.len() == 8 && s[0] == 'f' && s[3] == 'b' { 0int } else if s.len() == 6 && s[0] == 'f' && s[3] == 'r' { 1int } else if s.len() == 8 && s[0] == 'f' && s[3] == 'g' { 2int } else if s.len() == 9 && s[0] == 'f' && s[3] == 'y' { 3int } else if s.len() == 7 && s[0] == 'f' && s[3] == 'b' { 4int } else if s.len() == 10 && s[0] == 'f' && s[3] == 'm' { 5int } else if s.len() == 7 && s[0] == 'f' && s[3] == 'c' { 6int } else if s.len() == 8 && s[0] == 'f' && s[3] == 'w' { 7int } else if s.len() == 8 && s[0] == 'b' && s[3] == 'b' { 8int } else if s.len() == 6 && s[0] == 'b' && s[3] == 'r' { 9int } else if s.len() == 8 && s[0] == 'b' && s[3] == 'g' { 10int } else if s.len() == 9 && s[0] == 'b' && s[3] == 'y' { 11int } else if s.len() == 7 && s[0] == 'b' && s[3] == 'b' { 12int } else if s.len() == 10 && s[0] == 'b' && s[3] == 'm' { 13int } else if s.len() == 7 && s[0] == 'b' && s[3] == 'c' { 14int } else if s.len() == 8 && s[0] == 'b' && s[3] == 'w' { 15int } else if s.len() == 4 && s[0] == 'b' && s[3] == 'd' { 16int } else if s.len() == 9 && s[0] == 'u' && s[3] == 'e' { 17int } else { -1int };
    assert forall|i: int| 0 <= i < v.len() implies key(#[trigger] v[i].nick@) == i by {
        if i == 0 {
            assert(key(v[0].nick@) == 0);
        } else if i == 1 {
            assert(key(v[1].nick@) == 1);
        } else if i == 2 {
            assert(key(v[2].nick@) == 2);
        } else if i == 3 {
            assert(key(v[3].nick@) == 3);
        } else if i == 4 {
            assert(key(v[4].nick@) == 4);
        } else if i == 5 {
            assert(key(v[5].nick@) == 5);
        } else if i == 6 {
            assert(key(v[6].nick@) == 6);
        } else if i == 7 {
            assert(key(v[7].nick@) == 7);
        } else if i == 8 {
            assert(key(v[8].nick@) == 8);
        } else if i == 9 {
            assert(key(v[9].nick@) == 9);
        } else if i == 10 {
            assert(key(v[10].nick@) == 10);
        } else if i == 11 {
            assert(key(v[11].nick@) == 11);
        } else if i == 12 {
            assert(key(v[12].nick@) == 12);
        } else if i == 13 {
            assert(key(v[13].nick@) == 13);
        } else if i == 14 {
            assert(key(v[14].nick@) == 14);
        } else if i == 15 {
            assert(key(v[15].nick@) == 15);
        } else if i == 16 {
            assert(key(v[16].nick@) == 16);
        } else if i == 17 {
            assert(key(v[17].nick@) == 17);
        }
    }
    lemma_nicks_distinct_by_key(v, key);
}


/// The entries of the debug color flags for the color numbered `c`: its
/// foreground at index `c`, its background at index `c + 8`.
proof fn lemma_debug_color_entry(c: u32)
    requires
        c < 8,
    ensures
        DebugColorFlags::spec_values()[c as int].nick@ == "fg-"@ + color_nick(c),
        DebugColorFlags::spec_values()[c as int].value == c,
        DebugColorFlags::spec_values()[c as int + 8].nick@ == "bg-"@ + color_nick(c),
        DebugColorFlags::spec_values()[c as int + 8].value == c * 16,
        no_plus("fg-"@ + color_nick(c)),
        no_plus("bg-"@ + color_nick(c)),
{
    reveal_strlit("fg-");
    reveal_strlit("bg-");
    reveal_strlit("black");
    reveal_strlit("red");
    reveal_strlit("green");
    reveal_strlit("yellow");
    reveal_strlit("blue");
    reveal_strlit("magenta");
    reveal_strlit("cyan");
    reveal_strlit("white");
    reveal_strlit("fg-black");
    reveal_strlit("fg-red");
    reveal_strlit("fg-green");
    reveal_strlit("fg-yellow");
    reveal_strlit("fg-blue");
    reveal_strlit("fg-magenta");
    reveal_strlit("fg-cyan");
    reveal_strlit("fg-white");
    reveal_strlit("bg-black");
    reveal_strlit("bg-red");
    reveal_strlit("bg-green");
    reveal_strlit("bg-yellow");
    reveal_strlit("bg-blue");
    reveal_strlit("bg-magenta");
    reveal_strlit("bg-cyan");
    reveal_strlit("bg-white");
    let v = DebugColorFlags::spec_values();
    if c == 0 {
        assert(v[0].nick@ =~= "fg-"@ + "black"@);
        assert(v[8].nick@ =~= "bg-"@ + "black"@);
    } else if c == 1 {
        assert(v[1].nick@ =~= "fg-"@ + "red"@);
        assert(v[9].nick@ =~= "bg-"@ + "red"@);
    } else if c == 2 {
        assert(v[2].nick@ =~= "fg-"@ + "green"@);
        assert(v[10].nick@ =~= "bg-"@ + "green"@);
    } else if c == 3 {
        assert(v[3].nick@ =~= "fg-"@ + "yellow"@);
        assert(v[11].nick@ =~= "bg-"@ + "yellow"@);
    } else if c == 4 {
        assert(v[4].nick@ =~= "fg-"@ + "blue"@);
        assert(v[12].nick@ =~= "bg-"@ + "blue"@);
    } else if c == 5 {
        assert(v[5].nick@ =~= "fg-"@ + "magenta"@);
        assert(v[13].nick@ =~= "bg-"@ + "magenta"@);
    } else if c == 6 {
        assert(v[6].nick@ =~= "fg-"@ + "cyan"@);
        assert(v[14].nick@ =~= "bg-"@ + "cyan"@);
    } else if c == 7 {
        assert(v[7].nick@ =~= "fg-"@ + "white"@);
        assert(v[15].nick@ =~= "bg-"@ + "white"@);
    }
}

/// Reading back the serialization of debug color flags gives back the
/// flags, for flags holding only bits of the type.
pub proof fn lemma_debug_color_roundtrip(bits: u32)
    requires
        bits & !0x377u32 == 0,
    ensures
        parse_flags_spec(DebugColorFlags::spec_values(), debug_color_serialization(bits)) == Some(
            bits,
        ),
        bits & DebugColorFlags::spec_all_bits() == bits,
{
    assert(bits & !0x377u32 == 0 ==> bits & 0x377u32 == bits) by (bit_vector);
    let v = DebugColorFlags::spec_values();
    assert((bits & 7) < 8 && (bits & 0x70u32) / 16 < 8 && (bits & 0x70u32) / 16 * 16 == (bits
        & 0x70u32)) by (bit_vector);
    let c1 = bits & 7;
    let c2 = (bits & 0x70u32) / 16;
    lemma_debug_color_entry(c1);
    lemma_debug_color_entry(c2);
    lemma_debug_color_nicks_distinct();
    reveal_strlit("+bg-");
    reveal_strlit("+bold");
    reveal_strlit("+underline");
    reveal_strlit("bold");
    reveal_strlit("underline");
    reveal_strlit("fg-");
    let f1 = "fg-"@ + color_nick(c1);
    let f2 = "bg-"@ + color_nick(c2);
    let s1 = f1 + seq!['+'] + f2;
    reveal_strlit("bg-");
    assert("+bg-"@ =~= seq!['+'] + "bg-"@);
    assert("fg-"@ + color_nick(c1) + "+bg-"@ + color_nick(c2) =~= s1);
    lemma_plus_fields_plain(f1);
    lemma_plus_fields_append(f1, f2);
    assert(seq![f1] =~= Seq::<Seq<char>>::empty().push(f1));
    lemma_parse_fields_push(v, Seq::empty(), f1);
    lemma_parse_fields_push(v, seq![f1], f2);
    lemma_lookup_own_nick(v, c1 as int);
    lemma_lookup_own_nick(v, c2 as int + 8);
    lemma_lookup_own_nick(v, 16);
    lemma_lookup_own_nick(v, 17);
    assert(v[16].nick@ == "bold"@ && v[16].value == 0x100);
    assert(v[17].nick@ == "underline"@ && v[17].value == 0x200);
    assert(no_plus("bold"@));
    assert(no_plus("underline"@));
    let x = c1 | (c2 * 16) as u32;
    assert(parse_fields(v, seq![f1].push(f2)) == Some(0u32 | c1 | (c2 * 16) as u32));
    assert(plus_fields(s1) == seq![f1].push(f2));
    assert((0u32 | (bits & 7)) == (bits & 7)) by (bit_vector);
    assert(bits & !0x377u32 == 0 ==> {
        let y = (bits & 7) | (bits & 0x70u32);
        &&& (bits & 0x100u32 != 0 && bits & 0x200u32 != 0 ==> (y | 0x100u32) | 0x200u32 == bits)
        &&& (bits & 0x100u32 != 0 && bits & 0x200u32 == 0 ==> y | 0x100u32 == bits)
        &&& (bits & 0x100u32 == 0 && bits & 0x200u32 != 0 ==> y | 0x200u32 == bits)
        &&& (bits & 0x100u32 == 0 && bits & 0x200u32 == 0 ==> y == bits)
    }) by (bit_vector);
    let ser = debug_color_serialization(bits);
    let fs1 = seq![f1].push(f2);
    if bits & 0x100u32 != 0 {
        let s2 = s1 + seq!['+'] + "bold"@;
        lemma_plus_fields_append(s1, "bold"@);
        lemma_parse_fields_push(v, fs1, "bold"@);
        if bits & 0x200u32 != 0 {
            let s3 = s2 + seq!['+'] + "underline"@;
            assert(ser =~= s3);
            lemma_plus_fields_append(s2, "underline"@);
            lemma_parse_fields_push(v, fs1.push("bold"@), "underline"@);
        } else {
            assert(ser =~= s2);
        }
    } else {
        if bits & 0x200u32 != 0 {
            let s3 = s1 + seq!['+'] + "underline"@;
            assert(ser =~= s3);
            lemma_plus_fields_append(s1, "underline"@);
            lemma_parse_fields_push(v, fs1, "underline"@);
        } else {
            assert(ser =~= s1);
        }
    }
}

} // verus!
