use vstd::prelude::*;

use crate::text::{lemma_signed_decimal_injective, push_signed_decimal, push_str, signed_decimal};

verus! {

/// The unit of a formatted value (`GstFormat`).
#[derive(Debug, Eq, PartialEq, Structural, Ord, PartialOrd, Hash, Clone, Copy)]
#[allow(non_camel_case_types)]
pub enum Format {
    Undefined,
    Default,
    Bytes,
    Time,
    Buffers,
    Percent,
    __Unknown(i32),
}

/// The C value of a format.
pub open spec fn format_to_raw(f: Format) -> i32 {
    match f {
        Format::Undefined => 0,
        Format::Default => 1,
        Format::Bytes => 2,
        Format::Time => 3,
        Format::Buffers => 4,
        Format::Percent => 5,
        Format::__Unknown(v) => v,
    }
}

/// The format of a C value.
pub open spec fn format_from_raw(v: i32) -> Format {
    if v == 0 {
        Format::Undefined
    } else if v == 1 {
        Format::Default
    } else if v == 2 {
        Format::Bytes
    } else if v == 3 {
        Format::Time
    } else if v == 4 {
        Format::Buffers
    } else if v == 5 {
        Format::Percent
    } else {
        Format::__Unknown(v)
    }
}

/// The human readable name of a format.
pub open spec fn format_text(f: Format) -> Seq<char> {
    match f {
        Format::Undefined => "undefined"@,
        Format::Default => "default"@,
        Format::Bytes => "bytes"@,
        Format::Time => "time"@,
        Format::Buffers => "buffers"@,
        Format::Percent => "%"@,
        Format::__Unknown(v) => "(format: "@ + signed_decimal(v as int) + ")"@,
    }
}

impl Format {
    /// Returns the C value of the format.
    pub fn into_glib(self) -> (r: i32)
        ensures
            r == format_to_raw(self),
    {
        match self {
            Format::Undefined => 0,
            Format::Default => 1,
            Format::Bytes => 2,
            Format::Time => 3,
            Format::Buffers => 4,
            Format::Percent => 5,
            Format::__Unknown(v) => v,
        }
    }

    /// Returns the format of a C value.
    pub fn from_glib(v: i32) -> (r: Format)
        ensures
            r == format_from_raw(v),
    {
        if v == 0 {
            Format::Undefined
        } else if v == 1 {
            Format::Default
        } else if v == 2 {
            Format::Bytes
        } else if v == 3 {
            Format::Time
        } else if v == 4 {
            Format::Buffers
        } else if v == 5 {
            Format::Percent
        } else {
            Format::__Unknown(v)
        }
    }

    /// Appends the human readable name of the format to `out`.
    pub fn push_text(self, out: &mut Vec<char>)
        ensures
            final(out)@ == old(out)@ + format_text(self),
    {
        match self {
            Format::Undefined => {
                proof { reveal_strlit("undefined"); }
                push_str(out, "undefined");
            },
            Format::Default => {
                proof { reveal_strlit("default"); }
                push_str(out, "default");
            },
            Format::Bytes => {
                proof { reveal_strlit("bytes"); }
                push_str(out, "bytes");
            },
            Format::Time => {
                proof { reveal_strlit("time"); }
                push_str(out, "time");
            },
            Format::Buffers => {
                proof { reveal_strlit("buffers"); }
                push_str(out, "buffers");
            },
            Format::Percent => {
                proof { reveal_strlit("%"); }
                push_str(out, "%");
            },
            Format::__Unknown(v) => {
                proof {
                    reveal_strlit("(format: ");
                    reveal_strlit(")");
                }
                push_str(out, "(format: ");
                push_signed_decimal(out, v as i64);
                push_str(out, ")");
                proof {
                    assert(final(out)@ =~= old(out)@ + format_text(self));
                }
            },
        }
    }
}

/// A C format value round-trips through `Format`.
pub proof fn lemma_format_raw_roundtrip(v: i32)
    ensures
        format_to_raw(format_from_raw(v)) == v,
{
}

/// A format is given back by reading its C value, unless it is an
/// unknown value that holds the C value of a known one.
pub proof fn lemma_format_value_roundtrip(t: Format)
    requires
        t matches Format::__Unknown(v) ==> format_from_raw(v) is __Unknown,
    ensures
        format_from_raw(format_to_raw(t)) == t,
{
}


/// Every format has its own unit name: distinct formats have distinct
/// names. The known formats are named `undefined`, `default`, `bytes`,
/// `time`, `buffers` and `%`, and an unknown one `(format: N)` with its C
/// value `N`.
pub proof fn lemma_format_text_injective(f: Format, g: Format)
    ensures
        format_text(f) == format_text(g) ==> f == g,
        format_text(Format::Undefined) == "undefined"@,
        format_text(Format::Default) == "default"@,
        format_text(Format::Bytes) == "bytes"@,
        format_text(Format::Time) == "time"@,
        format_text(Format::Buffers) == "buffers"@,
        format_text(Format::Percent) == "%"@,
{
    reveal_strlit("undefined");
    reveal_strlit("default");
    reveal_strlit("bytes");
    reveal_strlit("time");
    reveal_strlit("buffers");
    reveal_strlit("%");
    reveal_strlit("(format: ");
    reveal_strlit(")");
    assert("undefined"@.len() == 9 && "undefined"@[0] == 'u');
    assert("default"@.len() == 7 && "default"@[0] == 'd');
    assert("bytes"@.len() == 5 && "bytes"@[0] == 'b');
    assert("time"@.len() == 4 && "time"@[0] == 't');
    assert("buffers"@.len() == 7 && "buffers"@[0] == 'b');
    assert("%"@.len() == 1 && "%"@[0] == '%');
    assert("(format: "@.len() == 9 && "(format: "@[0] == '(');
    if format_text(f) == format_text(g) {
        match (f, g) {
            (Format::__Unknown(a), Format::__Unknown(b)) => {
                let ta = signed_decimal(a as int);
                let tb = signed_decimal(b as int);
                let fa = "(format: "@ + ta + ")"@;
                let fb = "(format: "@ + tb + ")"@;
                assert(fa.len() == fb.len());
                assert(fa.subrange(9, fa.len() - 1) =~= ta);
                assert(fb.subrange(9, fb.len() - 1) =~= tb);
                lemma_signed_decimal_injective(a as int, b as int);
            },
            (Format::__Unknown(a), _) => {
                assert(format_text(f)[0] == '(');
            },
            (_, Format::__Unknown(b)) => {
                assert(format_text(g)[0] == '(');
            },
            _ => {
            },
        }
    }
}


/// The C values of the known formats are those of GStreamer's C
/// headers, and each is read back as its own format.
pub proof fn lemma_format_c_values()
    ensures
        format_to_raw(Format::Undefined) == 0,
        format_from_raw(0) == Format::Undefined,
        format_to_raw(Format::Default) == 1,
        format_from_raw(1) == Format::Default,
        format_to_raw(Format::Bytes) == 2,
        format_from_raw(2) == Format::Bytes,
        format_to_raw(Format::Time) == 3,
        format_from_raw(3) == Format::Time,
        format_to_raw(Format::Buffers) == 4,
        format_from_raw(4) == Format::Buffers,
        format_to_raw(Format::Percent) == 5,
        format_from_raw(5) == Format::Percent,
{
}

} // verus!
