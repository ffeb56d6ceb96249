use vstd::prelude::*;

use vstd::string::StringSliceAdditionalSpecFns;

verus! {

/// The byte `_`, which separates the parts of pad names.
pub const NAME_SEPARATOR: u8 = 0x5f;

/// The byte `%`, which starts a conversion in a name template.
pub const CONVERSION_START: u8 = 0x25;

/// The `sep`-separated fields of `s`.
pub open spec fn byte_fields(s: Seq<u8>, sep: u8) -> Seq<Seq<u8>>
    decreases s.len(),
{
    if s.len() == 0 {
        seq![Seq::empty()]
    } else {
        let f = byte_fields(s.drop_last(), sep);
        if s.last() == sep {
            f.push(Seq::empty())
        } else {
            f.update(f.len() - 1, f.last().push(s.last()))
        }
    }
}

/// The index of the first `b` in `s`, if any.
pub open spec fn first_index(s: Seq<u8>, b: u8) -> Option<int>
    decreases s.len(),
{
    if s.len() == 0 {
        None
    } else if s[0] == b {
        Some(0)
    } else {
        match first_index(s.drop_first(), b) {
            Some(i) => Some(i + 1),
            None => None,
        }
    }
}

/// All the bytes of `s` are ASCII digits.
pub open spec fn all_digits(s: Seq<u8>) -> bool {
    forall|i: int| 0 <= i < s.len() ==> 0x30 <= #[trigger] s[i] <= 0x39
}

/// The number written by the decimal digits `s`.
pub open spec fn digits_value(s: Seq<u8>) -> int
    decreases s.len(),
{
    if s.len() == 0 {
        0
    } else {
        digits_value(s.drop_last()) * 10 + (s.last() - 0x30)
    }
}

/// `s` is a non-empty run of digits whose number is at most `max`.
pub open spec fn number_at_most(s: Seq<u8>, max: int) -> bool {
    s.len() > 0 && all_digits(s) && digits_value(s) <= max
}

/// `s` is the text of a `u32`: digits, maybe after a `+`.
pub open spec fn parses_as_u32(s: Seq<u8>) -> bool {
    if s.len() > 0 && s[0] == 0x2b {
        number_at_most(s.drop_first(), u32::MAX as int)
    } else {
        number_at_most(s, u32::MAX as int)
    }
}

/// `s` is the text of an `i32`: digits, maybe after a `+` or a `-`.
pub open spec fn parses_as_i32(s: Seq<u8>) -> bool {
    if s.len() > 0 && s[0] == 0x2d {
        number_at_most(s.drop_first(), 0x8000_0000)
    } else if s.len() > 0 && s[0] == 0x2b {
        number_at_most(s.drop_first(), i32::MAX as int)
    } else {
        number_at_most(s, i32::MAX as int)
    }
}

/// The outcome of checking one part of a pad name against one part of a
/// name template.
#[derive(Clone, Copy, Debug, PartialEq, Eq, Structural)]
pub enum PartCheck {
    /// The part fits; the next parts are checked.
    Continue,
    /// The part fits a `%s` conversion, which takes the rest of the name.
    Accept,
    /// The part does not fit.
    Reject,
    /// The template part has an unknown conversion.
    Invalid,
}

/// Checks the name part `part` against the template part `tp`: a template
/// part without `%` must be equal to the name part; otherwise the name
/// part must start with what comes before the `%`, and the conversion `%s`
/// accepts the rest of the name, `%u` asks that the rest of the part be a
/// `u32` and `%d` an `i32`.
pub open spec fn check_part(tp: Seq<u8>, part: Seq<u8>) -> PartCheck {
    match first_index(tp, CONVERSION_START) {
        Some(k) => if k > 0 && !(part.len() >= k && part.take(k) == tp.take(k)) {
            PartCheck::Reject
        } else if k + 1 >= tp.len() {
            PartCheck::Invalid
        } else if tp[k + 1] == 0x73 {
            PartCheck::Accept
        } else if tp[k + 1] == 0x75 {
            if k < part.len() && parses_as_u32(part.skip(k)) {
                PartCheck::Continue
            } else {
                PartCheck::Reject
            }
        } else if tp[k + 1] == 0x64 {
            if k < part.len() && parses_as_i32(part.skip(k)) {
                PartCheck::Continue
            } else {
                PartCheck::Reject
            }
        } else {
            PartCheck::Invalid
        },
        None => if tp == part {
            PartCheck::Continue
        } else {
            PartCheck::Reject
        },
    }
}

/// Checks the name parts `parts` against the template parts `tparts`, in
/// order: `Some(true)` if the name fits, `Some(false)` if it does not (or
/// has too few parts), `None` if an unknown conversion is reached.
pub open spec fn check_parts(tparts: Seq<Seq<u8>>, parts: Seq<Seq<u8>>) -> Option<bool>
    decreases tparts.len(),
{
    if tparts.len() == 0 {
        Some(true)
    } else if parts.len() == 0 {
        Some(false)
    } else {
        match check_part(tparts[0], parts[0]) {
            PartCheck::Continue => check_parts(tparts.drop_first(), parts.drop_first()),
            PartCheck::Accept => Some(true),
            PartCheck::Reject => Some(false),
            PartCheck::Invalid => None,
        }
    }
}

/// Whether the pad name `name` fits the name template `template`, both
/// split in `_`-separated parts; `None` if an unknown conversion is
/// reached.
pub open spec fn name_fits_template(template: Seq<u8>, name: Seq<u8>) -> Option<bool> {
    check_parts(byte_fields(template, NAME_SEPARATOR), byte_fields(name, NAME_SEPARATOR))
}

/// A byte string has at least one field.
proof fn lemma_byte_fields_len(s: Seq<u8>, sep: u8)
    ensures
        byte_fields(s, sep).len() >= 1,
    decreases s.len(),
{
    if s.len() > 0 {
        lemma_byte_fields_len(s.drop_last(), sep);
    }
}

/// Returns the `sep`-separated fields of `s`.
pub fn split_bytes(s: &[u8], sep: u8) -> (r: Vec<Vec<u8>>)
    ensures
        r@.len() == byte_fields(s@, sep).len(),
        forall|i: int| 0 <= i < r@.len() ==> (#[trigger] r@[i])@ == byte_fields(s@, sep)[i],
{
    let mut done: Vec<Vec<u8>> = Vec::new();
    let mut cur: Vec<u8> = Vec::new();
    let mut i: usize = 0;
    proof {
        assert(s@.take(0) =~= Seq::<u8>::empty());
    }
    while i < s.len()
        invariant
            i <= s@.len(),
            done@.len() + 1 == byte_fields(s@.take(i as int), sep).len(),
            forall|j: int|
                0 <= j < done@.len() ==> (#[trigger] done@[j])@ == byte_fields(
                    s@.take(i as int),
                    sep,
                )[j],
            cur@ == byte_fields(s@.take(i as int), sep).last(),
        decreases s@.len() - i,
    {
        let b = s[i];
        let ghost f = byte_fields(s@.take(i as int), sep);
        proof {
            lemma_byte_fields_len(s@.take(i as int), sep);
            assert(s@.take(i as int + 1).drop_last() =~= s@.take(i as int));
        }
        if b == sep {
            let finished = cur;
            done.push(finished);
            cur = Vec::new();
        } else {
            cur.push(b);
        }
        i = i + 1;
        proof {
            let g = byte_fields(s@.take(i as int), sep);
            if b == sep {
                assert(g == f.push(Seq::<u8>::empty()));
            } else {
                assert(g == f.update(f.len() - 1, f.last().push(b)));
            }
            assert forall|j: int| 0 <= j < done@.len() implies (#[trigger] done@[j])@ == g[j] by {}
        }
    }
    let last = cur;
    done.push(last);
    proof {
        assert(s@.take(s@.len() as int) =~= s@);
        let g = byte_fields(s@, sep);
        assert forall|j: int| 0 <= j < done@.len() implies (#[trigger] done@[j])@ == g[j] by {}
    }
    done
}

/// Returns the index of the first `b` in `s`, if any.
fn find_byte(s: &Vec<u8>, b: u8) -> (r: Option<usize>)
    ensures
        r matches Some(i) ==> first_index(s@, b) == Some(i as int) && i < s@.len(),
        r is None ==> first_index(s@, b) is None,
{
    let mut i: usize = 0;
    while i < s.len()
        invariant
            i <= s@.len(),
            forall|j: int| 0 <= j < i ==> s@[j] != b,
        decreases s@.len() - i,
    {
        if s[i] == b {
            proof {
                lemma_first_index_at(s@, b, i as int);
            }
            return Some(i);
        }
        i = i + 1;
    }
    proof {
        lemma_first_index_none(s@, b);
    }
    None
}

/// The first `b` of `s` is at `i` when `s[i]` is `b` and no byte before is.
proof fn lemma_first_index_at(s: Seq<u8>, b: u8, i: int)
    requires
        0 <= i < s.len(),
        s[i] == b,
        forall|j: int| 0 <= j < i ==> s[j] != b,
    ensures
        first_index(s, b) == Some(i),
    decreases i,
{
    if i > 0 {
        lemma_first_index_at(s.drop_first(), b, i - 1);
    }
}

/// There is no first `b` in `s` when no byte of `s` is `b`.
proof fn lemma_first_index_none(s: Seq<u8>, b: u8)
    requires
        forall|j: int| 0 <= j < s.len() ==> s[j] != b,
    ensures
        first_index(s, b) is None,
    decreases s.len(),
{
    if s.len() > 0 {
        lemma_first_index_none(s.drop_first(), b);
    }
}

/// The first index of a byte is an index of the sequence.
proof fn lemma_first_index_bound(s: Seq<u8>, b: u8)
    ensures
        first_index(s, b) matches Some(i) ==> 0 <= i < s.len() && s[i] == b,
    decreases s.len(),
{
    if s.len() > 0 {
        lemma_first_index_bound(s.drop_first(), b);
    }
}

/// Returns whether `s[from..]` is a non-empty run of digits whose number
/// is at most `max`.
fn digits_at_most(s: &Vec<u8>, from: usize, max: u64) -> (r: bool)
    requires
        from <= s@.len(),
        max < 0x1_0000_0000,
    ensures
        r == number_at_most(s@.skip(from as int), max as int),
{
    let ghost d = s@.skip(from as int);
    if from == s.len() {
        return false;
    }
    let mut value: u64 = 0;
    let mut i: usize = from;
    while i < s.len()
        invariant
            from <= i <= s@.len(),
            d == s@.skip(from as int),
            max < 0x1_0000_0000,
            all_digits(d.take(i - from)),
            value == digits_value(d.take(i - from)),
            value <= max,
        decreases s@.len() - i,
    {
        let c = s[i];
        proof {
            assert(d.take(i - from + 1).drop_last() =~= d.take(i - from));
            assert(d[i - from] == c);
        }
        if c < 0x30 || c > 0x39 {
            proof {
                assert(!all_digits(d)) by {
                    assert(!(0x30 <= d[i - from] <= 0x39));
                }
            }
            return false;
        }
        let next: u64 = value * 10 + (c - 0x30) as u64;
        proof {
            assert(d.take(i - from + 1).last() == c);
            assert(digits_value(d.take(i - from + 1)) == next);
        }
        if next > max {
            proof {
                if all_digits(d) {
                    lemma_digits_value_prefix(d, i - from + 1);
                }
            }
            return false;
        }
        value = next;
        i = i + 1;
        proof {
            assert forall|j: int| 0 <= j < d.take(i - from).len() implies 0x30 <= #[trigger] d.take(
                i - from,
            )[j] <= 0x39 by {
                if j < i - from - 1 {
                    assert(d.take(i - from)[j] == d.take(i - from - 1)[j]);
                }
            }
        }
    }
    proof {
        assert(d.take(s@.len() - from) =~= d);
    }
    true
}

/// The number written by digits is at least that written by any prefix of
/// them.
proof fn lemma_digits_value_prefix(d: Seq<u8>, n: int)
    requires
        0 <= n <= d.len(),
        all_digits(d),
    ensures
        digits_value(d.take(n)) <= digits_value(d),
        digits_value(d.take(n)) >= 0,
    decreases d.len(),
{
    if d.len() > 0 {
        if n == d.len() {
            assert(d.take(n) =~= d);
            lemma_digits_value_nonneg(d);
        } else {
            assert(all_digits(d.drop_last()));
            lemma_digits_value_prefix(d.drop_last(), n);
            assert(d.drop_last().take(n) =~= d.take(n));
            lemma_digits_value_nonneg(d.drop_last());
            assert(0x30 <= d[d.len() - 1] <= 0x39);
        }
    }
}

/// The number written by digits is not negative.
proof fn lemma_digits_value_nonneg(d: Seq<u8>)
    requires
        all_digits(d),
    ensures
        digits_value(d) >= 0,
    decreases d.len(),
{
    if d.len() > 0 {
        assert(all_digits(d.drop_last()));
        lemma_digits_value_nonneg(d.drop_last());
        assert(0x30 <= d[d.len() - 1] <= 0x39);
    }
}

/// Returns whether `s[from..]` is the text of a `u32`.
fn parses_u32_at(s: &Vec<u8>, from: usize) -> (r: bool)
    requires
        from <= s@.len(),
    ensures
        r == parses_as_u32(s@.skip(from as int)),
{
    if from < s.len() && s[from] == 0x2b {
        proof {
            assert(s@.skip(from as int).drop_first() =~= s@.skip(from as int + 1));
        }
        digits_at_most(s, from + 1, 0xffff_ffff)
    } else {
        digits_at_most(s, from, 0xffff_ffff)
    }
}

/// Returns whether `s[from..]` is the text of an `i32`.
fn parses_i32_at(s: &Vec<u8>, from: usize) -> (r: bool)
    requires
        from <= s@.len(),
    ensures
        r == parses_as_i32(s@.skip(from as int)),
{
    if from < s.len() && s[from] == 0x2d {
        proof {
            assert(s@.skip(from as int).drop_first() =~= s@.skip(from as int + 1));
        }
        digits_at_most(s, from + 1, 0x8000_0000)
    } else if from < s.len() && s[from] == 0x2b {
        proof {
            assert(s@.skip(from as int).drop_first() =~= s@.skip(from as int + 1));
        }
        digits_at_most(s, from + 1, 0x7fff_ffff)
    } else {
        digits_at_most(s, from, 0x7fff_ffff)
    }
}

/// Returns whether the first `k` bytes of `part` are those of `tp`.
fn starts_with_prefix(part: &Vec<u8>, tp: &Vec<u8>, k: usize) -> (r: bool)
    requires
        k <= tp@.len(),
    ensures
        r == (part@.len() >= k && part@.take(k as int) == tp@.take(k as int)),
{
    if part.len() < k {
        return false;
    }
    let mut i: usize = 0;
    while i < k
        invariant
            i <= k,
            k <= tp@.len(),
            k <= part@.len(),
            forall|j: int| 0 <= j < i ==> part@[j] == tp@[j],
        decreases k - i,
    {
        if part[i] != tp[i] {
            proof {
                assert(part@.take(k as int)[i as int] != tp@.take(k as int)[i as int]);
            }
            return false;
        }
        i = i + 1;
    }
    proof {
        assert(part@.take(k as int) =~= tp@.take(k as int));
    }
    true
}

/// Returns whether two byte strings are equal.
fn bytes_equal(a: &Vec<u8>, b: &Vec<u8>) -> (r: bool)
    ensures
        r == (a@ == b@),
{
    if a.len() != b.len() {
        return false;
    }
    let mut i: usize = 0;
    while i < a.len()
        invariant
            i <= a@.len(),
            a@.len() == b@.len(),
            forall|j: int| 0 <= j < i ==> a@[j] == b@[j],
        decreases a@.len() - i,
    {
        if a[i] != b[i] {
            return false;
        }
        i = i + 1;
    }
    proof {
        assert(a@ =~= b@);
    }
    true
}

/// Checks the name part `part` against the template part `tp`.
pub fn check_name_part(tp: &Vec<u8>, part: &Vec<u8>) -> (r: PartCheck)
    ensures
        r == check_part(tp@, part@),
{
    proof {
        lemma_first_index_bound(tp@, CONVERSION_START);
    }
    match find_byte(tp, CONVERSION_START) {
        Some(k) => {
            assert(first_index(tp@, CONVERSION_START) == Some(k as int));
            assert(k < tp@.len());
            if k > 0 && !starts_with_prefix(part, tp, k) {
                PartCheck::Reject
            } else if k >= tp.len() - 1 {
                PartCheck::Invalid
            } else if tp[k + 1] == 0x73 {
                PartCheck::Accept
            } else if tp[k + 1] == 0x75 {
                if k < part.len() && parses_u32_at(part, k) {
                    PartCheck::Continue
                } else {
                    PartCheck::Reject
                }
            } else if tp[k + 1] == 0x64 {
                if k < part.len() && parses_i32_at(part, k) {
                    PartCheck::Continue
                } else {
                    PartCheck::Reject
                }
            } else {
                PartCheck::Invalid
            }
        },
        None => {
            if bytes_equal(tp, part) {
                PartCheck::Continue
            } else {
                PartCheck::Reject
            }
        },
    }
}

/// Returns whether the pad name `name` fits the name template `template`
/// (such as `sink_%u`), comparing their `_`-separated parts in order: a
/// template part without `%` must equal the name part, `%u` and `%d` ask for
/// a `u32` or an `i32` after the same prefix, and `%s` accepts the rest of
/// the name. The template must not reach an unknown conversion.
pub fn name_fits_name_template(template: &str, name: &str) -> (r: bool)
    requires
        name_fits_template(template.spec_bytes(), name.spec_bytes()) is Some,
    ensures
        r == name_fits_template(template.spec_bytes(), name.spec_bytes())->0,
{
    let tparts = split_bytes(template.as_bytes(), NAME_SEPARATOR);
    let parts = split_bytes(name.as_bytes(), NAME_SEPARATOR);
    let ghost tf = byte_fields(template.spec_bytes(), NAME_SEPARATOR);
    let ghost nf = byte_fields(name.spec_bytes(), NAME_SEPARATOR);
    let mut i: usize = 0;
    proof {
        assert(tf.skip(0) =~= tf);
        assert(nf.skip(0) =~= nf);
    }
    while i < tparts.len()
        invariant
            i <= tparts@.len(),
            i <= parts@.len(),
            tf == byte_fields(template.spec_bytes(), NAME_SEPARATOR),
            nf == byte_fields(name.spec_bytes(), NAME_SEPARATOR),
            tparts@.len() == tf.len(),
            parts@.len() == nf.len(),
            forall|j: int| 0 <= j < tparts@.len() ==> (#[trigger] tparts@[j])@ == tf[j],
            forall|j: int| 0 <= j < parts@.len() ==> (#[trigger] parts@[j])@ == nf[j],
            check_parts(tf, nf) == check_parts(tf.skip(i as int), nf.skip(i as int)),
            check_parts(tf, nf) is Some,
        decreases tparts@.len() - i,
    {
        proof {
            assert(tf.skip(i as int).drop_first() =~= tf.skip(i as int + 1));
            assert(tparts@[i as int]@ == tf.skip(i as int)[0]);
        }
        if i >= parts.len() {
            proof {
                assert(nf.skip(i as int).len() == 0);
                assert(check_parts(tf.skip(i as int), nf.skip(i as int)) == Some(false));
                assert(check_parts(tf, nf) == Some(false));
            }
            return false;
        }
        proof {
            assert(nf.skip(i as int).drop_first() =~= nf.skip(i as int + 1));
            assert(parts@[i as int]@ == nf.skip(i as int)[0]);
        }
        let c = check_name_part(&tparts[i], &parts[i]);
        proof {
            assert(tf.skip(i as int).len() > 0);
            assert(nf.skip(i as int).len() > 0);
            assert(c == check_part(tf.skip(i as int)[0], nf.skip(i as int)[0]));
        }
        match c {
            PartCheck::Continue => {},
            PartCheck::Accept => {
                assert(check_parts(tf.skip(i as int), nf.skip(i as int)) == Some(true));
                assert(check_parts(tf, nf) == Some(true));
                return true;
            },
            PartCheck::Reject => {
                assert(check_parts(tf.skip(i as int), nf.skip(i as int)) == Some(false));
                assert(check_parts(tf, nf) == Some(false));
                return false;
            },
            PartCheck::Invalid => {
                return false;
            },
        }
        i = i + 1;
    }
    true
}

/// Returns whether a ghost pad takes the name of its target pad: always
/// when the ghost pad's template (if any) is not a request template, and
/// otherwise when the target name fits the request template's name template.
pub fn takes_target_name(request_name_template: Option<&str>, target_name: &str) -> (r: bool)
    requires
        request_name_template matches Some(t) ==> name_fits_template(
            t.spec_bytes(),
            target_name.spec_bytes(),
        ) is Some,
    ensures
        r == (match request_name_template {
            Some(t) => name_fits_template(t.spec_bytes(), target_name.spec_bytes())->0,
            None => true,
        }),
{
    match request_name_template {
        Some(t) => name_fits_name_template(t, target_name),
        None => true,
    }
}


/// The first index of a byte holds that byte.
proof fn lemma_first_index_some(s: Seq<u8>, b: u8)
    ensures
        first_index(s, b) matches Some(k) ==> 0 <= k < s.len() && s[k] == b,
    decreases s.len(),
{
    if s.len() > 0 && s[0] != b {
        lemma_first_index_some(s.drop_first(), b);
    }
}

/// When the name parts fit the template parts, and no template part up to
/// the `i`th holds a `%s` conversion, the `i`th name part fits the `i`th
/// template part and the check goes on.
pub proof fn lemma_check_parts_continue(tparts: Seq<Seq<u8>>, parts: Seq<Seq<u8>>, i: int)
    requires
        check_parts(tparts, parts) == Some(true),
        0 <= i < tparts.len(),
        forall|j: int, k: int|
            0 <= j <= i && 0 <= k < tparts[j].len() && #[trigger] tparts[j][k] == CONVERSION_START
                ==> k + 1 < tparts[j].len() && tparts[j][k + 1] != 0x73,
    ensures
        i < parts.len(),
        check_part(tparts[i], parts[i]) == PartCheck::Continue,
    decreases i,
{
    lemma_first_index_some(tparts[0], CONVERSION_START);
    let k0 = first_index(tparts[0], CONVERSION_START);
    if k0 is Some {
        let k = k0->0;
        assert(tparts[0][k] == CONVERSION_START);
    }
    assert(check_part(tparts[0], parts[0]) == PartCheck::Continue);
    if i > 0 {
        let tr = tparts.drop_first();
        let pr = parts.drop_first();
        assert forall|j: int, k: int|
            0 <= j <= i - 1 && 0 <= k < tr[j].len() && #[trigger] tr[j][k] == CONVERSION_START
                implies k + 1 < tr[j].len() && tr[j][k + 1] != 0x73 by {
            assert(tr[j] == tparts[j + 1]);
            assert(tparts[j + 1][k] == CONVERSION_START);
        }
        lemma_check_parts_continue(tr, pr, i - 1);
        assert(tr[i - 1] == tparts[i]);
        assert(pr[i - 1] == parts[i]);
    }
}

/// No template part up to the `i`th holds a `%s` conversion.
pub open spec fn no_rest_conversion_up_to(tparts: Seq<Seq<u8>>, i: int) -> bool {
    forall|j: int, k: int|
        0 <= j <= i && 0 <= k < tparts[j].len() && #[trigger] tparts[j][k] == CONVERSION_START
            ==> k + 1 < tparts[j].len() && tparts[j][k + 1] != 0x73
}

/// A name that fits a template holds, unchanged, each part of the template
/// that has no `%`, as long as no earlier part of the template holds a
/// `%s` conversion (which takes the rest of the name).
pub proof fn lemma_name_fits_literal_parts(template: Seq<u8>, name: Seq<u8>, i: int)
    requires
        name_fits_template(template, name) == Some(true),
        0 <= i < byte_fields(template, NAME_SEPARATOR).len(),
        no_rest_conversion_up_to(byte_fields(template, NAME_SEPARATOR), i),
        forall|k: int|
            0 <= k < byte_fields(template, NAME_SEPARATOR)[i].len() ==> byte_fields(
                template,
                NAME_SEPARATOR,
            )[i][k] != CONVERSION_START,
    ensures
        i < byte_fields(name, NAME_SEPARATOR).len(),
        byte_fields(name, NAME_SEPARATOR)[i] == byte_fields(template, NAME_SEPARATOR)[i],
{
    let tf = byte_fields(template, NAME_SEPARATOR);
    let nf = byte_fields(name, NAME_SEPARATOR);
    lemma_check_parts_continue(tf, nf, i);
    lemma_first_index_none(tf[i], CONVERSION_START);
}

/// A name that fits a template, at a template part with a `%u` or `%d`
/// conversion (and no `%s` up to it), holds the same text before the
/// conversion followed by a non-empty decimal number, with an optional
/// sign (`+` for `%u`, `+` or `-` for `%d`).
pub proof fn lemma_name_fits_number_parts(template: Seq<u8>, name: Seq<u8>, i: int, k: int)
    requires
        name_fits_template(template, name) == Some(true),
        0 <= i < byte_fields(template, NAME_SEPARATOR).len(),
        no_rest_conversion_up_to(byte_fields(template, NAME_SEPARATOR), i),
        0 <= k < byte_fields(template, NAME_SEPARATOR)[i].len(),
        byte_fields(template, NAME_SEPARATOR)[i][k] == CONVERSION_START,
        forall|j: int|
            0 <= j < k ==> byte_fields(template, NAME_SEPARATOR)[i][j] != CONVERSION_START,
    ensures
        ({
            let tp = byte_fields(template, NAME_SEPARATOR)[i];
            let part = byte_fields(name, NAME_SEPARATOR)[i];
            let rest = part.skip(k);
            let digits = if rest.len() > 0 && (rest[0] == 0x2b || (tp[k + 1] == 0x64 && rest[0]
                == 0x2d)) {
                rest.drop_first()
            } else {
                rest
            };
            &&& i < byte_fields(name, NAME_SEPARATOR).len()
            &&& k < part.len()
            &&& part.take(k) == tp.take(k)
            &&& (tp[k + 1] == 0x75 || tp[k + 1] == 0x64)
            &&& digits.len() > 0
            &&& forall|p: int| 0 <= p < digits.len() ==> 0x30 <= #[trigger] digits[p] <= 0x39
        }),
{
    let tf = byte_fields(template, NAME_SEPARATOR);
    let nf = byte_fields(name, NAME_SEPARATOR);
    lemma_check_parts_continue(tf, nf, i);
    lemma_first_index_at(tf[i], CONVERSION_START, k);
    let tp = tf[i];
    let part = nf[i];
    if k > 0 {
        assert(part.take(k) == tp.take(k));
    } else {
        assert(part.take(0) =~= tp.take(0));
    }
}

} // verus!
