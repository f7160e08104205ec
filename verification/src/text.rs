//! Byte-level text handling shared by the lockfile record and the runtime
//! directory names: decimal numbers and ASCII whitespace.
use vstd::prelude::*;
use vstd::string::StringSliceAdditionalSpecFns;
use vstd::utf8::valid_utf8;

verus! {

/// An ASCII decimal digit, `b'0'..=b'9'`.
pub open spec fn is_digit(b: u8) -> bool {
    48 <= b <= 57
}

/// Every byte is an ASCII decimal digit.
pub open spec fn all_digits(s: Seq<u8>) -> bool {
    forall|i: int| 0 <= i < s.len() ==> #[trigger] is_digit(s[i])
}

/// The number that a string of decimal digits denotes (leading zeros allowed).
pub open spec fn digits_value(s: Seq<u8>) -> nat
    decreases s.len(),
{
    if s.len() == 0 {
        0
    } else {
        digits_value(s.drop_last()) * 10 + (s.last() - 48) as nat
    }
}

/// The shortest decimal writing of a number, as `to_string` produces it.
pub open spec fn decimal_text(n: nat) -> Seq<u8>
    decreases n,
{
    if n < 10 {
        seq![(n + 48) as u8]
    } else {
        decimal_text(n / 10).push((n % 10 + 48) as u8)
    }
}

/// The whitespace of `u8::is_ascii_whitespace`: space, tab, line feed, form
/// feed and carriage return.
pub open spec fn is_ascii_whitespace(b: u8) -> bool {
    b == 32 || b == 9 || b == 10 || b == 12 || b == 13
}

/// `s` without its leading ASCII whitespace.
pub open spec fn trim_start(s: Seq<u8>) -> Seq<u8>
    decreases s.len(),
{
    if s.len() > 0 && is_ascii_whitespace(s[0]) {
        trim_start(s.drop_first())
    } else {
        s
    }
}

/// `s` without its trailing ASCII whitespace.
pub open spec fn trim_end(s: Seq<u8>) -> Seq<u8>
    decreases s.len(),
{
    if s.len() > 0 && is_ascii_whitespace(s.last()) {
        trim_end(s.drop_last())
    } else {
        s
    }
}

/// `s` without leading and trailing ASCII whitespace (`<[u8]>::trim_ascii`).
pub open spec fn trim_ascii(s: Seq<u8>) -> Seq<u8> {
    trim_end(trim_start(s))
}

/// The decimal writing of a number is made of digits, is never empty, and
/// reads back as that number.
pub proof fn lemma_decimal_text_round_trip(n: nat)
    ensures
        all_digits(decimal_text(n)),
        decimal_text(n).len() >= 1,
        digits_value(decimal_text(n)) == n,
    decreases n,
{
    if n >= 10 {
        lemma_decimal_text_round_trip(n / 10);
        let t = decimal_text(n);
        assert(t.drop_last() =~= decimal_text(n / 10));
        assert(t.last() == (n % 10 + 48) as u8);
        assert((n / 10) * 10 + n % 10 == n);
        assert(digits_value(t) == digits_value(t.drop_last()) * 10 + (t.last() - 48) as nat);
        assert(digits_value(t) == n);
        assert forall|i: int| 0 <= i < t.len() implies #[trigger] is_digit(t[i]) by {
            if i < t.len() - 1 {
                assert(t[i] == decimal_text(n / 10)[i]);
            }
        }
    } else {
        let t = decimal_text(n);
        assert(t.drop_last() =~= Seq::<u8>::empty());
        assert(digits_value(t.drop_last()) == 0);
        assert(digits_value(t) == n);
    }
}

/// A prefix of a digit string never denotes more than the whole string.
pub proof fn lemma_prefix_value_le(s: Seq<u8>, i: int)
    requires
        0 <= i <= s.len(),
        all_digits(s),
    ensures
        digits_value(s.subrange(0, i)) <= digits_value(s),
    decreases s.len(),
{
    if i == s.len() {
        assert(s.subrange(0, i) =~= s);
    } else {
        let d = s.drop_last();
        assert forall|k: int| 0 <= k < d.len() implies #[trigger] is_digit(d[k]) by {
            assert(d[k] == s[k]);
        }
        lemma_prefix_value_le(d, i);
        assert(d.subrange(0, i) =~= s.subrange(0, i));
    }
}

fn push_decimal(out: &mut Vec<u8>, n: u32)
    ensures
        final(out)@ == old(out)@ + decimal_text(n as nat),
    decreases n,
{
    if n >= 10 {
        push_decimal(out, n / 10);
    }
    out.push((n % 10 + 48) as u8);
    proof {
        if n >= 10 {
            assert(decimal_text(n as nat) == decimal_text((n / 10) as nat).push((n % 10 + 48) as u8));
        }
    }
    assert(final(out)@ =~= old(out)@ + decimal_text(n as nat));
}

/// The decimal writing of `n`, as `n.to_string()` spells it.
pub fn encode_decimal(n: u32) -> (text: Vec<u8>)
    ensures
        text@ == decimal_text(n as nat),
{
    let mut out: Vec<u8> = Vec::new();
    push_decimal(&mut out, n);
    assert(out@ =~= decimal_text(n as nat));
    out
}

/// Whether every byte of `s` is an ASCII decimal digit (true of the empty
/// string).
pub fn is_all_digits(s: &[u8]) -> (r: bool)
    ensures
        r == all_digits(s@),
{
    let mut i: usize = 0;
    while i < s.len()
        invariant
            i <= s.len(),
            forall|k: int| 0 <= k < i ==> #[trigger] is_digit(s@[k]),
        decreases s.len() - i,
    {
        if !(48 <= s[i] && s[i] <= 57) {
            assert(!is_digit(s@[i as int]));
            return false;
        }
        i = i + 1;
    }
    true
}

/// The `u32` that a string of digits denotes, or `None` where the number is
/// beyond `u32::MAX`.
pub fn digits_to_u32(s: &[u8]) -> (r: Option<u32>)
    requires
        all_digits(s@),
    ensures
        r == (if digits_value(s@) <= u32::MAX { Some(digits_value(s@) as u32) } else { None::<u32> }),
{
    let mut acc: u64 = 0;
    let mut i: usize = 0;
    assert(s@.subrange(0, 0) =~= Seq::<u8>::empty());
    while i < s.len()
        invariant
            i <= s.len(),
            all_digits(s@),
            acc == digits_value(s@.subrange(0, i as int)),
            acc <= u32::MAX,
        decreases s.len() - i,
    {
        let d = s[i];
        assert(is_digit(s@[i as int]));
        let next = acc * 10 + (d - 48) as u64;
        assert(s@.subrange(0, i + 1).drop_last() =~= s@.subrange(0, i as int));
        assert(next == digits_value(s@.subrange(0, i + 1)));
        if next > 4294967295 {
            proof {
                lemma_prefix_value_le(s@, i + 1);
            }
            return None;
        }
        acc = next;
        i = i + 1;
    }
    assert(s@.subrange(0, s.len() as int) =~= s@);
    Some(acc as u32)
}

/// `s` with leading and trailing ASCII whitespace removed.
pub fn trim_ascii_whitespace(s: &[u8]) -> (r: &[u8])
    ensures
        r@ == trim_ascii(s@),
{
    let len = s.len();
    let mut i: usize = 0;
    assert(s@.subrange(0, len as int) =~= s@);
    while i < len && (s[i] == 32 || s[i] == 9 || s[i] == 10 || s[i] == 12 || s[i] == 13)
        invariant
            i <= len,
            len == s@.len(),
            trim_start(s@) == trim_start(s@.subrange(i as int, len as int)),
        decreases len - i,
    {
        assert(s@.subrange(i as int, len as int).drop_first() =~= s@.subrange(i + 1, len as int));
        i = i + 1;
    }
    assert(trim_start(s@) == s@.subrange(i as int, len as int));
    let mut j: usize = len;
    while j > i && (s[j - 1] == 32 || s[j - 1] == 9 || s[j - 1] == 10 || s[j - 1] == 12 || s[j - 1]
        == 13)
        invariant
            i <= j <= len,
            len == s@.len(),
            trim_ascii(s@) == trim_end(s@.subrange(i as int, j as int)),
        decreases j - i,
    {
        assert(s@.subrange(i as int, j as int).drop_last() =~= s@.subrange(i as int, j - 1));
        j = j - 1;
    }
    &s[i..j]
}

/// Appends the bytes of `s` to `out`.
pub fn append_bytes(out: &mut Vec<u8>, s: &[u8])
    ensures
        final(out)@ == old(out)@ + s@,
{
    let mut i: usize = 0;
    while i < s.len()
        invariant
            i <= s.len(),
            out@ == old(out)@ + s@.subrange(0, i as int),
        decreases s.len() - i,
    {
        out.push(s[i]);
        assert(s@.subrange(0, i + 1) =~= s@.subrange(0, i as int).push(s@[i as int]));
        i = i + 1;
    }
    assert(s@.subrange(0, s.len() as int) =~= s@);
}

/// `": "`, as bytes.
pub open spec fn colon_space() -> Seq<u8> {
    seq![58u8, 32u8]
}

/// The shape of every error message of this crate: a head such as
/// `"already locked: "`, the subject, `": "`, and the detail.
pub open spec fn spec_message(head: Seq<u8>, subject: Seq<u8>, detail: Seq<u8>) -> Seq<u8> {
    head + subject + colon_space() + detail
}

/// Builds a message of the shape [`spec_message`].
pub fn compose_message(head: &str, subject: &[u8], detail: &[u8]) -> (msg: Vec<u8>)
    ensures
        msg@ == spec_message(head.spec_bytes(), subject@, detail@),
{
    let mut out: Vec<u8> = Vec::new();
    append_bytes(&mut out, head.as_bytes());
    append_bytes(&mut out, subject);
    out.push(58u8);
    out.push(32u8);
    append_bytes(&mut out, detail);
    assert(out@ =~= spec_message(head.spec_bytes(), subject@, detail@));
    out
}

/// Whether two byte strings are equal.
pub fn bytes_equal(a: &[u8], b: &[u8]) -> (r: bool)
    ensures
        r == (a@ == b@),
{
    if a.len() != b.len() {
        return false;
    }
    let mut i: usize = 0;
    while i < a.len()
        invariant
            i <= a.len(),
            a.len() == b.len(),
            forall|k: int| 0 <= k < i ==> a@[k] == b@[k],
        decreases a.len() - i,
    {
        if a[i] != b[i] {
            return false;
        }
        i = i + 1;
    }
    assert(a@ =~= b@);
    true
}

/// The text that `String::from_utf8_lossy` makes of these bytes (as
/// `Path::display` shows a path on Unix): each invalid UTF-8 sequence
/// replaced by U+FFFD.
pub uninterp spec fn utf8_lossy(bytes: Seq<u8>) -> Seq<u8>;

/// Calls `String::from_utf8_lossy` and hands back the bytes of the text.
/// The result is named [`utf8_lossy`] of the bytes; as the function's
/// documentation says, valid UTF-8 comes back unchanged.
#[verifier::external_body]
pub(crate) fn lossy_utf8(bytes: &[u8]) -> (text: Vec<u8>)
    ensures
        text@ == utf8_lossy(bytes@),
        valid_utf8(bytes@) ==> text@ == bytes@,
{
    String::from_utf8_lossy(bytes).into_owned().into_bytes()
}

/// The bytes start with the WTF-8 encoding of a lone surrogate code point
/// (U+D800 to U+DFFF): `0xED`, `0xA0..=0xBF`, `0x80..=0xBF`.
pub open spec fn starts_with_surrogate(s: Seq<u8>) -> bool {
    s.len() >= 3 && s[0] == 237 && 160 <= s[1] <= 191 && 128 <= s[2] <= 191
}

/// U+FFFD, the replacement character, in UTF-8.
pub open spec fn replacement_char() -> Seq<u8> {
    seq![239u8, 191u8, 189u8]
}

/// The bytes with each encoded lone surrogate replaced by U+FFFD.
pub open spec fn replace_surrogates(s: Seq<u8>) -> Seq<u8>
    decreases s.len(),
{
    if s.len() == 0 {
        s
    } else if starts_with_surrogate(s) {
        replacement_char() + replace_surrogates(s.subrange(3, s.len() as int))
    } else {
        seq![s[0]] + replace_surrogates(s.drop_first())
    }
}

/// The text that `OsStr::to_string_lossy` makes of a Windows string, given
/// its encoded (WTF-8) bytes: each lone surrogate replaced by U+FFFD, and
/// any invalid UTF-8 left replaced as [`utf8_lossy`] does.
pub open spec fn os_text_lossy(s: Seq<u8>) -> Seq<u8> {
    utf8_lossy(replace_surrogates(s))
}

/// Replaces each encoded lone surrogate by U+FFFD.
pub fn replace_lone_surrogates(s: &[u8]) -> (r: Vec<u8>)
    ensures
        r@ == replace_surrogates(s@),
{
    let len = s.len();
    let mut out: Vec<u8> = Vec::new();
    let mut i: usize = 0;
    assert(s@.subrange(0, len as int) =~= s@);
    while i < len
        invariant
            i <= len,
            len == s@.len(),
            replace_surrogates(s@) == out@ + replace_surrogates(s@.subrange(i as int, len as int)),
        decreases len - i,
    {
        let ghost rest = s@.subrange(i as int, len as int);
        if len - i >= 3 && s[i] == 237 && 160 <= s[i + 1] && s[i + 1] <= 191 && 128 <= s[i + 2]
            && s[i + 2] <= 191 {
            assert(starts_with_surrogate(rest));
            assert(rest.subrange(3, rest.len() as int) =~= s@.subrange(i + 3, len as int));
            out.push(239u8);
            out.push(191u8);
            out.push(189u8);
            i = i + 3;
            assert(replace_surrogates(s@) == out@ + replace_surrogates(s@.subrange(i as int, len as int))) by {
                assert(replace_surrogates(rest) == replacement_char() + replace_surrogates(s@.subrange(i as int, len as int)));
            }
        } else {
            assert(!starts_with_surrogate(rest));
            assert(rest.drop_first() =~= s@.subrange(i + 1, len as int));
            assert(rest[0] == s@[i as int]);
            out.push(s[i]);
            i = i + 1;
            assert(replace_surrogates(s@) == out@ + replace_surrogates(s@.subrange(i as int, len as int))) by {
                assert(replace_surrogates(rest) == seq![rest[0]] + replace_surrogates(s@.subrange(i as int, len as int)));
            }
        }
    }
    assert(s@.subrange(len as int, len as int) =~= Seq::<u8>::empty());
    assert(out@ =~= replace_surrogates(s@));
    out
}

/// The text that a Windows string with these encoded bytes is shown as.
pub fn os_text(s: &[u8]) -> (text: Vec<u8>)
    ensures
        text@ == os_text_lossy(s@),
{
    let replaced = replace_lone_surrogates(s);
    lossy_utf8(replaced.as_slice())
}

} // verus!
