//! Text: white space and trimming, decimal numerals, decoding of bytes.

use vstd::prelude::*;
use vstd::string::*;
use vstd::utf8::*;

verus! {

/// The characters with the Unicode property `White_Space`.
pub open spec fn white_space(c: char) -> bool {
    let n = c as u32;
    ||| 0x9 <= n <= 0xd
    ||| n == 0x20
    ||| n == 0x85
    ||| n == 0xa0
    ||| n == 0x1680
    ||| 0x2000 <= n <= 0x200a
    ||| n == 0x2028
    ||| n == 0x2029
    ||| n == 0x202f
    ||| n == 0x205f
    ||| n == 0x3000
}

/// Nothing but white space.
pub open spec fn blank(s: Seq<char>) -> bool {
    forall|i: int| 0 <= i < s.len() ==> white_space(#[trigger] s[i])
}

/// `s` without its leading white space.
pub open spec fn trimmed_start(s: Seq<char>) -> Seq<char>
    decreases s.len(),
{
    if s.len() > 0 && white_space(s[0]) {
        trimmed_start(s.drop_first())
    } else {
        s
    }
}

/// `s` without its trailing white space.
pub open spec fn trimmed_end(s: Seq<char>) -> Seq<char>
    decreases s.len(),
{
    if s.len() > 0 && white_space(s.last()) {
        trimmed_end(s.drop_last())
    } else {
        s
    }
}

/// `s` without white space at either end.
pub open spec fn trimmed(s: Seq<char>) -> Seq<char> {
    trimmed_end(trimmed_start(s))
}

/// [`str::trim`] hands back the text without the white space at its two ends.
pub assume_specification<'a>[ str::trim ](s: &'a str) -> (r: &'a str)
    ensures
        r@ == trimmed(s@),
;

/// What [`String::from_utf8_lossy`] makes of a sequence of bytes.
pub uninterp spec fn lossy_text(bytes: Seq<u8>) -> Seq<char>;

/// [`String::from_utf8_lossy`]: the text depends on the bytes alone, and bytes that
/// are valid UTF-8 are decoded as they stand. How many replacement characters stand for
/// a sequence that is not valid is left open.
#[verifier::external_body]
pub(crate) fn decode_lossy(bytes: &[u8]) -> (r: String)
    ensures
        r@ == lossy_text(bytes@),
        valid_utf8(bytes@) ==> r@ == decode_utf8(bytes@),
{
    String::from_utf8_lossy(bytes).into_owned()
}

/// The decimal digit of a number below ten.
pub open spec fn digit(d: nat) -> char {
    (0x30 + d) as char
}

/// The decimal numeral of `n`, without leading zeros.
pub open spec fn decimal(n: nat) -> Seq<char>
    decreases n,
{
    if n < 10 {
        seq![digit(n)]
    } else {
        decimal(n / 10).push(digit(n % 10))
    }
}

/// One digit as text.
fn digit_text(d: u32) -> (r: &'static str)
    requires
        d < 10,
    ensures
        r@ == seq![digit(d as nat)],
{
    proof {
        reveal_strlit("0");
        reveal_strlit("1");
        reveal_strlit("2");
        reveal_strlit("3");
        reveal_strlit("4");
        reveal_strlit("5");
        reveal_strlit("6");
        reveal_strlit("7");
        reveal_strlit("8");
        reveal_strlit("9");
    }
    if d == 0 {
        "0"
    } else if d == 1 {
        "1"
    } else if d == 2 {
        "2"
    } else if d == 3 {
        "3"
    } else if d == 4 {
        "4"
    } else if d == 5 {
        "5"
    } else if d == 6 {
        "6"
    } else if d == 7 {
        "7"
    } else if d == 8 {
        "8"
    } else {
        "9"
    }
}

/// A number in decimal.
pub fn decimal_text(n: u32) -> (r: String)
    ensures
        r@ == decimal(n as nat),
    decreases n,
{
    let mut text = if n < 10 {
        String::new()
    } else {
        decimal_text(n / 10)
    };
    text.append(digit_text(n % 10));
    text
}

/// The number that a decimal numeral denotes.
pub open spec fn numeral_value(numeral: Seq<char>) -> int
    decreases numeral.len(),
{
    if numeral.len() == 0 {
        0
    } else {
        10 * numeral_value(numeral.drop_last()) + (numeral.last() as int - 0x30)
    }
}

/// The numeral of a number denotes it, and is made of digits without a leading zero.
pub proof fn decimal_denotes_its_number(n: nat)
    ensures
        numeral_value(decimal(n)) == n,
        decimal(n).len() > 0,
        n > 0 ==> decimal(n)[0] != '0',
        forall|i: int| 0 <= i < decimal(n).len() ==> '0' <= #[trigger] decimal(n)[i] <= '9',
    decreases n,
{
    if n < 10 {
        assert(decimal(n).drop_last() =~= Seq::<char>::empty());
        assert(numeral_value(Seq::<char>::empty()) == 0);
    } else {
        decimal_denotes_its_number(n / 10);
        assert(decimal(n).drop_last() =~= decimal(n / 10));
    }
}

/// The texts that a list of strings holds.
pub open spec fn texts(list: Seq<String>) -> Seq<Seq<char>> {
    list.map_values(|s: String| s@)
}

/// The text that an optional string holds.
pub open spec fn text_option(value: Option<String>) -> Option<Seq<char>> {
    match value {
        Some(s) => Some(s@),
        None => None,
    }
}

/// The rest of `text` behind `prefix`, where it begins with that.
pub(crate) fn strip_prefix<'a>(text: &'a str, prefix: &str) -> (r: Option<&'a str>)
    ensures
        r is Some <==> prefix@.is_prefix_of(text@),
        r matches Some(rest) ==> rest@ == text@.skip(prefix@.len() as int),
{
    let n = text.unicode_len();
    let m = prefix.unicode_len();
    if n < m {
        return None;
    }
    let head = text.substring_char(0, m);
    if head.to_owned() == prefix.to_owned() {
        Some(text.substring_char(m, n))
    } else {
        None
    }
}

/// What `trimmed_start` takes away is white space, and what it leaves does not begin
/// with white space.
proof fn lemma_trimmed_start(s: Seq<char>)
    ensures
        trimmed_start(s).len() <= s.len(),
        trimmed_start(s) == s.skip(s.len() - trimmed_start(s).len()),
        blank(s.take(s.len() - trimmed_start(s).len())),
        trimmed_start(s).len() > 0 ==> !white_space(trimmed_start(s)[0]),
    decreases s.len(),
{
    if s.len() > 0 && white_space(s[0]) {
        let t = s.drop_first();
        lemma_trimmed_start(t);
        let k = t.len() - trimmed_start(t).len();
        assert(t.skip(k) =~= s.skip(k + 1));
        assert forall|i: int| 0 <= i < k + 1 implies white_space(#[trigger] s.take(k + 1)[i]) by {
            if i > 0 {
                assert(t.take(k)[i - 1] == s[i]);
            }
        }
    } else {
        assert(s.skip(0) =~= s);
    }
}

/// What `trimmed_end` takes away is white space, and what it leaves does not end with
/// white space.
proof fn lemma_trimmed_end(s: Seq<char>)
    ensures
        trimmed_end(s).len() <= s.len(),
        trimmed_end(s) == s.take(trimmed_end(s).len() as int),
        blank(s.skip(trimmed_end(s).len() as int)),
        trimmed_end(s).len() > 0 ==> !white_space(trimmed_end(s).last()),
    decreases s.len(),
{
    if s.len() > 0 && white_space(s.last()) {
        let t = s.drop_last();
        lemma_trimmed_end(t);
        let k = trimmed_end(t).len() as int;
        assert(t.take(k) =~= s.take(k));
        assert forall|i: int| 0 <= i < s.len() - k implies white_space(#[trigger] s.skip(k)[i]) by {
            if i < s.len() - k - 1 {
                assert(t.skip(k)[i] == s[k + i]);
            }
        }
    } else {
        assert(s.take(s.len() as int) =~= s);
    }
}

/// Trimming takes white space from the two ends, and all of it: what is left is a part of
/// the text with only white space before and behind it, it neither begins nor ends with
/// white space, and it is empty exactly where the text was blank.
pub proof fn trimming_removes_outer_white_space(s: Seq<char>)
    ensures
        exists|i: int, j: int|
            0 <= i <= j <= s.len() && trimmed(s) == #[trigger] s.subrange(i, j) && blank(s.take(i))
                && blank(s.skip(j)),
        trimmed(s).len() > 0 ==> !white_space(trimmed(s)[0]) && !white_space(trimmed(s).last()),
        trimmed(s).len() == 0 <==> blank(s),
{
    let t = trimmed_start(s);
    let r = trimmed_end(t);
    lemma_trimmed_start(s);
    lemma_trimmed_end(t);
    let i = s.len() - t.len();
    let j = i + r.len();
    assert(r =~= s.subrange(i, j));
    assert(t.skip(r.len() as int) =~= s.skip(j));
    if r.len() == 0 {
        assert forall|k: int| 0 <= k < s.len() implies white_space(#[trigger] s[k]) by {
            if k < i {
                assert(s.take(i)[k] == s[k]);
            } else {
                assert(s.skip(j)[k - j] == s[k]);
            }
        }
    } else {
        assert(r[0] == s[i]);
    }
}

/// Leading white space makes no difference to `trimmed_start`.
proof fn lemma_trimmed_start_ignores(w: Seq<char>, s: Seq<char>)
    requires
        blank(w),
    ensures
        trimmed_start(w + s) == trimmed_start(s),
    decreases w.len(),
{
    if w.len() == 0 {
        assert(w + s =~= s);
    } else {
        let rest = w.drop_first();
        assert((w + s)[0] == w[0]);
        assert((w + s).drop_first() =~= rest + s);
        assert forall|i: int| 0 <= i < rest.len() implies white_space(#[trigger] rest[i]) by {
            assert(rest[i] == w[i + 1]);
        }
        lemma_trimmed_start_ignores(rest, s);
    }
}

/// Trailing white space makes no difference to `trimmed_end`.
proof fn lemma_trimmed_end_ignores(s: Seq<char>, w: Seq<char>)
    requires
        blank(w),
    ensures
        trimmed_end(s + w) == trimmed_end(s),
    decreases w.len(),
{
    if w.len() == 0 {
        assert(s + w =~= s);
    } else {
        let rest = w.drop_last();
        assert((s + w).last() == w[w.len() - 1]);
        assert((s + w).drop_last() =~= s + rest);
        lemma_trimmed_end_ignores(s, rest);
    }
}

/// What follows a text that is not blank stays behind it where its leading white space goes.
proof fn lemma_trimmed_start_keeps_the_rest(s: Seq<char>, w: Seq<char>)
    requires
        !blank(s),
    ensures
        trimmed_start(s + w) == trimmed_start(s) + w,
    decreases s.len(),
{
    let k = choose|k: int| 0 <= k < s.len() && !white_space(#[trigger] s[k]);
    assert((s + w)[0] == s[0]);
    if white_space(s[0]) {
        let rest = s.drop_first();
        assert(rest[k - 1] == s[k]);
        assert((s + w).drop_first() =~= rest + w);
        lemma_trimmed_start_keeps_the_rest(rest, w);
    }
}

/// White space put around a text makes no difference to what trimming leaves of it.
pub proof fn trimming_ignores_white_space_around(
    before: Seq<char>,
    s: Seq<char>,
    behind: Seq<char>,
)
    requires
        blank(before),
        blank(behind),
    ensures
        trimmed(before + s + behind) == trimmed(s),
{
    assert(before + s + behind =~= before + (s + behind));
    lemma_trimmed_start_ignores(before, s + behind);
    if blank(s) {
        assert(blank(s + behind)) by {
            assert forall|i: int| 0 <= i < (s + behind).len() implies white_space(
                #[trigger] (s + behind)[i],
            ) by {
                if i < s.len() {
                    assert((s + behind)[i] == s[i]);
                } else {
                    assert((s + behind)[i] == behind[i - s.len()]);
                }
            }
        }
        trimming_removes_outer_white_space(s + behind);
        trimming_removes_outer_white_space(s);
        assert(trimmed(s + behind) =~= trimmed(s));
    } else {
        lemma_trimmed_start_keeps_the_rest(s, behind);
        lemma_trimmed_end_ignores(trimmed_start(s), behind);
    }
}

/// Trimming a second time changes nothing.
pub proof fn trimming_is_idempotent(s: Seq<char>)
    ensures
        trimmed(trimmed(s)) == trimmed(s),
{
    trimming_removes_outer_white_space(s);
}

} // verus!
