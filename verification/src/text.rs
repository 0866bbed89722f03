use vstd::prelude::*;

use vstd::string::{StrSliceExecFns, StringExecFns};

verus! {

/// Relies on String::push: appends exactly the given character.
#[verifier::external_body]
pub fn push_char(s: &mut String, c: char)
    ensures
        final(s)@ == old(s)@.push(c),
{
    s.push(c);
}

/// A decimal digit.
pub open spec fn is_digit(c: char) -> bool {
    ('0' as u32) <= (c as u32) && (c as u32) <= ('9' as u32)
}

/// Every character is a decimal digit.
pub open spec fn all_digits(s: Seq<char>) -> bool {
    forall|i: int| 0 <= i < s.len() ==> is_digit(#[trigger] s[i])
}

/// The number a digit string denotes.
pub open spec fn dec_val(s: Seq<char>) -> nat
    decreases s.len(),
{
    if s.len() == 0 {
        0
    } else {
        dec_val(s.drop_last()) * 10 + ((s.last() as u32) - ('0' as u32)) as nat
    }
}

/// A longer digit string never denotes less.
proof fn lemma_dec_val_prefix_le(s: Seq<char>, i: int)
    requires
        0 <= i <= s.len(),
        all_digits(s),
    ensures
        dec_val(s.take(i)) <= dec_val(s),
    decreases s.len() - i,
{
    if i < s.len() {
        lemma_dec_val_prefix_le(s, i + 1);
        assert(s.take(i + 1).drop_last() =~= s.take(i));
        assert(s.take(i + 1).last() == s[i]);
        assert(dec_val(s.take(i)) <= dec_val(s.take(i + 1)));
    } else {
        assert(s.take(i) =~= s);
    }
}

/// The digit string with an optional leading plus sign stripped, as the
/// standard integer parser sees it.
pub open spec fn strip_plus(s: Seq<char>) -> Seq<char> {
    if s.len() > 0 && s[0] == '+' {
        s.drop_first()
    } else {
        s
    }
}

/// Whether the standard parser accepts the string as an integer up to `max`:
/// after an optional plus sign, at least one digit, all digits, value in
/// range.
pub open spec fn parses_to_u32(s: Seq<char>, max: nat) -> bool {
    let t = strip_plus(s);
    t.len() > 0 && all_digits(t) && dec_val(t) <= max
}

/// Parses a decimal integer with a bound, exactly as the standard unsigned
/// parsers do: an optional plus sign, then digits; anything else, an empty
/// digit string, or a value above `max` is rejected.
pub fn parse_u32_bounded(s: &str, max: u32) -> (r: Option<u32>)
    ensures
        match r {
            Some(v) => parses_to_u32(s@, max as nat) && v == dec_val(strip_plus(s@)),
            None => !parses_to_u32(s@, max as nat),
        },
{
    let n = s.unicode_len();
    let start: usize = if n > 0 && s.get_char(0) == '+' {
        1
    } else {
        0
    };
    proof {
        assert(strip_plus(s@) =~= s@.skip(start as int));
    }
    if n == start {
        return None;
    }
    let ghost t = s@.skip(start as int);
    let mut acc: u32 = 0;
    let mut i: usize = start;
    while i < n
        invariant
            start <= i <= n,
            n == s@.len(),
            start <= 1,
            start < n,
            t == s@.skip(start as int),
            t == strip_plus(s@),
            acc == dec_val(t.take(i - start)),
            acc <= max,
            all_digits(t.take(i - start)),
            max <= u32::MAX,
        decreases n - i,
    {
        let c = s.get_char(i);
        if !('0' <= c && c <= '9') {
            proof {
                assert(t[i - start] == c);
                assert(!is_digit(t[i - start]));
            }
            return None;
        }
        let d: u32 = (c as u32) - ('0' as u32);
        proof {
            assert(t.take(i - start + 1).drop_last() =~= t.take(i - start));
            assert(t.take(i - start + 1).last() == c);
        }
        if acc > max / 10 || (acc == max / 10 && d > max % 10) {
            proof {
                assert(dec_val(t.take(i - start + 1)) == acc * 10 + d);
                assert(acc * 10 + d > max) by (nonlinear_arith)
                    requires
                        acc > max / 10 || (acc == max / 10 && d > max % 10),
                        acc >= 0,
                        d >= 0,
                        max >= 0,
                ;
                if all_digits(t) {
                    lemma_dec_val_prefix_le(t, i - start + 1);
                }
            }
            return None;
        }
        proof {
            assert(acc * 10 + d <= max) by (nonlinear_arith)
                requires
                    acc <= max / 10,
                    acc == max / 10 ==> d <= max % 10,
                    d <= 9,
                    acc >= 0,
                    max >= 0,
            ;
        }
        acc = acc * 10 + d;
        i = i + 1;
    }
    proof {
        assert(t.take(n - start) =~= t);
    }
    Some(acc)
}

/// The characters before the first occurrence of `sep`; the whole string when
/// there is none.
pub open spec fn before_first(s: Seq<char>, sep: char) -> Seq<char>
    decreases s.len(),
{
    if s.len() == 0 {
        s
    } else if s[0] == sep {
        Seq::empty()
    } else {
        seq![s[0]] + before_first(s.drop_first(), sep)
    }
}

pub proof fn lemma_before_first_take(s: Seq<char>, sep: char, k: int)
    requires
        0 <= k <= s.len(),
        forall|i: int| 0 <= i < k ==> s[i] != sep,
        k == s.len() || s[k] == sep,
    ensures
        before_first(s, sep) == s.take(k),
    decreases s.len(),
{
    if s.len() == 0 {
        assert(s.take(k) =~= s);
    } else if k == 0 {
        assert(s.take(0) =~= Seq::<char>::empty());
    } else {
        lemma_before_first_take(s.drop_first(), sep, k - 1);
        assert(s.take(k) =~= seq![s[0]] + s.drop_first().take(k - 1));
    }
}

/// Cuts the string at the first occurrence of `sep`; the whole string when
/// there is none.
pub fn first_component(s: &str, sep: char) -> (r: &str)
    ensures
        r@ == before_first(s@, sep),
{
    let n = s.unicode_len();
    let mut k: usize = 0;
    while k < n
        invariant
            0 <= k <= n,
            n == s@.len(),
            forall|i: int| 0 <= i < k ==> s@[i] != sep,
        decreases n - k,
    {
        if s.get_char(k) == sep {
            proof {
                lemma_before_first_take(s@, sep, k as int);
            }
            let r = s.substring_char(0, k);
            proof {
                assert(r@ =~= s@.take(k as int));
            }
            return r;
        }
        k = k + 1;
    }
    proof {
        lemma_before_first_take(s@, sep, n as int);
        assert(s@.take(n as int) =~= s@);
    }
    s
}

/// The pieces of the string between occurrences of `sep`, as the standard
/// splitter yields them: an empty string has one empty piece, and every
/// separator ends a piece.
pub open spec fn split_char(s: Seq<char>, sep: char) -> Seq<Seq<char>>
    decreases s.len(),
{
    if s.len() == 0 {
        seq![s]
    } else if s[0] == sep {
        seq![Seq::<char>::empty()] + split_char(s.drop_first(), sep)
    } else {
        let rest = split_char(s.drop_first(), sep);
        seq![seq![s[0]] + rest[0]] + rest.drop_first()
    }
}

/// Splitting never yields an empty piece list.
pub proof fn lemma_split_nonempty(s: Seq<char>, sep: char)
    ensures
        split_char(s, sep).len() >= 1,
    decreases s.len(),
{
    if s.len() > 0 {
        lemma_split_nonempty(s.drop_first(), sep);
    }
}

/// Splitting at the first separator: the piece before it, then the pieces of
/// what follows it; the whole string when there is no separator.
pub proof fn lemma_split_at_first(s: Seq<char>, sep: char, k: int)
    requires
        0 <= k <= s.len(),
        forall|i: int| 0 <= i < k ==> s[i] != sep,
        k == s.len() || s[k] == sep,
    ensures
        k == s.len() ==> split_char(s, sep) == seq![s],
        k < s.len() ==> split_char(s, sep) == seq![s.take(k)] + split_char(s.skip(k + 1), sep),
    decreases s.len(),
{
    lemma_split_nonempty(s, sep);
    if k == 0 {
        if s.len() == 0 {
        } else {
            assert(s[0] == sep);
            assert(s.take(0) =~= Seq::<char>::empty());
            assert(s.skip(1) =~= s.drop_first());
            assert(split_char(s, sep) =~= seq![s.take(0)] + split_char(s.skip(1), sep));
        }
    } else {
        assert(s[0] != sep);
        lemma_split_at_first(s.drop_first(), sep, k - 1);
        lemma_split_nonempty(s.drop_first(), sep);
        let rest = split_char(s.drop_first(), sep);
        if k == s.len() {
            assert(rest == seq![s.drop_first()]);
            assert(seq![s[0]] + s.drop_first() =~= s);
            assert(rest.drop_first() =~= Seq::<Seq<char>>::empty());
            assert(split_char(s, sep) =~= seq![s]);
        } else {
            assert(rest == seq![s.drop_first().take(k - 1)] + split_char(
                s.drop_first().skip(k),
                sep,
            ));
            assert(rest[0] == s.drop_first().take(k - 1));
            assert(seq![s[0]] + s.drop_first().take(k - 1) =~= s.take(k));
            assert(rest.drop_first() =~= split_char(s.drop_first().skip(k), sep));
            assert(s.drop_first().skip(k) =~= s.skip(k + 1));
            assert(split_char(s, sep) =~= seq![s.take(k)] + split_char(s.skip(k + 1), sep));
        }
    }
}

/// The character sequences of a vector of strings.
pub open spec fn strs_model(v: Seq<String>) -> Seq<Seq<char>> {
    v.map_values(|t: String| t@)
}

/// Splits a string at a separator, exactly as the standard splitter does.
pub fn split_string(s: &str, sep: char) -> (r: Vec<String>)
    ensures
        strs_model(r@) == split_char(s@, sep),
{
    let n = s.unicode_len();
    let mut out: Vec<String> = Vec::new();
    let mut start: usize = 0;
    proof {
        assert(strs_model(out@) =~= Seq::<Seq<char>>::empty());
        assert(s@.skip(0) =~= s@);
    }
    loop
        invariant
            0 <= start <= n,
            n == s@.len(),
            split_char(s@, sep) == strs_model(out@) + split_char(s@.skip(start as int), sep),
        decreases n + 1 - start,
    {
        let ghost rest = s@.skip(start as int);
        let mut k: usize = start;
        while k < n
            invariant
                start <= k <= n,
                n == s@.len(),
                forall|i: int| start <= i < k ==> s@[i] != sep,
            ensures
                start <= k <= n,
                forall|i: int| start <= i < k ==> s@[i] != sep,
                k == n || s@[k as int] == sep,
            decreases n - k,
        {
            if s.get_char(k) == sep {
                break;
            }
            k = k + 1;
        }
        let piece = s.substring_char(start, k);
        out.push(String::from_str(piece));
        proof {
            assert(forall|i: int|
                0 <= i < k - start ==> rest[i] == s@[start + i] && rest[i] != sep);
            if k < n {
                assert(rest[k - start] == s@[k as int]);
            }
            lemma_split_at_first(rest, sep, k - start);
            assert(piece@ =~= rest.take(k - start));
        }
        if k == n {
            proof {
                assert(piece@ =~= rest);
                assert(split_char(rest, sep) == seq![rest]);
                assert(strs_model(out@) =~= strs_model(out@.drop_last()) + seq![rest]);
                assert(split_char(s@, sep) =~= strs_model(out@));
            }
            return out;
        }
        proof {
            assert(split_char(rest, sep) == seq![rest.take(k - start)] + split_char(
                rest.skip(k - start + 1),
                sep,
            ));
            assert(rest.skip(k - start + 1) =~= s@.skip(k + 1));
            assert(strs_model(out@) =~= strs_model(out@.drop_last()) + seq![piece@]);
            assert(strs_model(out@) + split_char(s@.skip(k + 1), sep) =~= (strs_model(
                out@.drop_last(),
            ) + seq![piece@]) + split_char(s@.skip(k + 1), sep));
        }
        start = k + 1;
    }
}

/// `needle` occurs as a contiguous run inside `hay`.
pub open spec fn is_substring(hay: Seq<char>, needle: Seq<char>) -> bool {
    exists|i: int|
        0 <= i && i + needle.len() <= hay.len() && #[trigger] hay.subrange(i, i + needle.len())
            == needle
}

/// Whether `needle` occurs at position `i` of `hay`.
fn matches_at(hay: &str, needle: &str, i: usize) -> (r: bool)
    requires
        i + needle@.len() <= hay@.len(),
    ensures
        r == (hay@.subrange(i as int, i as int + needle@.len()) == needle@),
{
    let n = hay.unicode_len();
    let m = needle.unicode_len();
    let mut j: usize = 0;
    while j < m
        invariant
            0 <= j <= m,
            m == needle@.len(),
            n == hay@.len(),
            i + m <= n,
            forall|k: int| 0 <= k < j ==> hay@[i + k] == needle@[k],
        decreases m - j,
    {
        if hay.get_char(i + j) != needle.get_char(j) {
            proof {
                let sub = hay@.subrange(i as int, i as int + needle@.len());
                assert(sub[j as int] == hay@[i + j]);
            }
            return false;
        }
        j = j + 1;
    }
    proof {
        assert(hay@.subrange(i as int, i as int + needle@.len()) =~= needle@);
    }
    true
}

/// Whether `needle` occurs anywhere in `hay`, as the standard `contains` on
/// string slices reports it.
pub fn contains_sub(hay: &str, needle: &str) -> (r: bool)
    ensures
        r == is_substring(hay@, needle@),
{
    let n = hay.unicode_len();
    let m = needle.unicode_len();
    if m > n {
        proof {
            assert(!is_substring(hay@, needle@));
        }
        return false;
    }
    if m == 0 {
        proof {
            assert(hay@.subrange(0, 0 + needle@.len() as int) =~= needle@);
        }
        return true;
    }
    let mut i: usize = 0;
    while i <= n - m
        invariant
            0 <= i <= n - m + 1,
            1 <= m <= n,
            n == hay@.len(),
            m == needle@.len(),
            forall|k: int|
                0 <= k < i ==> #[trigger] hay@.subrange(k, k + needle@.len()) != needle@,
        decreases (n - m + 1) - i,
    {
        if matches_at(hay, needle, i) {
            proof {
                assert(hay@.subrange(i as int, i as int + needle@.len()) == needle@);
                assert(is_substring(hay@, needle@));
            }
            return true;
        }
        i = i + 1;
    }
    proof {
        assert(forall|k: int|
            0 <= k && k + needle@.len() <= hay@.len() ==> #[trigger] hay@.subrange(
                k,
                k + needle@.len(),
            ) != needle@);
    }
    false
}

/// The characters the standard Debug formatting writes for a string between
/// its surrounding quotes: quotes, backslashes and control characters appear
/// escaped. The result depends on the characters alone.
pub uninterp spec fn escaped_debug(s: Seq<char>) -> Seq<char>;

/// Relies on the standard Debug formatting of string slices: renders the
/// escaped text between the surrounding quotes.
#[verifier::external_body]
pub fn debug_escaped(s: &str) -> (r: String)
    ensures
        r@ == escaped_debug(s@),
{
    let quoted = format!("{s:?}");
    quoted[1..quoted.len() - 1].to_string()
}

/// Drops the seven characters of a `file://` prefix, as the callers hand
/// URI-form paths to the host filesystem.
pub fn strip_file_prefix(s: &str) -> (r: &str)
    requires
        s@.len() >= 7,
    ensures
        r@ == s@.skip(7),
{
    let n = s.unicode_len();
    let r = s.substring_char(7, n);
    proof {
        assert(r@ =~= s@.skip(7));
    }
    r
}

} // verus!
