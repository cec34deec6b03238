//! Verified text utilities used throughout the normalizer: substring
//! matching, pattern replacement, list joining and integer parsing.

use vstd::prelude::*;
use vstd::string::StrSliceExecFns;
use vstd::string::StringExecFns;

verus! {

/// Character-for-character string equality.
pub fn str_eq(a: &str, b: &str) -> (r: bool)
    ensures
        r == (a@ == b@),
{
    let sa = String::from_str(a);
    let sb = String::from_str(b);
    sa == sb
}

/// `pat` occurs in `s` starting at position `i`.
pub open spec fn spec_match_at(s: Seq<char>, pat: Seq<char>, i: int) -> bool {
    0 <= i && i + pat.len() <= s.len() && s.subrange(i, i + pat.len() as int) == pat
}

/// `pat` occurs somewhere in `s`.
pub open spec fn spec_contains(s: Seq<char>, pat: Seq<char>) -> bool {
    exists|i: int| spec_match_at(s, pat, i)
}

fn match_at(s: &str, pat: &str, i: usize) -> (r: bool)
    requires
        i + pat@.len() <= s@.len(),
        s@.len() <= usize::MAX,
    ensures
        r == spec_match_at(s@, pat@, i as int),
{
    let pat_len = pat.unicode_len();
    let mut j: usize = 0;
    while j < pat_len
        invariant
            j <= pat@.len(),
            pat_len == pat@.len(),
            i + pat@.len() <= s@.len(),
            s@.len() <= usize::MAX,
            forall|k: int| 0 <= k < j ==> s@[i + k] == pat@[k],
        decreases pat_len - j,
    {
        let sc = s.get_char(i + j);
        let pc = pat.get_char(j);
        if sc != pc {
            proof {
                let sr = s@.subrange(i as int, i + pat@.len() as int);
                assert(sr[j as int] == s@[i + j]);
            }
            return false;
        }
        j = j + 1;
    }
    proof {
        assert(s@.subrange(i as int, i + pat@.len() as int) =~= pat@);
    }
    true
}

/// Whether `pat` occurs anywhere in `s`.
pub fn contains_str(s: &str, pat: &str) -> (r: bool)
    ensures
        r == spec_contains(s@, pat@),
{
    let s_len = s.unicode_len();
    let pat_len = pat.unicode_len();
    if pat_len > s_len {
        assert(forall|i: int| !spec_match_at(s@, pat@, i));
        return false;
    }
    if pat_len == 0 {
        assert(s@.subrange(0, 0) =~= pat@);
        assert(spec_match_at(s@, pat@, 0));
        return true;
    }
    let mut i: usize = 0;
    while i <= s_len - pat_len
        invariant
            pat_len == pat@.len(),
            s_len == s@.len(),
            0 < pat_len <= s_len,
            i <= s_len - pat_len + 1,
            forall|k: int| 0 <= k < i ==> !spec_match_at(s@, pat@, k),
        decreases s_len - pat_len - i + 1,
    {
        if match_at(s, pat, i) {
            return true;
        }
        i = i + 1;
    }
    assert(forall|k: int| !spec_match_at(s@, pat@, k));
    false
}

/// `s` with every leftmost, non-overlapping occurrence of `pat` replaced by
/// `sub`; `s` itself when `pat` is empty or longer than what remains.
pub open spec fn spec_replaced(s: Seq<char>, pat: Seq<char>, sub: Seq<char>) -> Seq<char>
    decreases s.len(),
{
    if pat.len() == 0 || s.len() < pat.len() {
        s
    } else if s.subrange(0, pat.len() as int) == pat {
        sub + spec_replaced(s.skip(pat.len() as int), pat, sub)
    } else {
        seq![s[0]] + spec_replaced(s.skip(1), pat, sub)
    }
}

/// Replace every leftmost, non-overlapping occurrence of `pat` in `s` by `sub`.
pub fn replace_str(s: &str, pat: &str, sub: &str) -> (r: String)
    requires
        pat@.len() > 0,
    ensures
        r@ == spec_replaced(s@, pat@, sub@),
{
    let s_len = s.unicode_len();
    let pat_len = pat.unicode_len();
    let mut out = String::new();
    let mut i: usize = 0;
    proof {
        assert(s@.skip(0) =~= s@);
        assert(out@ + spec_replaced(s@, pat@, sub@) =~= spec_replaced(s@, pat@, sub@));
    }
    while i < s_len
        invariant
            s_len == s@.len(),
            pat_len == pat@.len(),
            pat@.len() > 0,
            i <= s@.len(),
            out@ + spec_replaced(s@.skip(i as int), pat@, sub@) == spec_replaced(s@, pat@, sub@),
        decreases s_len - i,
    {
        let ghost tail = s@.skip(i as int);
        let ghost out0 = out@;
        if pat_len <= s_len - i && match_at(s, pat, i) {
            out.append(sub);
            proof {
                assert(tail.subrange(0, pat@.len() as int) =~= s@.subrange(
                    i as int,
                    i + pat@.len() as int,
                ));
                assert(tail.skip(pat@.len() as int) =~= s@.skip(i + pat@.len()));
                assert(spec_replaced(tail, pat@, sub@) == sub@ + spec_replaced(
                    s@.skip(i + pat@.len()),
                    pat@,
                    sub@,
                ));
                assert(out@ + spec_replaced(s@.skip(i + pat@.len()), pat@, sub@) =~= out0
                    + spec_replaced(tail, pat@, sub@));
            }
            i = i + pat_len;
        } else {
            let c = s.substring_char(i, i + 1);
            out.append(c);
            proof {
                assert(tail[0] == s@[i as int]);
                assert(tail.skip(1) =~= s@.skip(i + 1));
                if tail.len() < pat@.len() {
                    assert(tail =~= seq![s@[i as int]] + tail.skip(1));
                    assert(spec_replaced(tail.skip(1), pat@, sub@) == tail.skip(1));
                } else {
                    assert(tail.subrange(0, pat@.len() as int) =~= s@.subrange(
                        i as int,
                        i + pat@.len() as int,
                    ));
                    assert(tail.subrange(0, pat@.len() as int) != pat@);
                }
                assert(spec_replaced(tail, pat@, sub@) == seq![s@[i as int]] + spec_replaced(
                    s@.skip(i + 1),
                    pat@,
                    sub@,
                ));
                assert(c@ =~= seq![s@[i as int]]);
                assert(out@ + spec_replaced(s@.skip(i + 1), pat@, sub@) =~= out0
                    + spec_replaced(tail, pat@, sub@));
            }
            i = i + 1;
        }
    }
    proof {
        assert(s@.skip(s@.len() as int) =~= Seq::<char>::empty());
        assert(spec_replaced(Seq::<char>::empty(), pat@, sub@) == Seq::<char>::empty());
        assert(out@ + Seq::<char>::empty() =~= out@);
    }
    out
}

/// The elements of `parts` joined by `sep`, in order.
pub open spec fn spec_joined(parts: Seq<Seq<char>>, sep: Seq<char>) -> Seq<char>
    decreases parts.len(),
{
    if parts.len() == 0 {
        Seq::empty()
    } else if parts.len() == 1 {
        parts[0]
    } else {
        spec_joined(parts.take(parts.len() - 1), sep) + sep + parts.last()
    }
}

/// Join the strings of `parts` with the separator `sep`.
pub fn join_strings(parts: &Vec<String>, sep: &str) -> (r: String)
    ensures
        r@ == spec_joined(parts.deep_view(), sep@),
{
    let mut out = String::new();
    let mut i: usize = 0;
    proof {
        assert(parts.deep_view().take(0) =~= Seq::<Seq<char>>::empty());
    }
    while i < parts.len()
        invariant
            i <= parts@.len(),
            parts.deep_view().len() == parts@.len(),
            forall|j: int| 0 <= j < parts@.len() ==> parts.deep_view()[j] == parts@[j]@,
            out@ == spec_joined(parts.deep_view().take(i as int), sep@),
        decreases parts@.len() - i,
    {
        if i > 0 {
            out.append(sep);
        }
        out.append(parts[i].as_str());
        proof {
            let dv = parts.deep_view();
            assert(dv.take(i + 1).take(i as int) =~= dv.take(i as int));
            assert(dv.take(i + 1).last() == dv[i as int]);
            if i == 0 {
                assert(out@ =~= spec_joined(dv.take(i + 1), sep@));
            } else {
                assert(out@ =~= spec_joined(dv.take(i + 1), sep@));
            }
        }
        i = i + 1;
    }
    proof {
        assert(parts.deep_view().take(parts@.len() as int) =~= parts.deep_view());
    }
    out
}

} // verus!

verus! {

pub open spec fn spec_is_digit(c: char) -> bool {
    48 <= c as u32 <= 57
}

pub open spec fn spec_digit(c: char) -> int {
    c as u32 - 48
}

/// Value of a digit string, most significant digit first.
pub open spec fn spec_digits_val(s: Seq<char>) -> int
    decreases s.len(),
{
    if s.len() == 0 {
        0
    } else {
        spec_digits_val(s.take(s.len() - 1)) * 10 + spec_digit(s.last())
    }
}

pub open spec fn spec_all_digits(s: Seq<char>) -> bool {
    forall|i: int| 0 <= i < s.len() ==> spec_is_digit(s[i])
}

/// A digit string's value never shrinks as it is extended on the right.
proof fn lemma_digits_prefix_le(s: Seq<char>, k: int)
    requires
        spec_all_digits(s),
        0 <= k <= s.len(),
    ensures
        0 <= spec_digits_val(s.take(k)) <= spec_digits_val(s),
    decreases s.len(),
{
    if s.len() == 0 {
        assert(s.take(k) =~= s);
    } else {
        let b = s.take(s.len() - 1);
        assert(spec_all_digits(b));
        if k == s.len() {
            assert(s.take(k) =~= s);
            lemma_digits_prefix_le(b, b.len() as int);
            assert(b.take(b.len() as int) =~= b);
        } else {
            lemma_digits_prefix_le(b, k);
            assert(b.take(k) =~= s.take(k));
        }
    }
}

/// The value a decimal integer literal denotes, exactly as `i32` parses it:
/// an optional sign, then one or more digits, within the `i32` range.
pub open spec fn spec_parsed_i32(s: Seq<char>) -> Option<i32> {
    let digits = if s.len() > 0 && (s[0] == '-' || s[0] == '+') {
        s.skip(1)
    } else {
        s
    };
    let sign: int = if s.len() > 0 && s[0] == '-' {
        -1
    } else {
        1
    };
    if digits.len() > 0 && spec_all_digits(digits) {
        let v = sign * spec_digits_val(digits);
        if i32::MIN <= v <= i32::MAX {
            Some(v as i32)
        } else {
            None
        }
    } else {
        None
    }
}

/// Parse a decimal integer with the exact acceptance rules of `i32`:
/// optional `+`/`-` sign, one or more digits, nothing else, value in range.
pub fn parse_i32(s: &str) -> (r: Option<i32>)
    ensures
        r == spec_parsed_i32(s@),
{
    let n = s.unicode_len();
    if n == 0 {
        return None;
    }
    let c0 = s.get_char(0);
    let neg = c0 == '-';
    let has_sign = neg || c0 == '+';
    let start: usize = if has_sign {
        1
    } else {
        0
    };
    let ghost digits = if has_sign {
        s@.skip(1)
    } else {
        s@
    };
    if n == start {
        return None;
    }
    let mut acc: i64 = 0;
    let mut i: usize = start;
    proof {
        assert(digits.take(0) =~= Seq::<char>::empty());
    }
    while i < n
        invariant
            start <= i <= n,
            n == s@.len(),
            start == if has_sign { 1int } else { 0int },
            has_sign == (s@[0] == '-' || s@[0] == '+'),
            n > start,
            digits == if has_sign { s@.skip(1) } else { s@ },
            digits.len() == n - start,
            forall|k: int| 0 <= k < i - start ==> #[trigger] spec_is_digit(digits[k]),
            acc == spec_digits_val(digits.take(i - start)),
            0 <= acc <= 0x8000_0000,
        decreases n - i,
    {
        let c = s.get_char(i);
        let cv = c as u32;
        proof {
            assert(digits[i - start] == s@[i as int]);
        }
        if cv < 48 || cv > 57 {
            assert(!spec_is_digit(digits[i - start]));
            assert(!spec_all_digits(digits));
            return None;
        }
        proof {
            let k = i - start;
            assert(digits.take(k + 1).take(k) =~= digits.take(k));
            assert(digits.take(k + 1).last() == digits[k]);
        }
        acc = acc * 10 + ((cv - 48) as i64);
        if acc > 0x8000_0000 {
            proof {
                let ghost scanned = digits.take(i + 1 - start);
                assert(spec_all_digits(scanned));
                assert(acc == spec_digits_val(scanned));
                if spec_all_digits(digits) {
                    lemma_digits_prefix_le(digits, i + 1 - start);
                    assert(spec_digits_val(digits) > 0x8000_0000);
                    let ghost v = spec_digits_val(digits);
                    assert((-1int) * v == -v) by (nonlinear_arith);
                    assert((1int) * v == v) by (nonlinear_arith);
                    assert(spec_parsed_i32(s@) is None);
                } else {
                    assert(spec_parsed_i32(s@) is None);
                }
            }
            return None;
        }
        i = i + 1;
    }
    proof {
        assert(digits.take(n - start) =~= digits);
        assert(spec_all_digits(digits));
        assert(acc == spec_digits_val(digits));
        assert(digits.len() > 0);
        assert(digits == (if s@.len() > 0 && (s@[0] == '-' || s@[0] == '+') {
            s@.skip(1)
        } else {
            s@
        }));
        assert(neg == (s@[0] == '-'));
        let ghost v = spec_digits_val(digits);
        assert((-1int) * v == -v) by (nonlinear_arith);
        assert((1int) * v == v) by (nonlinear_arith);
    }
    if neg {
        Some((-acc) as i32)
    } else if acc > 0x7fff_ffff {
        None
    } else {
        Some(acc as i32)
    }
}

/// Count of leading decimal digits.
pub open spec fn spec_digit_prefix_len(s: Seq<char>) -> int
    decreases s.len(),
{
    if s.len() > 0 && spec_is_digit(s[0]) {
        1 + spec_digit_prefix_len(s.skip(1))
    } else {
        0
    }
}

proof fn lemma_digit_prefix_props(s: Seq<char>)
    ensures
        0 <= spec_digit_prefix_len(s) <= s.len(),
        forall|i: int| 0 <= i < spec_digit_prefix_len(s) ==> #[trigger] spec_is_digit(s[i]),
        spec_digit_prefix_len(s) < s.len() ==> !spec_is_digit(s[spec_digit_prefix_len(s)]),
    decreases s.len(),
{
    if s.len() > 0 && spec_is_digit(s[0]) {
        lemma_digit_prefix_props(s.skip(1));
        let d = spec_digit_prefix_len(s);
        assert forall|i: int| 0 <= i < d implies spec_is_digit(s[i]) by {
            if i > 0 {
                assert(spec_is_digit(s.skip(1)[i - 1]));
                assert(s.skip(1)[i - 1] == s[i]);
            }
        }
        if d < s.len() {
            assert(!spec_is_digit(s.skip(1)[d - 1]));
            assert(s.skip(1)[d - 1] == s[d]);
        }
    }
}

/// The truncated integer value of a JSON number rendering: the leading
/// digits after an optional minus sign, accepted when the remainder is
/// empty or a plain `.digits` fractional part.  Exponent renderings and
/// anything else have no value here.
pub open spec fn spec_num_trunc(s: Seq<char>) -> Option<int> {
    let sign: int = if s.len() > 0 && s[0] == '-' {
        -1
    } else {
        1
    };
    let rest = if s.len() > 0 && s[0] == '-' {
        s.skip(1)
    } else {
        s
    };
    let d = spec_digit_prefix_len(rest);
    let tail = rest.skip(d);
    if d == 0 {
        None
    } else if tail.len() == 0 {
        Some(sign * spec_digits_val(rest.take(d)))
    } else if tail[0] == '.' && tail.len() > 1 && spec_all_digits(tail.skip(1)) {
        Some(sign * spec_digits_val(rest.take(d)))
    } else {
        None
    }
}

} // verus!

verus! {

proof fn lemma_digit_prefix_len_eq(w: Seq<char>, m: int)
    requires
        0 <= m <= w.len(),
        forall|k: int| 0 <= k < m ==> #[trigger] spec_is_digit(w[k]),
        m < w.len() ==> !spec_is_digit(w[m]),
    ensures
        spec_digit_prefix_len(w) == m,
    decreases w.len(),
{
    if m == 0 {
    } else {
        assert(spec_is_digit(w[0]));
        let w1 = w.skip(1);
        assert forall|k: int| 0 <= k < m - 1 implies spec_is_digit(w1[k]) by {
            assert(w1[k] == w[k + 1]);
        }
        if m - 1 < w1.len() {
            assert(w1[m - 1] == w[m]);
        }
        lemma_digit_prefix_len_eq(w1, m - 1);
    }
}

/// First position at or after `from` that does not hold a decimal digit.
fn scan_digits(s: &str, from: usize) -> (r: usize)
    requires
        from <= s@.len(),
        s@.len() <= usize::MAX,
    ensures
        from <= r <= s@.len(),
        r - from == spec_digit_prefix_len(s@.skip(from as int)),
{
    let n = s.unicode_len();
    let mut i = from;
    while i < n
        invariant
            from <= i <= n,
            n == s@.len(),
            forall|k: int| from <= k < i ==> #[trigger] spec_is_digit(s@[k]),
        decreases n - i,
    {
        let c = s.get_char(i);
        let u = c as u32;
        if u < 48 || u > 57 {
            proof {
                let w = s@.skip(from as int);
                assert forall|k: int| 0 <= k < i - from implies spec_is_digit(w[k]) by {
                    assert(w[k] == s@[from + k]);
                }
                assert(w[i - from] == s@[i as int]);
                lemma_digit_prefix_len_eq(w, i - from);
            }
            return i;
        }
        i = i + 1;
    }
    proof {
        let w = s@.skip(from as int);
        assert forall|k: int| 0 <= k < n - from implies spec_is_digit(w[k]) by {
            assert(w[k] == s@[from + k]);
        }
        lemma_digit_prefix_len_eq(w, n - from);
    }
    n
}

/// The truncated `i32` a JSON number rendering stands for: its integer part
/// when the rendering is `-?digits` or `-?digits.digits` and the part fits.
pub fn num_text_int(t: &str) -> (r: Option<i32>)
    ensures
        r == match spec_num_trunc(t@) {
            Some(v) => if i32::MIN <= v <= i32::MAX {
                Some(v as i32)
            } else {
                None::<i32>
            },
            None => None::<i32>,
        },
{
    let n = t.unicode_len();
    let neg = if n > 0 {
        t.get_char(0) == '-'
    } else {
        false
    };
    let start: usize = if neg {
        1
    } else {
        0
    };
    let ghost rest = if neg {
        t@.skip(1)
    } else {
        t@
    };
    proof {
        assert(rest =~= t@.skip(start as int));
    }
    let d_end = scan_digits(t, start);
    let ghost d = spec_digit_prefix_len(rest);
    proof {
        lemma_digit_prefix_props(rest);
        assert(rest.skip(d) =~= t@.skip(d_end as int));
    }
    if d_end == start {
        return None;
    }
    if d_end < n {
        let c = t.get_char(d_end);
        proof {
            assert(rest.skip(d)[0] == t@[d_end as int]);
        }
        if c != '.' {
            return None;
        }
        if d_end + 1 == n {
            return None;
        }
        let frac_end = scan_digits(t, d_end + 1);
        proof {
            assert(rest.skip(d).skip(1) =~= t@.skip(d_end + 1));
        }
        if frac_end < n {
            proof {
                let w = t@.skip(d_end + 1);
                lemma_digit_prefix_props(w);
                assert(!spec_is_digit(w[frac_end - (d_end + 1)]));
                assert(!spec_all_digits(rest.skip(d).skip(1)));
            }
            return None;
        }
        proof {
            let w = t@.skip(d_end + 1);
            lemma_digit_prefix_props(w);
            assert(spec_all_digits(rest.skip(d).skip(1)));
        }
    }
    let ghost digits = rest.take(d);
    proof {
        assert(spec_all_digits(digits));
        assert(digits.take(0) =~= Seq::<char>::empty());
        assert(spec_num_trunc(t@) == Some(
            (if neg { -1int } else { 1int }) * spec_digits_val(digits),
        ));
    }
    let mut acc: i64 = 0;
    let mut i = start;
    while i < d_end
        invariant
            start <= i <= d_end,
            d_end <= n == t@.len(),
            start == if neg { 1int } else { 0int },
            rest == t@.skip(start as int),
            digits == rest.take(d),
            d == d_end - start,
            spec_all_digits(digits),
            digits.len() == d,
            acc == spec_digits_val(digits.take(i - start)),
            0 <= acc <= 0x8000_0000,
            spec_num_trunc(t@) == Some(
                (if neg { -1int } else { 1int }) * spec_digits_val(digits),
            ),
        decreases d_end - i,
    {
        let c = t.get_char(i);
        let u = c as u32;
        proof {
            assert(digits[i - start] == rest[i - start]);
            assert(rest[i - start] == t@[i as int]);
            assert(spec_is_digit(digits[i - start]));
            let k = i - start;
            assert(digits.take(k + 1).take(k) =~= digits.take(k));
            assert(digits.take(k + 1).last() == digits[k]);
        }
        acc = acc * 10 + ((u - 48) as i64);
        if acc > 0x8000_0000 {
            proof {
                lemma_digits_prefix_le(digits, i + 1 - start);
                let ghost v = spec_digits_val(digits);
                assert((-1int) * v == -v) by (nonlinear_arith);
                assert((1int) * v == v) by (nonlinear_arith);
            }
            return None;
        }
        i = i + 1;
    }
    proof {
        assert(digits.take(d_end - start) =~= digits);
        let ghost v = spec_digits_val(digits);
        assert((-1int) * v == -v) by (nonlinear_arith);
        assert((1int) * v == v) by (nonlinear_arith);
    }
    if neg {
        Some((-acc) as i32)
    } else if acc > 0x7fff_ffff {
        None
    } else {
        Some(acc as i32)
    }
}

} // verus!

verus! {

/// The characters with the Unicode `White_Space` property, the set `trim`
/// strips.
pub open spec fn spec_is_ws(c: char) -> bool {
    let u = c as u32;
    u == 9 || u == 10 || u == 11 || u == 12 || u == 13 || u == 32 || u == 0x85 || u == 0xA0
        || u == 0x1680 || (0x2000 <= u && u <= 0x200A) || u == 0x2028 || u == 0x2029 || u == 0x202F
        || u == 0x205F || u == 0x3000
}

fn is_ws_char(c: char) -> (r: bool)
    ensures
        r == spec_is_ws(c),
{
    let u = c as u32;
    u == 9 || u == 10 || u == 11 || u == 12 || u == 13 || u == 32 || u == 0x85 || u == 0xA0
        || u == 0x1680 || (0x2000 <= u && u <= 0x200A) || u == 0x2028 || u == 0x2029 || u == 0x202F
        || u == 0x205F || u == 0x3000
}

pub open spec fn spec_trim_start(s: Seq<char>) -> Seq<char>
    decreases s.len(),
{
    if s.len() > 0 && spec_is_ws(s[0]) {
        spec_trim_start(s.skip(1))
    } else {
        s
    }
}

pub open spec fn spec_trim_end(s: Seq<char>) -> Seq<char>
    decreases s.len(),
{
    if s.len() > 0 && spec_is_ws(s.last()) {
        spec_trim_end(s.take(s.len() - 1))
    } else {
        s
    }
}

/// `s` without leading and trailing whitespace.
pub open spec fn spec_trimmed(s: Seq<char>) -> Seq<char> {
    spec_trim_end(spec_trim_start(s))
}

proof fn lemma_trim_start_skip(s: Seq<char>, m: int)
    requires
        0 <= m <= s.len(),
        forall|k: int| 0 <= k < m ==> #[trigger] spec_is_ws(s[k]),
    ensures
        spec_trim_start(s) == spec_trim_start(s.skip(m)),
    decreases m,
{
    if m == 0 {
        assert(s.skip(0) =~= s);
    } else {
        assert(spec_is_ws(s[0]));
        let s1 = s.skip(1);
        assert forall|k: int| 0 <= k < m - 1 implies spec_is_ws(s1[k]) by {
            assert(s1[k] == s[k + 1]);
        }
        lemma_trim_start_skip(s1, m - 1);
        assert(s1.skip(m - 1) =~= s.skip(m));
    }
}

proof fn lemma_trim_end_take(s: Seq<char>, m: int)
    requires
        0 <= m <= s.len(),
        forall|k: int| m <= k < s.len() ==> #[trigger] spec_is_ws(s[k]),
    ensures
        spec_trim_end(s) == spec_trim_end(s.take(m)),
    decreases s.len() - m,
{
    if m == s.len() {
        assert(s.take(m) =~= s);
    } else {
        assert(spec_is_ws(s.last()));
        let s1 = s.take(s.len() - 1);
        assert forall|k: int| m <= k < s1.len() implies spec_is_ws(s1[k]) by {
            assert(s1[k] == s[k]);
        }
        lemma_trim_end_take(s1, m);
        assert(s1.take(m) =~= s.take(m));
    }
}

/// `s` without leading and trailing whitespace, as `trim` strips it.
pub fn trim_str<'a>(s: &'a str) -> (r: &'a str)
    ensures
        r@ == spec_trimmed(s@),
{
    let n = s.unicode_len();
    let mut start: usize = 0;
    let mut stopped = false;
    while !stopped && start < n
        invariant
            0 <= start <= n,
            n == s@.len(),
            forall|k: int| 0 <= k < start ==> #[trigger] spec_is_ws(s@[k]),
            stopped ==> start < n && !spec_is_ws(s@[start as int]),
        decreases n - start, (if stopped { 0int } else { 1int }),
    {
        let c = s.get_char(start);
        if is_ws_char(c) {
            start = start + 1;
        } else {
            stopped = true;
        }
    }
    proof {
        lemma_trim_start_skip(s@, start as int);
    }
    let ghost t = s@.skip(start as int);
    if start == n {
        proof {
            assert(t =~= Seq::<char>::empty());
        }
        let r = s.substring_char(n, n);
        proof {
            assert(r@ =~= Seq::<char>::empty());
        }
        return r;
    }
    assert(t[0] == s@[start as int]);
    assert(spec_trim_start(s@) == t);
    let mut end: usize = n;
    let mut stopped_end = false;
    while !stopped_end && end > start
        invariant
            start <= end <= n,
            n == s@.len(),
            forall|k: int| end <= k < n ==> #[trigger] spec_is_ws(s@[k]),
            stopped_end ==> end > start && !spec_is_ws(s@[end - 1]),
        decreases end, (if stopped_end { 0int } else { 1int }),
    {
        let c = s.get_char(end - 1);
        if is_ws_char(c) {
            end = end - 1;
        } else {
            stopped_end = true;
        }
    }
    proof {
        assert forall|k: int| end - start <= k < t.len() implies spec_is_ws(t[k]) by {
            assert(t[k] == s@[start + k]);
        }
        lemma_trim_end_take(t, end - start);
        if end > start {
            assert(t.take(end - start).last() == s@[end - 1]);
        }
        assert(spec_trim_end(t.take(end - start)) == t.take(end - start));
    }
    let r = s.substring_char(start, end);
    proof {
        assert(r@ =~= t.take(end - start));
    }
    r
}

/// Replacement rewrites exactly a sole trailing occurrence of the pattern:
/// when `pat` occurs in `p + pat` only as its trailing token, replacing
/// `pat` by `sub` yields `p + sub`.
pub proof fn lemma_replaced_tail(p: Seq<char>, pat: Seq<char>, sub: Seq<char>)
    requires
        pat.len() > 0,
        forall|i: int| 0 <= i < p.len() ==> !spec_match_at(p + pat, pat, i),
    ensures
        spec_replaced(p + pat, pat, sub) == p + sub,
    decreases p.len(),
{
    let s = p + pat;
    if p.len() == 0 {
        assert(s =~= pat);
        assert(s.subrange(0, pat.len() as int) =~= pat);
        assert(s.skip(pat.len() as int) =~= Seq::<char>::empty());
        assert(spec_replaced(Seq::<char>::empty(), pat, sub) == Seq::<char>::empty());
        assert(sub + Seq::<char>::empty() =~= sub);
        assert(p + sub =~= sub);
    } else {
        assert(!spec_match_at(s, pat, 0));
        assert(s.len() >= pat.len());
        assert(s.subrange(0, pat.len() as int) != pat);
        let p1 = p.skip(1);
        assert(s.skip(1) =~= p1 + pat);
        assert forall|i: int| 0 <= i < p1.len() implies !spec_match_at(p1 + pat, pat, i) by {
            assert(!spec_match_at(s, pat, i + 1));
            assert((p1 + pat).subrange(i, i + pat.len() as int) =~= s.subrange(
                i + 1,
                i + 1 + pat.len() as int,
            ));
        }
        lemma_replaced_tail(p1, pat, sub);
        assert(spec_replaced(s, pat, sub) == seq![s[0]] + spec_replaced(s.skip(1), pat, sub));
        assert(seq![s[0]] + (p1 + sub) =~= p + sub);
    }
}

} // verus!
