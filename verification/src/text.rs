use vstd::prelude::*;
use vstd::string::StrSliceExecFns;
use vstd::string::StringExecFns;

verus! {

// ---------------------------------------------------------------------------
// Character classes
// ---------------------------------------------------------------------------
pub open spec fn is_space_char(c: char) -> bool {
    c == ' ' || c == '\t' || c == '\n' || c == '\r'
}

pub fn is_space(c: char) -> (r: bool)
    ensures
        r == is_space_char(c),
{
    c == ' ' || c == '\t' || c == '\n' || c == '\r'
}

pub open spec fn is_digit_char(c: char) -> bool {
    ('0' as int) <= c as int && c as int <= ('9' as int)
}

pub open spec fn digit_value(c: char) -> int {
    c as int - ('0' as int)
}

// ---------------------------------------------------------------------------
// Trimming
// ---------------------------------------------------------------------------
pub open spec fn drop_leading_spaces(s: Seq<char>) -> Seq<char>
    decreases s.len(),
{
    if s.len() > 0 && is_space_char(s[0]) {
        drop_leading_spaces(s.skip(1))
    } else {
        s
    }
}

pub open spec fn drop_trailing_spaces(s: Seq<char>) -> Seq<char>
    decreases s.len(),
{
    if s.len() > 0 && is_space_char(s.last()) {
        drop_trailing_spaces(s.drop_last())
    } else {
        s
    }
}

/// The string with spaces, tabs and line breaks removed from both ends.
pub open spec fn trimmed(s: Seq<char>) -> Seq<char> {
    drop_trailing_spaces(drop_leading_spaces(s))
}

pub proof fn lemma_drop_leading_at(s: Seq<char>, lo: int)
    requires
        0 <= lo <= s.len(),
        forall|j: int| 0 <= j < lo ==> is_space_char(s[j]),
        lo < s.len() ==> !is_space_char(s[lo]),
    ensures
        drop_leading_spaces(s) == s.subrange(lo, s.len() as int),
    decreases lo,
{
    if lo == 0 {
        assert(s.subrange(0, s.len() as int) =~= s);
    } else {
        assert(is_space_char(s[0]));
        lemma_drop_leading_at(s.skip(1), lo - 1);
        assert(s.skip(1).subrange(lo - 1, s.skip(1).len() as int) =~= s.subrange(
            lo,
            s.len() as int,
        ));
    }
}

pub proof fn lemma_drop_trailing_at(s: Seq<char>, hi: int)
    requires
        0 <= hi <= s.len(),
        forall|j: int| hi <= j < s.len() ==> is_space_char(s[j]),
        hi > 0 ==> !is_space_char(s[hi - 1]),
    ensures
        drop_trailing_spaces(s) == s.subrange(0, hi),
    decreases s.len() - hi,
{
    if hi == s.len() {
        assert(s.subrange(0, s.len() as int) =~= s);
    } else {
        assert(is_space_char(s.last()));
        lemma_drop_trailing_at(s.drop_last(), hi);
        assert(s.drop_last().subrange(0, hi) =~= s.subrange(0, hi));
    }
}

/// Removes leading and trailing whitespace, like the trim of the standard
/// library restricted to spaces, tabs and line breaks.
pub fn trim_str(s: &str) -> (t: String)
    ensures
        t@ == trimmed(s@),
{
    let n = s.unicode_len();
    let mut lo: usize = 0;
    while lo < n && is_space(s.get_char(lo))
        invariant
            0 <= lo <= n,
            n == s@.len(),
            forall|j: int| 0 <= j < lo ==> is_space_char(s@[j]),
        decreases n - lo,
    {
        lo = lo + 1;
    }
    proof {
        lemma_drop_leading_at(s@, lo as int);
    }
    if lo == n {
        proof {
            assert(drop_leading_spaces(s@) =~= Seq::<char>::empty());
        }
        return String::new();
    }
    let mut hi: usize = n;
    while hi > lo && is_space(s.get_char(hi - 1))
        invariant
            lo <= hi <= n,
            n == s@.len(),
            lo < n,
            !is_space_char(s@[lo as int]),
            forall|j: int| hi <= j < n ==> is_space_char(s@[j]),
        decreases hi,
    {
        hi = hi - 1;
    }
    let t = s.substring_char(lo, hi);
    proof {
        let mid = s@.subrange(lo as int, n as int);
        lemma_drop_trailing_at(mid, hi - lo);
        assert(mid.subrange(0, hi - lo) =~= s@.subrange(lo as int, hi as int));
    }
    t.to_owned()
}

// ---------------------------------------------------------------------------
// Splitting on a separator character
// ---------------------------------------------------------------------------
/// Index of the first occurrence of `sep`, or `s.len()` when absent.
pub open spec fn first_index(s: Seq<char>, sep: char) -> int
    decreases s.len(),
{
    if s.len() == 0 {
        0
    } else if s[0] == sep {
        0
    } else {
        1 + first_index(s.skip(1), sep)
    }
}

pub proof fn lemma_first_index_at(s: Seq<char>, sep: char, k: int)
    requires
        0 <= k <= s.len(),
        forall|j: int| 0 <= j < k ==> s[j] != sep,
        k < s.len() ==> s[k] == sep,
        k == s.len() ==> forall|j: int| 0 <= j < s.len() ==> s[j] != sep,
    ensures
        first_index(s, sep) == k,
    decreases k,
{
    if s.len() == 0 {
    } else if s[0] == sep {
    } else {
        lemma_first_index_at(s.skip(1), sep, k - 1);
    }
}

/// The pieces of `s` between occurrences of `sep`; always at least one piece.
pub open spec fn split_on(s: Seq<char>, sep: char) -> Seq<Seq<char>>
    decreases s.len(),
{
    let i = first_index(s, sep);
    if !(0 <= i && i < s.len()) {
        seq![s]
    } else {
        seq![s.subrange(0, i)] + split_on(s.subrange(i + 1, s.len() as int), sep)
    }
}

pub fn split_on_str(s: &str, sep: char) -> (parts: Vec<String>)
    ensures
        parts.deep_view() == split_on(s@, sep),
        parts.len() >= 1,
{
    let n = s.unicode_len();
    let mut parts: Vec<String> = Vec::new();
    let mut start: usize = 0;
    let mut i: usize = 0;
    proof {
        assert(s@.subrange(0, n as int) =~= s@);
        assert(parts.deep_view() =~= Seq::<Seq<char>>::empty());
        assert(Seq::<Seq<char>>::empty() + split_on(s@, sep) =~= split_on(s@, sep));
    }
    while i < n
        invariant
            0 <= start <= i <= n,
            n == s@.len(),
            forall|j: int| start <= j < i ==> s@[j] != sep,
            parts.deep_view() + split_on(s@.subrange(start as int, n as int), sep) =~= split_on(
                s@,
                sep,
            ),
        decreases n - i,
    {
        if s.get_char(i) == sep {
            let piece = s.substring_char(start, i);
            let ghost prev = parts.deep_view();
            let ghost rest = s@.subrange(start as int, n as int);
            proof {
                lemma_first_index_at(rest, sep, i - start);
                assert(rest.subrange(0, i - start) =~= s@.subrange(start as int, i as int));
                assert(rest.subrange(i - start + 1, rest.len() as int) =~= s@.subrange(
                    i + 1,
                    n as int,
                ));
                assert(split_on(rest, sep) == seq![s@.subrange(start as int, i as int)] + split_on(
                    s@.subrange(i + 1, n as int),
                    sep,
                ));
            }
            let piece_owned = piece.to_owned();
            parts.push(piece_owned);
            proof {
                assert(parts.deep_view() =~= prev.push(s@.subrange(start as int, i as int)));
                assert(parts.deep_view() + split_on(s@.subrange(i + 1, n as int), sep) =~= prev
                    + split_on(rest, sep));
            }
            start = i + 1;
        }
        i = i + 1;
    }
    let piece = s.substring_char(start, n);
    let ghost prev = parts.deep_view();
    let ghost rest = s@.subrange(start as int, n as int);
    proof {
        lemma_first_index_at(rest, sep, n - start);
        assert(split_on(rest, sep) == seq![rest]);
    }
    let piece_owned = piece.to_owned();
    parts.push(piece_owned);
    proof {
        assert(parts.deep_view() =~= prev.push(rest));
        assert(parts.deep_view() =~= prev + split_on(rest, sep));
        assert(parts.deep_view() =~= split_on(s@, sep));
    }
    parts
}

// ---------------------------------------------------------------------------
// Decimal numerals
// ---------------------------------------------------------------------------
pub open spec fn all_digits(s: Seq<char>) -> bool {
    s.len() > 0 && forall|i: int| 0 <= i < s.len() ==> is_digit_char(s[i])
}

pub open spec fn digits_val(s: Seq<char>) -> int
    decreases s.len(),
{
    if s.len() == 0 {
        0
    } else {
        digits_val(s.drop_last()) * 10 + digit_value(s.last())
    }
}

/// The numeral without an optional leading plus sign.
pub open spec fn numeral_body(s: Seq<char>) -> Seq<char> {
    if s.len() > 0 && s[0] == '+' {
        s.skip(1)
    } else {
        s
    }
}

/// What `str::parse::<u64>` accepts on ASCII input: an optional plus sign,
/// then one or more decimal digits, with a value that fits in 64 bits.
pub open spec fn parse_u64_spec(s: Seq<char>) -> Option<u64> {
    let d = numeral_body(s);
    if all_digits(d) && digits_val(d) <= u64::MAX {
        Some(digits_val(d) as u64)
    } else {
        None
    }
}

pub proof fn lemma_digits_val_nonneg(s: Seq<char>)
    requires
        forall|i: int| 0 <= i < s.len() ==> is_digit_char(s[i]),
    ensures
        digits_val(s) >= 0,
    decreases s.len(),
{
    if s.len() > 0 {
        lemma_digits_val_nonneg(s.drop_last());
    }
}

pub proof fn lemma_digits_val_prefix_le(s: Seq<char>, k: int)
    requires
        0 <= k <= s.len(),
        forall|i: int| 0 <= i < s.len() ==> is_digit_char(s[i]),
    ensures
        digits_val(s) >= digits_val(s.subrange(0, k)),
    decreases s.len() - k,
{
    if k == s.len() {
        assert(s.subrange(0, k) =~= s);
    } else {
        lemma_digits_val_prefix_le(s, k + 1);
        let p = s.subrange(0, k + 1);
        assert(p.drop_last() =~= s.subrange(0, k));
        lemma_digits_val_nonneg(s.subrange(0, k));
        assert(digits_val(p) == digits_val(s.subrange(0, k)) * 10 + digit_value(s[k]));
        assert(digits_val(s.subrange(0, k)) * 10 >= digits_val(s.subrange(0, k))) by (nonlinear_arith)
            requires
                digits_val(s.subrange(0, k)) >= 0,
        ;
    }
}

/// Parses a decimal numeral with an optional leading plus sign; `None` on
/// an empty string, any other character, or 64-bit overflow.
pub fn parse_u64_str(s: &str) -> (r: Option<u64>)
    ensures
        r == parse_u64_spec(s@),
{
    let n = s.unicode_len();
    let start: usize = if n > 0 && s.get_char(0) == '+' {
        1
    } else {
        0
    };
    let ghost d = numeral_body(s@);
    proof {
        assert(d =~= s@.subrange(start as int, n as int));
    }
    if n == start {
        return None;
    }
    let mut acc: u64 = 0;
    let mut i: usize = start;
    while i < n
        invariant
            start <= i <= n,
            n == s@.len(),
            start == 1 || start == 0,
            d == numeral_body(s@),
            d =~= s@.subrange(start as int, n as int),
            forall|j: int| start <= j < i ==> is_digit_char(s@[j]),
            acc as int == digits_val(d.subrange(0, i - start)),
        decreases n - i,
    {
        let c = s.get_char(i);
        let cu = c as u32;
        if cu < '0' as u32 || cu > '9' as u32 {
            proof {
                assert(!is_digit_char(d[i - start]));
            }
            return None;
        }
        let dv = (cu - '0' as u32) as u64;
        proof {
            assert(is_digit_char(s@[i as int]));
            assert(dv as int == digit_value(s@[i as int]));
        }
        if acc > (u64::MAX - dv) / 10 {
            proof {
                assert(acc as int * 10 + dv as int > u64::MAX as int) by (nonlinear_arith)
                    requires
                        acc as int > (u64::MAX as int - dv as int) / 10,
                        0 <= dv as int <= 9,
                        acc as int >= 0,
                ;
                if all_digits(d) {
                    let p = d.subrange(0, i - start + 1);
                    assert(p.drop_last() =~= d.subrange(0, i - start));
                    assert(digits_val(p) == acc as int * 10 + dv as int);
                    lemma_digits_val_prefix_le(d, i - start + 1);
                    assert(digits_val(d) > u64::MAX as int);
                }
            }
            return None;
        }
        proof {
            assert(acc as int * 10 + dv as int <= u64::MAX as int) by (nonlinear_arith)
                requires
                    acc as int <= (u64::MAX as int - dv as int) / 10,
                    0 <= dv as int <= 9,
                    acc as int >= 0,
            ;
            let p = d.subrange(0, i - start + 1);
            assert(p.drop_last() =~= d.subrange(0, i - start));
        }
        acc = acc * 10 + dv;
        i = i + 1;
    }
    proof {
        assert(d.subrange(0, n - start) =~= d);
        assert(all_digits(d));
    }
    Some(acc)
}

// ---------------------------------------------------------------------------
// Decimal formatting
// ---------------------------------------------------------------------------
pub open spec fn dec_digit_char(n: int) -> char {
    if n == 0 {
        '0'
    } else if n == 1 {
        '1'
    } else if n == 2 {
        '2'
    } else if n == 3 {
        '3'
    } else if n == 4 {
        '4'
    } else if n == 5 {
        '5'
    } else if n == 6 {
        '6'
    } else if n == 7 {
        '7'
    } else if n == 8 {
        '8'
    } else {
        '9'
    }
}

/// The decimal numeral of `n` without leading zeros (a single zero for 0).
pub open spec fn dec_str(n: int) -> Seq<char>
    recommends
        n >= 0,
    decreases n,
{
    if n < 10 {
        seq![dec_digit_char(n)]
    } else {
        dec_str(n / 10).push(dec_digit_char(n % 10))
    }
}

fn digit_str(d: u64) -> (s: &'static str)
    requires
        d < 10,
    ensures
        s@ =~= seq![dec_digit_char(d as int)],
{
    proof {
        reveal_strlit("0");
        reveal_strlit("1");
        reveal_strlit("2");
        reveal_strlit("3");
        reveal_strlit("4");
        reveal_strlit("5");
        reveal_strlit("6");
        reveal_strlit("7");
        reveal_strlit("8");
        reveal_strlit("9");
    }
    match d {
        0 => "0",
        1 => "1",
        2 => "2",
        3 => "3",
        4 => "4",
        5 => "5",
        6 => "6",
        7 => "7",
        8 => "8",
        _ => "9",
    }
}

pub fn fmt_u64(n: u64) -> (s: String)
    ensures
        s@ == dec_str(n as int),
    decreases n,
{
    if n < 10 {
        digit_str(n).to_owned()
    } else {
        let prefix = fmt_u64(n / 10);
        let s = prefix.concat(digit_str(n % 10));
        proof {
            assert(s@ =~= dec_str(n as int));
        }
        s
    }
}

/// The numeral of `n` padded with a leading zero to at least two digits.
pub open spec fn dec2_str(n: int) -> Seq<char>
    recommends
        n >= 0,
{
    if n < 10 {
        seq!['0'] + dec_str(n)
    } else {
        dec_str(n)
    }
}

pub fn fmt_u64_pad2(n: u64) -> (s: String)
    ensures
        s@ == dec2_str(n as int),
{
    if n < 10 {
        proof {
            reveal_strlit("0");
        }
        let s = digit_str(0).to_owned().concat(digit_str(n));
        proof {
            assert(s@ =~= dec2_str(n as int));
        }
        s
    } else {
        fmt_u64(n)
    }
}

// ---------------------------------------------------------------------------
// Comparisons
// ---------------------------------------------------------------------------
pub fn str_eq(a: &str, b: &str) -> (r: bool)
    ensures
        r == (a@ == b@),
{
    let na = a.unicode_len();
    let nb = b.unicode_len();
    if na != nb {
        return false;
    }
    let mut i: usize = 0;
    while i < na
        invariant
            0 <= i <= na,
            na == a@.len(),
            na == b@.len(),
            forall|j: int| 0 <= j < i ==> a@[j] == b@[j],
        decreases na - i,
    {
        if a.get_char(i) != b.get_char(i) {
            return false;
        }
        i = i + 1;
    }
    proof {
        assert(a@ =~= b@);
    }
    true
}

/// `c` equals `l` up to ASCII case, where `l` is already lower case.
pub open spec fn char_lower_eq(c: char, l: char) -> bool {
    c == l || (('A' as int) <= c as int && c as int <= ('Z' as int) && c as int + 32 == l as int)
}

/// `s` equals `lit` after folding ASCII upper-case letters of `s` to lower
/// case; `lit` is expected to be lower case already.
pub open spec fn lower_matches(s: Seq<char>, lit: Seq<char>) -> bool {
    s.len() == lit.len() && forall|i: int| 0 <= i < s.len() ==> char_lower_eq(s[i], lit[i])
}

pub fn eq_ignore_ascii_case(s: &str, lit: &str) -> (r: bool)
    ensures
        r == lower_matches(s@, lit@),
{
    let n = s.unicode_len();
    let nl = lit.unicode_len();
    if n != nl {
        return false;
    }
    let mut i: usize = 0;
    while i < n
        invariant
            0 <= i <= n,
            n == s@.len(),
            n == lit@.len(),
            forall|j: int| 0 <= j < i ==> char_lower_eq(s@[j], lit@[j]),
        decreases n - i,
    {
        let c = s.get_char(i) as u32;
        let l = lit.get_char(i) as u32;
        let same = c == l || (c >= 'A' as u32 && c <= 'Z' as u32 && c + 32 == l);
        if !same {
            return false;
        }
        i = i + 1;
    }
    true
}

} // verus!
