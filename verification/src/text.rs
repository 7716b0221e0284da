//! Text helpers: comparing, splitting and writing numbers.
use vstd::prelude::*;
use vstd::string::StringSliceAdditionalSpecFns;

verus! {

/// The character of a decimal digit.
pub open spec fn digit_char(d: int) -> char {
    if d == 0 {
        '0'
    } else if d == 1 {
        '1'
    } else if d == 2 {
        '2'
    } else if d == 3 {
        '3'
    } else if d == 4 {
        '4'
    } else if d == 5 {
        '5'
    } else if d == 6 {
        '6'
    } else if d == 7 {
        '7'
    } else if d == 8 {
        '8'
    } else {
        '9'
    }
}

/// The decimal digits of a natural number, most significant first.
pub open spec fn spec_nat_decimal(n: nat) -> Seq<char>
    decreases n,
{
    if n < 10 {
        seq![digit_char(n as int)]
    } else {
        spec_nat_decimal(n / 10).push(digit_char((n % 10) as int))
    }
}

/// An integer written in decimal, with a leading `-` when negative.
pub open spec fn spec_decimal(n: int) -> Seq<char> {
    if n < 0 {
        seq!['-'] + spec_nat_decimal((-n) as nat)
    } else {
        spec_nat_decimal(n as nat)
    }
}

fn digit_str(d: u32) -> (r: &'static str)
    requires
        d < 10,
    ensures
        r@ == seq![digit_char(d as int)],
{
    proof {
        reveal_strlit("0");
        reveal_strlit("1");
        reveal_strlit("2");
        reveal_strlit("3");
        reveal_strlit("4");
        reveal_strlit("5");
        reveal_strlit("6");
        reveal_strlit("7");
        reveal_strlit("8");
        reveal_strlit("9");
    }
    if d == 0 {
        "0"
    } else if d == 1 {
        "1"
    } else if d == 2 {
        "2"
    } else if d == 3 {
        "3"
    } else if d == 4 {
        "4"
    } else if d == 5 {
        "5"
    } else if d == 6 {
        "6"
    } else if d == 7 {
        "7"
    } else if d == 8 {
        "8"
    } else {
        "9"
    }
}

fn nat_decimal(n: u32) -> (r: String)
    ensures
        r@ == spec_nat_decimal(n as nat),
    decreases n,
{
    if n < 10 {
        String::from_str(digit_str(n))
    } else {
        let head = nat_decimal(n / 10);
        head.concat(digit_str(n % 10))
    }
}

/// A coordinate written in decimal.
pub fn decimal(n: i16) -> (r: String)
    ensures
        r@ == spec_decimal(n as int),
{
    if n < 0 {
        proof {
            reveal_strlit("-");
        }
        let digits = nat_decimal((-(n as i32)) as u32);
        String::from_str("-").concat(digits.as_str())
    } else {
        nat_decimal(n as u32)
    }
}

/// Whether two texts hold the same characters.
pub fn str_eq(a: &str, b: &str) -> (r: bool)
    ensures
        r == (a@ == b@),
{
    let n = a.unicode_len();
    if n != b.unicode_len() {
        return false;
    }
    let mut i: usize = 0;
    while i < n
        invariant
            n == a@.len(),
            n == b@.len(),
            i <= n,
            forall|j: int| 0 <= j < i ==> a@[j] == b@[j],
        decreases n - i,
    {
        if a.get_char(i) != b.get_char(i) {
            return false;
        }
        i = i + 1;
    }
    assert(a@ =~= b@);
    true
}

/// Whether `needle` occurs in `hay` at position `i`.
pub open spec fn occurs_at(hay: Seq<char>, needle: Seq<char>, i: int) -> bool {
    0 <= i && i + needle.len() <= hay.len() && hay.subrange(i, i + needle.len()) == needle
}

/// Whether `needle` occurs in `hay`.
pub open spec fn spec_contains(hay: Seq<char>, needle: Seq<char>) -> bool {
    exists|i: int| occurs_at(hay, needle, i)
}

fn occurs_at_exec(hay: &str, needle: &str, i: usize, hn: usize, nn: usize) -> (r: bool)
    requires
        hn == hay@.len(),
        nn == needle@.len(),
        i + nn <= hn,
    ensures
        r == occurs_at(hay@, needle@, i as int),
{
    let mut j: usize = 0;
    while j < nn
        invariant
            hn == hay@.len(),
            nn == needle@.len(),
            i + nn <= hn,
            j <= nn,
            forall|k: int| 0 <= k < j ==> hay@[i + k] == needle@[k],
        decreases nn - j,
    {
        if hay.get_char(i + j) != needle.get_char(j) {
            assert(hay@.subrange(i as int, i + nn)[j as int] != needle@[j as int]);
            return false;
        }
        j = j + 1;
    }
    assert(hay@.subrange(i as int, i + nn) =~= needle@);
    true
}

/// Whether `needle` occurs in `hay`.
pub fn contains_text(hay: &str, needle: &str) -> (r: bool)
    ensures
        r == spec_contains(hay@, needle@),
{
    let hn = hay.unicode_len();
    let nn = needle.unicode_len();
    if nn > hn {
        return false;
    }
    let last = hn - nn;
    let mut i: usize = 0;
    while i < last
        invariant
            hn == hay@.len(),
            nn == needle@.len(),
            last == hn - nn,
            i <= last,
            forall|k: int| 0 <= k < i ==> !occurs_at(hay@, needle@, k),
        decreases last - i,
    {
        if occurs_at_exec(hay, needle, i, hn, nn) {
            return true;
        }
        i = i + 1;
    }
    if occurs_at_exec(hay, needle, last, hn, nn) {
        return true;
    }
    assert forall|k: int| !occurs_at(hay@, needle@, k) by {
        if 0 <= k < i {
        }
    }
    false
}

/// The characters `char::is_whitespace` accepts: the Unicode `White_Space` property.
pub open spec fn is_space(c: char) -> bool {
    let u = c as u32;
    (9 <= u <= 13) || u == 32 || u == 0x85 || u == 0xa0 || u == 0x1680 || (0x2000 <= u <= 0x200a)
        || u == 0x2028 || u == 0x2029 || u == 0x202f || u == 0x205f || u == 0x3000
}

pub fn is_space_exec(c: char) -> (r: bool)
    ensures
        r == is_space(c),
{
    let u = c as u32;
    (9 <= u && u <= 13) || u == 32 || u == 0x85 || u == 0xa0 || u == 0x1680 || (0x2000 <= u && u
        <= 0x200a) || u == 0x2028 || u == 0x2029 || u == 0x202f || u == 0x205f || u == 0x3000
}

/// The words of `s` from position `i` on, where a word separated by white space began at
/// `start` (or none began when `start` is negative).
pub open spec fn words_from(s: Seq<char>, i: int, start: int) -> Seq<Seq<char>>
    decreases s.len() - i,
{
    if i >= s.len() || i < 0 {
        if start >= 0 {
            seq![s.subrange(start, s.len() as int)]
        } else {
            seq![]
        }
    } else if is_space(s[i]) {
        if start >= 0 {
            seq![s.subrange(start, i)] + words_from(s, i + 1, -1)
        } else {
            words_from(s, i + 1, -1)
        }
    } else {
        words_from(s, i + 1, if start >= 0 { start } else { i })
    }
}

/// The words of a text: its longest runs without white space, in order.
pub open spec fn spec_words(s: Seq<char>) -> Seq<Seq<char>> {
    words_from(s, 0, -1)
}

/// The views of a list of texts.
pub open spec fn views(v: Seq<String>) -> Seq<Seq<char>> {
    v.map_values(|x: String| x@)
}

/// The words of a text, as `str::split_whitespace` gives them.
pub fn split_whitespace(s: &str) -> (r: Vec<String>)
    ensures
        views(r@) == spec_words(s@),
{
    let n = s.unicode_len();
    let mut out: Vec<String> = Vec::new();
    let mut i: usize = 0;
    let mut in_word = false;
    let mut start: usize = 0;
    while i < n
        invariant
            n == s@.len(),
            i <= n,
            in_word ==> start < i,
            views(out@) + words_from(s@, i as int, if in_word { start as int } else { -1 })
                == spec_words(s@),
        decreases n - i,
    {
        let c = s.get_char(i);
        let ghost before = views(out@);
        let ghost st = if in_word { start as int } else { -1 };
        if is_space_exec(c) {
            if in_word {
                let w = String::from_str(s.substring_char(start, i));
                out.push(w);
                in_word = false;
                assert(views(out@) =~= before.push(s@.subrange(start as int, i as int)));
                assert(before + words_from(s@, i as int, st) =~= views(out@) + words_from(
                    s@,
                    i + 1,
                    -1,
                ));
            }
        } else {
            if !in_word {
                in_word = true;
                start = i;
            }
        }
        i = i + 1;
    }
    if in_word {
        let ghost before = views(out@);
        let w = String::from_str(s.substring_char(start, n));
        out.push(w);
        assert(views(out@) =~= before.push(s@.subrange(start as int, n as int)));
    } else {
        assert(views(out@) =~= views(out@) + Seq::<Seq<char>>::empty());
    }
    out
}

/// The pieces of `s` from position `i` on, cut at each `sep`, the current piece beginning at `start`.
pub open spec fn pieces_from(s: Seq<char>, sep: Seq<char>, i: int, start: int) -> Seq<Seq<char>>
    decreases s.len() - i,
{
    if i < 0 || i >= s.len() || sep.len() == 0 {
        seq![s.subrange(start, s.len() as int)]
    } else if occurs_at(s, sep, i) {
        seq![s.subrange(start, i)] + pieces_from(s, sep, i + sep.len(), i + sep.len())
    } else {
        pieces_from(s, sep, i + 1, start)
    }
}

/// The pieces of `s` between the occurrences of `sep`, as `str::split` gives them.
pub open spec fn spec_split(s: Seq<char>, sep: Seq<char>) -> Seq<Seq<char>> {
    pieces_from(s, sep, 0, 0)
}

/// The pieces of `s` between the occurrences of a non-empty `sep`.
pub fn split_text(s: &str, sep: &str) -> (r: Vec<String>)
    requires
        sep@.len() > 0,
    ensures
        views(r@) == spec_split(s@, sep@),
{
    let n = s.unicode_len();
    let sn = sep.unicode_len();
    let mut out: Vec<String> = Vec::new();
    let mut i: usize = 0;
    let mut start: usize = 0;
    while i < n
        invariant
            n == s@.len(),
            sn == sep@.len(),
            sn > 0,
            start <= i <= n,
            views(out@) + pieces_from(s@, sep@, i as int, start as int) == spec_split(s@, sep@),
        decreases n - i,
    {
        let ghost before = views(out@);
        if sn <= n - i && occurs_at_exec(s, sep, i, n, sn) {
            let w = String::from_str(s.substring_char(start, i));
            out.push(w);
            assert(views(out@) =~= before.push(s@.subrange(start as int, i as int)));
            assert(before + pieces_from(s@, sep@, i as int, start as int) =~= views(out@)
                + pieces_from(s@, sep@, i + sn, i + sn));
            i = i + sn;
            start = i;
        } else {
            i = i + 1;
        }
    }
    let ghost before = views(out@);
    let w = String::from_str(s.substring_char(start, n));
    out.push(w);
    assert(views(out@) =~= before.push(s@.subrange(start as int, n as int)));
    out
}

/// A text cut at a separator gives at least one piece.
pub proof fn lemma_split_nonempty(s: Seq<char>, sep: Seq<char>, i: int, start: int)
    ensures
        pieces_from(s, sep, i, start).len() > 0,
    decreases s.len() - i,
{
    if i < 0 || i >= s.len() || sep.len() == 0 {
    } else if occurs_at(s, sep, i) {
    } else {
        lemma_split_nonempty(s, sep, i + 1, start);
    }
}

/// The characters after the first, as many as the text has bytes less two; empty for a text
/// of at most two bytes.
pub open spec fn spec_cut_first_last(s: Seq<char>, bytes: int) -> Seq<char> {
    if bytes <= 2 {
        Seq::empty()
    } else {
        let end = if bytes - 1 < s.len() {
            bytes - 1
        } else {
            s.len() as int
        };
        s.subrange(1, end)
    }
}

pub fn cut_first_last_iter(s: &str) -> (r: String)
    ensures
        r@ == spec_cut_first_last(s@, s.len() as int),
{
    let bytes = s.len();
    if bytes <= 2 {
        return String::new();
    }
    let n = s.unicode_len();
    assert(s@.len() >= 1) by {
        if s@.len() == 0 {
            assert(s@ =~= Seq::<char>::empty());
            assert(s.len() == 0);
        }
    }
    let end = if bytes - 1 < n {
        bytes - 1
    } else {
        n
    };
    String::from_str(s.substring_char(1, end))
}

/// The value of a run of decimal digits.
pub open spec fn digits_value(d: Seq<char>) -> int
    decreases d.len(),
{
    if d.len() == 0 {
        0
    } else {
        digits_value(d.drop_last()) * 10 + (d.last() as int - '0' as int)
    }
}

pub open spec fn is_digit(c: char) -> bool {
    '0' <= c <= '9'
}

pub open spec fn all_digits(d: Seq<char>) -> bool {
    forall|i: int| 0 <= i < d.len() ==> is_digit(#[trigger] d[i])
}

/// Whether a text starts with a sign.
pub open spec fn signed(s: Seq<char>) -> bool {
    s.len() > 0 && (s[0] == '-' || s[0] == '+')
}

/// The digits of a text after its sign.
pub open spec fn unsigned_part(s: Seq<char>) -> Seq<char> {
    if signed(s) {
        s.drop_first()
    } else {
        s
    }
}

/// The number a text writes, as `i32::from_str` reads it: an optional sign, then at least one
/// decimal digit, within the range of `i32`.
pub open spec fn spec_parse_i32(s: Seq<char>) -> Option<i32> {
    let d = unsigned_part(s);
    if d.len() == 0 || !all_digits(d) {
        None
    } else {
        let v = if s.len() > 0 && s[0] == '-' {
            -digits_value(d)
        } else {
            digits_value(d)
        };
        if i32::MIN <= v <= i32::MAX {
            Some(v as i32)
        } else {
            None
        }
    }
}

proof fn lemma_digits_value_nonneg(d: Seq<char>)
    requires
        all_digits(d),
    ensures
        digits_value(d) >= 0,
    decreases d.len(),
{
    if d.len() > 0 {
        assert(all_digits(d.drop_last())) by {
            assert forall|i: int| 0 <= i < d.drop_last().len() implies is_digit(
                #[trigger] d.drop_last()[i],
            ) by {
                assert(d.drop_last()[i] == d[i]);
            }
        }
        lemma_digits_value_nonneg(d.drop_last());
        assert(is_digit(d[d.len() - 1]));
    }
}

/// Reads an integer as `i32::from_str` does.
pub fn parse_i32(s: &str) -> (r: Option<i32>)
    ensures
        r == spec_parse_i32(s@),
{
    let n = s.unicode_len();
    let mut start: usize = 0;
    let mut neg = false;
    if n > 0 {
        let c = s.get_char(0);
        if c == '-' {
            neg = true;
            start = 1;
        } else if c == '+' {
            start = 1;
        }
    }
    let ghost d = unsigned_part(s@);
    assert(d =~= s@.subrange(start as int, n as int));
    if start >= n {
        return None;
    }
    let cap: i64 = 0x1_0000_0000;
    let mut acc: i64 = 0;
    let mut i: usize = start;
    while i < n
        invariant
            n == s@.len(),
            start <= i <= n,
            d == s@.subrange(start as int, n as int),
            d == unsigned_part(s@),
            neg == (s@.len() > 0 && s@[0] == '-'),
            all_digits(d.subrange(0, i - start)),
            acc == (if digits_value(d.subrange(0, i - start)) < cap {
                digits_value(d.subrange(0, i - start))
            } else {
                cap as int
            }),
            cap == 0x1_0000_0000,
            0 <= acc <= cap,
        decreases n - i,
    {
        let c = s.get_char(i);
        let ghost pre = d.subrange(0, i - start);
        let ghost next = d.subrange(0, i + 1 - start);
        assert(next.drop_last() =~= pre);
        assert(next.last() == c);
        if c < '0' || c > '9' {
            assert(!all_digits(d)) by {
                assert(d[i - start] == c);
            }
            assert(spec_parse_i32(s@) is None);
            return None;
        }
        proof {
            lemma_digits_value_nonneg(pre);
            assert(all_digits(next)) by {
                assert forall|k: int| 0 <= k < next.len() implies is_digit(#[trigger] next[k]) by {
                    if k < pre.len() {
                        assert(next[k] == pre[k]);
                    }
                }
            }
        }
        let digit = (c as u32 - '0' as u32) as i64;
        if acc < cap {
            let v = acc * 10 + digit;
            acc = if v < cap {
                v
            } else {
                cap
            };
        }
        i = i + 1;
    }
    assert(d.subrange(0, n - start) =~= d);
    let v: i64 = if neg {
        -acc
    } else {
        acc
    };
    if i32::MIN as i64 <= v && v <= i32::MAX as i64 {
        Some(v as i32)
    } else {
        None
    }
}

/// Each word is non-empty and holds no white space.
pub open spec fn all_words(w: Seq<Seq<char>>) -> bool {
    forall|j: int|
        0 <= j < w.len() ==> #[trigger] w[j].len() > 0 && forall|k: int|
            0 <= k < w[j].len() ==> !is_space(#[trigger] w[j][k])
}

proof fn lemma_one_word(s: Seq<char>, start: int, end: int)
    requires
        0 <= start < end <= s.len(),
        forall|k: int| start <= k < end ==> !is_space(#[trigger] s[k]),
    ensures
        all_words(seq![s.subrange(start, end)]),
{
    let w = seq![s.subrange(start, end)];
    assert forall|j: int| 0 <= j < w.len() implies #[trigger] w[j].len() > 0 && forall|k: int|
        0 <= k < w[j].len() ==> !is_space(#[trigger] w[j][k]) by {
        assert forall|k: int| 0 <= k < w[j].len() implies !is_space(#[trigger] w[j][k]) by {
            assert(w[j][k] == s[start + k]);
        }
    }
}

proof fn lemma_words_concat(a: Seq<Seq<char>>, b: Seq<Seq<char>>)
    requires
        all_words(a),
        all_words(b),
    ensures
        all_words(a + b),
{
    let c = a + b;
    assert forall|j: int| 0 <= j < c.len() implies #[trigger] c[j].len() > 0 && forall|k: int|
        0 <= k < c[j].len() ==> !is_space(#[trigger] c[j][k]) by {
        if j < a.len() {
            assert(c[j] == a[j]);
        } else {
            assert(c[j] == b[j - a.len()]);
        }
    }
}

proof fn lemma_words_from(s: Seq<char>, i: int, start: int)
    requires
        0 <= i <= s.len(),
        start >= 0 ==> start < i && forall|k: int| start <= k < i ==> !is_space(#[trigger] s[k]),
    ensures
        all_words(words_from(s, i, start)),
    decreases s.len() - i,
{
    if i >= s.len() {
        if start >= 0 {
            lemma_one_word(s, start, s.len() as int);
        }
    } else if is_space(s[i]) {
        lemma_words_from(s, i + 1, -1);
        if start >= 0 {
            lemma_one_word(s, start, i);
            lemma_words_concat(seq![s.subrange(start, i)], words_from(s, i + 1, -1));
        }
    } else {
        let ns = if start >= 0 {
            start
        } else {
            i
        };
        lemma_words_from(s, i + 1, ns);
        assert(words_from(s, i, start) == words_from(s, i + 1, ns));
    }
}

/// Law: every word of a text is non-empty and holds no white space.
pub proof fn lemma_words_are_words(s: Seq<char>)
    ensures
        all_words(spec_words(s)),
{
    lemma_words_from(s, 0, -1);
}

/// The pieces joined again, with `sep` between each two.
pub open spec fn join(p: Seq<Seq<char>>, sep: Seq<char>) -> Seq<char>
    decreases p.len(),
{
    if p.len() == 0 {
        Seq::empty()
    } else if p.len() == 1 {
        p[0]
    } else {
        p[0] + sep + join(p.drop_first(), sep)
    }
}

proof fn lemma_pieces_join(s: Seq<char>, sep: Seq<char>, i: int, start: int)
    requires
        0 <= start <= i <= s.len(),
    ensures
        join(pieces_from(s, sep, i, start), sep) == s.subrange(start, s.len() as int),
    decreases s.len() - i,
{
    if i < 0 || i >= s.len() || sep.len() == 0 {
    } else if occurs_at(s, sep, i) {
        let j = i + sep.len();
        lemma_pieces_join(s, sep, j, j);
        lemma_split_nonempty(s, sep, j, j);
        let rest = pieces_from(s, sep, j, j);
        let p = seq![s.subrange(start, i)] + rest;
        assert(p.drop_first() =~= rest);
        assert(p.len() > 1);
        assert(s.subrange(start, s.len() as int) =~= s.subrange(start, i) + sep + s.subrange(
            j,
            s.len() as int,
        ));
    } else {
        lemma_pieces_join(s, sep, i + 1, start);
    }
}

/// Law: joining the pieces of a text with the separator it was cut at gives the text back.
pub proof fn lemma_split_join(s: Seq<char>, sep: Seq<char>)
    ensures
        join(spec_split(s, sep), sep) == s,
{
    lemma_pieces_join(s, sep, 0, 0);
    assert(s.subrange(0, s.len() as int) =~= s);
}

proof fn lemma_digit_char(d: int)
    requires
        0 <= d <= 9,
    ensures
        is_digit(digit_char(d)),
        digit_char(d) as int - '0' as int == d,
{
    assert('0' as int == 48);
    assert('1' as int == 49);
    assert('2' as int == 50);
    assert('3' as int == 51);
    assert('4' as int == 52);
    assert('5' as int == 53);
    assert('6' as int == 54);
    assert('7' as int == 55);
    assert('8' as int == 56);
    assert('9' as int == 57);
}

proof fn lemma_nat_decimal(n: nat)
    ensures
        spec_nat_decimal(n).len() > 0,
        all_digits(spec_nat_decimal(n)),
        digits_value(spec_nat_decimal(n)) == n,
    decreases n,
{
    lemma_digit_char((n % 10) as int);
    if n < 10 {
        let d = spec_nat_decimal(n);
        assert(d.drop_last() =~= Seq::<char>::empty());
        assert(digits_value(d.drop_last()) == 0);
    }
    if n >= 10 {
        lemma_nat_decimal(n / 10);
        let pre = spec_nat_decimal(n / 10);
        let d = spec_nat_decimal(n);
        assert(d.drop_last() =~= pre);
        assert forall|i: int| 0 <= i < d.len() implies is_digit(#[trigger] d[i]) by {
            if i < pre.len() {
                assert(d[i] == pre[i]);
            }
        }
    }
}

/// Law: reading a number written in decimal gives the number back.
pub proof fn lemma_parse_decimal(n: i16)
    ensures
        spec_parse_i32(spec_decimal(n as int)) == Some(n as i32),
{
    if n < 0 {
        let m = (-n) as nat;
        lemma_nat_decimal(m);
        let t = seq!['-'] + spec_nat_decimal(m);
        assert(t.drop_first() =~= spec_nat_decimal(m));
        assert(t[0] == '-');
    } else {
        let m = n as nat;
        lemma_nat_decimal(m);
        let t = spec_nat_decimal(m);
        assert(is_digit(t[0]));
    }
}

} // verus!
