//! Character-level helpers on strings: trimming, whitespace tests and
//! comma joining, each stated over the string's character sequence.
use vstd::prelude::*;

verus! {

/// Unicode `White_Space` property, the set that `char::is_whitespace`
/// and `str::trim` go by.
pub open spec fn is_unicode_whitespace(c: char) -> bool {
    let u = c as u32;
    ||| (0x09 <= u && u <= 0x0d)
    ||| u == 0x20
    ||| u == 0x85
    ||| u == 0xa0
    ||| u == 0x1680
    ||| (0x2000 <= u && u <= 0x200a)
    ||| u == 0x2028
    ||| u == 0x2029
    ||| u == 0x202f
    ||| u == 0x205f
    ||| u == 0x3000
}

/// Whether `c` is Unicode whitespace.
pub fn is_whitespace_char(c: char) -> (r: bool)
    ensures
        r == is_unicode_whitespace(c),
{
    let u = c as u32;
    (0x09 <= u && u <= 0x0d) || u == 0x20 || u == 0x85 || u == 0xa0 || u == 0x1680 || (0x2000
        <= u && u <= 0x200a) || u == 0x2028 || u == 0x2029 || u == 0x202f || u == 0x205f || u
        == 0x3000
}

/// The characters of `s`, one by one.
pub fn str_chars(s: &str) -> (v: Vec<char>)
    ensures
        v@ == s@,
{
    let n = s.unicode_len();
    let mut v: Vec<char> = Vec::new();
    let mut i: usize = 0;
    while i < n
        invariant
            n == s@.len(),
            i <= n,
            v@ == s@.subrange(0, i as int),
        decreases n - i,
    {
        let c = s.get_char(i);
        v.push(c);
        i = i + 1;
        assert(v@ =~= s@.subrange(0, i as int));
    }
    assert(v@ =~= s@);
    v
}


/// `s` without its leading whitespace.
pub open spec fn trim_start(s: Seq<char>) -> Seq<char>
    decreases s.len(),
{
    if s.len() > 0 && is_unicode_whitespace(s[0]) {
        trim_start(s.drop_first())
    } else {
        s
    }
}

/// `s` without its trailing whitespace.
pub open spec fn trim_end(s: Seq<char>) -> Seq<char>
    decreases s.len(),
{
    if s.len() > 0 && is_unicode_whitespace(s.last()) {
        trim_end(s.drop_last())
    } else {
        s
    }
}

/// `s` without leading and trailing whitespace, as `str::trim` gives it.
pub open spec fn trim(s: Seq<char>) -> Seq<char> {
    trim_end(trim_start(s))
}

/// Whether some character of `s` is whitespace.
pub open spec fn has_whitespace(s: Seq<char>) -> bool {
    exists|i: int| 0 <= i < s.len() && is_unicode_whitespace(#[trigger] s[i])
}

proof fn lemma_trim_start_skip(s: Seq<char>, i: int)
    requires
        0 <= i < s.len(),
        is_unicode_whitespace(s[i]),
    ensures
        trim_start(s.subrange(i, s.len() as int)) == trim_start(s.subrange(i + 1, s.len() as int)),
{
    assert(s.subrange(i, s.len() as int).drop_first() =~= s.subrange(i + 1, s.len() as int));
}

proof fn lemma_trim_end_skip(s: Seq<char>, lo: int, hi: int)
    requires
        0 <= lo < hi <= s.len(),
        is_unicode_whitespace(s[hi - 1]),
    ensures
        trim_end(s.subrange(lo, hi)) == trim_end(s.subrange(lo, hi - 1)),
{
    assert(s.subrange(lo, hi).drop_last() =~= s.subrange(lo, hi - 1));
}

/// `s` with leading and trailing whitespace removed.
pub fn trim_str(s: &str) -> (r: String)
    ensures
        r@ == trim(s@),
{
    let v = str_chars(s);
    let n = v.len();
    let mut lo: usize = 0;
    assert(s@.subrange(0, n as int) =~= s@);
    while lo < n && is_whitespace_char(v[lo])
        invariant
            v@ == s@,
            n == v@.len(),
            lo <= n,
            trim_start(s@) == trim_start(s@.subrange(lo as int, n as int)),
        decreases n - lo,
    {
        proof {
            lemma_trim_start_skip(s@, lo as int);
        }
        lo = lo + 1;
    }
    assert(trim_start(s@.subrange(lo as int, n as int)) == s@.subrange(lo as int, n as int));
    let mut hi: usize = n;
    while hi > lo && is_whitespace_char(v[hi - 1])
        invariant
            v@ == s@,
            n == v@.len(),
            lo <= hi <= n,
            trim(s@) == trim_end(s@.subrange(lo as int, hi as int)),
        decreases hi,
    {
        proof {
            lemma_trim_end_skip(s@, lo as int, hi as int);
        }
        hi = hi - 1;
    }
    let t = s.substring_char(lo, hi);
    String::from_str(t)
}

/// Whether some character of `s` is whitespace.
pub fn contains_whitespace(s: &str) -> (r: bool)
    ensures
        r == has_whitespace(s@),
{
    let v = str_chars(s);
    let mut i: usize = 0;
    while i < v.len()
        invariant
            v@ == s@,
            i <= v@.len(),
            forall|j: int| 0 <= j < i ==> !is_unicode_whitespace(#[trigger] s@[j]),
        decreases v.len() - i,
    {
        if is_whitespace_char(v[i]) {
            return true;
        }
        i = i + 1;
    }
    false
}


/// Each value trimmed, blank ones left out, order kept.
pub open spec fn trimmed_nonblank(values: Seq<Seq<char>>) -> Seq<Seq<char>>
    decreases values.len(),
{
    if values.len() == 0 {
        Seq::empty()
    } else {
        let rest = trimmed_nonblank(values.drop_last());
        let t = trim(values.last());
        if t.len() > 0 {
            rest.push(t)
        } else {
            rest
        }
    }
}

/// The values of `values` trimmed, blank ones left out, order kept.
pub fn trim_nonblank_values(values: &Vec<String>) -> (r: Vec<String>)
    ensures
        r.deep_view() == trimmed_nonblank(values.deep_view()),
{
    let mut out: Vec<String> = Vec::new();
    let mut i: usize = 0;
    while i < values.len()
        invariant
            i <= values.len(),
            out.deep_view() == trimmed_nonblank(values.deep_view().subrange(0, i as int)),
        decreases values.len() - i,
    {
        let t = trim_str(values[i].as_str());
        if !t.as_str().is_empty() {
            out.push(t);
        }
        proof {
            let sub = values.deep_view().subrange(0, i + 1);
            assert(sub.drop_last() =~= values.deep_view().subrange(0, i as int));
            assert(sub.last() == values[i as int]@);
            assert(out.deep_view() =~= trimmed_nonblank(sub));
        }
        i = i + 1;
    }
    assert(values.deep_view().subrange(0, values.len() as int) =~= values.deep_view());
    out
}

/// The values joined with `sep` between neighbours.
pub open spec fn join_with(values: Seq<Seq<char>>, sep: Seq<char>) -> Seq<char>
    decreases values.len(),
{
    if values.len() == 0 {
        Seq::empty()
    } else if values.len() == 1 {
        values[0]
    } else {
        join_with(values.drop_last(), sep) + sep + values.last()
    }
}


/// The values joined with commas.
pub fn join_comma(values: &Vec<String>) -> (r: String)
    ensures
        r@ == join_with(values.deep_view(), seq![',']),
{
    let mut out = String::new();
    let mut i: usize = 0;
    proof {
        reveal_strlit(",");
    }
    while i < values.len()
        invariant
            i <= values.len(),
            out@ == join_with(values.deep_view().subrange(0, i as int), seq![',']),
            ","@ == seq![','],
        decreases values.len() - i,
    {
        let ghost sub = values.deep_view().subrange(0, i + 1);
        if i > 0 {
            out.append(",");
        }
        out.append(values[i].as_str());
        proof {
            assert(sub.drop_last() =~= values.deep_view().subrange(0, i as int));
            if i == 0 {
                assert(out@ =~= values[0]@);
            }
        }
        i = i + 1;
    }
    assert(values.deep_view().subrange(0, values.len() as int) =~= values.deep_view());
    out
}


/// A copy of `s`.
pub fn clone_opt_string(s: &Option<String>) -> (r: Option<String>)
    ensures
        r == *s,
{
    match s {
        Some(v) => Some(v.clone()),
        None => None,
    }
}

/// A copy of `v`.
pub fn clone_strings(v: &Vec<String>) -> (r: Vec<String>)
    ensures
        r@ == v@,
{
    let mut out: Vec<String> = Vec::new();
    let mut i: usize = 0;
    while i < v.len()
        invariant
            i <= v.len(),
            out@ == v@.subrange(0, i as int),
        decreases v.len() - i,
    {
        out.push(v[i].clone());
        i = i + 1;
        assert(out@ =~= v@.subrange(0, i as int));
    }
    assert(out@ =~= v@);
    out
}

/// A copy of `v`.
pub fn clone_opt_strings(v: &Option<Vec<String>>) -> (r: Option<Vec<String>>)
    ensures
        r == *v || (r is Some && v is Some && r->0@ == v->0@),
        r is Some <==> v is Some,
{
    match v {
        Some(x) => Some(clone_strings(x)),
        None => None,
    }
}

/// A copy of `v`.
pub fn clone_i64s(v: &Vec<i64>) -> (r: Vec<i64>)
    ensures
        r@ == v@,
{
    let mut out: Vec<i64> = Vec::new();
    let mut i: usize = 0;
    while i < v.len()
        invariant
            i <= v.len(),
            out@ == v@.subrange(0, i as int),
        decreases v.len() - i,
    {
        out.push(v[i]);
        i = i + 1;
        assert(out@ =~= v@.subrange(0, i as int));
    }
    assert(out@ =~= v@);
    out
}

/// `s` trimmed, or `None` when nothing is left or there is no `s`.
pub open spec fn trimmed_nonblank_opt(s: Option<Seq<char>>) -> Option<Seq<char>> {
    match s {
        Some(v) => if trim(v).len() > 0 { Some(trim(v)) } else { None },
        None => None,
    }
}

pub open spec fn opt_string_view(s: Option<String>) -> Option<Seq<char>> {
    match s {
        Some(v) => Some(v@),
        None => None,
    }
}

/// `s` trimmed, or `None` when nothing is left or there is no `s`.
pub fn normalize_optional_string(s: &Option<String>) -> (r: Option<String>)
    ensures
        opt_string_view(r) == trimmed_nonblank_opt(opt_string_view(*s)),
{
    match s {
        Some(v) => {
            let t = trim_str(v.as_str());
            if t.as_str().is_empty() {
                None
            } else {
                Some(t)
            }
        },
        None => None,
    }
}


/// Normalized values are each a trimmed input value, never blank, and no
/// more numerous than the inputs.
pub proof fn law_trimmed_nonblank_shape(values: Seq<Seq<char>>)
    ensures
        trimmed_nonblank(values).len() <= values.len(),
        forall|i: int| 0 <= i < trimmed_nonblank(values).len() ==> (#[trigger] trimmed_nonblank(values)[i]).len() > 0,
        forall|i: int| 0 <= i < trimmed_nonblank(values).len() ==> exists|j: int| 0 <= j < values.len()
            && #[trigger] trimmed_nonblank(values)[i] == trim(values[j]),
    decreases values.len(),
{
    if values.len() > 0 {
        let init = values.drop_last();
        law_trimmed_nonblank_shape(init);
        let rest = trimmed_nonblank(init);
        assert forall|i: int| 0 <= i < trimmed_nonblank(values).len() implies exists|j: int| 0 <= j < values.len()
            && #[trigger] trimmed_nonblank(values)[i] == trim(values[j]) by {
            if i < rest.len() {
                let j = choose|j: int| 0 <= j < init.len() && rest[i] == trim(init[j]);
                assert(init[j] == values[j]);
            } else {
                assert(trimmed_nonblank(values)[i] == trim(values[values.len() - 1]));
            }
        }
    }
}

/// Normalizing keeps the order: values already trimmed and non-blank come
/// back unchanged.
pub proof fn law_trimmed_nonblank_keeps_clean(values: Seq<Seq<char>>)
    requires
        forall|i: int| 0 <= i < values.len() ==> trim(#[trigger] values[i]) == values[i] && values[i].len() > 0,
    ensures
        trimmed_nonblank(values) == values,
    decreases values.len(),
{
    if values.len() > 0 {
        let init = values.drop_last();
        assert forall|i: int| 0 <= i < init.len() implies trim(#[trigger] init[i]) == init[i] && init[i].len() > 0 by {
            assert(init[i] == values[i]);
        }
        law_trimmed_nonblank_keeps_clean(init);
        assert(values =~= init.push(values.last()));
    }
}

/// The decimal digit `d`.
pub open spec fn digit_text(d: nat) -> Seq<char> {
    if d == 0 {
        "0"@
    } else if d == 1 {
        "1"@
    } else if d == 2 {
        "2"@
    } else if d == 3 {
        "3"@
    } else if d == 4 {
        "4"@
    } else if d == 5 {
        "5"@
    } else if d == 6 {
        "6"@
    } else if d == 7 {
        "7"@
    } else if d == 8 {
        "8"@
    } else {
        "9"@
    }
}

/// The decimal digits of `n`, most significant first, without leading zeros.
pub open spec fn decimal_digits(n: nat) -> Seq<char>
    decreases n,
{
    if n < 10 {
        digit_text(n)
    } else {
        decimal_digits(n / 10) + digit_text(n % 10)
    }
}

/// How `i64`'s `Display` writes `v`: a minus sign before negative values.
pub open spec fn decimal_i64(v: i64) -> Seq<char> {
    if v < 0 {
        "-"@ + decimal_digits((-v) as nat)
    } else {
        decimal_digits(v as nat)
    }
}

fn digit_str(d: u64) -> (r: &'static str)
    requires
        d < 10,
    ensures
        r@ == digit_text(d as nat),
{
    match d {
        0 => "0",
        1 => "1",
        2 => "2",
        3 => "3",
        4 => "4",
        5 => "5",
        6 => "6",
        7 => "7",
        8 => "8",
        _ => "9",
    }
}

fn append_digits(out: &mut String, n: u64)
    ensures
        final(out)@ == old(out)@ + decimal_digits(n as nat),
    decreases n,
{
    if n >= 10 {
        append_digits(out, n / 10);
    }
    out.append(digit_str(n % 10));
}

/// `v` written in decimal.
pub fn i64_to_decimal(v: i64) -> (r: String)
    ensures
        r@ == decimal_i64(v),
{
    let mut out = String::new();
    if v < 0 {
        out.append("-");
        let magnitude: u64 = (-(v as i128)) as u64;
        append_digits(&mut out, magnitude);
    } else {
        append_digits(&mut out, v as u64);
    }
    out
}

} // verus!
