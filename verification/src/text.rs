use vstd::prelude::*;

verus! {

/// Rust's `char::is_whitespace`: the Unicode `White_Space` property.
pub open spec fn is_white(c: char) -> bool {
    let u = c as u32;
    ||| 0x09 <= u <= 0x0D
    ||| u == 0x20
    ||| u == 0x85
    ||| u == 0xA0
    ||| u == 0x1680
    ||| 0x2000 <= u <= 0x200A
    ||| u == 0x2028
    ||| u == 0x2029
    ||| u == 0x202F
    ||| u == 0x205F
    ||| u == 0x3000
}

/// `needle` occurs in `hay` starting at index `i`.
pub open spec fn occurs_at(hay: Seq<char>, needle: Seq<char>, i: int) -> bool {
    &&& 0 <= i
    &&& i + needle.len() <= hay.len()
    &&& hay.subrange(i, i + needle.len()) == needle
}

/// `needle` occurs somewhere in `hay`.
pub open spec fn contains(hay: Seq<char>, needle: Seq<char>) -> bool {
    exists|i: int| occurs_at(hay, needle, i)
}

/// `s` without its leading whitespace.
pub open spec fn trim_start(s: Seq<char>) -> Seq<char>
    decreases s.len(),
{
    if s.len() > 0 && is_white(s[0]) {
        trim_start(s.drop_first())
    } else {
        s
    }
}

/// `s` without its trailing whitespace.
pub open spec fn trim_end(s: Seq<char>) -> Seq<char>
    decreases s.len(),
{
    if s.len() > 0 && is_white(s.last()) {
        trim_end(s.drop_last())
    } else {
        s
    }
}

/// `s` without leading and trailing whitespace.
pub open spec fn trim(s: Seq<char>) -> Seq<char> {
    trim_end(trim_start(s))
}

/// `parts` joined by single spaces, as Rust's `[&str]::join(" ")` does.
pub open spec fn join_spaced(parts: Seq<Seq<char>>) -> Seq<char>
    decreases parts.len(),
{
    if parts.len() == 0 {
        Seq::empty()
    } else if parts.len() == 1 {
        parts[0]
    } else {
        parts[0] + seq![' '] + join_spaced(parts.drop_first())
    }
}

/// The decimal digit of `d`.
pub open spec fn digit(d: nat) -> char {
    ((d % 10) + 48) as char
}

/// `n` written in decimal, without leading zeros.
pub open spec fn decimal(n: nat) -> Seq<char>
    decreases n,
{
    if n < 10 {
        seq![digit(n)]
    } else {
        decimal(n / 10).push(digit(n % 10))
    }
}

/// The views of a sequence of strings.
pub open spec fn views(v: Seq<String>) -> Seq<Seq<char>> {
    v.map_values(|x: String| x@)
}

/// The views of a sequence of string slices.
pub open spec fn str_views(v: Seq<&str>) -> Seq<Seq<char>> {
    v.map_values(|x: &str| x@)
}

/// Whether `c` is whitespace, as Rust's `char::is_whitespace` says.
pub fn is_whitespace(c: char) -> (r: bool)
    ensures
        r == is_white(c),
{
    let u = c as u32;
    (0x09 <= u && u <= 0x0D) || u == 0x20 || u == 0x85 || u == 0xA0 || u == 0x1680 || (0x2000
        <= u && u <= 0x200A) || u == 0x2028 || u == 0x2029 || u == 0x202F || u == 0x205F || u
        == 0x3000
}

/// The characters of `s`.
pub fn chars_of(s: &str) -> (v: Vec<char>)
    ensures
        v@ == s@,
{
    let n = s.unicode_len();
    let mut v: Vec<char> = Vec::new();
    for i in 0..n
        invariant
            n == s@.len(),
            v@ == s@.take(i as int),
    {
        v.push(s.get_char(i));
        assert(v@ =~= s@.take(i + 1));
    }
    assert(v@ =~= s@);
    v
}

/// Whether `needle` occurs in `hay`.
pub fn str_contains(hay: &str, needle: &str) -> (r: bool)
    ensures
        r == contains(hay@, needle@),
{
    let h = chars_of(hay);
    let n = chars_of(needle);
    if n.len() > h.len() {
        assert forall|i: int| !occurs_at(hay@, needle@, i) by {}
        return false;
    }
    let last = h.len() - n.len();
    let mut i: usize = 0;
    while i <= last
        invariant
            h@ == hay@,
            n@ == needle@,
            n.len() <= h.len(),
            last == h.len() - n.len(),
            forall|p: int| 0 <= p < i ==> !occurs_at(hay@, needle@, p),
        decreases last + 1 - i,
    {
        let mut j: usize = 0;
        let mut matched = true;
        while j < n.len()
            invariant_except_break
                matched,
            invariant
                h@ == hay@,
                n@ == needle@,
                i <= last,
                last == h.len() - n.len(),
                j <= n.len(),
                forall|q: int| 0 <= q < j ==> h@[i + q] == n@[q],
            ensures
                matched ==> j == n.len(),
                !matched ==> j < n.len() && h@[i + j] != n@[j as int],
            decreases n.len() - j,
        {
            if h[i + j] != n[j] {
                matched = false;
                break;
            }
            j = j + 1;
        }
        if matched {
            assert(hay@.subrange(i as int, i + needle@.len()) =~= needle@);
            assert(occurs_at(hay@, needle@, i as int));
            return true;
        }
        assert(!occurs_at(hay@, needle@, i as int)) by {
            if occurs_at(hay@, needle@, i as int) {
                assert(hay@.subrange(i as int, i + needle@.len())[j as int] == h@[i + j]);
            }
        }
        i = i + 1;
    }
    assert forall|p: int| !occurs_at(hay@, needle@, p) by {
        if p > last {
        }
    }
    false
}

proof fn lemma_trim_start(s: Seq<char>, i: int)
    requires
        0 <= i <= s.len(),
        forall|k: int| 0 <= k < i ==> is_white(#[trigger] s[k]),
        i == s.len() || !is_white(s[i]),
    ensures
        trim_start(s) == s.skip(i),
    decreases i,
{
    if i == 0 {
        assert(s.skip(0) =~= s);
    } else {
        let t = s.drop_first();
        assert forall|k: int| 0 <= k < i - 1 implies is_white(#[trigger] t[k]) by {
            assert(t[k] == s[k + 1]);
        }
        lemma_trim_start(t, i - 1);
        assert(t.skip(i - 1) =~= s.skip(i));
    }
}

proof fn lemma_trim_end(s: Seq<char>, j: int)
    requires
        0 <= j <= s.len(),
        forall|k: int| j <= k < s.len() ==> is_white(#[trigger] s[k]),
        j == 0 || !is_white(s[j - 1]),
    ensures
        trim_end(s) == s.take(j),
    decreases s.len() - j,
{
    if j == s.len() {
        assert(s.take(j) =~= s);
    } else {
        let t = s.drop_last();
        assert forall|k: int| j <= k < t.len() implies is_white(#[trigger] t[k]) by {
            assert(t[k] == s[k]);
        }
        lemma_trim_end(t, j);
        assert(t.take(j) =~= s.take(j));
    }
}

/// `s` without leading and trailing whitespace, as Rust's `str::trim` gives it.
pub fn str_trim(s: &str) -> (r: &str)
    ensures
        r@ == trim(s@),
{
    let v = chars_of(s);
    let n = v.len();
    let mut start: usize = 0;
    while start < n && is_whitespace(v[start])
        invariant
            v@ == s@,
            n == v@.len(),
            start <= n,
            forall|k: int| 0 <= k < start ==> is_white(#[trigger] v@[k]),
        decreases n - start,
    {
        start = start + 1;
    }
    let mut end: usize = n;
    while end > start && is_whitespace(v[end - 1])
        invariant
            v@ == s@,
            n == v@.len(),
            start <= end <= n,
            forall|k: int| end <= k < n ==> is_white(#[trigger] v@[k]),
        decreases end - start,
    {
        end = end - 1;
    }
    proof {
        lemma_trim_start(s@, start as int);
        let t = s@.skip(start as int);
        assert forall|k: int| end - start <= k < t.len() implies is_white(#[trigger] t[k]) by {
            assert(t[k] == s@[k + start]);
        }
        if end > start {
            assert(t[end - start - 1] == s@[end - 1]);
        }
        lemma_trim_end(t, end - start);
        assert(t.take(end - start) =~= s@.subrange(start as int, end as int));
    }
    s.substring_char(start, end)
}

/// `parts` joined by single spaces.
pub fn join_with_spaces(parts: &[&str]) -> (r: String)
    ensures
        r@ == join_spaced(str_views(parts@)),
{
    let n = parts.len();
    if n == 0 {
        return String::new();
    }
    let mut i: usize = n - 1;
    let mut out = String::from_str(parts[i]);
    assert(str_views(parts@).skip(i as int) =~= seq![parts@[i as int]@]);
    while i > 0
        invariant
            n == parts@.len(),
            i < n,
            out@ == join_spaced(str_views(parts@).skip(i as int)),
        decreases i,
    {
        i = i - 1;
        let mut next = String::from_str(parts[i]);
        next.append(" ");
        next.append(out.as_str());
        proof {
            reveal_strlit(" ");
            let tail = str_views(parts@).skip(i as int);
            assert(tail.drop_first() =~= str_views(parts@).skip(i + 1));
            assert(tail[0] == parts@[i as int]@);
        }
        out = next;
    }
    assert(str_views(parts@).skip(0) =~= str_views(parts@));
    out
}

fn digit_str(d: u64) -> (r: &'static str)
    requires
        d < 10,
    ensures
        r@ == seq![digit(d as nat)],
{
    if d == 0 {
        proof { reveal_strlit("0"); }
        "0"
    } else if d == 1 {
        proof { reveal_strlit("1"); }
        "1"
    } else if d == 2 {
        proof { reveal_strlit("2"); }
        "2"
    } else if d == 3 {
        proof { reveal_strlit("3"); }
        "3"
    } else if d == 4 {
        proof { reveal_strlit("4"); }
        "4"
    } else if d == 5 {
        proof { reveal_strlit("5"); }
        "5"
    } else if d == 6 {
        proof { reveal_strlit("6"); }
        "6"
    } else if d == 7 {
        proof { reveal_strlit("7"); }
        "7"
    } else if d == 8 {
        proof { reveal_strlit("8"); }
        "8"
    } else {
        proof { reveal_strlit("9"); }
        "9"
    }
}

/// `n` written in decimal, as Rust's `Display` writes an unsigned integer.
pub fn decimal_string(n: u64) -> (r: String)
    ensures
        r@ == decimal(n as nat),
    decreases n,
{
    if n < 10 {
        String::from_str(digit_str(n))
    } else {
        let mut s = decimal_string(n / 10);
        s.append(digit_str(n % 10));
        s
    }
}

/// Law: a text holds every piece it is made of: `needle` occurs in
/// `before + needle + after`, right after `before`.
pub proof fn lemma_contains_within(before: Seq<char>, needle: Seq<char>, after: Seq<char>)
    ensures
        contains(before + needle + after, needle),
        occurs_at(before + needle + after, needle, before.len() as int),
{
    let s = before + needle + after;
    assert(s.subrange(before.len() as int, before.len() + needle.len() as int) =~= needle);
    assert(occurs_at(s, needle, before.len() as int));
}

/// Law: a text cannot hold a piece longer than itself.
pub proof fn lemma_contains_too_long(hay: Seq<char>, needle: Seq<char>)
    requires
        needle.len() > hay.len(),
    ensures
        !contains(hay, needle),
{
}

/// Law: trimming removes only whitespace, and all of it at both ends: the
/// result is the part of `s` between a run of leading whitespace and a run
/// of trailing whitespace, and it neither starts nor ends with whitespace.
pub proof fn lemma_trim_shape(s: Seq<char>)
    ensures
        exists|i: int, j: int|
            {
                &&& 0 <= i <= j <= s.len()
                &&& trim(s) == s.subrange(i, j)
                &&& forall|k: int| 0 <= k < i ==> is_white(#[trigger] s[k])
                &&& forall|k: int| j <= k < s.len() ==> is_white(#[trigger] s[k])
            },
        trim(s).len() > 0 ==> !is_white(trim(s)[0]) && !is_white(trim(s).last()),
{
    let i = leading_white(s);
    lemma_leading_white(s);
    lemma_trim_start(s, i);
    let t = s.skip(i);
    let j = t.len() - trailing_white(t);
    lemma_trailing_white(t);
    assert forall|k: int| j <= k < t.len() implies is_white(#[trigger] t[k]) by {}
    lemma_trim_end(t, j);
    assert(t.take(j) =~= s.subrange(i, i + j));
    assert forall|k: int| i + j <= k < s.len() implies is_white(#[trigger] s[k]) by {
        assert(s[k] == t[k - i]);
    }
    assert(trim(s) == s.subrange(i, i + j));
    if trim(s).len() > 0 {
        assert(trim(s)[0] == s[i]);
        assert(trim(s).last() == t[j - 1]);
    }
}

spec fn leading_white(s: Seq<char>) -> int
    decreases s.len(),
{
    if s.len() > 0 && is_white(s[0]) {
        1 + leading_white(s.drop_first())
    } else {
        0
    }
}

proof fn lemma_leading_white(s: Seq<char>)
    ensures
        0 <= leading_white(s) <= s.len(),
        forall|k: int| 0 <= k < leading_white(s) ==> is_white(#[trigger] s[k]),
        leading_white(s) < s.len() ==> !is_white(s[leading_white(s)]),
    decreases s.len(),
{
    if s.len() > 0 && is_white(s[0]) {
        let r = s.drop_first();
        lemma_leading_white(r);
        assert forall|k: int| 0 <= k < leading_white(s) implies is_white(#[trigger] s[k]) by {
            if k > 0 {
                assert(s[k] == r[k - 1]);
            }
        }
        if leading_white(s) < s.len() {
            assert(s[leading_white(s)] == r[leading_white(r)]);
        }
    }
}

spec fn trailing_white(s: Seq<char>) -> int
    decreases s.len(),
{
    if s.len() > 0 && is_white(s.last()) {
        1 + trailing_white(s.drop_last())
    } else {
        0
    }
}

proof fn lemma_trailing_white(s: Seq<char>)
    ensures
        0 <= trailing_white(s) <= s.len(),
        forall|k: int| s.len() - trailing_white(s) <= k < s.len() ==> is_white(#[trigger] s[k]),
        trailing_white(s) < s.len() ==> !is_white(s[s.len() - trailing_white(s) - 1]),
    decreases s.len(),
{
    if s.len() > 0 && is_white(s.last()) {
        let r = s.drop_last();
        lemma_trailing_white(r);
        assert forall|k: int| s.len() - trailing_white(s) <= k < s.len() implies is_white(#[trigger] s[k]) by {
            if k < s.len() - 1 {
                assert(s[k] == r[k]);
            }
        }
        if trailing_white(s) < s.len() {
            assert(s[s.len() - trailing_white(s) - 1] == r[r.len() - trailing_white(r) - 1]);
        }
    }
}

/// The number that a string of decimal digits writes.
pub open spec fn digits_value(s: Seq<char>) -> int
    decreases s.len(),
{
    if s.len() == 0 {
        0
    } else {
        10 * digits_value(s.drop_last()) + (s.last() as int - 48)
    }
}

/// Law: `decimal` writes `n` with decimal digits only, reads back as `n`,
/// and starts with a zero only when it is `0` itself.
pub proof fn lemma_decimal(n: nat)
    ensures
        digits_value(decimal(n)) == n,
        forall|k: int| 0 <= k < decimal(n).len() ==> 48 <= #[trigger] (decimal(n)[k] as int) <= 57,
        decimal(n).len() > 0,
        decimal(n)[0] == '0' ==> n == 0,
    decreases n,
{
    assert(digit(n) as int == n % 10 + 48);
    if n < 10 {
        assert(decimal(n) == seq![digit(n)]);
        assert(decimal(n).drop_last() =~= Seq::<char>::empty());
        assert(digits_value(Seq::<char>::empty()) == 0);
        assert(n % 10 == n);
        assert(digits_value(decimal(n)) == 10 * digits_value(decimal(n).drop_last()) + (decimal(n).last() as int - 48));
    } else {
        lemma_decimal(n / 10);
        let d = decimal(n / 10);
        assert(decimal(n).drop_last() =~= d);
        assert(decimal(n).last() == digit(n % 10));
        assert(digit(n % 10) as int == n % 10 + 48);
        assert(digits_value(decimal(n)) == 10 * digits_value(d) + (digit(n % 10) as int - 48));
        assert(n == 10 * (n / 10) + n % 10) by (nonlinear_arith);
        assert forall|k: int| 0 <= k < decimal(n).len() implies 48 <= #[trigger] (decimal(n)[k] as int) <= 57 by {
            if k < d.len() {
                assert(decimal(n)[k] == d[k]);
            }
        }
        assert(decimal(n)[0] == d[0]);
    }
}

} // verus!
