//! Text primitives on `&str` and `String`, each specified over the `Seq<char>` view.

use vstd::prelude::*;
use vstd::string::*;

verus! {

/// The Unicode `White_Space` property (PropList.txt): the characters that
/// `char::is_whitespace` accepts and that `str::trim` removes.
pub open spec fn is_white_space(c: char) -> bool {
    let u = c as u32;
    ||| 0x9 <= u <= 0xd
    ||| u == 0x20
    ||| u == 0x85
    ||| u == 0xa0
    ||| u == 0x1680
    ||| 0x2000 <= u <= 0x200a
    ||| u == 0x2028
    ||| u == 0x2029
    ||| u == 0x202f
    ||| u == 0x205f
    ||| u == 0x3000
}

/// Decides `is_white_space`.
pub fn is_white_space_char(c: char) -> (r: bool)
    ensures
        r == is_white_space(c),
{
    let u = c as u32;
    (0x9 <= u && u <= 0xd) || u == 0x20 || u == 0x85 || u == 0xa0 || u == 0x1680 || (0x2000 <= u
        && u <= 0x200a) || u == 0x2028 || u == 0x2029 || u == 0x202f || u == 0x205f || u == 0x3000
}

/// The first index at or after `i` that holds no white space (the length if there is none).
pub open spec fn skip_white_from(s: Seq<char>, i: int) -> int
    decreases s.len() - i,
{
    if i >= s.len() {
        s.len() as int
    } else if is_white_space(s[i]) {
        skip_white_from(s, i + 1)
    } else {
        i
    }
}

/// One past the last index before `j` that holds no white space (0 if there is none).
pub open spec fn trim_end_at(s: Seq<char>, j: int) -> int
    decreases j,
{
    if j <= 0 {
        0
    } else if is_white_space(s[j - 1]) {
        trim_end_at(s, j - 1)
    } else {
        j
    }
}

/// `s` without its leading and trailing white space, as `str::trim` gives it.
pub open spec fn trim(s: Seq<char>) -> Seq<char> {
    let start = skip_white_from(s, 0);
    let end = trim_end_at(s, s.len() as int);
    if start < end {
        s.subrange(start, end)
    } else {
        Seq::empty()
    }
}

fn white_at(s: &str, i: usize, n: usize) -> (r: bool)
    requires
        n == s@.len(),
    ensures
        r == (i < n && is_white_space(s@[i as int])),
{
    if i < n {
        is_white_space_char(s.get_char(i))
    } else {
        false
    }
}

fn white_before(s: &str, j: usize, n: usize) -> (r: bool)
    requires
        n == s@.len(),
        j <= n,
    ensures
        r == (j > 0 && is_white_space(s@[j - 1])),
{
    if j > 0 {
        is_white_space_char(s.get_char(j - 1))
    } else {
        false
    }
}

/// Removes leading and trailing white space.
pub fn trim_str(s: &str) -> (r: &str)
    ensures
        r@ == trim(s@),
{
    let n = s.unicode_len();
    let mut start: usize = 0;
    while white_at(s, start, n)
        invariant
            n == s@.len(),
            start <= n,
            skip_white_from(s@, 0) == skip_white_from(s@, start as int),
        decreases n - start,
    {
        start = start + 1;
    }
    let mut end: usize = n;
    while white_before(s, end, n)
        invariant
            n == s@.len(),
            end <= n,
            trim_end_at(s@, n as int) == trim_end_at(s@, end as int),
        decreases end,
    {
        end = end - 1;
    }
    if start < end {
        s.substring_char(start, end)
    } else {
        let e = s.substring_char(0, 0);
        assert(e@ =~= Seq::<char>::empty());
        e
    }
}

/// Compares two strings by their characters.
pub fn str_eq(a: &str, b: &str) -> (r: bool)
    ensures
        r == (a@ == b@),
{
    let n = a.unicode_len();
    if n != b.unicode_len() {
        return false;
    }
    let mut i: usize = 0;
    while i < n
        invariant
            n == a@.len(),
            n == b@.len(),
            i <= n,
            forall|k: int| 0 <= k < i ==> a@[k] == b@[k],
        decreases n - i,
    {
        if a.get_char(i) != b.get_char(i) {
            return false;
        }
        i = i + 1;
    }
    assert(a@ =~= b@);
    true
}

/// The first index at or after `i` that holds `c`, or -1 where none does.
pub open spec fn find_char_from(s: Seq<char>, c: char, i: int) -> int
    decreases s.len() - i,
{
    if i >= s.len() {
        -1
    } else if s[i] == c {
        i
    } else {
        find_char_from(s, c, i + 1)
    }
}

/// The index of the first `c` in `s`, as `str::find` with a `char` gives it.
pub fn find_char(s: &str, c: char) -> (r: Option<usize>)
    ensures
        match r {
            Some(i) => i as int == find_char_from(s@, c, 0) && i < s@.len(),
            None => find_char_from(s@, c, 0) == -1,
        },
{
    let n = s.unicode_len();
    let mut i: usize = 0;
    while i < n
        invariant
            n == s@.len(),
            i <= n,
            find_char_from(s@, c, 0) == find_char_from(s@, c, i as int),
        decreases n - i,
    {
        if s.get_char(i) == c {
            return Some(i);
        }
        i = i + 1;
    }
    None
}

/// `needle` stands in `hay` at index `i`.
pub open spec fn occurs_at(hay: Seq<char>, needle: Seq<char>, i: int) -> bool {
    &&& 0 <= i
    &&& i + needle.len() <= hay.len()
    &&& hay.subrange(i, i + needle.len()) == needle
}

/// `needle` stands somewhere in `hay`, as `str::contains` with a `&str` pattern decides it.
pub open spec fn contains_text(hay: Seq<char>, needle: Seq<char>) -> bool {
    exists|i: int| occurs_at(hay, needle, i)
}

fn matches_at(hay: &str, needle: &str, i: usize, hn: usize, nn: usize) -> (r: bool)
    requires
        hn == hay@.len(),
        nn == needle@.len(),
        i + nn <= hn,
    ensures
        r == occurs_at(hay@, needle@, i as int),
{
    let mut k: usize = 0;
    while k < nn
        invariant
            hn == hay@.len(),
            nn == needle@.len(),
            i + nn <= hn,
            k <= nn,
            forall|t: int| 0 <= t < k ==> hay@[i + t] == needle@[t],
        decreases nn - k,
    {
        if hay.get_char(i + k) != needle.get_char(k) {
            assert(hay@.subrange(i as int, i + nn)[k as int] != needle@[k as int]);
            return false;
        }
        k = k + 1;
    }
    assert(hay@.subrange(i as int, i + nn) =~= needle@);
    true
}

/// Decides `contains_text`.
pub fn str_contains(hay: &str, needle: &str) -> (r: bool)
    ensures
        r == contains_text(hay@, needle@),
{
    let hn = hay.unicode_len();
    let nn = needle.unicode_len();
    if nn > hn {
        return false;
    }
    let last = hn - nn;
    let mut i: usize = 0;
    while i < last
        invariant
            hn == hay@.len(),
            nn == needle@.len(),
            last == hn - nn,
            i <= last,
            forall|t: int| 0 <= t < i ==> !occurs_at(hay@, needle@, t),
        decreases last - i,
    {
        if matches_at(hay, needle, i, hn, nn) {
            return true;
        }
        i = i + 1;
    }
    if matches_at(hay, needle, last, hn, nn) {
        return true;
    }
    assert forall|t: int| !occurs_at(hay@, needle@, t) by {
        if 0 <= t < i {
        }
    }
    false
}

/// The items of `list` with `sep` between each two, as `[String]::join` gives it.
pub open spec fn join(list: Seq<Seq<char>>, sep: Seq<char>) -> Seq<char>
    decreases list.len(),
{
    if list.len() == 0 {
        Seq::empty()
    } else if list.len() == 1 {
        list[0]
    } else {
        join(list.drop_last(), sep) + sep + list.last()
    }
}

/// Joins `list` with `sep` between each two items.
pub fn join_strings(list: &Vec<String>, sep: &str) -> (r: String)
    ensures
        r@ == join(list.deep_view(), sep@),
{
    let ghost items = list.deep_view();
    let mut res = String::new();
    let n = list.len();
    let mut i: usize = 0;
    while i < n
        invariant
            n == list.len(),
            items == list.deep_view(),
            i <= n,
            res@ == join(items.take(i as int), sep@),
        decreases n - i,
    {
        assert(items.take(i + 1).drop_last() =~= items.take(i as int));
        assert(items.take(i + 1).last() == list[i as int]@);
        if i != 0 {
            res.append(sep);
            res.append(list[i].as_str());
        } else {
            res.append(list[i].as_str());
            assert(items.take(1) =~= seq![list[0]@]);
            assert(res@ =~= list[0]@);
        }
        i = i + 1;
    }
    assert(items.take(n as int) =~= items);
    res
}

/// The decimal digit `d` (for `0 <= d < 10`).
pub open spec fn digit_char(d: int) -> char {
    if d == 0 {
        '0'
    } else if d == 1 {
        '1'
    } else if d == 2 {
        '2'
    } else if d == 3 {
        '3'
    } else if d == 4 {
        '4'
    } else if d == 5 {
        '5'
    } else if d == 6 {
        '6'
    } else if d == 7 {
        '7'
    } else if d == 8 {
        '8'
    } else {
        '9'
    }
}

/// `n` written in decimal without leading zeros, as `Display` for integers writes it.
pub open spec fn decimal(n: nat) -> Seq<char>
    decreases n,
{
    if n < 10 {
        seq![digit_char(n as int)]
    } else {
        decimal(n / 10) + seq![digit_char((n % 10) as int)]
    }
}

fn digit_str(d: usize) -> (r: &'static str)
    requires
        d < 10,
    ensures
        r@ == seq![digit_char(d as int)],
{
    proof {
        reveal_strlit("0");
        reveal_strlit("1");
        reveal_strlit("2");
        reveal_strlit("3");
        reveal_strlit("4");
        reveal_strlit("5");
        reveal_strlit("6");
        reveal_strlit("7");
        reveal_strlit("8");
        reveal_strlit("9");
    }
    let r = if d == 0 {
        "0"
    } else if d == 1 {
        "1"
    } else if d == 2 {
        "2"
    } else if d == 3 {
        "3"
    } else if d == 4 {
        "4"
    } else if d == 5 {
        "5"
    } else if d == 6 {
        "6"
    } else if d == 7 {
        "7"
    } else if d == 8 {
        "8"
    } else {
        "9"
    };
    assert(r@ =~= seq![digit_char(d as int)]);
    r
}

/// Writes `n` in decimal.
pub fn decimal_string(n: usize) -> (r: String)
    ensures
        r@ == decimal(n as nat),
    decreases n,
{
    if n < 10 {
        String::from_str(digit_str(n))
    } else {
        let mut r = decimal_string(n / 10);
        r.append(digit_str(n % 10));
        r
    }
}

/// Whether `list` holds an item equal to `x`.
pub fn strings_contain(list: &Vec<String>, x: &str) -> (r: bool)
    ensures
        r == list.deep_view().contains(x@),
{
    let n = list.len();
    let mut i: usize = 0;
    while i < n
        invariant
            n == list.len(),
            i <= n,
            forall|k: int| 0 <= k < i ==> list.deep_view()[k] != x@,
        decreases n - i,
    {
        if str_eq(list[i].as_str(), x) {
            assert(list.deep_view()[i as int] == x@);
            return true;
        }
        i = i + 1;
    }
    false
}

/// A fresh copy of `list`.
pub fn copy_strings(list: &Vec<String>) -> (r: Vec<String>)
    ensures
        r.deep_view() == list.deep_view(),
{
    let mut res: Vec<String> = Vec::new();
    let n = list.len();
    let mut i: usize = 0;
    while i < n
        invariant
            n == list.len(),
            i <= n,
            res.deep_view() =~= list.deep_view().take(i as int),
        decreases n - i,
    {
        let c = list[i].clone();
        assert(c@ == list.deep_view()[i as int]);
        let ghost before = res.deep_view();
        res.push(c);
        assert(res.deep_view() =~= before.push(c@));
        assert(list.deep_view().take(i + 1) =~= list.deep_view().take(i as int).push(c@));
        i = i + 1;
    }
    assert(list.deep_view().take(n as int) =~= list.deep_view());
    res
}

/// `skip_white_from` lands between `i` and the length.
pub proof fn lemma_skip_white_bounds(s: Seq<char>, i: int)
    requires
        0 <= i <= s.len(),
    ensures
        i <= skip_white_from(s, i) <= s.len(),
        skip_white_from(s, i) < s.len() ==> !is_white_space(s[skip_white_from(s, i)]),
    decreases s.len() - i,
{
    if i < s.len() && is_white_space(s[i]) {
        lemma_skip_white_bounds(s, i + 1);
    }
}

/// `trim_end_at` lands between 0 and `j`.
pub proof fn lemma_trim_end_bounds(s: Seq<char>, j: int)
    requires
        0 <= j <= s.len(),
    ensures
        0 <= trim_end_at(s, j) <= j,
        trim_end_at(s, j) > 0 ==> !is_white_space(s[trim_end_at(s, j) - 1]),
    decreases j,
{
    if j > 0 && is_white_space(s[j - 1]) {
        lemma_trim_end_bounds(s, j - 1);
    }
}

proof fn lemma_skip_white_shift(s: Seq<char>, i: int)
    requires
        s.len() > 0,
        0 <= i <= s.len() - 1,
    ensures
        skip_white_from(s, i + 1) == 1 + skip_white_from(s.drop_first(), i),
    decreases s.len() - i,
{
    if i + 1 < s.len() && is_white_space(s[i + 1]) {
        lemma_skip_white_shift(s, i + 1);
    }
}

proof fn lemma_trim_end_shift(s: Seq<char>, j: int)
    requires
        s.len() > 0,
        0 <= j <= s.len() - 1,
    ensures
        trim_end_at(s, j + 1) == (if trim_end_at(s.drop_first(), j) > 0 {
            trim_end_at(s.drop_first(), j) + 1
        } else {
            trim_end_at(s, 1)
        }),
    decreases j,
{
    if j > 0 && is_white_space(s[j]) {
        lemma_trim_end_shift(s, j - 1);
    }
}

proof fn lemma_skip_white_prefix(s: Seq<char>, i: int)
    requires
        s.len() > 0,
        0 <= i <= s.len() - 1,
    ensures
        skip_white_from(s, i) == (if skip_white_from(s.drop_last(), i) < s.len() - 1 {
            skip_white_from(s.drop_last(), i)
        } else {
            skip_white_from(s, s.len() - 1)
        }),
    decreases s.len() - i,
{
    if i < s.len() - 1 && is_white_space(s[i]) {
        lemma_skip_white_prefix(s, i + 1);
    }
}

proof fn lemma_trim_end_prefix(s: Seq<char>, j: int)
    requires
        s.len() > 0,
        0 <= j <= s.len() - 1,
    ensures
        trim_end_at(s, j) == trim_end_at(s.drop_last(), j),
    decreases j,
{
    if j > 0 && is_white_space(s[j - 1]) {
        lemma_trim_end_prefix(s, j - 1);
    }
}

/// White space at the front does not change what `trim` gives.
pub proof fn lemma_trim_drop_first(s: Seq<char>)
    requires
        s.len() > 0,
        is_white_space(s[0]),
    ensures
        trim(s) == trim(s.drop_first()),
{
    let d = s.drop_first();
    lemma_skip_white_shift(s, 0);
    lemma_trim_end_shift(s, d.len() as int);
    lemma_skip_white_bounds(d, 0);
    lemma_trim_end_bounds(d, d.len() as int);
    let sd = skip_white_from(d, 0);
    let ed = trim_end_at(d, d.len() as int);
    assert(skip_white_from(s, 0) == skip_white_from(s, 1));
    assert(trim_end_at(s, 0) == 0);
    assert(trim_end_at(s, 1) == 0);
    assert(skip_white_from(s, 0) == sd + 1);
    assert(trim_end_at(s, s.len() as int) == if ed > 0 { ed + 1 } else { 0 });
    if sd < ed {
        assert(s.subrange(sd + 1, ed + 1) =~= d.subrange(sd, ed));
    }
}

/// White space at the back does not change what `trim` gives.
pub proof fn lemma_trim_drop_last(s: Seq<char>)
    requires
        s.len() > 0,
        is_white_space(s.last()),
    ensures
        trim(s) == trim(s.drop_last()),
{
    let d = s.drop_last();
    lemma_trim_end_prefix(s, d.len() as int);
    lemma_skip_white_bounds(d, 0);
    lemma_trim_end_bounds(d, d.len() as int);
    if d.len() > 0 {
        lemma_skip_white_prefix(s, 0);
    }
    let sd = skip_white_from(d, 0);
    let ed = trim_end_at(d, d.len() as int);
    assert(trim_end_at(s, s.len() as int) == trim_end_at(s, d.len() as int));
    assert(trim_end_at(s, s.len() as int) == ed);
    assert(skip_white_from(s, s.len() as int) == s.len());
    assert(skip_white_from(s, d.len() as int) == s.len());
    assert(sd < d.len() ==> skip_white_from(s, 0) == sd);
    assert(sd >= d.len() ==> skip_white_from(s, 0) == s.len());
    if sd < ed {
        assert(s.subrange(sd, ed) =~= d.subrange(sd, ed));
    }
}

/// Every character of `w` is white space.
pub open spec fn all_white(w: Seq<char>) -> bool {
    forall|i: int| 0 <= i < w.len() ==> is_white_space(#[trigger] w[i])
}

/// White space around `t` does not change what `trim` gives.
pub proof fn lemma_trim_around(w1: Seq<char>, t: Seq<char>, w2: Seq<char>)
    requires
        all_white(w1),
        all_white(w2),
    ensures
        trim(w1 + t + w2) == trim(t),
    decreases w1.len() + w2.len(),
{
    if w1.len() > 0 {
        let s = w1 + t + w2;
        assert(s[0] == w1[0]);
        lemma_trim_drop_first(s);
        assert(s.drop_first() =~= w1.drop_first() + t + w2);
        lemma_trim_around(w1.drop_first(), t, w2);
    } else if w2.len() > 0 {
        let s = w1 + t + w2;
        assert(s.last() == w2.last());
        lemma_trim_drop_last(s);
        assert(s.drop_last() =~= w1 + t + w2.drop_last());
        lemma_trim_around(w1, t, w2.drop_last());
    } else {
        assert(w1 + t + w2 =~= t);
    }
}

/// A text that starts and ends with a character other than white space is its own trim.
pub proof fn lemma_trim_keeps_trimmed(t: Seq<char>)
    requires
        t.len() > 0 ==> !is_white_space(t[0]) && !is_white_space(t.last()),
    ensures
        trim(t) == t,
{
    if t.len() > 0 {
        assert(t.subrange(0, t.len() as int) =~= t);
    }
}

/// The first `c` in `p + r`, where `p` holds none and `r` starts with one, is at `p.len()`.
pub proof fn lemma_find_after_prefix(p: Seq<char>, r: Seq<char>, c: char, i: int)
    requires
        0 <= i <= p.len(),
        forall|k: int| 0 <= k < p.len() ==> p[k] != c,
        r.len() > 0,
        r[0] == c,
    ensures
        find_char_from(p + r, c, i) == p.len(),
    decreases p.len() - i,
{
    if i < p.len() {
        lemma_find_after_prefix(p, r, c, i + 1);
    }
}

} // verus!
