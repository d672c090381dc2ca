//! Small string operations used by the resource builders and the stack,
//! each stated over the characters of the strings involved.
use vstd::prelude::*;

verus! {

/// The decimal digits of `n`, most significant first, without leading zeros.
pub open spec fn decimal(n: nat) -> Seq<char>
    decreases n,
{
    if n < 10 {
        seq![digit_char(n)]
    } else {
        decimal(n / 10).push(digit_char(n % 10))
    }
}

/// The character of a single decimal digit.
pub open spec fn digit_char(d: nat) -> char {
    if d == 0 {
        '0'
    } else if d == 1 {
        '1'
    } else if d == 2 {
        '2'
    } else if d == 3 {
        '3'
    } else if d == 4 {
        '4'
    } else if d == 5 {
        '5'
    } else if d == 6 {
        '6'
    } else if d == 7 {
        '7'
    } else if d == 8 {
        '8'
    } else {
        '9'
    }
}

/// Whether `c` is white space in the sense of Unicode's `White_Space` property.
pub open spec fn is_white_space(c: char) -> bool {
    ||| ('\u{9}' <= c && c <= '\u{d}')
    ||| c == ' '
    ||| c == '\u{85}'
    ||| c == '\u{a0}'
    ||| c == '\u{1680}'
    ||| ('\u{2000}' <= c && c <= '\u{200a}')
    ||| c == '\u{2028}'
    ||| c == '\u{2029}'
    ||| c == '\u{202f}'
    ||| c == '\u{205f}'
    ||| c == '\u{3000}'
}

/// `needle` occurs in `s` starting at position `i`.
pub open spec fn occurs_at(s: Seq<char>, needle: Seq<char>, i: int) -> bool {
    0 <= i && i + needle.len() <= s.len() && s.subrange(i, i + needle.len()) == needle
}

/// `needle` occurs somewhere in `s`.
pub open spec fn contains_seq(s: Seq<char>, needle: Seq<char>) -> bool {
    exists|i: int| occurs_at(s, needle, i)
}

/// The pieces of `s` between the occurrences of `sep`, in order; an empty `s` gives one empty piece.
pub open spec fn split_seq(s: Seq<char>, sep: char) -> Seq<Seq<char>>
    decreases s.len(),
{
    if s.len() == 0 {
        seq![Seq::<char>::empty()]
    } else {
        let init = split_seq(s.drop_last(), sep);
        if s.last() == sep {
            init.push(Seq::<char>::empty())
        } else {
            init.update(init.len() - 1, init.last().push(s.last()))
        }
    }
}

/// Splitting gives at least one piece.
pub proof fn lemma_split_nonempty(s: Seq<char>, sep: char)
    ensures
        split_seq(s, sep).len() >= 1,
    decreases s.len(),
{
    if s.len() > 0 {
        lemma_split_nonempty(s.drop_last(), sep);
    }
}

/// `s` with its leading white space removed.
pub open spec fn trim_start_seq(s: Seq<char>) -> Seq<char>
    decreases s.len(),
{
    if s.len() > 0 && is_white_space(s[0]) {
        trim_start_seq(s.drop_first())
    } else {
        s
    }
}

/// `s` with its trailing white space removed.
pub open spec fn trim_end_seq(s: Seq<char>) -> Seq<char>
    decreases s.len(),
{
    if s.len() > 0 && is_white_space(s.last()) {
        trim_end_seq(s.drop_last())
    } else {
        s
    }
}

/// `s` with white space removed at both ends.
pub open spec fn trim_seq(s: Seq<char>) -> Seq<char> {
    trim_end_seq(trim_start_seq(s))
}

/// `s` with every occurrence of `from` replaced by `to`, matches taken from left to right
/// without overlap; an empty `from` matches before every character and at the end.
pub open spec fn replace_seq(s: Seq<char>, from: Seq<char>, to: Seq<char>) -> Seq<char>
    decreases s.len(),
{
    if s.len() == 0 {
        if from.len() == 0 {
            to
        } else {
            s
        }
    } else if from.len() == 0 {
        to + seq![s[0]] + replace_seq(s.drop_first(), from, to)
    } else if from.is_prefix_of(s) {
        to + replace_seq(s.skip(from.len() as int), from, to)
    } else {
        seq![s[0]] + replace_seq(s.drop_first(), from, to)
    }
}

/// The characters of the digit `d` as a string literal.
fn digit_str(d: u32) -> (r: &'static str)
    requires
        d < 10,
    ensures
        r@ == seq![digit_char(d as nat)],
{
    proof {
        reveal_strlit("0");
        reveal_strlit("1");
        reveal_strlit("2");
        reveal_strlit("3");
        reveal_strlit("4");
        reveal_strlit("5");
        reveal_strlit("6");
        reveal_strlit("7");
        reveal_strlit("8");
        reveal_strlit("9");
    }
    if d == 0 {
        "0"
    } else if d == 1 {
        "1"
    } else if d == 2 {
        "2"
    } else if d == 3 {
        "3"
    } else if d == 4 {
        "4"
    } else if d == 5 {
        "5"
    } else if d == 6 {
        "6"
    } else if d == 7 {
        "7"
    } else if d == 8 {
        "8"
    } else {
        "9"
    }
}

/// Appends the decimal digits of `n` to `s`.
pub fn push_decimal(s: &mut String, n: u32)
    ensures
        final(s)@ == old(s)@ + decimal(n as nat),
    decreases n,
{
    if n >= 10 {
        push_decimal(s, n / 10);
    }
    let d = digit_str(n % 10);
    s.append(d);
    proof {
        if n >= 10 {
            assert(decimal(n as nat) == decimal((n / 10) as nat).push(digit_char((n % 10) as nat)));
        }
        assert(old(s)@ + decimal(n as nat) =~= final(s)@) by {
            if n >= 10 {
            } else {
                assert(decimal(n as nat) == seq![digit_char(n as nat)]);
            }
        }
    }
}

/// Appends the decimal digits of `n` to `s`.
pub fn push_decimal_usize(s: &mut String, n: usize)
    ensures
        final(s)@ == old(s)@ + decimal(n as nat),
    decreases n,
{
    if n >= 10 {
        push_decimal_usize(s, n / 10);
    }
    let d = digit_str((n % 10) as u32);
    s.append(d);
    proof {
        if n >= 10 {
            assert(decimal(n as nat) == decimal((n / 10) as nat).push(digit_char((n % 10) as nat)));
        }
        assert(old(s)@ + decimal(n as nat) =~= final(s)@) by {
            if n >= 10 {
            } else {
                assert(decimal(n as nat) == seq![digit_char(n as nat)]);
            }
        }
    }
}

/// The decimal representation of `n`.
pub fn u32_to_string(n: u32) -> (r: String)
    ensures
        r@ == decimal(n as nat),
{
    let mut s = String::new();
    push_decimal(&mut s, n);
    assert(s@ =~= decimal(n as nat));
    s
}

/// Whether two strings hold the same characters.
pub fn str_eq(a: &str, b: &str) -> (r: bool)
    ensures
        r == (a@ == b@),
{
    let n = a.unicode_len();
    if n != b.unicode_len() {
        return false;
    }
    let mut i: usize = 0;
    while i < n
        invariant
            n == a@.len(),
            n == b@.len(),
            i <= n,
            forall|j: int| 0 <= j < i ==> a@[j] == b@[j],
        decreases n - i,
    {
        if a.get_char(i) != b.get_char(i) {
            return false;
        }
        i = i + 1;
    }
    assert(a@ =~= b@);
    true
}

/// Whether `needle` occurs in `s` at character position `i`.
pub fn matches_at(s: &str, needle: &str, i: usize) -> (r: bool)
    ensures
        r == occurs_at(s@, needle@, i as int),
{
    let n = s.unicode_len();
    let m = needle.unicode_len();
    if i > n || m > n - i {
        return false;
    }
    let mut j: usize = 0;
    while j < m
        invariant
            n == s@.len(),
            m == needle@.len(),
            i + m <= n,
            j <= m,
            forall|k: int| 0 <= k < j ==> s@[i + k] == needle@[k],
        decreases m - j,
    {
        if s.get_char(i + j) != needle.get_char(j) {
            assert(s@.subrange(i as int, i + m)[j as int] != needle@[j as int]);
            return false;
        }
        j = j + 1;
    }
    assert(s@.subrange(i as int, i + m) =~= needle@);
    true
}

/// Whether `s` starts with `prefix`.
pub fn starts_with(s: &str, prefix: &str) -> (r: bool)
    ensures
        r == prefix@.is_prefix_of(s@),
{
    let r = matches_at(s, prefix, 0);
    proof {
        if r {
            assert(s@.subrange(0, prefix@.len() as int) == prefix@);
            assert forall|k: int| 0 <= k < prefix@.len() implies prefix@[k] == s@[k] by {
                assert(s@.subrange(0, prefix@.len() as int)[k] == s@[k]);
            }
        } else if prefix@.is_prefix_of(s@) {
            assert(s@.subrange(0, prefix@.len() as int) =~= prefix@);
        }
    }
    r
}

/// Whether `s` ends with `suffix`.
pub fn ends_with(s: &str, suffix: &str) -> (r: bool)
    ensures
        r == suffix@.is_suffix_of(s@),
{
    let n = s.unicode_len();
    let m = suffix.unicode_len();
    if m > n {
        return false;
    }
    matches_at(s, suffix, n - m)
}

/// Whether `needle` occurs anywhere in `s`.
pub fn contains(s: &str, needle: &str) -> (r: bool)
    ensures
        r == contains_seq(s@, needle@),
{
    let n = s.unicode_len();
    let mut i: usize = 0;
    loop
        invariant
            n == s@.len(),
            i <= n,
            forall|k: int| 0 <= k < i ==> !occurs_at(s@, needle@, k),
        decreases n - i,
    {
        if matches_at(s, needle, i) {
            return true;
        }
        if i == n {
            assert forall|k: int| !occurs_at(s@, needle@, k) by {
                if 0 <= k && k <= n {
                }
            }
            return false;
        }
        i = i + 1;
    }
}


/// The characters of each string of `v`, in order.
pub open spec fn views(v: Seq<String>) -> Seq<Seq<char>> {
    v.map_values(|p: String| p@)
}

/// The pieces of `s` between the occurrences of `sep`, in order.
pub fn split_char(s: &str, sep: char) -> (r: Vec<String>)
    ensures
        views(r@) == split_seq(s@, sep),
{
    let n = s.unicode_len();
    let mut pieces: Vec<String> = Vec::new();
    let mut start: usize = 0;
    let mut i: usize = 0;
    assert(s@.take(0) =~= Seq::<char>::empty());
    assert(views(pieces@).push(s@.subrange(0, 0)) =~= split_seq(s@.take(0), sep));
    while i < n
        invariant
            n == s@.len(),
            start <= i <= n,
            views(pieces@).push(s@.subrange(start as int, i as int)) == split_seq(s@.take(i as int), sep),
        decreases n - i,
    {
        let c = s.get_char(i);
        let ghost prev = split_seq(s@.take(i as int), sep);
        assert(s@.take(i + 1).drop_last() =~= s@.take(i as int));
        assert(s@.take(i + 1).last() == c);
        if c == sep {
            let piece = String::from_str(s.substring_char(start, i));
            let ghost old_pieces = pieces@;
            pieces.push(piece);
            assert(views(pieces@) =~= views(old_pieces).push(s@.subrange(start as int, i as int)));
            start = i + 1;
            assert(s@.subrange(start as int, (i + 1) as int) =~= Seq::<char>::empty());
            assert(views(pieces@).push(s@.subrange(start as int, (i + 1) as int)) =~= prev.push(Seq::<char>::empty()));
        } else {
            assert(s@.subrange(start as int, (i + 1) as int) =~= s@.subrange(start as int, i as int).push(c));
            assert(views(pieces@).push(s@.subrange(start as int, (i + 1) as int)) =~= prev.update(prev.len() - 1, prev.last().push(c)));
        }
        i = i + 1;
    }
    let last = String::from_str(s.substring_char(start, n));
    let ghost old_pieces = pieces@;
    pieces.push(last);
    assert(views(pieces@) =~= views(old_pieces).push(s@.subrange(start as int, n as int)));
    assert(s@.take(n as int) =~= s@);
    assert(views(pieces@) =~= split_seq(s@, sep));
    pieces
}

/// Whether `c` is white space.
pub fn is_white_space_char(c: char) -> (r: bool)
    ensures
        r == is_white_space(c),
{
    ('\u{9}' <= c && c <= '\u{d}') || c == ' ' || c == '\u{85}' || c == '\u{a0}' || c == '\u{1680}'
        || ('\u{2000}' <= c && c <= '\u{200a}') || c == '\u{2028}' || c == '\u{2029}' || c == '\u{202f}'
        || c == '\u{205f}' || c == '\u{3000}'
}

proof fn lemma_trim_start(s: Seq<char>, a: int)
    requires
        0 <= a <= s.len(),
        forall|k: int| 0 <= k < a ==> is_white_space(#[trigger] s[k]),
        a == s.len() || !is_white_space(s[a]),
    ensures
        trim_start_seq(s) == s.skip(a),
    decreases a,
{
    if a == 0 {
        assert(s.skip(0) =~= s);
    } else {
        assert(is_white_space(s[0]));
        let t = s.drop_first();
        assert forall|k: int| 0 <= k < a - 1 implies is_white_space(#[trigger] t[k]) by {
            assert(t[k] == s[k + 1]);
        }
        lemma_trim_start(t, a - 1);
        assert(t.skip(a - 1) =~= s.skip(a));
    }
}

proof fn lemma_trim_end(s: Seq<char>, b: int)
    requires
        0 <= b <= s.len(),
        forall|k: int| b <= k < s.len() ==> is_white_space(#[trigger] s[k]),
        b == 0 || !is_white_space(s[b - 1]),
    ensures
        trim_end_seq(s) == s.take(b),
    decreases s.len() - b,
{
    if b == s.len() {
        assert(s.take(b) =~= s);
    } else {
        assert(is_white_space(s.last()));
        let t = s.drop_last();
        assert forall|k: int| b <= k < t.len() implies is_white_space(#[trigger] t[k]) by {
            assert(t[k] == s[k]);
        }
        lemma_trim_end(t, b);
        assert(t.take(b) =~= s.take(b));
    }
}

/// `s` without white space at either end.
pub fn trim(s: &str) -> (r: String)
    ensures
        r@ == trim_seq(s@),
{
    let n = s.unicode_len();
    let mut a: usize = 0;
    while a < n && is_white_space_char(s.get_char(a))
        invariant
            n == s@.len(),
            a <= n,
            forall|k: int| 0 <= k < a ==> is_white_space(#[trigger] s@[k]),
        decreases n - a,
    {
        a = a + 1;
    }
    proof {
        lemma_trim_start(s@, a as int);
    }
    let mut b: usize = n;
    while b > a && is_white_space_char(s.get_char(b - 1))
        invariant
            n == s@.len(),
            a <= b <= n,
            forall|k: int| b <= k < n ==> is_white_space(#[trigger] s@[k]),
        decreases b,
    {
        b = b - 1;
    }
    let ghost t = s@.skip(a as int);
    proof {
        assert forall|k: int| b - a <= k < t.len() implies is_white_space(#[trigger] t[k]) by {
            assert(t[k] == s@[k + a]);
        }
        if b > a {
            assert(t[b - a - 1] == s@[b - 1]);
        }
        lemma_trim_end(t, b - a);
    }
    let r = String::from_str(s.substring_char(a, b));
    assert(r@ =~= t.take(b - a));
    r
}

proof fn lemma_replace_step_match(s: Seq<char>, from: Seq<char>, to: Seq<char>, i: int)
    requires
        0 <= i < s.len(),
        from.len() > 0,
        occurs_at(s, from, i),
    ensures
        replace_seq(s.skip(i), from, to) == to + replace_seq(s.skip(i + from.len()), from, to),
{
    let t = s.skip(i);
    assert(from.is_prefix_of(t)) by {
        assert forall|k: int| 0 <= k < from.len() implies from[k] == t[k] by {
            assert(s.subrange(i, i + from.len())[k] == s[i + k]);
        }
    }
    assert(t.skip(from.len() as int) =~= s.skip(i + from.len()));
}

proof fn lemma_replace_step_other(s: Seq<char>, from: Seq<char>, to: Seq<char>, i: int)
    requires
        0 <= i < s.len(),
        from.len() > 0,
        !occurs_at(s, from, i),
    ensures
        replace_seq(s.skip(i), from, to) == seq![s[i]] + replace_seq(s.skip(i + 1), from, to),
{
    let t = s.skip(i);
    if from.is_prefix_of(t) {
        assert(s.subrange(i, i + from.len()) =~= from) by {
            assert forall|k: int| 0 <= k < from.len() implies s.subrange(i, i + from.len())[k] == from[k] by {
                assert(t[k] == s[i + k]);
            }
        }
    }
    assert(t.drop_first() =~= s.skip(i + 1));
}

/// Replacing in a text where `from` does not occur leaves the text as it is.
pub proof fn lemma_replace_absent(s: Seq<char>, from: Seq<char>, to: Seq<char>)
    requires
        from.len() > 0,
        !contains_seq(s, from),
    ensures
        replace_seq(s, from, to) == s,
    decreases s.len(),
{
    if s.len() > 0 {
        let l = from.len() as int;
        if from.is_prefix_of(s) {
            assert(occurs_at(s, from, 0));
        }
        let d = s.drop_first();
        assert(!contains_seq(d, from)) by {
            if contains_seq(d, from) {
                let k = choose|k: int| occurs_at(d, from, k);
                assert(s.subrange(k + 1, k + 1 + l) =~= d.subrange(k, k + l));
                assert(occurs_at(s, from, k + 1));
            }
        }
        lemma_replace_absent(d, from, to);
        assert(seq![s[0]] + d =~= s);
    }
}

/// Replacing in the text `from` itself gives `to`.
pub proof fn lemma_replace_whole(from: Seq<char>, to: Seq<char>)
    requires
        from.len() > 0,
    ensures
        replace_seq(from, from, to) == to,
{
    assert(from.is_prefix_of(from)) by {
        assert(from.subrange(0, from.len() as int) =~= from);
    }
    let e = from.skip(from.len() as int);
    assert(e =~= Seq::<char>::empty());
    assert(replace_seq(e, from, to) == e);
    assert(replace_seq(from, from, to) == to + replace_seq(e, from, to));
    assert(to + e =~= to);
}

/// No occurrence of a non-empty `from` reaches across a character that `from` does not
/// hold: replacing in `x + y` replaces in `x` and in `y` apart, where the last character
/// of `x` or the first of `y` is one that `from` does not hold.
pub proof fn lemma_replace_split(x: Seq<char>, y: Seq<char>, from: Seq<char>, to: Seq<char>)
    requires
        from.len() > 0,
        x.len() == 0 || y.len() == 0 || !from.contains(x.last()) || !from.contains(y[0]),
    ensures
        replace_seq(x + y, from, to) == replace_seq(x, from, to) + replace_seq(y, from, to),
    decreases x.len(),
{
    let s = x + y;
    let l = from.len() as int;
    if x.len() == 0 {
        assert(s =~= y);
        assert(replace_seq(x, from, to) + replace_seq(y, from, to) =~= replace_seq(y, from, to));
    } else if y.len() == 0 {
        assert(s =~= x);
        assert(replace_seq(x, from, to) + replace_seq(y, from, to) =~= replace_seq(x, from, to));
    } else if from.is_prefix_of(s) {
        assert(l <= x.len()) by {
            if l > x.len() {
                assert(from[x.len() - 1] == s.subrange(0, l)[x.len() - 1]);
                assert(from[x.len() as int] == s.subrange(0, l)[x.len() as int]);
                assert(from[x.len() - 1] == x.last());
                assert(from[x.len() as int] == y[0]);
            }
        }
        assert(from.is_prefix_of(x)) by {
            assert(x.subrange(0, l) =~= s.subrange(0, l));
        }
        let rest = x.skip(l);
        assert(s.skip(l) =~= rest + y);
        assert(rest.len() > 0 ==> rest.last() == x.last());
        lemma_replace_split(rest, y, from, to);
        assert(to + (replace_seq(rest, from, to) + replace_seq(y, from, to))
            =~= (to + replace_seq(rest, from, to)) + replace_seq(y, from, to));
    } else {
        assert(!from.is_prefix_of(x)) by {
            if from.is_prefix_of(x) {
                assert(x.subrange(0, l) =~= s.subrange(0, l));
            }
        }
        let rest = x.drop_first();
        assert(s.drop_first() =~= rest + y);
        assert(s[0] == x[0]);
        assert(rest.len() > 0 ==> rest.last() == x.last());
        lemma_replace_split(rest, y, from, to);
        assert(seq![x[0]] + (replace_seq(rest, from, to) + replace_seq(y, from, to))
            =~= (seq![x[0]] + replace_seq(rest, from, to)) + replace_seq(y, from, to));
    }
}

/// A first or last character that a non-empty `from` does not hold stays where it is.
pub proof fn lemma_replace_keeps_ends(s: Seq<char>, from: Seq<char>, to: Seq<char>)
    requires
        from.len() > 0,
        s.len() > 0,
    ensures
        !from.contains(s[0]) ==> replace_seq(s, from, to).len() > 0 && replace_seq(s, from, to)[0] == s[0],
        !from.contains(s.last()) ==> replace_seq(s, from, to).len() > 0 && replace_seq(s, from, to).last()
            == s.last(),
{
    if !from.contains(s[0]) {
        if from.is_prefix_of(s) {
            assert(from[0] == s.subrange(0, from.len() as int)[0]);
        }
    }
    if !from.contains(s.last()) {
        let c = s.last();
        let one = seq![c];
        assert(s.drop_last() + one =~= s);
        lemma_replace_split(s.drop_last(), one, from, to);
        if from.is_prefix_of(one) {
            assert(from[0] == one.subrange(0, from.len() as int)[0]);
        }
        let e = one.drop_first();
        assert(e =~= Seq::<char>::empty());
        assert(replace_seq(e, from, to) == e);
        assert(replace_seq(one, from, to) == seq![one[0]] + replace_seq(e, from, to));
        assert(replace_seq(one, from, to) =~= one);
    }
}

/// `s` with every occurrence of `from` replaced by `to`.
pub fn replace_all(s: &str, from: &str, to: &str) -> (r: String)
    ensures
        r@ == replace_seq(s@, from@, to@),
{
    let n = s.unicode_len();
    let m = from.unicode_len();
    let mut out = String::new();
    let mut i: usize = 0;
    assert(s@.skip(0) =~= s@);
    while i < n
        invariant
            n == s@.len(),
            m == from@.len(),
            i <= n,
            out@ + replace_seq(s@.skip(i as int), from@, to@) == replace_seq(s@, from@, to@),
        decreases n - i,
    {
        let ghost before = out@;
        if m == 0 {
            let ghost t = s@.skip(i as int);
            assert(t.drop_first() =~= s@.skip(i + 1));
            out.append(to);
            out.append(s.substring_char(i, i + 1));
            assert(out@ + replace_seq(s@.skip(i + 1), from@, to@) =~= before + replace_seq(t, from@, to@));
            i = i + 1;
        } else if matches_at(s, from, i) {
            proof {
                lemma_replace_step_match(s@, from@, to@, i as int);
            }
            out.append(to);
            assert(out@ + replace_seq(s@.skip(i + m), from@, to@) =~= before + replace_seq(s@.skip(i as int), from@, to@));
            i = i + m;
        } else {
            proof {
                lemma_replace_step_other(s@, from@, to@, i as int);
            }
            out.append(s.substring_char(i, i + 1));
            assert(out@ + replace_seq(s@.skip(i + 1), from@, to@) =~= before + replace_seq(s@.skip(i as int), from@, to@));
            i = i + 1;
        }
    }
    assert(s@.skip(n as int) =~= Seq::<char>::empty());
    if m == 0 {
        out.append(to);
    }
    assert(out@ =~= replace_seq(s@, from@, to@));
    out
}

/// Whether `s` is one of the strings of `v`.
pub fn vec_contains(v: &Vec<String>, s: &str) -> (r: bool)
    ensures
        r == views(v@).contains(s@),
{
    let mut i: usize = 0;
    while i < v.len()
        invariant
            i <= v@.len(),
            forall|k: int| 0 <= k < i ==> v@[k]@ != s@,
        decreases v@.len() - i,
    {
        if str_eq(v[i].as_str(), s) {
            assert(views(v@)[i as int] == s@);
            return true;
        }
        i = i + 1;
    }
    assert(!views(v@).contains(s@)) by {
        if views(v@).contains(s@) {
            let k = choose|k: int| 0 <= k < views(v@).len() && views(v@)[k] == s@;
            assert(v@[k]@ == s@);
        }
    }
    false
}

/// The pieces with `sep` between each two of them.
pub open spec fn join_seq(pieces: Seq<Seq<char>>, sep: Seq<char>) -> Seq<char>
    decreases pieces.len(),
{
    if pieces.len() == 0 {
        Seq::empty()
    } else if pieces.len() == 1 {
        pieces[0]
    } else {
        join_seq(pieces.drop_last(), sep) + sep + pieces.last()
    }
}

/// The strings of `v` with `sep` between each two of them.
pub fn join(v: &Vec<String>, sep: &str) -> (r: String)
    ensures
        r@ == join_seq(views(v@), sep@),
{
    let mut out = String::new();
    let mut i: usize = 0;
    assert(views(v@).take(0) =~= Seq::<Seq<char>>::empty());
    while i < v.len()
        invariant
            i <= v@.len(),
            out@ == join_seq(views(v@).take(i as int), sep@),
        decreases v@.len() - i,
    {
        assert(views(v@).take(i + 1).drop_last() =~= views(v@).take(i as int));
        if i > 0 {
            out.append(sep);
        }
        out.append(v[i].as_str());
        proof {
            if i == 0 {
                assert(views(v@).take(1) =~= seq![v@[0]@]);
                assert(out@ =~= v@[0]@);
            } else {
                assert(views(v@).take(i + 1).last() == v@[i as int]@);
            }
        }
        i = i + 1;
    }
    assert(views(v@).take(v@.len() as int) =~= views(v@));
    out
}

/// A string holding the characters of the two parts, in order.
pub fn concat2(a: &str, b: &str) -> (r: String)
    ensures
        r@ == a@ + b@,
{
    let mut out = String::from_str(a);
    out.append(b);
    out
}

/// A string holding the characters of the three parts, in order.
pub fn concat3(a: &str, b: &str, c: &str) -> (r: String)
    ensures
        r@ == a@ + b@ + c@,
{
    let mut out = String::from_str(a);
    out.append(b);
    out.append(c);
    out
}

/// The pieces of `s` between the occurrences of `sep`, taken from the left without overlap, in
/// order; an empty `s` gives one empty piece.
pub open spec fn split_str_seq(s: Seq<char>, sep: Seq<char>) -> Seq<Seq<char>>
    recommends
        sep.len() > 0,
    decreases s.len(),
{
    if s.len() == 0 || sep.len() == 0 {
        seq![s]
    } else if sep.is_prefix_of(s) {
        seq![Seq::<char>::empty()] + split_str_seq(s.skip(sep.len() as int), sep)
    } else {
        let rest = split_str_seq(s.drop_first(), sep);
        rest.update(0, seq![s[0]] + rest[0])
    }
}

/// Splitting by a string gives at least one piece.
pub proof fn lemma_split_str_nonempty(s: Seq<char>, sep: Seq<char>)
    ensures
        split_str_seq(s, sep).len() >= 1,
    decreases s.len(),
{
    if s.len() > 0 && sep.len() > 0 {
        if sep.is_prefix_of(s) {
            lemma_split_str_nonempty(s.skip(sep.len() as int), sep);
        } else {
            lemma_split_str_nonempty(s.drop_first(), sep);
        }
    }
}

/// `parts` with `x` put in front of its first part.
pub open spec fn prepend_to_first(x: Seq<char>, parts: Seq<Seq<char>>) -> Seq<Seq<char>> {
    parts.update(0, x + parts[0])
}

/// The pieces of `s` between the occurrences of `sep`, taken from the left without overlap.
pub fn split_str(s: &str, sep: &str) -> (r: Vec<String>)
    requires
        sep@.len() > 0,
    ensures
        views(r@) == split_str_seq(s@, sep@),
{
    let n = s.unicode_len();
    let m = sep.unicode_len();
    let mut pieces: Vec<String> = Vec::new();
    let mut start: usize = 0;
    let mut i: usize = 0;
    proof {
        lemma_split_str_nonempty(s@, sep@);
        assert(s@.skip(0) =~= s@);
        assert(prepend_to_first(Seq::empty(), split_str_seq(s@, sep@)) =~= split_str_seq(s@, sep@));
    }
    while i < n
        invariant
            n == s@.len(),
            m == sep@.len(),
            m > 0,
            start <= i <= n,
            split_str_seq(s@, sep@) == views(pieces@) + prepend_to_first(
                s@.subrange(start as int, i as int),
                split_str_seq(s@.skip(i as int), sep@),
            ),
        decreases n - i,
    {
        let ghost rest_i = s@.skip(i as int);
        let ghost x = s@.subrange(start as int, i as int);
        if matches_at(s, sep, i) {
            let piece = String::from_str(s.substring_char(start, i));
            let ghost old_pieces = pieces@;
            pieces.push(piece);
            proof {
                assert(sep@.is_prefix_of(rest_i)) by {
                    assert(s@.subrange(i as int, i + m) == sep@);
                    assert forall|k: int| 0 <= k < m implies sep@[k] == rest_i[k] by {
                        assert(s@.subrange(i as int, i + m)[k] == s@[i + k]);
                    }
                }
                assert(rest_i.skip(m as int) =~= s@.skip(i + m));
                lemma_split_str_nonempty(s@.skip(i + m), sep@);
                let after = split_str_seq(s@.skip(i + m), sep@);
                assert(split_str_seq(rest_i, sep@) == seq![Seq::<char>::empty()] + after);
                assert(prepend_to_first(x, seq![Seq::<char>::empty()] + after) =~= seq![x] + after);
                assert(views(pieces@) =~= views(old_pieces).push(x));
                assert(prepend_to_first(s@.subrange(i + m, i + m), after) =~= after);
            }
            i = i + m;
            start = i;
        } else {
            proof {
                assert(!sep@.is_prefix_of(rest_i)) by {
                    if sep@.is_prefix_of(rest_i) {
                        assert(s@.subrange(i as int, i + m) =~= sep@) by {
                            assert forall|k: int| 0 <= k < m implies s@.subrange(i as int, i + m)[k] == sep@[k] by {
                                assert(rest_i[k] == s@[i + k]);
                            }
                        }
                    }
                }
                assert(rest_i.drop_first() =~= s@.skip(i + 1));
                lemma_split_str_nonempty(s@.skip(i + 1), sep@);
                let after = split_str_seq(s@.skip(i + 1), sep@);
                assert(split_str_seq(rest_i, sep@) == after.update(0, seq![rest_i[0]] + after[0]));
                assert(s@.subrange(start as int, i + 1) =~= x + seq![s@[i as int]]);
                assert(rest_i[0] == s@[i as int]);
                assert(x + (seq![rest_i[0]] + after[0]) =~= s@.subrange(start as int, i + 1) + after[0]);
                assert(prepend_to_first(x, after.update(0, seq![rest_i[0]] + after[0])) =~= prepend_to_first(
                    s@.subrange(start as int, i + 1),
                    after,
                ));
            }
            i = i + 1;
        }
    }
    let last = String::from_str(s.substring_char(start, n));
    let ghost old_pieces = pieces@;
    pieces.push(last);
    proof {
        assert(s@.skip(n as int) =~= Seq::<char>::empty());
        assert(split_str_seq(s@.skip(n as int), sep@) =~= seq![Seq::<char>::empty()]);
        assert(prepend_to_first(s@.subrange(start as int, n as int), seq![Seq::<char>::empty()]) =~= seq![
            s@.subrange(start as int, n as int),
        ]);
        assert(views(pieces@) =~= views(old_pieces).push(s@.subrange(start as int, n as int)));
    }
    pieces
}

} // verus!
