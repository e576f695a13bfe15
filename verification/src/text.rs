//! Helpers on the characters of strings.

use vstd::prelude::*;
use vstd::std_specs::iter::IteratorSpec;

verus! {

/// The characters of `s`, in order.
pub fn chars_of(s: &str) -> (out: Vec<char>)
    ensures
        out@ == s@,
{
    let mut out: Vec<char> = Vec::new();
    let mut it = s.chars();
    loop
        invariant
            it.obeys_prophetic_iter_laws(),
            it.decrease() is Some,
            out@ + it.remaining() == s@,
        decreases it.decrease()->0,
    {
        let ghost before = it;
        let next = it.next();
        proof {
            vstd::string::next_postcondition(&before, &it, next);
        }
        match next {
            Some(c) => {
                proof {
                    assert(out@.push(c) + it.remaining() =~= out@ + before.remaining());
                }
                out.push(c);
            },
            None => {
                proof {
                    assert(out@ + before.remaining() =~= out@);
                }
                return out;
            },
        }
    }
}


/// Whether `c` is white space: one of the code points that carry the
/// Unicode property White_Space.
pub open spec fn is_whitespace(c: char) -> bool {
    let u = c as u32;
    ||| 0x09 <= u <= 0x0d
    ||| u == 0x20
    ||| u == 0x85
    ||| u == 0xa0
    ||| u == 0x1680
    ||| 0x2000 <= u <= 0x200a
    ||| u == 0x2028
    ||| u == 0x2029
    ||| u == 0x202f
    ||| u == 0x205f
    ||| u == 0x3000
}

/// Tells whether `c` is white space.
pub fn char_is_whitespace(c: char) -> (r: bool)
    ensures
        r == is_whitespace(c),
{
    let u: u32 = c as u32;
    (0x09 <= u && u <= 0x0d) || u == 0x20 || u == 0x85 || u == 0xa0 || u == 0x1680 || (0x2000 <= u
        && u <= 0x200a) || u == 0x2028 || u == 0x2029 || u == 0x202f || u == 0x205f || u == 0x3000
}

/// The index of the first character of `s` that is not white space, or the
/// length of `s` where there is none.
pub open spec fn leading_space(s: Seq<char>) -> int
    decreases s.len(),
{
    if s.len() > 0 && is_whitespace(s[0]) {
        1 + leading_space(s.drop_first())
    } else {
        0
    }
}

/// The number of white-space characters that end `s`.
pub open spec fn trailing_space(s: Seq<char>) -> int
    decreases s.len(),
{
    if s.len() > 0 && is_whitespace(s.last()) {
        1 + trailing_space(s.drop_last())
    } else {
        0
    }
}

/// `s` without the white space that starts it.
pub open spec fn trimmed_start(s: Seq<char>) -> Seq<char> {
    s.subrange(leading_space(s), s.len() as int)
}

/// `s` without the white space that ends it.
pub open spec fn trimmed_end(s: Seq<char>) -> Seq<char> {
    s.subrange(0, s.len() - trailing_space(s))
}

/// `s` without the white space that starts and ends it.
pub open spec fn trimmed(s: Seq<char>) -> Seq<char> {
    trimmed_end(trimmed_start(s))
}

/// Whether `s` holds nothing but white space.
pub open spec fn is_blank(s: Seq<char>) -> bool {
    forall|i: int| 0 <= i < s.len() ==> is_whitespace(#[trigger] s[i])
}

/// The leading white space ends inside `s`, covers only white space, and
/// stops at a character that is none.
pub proof fn lemma_leading_space(s: Seq<char>)
    ensures
        0 <= leading_space(s) <= s.len(),
        forall|i: int| 0 <= i < leading_space(s) ==> is_whitespace(#[trigger] s[i]),
        leading_space(s) < s.len() ==> !is_whitespace(s[leading_space(s)]),
    decreases s.len(),
{
    if s.len() > 0 && is_whitespace(s[0]) {
        let rest = s.drop_first();
        lemma_leading_space(rest);
        assert forall|i: int| 0 <= i < leading_space(s) implies is_whitespace(#[trigger] s[i]) by {
            if i > 0 {
                assert(s[i] == rest[i - 1]);
            }
        }
        if leading_space(s) < s.len() {
            assert(s[leading_space(s)] == rest[leading_space(rest)]);
        }
    }
}

/// The trailing white space starts inside `s`, covers only white space, and
/// follows a character that is none.
pub proof fn lemma_trailing_space(s: Seq<char>)
    ensures
        0 <= trailing_space(s) <= s.len(),
        forall|i: int|
            s.len() - trailing_space(s) <= i < s.len() ==> is_whitespace(#[trigger] s[i]),
        trailing_space(s) < s.len() ==> !is_whitespace(s[s.len() - trailing_space(s) - 1]),
    decreases s.len(),
{
    if s.len() > 0 && is_whitespace(s.last()) {
        let rest = s.drop_last();
        lemma_trailing_space(rest);
        assert forall|i: int| s.len() - trailing_space(s) <= i < s.len() implies is_whitespace(
            #[trigger] s[i],
        ) by {
            if i < s.len() - 1 {
                assert(s[i] == rest[i]);
            }
        }
        if trailing_space(s) < s.len() {
            assert(s[s.len() - trailing_space(s) - 1] == rest[rest.len() - trailing_space(rest)
                - 1]);
        }
    }
}

/// The leading white space of `s` is the only prefix that covers white
/// space alone and stops at a character that is none.
pub proof fn lemma_leading_space_unique(s: Seq<char>, k: int)
    requires
        0 <= k <= s.len(),
        forall|i: int| 0 <= i < k ==> is_whitespace(#[trigger] s[i]),
        k < s.len() ==> !is_whitespace(s[k]),
    ensures
        leading_space(s) == k,
{
    lemma_leading_space(s);
    let l = leading_space(s);
    if l < k {
        assert(is_whitespace(s[l]));
    } else if k < l {
        assert(is_whitespace(s[k]));
    }
}

/// The trailing white space of `s` is the only suffix that covers white
/// space alone and follows a character that is none.
pub proof fn lemma_trailing_space_unique(s: Seq<char>, k: int)
    requires
        0 <= k <= s.len(),
        forall|i: int| s.len() - k <= i < s.len() ==> is_whitespace(#[trigger] s[i]),
        k < s.len() ==> !is_whitespace(s[s.len() - k - 1]),
    ensures
        trailing_space(s) == k,
{
    lemma_trailing_space(s);
    let l = trailing_space(s);
    if l < k {
        assert(is_whitespace(s[s.len() - l - 1]));
    } else if k < l {
        assert(is_whitespace(s[s.len() - k - 1]));
    }
}

/// A string is blank exactly when trimming leaves nothing of it.
pub proof fn lemma_blank_iff_trimmed_empty(s: Seq<char>)
    ensures
        is_blank(s) <==> trimmed(s).len() == 0,
{
    lemma_leading_space(s);
    let t = trimmed_start(s);
    lemma_trailing_space(t);
    if is_blank(s) {
        if leading_space(s) < s.len() {
            assert(is_whitespace(s[leading_space(s)]));
        }
    }
    if trimmed(s).len() == 0 {
        if t.len() > 0 {
            assert(t[0] == s[leading_space(s)]);
            assert(is_whitespace(t[0]));
        }
    }
}

/// The bounds of `chars` once the white space at both ends is left out.
pub fn trim_bounds(chars: &Vec<char>) -> (r: (usize, usize))
    ensures
        r.0 <= r.1 <= chars@.len(),
        r.0 as int == leading_space(chars@),
        chars@.subrange(r.0 as int, r.1 as int) == trimmed(chars@),
{
    let n: usize = chars.len();
    let mut from: usize = 0;
    while from < n && char_is_whitespace(chars[from])
        invariant
            n == chars@.len(),
            from <= n,
            forall|i: int| 0 <= i < from ==> is_whitespace(#[trigger] chars@[i]),
        decreases n - from,
    {
        from = from + 1;
    }
    let mut to: usize = n;
    while to > from && char_is_whitespace(chars[to - 1])
        invariant
            n == chars@.len(),
            from <= to <= n,
            forall|i: int| to <= i < n ==> is_whitespace(#[trigger] chars@[i]),
        decreases to,
    {
        to = to - 1;
    }
    proof {
        lemma_leading_space_unique(chars@, from as int);
        let t = trimmed_start(chars@);
        assert forall|i: int| t.len() - (n - to) <= i < t.len() implies is_whitespace(
            #[trigger] t[i],
        ) by {
            assert(t[i] == chars@[i + from]);
        }
        if n - to < t.len() {
            assert(t[t.len() - (n - to) - 1] == chars@[to - 1]);
        }
        lemma_trailing_space_unique(t, (n - to) as int);
        assert(chars@.subrange(from as int, to as int) =~= trimmed(chars@));
    }
    (from, to)
}

/// Removes the white space that starts and ends `s`.
pub fn trim(s: &str) -> (r: &str)
    ensures
        r@ == trimmed(s@),
{
    let chars = chars_of(s);
    let (from, to) = trim_bounds(&chars);
    s.substring_char(from, to)
}

/// Whether `s` is empty or holds only white space.
pub fn is_blank_str(s: &str) -> (r: bool)
    ensures
        r == is_blank(s@),
{
    let chars = chars_of(s);
    let (from, to) = trim_bounds(&chars);
    proof {
        lemma_blank_iff_trimmed_empty(s@);
    }
    from == to
}

/// Whether two strings hold the same characters.
pub fn str_eq(a: &str, b: &str) -> (r: bool)
    ensures
        r == (a@ == b@),
{
    let x = chars_of(a);
    let y = chars_of(b);
    chars_eq(&x, &y)
}

/// Whether two runs of characters are the same.
pub fn chars_eq(x: &Vec<char>, y: &Vec<char>) -> (r: bool)
    ensures
        r == (x@ == y@),
{
    if x.len() != y.len() {
        return false;
    }
    let mut i: usize = 0;
    while i < x.len()
        invariant
            x@.len() == y@.len(),
            i <= x@.len(),
            forall|k: int| 0 <= k < i ==> x@[k] == y@[k],
        decreases x@.len() - i,
    {
        if x[i] != y[i] {
            return false;
        }
        i = i + 1;
    }
    assert(x@ =~= y@);
    true
}


/// The lower-case form that the standard library gives to a string.
pub uninterp spec fn lowercase_of(s: Seq<char>) -> Seq<char>;

/// Lower-cases `s` with `str::to_lowercase` of the standard library, which
/// follows Unicode's rules. Nothing is claimed of the result beyond that it
/// depends on the characters of `s` alone.
#[verifier::external_body]
pub(crate) fn to_lowercase(s: &str) -> (r: String)
    ensures
        r@ == lowercase_of(s@),
{
    s.to_lowercase()
}

/// The index of the first `sep` in `s`, or the length of `s` where there
/// is none.
pub open spec fn first_index_of(s: Seq<char>, sep: char) -> int
    decreases s.len(),
{
    if s.len() == 0 || s[0] == sep {
        0
    } else {
        1 + first_index_of(s.drop_first(), sep)
    }
}

/// The pieces of `s` that lie between occurrences of `sep`, in order. A
/// string with `k` separators has `k + 1` pieces, some of which may be
/// empty.
pub open spec fn split_on(s: Seq<char>, sep: char) -> Seq<Seq<char>>
    decreases s.len(),
{
    let i = first_index_of(s, sep);
    if 0 <= i < s.len() {
        seq![s.subrange(0, i)] + split_on(s.subrange(i + 1, s.len() as int), sep)
    } else {
        seq![s]
    }
}

/// The first separator lies inside `s` or at its end, and nothing before it
/// is a separator.
pub proof fn lemma_first_index_of(s: Seq<char>, sep: char)
    ensures
        0 <= first_index_of(s, sep) <= s.len(),
        forall|i: int| 0 <= i < first_index_of(s, sep) ==> #[trigger] s[i] != sep,
        first_index_of(s, sep) < s.len() ==> s[first_index_of(s, sep)] == sep,
    decreases s.len(),
{
    if !(s.len() == 0 || s[0] == sep) {
        let rest = s.drop_first();
        lemma_first_index_of(rest, sep);
        assert forall|i: int| 0 <= i < first_index_of(s, sep) implies #[trigger] s[i] != sep by {
            if i > 0 {
                assert(s[i] == rest[i - 1]);
            }
        }
        if first_index_of(s, sep) < s.len() {
            assert(s[first_index_of(s, sep)] == rest[first_index_of(rest, sep)]);
        }
    }
}

/// The first separator is the only position that holds one and has none
/// before it.
pub proof fn lemma_first_index_of_unique(s: Seq<char>, sep: char, k: int)
    requires
        0 <= k <= s.len(),
        forall|i: int| 0 <= i < k ==> #[trigger] s[i] != sep,
        k < s.len() ==> s[k] == sep,
    ensures
        first_index_of(s, sep) == k,
{
    lemma_first_index_of(s, sep);
    let f = first_index_of(s, sep);
    if f < k {
        assert(s[f] != sep);
    } else if k < f {
        assert(s[k] != sep);
    }
}

/// Splits `s` at every occurrence of `sep`.
pub fn split_on_char(s: &str, sep: char) -> (parts: Vec<String>)
    ensures
        parts@.len() == split_on(s@, sep).len(),
        forall|i: int| 0 <= i < parts@.len() ==> (#[trigger] parts@[i])@ == split_on(s@, sep)[i],
{
    let chars = chars_of(s);
    let n: usize = chars.len();
    let mut parts: Vec<String> = Vec::new();
    let mut start: usize = 0;
    let ghost mut done: Seq<Seq<char>> = Seq::empty();
    proof {
        assert(s@.subrange(0, n as int) =~= s@);
    }
    loop
        invariant
            chars@ == s@,
            n == chars@.len(),
            start <= n,
            parts@.len() == done.len(),
            forall|i: int| 0 <= i < parts@.len() ==> (#[trigger] parts@[i])@ == done[i],
            split_on(s@, sep) == done + split_on(s@.subrange(start as int, n as int), sep),
        decreases n - start,
    {
        let ghost rest = s@.subrange(start as int, n as int);
        let mut end: usize = start;
        while end < n && chars[end] != sep
            invariant
                chars@ == s@,
                n == chars@.len(),
                start <= end <= n,
                forall|i: int| start <= i < end ==> #[trigger] chars@[i] != sep,
            decreases n - end,
        {
            end = end + 1;
        }
        proof {
            assert forall|i: int| 0 <= i < end - start implies #[trigger] rest[i] != sep by {
                assert(rest[i] == chars@[i + start]);
            }
            lemma_first_index_of_unique(rest, sep, end - start);
        }
        let piece: &str = s.substring_char(start, end);
        let owned: String = piece.to_owned();
        if end < n {
            proof {
                assert(rest.subrange(0, end - start) =~= s@.subrange(start as int, end as int));
                assert(rest.subrange(end - start + 1, rest.len() as int) =~= s@.subrange(
                    end as int + 1,
                    n as int,
                ));
                assert(done + (seq![rest.subrange(0, end - start)] + split_on(
                    rest.subrange(end - start + 1, rest.len() as int),
                    sep,
                )) =~= done.push(owned@) + split_on(s@.subrange(end as int + 1, n as int), sep));
                done = done.push(owned@);
            }
            parts.push(owned);
            start = end + 1;
        } else {
            proof {
                assert(rest =~= s@.subrange(start as int, end as int));
                assert(done + seq![rest] =~= done.push(owned@));
                done = done.push(owned@);
            }
            parts.push(owned);
            return parts;
        }
    }
}


/// Whether `s` starts with `prefix`.
pub open spec fn has_prefix(s: Seq<char>, prefix: Seq<char>) -> bool {
    prefix.len() <= s.len() && s.subrange(0, prefix.len() as int) == prefix
}

/// Whether `s` ends with `suffix`.
pub open spec fn has_suffix(s: Seq<char>, suffix: Seq<char>) -> bool {
    suffix.len() <= s.len() && s.subrange(s.len() - suffix.len(), s.len() as int) == suffix
}

/// Whether `pattern` stands in `chars` at position `at`.
pub fn occurs_at(chars: &Vec<char>, at: usize, pattern: &Vec<char>) -> (r: bool)
    requires
        at <= chars@.len(),
    ensures
        r == has_prefix(chars@.subrange(at as int, chars@.len() as int), pattern@),
{
    let n: usize = chars.len();
    let m: usize = pattern.len();
    let ghost rest = chars@.subrange(at as int, n as int);
    if m > n - at {
        return false;
    }
    let mut i: usize = 0;
    while i < m
        invariant
            n == chars@.len(),
            m == pattern@.len(),
            at <= n,
            m <= n - at,
            i <= m,
            rest == chars@.subrange(at as int, n as int),
            forall|k: int| 0 <= k < i ==> chars@[at + k] == pattern@[k],
        decreases m - i,
    {
        if chars[at + i] != pattern[i] {
            proof {
                assert(rest.subrange(0, m as int)[i as int] == chars@[at + i]);
            }
            return false;
        }
        i = i + 1;
    }
    proof {
        assert(rest.subrange(0, m as int) =~= pattern@);
    }
    true
}

/// Whether `s` starts with `prefix`.
pub fn starts_with(s: &str, prefix: &str) -> (r: bool)
    ensures
        r == has_prefix(s@, prefix@),
{
    let chars = chars_of(s);
    let pattern = chars_of(prefix);
    proof {
        assert(chars@.subrange(0, chars@.len() as int) =~= chars@);
    }
    occurs_at(&chars, 0, &pattern)
}

/// Whether `s` ends with `suffix`.
pub fn ends_with(s: &str, suffix: &str) -> (r: bool)
    ensures
        r == has_suffix(s@, suffix@),
{
    let chars = chars_of(s);
    let pattern = chars_of(suffix);
    if pattern.len() > chars.len() {
        return false;
    }
    let at: usize = chars.len() - pattern.len();
    proof {
        let rest = chars@.subrange(at as int, chars@.len() as int);
        assert(rest.subrange(0, pattern@.len() as int) =~= rest);
    }
    occurs_at(&chars, at, &pattern)
}

/// `s` without `prefix` at its start, where it starts with it.
pub fn strip_prefix<'a>(s: &'a str, prefix: &str) -> (r: Option<&'a str>)
    ensures
        match r {
            Some(rest) => has_prefix(s@, prefix@) && rest@ == s@.subrange(
                prefix@.len() as int,
                s@.len() as int,
            ),
            None => !has_prefix(s@, prefix@),
        },
{
    if starts_with(s, prefix) {
        Some(s.substring_char(prefix.unicode_len(), s.unicode_len()))
    } else {
        None
    }
}

/// `s` without `suffix` at its end, where it ends with it.
pub fn strip_suffix<'a>(s: &'a str, suffix: &str) -> (r: Option<&'a str>)
    ensures
        match r {
            Some(rest) => has_suffix(s@, suffix@) && rest@ == s@.subrange(
                0,
                s@.len() - suffix@.len(),
            ),
            None => !has_suffix(s@, suffix@),
        },
{
    if ends_with(s, suffix) {
        Some(s.substring_char(0, s.unicode_len() - suffix.unicode_len()))
    } else {
        None
    }
}

/// The parts written one after the other with `sep` between each two.
pub open spec fn joined(parts: Seq<Seq<char>>, sep: Seq<char>) -> Seq<char>
    decreases parts.len(),
{
    if parts.len() == 0 {
        Seq::empty()
    } else if parts.len() == 1 {
        parts[0]
    } else {
        joined(parts.drop_last(), sep) + sep + parts.last()
    }
}

/// The character sequences of a list of strings.
pub open spec fn string_views(strings: Seq<String>) -> Seq<Seq<char>> {
    strings.map_values(|s: String| s@)
}

/// Writes `parts` one after the other with `sep` between each two.
pub fn join(parts: &Vec<String>, sep: &str) -> (r: String)
    ensures
        r@ == joined(string_views(parts@), sep@),
{
    let mut out = String::new();
    let ghost views = string_views(parts@);
    let mut i: usize = 0;
    while i < parts.len()
        invariant
            views == string_views(parts@),
            i <= parts@.len(),
            out@ == joined(views.subrange(0, i as int), sep@),
        decreases parts@.len() - i,
    {
        proof {
            let next = views.subrange(0, i as int + 1);
            assert(next.drop_last() =~= views.subrange(0, i as int));
            assert(next.last() == parts@[i as int]@);
            if i == 0 {
                assert(out@ + parts@[0]@ =~= parts@[0]@);
            }
        }
        if i > 0 {
            out.append(sep);
        }
        out.append(parts[i].as_str());
        i = i + 1;
    }
    proof {
        assert(views.subrange(0, parts@.len() as int) =~= views);
    }
    out
}


/// `s` with `to` before each of its characters and after the last.
pub open spec fn interleaved(s: Seq<char>, to: Seq<char>) -> Seq<char>
    decreases s.len(),
{
    if s.len() == 0 {
        to
    } else {
        to + seq![s[0]] + interleaved(s.drop_first(), to)
    }
}

/// `s` with every occurrence of `from` replaced by `to`. Occurrences are
/// found from left to right and do not overlap. An empty `from` occurs
/// before each character and after the last.
pub open spec fn replaced(s: Seq<char>, from: Seq<char>, to: Seq<char>) -> Seq<char>
    decreases s.len(),
{
    if from.len() == 0 {
        interleaved(s, to)
    } else if s.len() < from.len() {
        s
    } else if has_prefix(s, from) {
        to + replaced(s.subrange(from.len() as int, s.len() as int), from, to)
    } else {
        seq![s[0]] + replaced(s.drop_first(), from, to)
    }
}

/// Puts `to` before each character of `s` and after the last.
fn interleave(s: &str, to: &str) -> (r: String)
    ensures
        r@ == interleaved(s@, to@),
{
    let n: usize = s.unicode_len();
    let mut out = String::new();
    let mut i: usize = 0;
    proof {
        assert(s@.subrange(0, n as int) =~= s@);
        assert(out@ + interleaved(s@, to@) =~= interleaved(s@, to@));
    }
    while i < n
        invariant
            n == s@.len(),
            i <= n,
            out@ + interleaved(s@.subrange(i as int, n as int), to@) == interleaved(s@, to@),
        decreases n - i,
    {
        let ghost rest = s@.subrange(i as int, n as int);
        let ghost before = out@;
        out.append(to);
        out.append(s.substring_char(i, i + 1));
        proof {
            assert(rest.drop_first() =~= s@.subrange(i as int + 1, n as int));
            assert(s@.subrange(i as int, i as int + 1) =~= seq![rest[0]]);
            assert(out@ + interleaved(s@.subrange(i as int + 1, n as int), to@) =~= before
                + interleaved(rest, to@));
        }
        i = i + 1;
    }
    let ghost before = out@;
    out.append(to);
    proof {
        assert(s@.subrange(n as int, n as int) =~= Seq::<char>::empty());
        assert(out@ =~= before + interleaved(s@.subrange(n as int, n as int), to@));
    }
    out
}

/// Replaces every occurrence of `from` in `s` by `to`.
pub fn replace_all(s: &str, from: &str, to: &str) -> (r: String)
    ensures
        r@ == replaced(s@, from@, to@),
{
    if from.unicode_len() == 0 {
        return interleave(s, to);
    }
    let chars = chars_of(s);
    let pattern = chars_of(from);
    let n: usize = chars.len();
    let m: usize = pattern.len();
    let mut out = String::new();
    let mut run: usize = 0;
    let mut i: usize = 0;
    proof {
        assert(s@.subrange(0, n as int) =~= s@);
        assert(out@ + s@.subrange(0, 0) + replaced(s@, from@, to@) =~= replaced(s@, from@, to@));
    }
    while n - i >= m
        invariant
            chars@ == s@,
            pattern@ == from@,
            n == s@.len(),
            m == from@.len(),
            m > 0,
            run <= i <= n,
            out@ + s@.subrange(run as int, i as int) + replaced(
                s@.subrange(i as int, n as int),
                from@,
                to@,
            ) == replaced(s@, from@, to@),
        decreases n - i,
    {
        let ghost rest = s@.subrange(i as int, n as int);
        if occurs_at(&chars, i, &pattern) {
            let ghost before = out@;
            out.append(s.substring_char(run, i));
            out.append(to);
            proof {
                assert(rest.subrange(m as int, rest.len() as int) =~= s@.subrange(
                    i as int + m as int,
                    n as int,
                ));
                assert(out@ + s@.subrange(i as int + m as int, i as int + m as int) + replaced(
                    s@.subrange(i as int + m as int, n as int),
                    from@,
                    to@,
                ) =~= before + s@.subrange(run as int, i as int) + replaced(rest, from@, to@));
            }
            i = i + m;
            run = i;
        } else {
            proof {
                assert(rest.drop_first() =~= s@.subrange(i as int + 1, n as int));
                assert(out@ + s@.subrange(run as int, i as int + 1) + replaced(
                    s@.subrange(i as int + 1, n as int),
                    from@,
                    to@,
                ) =~= out@ + s@.subrange(run as int, i as int) + replaced(rest, from@, to@));
            }
            i = i + 1;
        }
    }
    let ghost before = out@;
    out.append(s.substring_char(run, n));
    proof {
        assert(out@ =~= before + s@.subrange(run as int, i as int) + replaced(
            s@.subrange(i as int, n as int),
            from@,
            to@,
        ));
    }
    out
}


/// The lower-case form of an ASCII capital, and any other character as it
/// is.
pub open spec fn ascii_lower(c: char) -> char {
    if 'A' <= c <= 'Z' {
        ((c as u8) + 32) as char
    } else {
        c
    }
}

/// Whether two strings are the same once ASCII capitals are lower-cased.
pub open spec fn eq_ignoring_ascii_case(a: Seq<char>, b: Seq<char>) -> bool {
    a.len() == b.len() && forall|i: int|
        0 <= i < a.len() ==> ascii_lower(#[trigger] a[i]) == ascii_lower(b[i])
}

/// Lower-cases an ASCII capital.
pub fn char_ascii_lower(c: char) -> (r: char)
    ensures
        r == ascii_lower(c),
{
    if 'A' <= c && c <= 'Z' {
        ((c as u8) + 32) as char
    } else {
        c
    }
}

/// Whether two strings are the same once ASCII capitals are lower-cased.
pub fn eq_ignore_ascii_case(a: &str, b: &str) -> (r: bool)
    ensures
        r == eq_ignoring_ascii_case(a@, b@),
{
    let x = chars_of(a);
    let y = chars_of(b);
    proof {
        assert(x@.subrange(0, x@.len() as int) =~= x@);
    }
    chars_eq_ignore_ascii_case(&x, 0, x.len(), &y)
}

/// Whether the characters of `x` from `from` up to `to` are those of `y`
/// once ASCII capitals are lower-cased.
pub fn chars_eq_ignore_ascii_case(x: &Vec<char>, from: usize, to: usize, y: &Vec<char>) -> (r:
    bool)
    requires
        from <= to <= x@.len(),
    ensures
        r == eq_ignoring_ascii_case(x@.subrange(from as int, to as int), y@),
{
    let ghost part = x@.subrange(from as int, to as int);
    if to - from != y.len() {
        return false;
    }
    let mut i: usize = 0;
    while i < y.len()
        invariant
            from <= to <= x@.len(),
            to - from == y@.len(),
            part == x@.subrange(from as int, to as int),
            i <= y@.len(),
            forall|k: int| 0 <= k < i ==> ascii_lower(#[trigger] part[k]) == ascii_lower(y@[k]),
        decreases y@.len() - i,
    {
        if char_ascii_lower(x[from + i]) != char_ascii_lower(y[i]) {
            assert(part[i as int] == x@[from + i]);
            return false;
        }
        assert(part[i as int] == x@[from + i]);
        i = i + 1;
    }
    true
}

/// Whether `c` ends a sentence: a full stop, an exclamation mark or a
/// question mark.
pub open spec fn is_end_mark(c: char) -> bool {
    c == '.' || c == '!' || c == '?'
}

/// The number of end marks that close `s`.
pub open spec fn trailing_marks(s: Seq<char>) -> int
    decreases s.len(),
{
    if s.len() > 0 && is_end_mark(s.last()) {
        1 + trailing_marks(s.drop_last())
    } else {
        0
    }
}

/// `s` without the end marks that close it.
pub open spec fn without_end_marks(s: Seq<char>) -> Seq<char> {
    s.subrange(0, s.len() - trailing_marks(s))
}

/// Whether `a` comes before `b` when strings are ordered character by
/// character, a string coming after each of its proper prefixes.
pub open spec fn lex_lt(a: Seq<char>, b: Seq<char>) -> bool
    decreases a.len(),
{
    if b.len() == 0 {
        false
    } else if a.len() == 0 {
        true
    } else if a[0] != b[0] {
        a[0] < b[0]
    } else {
        lex_lt(a.drop_first(), b.drop_first())
    }
}

/// Whether `a` comes before `b` in the order of `lex_lt`.
pub fn precedes(a: &str, b: &str) -> (r: bool)
    ensures
        r == lex_lt(a@, b@),
{
    let x = chars_of(a);
    let y = chars_of(b);
    let mut i: usize = 0;
    proof {
        assert(x@.subrange(0, x@.len() as int) =~= x@);
        assert(y@.subrange(0, y@.len() as int) =~= y@);
    }
    loop
        invariant
            x@ == a@,
            y@ == b@,
            i <= x@.len(),
            i <= y@.len(),
            lex_lt(a@, b@) == lex_lt(
                x@.subrange(i as int, x@.len() as int),
                y@.subrange(i as int, y@.len() as int),
            ),
        decreases x@.len() - i,
    {
        let ghost xs = x@.subrange(i as int, x@.len() as int);
        let ghost ys = y@.subrange(i as int, y@.len() as int);
        if i >= y.len() {
            return false;
        }
        if i >= x.len() {
            return true;
        }
        proof {
            assert(xs[0] == x@[i as int]);
            assert(ys[0] == y@[i as int]);
            assert(xs.drop_first() =~= x@.subrange(i as int + 1, x@.len() as int));
            assert(ys.drop_first() =~= y@.subrange(i as int + 1, y@.len() as int));
        }
        if x[i] != y[i] {
            return x[i] < y[i];
        }
        i = i + 1;
    }
}


/// Of two strings at most one comes before the other.
pub proof fn lemma_lex_lt_asymmetric(a: Seq<char>, b: Seq<char>)
    ensures
        lex_lt(a, b) ==> !lex_lt(b, a),
    decreases a.len(),
{
    if a.len() > 0 && b.len() > 0 && a[0] == b[0] {
        lemma_lex_lt_asymmetric(a.drop_first(), b.drop_first());
    }
}

/// A string that comes before another comes before every third string or
/// has that string before the other.
pub proof fn lemma_lex_lt_between(a: Seq<char>, b: Seq<char>, c: Seq<char>)
    ensures
        lex_lt(a, c) ==> lex_lt(a, b) || lex_lt(b, c),
    decreases a.len(),
{
    if a.len() > 0 && b.len() > 0 && c.len() > 0 && a[0] == b[0] && b[0] == c[0] {
        lemma_lex_lt_between(a.drop_first(), b.drop_first(), c.drop_first());
    }
}


/// Writes two strings one after the other.
pub fn concat2(a: &str, b: &str) -> (r: String)
    ensures
        r@ == a@ + b@,
{
    let mut out = String::new();
    out.append(a);
    out.append(b);
    assert(out@ =~= a@ + b@);
    out
}

/// Writes three strings one after the other.
pub fn concat3(a: &str, b: &str, c: &str) -> (r: String)
    ensures
        r@ == a@ + b@ + c@,
{
    let mut out = String::new();
    out.append(a);
    out.append(b);
    out.append(c);
    assert(out@ =~= a@ + b@ + c@);
    out
}


/// The number of characters that open `s` and are not white space.
pub open spec fn word_len(s: Seq<char>) -> int
    decreases s.len(),
{
    if s.len() > 0 && !is_whitespace(s[0]) {
        1 + word_len(s.drop_first())
    } else {
        0
    }
}

/// The words of `s`: its longest runs of characters that are not white
/// space, in order.
pub open spec fn words_of(s: Seq<char>) -> Seq<Seq<char>>
    decreases s.len(),
{
    if s.len() == 0 {
        Seq::empty()
    } else if is_whitespace(s[0]) {
        words_of(s.drop_first())
    } else {
        let n = word_len(s);
        if 0 < n <= s.len() {
            seq![s.subrange(0, n)] + words_of(s.subrange(n, s.len() as int))
        } else {
            Seq::empty()
        }
    }
}

/// A word ends inside `s`; it holds no white space and is followed by some
/// or by nothing.
pub proof fn lemma_word_len(s: Seq<char>)
    ensures
        0 <= word_len(s) <= s.len(),
        forall|i: int| 0 <= i < word_len(s) ==> !is_whitespace(#[trigger] s[i]),
        word_len(s) < s.len() ==> is_whitespace(s[word_len(s)]),
        s.len() > 0 && !is_whitespace(s[0]) ==> word_len(s) > 0,
    decreases s.len(),
{
    if s.len() > 0 && !is_whitespace(s[0]) {
        let rest = s.drop_first();
        lemma_word_len(rest);
        assert forall|i: int| 0 <= i < word_len(s) implies !is_whitespace(#[trigger] s[i]) by {
            if i > 0 {
                assert(s[i] == rest[i - 1]);
            }
        }
        if word_len(s) < s.len() {
            assert(s[word_len(s)] == rest[word_len(rest)]);
        }
    }
}

/// The word that opens `s` is the only run without white space that is
/// followed by some or by nothing.
pub proof fn lemma_word_len_unique(s: Seq<char>, k: int)
    requires
        0 <= k <= s.len(),
        forall|i: int| 0 <= i < k ==> !is_whitespace(#[trigger] s[i]),
        k < s.len() ==> is_whitespace(s[k]),
    ensures
        word_len(s) == k,
{
    lemma_word_len(s);
    let w = word_len(s);
    if w < k {
        assert(!is_whitespace(s[w]));
    } else if k < w {
        assert(!is_whitespace(s[k]));
    }
}

/// Splits `s` into its words.
pub fn split_words(s: &str) -> (words: Vec<String>)
    ensures
        string_views(words@) == words_of(s@),
{
    let chars = chars_of(s);
    let n: usize = chars.len();
    let mut words: Vec<String> = Vec::new();
    let mut i: usize = 0;
    proof {
        assert(s@.subrange(0, n as int) =~= s@);
        assert(string_views(words@) + words_of(s@) =~= words_of(s@));
    }
    while i < n
        invariant
            chars@ == s@,
            n == chars@.len(),
            i <= n,
            words_of(s@) == string_views(words@) + words_of(s@.subrange(i as int, n as int)),
        decreases n - i,
    {
        let ghost rest = s@.subrange(i as int, n as int);
        proof {
            assert(rest[0] == chars@[i as int]);
        }
        if char_is_whitespace(chars[i]) {
            proof {
                assert(rest.drop_first() =~= s@.subrange(i as int + 1, n as int));
            }
            i = i + 1;
        } else {
            let mut end: usize = i + 1;
            while end < n && !char_is_whitespace(chars[end])
                invariant
                    chars@ == s@,
                    n == chars@.len(),
                    i < end <= n,
                    forall|k: int| i <= k < end ==> !is_whitespace(#[trigger] chars@[k]),
                decreases n - end,
            {
                end = end + 1;
            }
            let word: String = s.substring_char(i, end).to_owned();
            proof {
                assert forall|k: int| 0 <= k < end - i implies !is_whitespace(#[trigger] rest[k]) by {
                    assert(rest[k] == chars@[k + i]);
                }
                if end < n {
                    assert(rest[end - i] == chars@[end as int]);
                }
                lemma_word_len_unique(rest, end - i);
                assert(rest.subrange(0, end - i) =~= word@);
                assert(rest.subrange(end - i, rest.len() as int) =~= s@.subrange(
                    end as int,
                    n as int,
                ));
                assert(string_views(words@.push(word)) =~= string_views(words@).push(word@));
                assert(string_views(words@).push(word@) + words_of(
                    s@.subrange(end as int, n as int),
                ) =~= string_views(words@) + (seq![word@] + words_of(
                    s@.subrange(end as int, n as int),
                )));
            }
            words.push(word);
            i = end;
        }
    }
    proof {
        assert(string_views(words@) + Seq::<Seq<char>>::empty() =~= string_views(words@));
    }
    words
}

} // verus!
