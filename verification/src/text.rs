//! Text as sequences of characters: searching, splitting, trimming and
//! decimal numerals. Every contract here is stated over `Seq<char>`, the
//! view of `str` and `String`.

use vstd::prelude::*;
use vstd::std_specs::iter::IteratorSpec;
use vstd::string::*;

verus! {

broadcast use vstd::string::group_string_axioms;

/// The characters with the Unicode property `White_Space`.
pub open spec fn is_space(c: char) -> bool {
    ||| '\u{9}' <= c <= '\u{d}'
    ||| c == ' '
    ||| c == '\u{85}'
    ||| c == '\u{a0}'
    ||| c == '\u{1680}'
    ||| '\u{2000}' <= c <= '\u{200a}'
    ||| c == '\u{2028}'
    ||| c == '\u{2029}'
    ||| c == '\u{202f}'
    ||| c == '\u{205f}'
    ||| c == '\u{3000}'
}

/// `s` without its leading white space.
pub open spec fn trimmed_start(s: Seq<char>) -> Seq<char>
    decreases s.len(),
{
    if s.len() > 0 && is_space(s[0]) {
        trimmed_start(s.skip(1))
    } else {
        s
    }
}

/// `s` without its trailing white space.
pub open spec fn trimmed_end(s: Seq<char>) -> Seq<char>
    decreases s.len(),
{
    if s.len() > 0 && is_space(s.last()) {
        trimmed_end(s.drop_last())
    } else {
        s
    }
}

/// `s` without the white space that surrounds it.
pub open spec fn trimmed(s: Seq<char>) -> Seq<char> {
    trimmed_end(trimmed_start(s))
}

/// Neither end of `s` is white space.
pub open spec fn is_trimmed(s: Seq<char>) -> bool {
    s.len() > 0 ==> !is_space(s.first()) && !is_space(s.last())
}

/// The index of the first `c` in `s`, or the length of `s` if there is none.
pub open spec fn index_of(s: Seq<char>, c: char) -> int
    decreases s.len(),
{
    if s.len() == 0 || s[0] == c {
        0
    } else {
        1 + index_of(s.skip(1), c)
    }
}

/// The pieces of `s` between occurrences of `sep`; never empty.
pub open spec fn split(s: Seq<char>, sep: char) -> Seq<Seq<char>>
    decreases s.len(),
{
    let i = index_of(s, sep);
    if 0 <= i < s.len() {
        seq![s.take(i)] + split(s.skip(i + 1), sep)
    } else {
        seq![s]
    }
}

/// The pieces joined again, with `sep` between each two.
pub open spec fn join(parts: Seq<Seq<char>>, sep: char) -> Seq<char>
    decreases parts.len(),
{
    if parts.len() == 0 {
        Seq::empty()
    } else if parts.len() == 1 {
        parts[0]
    } else {
        parts[0] + seq![sep] + join(parts.skip(1), sep)
    }
}

/// No character of `s` is `c`.
pub open spec fn free_of(s: Seq<char>, c: char) -> bool {
    forall|i: int| 0 <= i < s.len() ==> s[i] != c
}

/// `s` ends with `suffix`.
pub open spec fn ends_with(s: Seq<char>, suffix: Seq<char>) -> bool {
    suffix.len() <= s.len() && s.skip(s.len() - suffix.len()) == suffix
}

/// The texts of a sequence of strings.
pub open spec fn texts(v: Seq<String>) -> Seq<Seq<char>> {
    Seq::new(v.len(), |i: int| v[i]@)
}

/// The decimal digit for `d`, which is below ten.
pub open spec fn digit(d: int) -> char {
    if d == 0 {
        '0'
    } else if d == 1 {
        '1'
    } else if d == 2 {
        '2'
    } else if d == 3 {
        '3'
    } else if d == 4 {
        '4'
    } else if d == 5 {
        '5'
    } else if d == 6 {
        '6'
    } else if d == 7 {
        '7'
    } else if d == 8 {
        '8'
    } else {
        '9'
    }
}

/// The decimal numeral of `n`, without leading zeros.
pub open spec fn decimal_of(n: nat) -> Seq<char>
    decreases n,
{
    if n < 10 {
        seq![digit(n as int)]
    } else {
        decimal_of(n / 10).push(digit((n % 10) as int))
    }
}

/// The first `c` lies within the text or at its end, no character before
/// it is `c`, and within the text it is a `c`.
pub proof fn lemma_index_of_bounds(s: Seq<char>, c: char)
    ensures
        0 <= index_of(s, c) <= s.len(),
        forall|j: int| 0 <= j < index_of(s, c) ==> s[j] != c,
        index_of(s, c) < s.len() ==> s[index_of(s, c)] == c,
    decreases s.len(),
{
    if s.len() == 0 || s[0] == c {
    } else {
        let t = s.skip(1);
        lemma_index_of_bounds(t, c);
        assert forall|j: int| 0 <= j < index_of(s, c) implies s[j] != c by {
            if j > 0 {
                assert(s[j] == t[j - 1]);
            }
        }
    }
}

/// The first `c` is where a `c` stands with none before it.
pub proof fn lemma_index_of_is(s: Seq<char>, c: char, i: int)
    requires
        0 <= i <= s.len(),
        forall|j: int| 0 <= j < i ==> s[j] != c,
        i < s.len() ==> s[i] == c,
    ensures
        index_of(s, c) == i,
    decreases s.len(),
{
    if s.len() == 0 || s[0] == c {
    } else {
        let t = s.skip(1);
        assert forall|j: int| 0 <= j < i - 1 implies t[j] != c by {
            assert(t[j] == s[j + 1]);
        }
        lemma_index_of_is(t, c, i - 1);
    }
}

/// Joining one more piece appends the separator and the piece.
pub proof fn lemma_join_push(parts: Seq<Seq<char>>, last: Seq<char>, sep: char)
    ensures
        join(parts.push(last), sep) == if parts.len() == 0 {
            last
        } else {
            join(parts, sep) + seq![sep] + last
        },
    decreases parts.len(),
{
    let all = parts.push(last);
    if parts.len() == 0 {
    } else {
        let rest = parts.skip(1);
        assert(all.skip(1) == rest.push(last));
        lemma_join_push(rest, last, sep);
        if rest.len() == 0 {
            assert(join(all, sep) == parts[0] + seq![sep] + last);
        } else {
            assert(join(all, sep) == parts[0] + seq![sep] + (join(rest, sep) + seq![sep] + last));
            assert(join(all, sep) == (parts[0] + seq![sep] + join(rest, sep)) + seq![sep] + last);
        }
    }
}

/// Splitting undoes joining, where no piece holds the separator.
pub proof fn lemma_split_join(parts: Seq<Seq<char>>, sep: char)
    requires
        parts.len() > 0,
        forall|i: int| 0 <= i < parts.len() ==> free_of(#[trigger] parts[i], sep),
    ensures
        split(join(parts, sep), sep) == parts,
    decreases parts.len(),
{
    let whole = join(parts, sep);
    let head = parts[0];
    if parts.len() == 1 {
        lemma_index_of_is(whole, sep, whole.len() as int);
        assert(seq![whole] == parts);
    } else {
        let rest = parts.skip(1);
        assert forall|i: int| 0 <= i < rest.len() implies free_of(#[trigger] rest[i], sep) by {
            assert(rest[i] == parts[i + 1]);
        }
        lemma_split_join(rest, sep);
        assert forall|j: int| 0 <= j < head.len() implies whole[j] != sep by {
            assert(whole[j] == head[j]);
        }
        lemma_index_of_is(whole, sep, head.len() as int);
        assert(whole.take(head.len() as int) == head);
        assert(whole.skip(head.len() as int + 1) == join(rest, sep));
        assert(seq![head] + rest == parts);
    }
}

/// Trimming at the start drops the first `i` characters, where they are
/// white space and the next is not.
pub proof fn lemma_trimmed_start_is(s: Seq<char>, i: int)
    requires
        0 <= i <= s.len(),
        forall|j: int| 0 <= j < i ==> is_space(s[j]),
        i < s.len() ==> !is_space(s[i]),
    ensures
        trimmed_start(s) == s.skip(i),
    decreases s.len(),
{
    if i == 0 {
        assert(s.skip(0) == s);
    } else {
        let t = s.skip(1);
        assert forall|j: int| 0 <= j < i - 1 implies is_space(t[j]) by {
            assert(t[j] == s[j + 1]);
        }
        lemma_trimmed_start_is(t, i - 1);
        assert(t.skip(i - 1) == s.skip(i));
    }
}

/// Trimming at the end keeps the first `n` characters, where all after
/// them are white space and the last of them is not.
pub proof fn lemma_trimmed_end_is(s: Seq<char>, n: int)
    requires
        0 <= n <= s.len(),
        forall|j: int| n <= j < s.len() ==> is_space(s[j]),
        n > 0 ==> !is_space(s[n - 1]),
    ensures
        trimmed_end(s) == s.take(n),
    decreases s.len(),
{
    if n == s.len() {
        assert(s.take(n) == s);
    } else {
        let t = s.drop_last();
        lemma_trimmed_end_is(t, n);
        assert(t.take(n) == s.take(n));
    }
}

/// No piece of a split holds the separator.
pub proof fn lemma_split_free(s: Seq<char>, sep: char)
    ensures
        forall|i: int| 0 <= i < split(s, sep).len() ==> free_of(#[trigger] split(s, sep)[i], sep),
    decreases s.len(),
{
    let at = index_of(s, sep);
    lemma_index_of_bounds(s, sep);
    if 0 <= at < s.len() {
        let rest = s.skip(at + 1);
        lemma_split_free(rest, sep);
        assert forall|i: int| 0 <= i < split(s, sep).len() implies free_of(
            #[trigger] split(s, sep)[i],
            sep,
        ) by {
            if i > 0 {
                assert(split(s, sep)[i] == split(rest, sep)[i - 1]);
            }
        }
    }
}

/// Trimming brings no character in: what the text was free of, the
/// trimmed text is free of.
pub proof fn lemma_trimmed_free(s: Seq<char>, c: char)
    requires
        free_of(s, c),
    ensures
        free_of(trimmed(s), c),
{
    lemma_trimmed_start_free(s, c);
    lemma_trimmed_end_shape(trimmed_start(s));
}

proof fn lemma_trimmed_start_free(s: Seq<char>, c: char)
    requires
        free_of(s, c),
    ensures
        free_of(trimmed_start(s), c),
    decreases s.len(),
{
    if s.len() > 0 && is_space(s[0]) {
        let rest = s.skip(1);
        assert forall|i: int| 0 <= i < rest.len() implies rest[i] != c by {
            assert(rest[i] == s[i + 1]);
        }
        lemma_trimmed_start_free(rest, c);
    }
}

/// What trimming yields has no white space at either end.
pub proof fn lemma_trimmed_is_trimmed(s: Seq<char>)
    ensures
        is_trimmed(trimmed(s)),
{
    lemma_trimmed_start_shape(s);
    let t = trimmed_start(s);
    lemma_trimmed_end_shape(t);
    let r = trimmed_end(t);
    if r.len() > 0 {
        assert(r.first() == t.first());
    }
}

proof fn lemma_trimmed_start_shape(s: Seq<char>)
    ensures
        trimmed_start(s).len() > 0 ==> !is_space(trimmed_start(s).first()),
    decreases s.len(),
{
    if s.len() > 0 && is_space(s[0]) {
        lemma_trimmed_start_shape(s.skip(1));
    }
}

proof fn lemma_trimmed_end_shape(s: Seq<char>)
    ensures
        trimmed_end(s).len() > 0 ==> !is_space(trimmed_end(s).last()),
        trimmed_end(s).len() <= s.len(),
        trimmed_end(s) == s.take(trimmed_end(s).len() as int),
    decreases s.len(),
{
    if s.len() > 0 && is_space(s.last()) {
        let t = s.drop_last();
        lemma_trimmed_end_shape(t);
        assert(t.take(trimmed_end(t).len() as int) == s.take(trimmed_end(t).len() as int));
    } else {
        assert(s.take(s.len() as int) == s);
    }
}

/// Whether `c` is white space.
pub fn is_whitespace(c: char) -> (r: bool)
    ensures
        r == is_space(c),
{
    ('\u{9}' <= c && c <= '\u{d}') || c == ' ' || c == '\u{85}' || c == '\u{a0}' || c
        == '\u{1680}' || ('\u{2000}' <= c && c <= '\u{200a}') || c == '\u{2028}' || c
        == '\u{2029}' || c == '\u{202f}' || c == '\u{205f}' || c == '\u{3000}'
}

/// The characters of `s`, one by one.
pub fn chars_of(s: &str) -> (v: Vec<char>)
    ensures
        v@ == s@,
{
    let mut v: Vec<char> = Vec::new();
    for c in it: s.chars()
        invariant
            it.seq() == s@,
            v@ == s@.take(it.index() as int),
    {
        v.push(c);
    }
    assert(s@.take(s@.len() as int) == s@);
    v
}

/// Whether two strings hold the same text.
pub fn same_text(a: &str, b: &str) -> (r: bool)
    ensures
        r == (a@ == b@),
{
    let x = chars_of(a);
    let y = chars_of(b);
    if x.len() != y.len() {
        return false;
    }
    let mut i: usize = 0;
    while i < x.len()
        invariant
            x@ == a@,
            y@ == b@,
            x.len() == y.len(),
            i <= x.len(),
            forall|j: int| 0 <= j < i ==> x@[j] == y@[j],
        decreases x.len() - i,
    {
        if x[i] != y[i] {
            return false;
        }
        i += 1;
    }
    assert(x@ =~= y@);
    true
}

/// Whether `s` ends with `suffix`.
pub fn has_suffix(s: &str, suffix: &str) -> (r: bool)
    ensures
        r == ends_with(s@, suffix@),
{
    let x = chars_of(s);
    let p = chars_of(suffix);
    if p.len() > x.len() {
        return false;
    }
    let off: usize = x.len() - p.len();
    let mut i: usize = 0;
    while i < p.len()
        invariant
            x@ == s@,
            p@ == suffix@,
            p.len() <= x.len(),
            off == x.len() - p.len(),
            i <= p.len(),
            forall|j: int| 0 <= j < i ==> x@[off + j] == p@[j],
        decreases p.len() - i,
    {
        if x[off + i] != p[i] {
            assert(x@.skip(off as int)[i as int] != p@[i as int]);
            return false;
        }
        i += 1;
    }
    assert(x@.skip(off as int) =~= p@);
    true
}

/// The index of the first `c` among `v`, or the length of `v`.
pub fn find(v: &Vec<char>, c: char) -> (i: usize)
    ensures
        i == index_of(v@, c),
        i <= v@.len(),
{
    let mut i: usize = 0;
    while i < v.len() && v[i] != c
        invariant
            i <= v.len(),
            forall|j: int| 0 <= j < i ==> v@[j] != c,
        decreases v.len() - i,
    {
        i += 1;
    }
    proof {
        lemma_index_of_is(v@, c, i as int);
    }
    i
}

/// An owned copy of the characters of `s` from `from` up to `to`.
pub fn slice(s: &str, from: usize, to: usize) -> (r: String)
    requires
        from <= to <= s@.len(),
    ensures
        r@ == s@.subrange(from as int, to as int),
{
    String::from_str(s.substring_char(from, to))
}

/// `s` without the white space that surrounds it.
pub fn trim(s: &str) -> (r: String)
    ensures
        r@ == trimmed(s@),
{
    let v = chars_of(s);
    let mut start: usize = 0;
    while start < v.len() && is_whitespace(v[start])
        invariant
            start <= v.len(),
            forall|j: int| 0 <= j < start ==> is_space(v@[j]),
        decreases v.len() - start,
    {
        start += 1;
    }
    let mut end: usize = v.len();
    while end > start && is_whitespace(v[end - 1])
        invariant
            start <= end <= v.len(),
            forall|j: int| end <= j < v.len() ==> is_space(v@[j]),
        decreases end,
    {
        end -= 1;
    }
    proof {
        lemma_trimmed_start_is(v@, start as int);
        let t = v@.skip(start as int);
        lemma_trimmed_end_is(t, end - start);
        assert(t.take(end - start) == v@.subrange(start as int, end as int));
    }
    slice(s, start, end)
}

/// The pieces of `s` between occurrences of `sep`.
pub fn split_on(s: &str, sep: char) -> (parts: Vec<String>)
    ensures
        texts(parts@) == split(s@, sep),
{
    let v = chars_of(s);
    let mut parts: Vec<String> = Vec::new();
    let mut from: usize = 0;
    let mut at: usize = 0;
    proof {
        assert(s@.skip(0) == s@);
        assert(texts(parts@) + split(s@, sep) == split(s@, sep));
    }
    while at < v.len()
        invariant
            v@ == s@,
            from <= at <= v.len(),
            forall|j: int| from <= j < at ==> v@[j] != sep,
            split(s@, sep) == texts(parts@) + split(s@.skip(from as int), sep),
        decreases v.len() - at,
    {
        if v[at] == sep {
            let piece = slice(s, from, at);
            proof {
                let rest = s@.skip(from as int);
                assert forall|j: int| 0 <= j < at - from implies rest[j] != sep by {
                    assert(rest[j] == v@[from + j]);
                }
                lemma_index_of_is(rest, sep, at - from);
                assert(rest.take(at - from) == s@.subrange(from as int, at as int));
                assert(rest.skip(at - from + 1) == s@.skip(at + 1));
                assert(texts(parts@.push(piece)) == texts(parts@) + seq![piece@]);
            }
            parts.push(piece);
            from = at + 1;
        }
        at += 1;
    }
    let piece = slice(s, from, v.len());
    proof {
        let rest = s@.skip(from as int);
        assert forall|j: int| 0 <= j < rest.len() implies rest[j] != sep by {
            assert(rest[j] == v@[from + j]);
        }
        lemma_index_of_is(rest, sep, rest.len() as int);
        assert(rest == s@.subrange(from as int, v@.len() as int));
        assert(texts(parts@.push(piece)) == texts(parts@) + seq![piece@]);
    }
    parts.push(piece);
    parts
}

/// The lines joined into one text, with a line break between each two.
pub fn join_lines(lines: &Vec<String>) -> (r: String)
    ensures
        r@ == join(texts(lines@), '\n'),
{
    let ghost all = texts(lines@);
    let mut r = String::new();
    let mut i: usize = 0;
    proof {
        reveal_strlit("\n");
        assert(all.take(0) == Seq::<Seq<char>>::empty());
    }
    while i < lines.len()
        invariant
            i <= lines.len(),
            all == texts(lines@),
            "\n"@ == seq!['\n'],
            r@ == join(all.take(i as int), '\n'),
        decreases lines.len() - i,
    {
        proof {
            lemma_join_push(all.take(i as int), all[i as int], '\n');
            assert(all.take(i as int).push(all[i as int]) == all.take(i + 1));
        }
        if i > 0 {
            r.append("\n");
        }
        r.append(lines[i].as_str());
        i += 1;
    }
    assert(all.take(i as int) == all);
    r
}

fn digit_text(d: u64) -> (r: &'static str)
    requires
        d < 10,
    ensures
        r@ == seq![digit(d as int)],
{
    proof {
        reveal_strlit("0");
        reveal_strlit("1");
        reveal_strlit("2");
        reveal_strlit("3");
        reveal_strlit("4");
        reveal_strlit("5");
        reveal_strlit("6");
        reveal_strlit("7");
        reveal_strlit("8");
        reveal_strlit("9");
    }
    let r = if d == 0 {
        "0"
    } else if d == 1 {
        "1"
    } else if d == 2 {
        "2"
    } else if d == 3 {
        "3"
    } else if d == 4 {
        "4"
    } else if d == 5 {
        "5"
    } else if d == 6 {
        "6"
    } else if d == 7 {
        "7"
    } else if d == 8 {
        "8"
    } else {
        "9"
    };
    assert(r@ =~= seq![digit(d as int)]);
    r
}

/// The decimal numeral of `n`.
pub fn decimal(n: u64) -> (r: String)
    ensures
        r@ == decimal_of(n as nat),
    decreases n,
{
    if n < 10 {
        String::from_str(digit_text(n))
    } else {
        let head = decimal(n / 10);
        let r = head.concat(digit_text(n % 10));
        assert(r@ =~= decimal_of((n / 10) as nat).push(digit((n % 10) as int)));
        r
    }
}

} // verus!
