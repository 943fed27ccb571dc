use vstd::prelude::*;

use crate::text::{blank, chars_of, digit, is_blank, is_digit};

verus! {

/// Position of the first line feed in `t` at or after `i`; `t.len()` when
/// there is none.
pub open spec fn next_newline(t: Seq<char>, i: int) -> int
    decreases t.len() - i,
{
    if i >= t.len() {
        t.len() as int
    } else if t[i] == '\n' {
        i
    } else {
        next_newline(t, i + 1)
    }
}

/// The next line feed lies between `i` and the end of the text.
pub proof fn lemma_next_newline(t: Seq<char>, i: int)
    requires
        0 <= i <= t.len(),
    ensures
        i <= next_newline(t, i) <= t.len(),
    decreases t.len() - i,
{
    if i < t.len() && t[i] != '\n' {
        lemma_next_newline(t, i + 1);
    }
}

/// The line of `t` that starts at `i` and ends at `j`, where `j` is a line feed
/// or the end of the text. A carriage return just before a line feed belongs to
/// the line break, not to the line.
pub open spec fn line_text(t: Seq<char>, i: int, j: int) -> Seq<char> {
    if i < j && j < t.len() && t[j - 1] == '\r' {
        t.subrange(i, j - 1)
    } else {
        t.subrange(i, j)
    }
}

/// The lines of `t` from position `i` on.
pub open spec fn lines_from(t: Seq<char>, i: int) -> Seq<Seq<char>>
    decreases t.len() + 1 - i,
{
    if 0 <= i < t.len() {
        let j = next_newline(t, i);
        proof {
            lemma_next_newline(t, i);
        }
        seq![line_text(t, i, j)] + lines_from(t, j + 1)
    } else {
        Seq::empty()
    }
}

/// The lines of a text.
pub open spec fn lines_of(t: Seq<char>) -> Seq<Seq<char>> {
    lines_from(t, 0)
}

/// `s` with its whitespace taken out.
pub open spec fn without_blanks(s: Seq<char>) -> Seq<char>
    decreases s.len(),
{
    if s.len() == 0 {
        s
    } else if is_blank(s.last()) {
        without_blanks(s.drop_last())
    } else {
        without_blanks(s.drop_last()).push(s.last())
    }
}

/// `p` occurs in `s`.
pub open spec fn occurs_in(p: Seq<char>, s: Seq<char>) -> bool {
    exists|k: int| 0 <= k && k + p.len() <= s.len() && #[trigger] s.subrange(k, k + p.len()) == p
}

/// A line declares `key` when `key` occurs in it once its whitespace is taken out.
pub open spec fn line_matches(key: Seq<char>, line: Seq<char>) -> bool {
    occurs_in(key, without_blanks(line))
}

/// The lines that declare `key`, one after the other.
pub open spec fn matching_text(key: Seq<char>, lines: Seq<Seq<char>>) -> Seq<char>
    decreases lines.len(),
{
    if lines.len() == 0 {
        Seq::empty()
    } else {
        let rest = matching_text(key, lines.drop_first());
        if line_matches(key, lines[0]) {
            lines[0] + rest
        } else {
            rest
        }
    }
}

/// `s` without the characters before its first decimal digit.
pub open spec fn strip_front(s: Seq<char>) -> Seq<char>
    decreases s.len(),
{
    if s.len() > 0 && !is_digit(s[0]) {
        strip_front(s.drop_first())
    } else {
        s
    }
}

/// `s` without the characters after its last decimal digit.
pub open spec fn strip_back(s: Seq<char>) -> Seq<char>
    decreases s.len(),
{
    if s.len() > 0 && !is_digit(s.last()) {
        strip_back(s.drop_last())
    } else {
        s
    }
}

/// `s` from its first decimal digit to its last; empty when it has none.
pub open spec fn trim_to_digits(s: Seq<char>) -> Seq<char> {
    strip_back(strip_front(s))
}

/// The version that a manifest declares for `name`: every line that holds
/// `name=` once its whitespace is taken out, joined, then cut down to the span
/// from the first decimal digit to the last.
pub open spec fn manifest_version(name: Seq<char>, text: Seq<char>) -> Seq<char> {
    trim_to_digits(matching_text(name.push('='), lines_of(text)))
}

proof fn lemma_no_match_joins_nothing(key: Seq<char>, lines: Seq<Seq<char>>)
    requires
        forall|k: int| 0 <= k < lines.len() ==> !line_matches(key, #[trigger] lines[k]),
    ensures
        matching_text(key, lines) == Seq::<char>::empty(),
    decreases lines.len(),
{
    if lines.len() > 0 {
        assert forall|k: int| 0 <= k < lines.drop_first().len() implies !line_matches(
            key,
            #[trigger] lines.drop_first()[k],
        ) by {
            assert(lines.drop_first()[k] == lines[k + 1]);
        }
        lemma_no_match_joins_nothing(key, lines.drop_first());
        assert(!line_matches(key, lines[0]));
    }
}

/// A manifest in which no line declares `name=` gives the empty version, not
/// an error.
pub proof fn lemma_no_matching_line_gives_empty(name: Seq<char>, text: Seq<char>)
    requires
        forall|k: int|
            0 <= k < lines_of(text).len() ==> !line_matches(
                name.push('='),
                #[trigger] lines_of(text)[k],
            ),
    ensures
        manifest_version(name, text) == Seq::<char>::empty(),
{
    lemma_no_match_joins_nothing(name.push('='), lines_of(text));
}

fn newline_after(t: &Vec<char>, i: usize) -> (j: usize)
    requires
        i <= t@.len(),
    ensures
        j == next_newline(t@, i as int),
{
    let mut j = i;
    while j < t.len() && t[j] != '\n'
        invariant
            i <= j <= t@.len(),
            next_newline(t@, j as int) == next_newline(t@, i as int),
        decreases t.len() - j,
    {
        j = j + 1;
    }
    j
}

fn compact(t: &Vec<char>, from: usize, to: usize) -> (r: Vec<char>)
    requires
        from <= to <= t@.len(),
    ensures
        r@ == without_blanks(t@.subrange(from as int, to as int)),
{
    let mut r: Vec<char> = Vec::new();
    let mut k = from;
    assert(t@.subrange(from as int, from as int) =~= Seq::<char>::empty());
    while k < to
        invariant
            from <= k <= to <= t@.len(),
            r@ == without_blanks(t@.subrange(from as int, k as int)),
        decreases to - k,
    {
        let c = t[k];
        assert(t@.subrange(from as int, k + 1).drop_last() =~= t@.subrange(from as int, k as int));
        if !blank(c) {
            r.push(c);
        }
        k = k + 1;
    }
    r
}

fn occurs(p: &Vec<char>, s: &Vec<char>) -> (r: bool)
    ensures
        r == occurs_in(p@, s@),
{
    let n = s.len();
    let m = p.len();
    if m > n {
        return false;
    }
    let mut k: usize = 0;
    while k <= n - m
        invariant
            m <= n,
            n == s@.len(),
            m == p@.len(),
            k <= n - m + 1,
            forall|k2: int| 0 <= k2 < k ==> #[trigger] s@.subrange(k2, k2 + m) != p@,
        decreases n - m + 1 - k,
    {
        let mut q: usize = 0;
        let mut same = true;
        while q < m
            invariant
                q <= m,
                k + m <= n,
                n == s@.len(),
                m == p@.len(),
                same == (forall|x: int| 0 <= x < q ==> s@[k + x] == p@[x]),
            decreases m - q,
        {
            if s[k + q] != p[q] {
                same = false;
            }
            q = q + 1;
        }
        if same {
            assert(s@.subrange(k as int, k + m) =~= p@);
            return true;
        }
        assert(s@.subrange(k as int, k + m) != p@) by {
            let x = choose|x: int| 0 <= x < m && s@[k + x] != p@[x];
            assert(s@.subrange(k as int, k + m)[x] == s@[k + x]);
        }
        k = k + 1;
    }
    false
}

fn trim_digits(s: &str) -> (r: String)
    ensures
        r@ == trim_to_digits(s@),
{
    let v = chars_of(s);
    let n = v.len();
    let mut a: usize = 0;
    assert(v@.subrange(0, n as int) =~= v@);
    while a < n && !digit(v[a])
        invariant
            a <= n == v@.len(),
            strip_front(v@) == strip_front(v@.subrange(a as int, n as int)),
        decreases n - a,
    {
        assert(v@.subrange(a as int, n as int).drop_first() =~= v@.subrange(a + 1, n as int));
        a = a + 1;
    }
    let mut b: usize = n;
    while b > a && !digit(v[b - 1])
        invariant
            a <= b <= n == v@.len(),
            strip_front(v@) == strip_front(v@.subrange(a as int, n as int)),
            strip_back(strip_front(v@)) == strip_back(v@.subrange(a as int, b as int)),
        decreases b - a,
    {
        assert(v@.subrange(a as int, b as int).drop_last() =~= v@.subrange(a as int, b - 1));
        b = b - 1;
    }
    String::from_str(s.substring_char(a, b))
}

/// Get the version that a manifest's text declares for `name`.
pub fn get_manifest_version(name: &str, text: &str) -> (r: String)
    ensures
        r@ == manifest_version(name@, text@),
{
    let t = chars_of(text);
    let mut key = chars_of(name);
    key.push('=');
    let mut joined = String::new();
    let mut i: usize = 0;
    assert(joined@ + matching_text(key@, lines_from(t@, 0)) =~= matching_text(
        key@,
        lines_from(t@, 0),
    ));
    while i < t.len()
        invariant
            i <= t@.len(),
            t@ == text@,
            key@ == name@.push('='),
            joined@ + matching_text(key@, lines_from(t@, i as int)) == matching_text(
                key@,
                lines_from(t@, 0),
            ),
        decreases t.len() - i,
    {
        let j = newline_after(&t, i);
        proof {
            lemma_next_newline(t@, i as int);
        }
        let end: usize = if i < j && j < t.len() && t[j - 1] == '\r' {
            j - 1
        } else {
            j
        };
        let line = Ghost(line_text(t@, i as int, j as int));
        assert(line@ == t@.subrange(i as int, end as int));
        let rest = Ghost(lines_from(t@, j + 1));
        assert(lines_from(t@, i as int) == seq![line@] + rest@);
        assert((seq![line@] + rest@).drop_first() =~= rest@);
        let squeezed = compact(&t, i, end);
        let before = Ghost(joined@);
        if occurs(&key, &squeezed) {
            joined.append(text.substring_char(i, end));
            assert(before@ + (line@ + matching_text(key@, rest@)) =~= joined@ + matching_text(
                key@,
                rest@,
            ));
        }
        i = if j < t.len() {
            j + 1
        } else {
            j
        };
        assert(lines_from(t@, i as int) == rest@);
    }
    assert(lines_from(t@, i as int) =~= Seq::<Seq<char>>::empty());
    assert(joined@ + Seq::<char>::empty() =~= joined@);
    trim_digits(joined.as_str())
}

} // verus!
