//! Character-level text operations with their specifications.
//!
//! Strings are specified by their views, sequences of `char`.

use vstd::prelude::*;

verus! {

/// The views of a sequence of strings.
pub open spec fn views(v: Seq<String>) -> Seq<Seq<char>> {
    v.map_values(|s: String| s@)
}

/// The characters of a string slice, in order.
pub fn chars_of(s: &str) -> (r: Vec<char>)
    ensures
        r@ == s@,
{
    let mut r: Vec<char> = Vec::new();
    for c in it: s.chars()
        invariant
            it.seq() == s@,
            r@ == it.seq().take(it.index() as int),
    {
        r.push(c);
    }
    r
}

#[verifier::external_body]
fn push_char(s: &mut String, c: char)
    ensures
        final(s)@ == old(s)@.push(c),
{
    s.push(c)
}

/// Builds a string from a sequence of characters.
pub fn string_of(v: &Vec<char>) -> (r: String)
    ensures
        r@ == v@,
{
    let mut r = String::new();
    let mut i: usize = 0;
    while i < v.len()
        invariant
            i <= v.len(),
            r@ == v@.take(i as int),
        decreases v.len() - i,
    {
        push_char(&mut r, v[i]);
        i += 1;
        assert(v@.take(i as int) == v@.take(i - 1).push(v@[i - 1]));
    }
    assert(v@.take(v.len() as int) == v@);
    r
}

/// An owned copy of a string slice.
pub fn owned(s: &str) -> (r: String)
    ensures
        r@ == s@,
{
    String::from_str(s)
}

/// The concatenation of two strings.
pub fn cat2(a: &str, b: &str) -> (r: String)
    ensures
        r@ == a@ + b@,
{
    let mut r = String::from_str(a);
    r.append(b);
    r
}

/// The concatenation of three strings.
pub fn cat3(a: &str, b: &str, c: &str) -> (r: String)
    ensures
        r@ == a@ + b@ + c@,
{
    let mut r = String::from_str(a);
    r.append(b);
    r.append(c);
    r
}

/// Appends a string to a list of strings.
pub fn push_string(v: &mut Vec<String>, s: String)
    ensures
        final(v)@ == old(v)@.push(s),
        views(final(v)@) == views(old(v)@).push(s@),
{
    v.push(s);
    assert(views(v@) =~= views(old(v)@).push(s@));
}

/// Appends a copy of a string slice to a list of strings.
pub fn push_str(v: &mut Vec<String>, s: &str)
    ensures
        views(final(v)@) == views(old(v)@).push(s@),
{
    push_string(v, String::from_str(s));
}

/// Appends all strings of `w` to `v`.
pub fn extend_strings(v: &mut Vec<String>, w: Vec<String>)
    ensures
        final(v)@ == old(v)@ + w@,
        views(final(v)@) == views(old(v)@) + views(w@),
{
    let ghost w0 = w@;
    let mut w = w;
    v.append(&mut w);
    assert(views(v@) =~= views(old(v)@) + views(w0));
}

/// Whether `p` is a prefix of `s`.
pub open spec fn starts_with(s: Seq<char>, p: Seq<char>) -> bool {
    p.len() <= s.len() && s.take(p.len() as int) == p
}

/// Whether `p` is a suffix of `s`.
pub open spec fn ends_with(s: Seq<char>, p: Seq<char>) -> bool {
    p.len() <= s.len() && s.skip(s.len() - p.len()) == p
}

/// Whether `p` occurs in `s` at position `i`.
pub open spec fn occurs_at(s: Seq<char>, p: Seq<char>, i: int) -> bool {
    0 <= i && i + p.len() <= s.len() && s.subrange(i, i + p.len()) == p
}

/// Whether `p` occurs in `s`.
pub open spec fn contains(s: Seq<char>, p: Seq<char>) -> bool {
    exists|i: int| occurs_at(s, p, i)
}

/// Whether the character `c` occurs in `s`.
pub open spec fn has_char(s: Seq<char>, c: char) -> bool {
    exists|i: int| 0 <= i < s.len() && s[i] == c
}

pub fn starts_with_at(s: &Vec<char>, p: &Vec<char>, at: usize) -> (r: bool)
    requires
        at <= s.len(),
    ensures
        r == occurs_at(s@, p@, at as int),
{
    if p.len() > s.len() - at {
        return false;
    }
    let mut i: usize = 0;
    while i < p.len()
        invariant
            at + p.len() <= s.len(),
            i <= p.len(),
            forall|j: int| 0 <= j < i ==> s@[at + j] == p@[j],
        decreases p.len() - i,
    {
        if s[at + i] != p[i] {
            assert(s@.subrange(at as int, at + p.len())[i as int] != p@[i as int]);
            return false;
        }
        i += 1;
    }
    assert(s@.subrange(at as int, at + p.len()) =~= p@);
    true
}

/// Whether two strings are equal.
pub fn str_eq(a: &str, b: &str) -> (r: bool)
    ensures
        r == (a@ == b@),
{
    let av = chars_of(a);
    let bv = chars_of(b);
    if av.len() != bv.len() {
        return false;
    }
    let r = starts_with_at(&av, &bv, 0);
    assert(av@.subrange(0, bv@.len() as int) == av@);
    r
}

/// Whether `s` begins with `p`.
pub fn str_starts_with(s: &str, p: &str) -> (r: bool)
    ensures
        r == starts_with(s@, p@),
{
    let sv = chars_of(s);
    let pv = chars_of(p);
    let r = starts_with_at(&sv, &pv, 0);
    assert(sv@.subrange(0, pv@.len() as int) == sv@.take(pv@.len() as int));
    r
}

/// Whether `s` ends with `p`.
pub fn str_ends_with(s: &str, p: &str) -> (r: bool)
    ensures
        r == ends_with(s@, p@),
{
    let sv = chars_of(s);
    let pv = chars_of(p);
    if pv.len() > sv.len() {
        return false;
    }
    let r = starts_with_at(&sv, &pv, sv.len() - pv.len());
    assert(sv@.subrange(sv.len() - pv.len(), sv.len() as int) == sv@.skip(sv.len() - pv.len()));
    r
}

/// The first position of `p` in `s`, if it occurs.
pub open spec fn first_occurrence(s: Seq<char>, p: Seq<char>) -> Option<int> {
    if contains(s, p) {
        Some(choose|i: int| occurs_at(s, p, i) && forall|j: int| 0 <= j < i ==> !occurs_at(s, p, j))
    } else {
        None
    }
}

/// Finds the first position of `p` in `s`.
pub fn find_chars(s: &Vec<char>, p: &Vec<char>) -> (r: Option<usize>)
    ensures
        match r {
            Some(i) => occurs_at(s@, p@, i as int) && forall|j: int| 0 <= j < i ==> !occurs_at(s@, p@, j),
            None => !contains(s@, p@),
        },
        r matches Some(i) ==> first_occurrence(s@, p@) == Some(i as int),
        r is None ==> first_occurrence(s@, p@) is None,
{
    if p.len() > s.len() {
        assert forall|i: int| !occurs_at(s@, p@, i) by {}
        return None;
    }
    if p.len() == 0 {
        assert(s@.subrange(0, 0) =~= p@);
        assert(occurs_at(s@, p@, 0));
        return Some(0);
    }
    let last = s.len() - p.len();
    let mut i: usize = 0;
    while i <= last
        invariant
            last == s.len() - p.len(),
            last < s.len(),
            i <= last + 1,
            forall|j: int| 0 <= j < i ==> !occurs_at(s@, p@, j),
        decreases last + 1 - i,
    {
        if starts_with_at(s, p, i) {
            proof {
                let k = choose|k: int| occurs_at(s@, p@, k) && forall|j: int| 0 <= j < k ==> !occurs_at(s@, p@, j);
                if k < i {
                } else if k > i {
                    assert(!occurs_at(s@, p@, i as int));
                }
            }
            return Some(i);
        }
        i += 1;
    }
    assert forall|j: int| !occurs_at(s@, p@, j) by {
        if j > last {
        }
    }
    None
}

/// Whether `p` occurs in `s`.
pub fn str_contains(s: &str, p: &str) -> (r: bool)
    ensures
        r == contains(s@, p@),
{
    let sv = chars_of(s);
    let pv = chars_of(p);
    find_chars(&sv, &pv).is_some()
}

/// Whether the character `c` occurs in `s`.
pub fn str_has_char(s: &str, c: char) -> (r: bool)
    ensures
        r == has_char(s@, c),
{
    let sv = chars_of(s);
    let mut i: usize = 0;
    while i < sv.len()
        invariant
            sv@ == s@,
            i <= sv.len(),
            forall|j: int| 0 <= j < i ==> sv@[j] != c,
        decreases sv.len() - i,
    {
        if sv[i] == c {
            return true;
        }
        i += 1;
    }
    false
}

/// Replaces every non-overlapping occurrence of `from` in `s`, left to right,
/// by `to`, as `str::replace` does.
pub open spec fn replace_all(s: Seq<char>, from: Seq<char>, to: Seq<char>) -> Seq<char>
    recommends
        from.len() > 0,
    decreases s.len(),
{
    if s.len() == 0 || from.len() == 0 {
        s
    } else if starts_with(s, from) {
        to + replace_all(s.skip(from.len() as int), from, to)
    } else {
        seq![s[0]] + replace_all(s.drop_first(), from, to)
    }
}

/// Replaces every occurrence of a non-empty pattern, as `str::replace` does.
pub fn replace_chars(s: &Vec<char>, from: &Vec<char>, to: &Vec<char>) -> (r: Vec<char>)
    requires
        from.len() > 0,
    ensures
        r@ == replace_all(s@, from@, to@),
{
    let mut out: Vec<char> = Vec::new();
    let mut i: usize = 0;
    assert(s@.skip(0) == s@);
    while i < s.len()
        invariant
            from.len() > 0,
            i <= s.len(),
            out@ + replace_all(s@.skip(i as int), from@, to@) == replace_all(s@, from@, to@),
        decreases s.len() - i,
    {
        let ghost rest = s@.skip(i as int);
        if starts_with_at(s, from, i) {
            assert(rest.take(from.len() as int) == s@.subrange(i as int, i + from.len()));
            assert(rest.skip(from.len() as int) == s@.skip(i + from.len()));
            let mut k: usize = 0;
            let ghost before = out@;
            while k < to.len()
                invariant
                    k <= to.len(),
                    out@ == before + to@.take(k as int),
                decreases to.len() - k,
            {
                out.push(to[k]);
                k += 1;
                assert(to@.take(k as int) == to@.take(k - 1).push(to@[k - 1]));
            }
            assert(to@.take(to.len() as int) == to@);
            i = i + from.len();
        } else {
            proof {
                if from.len() <= rest.len() {
                    assert(rest.take(from.len() as int) == s@.subrange(i as int, i + from.len()));
                }
            }
            assert(rest.drop_first() == s@.skip(i + 1));
            out.push(s[i]);
            i = i + 1;
        }
    }
    assert(s@.skip(s.len() as int).len() == 0);
    out
}

/// `str::replace` with a non-empty pattern.
pub fn str_replace(s: &str, from: &str, to: &str) -> (r: String)
    requires
        from@.len() > 0,
    ensures
        r@ == replace_all(s@, from@, to@),
{
    let sv = chars_of(s);
    let fv = chars_of(from);
    let tv = chars_of(to);
    let rv = replace_chars(&sv, &fv, &tv);
    string_of(&rv)
}

/// `to` before each character of `s` and after the last: what
/// `str::replace` gives for an empty pattern.
pub open spec fn interleave(s: Seq<char>, to: Seq<char>) -> Seq<char>
    decreases s.len(),
{
    if s.len() == 0 {
        to
    } else {
        to + seq![s[0]] + interleave(s.drop_first(), to)
    }
}

/// What `str::replace` gives, for any pattern.
pub open spec fn replaced(s: Seq<char>, from: Seq<char>, to: Seq<char>) -> Seq<char> {
    if from.len() == 0 {
        interleave(s, to)
    } else {
        replace_all(s, from, to)
    }
}

/// Replacing a text by itself changes nothing.
pub proof fn lemma_replaced_self(s: Seq<char>, p: Seq<char>)
    ensures
        replaced(s, p, p) == s,
    decreases s.len(),
{
    if p.len() == 0 {
        lemma_interleave_empty(s);
        assert(p =~= Seq::<char>::empty());
    } else if s.len() > 0 {
        if starts_with(s, p) {
            lemma_replaced_self(s.skip(p.len() as int), p);
            assert(replace_all(s.skip(p.len() as int), p, p) == s.skip(p.len() as int));
            assert(replace_all(s, p, p) == p + replace_all(s.skip(p.len() as int), p, p));
            assert(p + s.skip(p.len() as int) =~= s);
        } else {
            lemma_replaced_self(s.drop_first(), p);
            assert(replace_all(s.drop_first(), p, p) == s.drop_first());
            assert(replace_all(s, p, p) == seq![s[0]] + replace_all(s.drop_first(), p, p));
            assert(seq![s[0]] + s.drop_first() =~= s);
        }
    }
}

proof fn lemma_interleave_empty(s: Seq<char>)
    ensures
        interleave(s, seq![]) == s,
    decreases s.len(),
{
    if s.len() > 0 {
        lemma_interleave_empty(s.drop_first());
        assert(Seq::<char>::empty() + seq![s[0]] + s.drop_first() =~= s);
    }
}

/// `str::replace`: every non-overlapping occurrence of `from`, left to
/// right, replaced by `to`; an empty pattern matches before each character
/// and at the end.
pub fn str_replace_any(s: &str, from: &str, to: &str) -> (r: String)
    ensures
        r@ == replaced(s@, from@, to@),
{
    if from.unicode_len() > 0 {
        return str_replace(s, from, to);
    }
    let sv = chars_of(s);
    let tv = chars_of(to);
    let mut out: Vec<char> = Vec::new();
    let mut i: usize = 0;
    assert(sv@.skip(0) == sv@);
    while i < sv.len()
        invariant
            i <= sv.len(),
            tv@ == to@,
            out@ + interleave(sv@.skip(i as int), tv@) == interleave(sv@, tv@),
        decreases sv.len() - i,
    {
        let ghost before = out@;
        let mut k: usize = 0;
        while k < tv.len()
            invariant
                k <= tv.len(),
                out@ == before + tv@.take(k as int),
            decreases tv.len() - k,
        {
            out.push(tv[k]);
            k += 1;
            assert(tv@.take(k as int) == tv@.take(k - 1).push(tv@[k - 1]));
        }
        assert(tv@.take(tv.len() as int) == tv@);
        out.push(sv[i]);
        assert(sv@.skip(i as int).drop_first() == sv@.skip(i + 1));
        assert(interleave(sv@.skip(i as int), tv@) == tv@ + seq![sv@[i as int]] + interleave(sv@.skip(i + 1), tv@));
        assert(out@ == before + tv@ + seq![sv@[i as int]]);
        i += 1;
    }
    let ghost before = out@;
    let mut k: usize = 0;
    while k < tv.len()
        invariant
            k <= tv.len(),
            out@ == before + tv@.take(k as int),
        decreases tv.len() - k,
    {
        out.push(tv[k]);
        k += 1;
        assert(tv@.take(k as int) == tv@.take(k - 1).push(tv@[k - 1]));
    }
    assert(tv@.take(tv.len() as int) == tv@);
    assert(sv@.skip(sv.len() as int).len() == 0);
    string_of(&out)
}

/// The strings of `list` joined by `sep`, as `[T]::join` does.
pub open spec fn join(list: Seq<Seq<char>>, sep: Seq<char>) -> Seq<char>
    decreases list.len(),
{
    if list.len() == 0 {
        seq![]
    } else if list.len() == 1 {
        list[0]
    } else {
        join(list.drop_last(), sep) + sep + list.last()
    }
}

/// Joins a list of strings with a separator.
pub fn join_strings(list: &Vec<String>, sep: &str) -> (r: String)
    ensures
        r@ == join(views(list@), sep@),
{
    let mut r = String::new();
    let mut i: usize = 0;
    while i < list.len()
        invariant
            i <= list.len(),
            r@ == join(views(list@).take(i as int), sep@),
        decreases list.len() - i,
    {
        if i != 0 {
            r.append(sep);
        }
        r.append(list[i].as_str());
        i += 1;
        assert(views(list@).take(i as int).drop_last() == views(list@).take(i - 1));
    }
    assert(views(list@).take(list.len() as int) == views(list@));
    r
}

/// The views of a sequence of character vectors.
pub open spec fn vviews(v: Seq<Vec<char>>) -> Seq<Seq<char>> {
    v.map_values(|x: Vec<char>| x@)
}

/// The pieces of `s` between occurrences of `sep`, as `str::split` with a
/// character returns them.
pub open spec fn split_on(s: Seq<char>, sep: char) -> Seq<Seq<char>>
    decreases s.len(),
{
    if s.len() == 0 {
        seq![seq![]]
    } else {
        let p = split_on(s.drop_last(), sep);
        if s.last() == sep {
            p.push(seq![])
        } else {
            p.update(p.len() - 1, p.last().push(s.last()))
        }
    }
}

pub proof fn lemma_split_on_nonempty(s: Seq<char>, sep: char)
    ensures
        split_on(s, sep).len() >= 1,
    decreases s.len(),
{
    if s.len() > 0 {
        lemma_split_on_nonempty(s.drop_last(), sep);
    }
}

/// Splits `s` at each occurrence of `sep`.
pub fn split_chars(s: &Vec<char>, sep: char) -> (r: Vec<Vec<char>>)
    ensures
        vviews(r@) == split_on(s@, sep),
{
    let mut done: Vec<Vec<char>> = Vec::new();
    let mut cur: Vec<char> = Vec::new();
    let mut i: usize = 0;
    while i < s.len()
        invariant
            i <= s.len(),
            split_on(s@.take(i as int), sep) == vviews(done@).push(cur@),
        decreases s.len() - i,
    {
        let c = s[i];
        proof {
            assert(s@.take(i + 1).drop_last() == s@.take(i as int));
            lemma_split_on_nonempty(s@.take(i as int), sep);
        }
        if c == sep {
            let ghost before = vviews(done@).push(cur@);
            let mut fresh: Vec<char> = Vec::new();
            std::mem::swap(&mut fresh, &mut cur);
            done.push(fresh);
            assert(vviews(done@).push(cur@) =~= before.push(seq![]));
        } else {
            let ghost before = vviews(done@).push(cur@);
            cur.push(c);
            assert(vviews(done@).push(cur@) =~= before.update(before.len() - 1, before.last().push(c)));
        }
        i += 1;
    }
    assert(s@.take(s.len() as int) == s@);
    let ghost before = vviews(done@).push(cur@);
    done.push(cur);
    assert(vviews(done@) =~= before);
    done
}

/// Whether a character has the Unicode `White_Space` property, which is
/// what `char::is_whitespace` tests: tab, line feed, vertical tab, form
/// feed, carriage return, space, next line, no-break space, ogham space
/// mark, the spaces from en quad to hair space, line and paragraph
/// separators, narrow no-break space, medium mathematical space and
/// ideographic space.
pub open spec fn unicode_whitespace(c: char) -> bool {
    let n = c as u32;
    ||| 0x9 <= n <= 0xD
    ||| n == 0x20
    ||| n == 0x85
    ||| n == 0xA0
    ||| n == 0x1680
    ||| 0x2000 <= n <= 0x200A
    ||| n == 0x2028
    ||| n == 0x2029
    ||| n == 0x202F
    ||| n == 0x205F
    ||| n == 0x3000
}

/// Whether a character is whitespace, as `char::is_whitespace` says.
pub fn is_whitespace(c: char) -> (r: bool)
    ensures
        r == unicode_whitespace(c),
{
    let n = c as u32;
    (0x9 <= n && n <= 0xD) || n == 0x20 || n == 0x85 || n == 0xA0 || n == 0x1680 || (0x2000 <= n && n <= 0x200A)
        || n == 0x2028 || n == 0x2029 || n == 0x202F || n == 0x205F || n == 0x3000
}

/// `s` without the characters at its start that satisfy `p`.
pub open spec fn trim_start_by(s: Seq<char>, p: spec_fn(char) -> bool) -> Seq<char>
    decreases s.len(),
{
    if s.len() > 0 && p(s[0]) {
        trim_start_by(s.drop_first(), p)
    } else {
        s
    }
}

/// `s` without the characters at its end that satisfy `p`.
pub open spec fn trim_end_by(s: Seq<char>, p: spec_fn(char) -> bool) -> Seq<char>
    decreases s.len(),
{
    if s.len() > 0 && p(s.last()) {
        trim_end_by(s.drop_last(), p)
    } else {
        s
    }
}

/// `s` without the characters at either end that satisfy `p`.
pub open spec fn trim_by(s: Seq<char>, p: spec_fn(char) -> bool) -> Seq<char> {
    trim_end_by(trim_start_by(s, p), p)
}

/// Sets of characters that text is trimmed of.
#[derive(Clone, Copy, Debug, PartialEq, Eq)]
pub enum CharClass {
    /// Unicode whitespace.
    Whitespace,
    /// Single and double quotes.
    Quote,
    /// The semicolon.
    Semicolon,
}

/// Whether `c` belongs to the class `k`.
pub open spec fn in_class(k: CharClass, c: char) -> bool {
    match k {
        CharClass::Whitespace => unicode_whitespace(c),
        CharClass::Quote => c == '\'' || c == '"',
        CharClass::Semicolon => c == ';',
    }
}

/// The membership test of a class.
pub open spec fn class_pred(k: CharClass) -> spec_fn(char) -> bool {
    |c: char| in_class(k, c)
}

/// Whether `c` belongs to the class `k`.
pub fn is_in_class(k: CharClass, c: char) -> (r: bool)
    ensures
        r == in_class(k, c),
{
    match k {
        CharClass::Whitespace => is_whitespace(c),
        CharClass::Quote => c == '\'' || c == '"',
        CharClass::Semicolon => c == ';',
    }
}

/// `str::trim`: `s` without leading and trailing whitespace.
pub open spec fn trim_ws(s: Seq<char>) -> Seq<char> {
    trim_by(s, class_pred(CharClass::Whitespace))
}

/// `str::trim_start`.
pub open spec fn trim_start_ws(s: Seq<char>) -> Seq<char> {
    trim_start_by(s, class_pred(CharClass::Whitespace))
}

proof fn lemma_trim_start_skip(s: Seq<char>, p: spec_fn(char) -> bool, i: int)
    requires
        0 <= i < s.len(),
        p(s[i]),
    ensures
        trim_start_by(s.skip(i), p) == trim_start_by(s.skip(i + 1), p),
{
    assert(s.skip(i).drop_first() == s.skip(i + 1));
}

proof fn lemma_trim_end_take(s: Seq<char>, p: spec_fn(char) -> bool, j: int)
    requires
        0 < j <= s.len(),
        p(s[j - 1]),
    ensures
        trim_end_by(s.take(j), p) == trim_end_by(s.take(j - 1), p),
{
    assert(s.take(j).drop_last() == s.take(j - 1));
}

/// The start and end of `trim_by(s, p)` inside `s`, given the exec test `keep`
/// results; used by the trimming functions below.
proof fn lemma_trim_bounds(s: Seq<char>, p: spec_fn(char) -> bool, i: int, j: int)
    requires
        0 <= i <= j <= s.len(),
        trim_start_by(s, p) == trim_start_by(s.skip(i), p),
        i == s.len() || !p(s[i]),
        trim_end_by(s.skip(i), p) == trim_end_by(s.subrange(i, j), p),
        j == i || !p(s[j - 1]),
    ensures
        trim_by(s, p) == s.subrange(i, j),
{
    assert(trim_start_by(s.skip(i), p) == s.skip(i));
    if j > i {
        assert(s.subrange(i, j).last() == s[j - 1]);
    }
}

/// `s` without the characters of the class `k` at either end, as
/// `str::trim_matches` does.
pub fn trim_class_chars(s: &Vec<char>, k: CharClass) -> (r: Vec<char>)
    ensures
        r@ == trim_by(s@, class_pred(k)),
{
    let ghost p = class_pred(k);
    let mut i: usize = 0;
    assert(s@.skip(0) == s@);
    while i < s.len() && is_in_class(k, s[i])
        invariant
            p == class_pred(k),
            i <= s.len(),
            trim_start_by(s@, p) == trim_start_by(s@.skip(i as int), p),
        decreases s.len() - i,
    {
        proof {
            assert(p(s@[i as int]));
            lemma_trim_start_skip(s@, p, i as int);
        }
        i += 1;
    }
    let mut j: usize = s.len();
    let ghost t = s@.skip(i as int);
    while j > i && is_in_class(k, s[j - 1])
        invariant
            p == class_pred(k),
            i <= j <= s.len(),
            t == s@.skip(i as int),
            trim_end_by(t, p) == trim_end_by(s@.subrange(i as int, j as int), p),
        decreases j,
    {
        proof {
            assert(p(s@[j - 1]));
            assert(t[j - i - 1] == s@[j - 1]);
            lemma_trim_end_take(t, p, j - i);
            assert(t.take(j - i) == s@.subrange(i as int, j as int));
            assert(t.take(j - i - 1) == s@.subrange(i as int, j - 1));
        }
        j -= 1;
    }
    proof {
        assert(t.take(t.len() as int) == t);
        assert(s@.subrange(i as int, s.len() as int) == t);
        lemma_trim_bounds(s@, p, i as int, j as int);
    }
    let mut r: Vec<char> = Vec::new();
    let mut m: usize = i;
    while m < j
        invariant
            i <= m <= j <= s.len(),
            r@ == s@.subrange(i as int, m as int),
        decreases j - m,
    {
        r.push(s[m]);
        m += 1;
        assert(s@.subrange(i as int, m as int) == s@.subrange(i as int, m - 1).push(s@[m - 1]));
    }
    r
}

/// `s` without the characters of the class `k` at its end, as
/// `str::trim_end_matches` does.
pub fn trim_end_class_chars(s: &Vec<char>, k: CharClass) -> (r: Vec<char>)
    ensures
        r@ == trim_end_by(s@, class_pred(k)),
{
    let ghost p = class_pred(k);
    let mut j: usize = s.len();
    assert(s@.take(s.len() as int) == s@);
    while j > 0 && is_in_class(k, s[j - 1])
        invariant
            p == class_pred(k),
            j <= s.len(),
            trim_end_by(s@, p) == trim_end_by(s@.take(j as int), p),
        decreases j,
    {
        proof {
            assert(p(s@[j - 1]));
            lemma_trim_end_take(s@, p, j as int);
        }
        j -= 1;
    }
    let mut r: Vec<char> = Vec::new();
    let mut m: usize = 0;
    while m < j
        invariant
            m <= j <= s.len(),
            r@ == s@.take(m as int),
        decreases j - m,
    {
        r.push(s[m]);
        m += 1;
        assert(s@.take(m as int) == s@.take(m - 1).push(s@[m - 1]));
    }
    proof {
        if j > 0 {
            assert(s@.take(j as int).last() == s@[j - 1]);
        }
    }
    r
}

/// `str::trim` on a character sequence.
pub fn trim_ws_chars(s: &Vec<char>) -> (r: Vec<char>)
    ensures
        r@ == trim_ws(s@),
{
    trim_class_chars(s, CharClass::Whitespace)
}

/// `str::trim` on a string slice.
pub fn str_trim(s: &str) -> (r: String)
    ensures
        r@ == trim_ws(s@),
{
    let v = chars_of(s);
    let t = trim_ws_chars(&v);
    string_of(&t)
}

/// `str::trim_start` on a character sequence.
pub fn trim_start_ws_chars(s: &Vec<char>) -> (r: Vec<char>)
    ensures
        r@ == trim_start_ws(s@),
{
    let ghost p = class_pred(CharClass::Whitespace);
    let mut i: usize = 0;
    assert(s@.skip(0) == s@);
    while i < s.len() && is_in_class(CharClass::Whitespace, s[i])
        invariant
            p == class_pred(CharClass::Whitespace),
            i <= s.len(),
            trim_start_by(s@, p) == trim_start_by(s@.skip(i as int), p),
        decreases s.len() - i,
    {
        proof {
            assert(p(s@[i as int]));
            lemma_trim_start_skip(s@, p, i as int);
        }
        i += 1;
    }
    let mut r: Vec<char> = Vec::new();
    let mut m: usize = i;
    while m < s.len()
        invariant
            i <= m <= s.len(),
            r@ == s@.subrange(i as int, m as int),
        decreases s.len() - m,
    {
        r.push(s[m]);
        m += 1;
        assert(s@.subrange(i as int, m as int) == s@.subrange(i as int, m - 1).push(s@[m - 1]));
    }
    assert(s@.subrange(i as int, s.len() as int) == s@.skip(i as int));
    r
}

/// `str::trim_start` on a string slice.
pub fn str_trim_start(s: &str) -> (r: String)
    ensures
        r@ == trim_start_ws(s@),
{
    let v = chars_of(s);
    let t = trim_start_ws_chars(&v);
    string_of(&t)
}

} // verus!
