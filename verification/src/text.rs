//! Helpers on strings, stated over their views as sequences of characters.

use vstd::prelude::*;

verus! {

/// `String::push` of the standard library: the character is appended at the
/// end and nothing else changes.
pub assume_specification[ String::push ](s: &mut String, c: char)
    ensures
        final(s)@ == old(s)@.push(c),
;

/// `s` begins with `prefix`.
pub open spec fn starts_with(s: Seq<char>, prefix: Seq<char>) -> bool {
    prefix.len() <= s.len() && s.subrange(0, prefix.len() as int) == prefix
}

/// `s` ends with `suffix`.
pub open spec fn ends_with(s: Seq<char>, suffix: Seq<char>) -> bool {
    suffix.len() <= s.len() && s.subrange(s.len() - suffix.len(), s.len() as int) == suffix
}

/// The characters of `s`, one by one.
pub fn chars_of(s: &str) -> (v: Vec<char>)
    ensures
        v@ == s@,
{
    let mut v: Vec<char> = Vec::new();
    for c in it: s.chars()
        invariant
            v@ == it.seq().take(it.index() as int),
            it.seq() == s@,
    {
        v.push(c);
    }
    v
}

/// The text made of the characters of `chars` from index `from` on.
pub fn text_from(chars: &Vec<char>, from: usize) -> (s: String)
    requires
        from <= chars@.len(),
    ensures
        s@ == chars@.skip(from as int),
{
    let mut s = String::new();
    let mut i: usize = from;
    while i < chars.len()
        invariant
            from <= i <= chars@.len(),
            s@ == chars@.subrange(from as int, i as int),
        decreases chars@.len() - i,
    {
        s.push(chars[i]);
        i = i + 1;
    }
    assert(chars@.subrange(from as int, chars@.len() as int) == chars@.skip(from as int));
    s
}

/// Tells whether `word` stands in `text` at index `at`.
pub fn has_prefix_at(text: &Vec<char>, at: usize, word: &Vec<char>) -> (b: bool)
    requires
        at <= text@.len(),
    ensures
        b == starts_with(text@.skip(at as int), word@),
{
    let n: usize = text.len() - at;
    let m: usize = word.len();
    let ghost rest = text@.skip(at as int);
    if m > n {
        return false;
    }
    let mut i: usize = 0;
    while i < m
        invariant
            i <= m <= n,
            at <= text@.len() <= usize::MAX,
            n == text@.len() - at,
            m == word@.len(),
            rest == text@.skip(at as int),
            forall|k: int| 0 <= k < i ==> rest[k] == word@[k],
        decreases m - i,
    {
        if text[at + i] != word[i] {
            assert(rest.subrange(0, m as int)[i as int] != word@[i as int]);
            return false;
        }
        i = i + 1;
    }
    assert(rest.subrange(0, m as int) =~= word@);
    true
}

/// Tells whether two texts are the same.
pub fn same_text(a: &str, b: &str) -> (r: bool)
    ensures
        r == (a@ == b@),
{
    let x = chars_of(a);
    let y = chars_of(b);
    if x.len() != y.len() {
        return false;
    }
    let r = has_prefix_at(&x, 0, &y);
    proof {
        assert(x@.skip(0) =~= x@);
        assert(x@.subrange(0, y@.len() as int) =~= x@);
    }
    r
}

/// The path `leaf` as seen from the directory `base`: `leaf` itself when it
/// is absolute or `base` is empty, else `base`, one `/` between the two, and
/// `leaf`.
pub open spec fn join_path(base: Seq<char>, leaf: Seq<char>) -> Seq<char> {
    if starts_with(leaf, seq!['/']) || base.len() == 0 {
        leaf
    } else if ends_with(base, seq!['/']) {
        base + leaf
    } else {
        base + seq!['/'] + leaf
    }
}

/// A path is absolute when it begins with `/`.
pub open spec fn is_absolute(path: Seq<char>) -> bool {
    starts_with(path, seq!['/'])
}

/// Resolves `leaf` against the directory `base`.
pub fn join(base: &str, leaf: &str) -> (path: String)
    ensures
        path@ == join_path(base@, leaf@),
{
    let b = chars_of(base);
    let l = chars_of(leaf);
    if (l.len() > 0 && l[0] == '/') || b.len() == 0 {
        proof {
            if l@.len() > 0 && l@[0] == '/' {
                assert(l@.subrange(0, 1) =~= seq!['/']);
            } else if l@.len() > 0 {
                assert(l@.subrange(0, 1)[0] == l@[0]);
            }
        }
        return leaf.to_owned();
    }
    proof {
        if l@.len() > 0 {
            assert(l@.subrange(0, 1)[0] == l@[0]);
        }
    }
    let mut path = base.to_owned();
    if b[b.len() - 1] != '/' {
        proof {
            assert(b@.subrange(b@.len() - 1, b@.len() as int)[0] == b@[b@.len() - 1]);
        }
        path.push('/');
    } else {
        assert(b@.subrange(b@.len() - 1, b@.len() as int) =~= seq!['/']);
    }
    path.append(leaf);
    path
}

/// Joining gives an absolute path whenever the directory is absolute.
pub proof fn join_path_is_absolute(base: Seq<char>, leaf: Seq<char>)
    requires
        is_absolute(base),
    ensures
        is_absolute(join_path(base, leaf)),
{
    let joined = join_path(base, leaf);
    if !starts_with(leaf, seq!['/']) {
        assert(base.subrange(0, 1)[0] == '/');
        assert(joined[0] == '/');
        assert(joined.subrange(0, 1) =~= seq!['/']);
    }
}

} // verus!
