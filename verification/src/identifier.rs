//! Remote identifiers: the name under which a repository and one of its
//! branches are registered in a checkout.
//!
//! The identifier is `remote-NAME-branch-BRANCH`. Letters, digits and `_` of
//! the two parts, and every character outside ASCII, stand as they are; so
//! does `-`, except where the name goes on with `branch`. Every other
//! character is written as `%` and its code in two hexadecimal digits. So an
//! identifier never holds a character that a remote's name may not have, and
//! the `-branch-` that parts the name from the branch is the first one after
//! `remote-`: two identifiers are the same only for the same name and branch.

use crate::text::{chars_of, has_prefix_at, starts_with};
use vstd::prelude::*;

verus! {

/// Characters that stand unchanged wherever they occur.
pub open spec fn is_plain(c: char) -> bool {
    ('a' <= c && c <= 'z') || ('A' <= c && c <= 'Z') || ('0' <= c && c <= '9') || c == '_'
        || c as int >= 128
}

/// Characters that a remote identifier is made of.
pub open spec fn is_identifier_char(c: char) -> bool {
    is_plain(c) || c == '-' || c == '%'
}

/// A text that can name a remote: not empty, and of identifier characters
/// only.
pub open spec fn is_remote_identifier(s: Seq<char>) -> bool {
    s.len() > 0 && forall|i: int| 0 <= i < s.len() ==> is_identifier_char(#[trigger] s[i])
}

/// The hexadecimal digit for a value below 16.
pub open spec fn hex_digit(d: int) -> char {
    if d < 10 {
        (48 + d) as char
    } else {
        (55 + d) as char
    }
}

/// The escaped form of an ASCII character.
pub open spec fn escaped(c: char) -> Seq<char> {
    seq!['%', hex_digit(c as int / 16), hex_digit(c as int % 16)]
}

/// The word before which a `-` of the name is escaped.
pub open spec fn guard_word() -> Seq<char> {
    seq!['b', 'r', 'a', 'n', 'c', 'h']
}

/// Whether the first character of `s` stands unchanged. In a guarded text a
/// `-` does so only where `branch` does not follow.
pub open spec fn kept(s: Seq<char>, guarded: bool) -> bool
    recommends
        s.len() > 0,
{
    is_plain(s[0]) || (s[0] == '-' && !(guarded && starts_with(s.skip(1), guard_word())))
}

/// What the first character of `s` is written as.
pub open spec fn head_piece(s: Seq<char>, guarded: bool) -> Seq<char>
    recommends
        s.len() > 0,
{
    if kept(s, guarded) {
        seq![s[0]]
    } else {
        escaped(s[0])
    }
}

/// The text `s` as it stands in an identifier.
pub open spec fn encode(s: Seq<char>, guarded: bool) -> Seq<char>
    decreases s.len(),
{
    if s.len() == 0 {
        Seq::empty()
    } else {
        head_piece(s, guarded) + encode(s.skip(1), guarded)
    }
}

/// What every identifier begins with.
pub open spec fn remote_prefix() -> Seq<char> {
    "remote-"@
}

/// What parts the name from the branch.
pub open spec fn separator() -> Seq<char> {
    "-branch-"@
}

/// The remote identifier for a repository name and a branch.
pub open spec fn remote_name_text(name: Seq<char>, branch: Seq<char>) -> Seq<char> {
    remote_prefix() + encode(name, true) + separator() + encode(branch, false)
}

proof fn lemma_hex_digit(d: int)
    requires
        0 <= d < 16,
    ensures
        is_plain(hex_digit(d)),
        hex_digit(d) != '-',
        hex_digit(d) != '%',
        hex_digit(d) as int == (if d < 10 { 48 + d } else { 55 + d }),
{
}

proof fn lemma_escaped_injective(c: char, d: char)
    requires
        (c as int) < 128,
        (d as int) < 128,
        escaped(c) == escaped(d),
    ensures
        c == d,
{
    let c1 = c as int / 16;
    let c0 = c as int % 16;
    let d1 = d as int / 16;
    let d0 = d as int % 16;
    lemma_hex_digit(c1);
    lemma_hex_digit(c0);
    lemma_hex_digit(d1);
    lemma_hex_digit(d0);
    assert(escaped(c)[1] == escaped(d)[1]);
    assert(escaped(c)[2] == escaped(d)[2]);
    assert(c1 == d1);
    assert(c0 == d0);
}

proof fn lemma_char_code(c: char)
    ensures
        0 <= c as int,
{
}

/// A character that is not kept is an ASCII character.
proof fn lemma_escaped_is_ascii(s: Seq<char>, guarded: bool)
    requires
        s.len() > 0,
        !kept(s, guarded),
    ensures
        0 <= (s[0] as int) < 128,
{
    lemma_char_code(s[0]);
}

/// An encoded text begins with the piece of its first character.
proof fn lemma_encode_head(s: Seq<char>, guarded: bool)
    requires
        s.len() > 0,
    ensures
        encode(s, guarded) == head_piece(s, guarded) + encode(s.skip(1), guarded),
        encode(s, guarded).len() == head_piece(s, guarded).len() + encode(
            s.skip(1),
            guarded,
        ).len(),
        kept(s, guarded) ==> encode(s, guarded)[0] == s[0] && s[0] != '%' && head_piece(
            s,
            guarded,
        ).len() == 1 && encode(s.skip(1), guarded) == encode(s, guarded).skip(1),
        !kept(s, guarded) ==> encode(s, guarded)[0] == '%' && head_piece(s, guarded).len() == 3
            && encode(s.skip(1), guarded) == encode(s, guarded).skip(3) && encode(
            s,
            guarded,
        ).subrange(0, 3) == escaped(s[0]),
{
    let p = head_piece(s, guarded);
    let rest = encode(s.skip(1), guarded);
    let e = encode(s, guarded);
    assert(e == p + rest);
    if kept(s, guarded) {
        assert(rest =~= e.skip(1));
    } else {
        assert(rest =~= e.skip(3));
        assert(e.subrange(0, 3) =~= escaped(s[0]));
    }
}

/// Encoding loses nothing: two texts with the same encoding are the same.
pub proof fn encode_is_injective(a: Seq<char>, b: Seq<char>, guarded: bool)
    requires
        encode(a, guarded) == encode(b, guarded),
    ensures
        a == b,
    decreases a.len(),
{
    if a.len() == 0 {
        if b.len() > 0 {
            lemma_encode_head(b, guarded);
        }
        assert(a =~= b);
    } else {
        lemma_encode_head(a, guarded);
        if b.len() == 0 {
            assert(encode(b, guarded).len() == 0);
        } else {
            lemma_encode_head(b, guarded);
            if kept(a, guarded) {
                assert(kept(b, guarded));
                assert(a[0] == b[0]);
            } else {
                assert(!kept(b, guarded));
                lemma_escaped_is_ascii(a, guarded);
                lemma_escaped_is_ascii(b, guarded);
                lemma_escaped_injective(a[0], b[0]);
            }
            encode_is_injective(a.skip(1), b.skip(1), guarded);
            assert(a =~= seq![a[0]] + a.skip(1));
            assert(b =~= seq![b[0]] + b.skip(1));
        }
    }
}

/// An encoded text is made of identifier characters.
pub proof fn encode_gives_identifier_chars(s: Seq<char>, guarded: bool)
    ensures
        forall|i: int|
            0 <= i < encode(s, guarded).len() ==> is_identifier_char(
                #[trigger] encode(s, guarded)[i],
            ),
    decreases s.len(),
{
    if s.len() > 0 {
        lemma_encode_head(s, guarded);
        encode_gives_identifier_chars(s.skip(1), guarded);
        let e = encode(s, guarded);
        let p = head_piece(s, guarded);
        let rest = encode(s.skip(1), guarded);
        if !kept(s, guarded) {
            lemma_escaped_is_ascii(s, guarded);
            lemma_hex_digit(s[0] as int / 16);
            lemma_hex_digit(s[0] as int % 16);
        }
        assert forall|i: int| 0 <= i < e.len() implies is_identifier_char(#[trigger] e[i]) by {
            if i < p.len() {
                assert(e[i] == p[i]);
            } else {
                assert(e[i] == rest[i - p.len()]);
            }
        }
    }
}

/// Where an encoded text begins with a word that holds no `%`, the text
/// itself begins with that word.
proof fn lemma_encoded_prefix(m: Seq<char>, guarded: bool, w: Seq<char>)
    requires
        starts_with(encode(m, guarded), w),
        forall|i: int| 0 <= i < w.len() ==> w[i] != '%',
    ensures
        starts_with(m, w),
    decreases w.len(),
{
    if w.len() == 0 {
        assert(m.subrange(0, 0) =~= w);
    } else {
        let e = encode(m, guarded);
        assert(e.subrange(0, w.len() as int)[0] == w[0]);
        assert(m.len() > 0);
        lemma_encode_head(m, guarded);
        let rest = encode(m.skip(1), guarded);
        assert(kept(m, guarded));
        assert(m[0] == w[0]);
        let tail = w.skip(1);
        assert(rest.subrange(0, tail.len() as int) =~= tail) by {
            assert forall|i: int| 0 <= i < tail.len() implies rest[i] == tail[i] by {
                assert(e.subrange(0, w.len() as int)[i + 1] == w[i + 1]);
            }
        }
        lemma_encoded_prefix(m.skip(1), guarded, tail);
        assert(m.subrange(0, w.len() as int) =~= w) by {
            assert forall|i: int| 0 <= i < w.len() implies m[i] == w[i] by {
                if i > 0 {
                    assert(m.skip(1).subrange(0, tail.len() as int)[i - 1] == tail[i - 1]);
                }
            }
        }
    }
}

/// `-branch`: what a guarded encoding never holds.
pub open spec fn guarded_word() -> Seq<char> {
    seq!['-'] + guard_word()
}

/// A guarded encoding holds `-branch` nowhere.
proof fn lemma_guarded_encoding(s: Seq<char>, k: int)
    requires
        0 <= k <= encode(s, true).len(),
    ensures
        !starts_with(encode(s, true).skip(k), guarded_word()),
    decreases s.len(),
{
    let e = encode(s, true);
    let w = guarded_word();
    if s.len() == 0 {
    } else {
        lemma_encode_head(s, true);
        let p = head_piece(s, true);
        let rest = encode(s.skip(1), true);
        if k >= p.len() {
            lemma_guarded_encoding(s.skip(1), k - p.len());
            assert(e.skip(k) =~= rest.skip(k - p.len()));
        } else if starts_with(e.skip(k), w) {
            assert(e.skip(k).subrange(0, w.len() as int)[0] == w[0]);
            assert(e[k] == '-');
            if kept(s, true) {
                assert(k == 0);
                assert(s[0] == '-');
                assert(rest.subrange(0, guard_word().len() as int) =~= guard_word()) by {
                    assert forall|i: int| 0 <= i < guard_word().len() implies rest[i]
                        == guard_word()[i] by {
                        assert(e.skip(k).subrange(0, w.len() as int)[i + 1] == w[i + 1]);
                    }
                }
                lemma_encoded_prefix(s.skip(1), true, guard_word());
            } else {
                lemma_escaped_is_ascii(s, true);
                lemma_hex_digit(s[0] as int / 16);
                lemma_hex_digit(s[0] as int % 16);
                assert(e[k] == escaped(s[0])[k]);
            }
        }
    }
}

/// Two texts cut at `-branch-` in the same way: where neither front part
/// holds `-branch`, the front parts are the same and so are the rest.
proof fn lemma_cut_unique(e1: Seq<char>, f1: Seq<char>, e2: Seq<char>, f2: Seq<char>)
    requires
        e1 + separator() + f1 == e2 + separator() + f2,
        e1.len() <= e2.len(),
        forall|k: int| 0 <= k <= e2.len() ==> !starts_with(#[trigger] e2.skip(k), guarded_word()),
    ensures
        e1 == e2,
        f1 == f2,
{
    reveal_strlit("-branch-");
    let sep = separator();
    let w = guarded_word();
    let left = e1 + sep + f1;
    let right = e2 + sep + f2;
    let d = e2.len() - e1.len();
    assert(sep.len() == 8);
    assert(w.len() == 7);
    if d > 0 {
        if d >= 7 {
            assert(e2.skip(e1.len() as int).subrange(0, 7) =~= w) by {
                assert forall|i: int| 0 <= i < 7 implies e2[e1.len() + i] == w[i] by {
                    assert(left[e1.len() + i] == sep[i]);
                    assert(right[e1.len() + i] == e2[e1.len() + i]);
                }
            }
            assert(starts_with(e2.skip(e1.len() as int), w));
            assert(false);
        } else {
            assert(left[e1.len() + d] == sep[d]);
            assert(right[e2.len() as int] == sep[0]);
            assert(false);
        }
    }
    assert(e1 =~= e2) by {
        assert forall|i: int| 0 <= i < e1.len() implies e1[i] == e2[i] by {
            assert(left[i] == e1[i]);
            assert(right[i] == e2[i]);
        }
    }
    assert(f1 =~= f2) by {
        assert(left.len() == right.len());
        assert forall|i: int| 0 <= i < f1.len() implies f1[i] == f2[i] by {
            assert(left[e1.len() + 8 + i] == f1[i]);
            assert(right[e2.len() + 8 + i] == f2[i]);
        }
    }
}

/// Two remote identifiers are the same only for the same name and the same
/// branch.
pub proof fn remote_name_injective(
    name1: Seq<char>,
    branch1: Seq<char>,
    name2: Seq<char>,
    branch2: Seq<char>,
)
    requires
        remote_name_text(name1, branch1) == remote_name_text(name2, branch2),
    ensures
        name1 == name2,
        branch1 == branch2,
{
    let e1 = encode(name1, true);
    let e2 = encode(name2, true);
    let f1 = encode(branch1, false);
    let f2 = encode(branch2, false);
    let p = remote_prefix();
    let left = remote_name_text(name1, branch1);
    let right = remote_name_text(name2, branch2);
    assert(e1 + separator() + f1 =~= left.skip(p.len() as int));
    assert(e2 + separator() + f2 =~= right.skip(p.len() as int));
    assert forall|k: int| 0 <= k <= e1.len() implies !starts_with(
        #[trigger] e1.skip(k),
        guarded_word(),
    ) by {
        lemma_guarded_encoding(name1, k);
    }
    assert forall|k: int| 0 <= k <= e2.len() implies !starts_with(
        #[trigger] e2.skip(k),
        guarded_word(),
    ) by {
        lemma_guarded_encoding(name2, k);
    }
    if e1.len() <= e2.len() {
        lemma_cut_unique(e1, f1, e2, f2);
    } else {
        lemma_cut_unique(e2, f2, e1, f1);
    }
    encode_is_injective(name1, name2, true);
    encode_is_injective(branch1, branch2, false);
}

/// Every character of `s` stands unchanged: `s` is made of letters, digits,
/// `_`, `-` and characters outside ASCII, and where it is guarded, none of
/// its `-` goes on with `branch`.
pub open spec fn is_unchanged(s: Seq<char>, guarded: bool) -> bool {
    forall|i: int| 0 <= i < s.len() ==> kept(#[trigger] s.skip(i), guarded)
}

proof fn lemma_encode_unchanged(s: Seq<char>, guarded: bool)
    requires
        is_unchanged(s, guarded),
    ensures
        encode(s, guarded) == s,
    decreases s.len(),
{
    if s.len() > 0 {
        let rest = s.skip(1);
        assert(s.skip(0) =~= s);
        assert forall|i: int| 0 <= i < rest.len() implies kept(
            #[trigger] rest.skip(i),
            guarded,
        ) by {
            assert(rest.skip(i) =~= s.skip(i + 1));
        }
        lemma_encode_unchanged(rest, guarded);
        assert(encode(s, guarded) =~= s);
    } else {
        assert(encode(s, guarded) =~= s);
    }
}

/// For a name and a branch whose characters all stand unchanged, the remote
/// identifier is `remote-`, the name, `-branch-` and the branch.
pub proof fn remote_name_of_unchanged(name: Seq<char>, branch: Seq<char>)
    requires
        is_unchanged(name, true),
        is_unchanged(branch, false),
    ensures
        remote_name_text(name, branch) == remote_prefix() + name + separator() + branch,
{
    lemma_encode_unchanged(name, true);
    lemma_encode_unchanged(branch, false);
}

/// Tells whether a character stands unchanged wherever it occurs.
pub fn plain(c: char) -> (b: bool)
    ensures
        b == is_plain(c),
{
    ('a' <= c && c <= 'z') || ('A' <= c && c <= 'Z') || ('0' <= c && c <= '9') || c == '_'
        || c as u32 >= 128
}

fn hex_char(d: u32) -> (c: char)
    requires
        d < 16,
    ensures
        c == hex_digit(d as int),
{
    if d < 10 {
        (48 + d as u8) as char
    } else {
        (55 + d as u8) as char
    }
}

/// Appends `text`, as it stands in an identifier, to `out`.
pub fn push_encoded(out: &mut String, text: &Vec<char>, guarded: bool)
    ensures
        final(out)@ == old(out)@ + encode(text@, guarded),
{
    let word: Vec<char> = vec!['b', 'r', 'a', 'n', 'c', 'h'];
    assert(word@ =~= guard_word());
    let n: usize = text.len();
    let mut i: usize = 0;
    assert(text@.skip(0) =~= text@);
    while i < n
        invariant
            i <= n,
            n == text@.len(),
            word@ == guard_word(),
            out@ + encode(text@.skip(i as int), guarded) == old(out)@ + encode(text@, guarded),
        decreases n - i,
    {
        let c = text[i];
        let ghost rest = text@.skip(i as int);
        let ghost before = out@;
        proof {
            lemma_encode_head(rest, guarded);
            assert(rest.skip(1) =~= text@.skip(i + 1));
        }
        let keep = plain(c) || (c == '-' && !(guarded && has_prefix_at(text, i + 1, &word)));
        assert(keep == kept(rest, guarded));
        if keep {
            out.push(c);
            assert(out@ =~= before + head_piece(rest, guarded));
        } else {
            let code: u32 = c as u32;
            proof {
                lemma_escaped_is_ascii(rest, guarded);
            }
            out.push('%');
            out.push(hex_char(code / 16));
            out.push(hex_char(code % 16));
            assert(out@ =~= before + head_piece(rest, guarded));
        }
        assert(out@ + encode(text@.skip(i + 1), guarded) =~= before + encode(rest, guarded));
        i = i + 1;
    }
    assert(encode(text@.skip(n as int), guarded) =~= Seq::<char>::empty());
    assert(out@ + Seq::<char>::empty() =~= out@);
}

/// The remote identifier for a repository name and a branch.
pub fn remote_identifier(name: &str, branch: &str) -> (id: String)
    ensures
        id@ == remote_name_text(name@, branch@),
        is_remote_identifier(id@),
{
    let mut id = "remote-".to_owned();
    push_encoded(&mut id, &chars_of(name), true);
    id.append("-branch-");
    push_encoded(&mut id, &chars_of(branch), false);
    proof {
        remote_name_is_identifier(name@, branch@);
    }
    id
}

/// Every remote identifier can name a remote.
pub proof fn remote_name_is_identifier(name: Seq<char>, branch: Seq<char>)
    ensures
        is_remote_identifier(remote_name_text(name, branch)),
{
    reveal_strlit("remote-");
    reveal_strlit("-branch-");
    encode_gives_identifier_chars(name, true);
    encode_gives_identifier_chars(branch, false);
    let p = remote_prefix();
    let e = encode(name, true);
    let s = separator();
    let f = encode(branch, false);
    let r = remote_name_text(name, branch);
    assert(p.len() == 7 && s.len() == 8);
    assert forall|i: int| 0 <= i < r.len() implies is_identifier_char(#[trigger] r[i]) by {
        if i < 7 {
            assert(r[i] == p[i]);
        } else if i < 7 + e.len() {
            assert(r[i] == e[i - 7]);
        } else if i < 7 + e.len() + 8 {
            assert(r[i] == s[i - 7 - e.len()]);
        } else {
            assert(r[i] == f[i - 7 - e.len() - 8]);
        }
    }
}

} // verus!
