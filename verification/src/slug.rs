//! Slugs: the part of an address that names a post or a category.

use vstd::prelude::*;
use vstd::utf8::is_ascii_chars;

verus! {

/// The ASCII text that `deunicode::deunicode` writes for a text.
pub uninterp spec fn deunicoded(text: Seq<char>) -> Seq<char>;

/// Every character of `s` stands below U+007F: the text is ASCII and holds
/// no delete character.
pub open spec fn plain_ascii(s: Seq<char>) -> bool {
    forall|i: int| 0 <= i < s.len() ==> below_delete(#[trigger] s[i])
}

/// `c` stands below U+007F.
pub open spec fn below_delete(c: char) -> bool {
    let v = c as u32;
    v < 0x7F
}

/// Calls `deunicode::deunicode`, which transliterates a text into ASCII.
///
/// The contract names the result and claims what the crate documents of it,
/// that every character of it is ASCII, and what the crate's first step
/// shows: a text whose bytes all stand below 0x7F comes back as it is.
#[verifier::external_body]
fn transliterate(text: &str) -> (ascii: String)
    ensures
        ascii@ == deunicoded(text@),
        is_ascii_chars(ascii@),
        plain_ascii(text@) ==> ascii@ == text@,
{
    deunicode::deunicode(text)
}

/// `c` is an ASCII letter or digit.
pub open spec fn is_word_char(c: char) -> bool {
    let v = c as u32;
    0x30 <= v <= 0x39 || 0x41 <= v <= 0x5A || 0x61 <= v <= 0x7A
}

/// `c` with an ASCII capital turned into its small letter.
pub open spec fn lowered(c: char) -> char {
    if 0x41 <= c as u32 <= 0x5A {
        (c as u32 + 0x20) as char
    } else {
        c
    }
}

/// `c` may stand in a slug: a small ASCII letter, a digit or a dash.
pub open spec fn is_slug_char(c: char) -> bool {
    let v = c as u32;
    0x30 <= v <= 0x39 || 0x61 <= v <= 0x7A || c == '-'
}

/// The words of `s` in small letters, a dash after each run of other
/// characters that follows a word.
pub open spec fn dashed(s: Seq<char>) -> Seq<char>
    decreases s.len(),
{
    if s.len() == 0 {
        Seq::<char>::empty()
    } else {
        let before = dashed(s.drop_last());
        if is_word_char(s.last()) {
            before.push(lowered(s.last()))
        } else if before.len() > 0 && before.last() != '-' {
            before.push('-')
        } else {
            before
        }
    }
}

/// `t` without a dash at its end.
pub open spec fn without_trailing_dash(t: Seq<char>) -> Seq<char> {
    if t.len() > 0 && t.last() == '-' {
        t.drop_last()
    } else {
        t
    }
}

/// The slug of a text without words.
pub open spec fn default_slug() -> Seq<char> {
    seq!['p', 'o', 's', 't']
}

/// The slug of `s`: its words, ASCII letters and digits in small letters,
/// joined by single dashes; the default slug where `s` has no word.
pub open spec fn slug_of(s: Seq<char>) -> Seq<char> {
    let joined = without_trailing_dash(dashed(s));
    if joined.len() == 0 {
        default_slug()
    } else {
        joined
    }
}

/// A text is well shaped for a slug: not empty, of slug characters only,
/// without a dash at either end and without two dashes in a row.
pub open spec fn slug_shaped(t: Seq<char>) -> bool {
    &&& t.len() > 0
    &&& forall|i: int| 0 <= i < t.len() ==> is_slug_char(#[trigger] t[i])
    &&& t[0] != '-'
    &&& t.last() != '-'
    &&& forall|i: int| 0 <= i < t.len() - 1 ==> !(#[trigger] t[i] == '-' && t[i + 1] == '-')
}

/// What `dashed` writes holds slug characters only, begins with no dash and
/// never has two dashes in a row.
pub proof fn lemma_dashed_shape(s: Seq<char>)
    ensures
        forall|i: int| 0 <= i < dashed(s).len() ==> is_slug_char(#[trigger] dashed(s)[i]),
        dashed(s).len() > 0 ==> dashed(s)[0] != '-',
        forall|i: int|
            0 <= i < dashed(s).len() - 1 ==> !(#[trigger] dashed(s)[i] == '-' && dashed(s)[i + 1]
                == '-'),
    decreases s.len(),
{
    if s.len() > 0 {
        lemma_dashed_shape(s.drop_last());
        let before = dashed(s.drop_last());
        let c = s.last();
        if is_word_char(c) {
            let l = lowered(c);
            assert(is_slug_char(l) && l != '-');
            assert forall|i: int| 0 <= i < before.push(l).len() implies is_slug_char(
                #[trigger] before.push(l)[i],
            ) by {
                if i < before.len() {
                    assert(before.push(l)[i] == before[i]);
                }
            }
        }
    }
}

/// Every slug is well shaped.
pub proof fn lemma_slug_shaped(s: Seq<char>)
    ensures
        slug_shaped(slug_of(s)),
{
    lemma_dashed_shape(s);
    let d = dashed(s);
    let joined = without_trailing_dash(d);
    if joined.len() == 0 {
        assert(is_slug_char('p') && is_slug_char('o') && is_slug_char('s') && is_slug_char('t'));
    } else if d.len() > 0 && d.last() == '-' {
        assert(joined =~= d.drop_last());
        assert(joined.last() == d[d.len() - 2]);
        assert(d[d.len() - 1] == '-');
        assert forall|i: int| 0 <= i < joined.len() implies is_slug_char(#[trigger] joined[i]) by {
            assert(joined[i] == d[i]);
        }
        assert forall|i: int| 0 <= i < joined.len() - 1 implies !(#[trigger] joined[i] == '-'
            && joined[i + 1] == '-') by {
            assert(joined[i] == d[i] && joined[i + 1] == d[i + 1]);
        }
    }
}

fn word_char(c: char) -> (b: bool)
    ensures
        b == is_word_char(c),
{
    let v: u32 = c as u32;
    (0x30 <= v && v <= 0x39) || (0x41 <= v && v <= 0x5A) || (0x61 <= v && v <= 0x7A)
}

fn lower(c: char) -> (l: char)
    requires
        is_word_char(c),
    ensures
        l == lowered(c),
{
    let v: u32 = c as u32;
    if 0x41 <= v && v <= 0x5A {
        let b: u8 = (v + 0x20) as u8;
        b as char
    } else {
        c
    }
}

/// The slug of a text that is already ASCII. Any character other than an
/// ASCII letter or digit separates words.
pub fn slug_from_ascii(text: &str) -> (slug: String)
    ensures
        slug@ == slug_of(text@),
{
    let ghost s = text@;
    let mut out: String = String::new();
    let mut pending: bool = false;
    let mut empty: bool = true;
    assert(s.take(0) =~= Seq::<char>::empty());
    for c in it: text.chars()
        invariant
            it.seq() == s,
            s == text@,
            out@ == without_trailing_dash(dashed(s.take(it.index()))),
            pending == (dashed(s.take(it.index())).len() > 0 && dashed(
                s.take(it.index()),
            ).last() == '-'),
            empty == (out@.len() == 0),
            out@.len() > 0 ==> out@.last() != '-',
            pending ==> !empty,
    {
        let ghost i = it.index();
        proof {
            assert(s.take(i + 1).drop_last() =~= s.take(i));
            assert(s.take(i + 1).last() == c);
        }
        let ghost before = dashed(s.take(i));
        if word_char(c) {
            let l: char = lower(c);
            assert(l != '-');
            if pending {
                assert(before =~= out@.push('-'));
                out.push('-');
            } else {
                assert(before =~= out@);
            }
            out.push(l);
            pending = false;
            empty = false;
        } else if !empty && !pending {
            assert(before =~= out@);
            assert(before.push('-').drop_last() =~= before);
            pending = true;
        }
    }
    proof {
        assert(s.take(s.len() as int) =~= s);
    }
    if empty {
        proof {
            reveal_strlit("post");
            assert("post"@ =~= default_slug());
        }
        "post".to_owned()
    } else {
        out
    }
}

/// What `dashed` writes of a text of slug characters that begins with no
/// dash and never has two dashes in a row is that text.
pub proof fn lemma_dashed_keeps_slug_text(t: Seq<char>)
    requires
        forall|i: int| 0 <= i < t.len() ==> is_slug_char(#[trigger] t[i]),
        t.len() > 0 ==> t[0] != '-',
        forall|i: int| 0 <= i < t.len() - 1 ==> !(#[trigger] t[i] == '-' && t[i + 1] == '-'),
    ensures
        dashed(t) == t,
    decreases t.len(),
{
    if t.len() > 0 {
        let before = t.drop_last();
        assert forall|i: int| 0 <= i < before.len() implies is_slug_char(#[trigger] before[i]) by {
            assert(before[i] == t[i]);
        }
        assert forall|i: int| 0 <= i < before.len() - 1 implies !(#[trigger] before[i] == '-'
            && before[i + 1] == '-') by {
            assert(before[i] == t[i] && before[i + 1] == t[i + 1]);
        }
        if before.len() > 0 {
            assert(before[0] == t[0]);
        }
        lemma_dashed_keeps_slug_text(before);
        let c = t.last();
        assert(is_slug_char(c));
        if is_word_char(c) {
            assert(lowered(c) == c);
        } else {
            assert(c == '-');
            assert(t.len() >= 2);
            assert(before.last() == t[t.len() - 2]);
            assert(t[t.len() - 1] == '-');
        }
        assert(before.push(c) =~= t);
    }
}

/// The slug of a slug is itself: every well-shaped text is its own slug.
pub proof fn lemma_slug_of_slug(t: Seq<char>)
    requires
        slug_shaped(t),
    ensures
        slug_of(t) == t,
{
    lemma_dashed_keeps_slug_text(t);
}

/// A well-shaped slug is plain ASCII.
pub proof fn lemma_slug_is_plain_ascii(t: Seq<char>)
    requires
        slug_shaped(t),
    ensures
        plain_ascii(t),
{
    assert forall|i: int| 0 <= i < t.len() implies below_delete(#[trigger] t[i]) by {
        assert(is_slug_char(t[i]));
    }
}

/// The slug of any text: the text is first transliterated into ASCII. The
/// result is well shaped; plain ASCII text needs no transliteration, and a
/// text that is a slug already comes back as it is.
pub fn slugify(text: &str) -> (slug: String)
    ensures
        slug@ == slug_of(deunicoded(text@)),
        slug_shaped(slug@),
        plain_ascii(text@) ==> slug@ == slug_of(text@),
        slug_shaped(text@) ==> slug@ == text@,
{
    let ascii: String = transliterate(text);
    proof {
        lemma_slug_shaped(ascii@);
        if slug_shaped(text@) {
            lemma_slug_is_plain_ascii(text@);
            lemma_slug_of_slug(text@);
        }
    }
    slug_from_ascii(ascii.as_str())
}

} // verus!
