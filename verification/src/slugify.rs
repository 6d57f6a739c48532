//! Slugs: a name lower-cased, whitespace runs collapsed, the words
//! joined with hyphens.
use vstd::prelude::*;

use crate::text::chars_of;
use crate::text::string_from_chars;

verus! {

/// The Unicode `White_Space` code points, as `char::is_whitespace`
/// recognises them.
pub open spec fn is_space(c: char) -> bool {
    let u = c as u32;
    ||| u == 0x9
    ||| u == 0xA
    ||| u == 0xB
    ||| u == 0xC
    ||| u == 0xD
    ||| u == 0x20
    ||| u == 0x85
    ||| u == 0xA0
    ||| u == 0x1680
    ||| (0x2000 <= u && u <= 0x200A)
    ||| u == 0x2028
    ||| u == 0x2029
    ||| u == 0x202F
    ||| u == 0x205F
    ||| u == 0x3000
}

/// Whether `c` is Unicode whitespace.
pub fn is_space_x(c: char) -> (r: bool)
    ensures
        r == is_space(c),
{
    let u = c as u32;
    u == 0x9 || u == 0xA || u == 0xB || u == 0xC || u == 0xD || u == 0x20 || u == 0x85 || u == 0xA0
        || u == 0x1680 || (0x2000 <= u && u <= 0x200A) || u == 0x2028 || u == 0x2029 || u == 0x202F
        || u == 0x205F || u == 0x3000
}

/// What `str::to_lowercase` returns for the given characters.
pub uninterp spec fn lower_of(s: Seq<char>) -> Seq<char>;

/// Relies on `str::to_lowercase`: the lower-case equivalent of the
/// string, a function of its characters alone.
#[verifier::external_body]
fn lowercase(s: &str) -> (r: String)
    ensures
        r@ == lower_of(s@),
        s@.len() == 0 ==> r@.len() == 0,
{
    s.to_lowercase()
}

/// The maximal whitespace-free runs of `s`, in order.
pub open spec fn words(s: Seq<char>) -> Seq<Seq<char>>
    decreases s.len(),
{
    if s.len() == 0 {
        Seq::empty()
    } else {
        let c = s.last();
        let rest = s.drop_last();
        if is_space(c) {
            words(rest)
        } else if rest.len() > 0 && !is_space(rest.last()) {
            let ws = words(rest);
            ws.update(ws.len() - 1, ws.last().push(c))
        } else {
            words(rest).push(seq![c])
        }
    }
}

/// The given pieces joined with single hyphens.
pub open spec fn join_hyphen(ws: Seq<Seq<char>>) -> Seq<char>
    decreases ws.len(),
{
    if ws.len() == 0 {
        Seq::empty()
    } else if ws.len() == 1 {
        ws[0]
    } else {
        join_hyphen(ws.drop_last()) + seq!['-'] + ws.last()
    }
}

/// The slug of `s`: its whitespace-free words joined with hyphens.
pub open spec fn slug_chars(s: Seq<char>) -> Seq<char> {
    join_hyphen(words(s))
}

/// A sequence ending in a non-space character has a last word.
proof fn lemma_words_nonempty(s: Seq<char>)
    requires
        s.len() > 0,
        !is_space(s.last()),
    ensures
        words(s).len() > 0,
    decreases s.len(),
{
    let rest = s.drop_last();
    if rest.len() > 0 && !is_space(rest.last()) {
        lemma_words_nonempty(rest);
    }
}

/// Extending the last word by one character extends the joined slug by
/// that character.
proof fn lemma_join_update_last(ws: Seq<Seq<char>>, c: char)
    requires
        ws.len() > 0,
    ensures
        join_hyphen(ws.update(ws.len() - 1, ws.last().push(c))) == join_hyphen(ws).push(c),
{
    let u = ws.update(ws.len() - 1, ws.last().push(c));
    assert(u.last() == ws.last().push(c));
    if ws.len() == 1 {
        assert(join_hyphen(u) == u[0]);
        assert(u[0] == ws[0].push(c));
        assert(join_hyphen(ws) == ws[0]);
    } else {
        assert(u.drop_last() =~= ws.drop_last());
        assert(join_hyphen(u) == join_hyphen(u.drop_last()) + seq!['-'] + u.last());
        assert(join_hyphen(ws.drop_last()) + seq!['-'] + ws.last().push(c) =~= (join_hyphen(
            ws.drop_last(),
        ) + seq!['-'] + ws.last()).push(c));
    }
}

/// Appending a fresh word appends it to the joined slug, after a hyphen
/// where a word already stood.
proof fn lemma_join_push(ws: Seq<Seq<char>>, w: Seq<char>)
    ensures
        join_hyphen(ws.push(w)) == if ws.len() == 0 {
            w
        } else {
            join_hyphen(ws) + seq!['-'] + w
        },
{
    let t = ws.push(w);
    assert(t.last() == w);
    if ws.len() == 0 {
        assert(join_hyphen(t) == t[0]);
        assert(t[0] == w);
    } else {
        assert(t.drop_last() =~= ws);
    }
}

/// How one more character changes the words of a sequence.
proof fn lemma_words_step(s: Seq<char>, c: char)
    ensures
        is_space(c) ==> words(s.push(c)) == words(s),
        !is_space(c) && s.len() > 0 && !is_space(s.last()) ==> words(s.push(c)).len() == words(
            s,
        ).len() && slug_chars(s.push(c)) == slug_chars(s).push(c),
        !is_space(c) && !(s.len() > 0 && !is_space(s.last())) ==> words(s.push(c)) == words(
            s,
        ).push(seq![c]),
{
    let t = s.push(c);
    assert(t.drop_last() =~= s);
    assert(t.last() == c);
    if !is_space(c) && s.len() > 0 && !is_space(s.last()) {
        lemma_words_nonempty(s);
        lemma_join_update_last(words(s), c);
    }
}

/// The slug of `text`: lower-cased, whitespace runs collapsed, words
/// joined with single hyphens.
pub fn slugify(text: String) -> (r: String)
    ensures
        r@ == slug_chars(lower_of(text@)),
{
    let low = lowercase(text.as_str());
    let lv = chars_of(low.as_str());
    let mut out: Vec<char> = Vec::new();
    let mut prev_word = false;
    let mut have_word = false;
    let mut i: usize = 0;
    while i < lv.len()
        invariant
            i <= lv.len(),
            lv@ == lower_of(text@),
            out@ == slug_chars(lv@.take(i as int)),
            have_word == (words(lv@.take(i as int)).len() > 0),
            prev_word == (i > 0 && !is_space(lv@[i as int - 1])),
        decreases lv.len() - i,
    {
        let ghost pre = lv@.take(i as int);
        let c = lv[i];
        proof {
            assert(lv@.take(i + 1 as int) =~= pre.push(lv@[i as int]));
            if i > 0 {
                assert(pre.last() == lv@[i as int - 1]);
            }
            lemma_words_step(pre, c);
        }
        if is_space_x(c) {
        } else if prev_word {
            out.push(c);
        } else {
            proof {
                lemma_join_push(words(pre), seq![c]);
            }
            if have_word {
                out.push('-');
                out.push(c);
                proof {
                    assert(slug_chars(pre) + seq!['-'] + seq![c] =~= slug_chars(pre).push(
                        '-',
                    ).push(c));
                }
            } else {
                out.push(c);
                proof {
                    assert(seq![c] =~= slug_chars(pre).push(c));
                }
            }
            have_word = true;
        }
        prev_word = !is_space_x(c);
        i = i + 1;
    }
    proof {
        assert(lv@.take(lv@.len() as int) =~= lv@);
    }
    string_from_chars(&out)
}

} // verus!
