//! Verified string splitting.
//!
//! A FEN string is cut twice: first into its six whitespace-separated
//! fields, then the placement field is cut on `/` into rank descriptions.
//! The two cuts follow the semantics of `str::split_whitespace` (maximal
//! runs of non-whitespace characters; no empty tokens) and of `str::split`
//! on a separator character (every separator ends a piece, so empty pieces
//! can appear, and the empty string yields one empty piece).

use vstd::prelude::*;

verus! {

/// A character of the Unicode `White_Space` class, the set that
/// `str::split_whitespace` splits on.
pub open spec fn is_fen_whitespace(c: char) -> bool {
    c == ' ' || c == '\t' || c == '\n' || c == '\u{b}' || c == '\u{c}' || c == '\r'
        || c == '\u{85}' || c == '\u{a0}' || c == '\u{1680}'
        || ('\u{2000}' <= c && c <= '\u{200a}')
        || c == '\u{2028}' || c == '\u{2029}' || c == '\u{202f}' || c == '\u{205f}'
        || c == '\u{3000}'
}

/// Executable test for a whitespace character.
pub fn fen_whitespace(c: char) -> (b: bool)
    ensures
        b == is_fen_whitespace(c),
{
    c == ' ' || c == '\t' || c == '\n' || c == '\u{b}' || c == '\u{c}' || c == '\r'
        || c == '\u{85}' || c == '\u{a0}' || c == '\u{1680}'
        || ('\u{2000}' <= c && c <= '\u{200a}')
        || c == '\u{2028}' || c == '\u{2029}' || c == '\u{202f}' || c == '\u{205f}'
        || c == '\u{3000}'
}

/// The pieces of `s` cut at every occurrence of `sep`, in order.
pub open spec fn split_on(s: Seq<char>, sep: char) -> Seq<Seq<char>>
    decreases s.len(),
{
    if s.len() == 0 {
        seq![Seq::<char>::empty()]
    } else if s[0] == sep {
        seq![Seq::<char>::empty()] + split_on(s.drop_first(), sep)
    } else {
        let rest = split_on(s.drop_first(), sep);
        seq![seq![s[0]] + rest[0]] + rest.drop_first()
    }
}

/// Splitting always yields at least one piece.
pub proof fn lemma_split_on_nonempty(s: Seq<char>, sep: char)
    ensures
        split_on(s, sep).len() >= 1,
    decreases s.len(),
{
    if s.len() > 0 && s[0] != sep {
        lemma_split_on_nonempty(s.drop_first(), sep);
    }
}

/// How one more character changes the pieces: a separator starts a new
/// empty piece, any other character extends the last piece.
pub proof fn lemma_split_on_push(s: Seq<char>, sep: char, c: char)
    ensures
        split_on(s, sep).len() >= 1,
        c == sep ==> split_on(s.push(c), sep) == split_on(s, sep).push(Seq::<char>::empty()),
        c != sep ==> split_on(s.push(c), sep) == split_on(s, sep).update(
            split_on(s, sep).len() - 1,
            split_on(s, sep).last().push(c),
        ),
    decreases s.len(),
{
    lemma_split_on_nonempty(s, sep);
    if s.len() == 0 {
        reveal_with_fuel(split_on, 3);
        assert(s.push(c).drop_first() =~= Seq::<char>::empty());
        if c == sep {
            assert(split_on(s.push(c), sep) =~= split_on(s, sep).push(Seq::<char>::empty()));
        } else {
            assert(seq![c] + split_on(Seq::<char>::empty(), sep)[0] =~= seq![
                Seq::<char>::empty(),
            ].last().push(c));
            assert(split_on(s.push(c), sep) =~= split_on(s, sep).update(
                0,
                split_on(s, sep).last().push(c),
            ));
        }
    } else {
        let t = s.drop_first();
        assert(s.push(c).drop_first() =~= t.push(c));
        lemma_split_on_push(t, sep, c);
        if s[0] == sep {
            if c == sep {
                assert(split_on(s.push(c), sep) =~= split_on(s, sep).push(
                    Seq::<char>::empty(),
                ));
            } else {
                assert(split_on(s.push(c), sep) =~= split_on(s, sep).update(
                    split_on(s, sep).len() - 1,
                    split_on(s, sep).last().push(c),
                ));
            }
        } else {
            let rest = split_on(t, sep);
            if c == sep {
                assert(split_on(t.push(c), sep) == rest.push(Seq::<char>::empty()));
                assert(rest.push(Seq::<char>::empty())[0] == rest[0]);
                assert(split_on(s.push(c), sep) =~= split_on(s, sep).push(
                    Seq::<char>::empty(),
                ));
            } else {
                if rest.len() == 1 {
                    assert(split_on(s.push(c), sep) =~= split_on(s, sep).update(
                        split_on(s, sep).len() - 1,
                        split_on(s, sep).last().push(c),
                    ));
                } else {
                    assert(rest.update(rest.len() - 1, rest.last().push(c))[0] == rest[0]);
                    assert(split_on(s.push(c), sep) =~= split_on(s, sep).update(
                        split_on(s, sep).len() - 1,
                        split_on(s, sep).last().push(c),
                    ));
                }
            }
        }
    }
}

/// The whitespace-separated tokens of `s`, in order: maximal runs of
/// non-whitespace characters, never empty.
pub open spec fn split_ws(s: Seq<char>) -> Seq<Seq<char>>
    decreases s.len(),
{
    if s.len() == 0 {
        Seq::<Seq<char>>::empty()
    } else if is_fen_whitespace(s[0]) {
        split_ws(s.drop_first())
    } else {
        let rest = split_ws(s.drop_first());
        if s.len() >= 2 && !is_fen_whitespace(s[1]) {
            seq![seq![s[0]] + rest[0]] + rest.drop_first()
        } else {
            seq![seq![s[0]]] + rest
        }
    }
}

/// A string that ends in a non-whitespace character has a last token.
pub proof fn lemma_split_ws_nonempty(s: Seq<char>)
    requires
        s.len() > 0,
        !is_fen_whitespace(s.last()),
    ensures
        split_ws(s).len() >= 1,
    decreases s.len(),
{
    if s.len() > 1 {
        lemma_split_ws_nonempty(s.drop_first());
    }
}

/// How one more character changes the tokens: whitespace changes nothing,
/// a non-whitespace character after whitespace (or at the start) opens a
/// new token, and one after a non-whitespace character extends the last.
pub proof fn lemma_split_ws_push(s: Seq<char>, c: char)
    ensures
        is_fen_whitespace(c) ==> split_ws(s.push(c)) == split_ws(s),
        (!is_fen_whitespace(c) && (s.len() == 0 || is_fen_whitespace(s.last()))) ==> split_ws(
            s.push(c),
        ) == split_ws(s).push(seq![c]),
        (!is_fen_whitespace(c) && s.len() > 0 && !is_fen_whitespace(s.last())) ==> {
            &&& split_ws(s).len() >= 1
            &&& split_ws(s.push(c)) == split_ws(s).update(
                split_ws(s).len() - 1,
                split_ws(s).last().push(c),
            )
        },
    decreases s.len(),
{
    if s.len() > 0 && !is_fen_whitespace(s.last()) {
        lemma_split_ws_nonempty(s);
    }
    if s.len() == 0 {
        reveal_with_fuel(split_ws, 3);
        let p = s.push(c);
        assert(p.drop_first() =~= Seq::<char>::empty());
        if is_fen_whitespace(c) {
            assert(split_ws(p) =~= split_ws(s));
        } else {
            assert(split_ws(p) =~= split_ws(s).push(seq![c]));
        }
    } else {
        let t = s.drop_first();
        let p = s.push(c);
        assert(p.drop_first() =~= t.push(c));
        assert(p.last() == c);
        lemma_split_ws_push(t, c);
        if t.len() > 0 {
            assert(t.last() == s.last());
        }
        if is_fen_whitespace(s[0]) {
            assert(s.len() >= 2 ==> p[1] == s[1]);
            if is_fen_whitespace(c) {
                assert(split_ws(p) =~= split_ws(s));
            } else if t.len() == 0 || is_fen_whitespace(t.last()) {
                assert(split_ws(p) =~= split_ws(s).push(seq![c]));
            } else {
                assert(split_ws(p) =~= split_ws(s).update(
                    split_ws(s).len() - 1,
                    split_ws(s).last().push(c),
                ));
            }
        } else {
            // s[0] is not whitespace, so both s and p start a token at 0.
            let rest = split_ws(t);
            let prest = split_ws(t.push(c));
            if s.len() == 1 {
                // p == seq![s[0], c]; t is empty.
                if is_fen_whitespace(c) {
                    assert(split_ws(p) =~= split_ws(s));
                } else {
                    reveal_with_fuel(split_ws, 3);
                    assert(prest == rest.push(seq![c]));
                    assert(prest[0] =~= seq![c]);
                    assert(split_ws(s) =~~= seq![seq![s[0]]]);
                    assert(seq![seq![s[0]] + prest[0]] + prest.drop_first() =~~= split_ws(
                        s,
                    ).update(split_ws(s).len() - 1, split_ws(s).last().push(c)));
                }
            } else {
                // s.len() >= 2, so p[1] == s[1] and the branch on the second
                // character is the same for s and p.
                assert(p[1] == s[1]);
                if !is_fen_whitespace(s[1]) {
                    // token continues into t; t starts non-whitespace
                    assert(t.len() > 0 && !is_fen_whitespace(t[0]));
                    lemma_split_ws_nonempty_head(t);
                    if is_fen_whitespace(c) {
                        assert(prest == rest);
                        assert(split_ws(p) =~= split_ws(s));
                    } else if is_fen_whitespace(t.last()) {
                        assert(prest == rest.push(seq![c]));
                        assert(prest[0] == rest[0]);
                        assert(split_ws(p) =~= split_ws(s).push(seq![c]));
                    } else {
                        assert(prest == rest.update(rest.len() - 1, rest.last().push(c)));
                        if rest.len() == 1 {
                            assert(split_ws(p) =~= split_ws(s).update(
                                split_ws(s).len() - 1,
                                split_ws(s).last().push(c),
                            ));
                        } else {
                            assert(prest[0] == rest[0]);
                            assert(split_ws(p) =~= split_ws(s).update(
                                split_ws(s).len() - 1,
                                split_ws(s).last().push(c),
                            ));
                        }
                    }
                } else {
                    // s[1] is whitespace: s's first token is exactly seq![s[0]].
                    if is_fen_whitespace(c) {
                        assert(prest == rest);
                        assert(split_ws(p) =~= split_ws(s));
                    } else if is_fen_whitespace(t.last()) {
                        assert(prest == rest.push(seq![c]));
                        assert(split_ws(p) =~= split_ws(s).push(seq![c]));
                    } else {
                        assert(t.len() > 0);
                        assert(prest == rest.update(rest.len() - 1, rest.last().push(c)));
                        assert(split_ws(p) =~= split_ws(s).update(
                            split_ws(s).len() - 1,
                            split_ws(s).last().push(c),
                        ));
                    }
                }
            }
        }
    }
}

/// A string of nothing but whitespace has no tokens at all.
pub proof fn lemma_all_whitespace_no_tokens(s: Seq<char>)
    requires
        forall|i: int| 0 <= i < s.len() ==> is_fen_whitespace(#[trigger] s[i]),
    ensures
        split_ws(s).len() == 0,
    decreases s.len(),
{
    if s.len() > 0 {
        lemma_all_whitespace_no_tokens(s.drop_first());
    }
}

/// A string that starts with a non-whitespace character has a first token.
pub proof fn lemma_split_ws_nonempty_head(s: Seq<char>)
    requires
        s.len() > 0,
        !is_fen_whitespace(s[0]),
    ensures
        split_ws(s).len() >= 1,
{
}

/// Append one character to a `String`.
/// Relies on `String::push`, which appends exactly the given character.
#[verifier::external_body]
fn push_char(s: &mut String, c: char)
    ensures
        final(s)@ == old(s)@.push(c),
{
    s.push(c);
}

/// Cut `s` at every `/`, keeping empty pieces, as `str::split('/')` does.
pub fn split_slashes(s: &str) -> (parts: Vec<String>)
    ensures
        parts.deep_view() == split_on(s@, '/'),
        parts.len() >= 1,
{
    let n = s.unicode_len();
    let mut parts: Vec<String> = Vec::new();
    parts.push(String::new());
    proof {
        assert(s@.take(0) =~= Seq::<char>::empty());
        assert(parts.deep_view() =~= split_on(s@.take(0), '/'));
    }
    let mut i: usize = 0;
    while i < n
        invariant
            n == s@.len(),
            0 <= i <= n,
            parts.deep_view() == split_on(s@.take(i as int), '/'),
            parts.len() >= 1,
        decreases n - i,
    {
        let c = s.get_char(i);
        proof {
            assert(s@.take(i + 1) =~= s@.take(i as int).push(s@[i as int]));
            lemma_split_on_push(s@.take(i as int), '/', c);
        }
        if c == '/' {
            parts.push(String::new());
            proof {
                assert(parts.deep_view() =~= split_on(s@.take(i + 1), '/'));
            }
        } else {
            let last = parts.len() - 1;
            let mut piece = parts.remove(last);
            push_char(&mut piece, c);
            parts.push(piece);
            proof {
                assert(parts.deep_view() =~= split_on(s@.take(i + 1), '/'));
            }
        }
        i = i + 1;
    }
    proof {
        assert(s@.take(n as int) =~= s@);
    }
    parts
}

/// Cut `s` into its whitespace-separated tokens, as `str::split_whitespace`
/// does: runs of whitespace separate tokens, and no token is empty.
pub fn split_whitespace_fields(s: &str) -> (fields: Vec<String>)
    ensures
        fields.deep_view() == split_ws(s@),
{
    let n = s.unicode_len();
    let mut fields: Vec<String> = Vec::new();
    proof {
        assert(s@.take(0) =~= Seq::<char>::empty());
        assert(fields.deep_view() =~= split_ws(s@.take(0)));
    }
    let mut i: usize = 0;
    let mut prev_ws: bool = true;
    while i < n
        invariant
            n == s@.len(),
            0 <= i <= n,
            fields.deep_view() == split_ws(s@.take(i as int)),
            prev_ws == (i == 0 || is_fen_whitespace(s@[i - 1])),
        decreases n - i,
    {
        let c = s.get_char(i);
        proof {
            assert(s@.take(i + 1) =~= s@.take(i as int).push(s@[i as int]));
            if i > 0 {
                assert(s@.take(i as int).last() == s@[i - 1]);
            }
            lemma_split_ws_push(s@.take(i as int), c);
        }
        if fen_whitespace(c) {
            proof {
                assert(fields.deep_view() =~= split_ws(s@.take(i + 1)));
            }
            prev_ws = true;
        } else if prev_ws {
            let mut token = String::new();
            push_char(&mut token, c);
            fields.push(token);
            proof {
                assert(fields.deep_view() =~= split_ws(s@.take(i + 1)));
            }
            prev_ws = false;
        } else {
            let last = fields.len() - 1;
            let mut token = fields.remove(last);
            push_char(&mut token, c);
            fields.push(token);
            proof {
                assert(fields.deep_view() =~= split_ws(s@.take(i + 1)));
            }
            prev_ws = false;
        }
        i = i + 1;
    }
    proof {
        assert(s@.take(n as int) =~= s@);
    }
    fields
}

} // verus!
