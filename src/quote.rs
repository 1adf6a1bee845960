//! Re-quoting of string literals: the raw text of a literal is rewritten so
//! that it is delimited by a chosen quote character and still denotes the same
//! string.
use vstd::prelude::*;
use crate::seqs::group_cat;

verus! {

broadcast use group_cat;

pub open spec fn is_quote(c: char) -> bool {
    c == '"' || c == '\''
}

/// Prepends `p` to a text that may be missing.
pub open spec fn prepend(p: Seq<char>, o: Option<Seq<char>>) -> Option<Seq<char>> {
    match o {
        Some(r) => Some(p + r),
        None => None,
    }
}

/// Rewrites the body of a literal that was delimited by `q` so that it can be
/// delimited by `t`: an escaped `q` loses its backslash when `q` differs from
/// `t`, a bare `t` gains one, and every other character or escape is kept.
/// Missing when the body is not valid between two `q`s (a bare `q`, or a
/// backslash with nothing after it).
pub open spec fn requote_body(body: Seq<char>, q: char, t: char) -> Option<Seq<char>>
    decreases body.len(),
{
    if body.len() == 0 {
        Some(Seq::empty())
    } else if body[0] == '\\' {
        if body.len() < 2 {
            None
        } else {
            let c = body[1];
            let piece = if c == q && q != t {
                seq![c]
            } else {
                seq!['\\', c]
            };
            prepend(piece, requote_body(body.subrange(2, body.len() as int), q, t))
        }
    } else if body[0] == q {
        None
    } else {
        let piece = if body[0] == t {
            seq!['\\', t]
        } else {
            seq![body[0]]
        };
        prepend(piece, requote_body(body.subrange(1, body.len() as int), q, t))
    }
}

/// The raw text `raw` re-delimited by `t`; missing when `raw` is not a
/// quoted literal or `t` is not a quote character.
pub open spec fn requoted(raw: Seq<char>, t: char) -> Option<Seq<char>> {
    if raw.len() >= 2 && is_quote(raw[0]) && raw[raw.len() - 1] == raw[0] && is_quote(t) {
        match requote_body(raw.subrange(1, raw.len() - 1), raw[0], t) {
            Some(b) => Some(seq![t] + b + seq![t]),
            None => None,
        }
    } else {
        None
    }
}

/// The quote characters as text.
fn quote_str(t: char) -> (r: &'static str)
    requires
        is_quote(t),
    ensures
        r@ == seq![t],
{
    proof {
        reveal_strlit("\"");
        reveal_strlit("'");
    }
    if t == '"' {
        "\""
    } else {
        "'"
    }
}

/// Re-delimits the raw text of a string literal with `target`. `None` when
/// `raw` is not a quoted literal, or `target` not a quote character.
pub fn requote(raw: &str, target: char) -> (r: Option<String>)
    ensures
        match r {
            Some(x) => requoted(raw@, target) == Some(x@),
            None => requoted(raw@, target) is None,
        },
{
    let n = raw.unicode_len();
    if n < 2 || !(target == '"' || target == '\'') {
        return None;
    }
    let q = raw.get_char(0);
    if !(q == '"' || q == '\'') || raw.get_char(n - 1) != q {
        return None;
    }
    let t_str = quote_str(target);
    let mut out = String::new();
    out.append(t_str);
    let ghost body = raw@.subrange(1, n - 1);
    let ghost mut done: Seq<char> = Seq::empty();
    proof {
        reveal_strlit("\\");
    }
    let mut i: usize = 1;
    while i < n - 1
        invariant
            n == raw@.len(),
            n >= 2,
            1 <= i <= n - 1,
            q == raw@[0],
            is_quote(target),
            t_str@ == seq![target],
            body == raw@.subrange(1, n - 1),
            out@ == seq![target] + done,
            requote_body(body, q, target) == prepend(
                done,
                requote_body(raw@.subrange(i as int, n - 1), q, target),
            ),
        decreases n - i,
    {
        let ghost rest = raw@.subrange(i as int, n - 1);
        let ch = raw.get_char(i);
        assert(rest[0] == ch);
        if ch == '\\' {
            if i + 1 >= n - 1 {
                return None;
            }
            let c = raw.get_char(i + 1);
            assert(rest[1] == c);
            assert(rest.subrange(2, rest.len() as int) =~= raw@.subrange(i + 2, n - 1));
            if c == q && q != target {
                let piece = raw.substring_char(i + 1, i + 2);
                assert(piece@ =~= seq![c]);
                out.append(piece);
                proof {
                    done = done + seq![c];
                }
            } else {
                let piece = raw.substring_char(i, i + 2);
                assert(piece@ =~= seq!['\\', c]);
                out.append(piece);
                proof {
                    done = done + seq!['\\', c];
                }
            }
            i = i + 2;
        } else if ch == q {
            return None;
        } else {
            assert(rest.subrange(1, rest.len() as int) =~= raw@.subrange(i + 1, n - 1));
            if ch == target {
                proof {
                    reveal_strlit("\\");
                }
                let ghost before = out@;
                out.append("\\");
                out.append(t_str);
                assert(out@ =~= before + seq!['\\', target]);
                proof {
                    done = done + seq!['\\', target];
                }
            } else {
                let piece = raw.substring_char(i, i + 1);
                assert(piece@ =~= seq![ch]);
                out.append(piece);
                proof {
                    done = done + seq![ch];
                }
            }
            i = i + 1;
        }
    }
    out.append(t_str);
    assert(raw@.subrange(n - 1, n - 1) =~= Seq::<char>::empty());
    Some(out)
}

/// One unit of a string's value: a character, or an escape whose meaning
/// depends on the escaped character alone. An escaped quote is the quote
/// itself.
pub enum Unit {
    Char(char),
    Escape(char),
}

pub open spec fn prepend_unit(u: Unit, o: Option<Seq<Unit>>) -> Option<Seq<Unit>> {
    match o {
        Some(r) => Some(seq![u] + r),
        None => None,
    }
}

/// The value denoted by the body of a literal delimited by `q`; missing when
/// the body is not valid there.
pub open spec fn body_value(body: Seq<char>, q: char) -> Option<Seq<Unit>>
    decreases body.len(),
{
    if body.len() == 0 {
        Some(Seq::empty())
    } else if body[0] == '\\' {
        if body.len() < 2 {
            None
        } else {
            let u = if is_quote(body[1]) {
                Unit::Char(body[1])
            } else {
                Unit::Escape(body[1])
            };
            prepend_unit(u, body_value(body.subrange(2, body.len() as int), q))
        }
    } else if body[0] == q {
        None
    } else {
        prepend_unit(Unit::Char(body[0]), body_value(body.subrange(1, body.len() as int), q))
    }
}

/// The value denoted by the raw text of a quoted string literal.
pub open spec fn literal_value(raw: Seq<char>) -> Option<Seq<Unit>> {
    if raw.len() >= 2 && is_quote(raw[0]) && raw[raw.len() - 1] == raw[0] {
        body_value(raw.subrange(1, raw.len() - 1), raw[0])
    } else {
        None
    }
}

proof fn lemma_requote_body(body: Seq<char>, q: char, t: char)
    requires
        is_quote(q),
        is_quote(t),
        body_value(body, q) is Some,
    ensures
        requote_body(body, q, t) is Some,
        body_value(requote_body(body, q, t)->Some_0, t) == body_value(body, q),
    decreases body.len(),
{
    if body.len() == 0 {
        return;
    }
    if body[0] == '\\' {
        let c = body[1];
        let rest = body.subrange(2, body.len() as int);
        lemma_requote_body(rest, q, t);
        let r = requote_body(rest, q, t)->Some_0;
        if c == q && q != t {
            let out = seq![c] + r;
            assert(out.subrange(1, out.len() as int) =~= r);
        } else {
            let out = seq!['\\', c] + r;
            assert(out.subrange(2, out.len() as int) =~= r);
        }
    } else {
        let ch = body[0];
        let rest = body.subrange(1, body.len() as int);
        lemma_requote_body(rest, q, t);
        let r = requote_body(rest, q, t)->Some_0;
        if ch == t {
            let out = seq!['\\', t] + r;
            assert(out.subrange(2, out.len() as int) =~= r);
        } else {
            let out = seq![ch] + r;
            assert(out.subrange(1, out.len() as int) =~= r);
        }
    }
}

/// Re-quoting keeps the value: the raw text of a valid string literal,
/// re-quoted with any quote character, is again a valid literal and denotes
/// the same string.
pub proof fn lemma_requote_keeps_value(raw: Seq<char>, t: char)
    requires
        literal_value(raw) is Some,
        is_quote(t),
    ensures
        requoted(raw, t) is Some,
        literal_value(requoted(raw, t)->Some_0) == literal_value(raw),
        requoted(raw, t)->Some_0[0] == t,
{
    let body = raw.subrange(1, raw.len() - 1);
    lemma_requote_body(body, raw[0], t);
    let b = requote_body(body, raw[0], t)->Some_0;
    let out = seq![t] + b + seq![t];
    assert(out.subrange(1, out.len() - 1) =~= b);
}

} // verus!
