//! Shell quoting for the remote session: every option and target is
//! single-quote escaped and the results are joined with single spaces, so
//! that the remote shell's word splitting reconstructs the original token
//! list exactly.

use vstd::prelude::*;
use vstd::string::*;

verus! {

/// How one character is written inside a single-quoted region: a quote
/// closes the region, stands escaped, and reopens it.
pub open spec fn esc_char(c: char) -> Seq<char> {
    if c == '\'' {
        seq!['\'', '\\', '\'', '\'']
    } else {
        seq![c]
    }
}

/// The escaped form of a whole token body.
pub open spec fn escaped(s: Seq<char>) -> Seq<char>
    decreases s.len(),
{
    if s.len() == 0 {
        Seq::empty()
    } else {
        esc_char(s[0]) + escaped(s.drop_first())
    }
}

/// A token wrapped in single quotes with its body escaped.
pub open spec fn quoted(s: Seq<char>) -> Seq<char> {
    seq!['\''] + escaped(s) + seq!['\'']
}

/// All tokens quoted and joined with single spaces.
pub open spec fn joined(toks: Seq<Seq<char>>) -> Seq<char>
    decreases toks.len(),
{
    if toks.len() == 0 {
        Seq::empty()
    } else if toks.len() == 1 {
        quoted(toks[0])
    } else {
        quoted(toks[0]) + seq![' '] + joined(toks.drop_first())
    }
}

proof fn lemma_escaped_push(s: Seq<char>, c: char)
    ensures
        escaped(s.push(c)) == escaped(s) + esc_char(c),
    decreases s.len(),
{
    if s.len() == 0 {
        assert(s.push(c)[0] == c);
        assert(s.push(c).drop_first() =~= Seq::<char>::empty());
        assert(escaped(Seq::<char>::empty()) == Seq::<char>::empty());
        assert(escaped(s.push(c)) == esc_char(c) + escaped(Seq::<char>::empty()));
        assert(escaped(s.push(c)) =~= escaped(s) + esc_char(c));
    } else {
        assert(s.push(c)[0] == s[0]);
        assert(s.push(c).drop_first() =~= s.drop_first().push(c));
        lemma_escaped_push(s.drop_first(), c);
        assert(escaped(s.push(c)) == esc_char(s[0]) + escaped(s.drop_first().push(c)));
        assert(escaped(s.push(c)) =~= escaped(s) + esc_char(c));
    }
}

proof fn lemma_joined_push(toks: Seq<Seq<char>>, t: Seq<char>)
    ensures
        joined(toks.push(t)) == if toks.len() == 0 {
            quoted(t)
        } else {
            joined(toks) + seq![' '] + quoted(t)
        },
    decreases toks.len(),
{
    if toks.len() == 0 {
        assert(joined(toks.push(t)) == quoted(t));
    } else {
        assert(toks.push(t).drop_first() =~~= toks.drop_first().push(t));
        lemma_joined_push(toks.drop_first(), t);
        assert(joined(toks.push(t)) =~= joined(toks) + seq![' '] + quoted(t));
    }
}

/// Relies on String::push: appends exactly the given character.
#[verifier::external_body]
pub(crate) fn push_char(s: &mut String, c: char)
    ensures
        final(s)@ == old(s)@ + seq![c],
{
    s.push(c)
}

/// Appends the quoted form of one token to the output.
pub fn push_quoted(out: &mut String, tok: &str)
    ensures
        final(out)@ == old(out)@ + quoted(tok@),
{
    push_char(out, '\'');
    let n = tok.unicode_len();
    let mut j: usize = 0;
    while j < n
        invariant
            n == tok@.len(),
            j <= n,
            out@ == old(out)@ + seq!['\''] + escaped(tok@.take(j as int)),
        decreases n - j,
    {
        let c = tok.get_char(j);
        if c == '\'' {
            push_char(out, '\'');
            push_char(out, '\\');
            push_char(out, '\'');
            push_char(out, '\'');
        } else {
            push_char(out, c);
        }
        proof {
            assert(tok@.take(j + 1 as int) =~= tok@.take(j as int).push(tok@[j as int]));
            lemma_escaped_push(tok@.take(j as int), tok@[j as int]);
            assert(out@ =~= old(out)@ + seq!['\''] + escaped(tok@.take(j + 1 as int)));
        }
        j += 1;
    }
    push_char(out, '\'');
    proof {
        assert(tok@.take(n as int) =~= tok@);
        assert(out@ =~= old(out)@ + quoted(tok@));
    }
}

/// Quotes every argument for the shell and joins them with single spaces.
pub fn shell_join_quoted(args: &Vec<String>) -> (r: String)
    ensures
        r@ == joined(crate::args::views(args@)),
{
    let mut out = String::new();
    let mut i: usize = 0;
    while i < args.len()
        invariant
            i <= args.len(),
            out@ == joined(crate::args::views(args@.take(i as int))),
        decreases args.len() - i,
    {
        if i > 0 {
            push_char(&mut out, ' ');
        }
        push_quoted(&mut out, args[i].as_str());
        proof {
            let pre = crate::args::views(args@.take(i as int));
            let post = crate::args::views(args@.take(i + 1 as int));
            assert(post =~~= pre.push(args@[i as int]@));
            lemma_joined_push(pre, args@[i as int]@);
            assert(out@ =~= joined(post));
        }
        i += 1;
    }
    proof {
        assert(args@.take(args@.len() as int) =~= args@);
    }
    out
}

// ------------------------------------------------------------------
// The remote shell's word splitting, and the round-trip law.
// ------------------------------------------------------------------

/// One pass of POSIX-style word splitting restricted to what the quoting
/// above can produce: single-quoted regions, backslash escapes outside
/// quotes, and unquoted spaces as separators. `in_quote` says whether a
/// single-quoted region is open, `cur` is the word collected so far, and
/// `started` whether the current word has begun (an empty pair of quotes
/// still yields an empty word).
pub open spec fn split_step(
    s: Seq<char>,
    in_quote: bool,
    cur: Seq<char>,
    started: bool,
    acc: Seq<Seq<char>>,
) -> Seq<Seq<char>>
    decreases s.len(),
{
    if s.len() == 0 {
        if started {
            acc.push(cur)
        } else {
            acc
        }
    } else {
        let c = s[0];
        let rest = s.drop_first();
        if in_quote {
            if c == '\'' {
                split_step(rest, false, cur, started, acc)
            } else {
                split_step(rest, true, cur.push(c), started, acc)
            }
        } else if c == ' ' {
            if started {
                split_step(rest, false, Seq::empty(), false, acc.push(cur))
            } else {
                split_step(rest, false, cur, false, acc)
            }
        } else if c == '\'' {
            split_step(rest, true, cur, true, acc)
        } else if c == '\\' {
            if rest.len() == 0 {
                if started {
                    acc.push(cur)
                } else {
                    acc
                }
            } else {
                split_step(rest.drop_first(), false, cur.push(rest[0]), true, acc)
            }
        } else {
            split_step(rest, false, cur.push(c), true, acc)
        }
    }
}

/// The word list the remote shell recovers from a command tail.
pub open spec fn shell_split(s: Seq<char>) -> Seq<Seq<char>> {
    split_step(s, false, Seq::empty(), false, Seq::empty())
}

/// Scanning the escaped body of a token inside an open quoted region
/// appends exactly that token's characters to the current word.
proof fn lemma_split_escaped(t: Seq<char>, rest: Seq<char>, cur: Seq<char>, acc: Seq<Seq<char>>)
    ensures
        split_step(escaped(t) + seq!['\''] + rest, true, cur, true, acc) == split_step(
            rest,
            false,
            cur + t,
            true,
            acc,
        ),
    decreases t.len(),
{
    if t.len() == 0 {
        assert(escaped(t) + seq!['\''] + rest =~= seq!['\''] + rest);
        assert((seq!['\''] + rest)[0] == '\'');
        assert((seq!['\''] + rest).drop_first() =~= rest);
        assert(cur + t =~= cur);
        assert(split_step(seq!['\''] + rest, true, cur, true, acc) == split_step(
            rest,
            false,
            cur,
            true,
            acc,
        ));
        assert(split_step(escaped(t) + seq!['\''] + rest, true, cur, true, acc) == split_step(
            rest,
            false,
            cur + t,
            true,
            acc,
        ));
    } else {
        let c = t[0];
        let t2 = t.drop_first();
        if c == '\'' {
            let tail = escaped(t2) + seq!['\''] + rest;
            assert(escaped(t) + seq!['\''] + rest =~= seq!['\'', '\\', '\'', '\''] + tail);
            let s0 = seq!['\'', '\\', '\'', '\''] + tail;
            assert(s0[0] == '\'');
            let s1 = s0.drop_first();
            assert(s1 =~= seq!['\\', '\'', '\''] + tail);
            assert(s1[0] == '\\');
            let s1r = s1.drop_first();
            assert(s1r =~= seq!['\'', '\''] + tail);
            assert(s1r[0] == '\'');
            let s2 = s1r.drop_first();
            assert(s2 =~= seq!['\''] + tail);
            assert(s2[0] == '\'');
            assert(s2.drop_first() =~= tail);
            lemma_split_escaped(t2, rest, cur.push('\''), acc);
            assert(cur.push('\'') + t2 =~= cur + t);
            assert(split_step(s0, true, cur, true, acc) == split_step(s1, false, cur, true, acc));
            assert(split_step(s1, false, cur, true, acc) == split_step(
                s2,
                false,
                cur.push('\''),
                true,
                acc,
            ));
            assert(split_step(s2, false, cur.push('\''), true, acc) == split_step(
                tail,
                true,
                cur.push('\''),
                true,
                acc,
            ));
            assert(split_step(escaped(t) + seq!['\''] + rest, true, cur, true, acc) == split_step(
                rest,
                false,
                cur + t,
                true,
                acc,
            ));
        } else {
            let tail = escaped(t2) + seq!['\''] + rest;
            assert(escaped(t) + seq!['\''] + rest =~= seq![c] + tail);
            assert((seq![c] + tail)[0] == c);
            assert((seq![c] + tail).drop_first() =~= tail);
            lemma_split_escaped(t2, rest, cur.push(c), acc);
            assert(cur.push(c) + t2 =~= cur + t);
            assert(split_step(seq![c] + tail, true, cur, true, acc) == split_step(
                tail,
                true,
                cur.push(c),
                true,
                acc,
            ));
            assert(split_step(escaped(t) + seq!['\''] + rest, true, cur, true, acc) == split_step(
                rest,
                false,
                cur + t,
                true,
                acc,
            ));
        }
    }
}

/// Scanning one quoted token from outside a quoted region appends that
/// token's characters to the current word and marks the word begun.
proof fn lemma_split_quoted(t: Seq<char>, rest: Seq<char>, cur: Seq<char>, started: bool, acc: Seq<
    Seq<char>,
>)
    ensures
        split_step(quoted(t) + rest, false, cur, started, acc) == split_step(
            rest,
            false,
            cur + t,
            true,
            acc,
        ),
{
    let tail = escaped(t) + seq!['\''] + rest;
    assert(quoted(t) + rest =~= seq!['\''] + tail);
    assert((seq!['\''] + tail)[0] == '\'');
    assert((seq!['\''] + tail).drop_first() =~= tail);
    lemma_split_escaped(t, rest, cur, acc);
}

proof fn lemma_split_joined(toks: Seq<Seq<char>>, acc: Seq<Seq<char>>)
    requires
        toks.len() > 0,
    ensures
        split_step(joined(toks), false, Seq::empty(), false, acc) == acc + toks,
    decreases toks.len(),
{
    let t0 = toks[0];
    if toks.len() == 1 {
        assert(joined(toks) =~= quoted(t0) + Seq::<char>::empty());
        lemma_split_quoted(t0, Seq::empty(), Seq::empty(), false, acc);
        assert(Seq::<char>::empty() + t0 =~= t0);
        assert(split_step(Seq::<char>::empty(), false, t0, true, acc) == acc.push(t0));
        assert(acc.push(t0) =~~= acc + toks);
    } else {
        let restj = joined(toks.drop_first());
        assert(joined(toks) =~= quoted(t0) + (seq![' '] + restj));
        lemma_split_quoted(t0, seq![' '] + restj, Seq::empty(), false, acc);
        assert(Seq::<char>::empty() + t0 =~= t0);
        assert((seq![' '] + restj)[0] == ' ');
        assert((seq![' '] + restj).drop_first() =~= restj);
        lemma_split_joined(toks.drop_first(), acc.push(t0));
        assert(acc.push(t0) + toks.drop_first() =~~= acc + toks);
    }
}

/// Round trip: quoting a token list and splitting it as the remote shell
/// does yields the original token list, whatever quotes, spaces or other
/// metacharacters the tokens hold.
pub proof fn lemma_shell_quote_round_trip(toks: Seq<Seq<char>>)
    ensures
        shell_split(joined(toks)) == toks,
{
    if toks.len() == 0 {
        assert(shell_split(joined(toks)) =~~= toks);
    } else {
        lemma_split_joined(toks, Seq::empty());
        assert(Seq::<Seq<char>>::empty() + toks =~~= toks);
    }
}

} // verus!
