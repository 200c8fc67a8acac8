//! Argument classifier: splits a flat invocation argument list into build
//! target patterns and free-form options, preserving relative order.

use vstd::prelude::*;

verus! {

/// A `//` pair starts at position `i` of `s`.
pub open spec fn double_slash_at(s: Seq<char>, i: int) -> bool {
    0 <= i && i + 2 <= s.len() && s[i] == '/' && s[i + 1] == '/'
}

/// A token is a target pattern iff it starts with `//`, or starts with `:`,
/// or starts with `@` and contains `//` somewhere in the token.
pub open spec fn is_target_token(s: Seq<char>) -> bool {
    ||| (s.len() >= 2 && s[0] == '/' && s[1] == '/')
    ||| (s.len() >= 1 && s[0] == ':')
    ||| (s.len() >= 1 && s[0] == '@' && exists|i: int| double_slash_at(s, i))
}

/// The subsequence of target tokens, in original order.
pub open spec fn targets_of(toks: Seq<Seq<char>>) -> Seq<Seq<char>>
    decreases toks.len(),
{
    if toks.len() == 0 {
        Seq::empty()
    } else if is_target_token(toks.last()) {
        targets_of(toks.drop_last()).push(toks.last())
    } else {
        targets_of(toks.drop_last())
    }
}

/// The complementary subsequence of option tokens, in original order.
pub open spec fn options_of(toks: Seq<Seq<char>>) -> Seq<Seq<char>>
    decreases toks.len(),
{
    if toks.len() == 0 {
        Seq::empty()
    } else if is_target_token(toks.last()) {
        options_of(toks.drop_last())
    } else {
        options_of(toks.drop_last()).push(toks.last())
    }
}

/// The views of a vector of strings.
pub open spec fn views(v: Seq<String>) -> Seq<Seq<char>> {
    v.map_values(|s: String| s@)
}

/// Decides whether one token is a target pattern.
pub fn is_target_pattern(tok: &str) -> (r: bool)
    ensures
        r == is_target_token(tok@),
{
    let n = tok.unicode_len();
    if n >= 2 && tok.get_char(0) == '/' && tok.get_char(1) == '/' {
        return true;
    }
    if n >= 1 && tok.get_char(0) == ':' {
        return true;
    }
    if n >= 1 && tok.get_char(0) == '@' {
        let mut i: usize = 0;
        while i < n
            invariant
                n == tok@.len(),
                i <= n,
                tok@.len() >= 1 && tok@[0] == '@',
                forall|j: int| 0 <= j < i ==> !double_slash_at(tok@, j),
            decreases n - i,
        {
            if i + 1 < n && tok.get_char(i) == '/' && tok.get_char(i + 1) == '/' {
                proof {
                    assert(double_slash_at(tok@, i as int));
                }
                return true;
            }
            i += 1;
        }
        proof {
            assert(forall|j: int| double_slash_at(tok@, j) ==> 0 <= j < i);
        }
        return false;
    }
    false
}

/// Splits an argument list into its target patterns and its options; both
/// keep their original relative order, nothing is dropped or deduplicated.
pub fn classify_args(args: &Vec<String>) -> (r: (Vec<String>, Vec<String>))
    ensures
        views(r.0@) == targets_of(views(args@)),
        views(r.1@) == options_of(views(args@)),
{
    let mut targets: Vec<String> = Vec::new();
    let mut opts: Vec<String> = Vec::new();
    let mut i: usize = 0;
    while i < args.len()
        invariant
            i <= args.len(),
            views(targets@) == targets_of(views(args@.take(i as int))),
            views(opts@) == options_of(views(args@.take(i as int))),
        decreases args.len() - i,
    {
        let a = args[i].clone();
        proof {
            let pre = views(args@.take(i as int));
            let post = views(args@.take(i + 1 as int));
            assert(post.drop_last() =~= pre);
            assert(post.last() == args@[i as int]@);
        }
        if is_target_pattern(a.as_str()) {
            targets.push(a);
            proof {
                assert(views(targets@) =~= targets_of(views(args@.take(i + 1 as int))));
                assert(views(opts@) =~= options_of(views(args@.take(i + 1 as int))));
            }
        } else {
            opts.push(a);
            proof {
                assert(views(targets@) =~= targets_of(views(args@.take(i + 1 as int))));
                assert(views(opts@) =~= options_of(views(args@.take(i + 1 as int))));
            }
        }
        i += 1;
    }
    proof {
        assert(args@.take(args@.len() as int) =~= args@);
    }
    (targets, opts)
}

} // verus!
