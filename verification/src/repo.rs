//! Repository identity: trimming of captured command output, synthesis of a
//! branch label for a detached head, and the filesystem-safe form of a
//! branch label.

use vstd::prelude::*;
use vstd::string::*;
use crate::quoting::push_char;

verus! {

/// The whitespace that command output is trimmed of.
pub open spec fn is_blank(c: char) -> bool {
    c == ' ' || c == '\n' || c == '\t' || c == '\r'
}

pub open spec fn trim_front(s: Seq<char>) -> Seq<char>
    decreases s.len(),
{
    if s.len() > 0 && is_blank(s[0]) {
        trim_front(s.drop_first())
    } else {
        s
    }
}

pub open spec fn trim_back(s: Seq<char>) -> Seq<char>
    decreases s.len(),
{
    if s.len() > 0 && is_blank(s.last()) {
        trim_back(s.drop_last())
    } else {
        s
    }
}

/// The captured output with leading and trailing whitespace removed.
pub open spec fn trimmed(s: Seq<char>) -> Seq<char> {
    trim_back(trim_front(s))
}

proof fn lemma_trim_front_subrange(s: Seq<char>, i: int)
    requires
        0 <= i <= s.len(),
        forall|j: int| 0 <= j < i ==> is_blank(s[j]),
    ensures
        trim_front(s) == trim_front(s.subrange(i, s.len() as int)),
    decreases i,
{
    if i > 0 {
        assert(is_blank(s[0]));
        assert(trim_front(s) == trim_front(s.drop_first()));
        let d = s.drop_first();
        lemma_trim_front_subrange(d, i - 1);
        assert(d.subrange(i - 1, d.len() as int) =~= s.subrange(i, s.len() as int));
    } else {
        assert(s.subrange(0, s.len() as int) =~= s);
    }
}

proof fn lemma_trim_back_subrange(s: Seq<char>, i: int)
    requires
        0 <= i <= s.len(),
        forall|j: int| i <= j < s.len() ==> is_blank(s[j]),
    ensures
        trim_back(s) == trim_back(s.subrange(0, i)),
    decreases s.len() - i,
{
    if i < s.len() {
        assert(is_blank(s.last()));
        assert(trim_back(s) == trim_back(s.drop_last()));
        let d = s.drop_last();
        lemma_trim_back_subrange(d, i);
        assert(d.subrange(0, i) =~= s.subrange(0, i));
    } else {
        assert(s.subrange(0, s.len() as int) =~= s);
    }
}

/// Decides whether one character counts as trimmable whitespace.
pub fn char_is_blank(c: char) -> (r: bool)
    ensures
        r == is_blank(c),
{
    c == ' ' || c == '\n' || c == '\t' || c == '\r'
}

/// Removes leading and trailing whitespace from captured command output.
pub fn trim_output(s: &str) -> (r: String)
    ensures
        r@ == trimmed(s@),
{
    let n = s.unicode_len();
    let mut a: usize = 0;
    while a < n && char_is_blank(s.get_char(a))
        invariant
            n == s@.len(),
            a <= n,
            forall|j: int| 0 <= j < a ==> is_blank(s@[j]),
        decreases n - a,
    {
        a += 1;
    }
    let mut b: usize = n;
    while b > a && char_is_blank(s.get_char(b - 1))
        invariant
            n == s@.len(),
            a <= b <= n,
            forall|j: int| b <= j < n ==> is_blank(s@[j]),
        decreases b,
    {
        b -= 1;
    }
    let ghost mid = s@.subrange(a as int, n as int);
    let ghost cutv = s@.subrange(a as int, b as int);
    proof {
        lemma_trim_front_subrange(s@, a as int);
        assert(forall|j: int| b - a <= j < mid.len() ==> is_blank(mid[j]));
        lemma_trim_back_subrange(mid, b - a);
        assert(mid.subrange(0, b - a) =~= cutv);
        if b > a {
            assert(mid[0] == s@[a as int]);
            assert(!is_blank(mid[0]));
            assert(trim_front(mid) == mid);
            assert(cutv.last() == s@[b - 1]);
            assert(!is_blank(cutv.last()));
            assert(trim_back(cutv) == cutv);
            assert(trimmed(s@) == cutv);
        } else {
            assert(forall|j: int| 0 <= j < mid.len() ==> is_blank(mid[j]));
            lemma_trim_all_blank(mid);
            assert(trim_front(mid) == Seq::<char>::empty());
            assert(trim_back(Seq::<char>::empty()) == Seq::<char>::empty());
            assert(cutv =~= Seq::<char>::empty());
            assert(trimmed(s@) == cutv);
        }
    }
    let cut = s.substring_char(a, b);
    String::from_str(cut)
}

proof fn lemma_trim_all_blank(s: Seq<char>)
    requires
        forall|j: int| 0 <= j < s.len() ==> is_blank(s[j]),
    ensures
        trim_front(s) == Seq::<char>::empty(),
        trim_back(s) == Seq::<char>::empty(),
    decreases s.len(),
{
    if s.len() > 0 {
        lemma_trim_all_blank(s.drop_first());
        lemma_trim_all_blank(s.drop_last());
    } else {
        assert(s =~= Seq::<char>::empty());
    }
}

/// The human-meaningful branch label: the branch name itself, or
/// `detached-<short-hash>` when the repository is in detached-head state
/// (the symbolic name then reads `HEAD`).
pub open spec fn branch_label_spec(branch: Seq<char>, short_hash: Seq<char>) -> Seq<char> {
    if branch == "HEAD"@ {
        "detached-"@ + short_hash
    } else {
        branch
    }
}

/// Synthesizes the branch label from the symbolic name and the short hash.
pub fn branch_label(branch: &str, short_hash: &str) -> (r: String)
    ensures
        r@ == branch_label_spec(branch@, short_hash@),
{
    let b = String::from_str(branch);
    let head = String::from_str("HEAD");
    if b == head {
        let mut out = String::from_str("detached-");
        out.append(short_hash);
        out
    } else {
        b
    }
}

/// How one character of a branch label is made filesystem safe: path
/// separators and spaces become a double underscore.
pub open spec fn safe_char(c: char) -> Seq<char> {
    if c == '/' || c == ' ' {
        seq!['_', '_']
    } else {
        seq![c]
    }
}

/// The filesystem-safe form of a whole branch label.
pub open spec fn sanitized(s: Seq<char>) -> Seq<char>
    decreases s.len(),
{
    if s.len() == 0 {
        Seq::empty()
    } else {
        safe_char(s[0]) + sanitized(s.drop_first())
    }
}

proof fn lemma_sanitized_push(s: Seq<char>, c: char)
    ensures
        sanitized(s.push(c)) == sanitized(s) + safe_char(c),
    decreases s.len(),
{
    if s.len() == 0 {
        assert(s.push(c)[0] == c);
        assert(s.push(c).drop_first() =~= Seq::<char>::empty());
        assert(sanitized(Seq::<char>::empty()) == Seq::<char>::empty());
        assert(sanitized(s.push(c)) == safe_char(c) + sanitized(Seq::<char>::empty()));
        assert(sanitized(s.push(c)) =~= sanitized(s) + safe_char(c));
    } else {
        assert(s.push(c)[0] == s[0]);
        assert(s.push(c).drop_first() =~= s.drop_first().push(c));
        lemma_sanitized_push(s.drop_first(), c);
        assert(sanitized(s.push(c)) == safe_char(s[0]) + sanitized(s.drop_first().push(c)));
        assert(sanitized(s.push(c)) =~= sanitized(s) + safe_char(c));
    }
}

/// A label without path separators or spaces is already its own
/// filesystem-safe form: sanitizing replaces no character.
pub proof fn lemma_sanitize_identity(s: Seq<char>)
    requires
        forall|j: int| 0 <= j < s.len() ==> s[j] != '/' && s[j] != ' ',
    ensures
        sanitized(s) == s,
    decreases s.len(),
{
    if s.len() == 0 {
        assert(sanitized(s) =~= s);
    } else {
        lemma_sanitize_identity(s.drop_first());
        assert(sanitized(s) =~= s);
    }
}

/// Produces the filesystem-safe form of a branch label.
pub fn sanitize_branch_label(label: &str) -> (r: String)
    ensures
        r@ == sanitized(label@),
{
    let n = label.unicode_len();
    let mut out = String::new();
    let mut i: usize = 0;
    while i < n
        invariant
            n == label@.len(),
            i <= n,
            out@ == sanitized(label@.take(i as int)),
        decreases n - i,
    {
        let c = label.get_char(i);
        if c == '/' || c == ' ' {
            push_char(&mut out, '_');
            push_char(&mut out, '_');
        } else {
            push_char(&mut out, c);
        }
        proof {
            assert(label@.take(i + 1 as int) =~= label@.take(i as int).push(label@[i as int]));
            lemma_sanitized_push(label@.take(i as int), label@[i as int]);
            assert(out@ =~= sanitized(label@.take(i + 1 as int)));
        }
        i += 1;
    }
    proof {
        assert(label@.take(n as int) =~= label@);
    }
    out
}

} // verus!
