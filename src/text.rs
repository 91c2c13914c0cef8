//! Character-level text helpers with exact specifications.
use vstd::prelude::*;
use vstd::std_specs::iter::IteratorSpec;

verus! {

/// `p` is a literal prefix of `s`.
pub open spec fn is_prefix(p: Seq<char>, s: Seq<char>) -> bool {
    p.len() <= s.len() && s.take(p.len() as int) == p
}

/// `s` with every occurrence of `p` removed, scanning left to right and
/// never letting two removed occurrences overlap. An empty `p` removes nothing.
pub open spec fn without(s: Seq<char>, p: Seq<char>) -> Seq<char>
    decreases s.len(),
{
    if p.len() == 0 || s.len() == 0 {
        s
    } else if is_prefix(p, s) {
        without(s.skip(p.len() as int), p)
    } else {
        seq![s[0]] + without(s.skip(1), p)
    }
}

/// Relies on `String::push`: the character is added at the end.
#[verifier::external_body]
fn push_char(s: &mut String, c: char)
    ensures
        final(s)@ == old(s)@.push(c),
{
    s.push(c);
}

/// The characters of `s`, in order.
pub fn chars_of(s: &str) -> (r: Vec<char>)
    ensures
        r@ == s@,
{
    let n = s.unicode_len();
    let mut out: Vec<char> = Vec::new();
    let mut it = s.chars();
    let ghost rest = s@;
    proof {
        broadcast use vstd::string::axiom_spec_iter;
    }
    loop
        invariant
            it.remaining() == s@.skip(out@.len() as int),
            out@ == s@.take(out@.len() as int),
            out@.len() <= s@.len(),
            n == s@.len(),
        ensures
            out@ == s@,
        decreases s@.len() - out@.len(),
    {
        proof {
            broadcast use vstd::string::next_postcondition;
        }
        match it.next() {
            Some(c) => {
                assert(s@.skip(out@.len() as int)[0] == s@[out@.len() as int]);
                assert(s@.skip(out@.len() as int).drop_first() =~= s@.skip(out@.len() + 1 as int));
                out.push(c);
                assert(out@ =~= s@.take(out@.len() as int));
            },
            None => {
                assert(out@ =~= s@);
                break ;
            },
        }
    }
    out
}

/// A string holding exactly the characters `cs`.
pub fn string_of(cs: &Vec<char>) -> (r: String)
    ensures
        r@ == cs@,
{
    let mut out = String::new();
    let mut i: usize = 0;
    while i < cs.len()
        invariant
            i <= cs@.len(),
            out@ == cs@.take(i as int),
        decreases cs@.len() - i,
    {
        push_char(&mut out, cs[i]);
        i += 1;
        assert(out@ =~= cs@.take(i as int));
    }
    assert(cs@.take(i as int) =~= cs@);
    out
}

/// Whether `p` is a literal prefix of `s`.
pub fn has_prefix(s: &Vec<char>, p: &Vec<char>) -> (r: bool)
    ensures
        r == is_prefix(p@, s@),
{
    if p.len() > s.len() {
        return false;
    }
    let mut i: usize = 0;
    while i < p.len()
        invariant
            p@.len() <= s@.len(),
            i <= p@.len(),
            forall|j: int| 0 <= j < i ==> s@[j] == p@[j],
        decreases p@.len() - i,
    {
        if s[i] != p[i] {
            assert(s@.take(p@.len() as int)[i as int] != p@[i as int]);
            return false;
        }
        i += 1;
    }
    assert(s@.take(p@.len() as int) =~= p@);
    true
}

/// Appends the characters of `more` to `out`.
pub fn push_all(out: &mut Vec<char>, more: &Vec<char>)
    ensures
        final(out)@ == old(out)@ + more@,
{
    let mut i: usize = 0;
    while i < more.len()
        invariant
            i <= more@.len(),
            out@ == old(out)@ + more@.take(i as int),
        decreases more@.len() - i,
    {
        out.push(more[i]);
        i += 1;
        assert(out@ =~= old(out)@ + more@.take(i as int));
    }
    assert(more@.take(i as int) =~= more@);
}

proof fn lemma_without_unfold(s: Seq<char>, p: Seq<char>, i: int)
    requires
        0 <= i < s.len(),
        p.len() > 0,
    ensures
        is_prefix(p, s.skip(i)) ==> without(s.skip(i), p) == without(
            s.skip(i + p.len()),
            p,
        ),
        !is_prefix(p, s.skip(i)) ==> without(s.skip(i), p) == seq![s[i]] + without(
            s.skip(i + 1),
            p,
        ),
{
    if is_prefix(p, s.skip(i)) {
        assert(s.skip(i).skip(p.len() as int) =~= s.skip(i + p.len()));
    }
    assert(s.skip(i).skip(1) =~= s.skip(i + 1));
}

/// The characters of `s` with every occurrence of `p` removed, as
/// `str::replace(s, p, "")` leaves them.
pub fn remove_all(s: &Vec<char>, p: &Vec<char>) -> (r: Vec<char>)
    ensures
        r@ == without(s@, p@),
{
    if p.len() == 0 {
        return s.clone();
    }
    let n = s.len();
    let mut out: Vec<char> = Vec::new();
    let mut i: usize = 0;
    assert(s@.skip(0) =~= s@);
    while i < s.len()
        invariant
            p@.len() > 0,
            i <= s@.len(),
            n == s@.len(),
            out@ + without(s@.skip(i as int), p@) == without(s@, p@),
        decreases s@.len() - i,
    {
        proof {
            lemma_without_unfold(s@, p@, i as int);
        }
        let mut matched = p.len() <= s.len() - i;
        let mut j: usize = 0;
        while matched && j < p.len()
            invariant
                p@.len() > 0,
                i < s@.len(),
                n == s@.len(),
                j <= p@.len(),
                matched ==> i + p@.len() <= s@.len(),
                matched ==> forall|k: int| 0 <= k < j ==> s@[i + k] == p@[k],
                !matched ==> !is_prefix(p@, s@.skip(i as int)),
            decreases p@.len() - j + (if matched {
                1int
            } else {
                0int
            }),
        {
            if s[i + j] != p[j] {
                assert(s@.skip(i as int).take(p@.len() as int)[j as int] != p@[j as int]);
                matched = false;
            } else {
                j += 1;
            }
        }
        if matched {
            assert(s@.skip(i as int).take(p@.len() as int) =~= p@);
            i = i + p.len();
        } else {
            let ghost before = out@;
            out.push(s[i]);
            assert(out@ =~= before + seq![s@[i as int]]);
            assert(out@ + without(s@.skip(i + 1), p@) =~= before + (seq![s@[i as int]] + without(
                s@.skip(i + 1),
                p@,
            )));
            i = i + 1;
        }
    }
    assert(s@.skip(i as int) =~= Seq::<char>::empty());
    assert(out@ + Seq::<char>::empty() =~= out@);
    out
}

} // verus!
