use vstd::prelude::*;
use crate::argument::texts;

verus! {

/// The pieces of `s` between occurrences of `sep`, in order; a text without
/// `sep` is one piece, and the empty text is one empty piece.
pub open spec fn split_on(s: Seq<char>, sep: char) -> Seq<Seq<char>>
    decreases s.len(),
{
    if s.len() == 0 {
        seq![Seq::empty()]
    } else {
        let before = split_on(s.drop_last(), sep);
        if s.last() == sep {
            before.push(Seq::empty())
        } else {
            before.update(before.len() - 1, before.last().push(s.last()))
        }
    }
}

proof fn lemma_split_nonempty(s: Seq<char>, sep: char)
    ensures
        split_on(s, sep).len() >= 1,
    decreases s.len(),
{
    if s.len() > 0 {
        lemma_split_nonempty(s.drop_last(), sep);
    }
}

/// Relies on `String::push`: appends one character.
#[verifier::external_body]
fn push_char(s: &mut String, c: char)
    ensures
        final(s)@ == old(s)@.push(c),
{
    s.push(c)
}

/// Splits a comma-separated list of hosts into its entries, in order.
pub fn split_hosts(s: &str) -> (r: Vec<String>)
    ensures
        texts(r@) == split_on(s@, ','),
{
    broadcast use vstd::string::axiom_spec_iter;

    let mut pieces: Vec<String> = Vec::new();
    let mut cur = String::new();
    for c in it: s.chars()
        invariant
            it.seq() == s@,
            texts(pieces@).push(cur@) == split_on(s@.take(it.index() as int), ','),
    {
        proof {
            let i = it.index() as int;
            assert(s@.take(i + 1).drop_last() =~= s@.take(i));
            assert(s@.take(i + 1).last() == c);
            lemma_split_nonempty(s@.take(i), ',');
        }
        if c == ',' {
            let done = cur;
            cur = String::new();
            pieces.push(done);
            proof {
                assert(texts(pieces@).push(cur@) =~= split_on(s@.take(it.index() as int + 1), ','));
            }
        } else {
            push_char(&mut cur, c);
            proof {
                assert(texts(pieces@).push(cur@) =~= split_on(s@.take(it.index() as int + 1), ','));
            }
        }
    }
    proof {
        assert(s@.take(s@.len() as int) =~= s@);
    }
    pieces.push(cur);
    proof {
        assert(texts(pieces@) =~= split_on(s@, ','));
    }
    pieces
}

} // verus!
