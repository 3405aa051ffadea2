//! Request assembly: the words given on the command line become one
//! request string, joined with single spaces. No words at all means there
//! is nothing to do, and the caller prints a usage line instead.

use vstd::prelude::*;
use vstd::string::StringExecFns;

verus! {

/// The given words joined with a single space between neighbours.
pub open spec fn join_words_spec(ws: Seq<Seq<char>>) -> Seq<char>
    decreases ws.len(),
{
    if ws.len() == 0 {
        Seq::empty()
    } else if ws.len() == 1 {
        ws[0]
    } else {
        join_words_spec(ws.drop_last()) + " "@ + ws.last()
    }
}

/// Joins the command-line words into the request text. `None` exactly when
/// no words were given; the pipeline then runs nothing.
pub fn build_request(words: &Vec<String>) -> (r: Option<String>)
    ensures
        r is Some <==> words@.len() > 0,
        r is Some ==> r->0@ == join_words_spec(words.deep_view()),
{
    if words.len() == 0 {
        return None;
    }
    let mut s = String::new();
    s.append(words[0].as_str());
    let mut i: usize = 1;
    proof {
        assert(words.deep_view().subrange(0, 1)[0] == words@[0]@);
    }
    while i < words.len()
        invariant
            1 <= i <= words@.len(),
            s@ == join_words_spec(words.deep_view().subrange(0, i as int)),
        decreases words@.len() - i,
    {
        s.append(" ");
        s.append(words[i].as_str());
        proof {
            let dv = words.deep_view();
            let prev = dv.subrange(0, i as int);
            let cur = dv.subrange(0, i + 1);
            assert(cur.drop_last() =~= prev);
            assert(cur.last() == words@[i as int]@);
            assert((join_words_spec(prev) + " "@) + words@[i as int]@ =~= join_words_spec(prev)
                + " "@ + words@[i as int]@);
        }
        i = i + 1;
    }
    proof {
        assert(words.deep_view().subrange(0, words@.len() as int) =~= words.deep_view());
    }
    Some(s)
}

} // verus!
