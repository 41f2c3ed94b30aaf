use vstd::prelude::*;
use vstd::string::StringExecFns;

verus! {

/// The report of an error and its causes, outermost first: the error's
/// message and a blank line, then one `Caused by:` entry per cause.
pub open spec fn error_chain_text(chain: Seq<String>) -> Seq<char>
    decreases chain.len(),
{
    if chain.len() == 0 {
        Seq::empty()
    } else if chain.len() == 1 {
        chain[0]@ + "\n\n"@
    } else {
        error_chain_text(chain.drop_last()) + "Caused by:\n\t"@ + chain.last()@ + "\n"@
    }
}

/// Renders the messages of an error chain, outermost first.
pub fn error_chain_fmt(chain: &Vec<String>) -> (r: String)
    ensures
        r@ == error_chain_text(chain@),
{
    let mut out = String::new();
    if chain.len() == 0 {
        return out;
    }
    out.append(chain[0].as_str());
    out.append("\n\n");
    proof {
        assert(chain@.subrange(0, 1).drop_last() =~= Seq::<String>::empty());
        assert(out@ == error_chain_text(chain@.subrange(0, 1)));
    }
    let mut i: usize = 1;
    while i < chain.len()
        invariant
            1 <= i <= chain@.len(),
            out@ == error_chain_text(chain@.subrange(0, i as int)),
        decreases chain@.len() - i,
    {
        out.append("Caused by:\n\t");
        out.append(chain[i].as_str());
        out.append("\n");
        proof {
            assert(chain@.subrange(0, i + 1).drop_last() =~= chain@.subrange(0, i as int));
        }
        i = i + 1;
    }
    proof {
        assert(chain@.subrange(0, i as int) =~= chain@);
    }
    out
}

} // verus!
