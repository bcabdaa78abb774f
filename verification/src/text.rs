//! Canonical type-tuple text.
//!
//! A method's captured input type is the parenthesized, comma-separated list
//! of its parameter types, in order: `()` for none, `(u32)` for one, and
//! `(u32, u64)` for several. The same shape renders the payload tuple of
//! forwarded argument bindings.

use vstd::prelude::*;

use crate::model::seq_views;

verus! {

/// The parts joined by `", "`, with nothing around them.
pub open spec fn comma_join(parts: Seq<Seq<char>>) -> Seq<char>
    decreases parts.len(),
{
    if parts.len() == 0 {
        Seq::empty()
    } else if parts.len() == 1 {
        parts[0]
    } else {
        parts[0] + ", "@ + comma_join(parts.drop_first())
    }
}

/// The canonical tuple text: the parts joined by `", "`, in parentheses.
pub open spec fn tuple_text_spec(parts: Seq<Seq<char>>) -> Seq<char> {
    "("@ + comma_join(parts) + ")"@
}

/// Joining one more part appends it after a separator (after nothing, when
/// there was no part yet).
pub proof fn lemma_comma_join_push(parts: Seq<Seq<char>>, x: Seq<char>)
    ensures
        comma_join(parts.push(x)) == if parts.len() == 0 {
            x
        } else {
            comma_join(parts) + ", "@ + x
        },
    decreases parts.len(),
{
    let grown = parts.push(x);
    if parts.len() == 0 {
        assert(grown[0] == x);
    } else if parts.len() == 1 {
        assert(grown.drop_first() =~= seq![x]);
        assert(comma_join(seq![x]) == x);
        assert(comma_join(grown) == parts[0] + ", "@ + x);
    } else {
        assert(grown.drop_first() =~= parts.drop_first().push(x));
        lemma_comma_join_push(parts.drop_first(), x);
        assert(comma_join(grown) =~= comma_join(parts) + ", "@ + x);
    }
}

/// Renders the canonical tuple text of the given parts.
pub fn tuple_text(parts: &Vec<String>) -> (r: String)
    ensures
        r@ == tuple_text_spec(seq_views(parts@)),
{
    let ghost all = seq_views(parts@);
    let mut r = String::from_str("(");
    let mut i: usize = 0;
    proof {
        assert(all.take(0) =~= Seq::<Seq<char>>::empty());
    }
    while i < parts.len()
        invariant
            i <= parts@.len(),
            all == seq_views(parts@),
            r@ == "("@ + comma_join(all.take(i as int)),
        decreases parts@.len() - i,
    {
        if i > 0 {
            r.append(", ");
        }
        r.append(parts[i].as_str());
        proof {
            assert(all.take(i as int).push(all[i as int]) =~= all.take(i as int + 1));
            lemma_comma_join_push(all.take(i as int), all[i as int]);
            assert(r@ =~= "("@ + comma_join(all.take(i as int + 1)));
        }
        i += 1;
    }
    r.append(")");
    proof {
        assert(all.take(parts@.len() as int) =~= all);
    }
    r
}

} // verus!
