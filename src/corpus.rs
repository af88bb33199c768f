//! The corpus as the host hands it over: a persistent `im::Vector` of item
//! texts, read by length and by position.
use vstd::prelude::*;

use im::Vector;

verus! {

#[verifier::external_type_specification]
#[verifier::external_body]
#[verifier::reject_recursive_types(A)]
pub struct ExVector<A>(Vector<A>);

/// The texts a corpus holds, in order.
pub uninterp spec fn texts_of(v: Vector<String>) -> Seq<Seq<char>>;

/// Relies on `Vector::len`: the number of items.
#[verifier::external_body]
pub(crate) fn corpus_len(v: &Vector<String>) -> (r: usize)
    ensures
        r == texts_of(*v).len(),
{
    v.len()
}

/// Relies on `Vector::get`: a copy of the item at `index`, `None` past the end.
#[verifier::external_body]
pub(crate) fn corpus_item(v: &Vector<String>, index: usize) -> (r: Option<String>)
    ensures
        r is Some <==> index < texts_of(*v).len(),
        r matches Some(s) ==> s@ == texts_of(*v)[index as int],
{
    v.get(index).cloned()
}

} // verus!
