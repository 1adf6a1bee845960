//! Facts about concatenation that the printer's proofs use throughout.
use vstd::prelude::*;

verus! {

pub broadcast proof fn lemma_cat_assoc(a: Seq<char>, b: Seq<char>, c: Seq<char>)
    ensures
        #[trigger] ((a + b) + c) == a + (b + c),
{
    assert((a + b) + c =~= a + (b + c));
}

pub broadcast proof fn lemma_cat_empty_right(a: Seq<char>)
    ensures
        #[trigger] (a + Seq::<char>::empty()) == a,
{
    assert(a + Seq::<char>::empty() =~= a);
}

pub broadcast proof fn lemma_cat_empty_left(a: Seq<char>)
    ensures
        #[trigger] (Seq::<char>::empty() + a) == a,
{
    assert(Seq::<char>::empty() + a =~= a);
}

pub broadcast group group_cat {
    lemma_cat_assoc,
    lemma_cat_empty_right,
    lemma_cat_empty_left,
}

} // verus!
