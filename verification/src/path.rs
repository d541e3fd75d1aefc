//! Absolute path construction from virtual-filesystem path components.
//!
//! The host owns its own directory hierarchy, so the bridge flattens the
//! remaining path components of a lookup into one absolute path string: `/`
//! prefixed to each component, concatenated.

use vstd::prelude::*;
use vstd::seq_lib::*;
use vstd::string::StringExecFns;

verus! {

/// The absolute path naming a component sequence: `/` prefixed to each
/// component, concatenated. The empty sequence yields the empty string; the
/// callers that accept an empty component list substitute their root form.
pub open spec fn spec_path_of(components: Seq<Seq<char>>) -> Seq<char>
    decreases components.len(),
{
    if components.len() == 0 {
        Seq::empty()
    } else {
        seq!['/'] + components.first() + spec_path_of(components.drop_first())
    }
}

/// Appending one component extends the path by `/` and that component.
pub proof fn lemma_path_of_push(components: Seq<Seq<char>>, component: Seq<char>)
    ensures
        spec_path_of(components.push(component)) == spec_path_of(components) + seq!['/']
            + component,
    decreases components.len(),
{
    let extended = components.push(component);
    if components.len() == 0 {
        assert(extended.drop_first() =~= Seq::<Seq<char>>::empty());
        assert(extended.first() == component);
        assert(spec_path_of(extended) == seq!['/'] + component + spec_path_of(
            extended.drop_first(),
        ));
        assert(spec_path_of(extended) =~= spec_path_of(components) + seq!['/'] + component);
    } else {
        lemma_path_of_push(components.drop_first(), component);
        assert(extended.drop_first() =~= components.drop_first().push(component));
        assert(extended.first() == components.first());
        assert(spec_path_of(extended) == seq!['/'] + components.first() + (spec_path_of(
            components.drop_first(),
        ) + seq!['/'] + component));
        assert(spec_path_of(extended) =~= spec_path_of(components) + seq!['/'] + component);
    }
}

/// Concatenates `/` plus each component into one absolute path string.
pub fn build_path(components: &Vec<&str>) -> (path: String)
    ensures
        path@ == spec_path_of(components.deep_view()),
{
    let ghost all = components.deep_view();
    let mut path = String::new();
    let mut i: usize = 0;
    while i < components.len()
        invariant
            i <= components@.len(),
            all == components.deep_view(),
            path@ == spec_path_of(all.take(i as int)),
        decreases components@.len() - i,
    {
        path.append("/");
        path.append(components[i]);
        proof {
            reveal_strlit("/");
            assert("/"@ =~= seq!['/']);
            assert(all[i as int] == components@[i as int]@);
            lemma_path_of_push(all.take(i as int), all[i as int]);
            assert(all.take(i as int).push(all[i as int]) =~= all.take(i as int + 1));
        }
        i = i + 1;
    }
    proof {
        assert(all.take(components@.len() as int) =~= all);
    }
    path
}

} // verus!
