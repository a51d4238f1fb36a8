//! The argument classifier: a parameter list, parted by declared role.

use vstd::prelude::*;
use crate::model::{Parameter, ParameterRole, ParameterView, borrowed_views, parameter_views};

verus! {

/// The test "this parameter has the given role".
pub open spec fn has_role(role: ParameterRole) -> spec_fn(ParameterView) -> bool {
    |p: ParameterView| p.role == role
}

/// The parameters of one role, in declaration order.
pub open spec fn with_role(parameters: Seq<ParameterView>, role: ParameterRole) -> Seq<
    ParameterView,
> {
    parameters.filter(has_role(role))
}

/// Filtering a sequence that ends in `last` filters what comes before it and
/// then keeps or drops `last`.
pub proof fn lemma_filter_push<A>(front: Seq<A>, last: A, keep: spec_fn(A) -> bool)
    ensures
        front.push(last).filter(keep) == if keep(last) {
            front.filter(keep).push(last)
        } else {
            front.filter(keep)
        },
{
    reveal(Seq::filter);
    assert(front.push(last).drop_last() =~= front);
}

/// Nothing is kept of an empty sequence.
pub proof fn lemma_filter_empty<A>(keep: spec_fn(A) -> bool)
    ensures
        Seq::<A>::empty().filter(keep) == Seq::<A>::empty(),
{
    reveal(Seq::filter);
}

/// Nothing is kept exactly where no element passes the test.
pub proof fn lemma_filter_none<A>(items: Seq<A>, keep: spec_fn(A) -> bool)
    ensures
        items.filter(keep).len() == 0 <==> forall|i: int| 0 <= i < items.len() ==> !keep(items[i]),
    decreases items.len(),
{
    if items.len() == 0 {
        lemma_filter_empty(keep);
    } else {
        let front = items.drop_last();
        lemma_filter_none(front, keep);
        lemma_filter_push(front, items.last(), keep);
        assert(items =~= front.push(items.last()));
    }
}

/// Everything is kept, as it stands, where every element passes the test.
pub proof fn lemma_filter_all<A>(items: Seq<A>, keep: spec_fn(A) -> bool)
    requires
        forall|i: int| 0 <= i < items.len() ==> keep(items[i]),
    ensures
        items.filter(keep) == items,
    decreases items.len(),
{
    if items.len() == 0 {
        lemma_filter_empty(keep);
    } else {
        let front = items.drop_last();
        lemma_filter_all(front, keep);
        lemma_filter_push(front, items.last(), keep);
        assert(items =~= front.push(items.last()));
    }
}

/// What is kept ends in the last element that passes the test.
pub proof fn lemma_filter_last<A>(items: Seq<A>, keep: spec_fn(A) -> bool, at: int)
    requires
        0 <= at < items.len(),
        keep(items[at]),
        forall|j: int| at < j < items.len() ==> !keep(items[j]),
    ensures
        items.filter(keep).len() > 0,
        items.filter(keep).last() == items[at],
    decreases items.len(),
{
    let front = items.drop_last();
    lemma_filter_push(front, items.last(), keep);
    assert(items =~= front.push(items.last()));
    if at < items.len() - 1 {
        lemma_filter_last(front, keep, at);
    }
}

/// A parameter list seen three ways, one per role. Each part borrows from the
/// list it was made of.
#[derive(Debug)]
pub struct Classification<'a> {
    pub plain_inputs: Vec<&'a Parameter>,
    pub callback_args: Vec<&'a Parameter>,
    pub callback_vector_candidates: Vec<&'a Parameter>,
}

/// Picks the parameters of one role, keeping their order.
pub fn select_role<'a>(parameters: &'a Vec<Parameter>, role: ParameterRole) -> (selected: Vec<
    &'a Parameter,
>)
    ensures
        borrowed_views(selected@) == with_role(parameter_views(parameters@), role),
{
    let mut selected: Vec<&'a Parameter> = Vec::new();
    let mut i: usize = 0;
    proof {
        lemma_filter_empty(has_role(role));
    }
    while i < parameters.len()
        invariant
            i <= parameters.len(),
            borrowed_views(selected@) == with_role(
                parameter_views(parameters@.take(i as int)),
                role,
            ),
        decreases parameters.len() - i,
    {
        let parameter = &parameters[i];
        proof {
            let seen = parameters@.take(i as int);
            assert(parameters@.take(i + 1) =~= seen.push(parameters@[i as int]));
            assert(parameter_views(seen.push(parameters@[i as int])) =~= parameter_views(
                seen,
            ).push(parameter@));
            lemma_filter_push(parameter_views(seen), parameter@, has_role(role));
        }
        if parameter.role == role {
            proof {
                assert(borrowed_views(selected@.push(parameter)) =~= borrowed_views(
                    selected@,
                ).push(parameter@));
            }
            selected.push(parameter);
        }
        i += 1;
    }
    proof {
        assert(parameters@.take(parameters.len() as int) =~= parameters@);
    }
    selected
}

/// Parts a parameter list by role. Any number of parameters may have any role:
/// nothing is refused here.
pub fn classify<'a>(parameters: &'a Vec<Parameter>) -> (parts: Classification<'a>)
    ensures
        borrowed_views(parts.plain_inputs@) == with_role(
            parameter_views(parameters@),
            ParameterRole::PlainInput,
        ),
        borrowed_views(parts.callback_args@) == with_role(
            parameter_views(parameters@),
            ParameterRole::CallbackArg,
        ),
        borrowed_views(parts.callback_vector_candidates@) == with_role(
            parameter_views(parameters@),
            ParameterRole::CallbackArgVector,
        ),
{
    Classification {
        plain_inputs: select_role(parameters, ParameterRole::PlainInput),
        callback_args: select_role(parameters, ParameterRole::CallbackArg),
        callback_vector_candidates: select_role(parameters, ParameterRole::CallbackArgVector),
    }
}

} // verus!
