use vstd::prelude::*;

use crate::ast::{ArgView, Diagnostic, FnArg, FnItem, ParamView};

verus! {

/// The typed parameters of a parameter list, in declaration order, with
/// nothing added, removed, renamed or reordered.
pub open spec fn typed_params(inputs: Seq<ArgView>) -> Seq<ParamView>
    decreases inputs.len(),
{
    if inputs.len() == 0 {
        Seq::empty()
    } else {
        typed_params(inputs.drop_last()) + match inputs.last() {
            ArgView::Receiver => Seq::<ParamView>::empty(),
            ArgView::Typed(p) => seq![p],
        }
    }
}

/// The binding patterns of the typed parameters, in declaration order.
pub open spec fn typed_pats(inputs: Seq<ArgView>) -> Seq<Seq<char>>
    decreases inputs.len(),
{
    if inputs.len() == 0 {
        Seq::empty()
    } else {
        typed_pats(inputs.drop_last()) + match inputs.last() {
            ArgView::Receiver => Seq::<Seq<char>>::empty(),
            ArgView::Typed(p) => seq![p.pat],
        }
    }
}

/// The declared types of the typed parameters, in declaration order.
pub open spec fn typed_tys(inputs: Seq<ArgView>) -> Seq<Seq<char>>
    decreases inputs.len(),
{
    if inputs.len() == 0 {
        Seq::empty()
    } else {
        typed_tys(inputs.drop_last()) + match inputs.last() {
            ArgView::Receiver => Seq::<Seq<char>>::empty(),
            ArgView::Typed(p) => seq![p.ty],
        }
    }
}

/// Whether the parameter list contains a receiver entry.
pub open spec fn has_receiver(inputs: Seq<ArgView>) -> bool {
    exists|i: int| 0 <= i < inputs.len() && inputs[i] is Receiver
}

/// Diagnostic text for a function declared with a receiver parameter.
pub open spec fn receiver_msg() -> Seq<char> {
    "test fn cannot take a receiver"@
}

/// The parallel sequences extracted from the parameter list: binding
/// patterns and declared types, of equal length, in declaration order.
pub struct Arguments {
    pub ids: Vec<String>,
    pub tys: Vec<String>,
}

proof fn lemma_typed_take_step(inputs: Seq<ArgView>, i: int)
    requires
        0 <= i < inputs.len(),
    ensures
        typed_params(inputs.take(i + 1)) == typed_params(inputs.take(i)) + match inputs[i] {
            ArgView::Receiver => Seq::<ParamView>::empty(),
            ArgView::Typed(p) => seq![p],
        },
        typed_pats(inputs.take(i + 1)) == typed_pats(inputs.take(i)) + match inputs[i] {
            ArgView::Receiver => Seq::<Seq<char>>::empty(),
            ArgView::Typed(p) => seq![p.pat],
        },
        typed_tys(inputs.take(i + 1)) == typed_tys(inputs.take(i)) + match inputs[i] {
            ArgView::Receiver => Seq::<Seq<char>>::empty(),
            ArgView::Typed(p) => seq![p.ty],
        },
{
    assert(inputs.take(i + 1).drop_last() =~= inputs.take(i));
    assert(inputs.take(i + 1).last() == inputs[i]);
}

/// The bridging function value's parameter list matches the original's
/// typed parameters exactly: same arity, and at each position the pattern
/// and the declared type of the corresponding typed parameter, in the
/// original declaration order.
pub proof fn lemma_bridge_params_match(inputs: Seq<ArgView>)
    ensures
        typed_pats(inputs).len() == typed_params(inputs).len(),
        typed_tys(inputs).len() == typed_params(inputs).len(),
        forall|j: int|
            0 <= j < typed_params(inputs).len() ==> typed_pats(inputs)[j] == typed_params(
                inputs,
            )[j].pat,
        forall|j: int|
            0 <= j < typed_params(inputs).len() ==> typed_tys(inputs)[j] == typed_params(
                inputs,
            )[j].ty,
    decreases inputs.len(),
{
    if inputs.len() > 0 {
        lemma_bridge_params_match(inputs.drop_last());
    }
}

/// Splits the annotated function's parameter list into parallel pattern
/// and type sequences. A receiver parameter fails the extraction at once,
/// with no partial output; otherwise every typed parameter is appended in
/// declaration order, with no deduplication and no renaming.
pub fn parse_args(fn_item: &FnItem) -> (r: Result<Arguments, Diagnostic>)
    ensures
        match r {
            Ok(args) => {
                &&& !has_receiver(fn_item@.inputs)
                &&& args.ids.deep_view() == typed_pats(fn_item@.inputs)
                &&& args.tys.deep_view() == typed_tys(fn_item@.inputs)
            },
            Err(d) => {
                &&& has_receiver(fn_item@.inputs)
                &&& d@ == receiver_msg()
            },
        },
{
    let ghost all: Seq<ArgView> = fn_item@.inputs;
    let mut ids: Vec<String> = Vec::new();
    let mut tys: Vec<String> = Vec::new();
    let n = fn_item.inputs.len();
    for i in 0..n
        invariant
            n == fn_item.inputs.len(),
            all == fn_item@.inputs,
            all.len() == n,
            forall|j: int| 0 <= j < i ==> !(all[j] is Receiver),
            ids.deep_view() == typed_pats(all.take(i as int)),
            tys.deep_view() == typed_tys(all.take(i as int)),
    {
        assert(all[i as int] == fn_item.inputs@[i as int]@);
        match &fn_item.inputs[i] {
            FnArg::Receiver => {
                return Err(
                    Diagnostic { message: String::from_str("test fn cannot take a receiver") },
                );
            },
            FnArg::Typed(p) => {
                ids.push(p.pat.clone());
                tys.push(p.ty.clone());
                proof {
                    lemma_typed_take_step(all, i as int);
                    assert(ids.deep_view() =~= typed_pats(all.take(i as int)) + seq![p.pat@]);
                    assert(tys.deep_view() =~= typed_tys(all.take(i as int)) + seq![p.ty@]);
                }
            },
        }
    }
    proof {
        assert(all.take(n as int) =~= all);
    }
    Ok(Arguments { ids, tys })
}

} // verus!
