use vstd::prelude::*;

use crate::ast::{Diagnostic, Executor, FnItem, FnItemView};
use crate::extract::{has_receiver, parse_args, receiver_msg, typed_pats, typed_tys};
use crate::guards::{duplicate_test_msg, finds_test_attr, has_test_attr, not_async_msg};
use crate::text::{comma_join, join_comma};

verus! {

/// The path of the executor-specific test-registration marker.
pub open spec fn marker_path(ex: Executor) -> Seq<char> {
    match ex {
        Executor::Tokio => "::tokio::test"@,
        Executor::AsyncStd => "::async_std::test"@,
    }
}

/// The wrapper's opening, up to and excluding the configuration argument
/// list of the marker.
pub open spec fn marker_open(ex: Executor) -> Seq<char> {
    "#["@ + marker_path(ex) + "("@
}

/// The bridging binding: a plain function value whose parameters are the
/// extracted patterns with their declared types, whose return type is the
/// original's, and whose body drives the nested async function to
/// completion with the runtime-agnostic blocking executor.
pub open spec fn bridge_text(v: FnItemView) -> Seq<char> {
    "    let test_fn: fn("@ + comma_join(typed_tys(v.inputs)) + ") "@ + v.output + " = |"@
        + comma_join(typed_pats(v.inputs)) + "| { ::futures::executor::block_on("@ + v.name + "("@
        + comma_join(typed_pats(v.inputs)) + ")) };\n"@
}

/// The engine invocation: handed to a dedicated blocking worker and
/// awaited for the thread-pool flavor; called inline, with no suspension,
/// for the single-threaded flavor.
pub open spec fn drive_text(ex: Executor) -> Seq<char> {
    match ex {
        Executor::Tokio => "    ::tokio::task::spawn_blocking(move || { ::quickcheck::quickcheck(test_fn) }).await.unwrap()\n"@,
        Executor::AsyncStd => "    ::quickcheck::quickcheck(test_fn);\n"@,
    }
}

/// Everything after the configuration argument list: the marker's close,
/// the zero-parameter test function sharing the original's identifier, the
/// original definition nested verbatim, the bridging binding, and the
/// engine invocation. Independent of the configuration.
pub open spec fn after_config(ex: Executor, v: FnItemView) -> Seq<char> {
    ")]\nasync fn "@ + v.name + "() {\n    "@ + v.tokens + "\n"@ + bridge_text(v) + drive_text(ex)
        + "}\n"@
}

/// The full synthesized wrapper for a validated function.
pub open spec fn wrapper_text(ex: Executor, config: Seq<Seq<char>>, v: FnItemView) -> Seq<char> {
    marker_open(ex) + comma_join(config) + after_config(ex, v)
}

/// The synthesis result: the first failing guard's diagnostic — a
/// pre-existing unit-test marker, then a missing async qualifier, then a
/// receiver parameter — or else the wrapper text. Exactly one of the two,
/// never partial output.
pub open spec fn synthesis_spec(ex: Executor, config: Seq<Seq<char>>, v: FnItemView) -> Result<
    Seq<char>,
    Seq<char>,
> {
    if has_test_attr(v.attrs) {
        Err(duplicate_test_msg())
    } else if !v.is_async {
        Err(not_async_msg())
    } else if has_receiver(v.inputs) {
        Err(receiver_msg())
    } else {
        Ok(wrapper_text(ex, config, v))
    }
}

/// The views of an executable synthesis result.
pub open spec fn result_view(r: Result<String, Diagnostic>) -> Result<Seq<char>, Seq<char>> {
    match r {
        Ok(s) => Ok(s@),
        Err(d) => Err(d@),
    }
}

/// Supplying an empty configuration argument list behaves identically to
/// supplying no attribute arguments at all: both reach the synthesizer as
/// an empty token list, and any two empty lists yield the same result on
/// every function and flavor.
pub proof fn lemma_empty_config_like_none(
    ex: Executor,
    a: Seq<Seq<char>>,
    b: Seq<Seq<char>>,
    v: FnItemView,
)
    requires
        a.len() == 0,
        b.len() == 0,
    ensures
        synthesis_spec(ex, a, v) == synthesis_spec(ex, b, v),
{
    assert(a =~= b);
}

/// The configuration argument list is forwarded opaquely: the wrapper is
/// exactly the marker's opening, then the arguments joined verbatim and in
/// order, then a remainder that does not depend on the configuration at
/// all.
pub proof fn lemma_config_passthrough(ex: Executor, config: Seq<Seq<char>>, v: FnItemView)
    ensures
        wrapper_text(ex, config, v) == marker_open(ex) + comma_join(config) + after_config(ex, v),
{
}

/// A function already carrying the host's unit-test marker fails synthesis
/// with "multiple #[test] attributes were supplied", on either flavor and
/// under any configuration, whatever else holds of the function.
pub proof fn lemma_duplicate_marker_rejected(ex: Executor, config: Seq<Seq<char>>, v: FnItemView)
    requires
        has_test_attr(v.attrs),
    ensures
        synthesis_spec(ex, config, v) == Err::<Seq<char>, Seq<char>>(duplicate_test_msg()),
{
}

/// A function not declared asynchronous — and not already rejected for a
/// duplicate unit-test marker, which is reported first — fails synthesis
/// with "test fn must be async."
pub proof fn lemma_not_async_rejected(ex: Executor, config: Seq<Seq<char>>, v: FnItemView)
    requires
        !has_test_attr(v.attrs),
        !v.is_async,
    ensures
        synthesis_spec(ex, config, v) == Err::<Seq<char>, Seq<char>>(not_async_msg()),
{
}

/// A function declared with a receiver parameter — and passing both guard
/// checks, which are reported first — fails synthesis with "test fn cannot
/// take a receiver."
pub proof fn lemma_receiver_rejected(ex: Executor, config: Seq<Seq<char>>, v: FnItemView)
    requires
        !has_test_attr(v.attrs),
        v.is_async,
        has_receiver(v.inputs),
    ensures
        synthesis_spec(ex, config, v) == Err::<Seq<char>, Seq<char>>(receiver_msg()),
{
}

/// Renders the bridging binding from the pre-joined pattern and type
/// lists.
fn render_bridge(fn_item: &FnItem, ids_join: &String, tys_join: &String) -> (r: String)
    requires
        ids_join@ == comma_join(typed_pats(fn_item@.inputs)),
        tys_join@ == comma_join(typed_tys(fn_item@.inputs)),
    ensures
        r@ == bridge_text(fn_item@),
{
    let mut out: String = String::new();
    out.append("    let test_fn: fn(");
    out.append(tys_join.as_str());
    out.append(") ");
    out.append(fn_item.output.as_str());
    out.append(" = |");
    out.append(ids_join.as_str());
    out.append("| { ::futures::executor::block_on(");
    out.append(fn_item.name.as_str());
    out.append("(");
    out.append(ids_join.as_str());
    out.append(")) };\n");
    proof {
        assert(out@ =~= bridge_text(fn_item@));
    }
    out
}

/// Shared skeleton of the two flavors: validate the annotated function,
/// then emit the replacement test function, with only the marker path and
/// the engine invocation differing by executor.
pub fn synthesize(ex: Executor, config: &Vec<String>, fn_item: &FnItem) -> (r: Result<
    String,
    Diagnostic,
>)
    ensures
        result_view(r) == synthesis_spec(ex, config.deep_view(), fn_item@),
{
    if finds_test_attr(&fn_item.attrs) {
        return Err(
            Diagnostic { message: String::from_str("multiple #[test] attributes were supplied") },
        );
    }
    if !fn_item.is_async {
        return Err(Diagnostic { message: String::from_str("test fn must be async") });
    }
    let args = match parse_args(fn_item) {
        Err(d) => return Err(d),
        Ok(a) => a,
    };
    let ids_join: String = join_comma(&args.ids);
    let tys_join: String = join_comma(&args.tys);
    let cfg_join: String = join_comma(config);
    let bridge: String = render_bridge(fn_item, &ids_join, &tys_join);
    let ghost v: FnItemView = fn_item@;
    let ghost cfg: Seq<Seq<char>> = config.deep_view();
    let mut out: String = String::new();
    out.append("#[");
    match ex {
        Executor::Tokio => out.append("::tokio::test"),
        Executor::AsyncStd => out.append("::async_std::test"),
    }
    out.append("(");
    out.append(cfg_join.as_str());
    proof {
        assert(out@ =~= marker_open(ex) + comma_join(cfg));
    }
    out.append(")]\nasync fn ");
    out.append(fn_item.name.as_str());
    out.append("() {\n    ");
    out.append(fn_item.tokens.as_str());
    out.append("\n");
    proof {
        assert(out@ =~= marker_open(ex) + comma_join(cfg) + (")]\nasync fn "@ + v.name
            + "() {\n    "@ + v.tokens + "\n"@));
    }
    out.append(bridge.as_str());
    match ex {
        Executor::Tokio => out.append(
            "    ::tokio::task::spawn_blocking(move || { ::quickcheck::quickcheck(test_fn) }).await.unwrap()\n",
        ),
        Executor::AsyncStd => out.append("    ::quickcheck::quickcheck(test_fn);\n"),
    }
    out.append("}\n");
    proof {
        assert(")]\nasync fn "@ + v.name + "() {\n    "@ + v.tokens + "\n"@ + bridge_text(v)
            + drive_text(ex) + "}\n"@ =~= after_config(ex, v));
        assert(out@ =~= wrapper_text(ex, cfg, v));
    }
    Ok(out)
}

/// Thread-pool flavor: marks the wrapper with the thread-pool executor's
/// async-test marker carrying the passthrough configuration, and runs the
/// property-testing engine on a dedicated blocking worker, awaited.
pub fn tokio(config: &Vec<String>, fn_item: &FnItem) -> (r: Result<String, Diagnostic>)
    ensures
        result_view(r) == synthesis_spec(Executor::Tokio, config.deep_view(), fn_item@),
{
    synthesize(Executor::Tokio, config, fn_item)
}

/// Single-threaded flavor: marks the wrapper with the single-threaded
/// executor's async-test marker carrying the passthrough configuration,
/// and runs the property-testing engine inline, with no suspension
/// introduced by the wrapper itself.
pub fn async_std(config: &Vec<String>, fn_item: &FnItem) -> (r: Result<String, Diagnostic>)
    ensures
        result_view(r) == synthesis_spec(Executor::AsyncStd, config.deep_view(), fn_item@),
{
    synthesize(Executor::AsyncStd, config, fn_item)
}

} // verus!
