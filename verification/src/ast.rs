use vstd::prelude::*;

verus! {

/// A typed parameter of the annotated function: its binding pattern and its
/// declared type, both held as source tokens.
pub struct Param {
    pub pat: String,
    pub ty: String,
}

/// Spec-level image of a `Param`.
pub struct ParamView {
    pub pat: Seq<char>,
    pub ty: Seq<char>,
}

impl View for Param {
    type V = ParamView;

    open spec fn view(&self) -> ParamView {
        ParamView { pat: self.pat@, ty: self.ty@ }
    }
}

/// One entry of the annotated function's parameter list: either a receiver
/// (`self`-like) binding or a pattern with a declared type.
pub enum FnArg {
    Receiver,
    Typed(Param),
}

/// Spec-level image of a `FnArg`.
pub enum ArgView {
    Receiver,
    Typed(ParamView),
}

impl View for FnArg {
    type V = ArgView;

    open spec fn view(&self) -> ArgView {
        match self {
            FnArg::Receiver => ArgView::Receiver,
            FnArg::Typed(p) => ArgView::Typed(p@),
        }
    }
}

/// The annotated function, reduced to the parts the transformation reads:
/// its attribute paths in order, its async qualifier, its identifier, its
/// parameter list, its return type (as tokens, arrow included, empty when
/// the function returns unit), and the complete original definition, which
/// is re-embedded verbatim on success.
pub struct FnItem {
    pub attrs: Vec<String>,
    pub is_async: bool,
    pub name: String,
    pub inputs: Vec<FnArg>,
    pub output: String,
    pub tokens: String,
}

/// Spec-level image of a `FnItem`.
pub struct FnItemView {
    pub attrs: Seq<Seq<char>>,
    pub is_async: bool,
    pub name: Seq<char>,
    pub inputs: Seq<ArgView>,
    pub output: Seq<char>,
    pub tokens: Seq<char>,
}

impl View for FnItem {
    type V = FnItemView;

    open spec fn view(&self) -> FnItemView {
        FnItemView {
            attrs: self.attrs.deep_view(),
            is_async: self.is_async,
            name: self.name@,
            inputs: self.inputs@.map_values(|a: FnArg| a@),
            output: self.output@,
            tokens: self.tokens@,
        }
    }
}

/// A compile-time diagnostic in place of the synthesized wrapper. Its span
/// is always the whole annotated function, so only the message varies.
#[derive(Debug)]
pub struct Diagnostic {
    pub message: String,
}

impl View for Diagnostic {
    type V = Seq<char>;

    open spec fn view(&self) -> Seq<char> {
        self.message@
    }
}

/// Which executor flavor's glue the synthesized wrapper targets.
#[derive(Clone, Copy, PartialEq, Eq, Structural)]
pub enum Executor {
    Tokio,
    AsyncStd,
}

} // verus!
