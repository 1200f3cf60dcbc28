//! The signature of a function, as far as an override depends on it.
//!
//! Types, attributes and patterns are kept as source text: nothing here
//! looks inside them.
use vstd::prelude::*;
use vstd::string::*;
use crate::text::copy_optional_text;

verus! {

/// A calling convention: `extern`, with the name of the convention where
/// one is written.
#[derive(Debug, PartialEq, Eq)]
pub struct Abi {
    pub name: Option<String>,
}

/// A generic parameter, with its source text.
#[derive(Debug, PartialEq, Eq)]
pub enum GenericParam {
    Lifetime(String),
    Type(String),
    Const(String),
}

/// The pattern that binds a parameter.
#[derive(Debug, PartialEq, Eq)]
pub enum Pat {
    /// A plain name, possibly with `mut` or `ref` before it.
    Ident(String),
    /// Anything else, as source text.
    Other(String),
}

/// A parameter with a pattern and a type.
#[derive(Debug, PartialEq, Eq)]
pub struct PatType {
    pub attrs: Vec<String>,
    pub pat: Pat,
    pub ty: String,
}

/// A parameter of a function.
#[derive(Debug, PartialEq, Eq)]
pub enum FnArg {
    /// `self` in one of its forms, as source text.
    Receiver(String),
    Typed(PatType),
}

/// The variadic tail `...` of a parameter list.
#[derive(Debug, PartialEq, Eq)]
pub struct Variadic {
    pub attrs: Vec<String>,
    pub name: Option<String>,
    pub comma: bool,
}

/// The signature of a function.
#[derive(Debug, PartialEq, Eq)]
pub struct Signature {
    pub unsafety: bool,
    pub abi: Option<Abi>,
    pub ident: String,
    pub generics: Vec<GenericParam>,
    pub inputs: Vec<FnArg>,
    pub variadic: Option<Variadic>,
    /// The return type; `None` where the function returns `()` silently.
    pub output: Option<String>,
}

pub ghost struct AbiView {
    pub name: Option<Seq<char>>,
}

pub ghost enum GenericParamView {
    Lifetime(Seq<char>),
    Type(Seq<char>),
    Const(Seq<char>),
}

pub ghost enum PatView {
    Ident(Seq<char>),
    Other(Seq<char>),
}

pub ghost struct PatTypeView {
    pub attrs: Seq<Seq<char>>,
    pub pat: PatView,
    pub ty: Seq<char>,
}

pub ghost enum FnArgView {
    Receiver(Seq<char>),
    Typed(PatTypeView),
}

pub ghost struct VariadicView {
    pub attrs: Seq<Seq<char>>,
    pub name: Option<Seq<char>>,
    pub comma: bool,
}

pub ghost struct SignatureView {
    pub unsafety: bool,
    pub abi: Option<AbiView>,
    pub ident: Seq<char>,
    pub generics: Seq<GenericParamView>,
    pub inputs: Seq<FnArgView>,
    pub variadic: Option<VariadicView>,
    pub output: Option<Seq<char>>,
}

impl DeepView for Abi {
    type V = AbiView;

    open spec fn deep_view(&self) -> AbiView {
        AbiView { name: self.name.deep_view() }
    }
}

impl DeepView for GenericParam {
    type V = GenericParamView;

    open spec fn deep_view(&self) -> GenericParamView {
        match self {
            GenericParam::Lifetime(text) => GenericParamView::Lifetime(text@),
            GenericParam::Type(text) => GenericParamView::Type(text@),
            GenericParam::Const(text) => GenericParamView::Const(text@),
        }
    }
}

impl DeepView for Pat {
    type V = PatView;

    open spec fn deep_view(&self) -> PatView {
        match self {
            Pat::Ident(name) => PatView::Ident(name@),
            Pat::Other(text) => PatView::Other(text@),
        }
    }
}

impl DeepView for PatType {
    type V = PatTypeView;

    open spec fn deep_view(&self) -> PatTypeView {
        PatTypeView {
            attrs: self.attrs.deep_view(),
            pat: self.pat.deep_view(),
            ty: self.ty@,
        }
    }
}

impl DeepView for FnArg {
    type V = FnArgView;

    open spec fn deep_view(&self) -> FnArgView {
        match self {
            FnArg::Receiver(text) => FnArgView::Receiver(text@),
            FnArg::Typed(typed) => FnArgView::Typed(typed.deep_view()),
        }
    }
}

impl DeepView for Variadic {
    type V = VariadicView;

    open spec fn deep_view(&self) -> VariadicView {
        VariadicView {
            attrs: self.attrs.deep_view(),
            name: self.name.deep_view(),
            comma: self.comma,
        }
    }
}

impl DeepView for Signature {
    type V = SignatureView;

    open spec fn deep_view(&self) -> SignatureView {
        SignatureView {
            unsafety: self.unsafety,
            abi: self.abi.deep_view(),
            ident: self.ident@,
            generics: self.generics.deep_view(),
            inputs: self.inputs.deep_view(),
            variadic: self.variadic.deep_view(),
            output: self.output.deep_view(),
        }
    }
}

impl Abi {
    /// An independent copy of the calling convention.
    pub fn copy(&self) -> (copy: Abi)
        ensures
            copy.deep_view() == self.deep_view(),
    {
        Abi { name: copy_optional_text(&self.name) }
    }
}

/// An independent copy of a calling convention, where there is one.
pub fn copy_optional_abi(abi: &Option<Abi>) -> (copy: Option<Abi>)
    ensures
        copy.deep_view() == abi.deep_view(),
{
    match abi {
        Some(abi) => Some(abi.copy()),
        None => None,
    }
}

impl GenericParamView {
    /// The source text of the parameter.
    pub open spec fn text(self) -> Seq<char> {
        match self {
            GenericParamView::Lifetime(text) => text,
            GenericParamView::Type(text) => text,
            GenericParamView::Const(text) => text,
        }
    }
}

} // verus!
