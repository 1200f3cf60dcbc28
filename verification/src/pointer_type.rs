//! The type of a pointer to a function, derived from the function's
//! signature, and the names by which a call is handed on.
use vstd::prelude::*;
use vstd::string::*;
use crate::error::TransformError;
use crate::signature::{
    copy_optional_abi, Abi, AbiView, FnArg, FnArgView, GenericParam, GenericParamView, Pat,
    PatTypeView, PatView, Signature, SignatureView,
};
use crate::text::{copy_optional_text, copy_texts};

verus! {

/// A parameter of a function pointer type: a type without a name.
#[derive(Debug, PartialEq, Eq)]
pub struct BareFnArg {
    pub attrs: Vec<String>,
    pub ty: String,
}

/// The variadic tail of a function pointer type.
#[derive(Debug, PartialEq, Eq)]
pub struct BareVariadic {
    pub attrs: Vec<String>,
    pub comma: bool,
}

/// The type `for<lifetimes> unsafe extern "abi" fn(inputs, ...) -> output`.
#[derive(Debug, PartialEq, Eq)]
pub struct TypeBareFn {
    /// The lifetimes that the type is quantified over, after `for`.
    pub lifetimes: Vec<String>,
    pub unsafety: bool,
    pub abi: Option<Abi>,
    pub inputs: Vec<BareFnArg>,
    pub variadic: Option<BareVariadic>,
    pub output: Option<String>,
}

pub ghost struct BareFnArgView {
    pub attrs: Seq<Seq<char>>,
    pub ty: Seq<char>,
}

pub ghost struct BareVariadicView {
    pub attrs: Seq<Seq<char>>,
    pub comma: bool,
}

pub ghost struct TypeBareFnView {
    pub lifetimes: Seq<Seq<char>>,
    pub unsafety: bool,
    pub abi: Option<AbiView>,
    pub inputs: Seq<BareFnArgView>,
    pub variadic: Option<BareVariadicView>,
    pub output: Option<Seq<char>>,
}

impl DeepView for BareFnArg {
    type V = BareFnArgView;

    open spec fn deep_view(&self) -> BareFnArgView {
        BareFnArgView { attrs: self.attrs.deep_view(), ty: self.ty@ }
    }
}

impl DeepView for BareVariadic {
    type V = BareVariadicView;

    open spec fn deep_view(&self) -> BareVariadicView {
        BareVariadicView { attrs: self.attrs.deep_view(), comma: self.comma }
    }
}

impl DeepView for TypeBareFn {
    type V = TypeBareFnView;

    open spec fn deep_view(&self) -> TypeBareFnView {
        TypeBareFnView {
            lifetimes: self.lifetimes.deep_view(),
            unsafety: self.unsafety,
            abi: self.abi.deep_view(),
            inputs: self.inputs.deep_view(),
            variadic: self.variadic.deep_view(),
            output: self.output.deep_view(),
        }
    }
}

impl BareFnArg {
    /// An independent copy of the parameter.
    pub fn copy(&self) -> (copy: BareFnArg)
        ensures
            copy.deep_view() == self.deep_view(),
    {
        BareFnArg { attrs: copy_texts(&self.attrs), ty: self.ty.clone() }
    }
}

impl TypeBareFn {
    /// An independent copy of the type.
    pub fn copy(&self) -> (copy: TypeBareFn)
        ensures
            copy.deep_view() == self.deep_view(),
    {
        let mut inputs: Vec<BareFnArg> = Vec::new();
        let mut i: usize = 0;
        while i < self.inputs.len()
            invariant
                i <= self.inputs.len(),
                inputs.len() == i,
                forall|k: int| 0 <= k < i ==> inputs[k].deep_view() == self.inputs[k].deep_view(),
            decreases self.inputs.len() - i,
        {
            inputs.push(self.inputs[i].copy());
            i = i + 1;
        }
        let variadic = match &self.variadic {
            Some(variadic) => Some(
                BareVariadic { attrs: copy_texts(&variadic.attrs), comma: variadic.comma },
            ),
            None => None,
        };
        assert(inputs.deep_view() =~= self.inputs.deep_view());
        TypeBareFn {
            lifetimes: copy_texts(&self.lifetimes),
            unsafety: self.unsafety,
            abi: copy_optional_abi(&self.abi),
            inputs,
            variadic,
            output: copy_optional_text(&self.output),
        }
    }
}

/// The index of the first generic parameter, from `from` on, that is not a
/// lifetime.
pub open spec fn first_non_lifetime(generics: Seq<GenericParamView>, from: int) -> Option<int>
    decreases generics.len() - from,
{
    if from < 0 || from >= generics.len() {
        None
    } else if !(generics[from] is Lifetime) {
        Some(from)
    } else {
        first_non_lifetime(generics, from + 1)
    }
}

/// The index of the first parameter, from `from` on, that is a receiver.
pub open spec fn first_receiver(inputs: Seq<FnArgView>, from: int) -> Option<int>
    decreases inputs.len() - from,
{
    if from < 0 || from >= inputs.len() {
        None
    } else if inputs[from] is Receiver {
        Some(from)
    } else {
        first_receiver(inputs, from + 1)
    }
}

/// Whether a parameter can be handed on by name: a receiver, or a parameter
/// bound by a plain name.
pub open spec fn is_simply_named(arg: FnArgView) -> bool {
    match arg {
        FnArgView::Receiver(_) => true,
        FnArgView::Typed(typed) => typed.pat is Ident,
    }
}

/// The index of the first parameter, from `from` on, that cannot be handed
/// on by name.
pub open spec fn first_complex(inputs: Seq<FnArgView>, from: int) -> Option<int>
    decreases inputs.len() - from,
{
    if from < 0 || from >= inputs.len() {
        None
    } else if !is_simply_named(inputs[from]) {
        Some(from)
    } else {
        first_complex(inputs, from + 1)
    }
}

/// The parameter of the pointer type that stands for a parameter of the
/// function: attributes and type stay, the name goes.
pub open spec fn bare_arg(typed: PatTypeView) -> BareFnArgView {
    BareFnArgView { attrs: typed.attrs, ty: typed.ty }
}

/// The pointer type of a signature: the same safety marker, calling
/// convention, parameter types in order, variadic tail and return type,
/// quantified over every declared lifetime.
pub open spec fn pointer_type(sig: SignatureView) -> TypeBareFnView
    recommends
        first_non_lifetime(sig.generics, 0) is None,
        first_receiver(sig.inputs, 0) is None,
{
    TypeBareFnView {
        lifetimes: Seq::new(sig.generics.len(), |i: int| sig.generics[i].text()),
        unsafety: sig.unsafety,
        abi: sig.abi,
        inputs: Seq::new(sig.inputs.len(), |i: int| bare_arg(sig.inputs[i]->Typed_0)),
        variadic: match sig.variadic {
            Some(variadic) => Some(
                BareVariadicView { attrs: variadic.attrs, comma: variadic.comma },
            ),
            None => None,
        },
        output: sig.output,
    }
}

/// What deriving the pointer type of a signature gives: the type, or the
/// first thing that stands in its way. A generic parameter that is not a
/// lifetime is reported before a receiver.
pub open spec fn bare_fn_type_of(sig: SignatureView) -> Result<TypeBareFnView, TransformError> {
    if let Some(index) = first_non_lifetime(sig.generics, 0) {
        Err(TransformError::NonLifetimeGeneric { index: index as usize })
    } else if let Some(index) = first_receiver(sig.inputs, 0) {
        Err(TransformError::Receiver { index: index as usize })
    } else {
        Ok(pointer_type(sig))
    }
}

/// The name under which a parameter is handed on.
pub open spec fn forwarded_name(arg: FnArgView) -> Seq<char> {
    match arg {
        FnArgView::Receiver(_) => "self"@,
        FnArgView::Typed(typed) => match typed.pat {
            PatView::Ident(name) => name,
            PatView::Other(text) => text,
        },
    }
}

/// What collecting the names of the parameters gives: one name for each
/// parameter, in order, or the first parameter that has no plain name.
pub open spec fn arg_names_of(inputs: Seq<FnArgView>) -> Result<Seq<Seq<char>>, TransformError> {
    if let Some(index) = first_complex(inputs, 0) {
        Err(TransformError::ComplexArgument { index: index as usize })
    } else {
        Ok(Seq::new(inputs.len(), |i: int| forwarded_name(inputs[i])))
    }
}

/// The result of [`first_non_lifetime`] is the least index of a parameter
/// that is not a lifetime, and there is none exactly if all are lifetimes.
pub proof fn lemma_first_non_lifetime(generics: Seq<GenericParamView>, from: int)
    requires
        0 <= from <= generics.len(),
    ensures
        match first_non_lifetime(generics, from) {
            Some(index) => {
                &&& from <= index < generics.len()
                &&& !(generics[index] is Lifetime)
                &&& forall|k: int| from <= k < index ==> generics[k] is Lifetime
            },
            None => forall|k: int| from <= k < generics.len() ==> generics[k] is Lifetime,
        },
    decreases generics.len() - from,
{
    if from < generics.len() && generics[from] is Lifetime {
        lemma_first_non_lifetime(generics, from + 1);
    }
}

/// The result of [`first_receiver`] is the least index of a receiver, and
/// there is none exactly if no parameter is a receiver.
pub proof fn lemma_first_receiver(inputs: Seq<FnArgView>, from: int)
    requires
        0 <= from <= inputs.len(),
    ensures
        match first_receiver(inputs, from) {
            Some(index) => {
                &&& from <= index < inputs.len()
                &&& inputs[index] is Receiver
                &&& forall|k: int| from <= k < index ==> inputs[k] is Typed
            },
            None => forall|k: int| from <= k < inputs.len() ==> inputs[k] is Typed,
        },
    decreases inputs.len() - from,
{
    if from < inputs.len() && !(inputs[from] is Receiver) {
        lemma_first_receiver(inputs, from + 1);
    }
}

/// The result of [`first_complex`] is the least index of a parameter
/// without a plain name, and there is none exactly if all have one.
pub proof fn lemma_first_complex(inputs: Seq<FnArgView>, from: int)
    requires
        0 <= from <= inputs.len(),
    ensures
        match first_complex(inputs, from) {
            Some(index) => {
                &&& from <= index < inputs.len()
                &&& !is_simply_named(inputs[index])
                &&& forall|k: int| from <= k < index ==> is_simply_named(inputs[k])
            },
            None => forall|k: int| from <= k < inputs.len() ==> is_simply_named(inputs[k]),
        },
    decreases inputs.len() - from,
{
    if from < inputs.len() && is_simply_named(inputs[from]) {
        lemma_first_complex(inputs, from + 1);
    }
}

/// A signature whose generic parameters are all lifetimes and which has no
/// receiver has a pointer type, and no other signature has one.
pub proof fn lemma_pointer_type_exists_for_valid_signatures(sig: SignatureView)
    ensures
        bare_fn_type_of(sig) is Ok <==> (forall|i: int|
            0 <= i < sig.generics.len() ==> #[trigger] sig.generics[i] is Lifetime) && (forall|
            i: int,
        | 0 <= i < sig.inputs.len() ==> #[trigger] sig.inputs[i] is Typed),
        bare_fn_type_of(sig) is Ok ==> bare_fn_type_of(sig)->Ok_0 == pointer_type(sig),
{
    lemma_first_non_lifetime(sig.generics, 0);
    lemma_first_receiver(sig.inputs, 0);
}

/// The names of the parameters can be collected exactly if every parameter
/// is a receiver or bound by a plain name, and then there is one name for
/// each parameter.
pub proof fn lemma_arg_names_exist_for_plain_parameters(inputs: Seq<FnArgView>)
    ensures
        arg_names_of(inputs) is Ok <==> forall|i: int|
            0 <= i < inputs.len() ==> is_simply_named(#[trigger] inputs[i]),
        arg_names_of(inputs) is Ok ==> arg_names_of(inputs)->Ok_0.len() == inputs.len(),
{
    lemma_first_complex(inputs, 0);
}

/// Derives the type of a pointer to the function with this signature.
///
/// Fails on the first generic parameter that is not a lifetime, and
/// otherwise on the first receiver.
pub fn bare_fn_type(sig: &Signature) -> (result: Result<TypeBareFn, TransformError>)
    ensures
        match result {
            Ok(ty) => bare_fn_type_of(sig.deep_view()) == Ok::<_, TransformError>(ty.deep_view()),
            Err(error) => bare_fn_type_of(sig.deep_view()) == Err::<TypeBareFnView, _>(error),
        },
{
    let ghost generics = sig.deep_view().generics;
    let ghost args = sig.deep_view().inputs;
    let mut lifetimes: Vec<String> = Vec::new();
    let mut i: usize = 0;
    while i < sig.generics.len()
        invariant
            generics == sig.generics.deep_view(),
            i <= sig.generics.len(),
            lifetimes.len() == i,
            first_non_lifetime(generics, 0) == first_non_lifetime(generics, i as int),
            forall|k: int| 0 <= k < i ==> lifetimes[k]@ == generics[k].text(),
        decreases sig.generics.len() - i,
    {
        match &sig.generics[i] {
            GenericParam::Lifetime(text) => {
                lifetimes.push(text.clone());
            },
            _ => {
                return Err(TransformError::NonLifetimeGeneric { index: i });
            },
        }
        i = i + 1;
    }
    let mut inputs: Vec<BareFnArg> = Vec::new();
    let mut j: usize = 0;
    while j < sig.inputs.len()
        invariant
            args == sig.inputs.deep_view(),
            generics == sig.generics.deep_view(),
            first_non_lifetime(generics, 0) is None,
            lifetimes.len() == sig.generics.len(),
            forall|k: int| 0 <= k < lifetimes.len() ==> lifetimes[k]@ == generics[k].text(),
            j <= sig.inputs.len(),
            inputs.len() == j,
            first_receiver(args, 0) == first_receiver(args, j as int),
            forall|k: int| 0 <= k < j ==> inputs[k].deep_view() == bare_arg(args[k]->Typed_0),
        decreases sig.inputs.len() - j,
    {
        match &sig.inputs[j] {
            FnArg::Receiver(_) => {
                return Err(TransformError::Receiver { index: j });
            },
            FnArg::Typed(typed) => {
                inputs.push(BareFnArg { attrs: copy_texts(&typed.attrs), ty: typed.ty.clone() });
            },
        }
        j = j + 1;
    }
    let variadic = match &sig.variadic {
        Some(variadic) => Some(
            BareVariadic { attrs: copy_texts(&variadic.attrs), comma: variadic.comma },
        ),
        None => None,
    };
    let ty = TypeBareFn {
        lifetimes,
        unsafety: sig.unsafety,
        abi: copy_optional_abi(&sig.abi),
        inputs,
        variadic,
        output: copy_optional_text(&sig.output),
    };
    proof {
        let want = pointer_type(sig.deep_view());
        assert(ty.deep_view().lifetimes =~= want.lifetimes);
        assert(ty.deep_view().inputs =~= want.inputs);
    }
    Ok(ty)
}

/// Collects the names by which the parameters are handed on, in order: `self`
/// for a receiver, the bound name for a parameter with a plain name.
///
/// Fails on the first parameter that is bound by any other pattern.
pub fn extract_arg_names(inputs: &Vec<FnArg>) -> (result: Result<Vec<String>, TransformError>)
    ensures
        match result {
            Ok(names) => arg_names_of(inputs.deep_view()) == Ok::<_, TransformError>(
                names.deep_view(),
            ),
            Err(error) => arg_names_of(inputs.deep_view()) == Err::<Seq<Seq<char>>, _>(error),
        },
{
    let ghost args = inputs.deep_view();
    let mut names: Vec<String> = Vec::new();
    let mut i: usize = 0;
    while i < inputs.len()
        invariant
            args == inputs.deep_view(),
            i <= inputs.len(),
            names.len() == i,
            first_complex(args, 0) == first_complex(args, i as int),
            forall|k: int| 0 <= k < i ==> names[k]@ == forwarded_name(args[k]),
        decreases inputs.len() - i,
    {
        match &inputs[i] {
            FnArg::Receiver(_) => {
                names.push("self".to_owned());
            },
            FnArg::Typed(typed) => match &typed.pat {
                Pat::Ident(name) => {
                    names.push(name.clone());
                },
                Pat::Other(_) => {
                    return Err(TransformError::ComplexArgument { index: i });
                },
            },
        }
        i = i + 1;
    }
    assert(names.deep_view() =~= Seq::new(args.len(), |i: int| forwarded_name(args[i])));
    Ok(names)
}

} // verus!
