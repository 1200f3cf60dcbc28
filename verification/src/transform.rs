//! Turning the definition of an override into the exported wrapper.
use vstd::prelude::*;
use vstd::string::*;
use vstd::utf8::{
    encode_scalar, encode_utf8, has_width_1_encoding, is_scalar, last_continuation_byte,
    leading_byte_width_1, leading_byte_width_2, leading_byte_width_3, leading_byte_width_4,
    second_last_continuation_byte, third_last_continuation_byte,
};
use crate::args::{MockFfiArgs, MockFfiArgsView};
use crate::error::{ErrorSite, TransformError};
use crate::path::{lemma_from_ident_is_ident, Path, PathView};
use crate::pointer_type::{
    arg_names_of, bare_fn_type, bare_fn_type_of, extract_arg_names, is_simply_named,
    lemma_arg_names_exist_for_plain_parameters, lemma_pointer_type_exists_for_valid_signatures,
    pointer_type, TypeBareFn, TypeBareFnView,
};
use crate::rewrite::{
    lemma_rewrite_keeps_tree_without_super, lemma_rewrite_removes_super, mentions_super,
    replace_super, rewritten, SUPER,
};
use crate::signature::{Signature, SignatureView};
use crate::text::copy_texts;
use crate::tree::{Syntax, SyntaxView};

verus! {

/// The name of the process-wide handle to the overridden function.
pub const SUPER_STATIC: &'static str = "__OVERLINK_SUPER__";

/// The name that stands for the overridden function inside the body.
pub const SUPER_FN: &'static str = "__overlink_super__";

/// The name of the per-thread flag of the reentrancy guard.
pub const RECURSION_STATE: &'static str = "__OVERLINK_RECURSION__";

/// The name of the token that keeps the reentrancy guard held.
pub const RECURSION_GUARD: &'static str = "__overlink_recursion_guard__";

/// An attribute of the function.
#[derive(Debug, PartialEq, Eq)]
pub enum Attribute {
    /// `#[export_name = "symbol"]`: the function is exported as `symbol`.
    ExportName(String),
    /// Any other attribute, as source text.
    Other(String),
}

/// A statement of the function's body.
#[derive(Debug, PartialEq, Eq)]
pub enum Stmt {
    /// The process-wide handle [`SUPER_STATIC`] of type `ty`. It is filled on
    /// first use: its initialiser checks that `ty` has the layout of a
    /// pointer, resolves the next definition of `symbol` (the name as a C
    /// string, without its terminator), and fails for good if there is none.
    SuperHandle { ty: TypeBareFn, symbol: Vec<u8> },
    /// The local binding [`SUPER_FN`] of type `ty`, equal to what the handle
    /// holds.
    SuperBinding { ty: TypeBareFn },
    /// The per-thread flag [`RECURSION_STATE`], initially clear.
    RecursionState,
    /// The entry check: take the guard as [`RECURSION_GUARD`], or else
    /// return what [`SUPER_FN`] returns on the parameters `forward`.
    RecursionCheck { forward: Vec<String> },
    /// A statement of the definition.
    Source(Syntax),
}

/// A function: attributes, signature and body.
#[derive(Debug, PartialEq, Eq)]
pub struct ItemFn {
    pub attrs: Vec<Attribute>,
    pub sig: Signature,
    pub stmts: Vec<Stmt>,
}

pub ghost enum AttributeView {
    ExportName(Seq<char>),
    Other(Seq<char>),
}

pub ghost enum StmtView {
    SuperHandle { ty: TypeBareFnView, symbol: Seq<u8> },
    SuperBinding { ty: TypeBareFnView },
    RecursionState,
    RecursionCheck { forward: Seq<Seq<char>> },
    Source(SyntaxView),
}

pub ghost struct ItemFnView {
    pub attrs: Seq<AttributeView>,
    pub sig: SignatureView,
    pub stmts: Seq<StmtView>,
}

impl DeepView for Attribute {
    type V = AttributeView;

    open spec fn deep_view(&self) -> AttributeView {
        match self {
            Attribute::ExportName(symbol) => AttributeView::ExportName(symbol@),
            Attribute::Other(text) => AttributeView::Other(text@),
        }
    }
}

impl DeepView for Stmt {
    type V = StmtView;

    open spec fn deep_view(&self) -> StmtView {
        match self {
            Stmt::SuperHandle { ty, symbol } => StmtView::SuperHandle {
                ty: ty.deep_view(),
                symbol: symbol@,
            },
            Stmt::SuperBinding { ty } => StmtView::SuperBinding { ty: ty.deep_view() },
            Stmt::RecursionState => StmtView::RecursionState,
            Stmt::RecursionCheck { forward } => StmtView::RecursionCheck {
                forward: forward.deep_view(),
            },
            Stmt::Source(tree) => StmtView::Source(tree.deep_view()),
        }
    }
}

impl DeepView for ItemFn {
    type V = ItemFnView;

    open spec fn deep_view(&self) -> ItemFnView {
        ItemFnView {
            attrs: self.attrs.deep_view(),
            sig: self.sig.deep_view(),
            stmts: self.stmts.deep_view(),
        }
    }
}

/// Whether a zero byte occurs among `bytes`.
pub open spec fn has_nul(bytes: Seq<u8>) -> bool {
    exists|i: int| 0 <= i < bytes.len() && bytes[i] == 0
}

/// The name under which the wrapper is exported: the one given as `name`,
/// or else the function's own.
pub open spec fn symbol_name(args: MockFfiArgsView, item: ItemFnView) -> Seq<char> {
    match args.name {
        Some(name) => name,
        None => item.sig.ident,
    }
}

/// The path that stands for the overridden function.
pub open spec fn super_path() -> PathView {
    PathView::from_ident(SUPER_FN@)
}

/// Why a definition is refused, if it is. The checks come in this order:
/// the calling convention, the symbol name, the generic parameters, the
/// receiver, and, unless reentry is allowed, the patterns of the parameters.
pub open spec fn transform_error(args: MockFfiArgsView, item: ItemFnView) -> Option<
    TransformError,
> {
    if item.sig.abi is None {
        Some(TransformError::MissingAbi)
    } else if has_nul(encode_utf8(symbol_name(args, item))) {
        Some(TransformError::NulInSymbolName)
    } else if let Err(error) = bare_fn_type_of(item.sig) {
        Some(error)
    } else if !args.allow_reentry && arg_names_of(item.sig.inputs) is Err {
        Some(arg_names_of(item.sig.inputs)->Err_0)
    } else {
        None
    }
}

/// The statements that are put before the body: the handle and the binding
/// of the overridden function and, unless reentry is allowed, the flag
/// and the entry check that hands every parameter on by name.
pub open spec fn prelude(args: MockFfiArgsView, item: ItemFnView) -> Seq<StmtView> {
    let ty = pointer_type(item.sig);
    let resolve = seq![
        StmtView::SuperHandle { ty, symbol: encode_utf8(symbol_name(args, item)) },
        StmtView::SuperBinding { ty },
    ];
    if args.allow_reentry {
        resolve
    } else {
        resolve + seq![
            StmtView::RecursionState,
            StmtView::RecursionCheck { forward: arg_names_of(item.sig.inputs)->Ok_0 },
        ]
    }
}

/// A statement after `super` has been replaced by `target`: a statement of
/// the definition is rewritten, anything else stays.
pub open spec fn rewritten_stmt(stmt: StmtView, target: PathView) -> StmtView {
    match stmt {
        StmtView::Source(tree) => StmtView::Source(rewritten(tree, target)),
        _ => stmt,
    }
}

/// Whether `super` occurs in a statement, in call or in reference position.
pub open spec fn stmt_mentions_super(stmt: StmtView) -> bool {
    stmt matches StmtView::Source(tree) && mentions_super(tree)
}

/// The wrapper that a definition becomes: exported under its symbol name,
/// with the prelude before the body and `super` replaced throughout the body.
pub open spec fn transformed(args: MockFfiArgsView, item: ItemFnView) -> ItemFnView
    recommends
        transform_error(args, item) is None,
{
    ItemFnView {
        attrs: seq![AttributeView::ExportName(symbol_name(args, item))] + item.attrs,
        sig: item.sig,
        stmts: prelude(args, item) + Seq::new(
            item.stmts.len(),
            |i: int| rewritten_stmt(item.stmts[i], super_path()),
        ),
    }
}

/// Whether a zero byte occurs among `bytes`.
pub fn contains_nul(bytes: &Vec<u8>) -> (found: bool)
    ensures
        found == has_nul(bytes@),
{
    let mut i: usize = 0;
    while i < bytes.len()
        invariant
            i <= bytes.len(),
            forall|k: int| 0 <= k < i ==> bytes[k] != 0,
        decreases bytes.len() - i,
    {
        if bytes[i] == 0 {
            return true;
        }
        i = i + 1;
    }
    false
}

impl Stmt {
    /// The statement after `super` has been replaced by `target`.
    pub fn rewrite(&self, target: &Path) -> (out: Stmt)
        ensures
            out.deep_view() == rewritten_stmt(self.deep_view(), target.deep_view()),
    {
        match self {
            Stmt::SuperHandle { ty, symbol } => {
                let mut bytes: Vec<u8> = Vec::new();
                let mut i: usize = 0;
                while i < symbol.len()
                    invariant
                        i <= symbol.len(),
                        bytes@ == symbol@.take(i as int),
                    decreases symbol.len() - i,
                {
                    bytes.push(symbol[i]);
                    i = i + 1;
                }
                assert(symbol@.take(symbol.len() as int) == symbol@);
                Stmt::SuperHandle { ty: ty.copy(), symbol: bytes }
            },
            Stmt::SuperBinding { ty } => Stmt::SuperBinding { ty: ty.copy() },
            Stmt::RecursionState => Stmt::RecursionState,
            Stmt::RecursionCheck { forward } => Stmt::RecursionCheck {
                forward: copy_texts(forward),
            },
            Stmt::Source(tree) => Stmt::Source(replace_super(tree, target)),
        }
    }
}

/// Turns the definition of an override into the wrapper that is exported in
/// its place.
///
/// The definition is refused, and nothing is produced, if it states no
/// calling convention, if its symbol name holds a zero byte, if it has a
/// generic parameter other than a lifetime or a receiver, or if, while
/// reentry is not allowed, a parameter is bound by more than a plain name.
pub fn overlink(args: MockFfiArgs, input: ItemFn) -> (result: Result<ItemFn, TransformError>)
    ensures
        match result {
            Ok(output) => {
                &&& transform_error(args.deep_view(), input.deep_view()) is None
                &&& output.deep_view() == transformed(args.deep_view(), input.deep_view())
            },
            Err(error) => transform_error(args.deep_view(), input.deep_view()) == Some(error),
        },
{
    let ghost spec_args = args.deep_view();
    let ghost item = input.deep_view();
    if input.sig.abi.is_none() {
        return Err(TransformError::MissingAbi);
    }
    let raw_symbol_name = match &args.name {
        Some(name) => name.clone(),
        None => input.sig.ident.clone(),
    };
    let symbol = raw_symbol_name.as_str().as_bytes_vec();
    if contains_nul(&symbol) {
        return Err(TransformError::NulInSymbolName);
    }
    let super_fn_ty = match bare_fn_type(&input.sig) {
        Ok(ty) => ty,
        Err(error) => {
            return Err(error);
        },
    };
    let mut stmts: Vec<Stmt> = Vec::new();
    let binding_ty = super_fn_ty.copy();
    stmts.push(Stmt::SuperHandle { ty: super_fn_ty, symbol });
    stmts.push(Stmt::SuperBinding { ty: binding_ty });
    if !args.allow_reentry {
        let forward = match extract_arg_names(&input.sig.inputs) {
            Ok(names) => names,
            Err(error) => {
                return Err(error);
            },
        };
        stmts.push(Stmt::RecursionState);
        stmts.push(Stmt::RecursionCheck { forward });
    }
    let target = Path::from_ident(SUPER_FN);
    let ghost first = stmts.len();
    let mut i: usize = 0;
    while i < input.stmts.len()
        invariant
            item == input.deep_view(),
            target.deep_view() == super_path(),
            i <= input.stmts.len(),
            stmts.len() == first + i,
            first == prelude(spec_args, item).len(),
            forall|k: int| 0 <= k < first ==> stmts[k].deep_view() == prelude(spec_args, item)[k],
            forall|k: int|
                0 <= k < i ==> stmts[first + k].deep_view() == rewritten_stmt(
                    input.stmts[k].deep_view(),
                    super_path(),
                ),
        decreases input.stmts.len() - i,
    {
        stmts.push(input.stmts[i].rewrite(&target));
        i = i + 1;
    }
    let ItemFn { attrs: mut source_attrs, sig, stmts: _ } = input;
    let mut attrs: Vec<Attribute> = Vec::new();
    attrs.push(Attribute::ExportName(raw_symbol_name));
    attrs.append(&mut source_attrs);
    let output = ItemFn { attrs, sig, stmts };
    proof {
        let want = transformed(spec_args, item);
        assert(output.deep_view().attrs =~= want.attrs);
        assert(output.deep_view().stmts =~= want.stmts);
    }
    Ok(output)
}

/// Whether a definition meets every demand: a stated calling convention, a
/// symbol name without a zero byte, no generic parameter but lifetimes, no
/// receiver and, unless reentry is allowed, plain names for all parameters.
pub open spec fn is_valid_definition(args: MockFfiArgsView, item: ItemFnView) -> bool {
    &&& item.sig.abi is Some
    &&& !has_nul(encode_utf8(symbol_name(args, item)))
    &&& forall|i: int|
        0 <= i < item.sig.generics.len() ==> #[trigger] item.sig.generics[i] is Lifetime
    &&& forall|i: int| 0 <= i < item.sig.inputs.len() ==> #[trigger] item.sig.inputs[i] is Typed
    &&& args.allow_reentry || forall|i: int|
        0 <= i < item.sig.inputs.len() ==> is_simply_named(#[trigger] item.sig.inputs[i])
}

/// A definition is turned into a wrapper exactly if it meets every demand.
pub proof fn lemma_valid_definitions_are_accepted(args: MockFfiArgsView, item: ItemFnView)
    ensures
        transform_error(args, item) is None <==> is_valid_definition(args, item),
{
    lemma_pointer_type_exists_for_valid_signatures(item.sig);
    lemma_arg_names_exist_for_plain_parameters(item.sig.inputs);
}

/// A function without a stated calling convention is refused, whatever
/// else holds of it, and the error points at the `fn` keyword.
pub proof fn lemma_missing_abi_is_refused(args: MockFfiArgsView, item: ItemFnView)
    requires
        item.sig.abi is None,
    ensures
        transform_error(args, item) == Some(TransformError::MissingAbi),
        TransformError::MissingAbi.spec_site() == ErrorSite::FnToken,
{
}

/// A symbol name that holds a zero byte is refused: no wrapper is produced
/// for it. Where the calling convention is stated, the error says so.
pub proof fn lemma_nul_in_symbol_name_is_refused(args: MockFfiArgsView, item: ItemFnView)
    requires
        has_nul(encode_utf8(symbol_name(args, item))),
    ensures
        transform_error(args, item) is Some,
        item.sig.abi is Some ==> transform_error(args, item) == Some(
            TransformError::NulInSymbolName,
        ),
{
}

/// The encoding of one character holds a zero byte exactly if the character
/// is the one with the number zero.
proof fn lemma_scalar_has_nul(scalar: u32)
    requires
        is_scalar(scalar),
    ensures
        has_nul(encode_scalar(scalar)) <==> scalar == 0,
{
    let bytes = encode_scalar(scalar);
    if has_width_1_encoding(scalar) {
        assert(leading_byte_width_1(scalar) == 0 <==> scalar == 0) by (bit_vector)
            requires
                has_width_1_encoding(scalar),
        ;
    }
    assert(leading_byte_width_2(scalar) != 0) by (bit_vector);
    assert(leading_byte_width_3(scalar) != 0) by (bit_vector);
    assert(leading_byte_width_4(scalar) != 0) by (bit_vector);
    assert(last_continuation_byte(scalar) != 0) by (bit_vector);
    assert(second_last_continuation_byte(scalar) != 0) by (bit_vector);
    assert(third_last_continuation_byte(scalar) != 0) by (bit_vector);
    if scalar == 0 {
        assert(bytes[0] == 0);
    }
}

/// A name holds a zero byte, once written out as bytes, exactly if one of
/// its characters is the one with the number zero.
pub proof fn lemma_nul_byte_is_nul_char(name: Seq<char>)
    ensures
        has_nul(encode_utf8(name)) <==> exists|i: int| 0 <= i < name.len() && name[i] == '\0',
    decreases name.len(),
{
    if name.len() > 0 {
        let first = encode_scalar(name[0] as u32);
        let rest = name.drop_first();
        let bytes = encode_utf8(name);
        assert(bytes == first + encode_utf8(rest));
        vstd::utf8::char_is_scalar(name[0]);
        lemma_scalar_has_nul(name[0] as u32);
        lemma_nul_byte_is_nul_char(rest);
        vstd::utf8::char_u32_cast(name[0], name[0] as u32);
        assert(name[0] as u32 == 0 <==> name[0] == '\0');
        if has_nul(bytes) {
            let k = choose|k: int| 0 <= k < bytes.len() && bytes[k] == 0;
            if k < first.len() {
                assert(first[k] == 0);
                assert(name[0] == '\0');
            } else {
                assert(encode_utf8(rest)[k - first.len()] == 0);
                let i = choose|i: int| 0 <= i < rest.len() && rest[i] == '\0';
                assert(name[i + 1] == '\0');
            }
        }
        if exists|i: int| 0 <= i < name.len() && name[i] == '\0' {
            let i = choose|i: int| 0 <= i < name.len() && name[i] == '\0';
            if i == 0 {
                let k = choose|k: int| 0 <= k < first.len() && first[k] == 0;
                assert(bytes[k] == 0);
            } else {
                assert(rest[i - 1] == '\0');
                let k = choose|k: int|
                    0 <= k < encode_utf8(rest).len() && encode_utf8(rest)[k] == 0;
                assert(bytes[first.len() + k] == 0);
            }
        }
    }
}

/// A symbol name in which the character with the number zero occurs is
/// refused.
pub proof fn lemma_nul_char_in_symbol_name_is_refused(
    args: MockFfiArgsView,
    item: ItemFnView,
    at: int,
)
    requires
        0 <= at < symbol_name(args, item).len(),
        symbol_name(args, item)[at] == '\0',
    ensures
        transform_error(args, item) is Some,
{
    lemma_nul_byte_is_nul_char(symbol_name(args, item));
}

/// The binding of the overridden function is not the reserved token.
pub proof fn lemma_super_path_is_not_super()
    ensures
        !super_path().is_ident(SUPER@),
{
    reveal_strlit("__overlink_super__");
    reveal_strlit("super");
    assert(SUPER_FN@.len() != SUPER@.len());
    lemma_from_ident_is_ident(SUPER_FN@, SUPER@);
}

/// In the wrapper `super` occurs nowhere in the body any more, and the
/// statements of the definition follow the prelude in their order.
pub proof fn lemma_wrapper_has_no_super(args: MockFfiArgsView, item: ItemFnView)
    ensures
        transformed(args, item).stmts.len() == prelude(args, item).len() + item.stmts.len(),
        forall|i: int|
            0 <= i < transformed(args, item).stmts.len() ==> !stmt_mentions_super(
                #[trigger] transformed(args, item).stmts[i],
            ),
{
    let out = transformed(args, item).stmts;
    let first = prelude(args, item).len();
    lemma_super_path_is_not_super();
    assert forall|i: int| 0 <= i < out.len() implies !stmt_mentions_super(#[trigger] out[i]) by {
        if i >= first {
            let stmt = item.stmts[i - first];
            if let StmtView::Source(tree) = stmt {
                lemma_rewrite_removes_super(tree, super_path());
            }
        }
    }
}

/// The wrapper keeps what it does not have to change: the signature, the
/// attributes after the export, and every statement in which `super` does
/// not occur.
pub proof fn lemma_wrapper_keeps_the_rest(args: MockFfiArgsView, item: ItemFnView)
    ensures
        transformed(args, item).sig == item.sig,
        transformed(args, item).attrs.len() == item.attrs.len() + 1,
        transformed(args, item).attrs[0] == AttributeView::ExportName(symbol_name(args, item)),
        forall|i: int|
            0 <= i < item.attrs.len() ==> transformed(args, item).attrs[i + 1]
                == #[trigger] item.attrs[i],
        forall|i: int|
            0 <= i < item.stmts.len() && !stmt_mentions_super(#[trigger] item.stmts[i])
                ==> transformed(args, item).stmts[prelude(args, item).len() + i] == item.stmts[i],
{
    let first = prelude(args, item).len();
    assert forall|i: int|
        0 <= i < item.stmts.len() && !stmt_mentions_super(
            #[trigger] item.stmts[i],
        ) implies transformed(args, item).stmts[first + i] == item.stmts[i] by {
        if let StmtView::Source(tree) = item.stmts[i] {
            lemma_rewrite_keeps_tree_without_super(tree, super_path());
        }
    }
}

/// With reentry allowed the prelude holds neither the per-thread flag nor
/// the entry check; without it the prelude ends with both, and the check
/// hands on one name for each parameter.
pub proof fn lemma_prelude_guards_unless_reentry_allowed(args: MockFfiArgsView, item: ItemFnView)
    ensures
        args.allow_reentry ==> forall|i: int|
            0 <= i < prelude(args, item).len() ==> !(#[trigger] prelude(args, item)[i]
                is RecursionCheck) && !(prelude(args, item)[i] is RecursionState),
        !args.allow_reentry ==> prelude(args, item).len() == 4 && prelude(args, item)[2]
            is RecursionState && prelude(args, item)[3] == (StmtView::RecursionCheck {
            forward: arg_names_of(item.sig.inputs)->Ok_0,
        }),
        !args.allow_reentry && transform_error(args, item) is None ==> arg_names_of(
            item.sig.inputs,
        )->Ok_0.len() == item.sig.inputs.len(),
{
}

} // verus!
