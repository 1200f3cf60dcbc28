//! What can be wrong with the definition of an override.
use vstd::prelude::*;
use vstd::string::*;

verus! {

/// Why a definition is refused.
#[derive(Debug, Clone, Copy, PartialEq, Eq)]
pub enum TransformError {
    /// The function states no calling convention.
    MissingAbi,
    /// The name under which the function is exported holds a zero byte.
    NulInSymbolName,
    /// The generic parameter at `index` is not a lifetime.
    NonLifetimeGeneric { index: usize },
    /// The parameter at `index` is a receiver (`self`).
    Receiver { index: usize },
    /// The parameter at `index` is not bound by a plain name, so it cannot
    /// be handed on.
    ComplexArgument { index: usize },
}

/// The part of the definition that an error points at.
#[derive(Debug, Clone, Copy, PartialEq, Eq)]
pub enum ErrorSite {
    /// The `fn` keyword.
    FnToken,
    /// The symbol name: the string given as `name`, or else the function's
    /// identifier.
    SymbolName,
    /// The generic parameter at this index.
    GenericParam(usize),
    /// The whole parameter at this index.
    Input(usize),
    /// The pattern of the parameter at this index.
    InputPattern(usize),
}

impl TransformError {
    /// Where each error is reported.
    pub open spec fn spec_site(self) -> ErrorSite {
        match self {
            TransformError::MissingAbi => ErrorSite::FnToken,
            TransformError::NulInSymbolName => ErrorSite::SymbolName,
            TransformError::NonLifetimeGeneric { index } => ErrorSite::GenericParam(index),
            TransformError::Receiver { index } => ErrorSite::Input(index),
            TransformError::ComplexArgument { index } => ErrorSite::InputPattern(index),
        }
    }

    /// The text of each error.
    pub open spec fn spec_message(self) -> Seq<char> {
        match self {
            TransformError::MissingAbi => "#[overlink] functions must have an explicit ABI"@,
            TransformError::NulInSymbolName => "symbol name contains a null byte"@,
            TransformError::NonLifetimeGeneric { .. } =>
                "#[overlink] does not support non-lifetime generic parameters"@,
            TransformError::Receiver { .. } =>
                "#[overlink] does not support self-receiver arguments"@,
            TransformError::ComplexArgument { .. } =>
                "only simply named arguments are supported by #[overlink]"@,
        }
    }

    /// The part of the definition that the error points at.
    pub fn site(&self) -> (site: ErrorSite)
        ensures
            site == self.spec_site(),
    {
        match self {
            TransformError::MissingAbi => ErrorSite::FnToken,
            TransformError::NulInSymbolName => ErrorSite::SymbolName,
            TransformError::NonLifetimeGeneric { index } => ErrorSite::GenericParam(*index),
            TransformError::Receiver { index } => ErrorSite::Input(*index),
            TransformError::ComplexArgument { index } => ErrorSite::InputPattern(*index),
        }
    }

    /// The error as a sentence for the user.
    pub fn message(&self) -> (text: String)
        ensures
            text@ == self.spec_message(),
    {
        match self {
            TransformError::MissingAbi => "#[overlink] functions must have an explicit ABI".to_owned(),
            TransformError::NulInSymbolName => "symbol name contains a null byte".to_owned(),
            TransformError::NonLifetimeGeneric { .. } =>
                "#[overlink] does not support non-lifetime generic parameters".to_owned(),
            TransformError::Receiver { .. } =>
                "#[overlink] does not support self-receiver arguments".to_owned(),
            TransformError::ComplexArgument { .. } =>
                "only simply named arguments are supported by #[overlink]".to_owned(),
        }
    }
}

} // verus!
