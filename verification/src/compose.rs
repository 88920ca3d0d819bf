//! The composer as one entry point: from a name, a contract type and a
//! language to the text of the contract, of its test and of its script.
//!
//! Unlike the two dialect composers, which produce a text for whatever they
//! are given, the functions here check the request first and refuse what
//! has no sound text.

use crate::commands::{
    compatibility, lemma_incompatible_pairs_are_rejected, validate_extensions_compatibility,
};
use crate::error::{ErrorView, NothungError};
use crate::language::Language;
use crate::templates::solidity::SolidityTemplate;
use crate::templates::stylus::StylusTemplate;
use crate::templates::solidity::{
    base_import, contract_opening, disabled_constructor, extension_inheritance, import_parts,
    inheritance_parts, initializer, lemma_import_list, lemma_inheritance_list,
    lemma_inheritance_list_is_emitted, lemma_upgradeable_composite_is_reshaped, OWNABLE,
    UPGRADE_HOOK,
};
use crate::templates::{
    lemma_native_extension_is_kept, solidity, stylus, ContractType, ContractView, TokenExtension,
};
use crate::text::{joined, occurs_in};
use vstd::prelude::*;
use vstd::string::*;

verus! {

/// The compiler version used where none is given.
pub const DEFAULT_PRAGMA: &'static str = "0.8.30";

/// The license used where none is given.
pub const DEFAULT_LICENSE: &'static str = "UNLICENSED";

/// What is reported for an upgradeable contract in Rust/Stylus.
pub const STYLUS_UPGRADEABLE: &'static str =
    "Upgradeable contracts are not yet supported for Rust/Stylus";

/// What is reported for an interface or an abstract contract as the type of
/// a Rust/Stylus contract.
pub const STYLUS_MARKER_TYPE: &'static str =
    "Interface and Abstract contracts are not supported for Rust/Stylus";

/// What is reported for a standalone interface in Rust/Stylus.
pub const STYLUS_INTERFACE: &'static str =
    "Interface generation for Rust/Stylus projects is not yet supported. Use traits instead.";

/// What is reported for a standalone abstract contract in Rust/Stylus.
pub const STYLUS_ABSTRACT: &'static str =
    "Abstract contract generation for Rust/Stylus projects is not yet supported. Use traits for similar patterns.";

/// The three texts that belong to one contract.
#[derive(Debug, PartialEq, Eq)]
pub struct Composition {
    pub contract: String,
    pub test: String,
    pub script: String,
}

/// The mathematical value of a [`Composition`].
pub struct CompositionView {
    pub contract: Seq<char>,
    pub test: Seq<char>,
    pub script: Seq<char>,
}

impl View for Composition {
    type V = CompositionView;

    open spec fn view(&self) -> CompositionView {
        CompositionView { contract: self.contract@, test: self.test@, script: self.script@ }
    }
}

/// `given`, or `fallback` where nothing is given.
pub open spec fn given_or(given: Option<Seq<char>>, fallback: Seq<char>) -> Seq<char> {
    match given {
        Some(text) => text,
        None => fallback,
    }
}

/// The view of an optional text.
pub open spec fn optional_text(text: Option<&str>) -> Option<Seq<char>> {
    match text {
        Some(text) => Some(text@),
        None => None,
    }
}

/// Why a contract type has no text in a language, if it has none: an
/// extension of a composite does not go with its base, or the language is
/// Rust/Stylus and the type is upgradeable, an interface or an abstract
/// contract.
pub open spec fn objection(contract: ContractView, language: Language) -> Option<ErrorView> {
    let pairs: Result<(), ErrorView> = match contract {
        ContractView::MultiInheritance { base_type, extensions } => compatibility(
            *base_type,
            extensions,
        ),
        _ => Ok(()),
    };
    match pairs {
        Err(error) => Some(error),
        Ok(()) => if language == Language::RustStylus && contract.upgradeable() {
            Some(ErrorView::Other(STYLUS_UPGRADEABLE@))
        } else if language == Language::RustStylus && (contract is Interface
            || contract is Abstract) {
            Some(ErrorView::Other(STYLUS_MARKER_TYPE@))
        } else {
            None
        },
    }
}

/// The three texts of a contract in a language, where the request is sound.
pub open spec fn composed(
    name: Seq<char>,
    contract: ContractView,
    language: Language,
    pragma: Option<Seq<char>>,
    license: Option<Seq<char>>,
) -> Result<CompositionView, ErrorView> {
    match objection(contract, language) {
        Some(error) => Err(error),
        None => match language {
            Language::Solidity => {
                let pragma = given_or(pragma, DEFAULT_PRAGMA@);
                let license = given_or(license, DEFAULT_LICENSE@);
                Ok(
                    CompositionView {
                        contract: solidity::contract_source(name, pragma, license, contract),
                        test: solidity::test_source(name, pragma, license, contract),
                        script: solidity::script_source(name, pragma, license, contract),
                    },
                )
            },
            Language::RustStylus => Ok(
                CompositionView {
                    contract: stylus::contract_source(name, contract),
                    test: stylus::test_source(name),
                    script: stylus::script_source(name),
                },
            ),
        },
    }
}

/// The text of a standalone library in a language.
pub open spec fn composed_library(
    name: Seq<char>,
    language: Language,
    pragma: Option<Seq<char>>,
    license: Option<Seq<char>>,
) -> Seq<char> {
    match language {
        Language::Solidity => solidity::library_source(
            name,
            given_or(pragma, DEFAULT_PRAGMA@),
            given_or(license, DEFAULT_LICENSE@),
        ),
        Language::RustStylus => stylus::library_source(name),
    }
}

/// The text of a standalone interface, which only Solidity has.
pub open spec fn composed_interface(
    name: Seq<char>,
    language: Language,
    pragma: Option<Seq<char>>,
    license: Option<Seq<char>>,
) -> Result<Seq<char>, ErrorView> {
    match language {
        Language::Solidity => Ok(
            solidity::interface_source(
                name,
                given_or(pragma, DEFAULT_PRAGMA@),
                given_or(license, DEFAULT_LICENSE@),
            ),
        ),
        Language::RustStylus => Err(ErrorView::Other(STYLUS_INTERFACE@)),
    }
}

/// The text of a standalone abstract contract, which only Solidity has.
pub open spec fn composed_abstract(
    name: Seq<char>,
    language: Language,
    pragma: Option<Seq<char>>,
    license: Option<Seq<char>>,
) -> Result<Seq<char>, ErrorView> {
    match language {
        Language::Solidity => Ok(
            solidity::abstract_contract_source(
                name,
                given_or(pragma, DEFAULT_PRAGMA@),
                given_or(license, DEFAULT_LICENSE@),
            ),
        ),
        Language::RustStylus => Err(ErrorView::Other(STYLUS_ABSTRACT@)),
    }
}

/// For a composite as a validated request yields it, over any of the six
/// standard tags: the Solidity contract is composed, and its text names as
/// parents the base, then the access-control mix-in, then each extension of
/// the composite, one entry each, in their order, joined by commas. The
/// imports start with that of the base. Over an upgradeable tag the text has
/// the initializer pattern: the constructor that disables the initializers,
/// the initializer and the upgrade hook.
pub proof fn lemma_composed_inheritance_list(
    name: Seq<char>,
    base: ContractView,
    extensions: Seq<TokenExtension>,
    pragma: Option<Seq<char>>,
    license: Option<Seq<char>>,
)
    requires
        (ContractView::MultiInheritance { base_type: Box::new(base), extensions }).well_formed(),
    ensures
        composed(
            name,
            ContractView::MultiInheritance { base_type: Box::new(base), extensions },
            Language::Solidity,
            pragma,
            license,
        ) is Ok,
        occurs_in(
            composed(
                name,
                ContractView::MultiInheritance { base_type: Box::new(base), extensions },
                Language::Solidity,
                pragma,
                license,
            )->Ok_0.contract,
            contract_opening(name, joined(inheritance_parts(base, extensions), ", "@)),
        ),
        inheritance_parts(base, extensions).len() == extensions.len() + 2,
        inheritance_parts(base, extensions)[0] == base.debug_text(),
        inheritance_parts(base, extensions)[1] == OWNABLE@,
        forall|i: int|
            0 <= i < extensions.len() ==> #[trigger] inheritance_parts(base, extensions)[i + 2]
                == extension_inheritance(extensions[i]),
        import_parts(base, extensions).len() == extensions.len() + 2,
        base_import(base) == Some(import_parts(base, extensions)[0]),
        base.upgradeable() ==> {
            let text = composed(
                name,
                ContractView::MultiInheritance { base_type: Box::new(base), extensions },
                Language::Solidity,
                pragma,
                license,
            )->Ok_0.contract;
            &&& occurs_in(text, disabled_constructor(base, extensions))
            &&& occurs_in(text, initializer(name, base))
            &&& occurs_in(text, UPGRADE_HOOK@)
        },
{
    let contract = ContractView::MultiInheritance { base_type: Box::new(base), extensions };
    lemma_import_list(base, extensions);
    lemma_incompatible_pairs_are_rejected(base, extensions, extensions.len());
    assert(compatibility(base, extensions) is Ok) by {
        if compatibility(base, extensions) is Err {
            let i = choose|i: int|
                0 <= i < extensions.len() && !(#[trigger] extensions[i]).compatible_with(base);
            assert(extensions[i].native_standard() == base.standard()->0);
        }
    }
    lemma_inheritance_list(base, extensions);
    lemma_inheritance_list_is_emitted(
        name,
        given_or(pragma, DEFAULT_PRAGMA@),
        given_or(license, DEFAULT_LICENSE@),
        base,
        extensions,
    );
    assert forall|i: int| 0 <= i < extensions.len() implies #[trigger] inheritance_parts(
        base,
        extensions,
    )[i + 2] == extension_inheritance(extensions[i]) by {
        assert(extensions[i].native_standard() == base.standard()->0);
        lemma_native_extension_is_kept(base, extensions[i]);
    }
    if base.upgradeable() {
        lemma_upgradeable_composite_is_reshaped(
            name,
            given_or(pragma, DEFAULT_PRAGMA@),
            given_or(license, DEFAULT_LICENSE@),
            base,
            extensions,
        );
        assert forall|i: int| 0 <= i < extensions.len() implies #[trigger] extensions[i]
            == crate::templates::effective_extensions(base, extensions)[i] by {
            assert(extensions[i].native_standard() == base.standard()->0);
            lemma_native_extension_is_kept(base, extensions[i]);
        }
        assert(crate::templates::effective_extensions(base, extensions) == extensions);
    }
}

/// `given`, or `fallback` where nothing is given, as a string of its own.
fn text_or(given: Option<&str>, fallback: &str) -> (r: String)
    ensures
        r@ == given_or(optional_text(given), fallback@),
{
    match given {
        Some(text) => String::from_str(text),
        None => String::from_str(fallback),
    }
}

/// Checks that `contract_type` has a text in `language`.
pub fn check_composable(contract_type: &ContractType, language: &Language) -> (r: Result<
    (),
    NothungError,
>)
    ensures
        match r {
            Ok(()) => objection(contract_type@, *language) is None,
            Err(error) => objection(contract_type@, *language) == Some(error@),
        },
{
    match contract_type {
        ContractType::MultiInheritance { base_type, extensions } => {
            match validate_extensions_compatibility(base_type, extensions.as_slice()) {
                Ok(()) => {},
                Err(error) => {
                    return Err(error);
                },
            }
        },
        _ => {},
    }
    match language {
        Language::RustStylus => {
            if contract_type.is_upgradeable() {
                return Err(NothungError::other(STYLUS_UPGRADEABLE));
            }
            match contract_type {
                ContractType::Interface | ContractType::Abstract => {
                    return Err(NothungError::other(STYLUS_MARKER_TYPE));
                },
                _ => {},
            }
        },
        Language::Solidity => {},
    }
    Ok(())
}

/// Composes the contract `name` of type `contract_type` in `language`: the
/// text of the contract, of its test and of its script. Extensions of a
/// composite are converted for its base; the call fails where one of them
/// does not go with the base, and where the language has no text for the
/// type. `pragma` and `license` count for Solidity only.
pub fn compose(
    name: &str,
    contract_type: &ContractType,
    language: &Language,
    pragma: Option<&str>,
    license: Option<&str>,
) -> (r: Result<Composition, NothungError>)
    ensures
        match r {
            Ok(texts) => composed(
                name@,
                contract_type@,
                *language,
                optional_text(pragma),
                optional_text(license),
            ) == Ok::<CompositionView, ErrorView>(texts@),
            Err(error) => composed(
                name@,
                contract_type@,
                *language,
                optional_text(pragma),
                optional_text(license),
            ) == Err::<CompositionView, ErrorView>(error@),
        },
{
    match check_composable(contract_type, language) {
        Ok(()) => {},
        Err(error) => {
            return Err(error);
        },
    }
    match language {
        Language::Solidity => {
            let template = SolidityTemplate::new(
                String::from_str(name),
                contract_type.duplicate(),
                text_or(pragma, DEFAULT_PRAGMA),
                text_or(license, DEFAULT_LICENSE),
            );
            Ok(
                Composition {
                    contract: template.generate_contract(),
                    test: template.generate_test(),
                    script: template.generate_script(),
                },
            )
        },
        Language::RustStylus => {
            let template = StylusTemplate::new(String::from_str(name), contract_type.duplicate());
            Ok(
                Composition {
                    contract: template.generate_contract(),
                    test: template.generate_test(),
                    script: template.generate_script(),
                },
            )
        },
    }
}

/// Composes the standalone library `name`.
pub fn compose_library(
    name: &str,
    language: &Language,
    pragma: Option<&str>,
    license: Option<&str>,
) -> (r: String)
    ensures
        r@ == composed_library(name@, *language, optional_text(pragma), optional_text(license)),
{
    match language {
        Language::Solidity => {
            let template = SolidityTemplate::new(
                String::from_str(name),
                ContractType::Basic,
                text_or(pragma, DEFAULT_PRAGMA),
                text_or(license, DEFAULT_LICENSE),
            );
            template.generate_library()
        },
        Language::RustStylus => {
            let template = StylusTemplate::new(String::from_str(name), ContractType::Basic);
            template.generate_library()
        },
    }
}

/// Composes the standalone interface `name`. Rust/Stylus has none: traits
/// take their place there.
pub fn compose_interface(
    name: &str,
    language: &Language,
    pragma: Option<&str>,
    license: Option<&str>,
) -> (r: Result<String, NothungError>)
    ensures
        match r {
            Ok(text) => composed_interface(
                name@,
                *language,
                optional_text(pragma),
                optional_text(license),
            ) == Ok::<Seq<char>, ErrorView>(text@),
            Err(error) => composed_interface(
                name@,
                *language,
                optional_text(pragma),
                optional_text(license),
            ) == Err::<Seq<char>, ErrorView>(error@),
        },
{
    match language {
        Language::Solidity => {
            let template = SolidityTemplate::new(
                String::from_str(name),
                ContractType::Interface,
                text_or(pragma, DEFAULT_PRAGMA),
                text_or(license, DEFAULT_LICENSE),
            );
            Ok(template.generate_interface())
        },
        Language::RustStylus => Err(NothungError::other(STYLUS_INTERFACE)),
    }
}

/// Composes the standalone abstract contract `name`. Rust/Stylus has none:
/// traits take their place there.
pub fn compose_abstract(
    name: &str,
    language: &Language,
    pragma: Option<&str>,
    license: Option<&str>,
) -> (r: Result<String, NothungError>)
    ensures
        match r {
            Ok(text) => composed_abstract(
                name@,
                *language,
                optional_text(pragma),
                optional_text(license),
            ) == Ok::<Seq<char>, ErrorView>(text@),
            Err(error) => composed_abstract(
                name@,
                *language,
                optional_text(pragma),
                optional_text(license),
            ) == Err::<Seq<char>, ErrorView>(error@),
        },
{
    match language {
        Language::Solidity => {
            let template = SolidityTemplate::new(
                String::from_str(name),
                ContractType::Abstract,
                text_or(pragma, DEFAULT_PRAGMA),
                text_or(license, DEFAULT_LICENSE),
            );
            Ok(template.generate_abstract_contract())
        },
        Language::RustStylus => Err(NothungError::other(STYLUS_ABSTRACT)),
    }
}

} // verus!
