//! Validation of a request: from the flags a user gave to the contract type
//! that is generated.

use crate::error::{ErrorView, NothungError};
use crate::extensions::{parse_extensions, parsed};
use crate::generators::abstract_contract::abstract_contract_plan;
use crate::generators::config::config_message;
use crate::generators::interface::interface_plan;
use crate::generators::library::library_plan;
use crate::generators::script::script_plan;
use crate::generators::test::test_plan;
use crate::generators::{
    contract_plan, AbstractContractGenerator, ConfigGenerator, GenericContractGenerator,
    InterfaceGenerator, LibraryGenerator, ScriptGenerator, TestGenerator,
};
use crate::language::Language;
use crate::plan::{Plan, PlanView, Snapshot, SnapshotView};
use crate::project::ProjectType;
use crate::templates::{
    convert_extensions, effective_extensions, ContractType, ContractView, TokenExtension,
};
use crate::text::{same_text, texts};
use vstd::prelude::*;
use vstd::string::*;

verus! {

/// What is reported where more than one token standard was chosen.
pub const MULTIPLE_BASES: &'static str =
    "Cannot use multiple base token types together (--oz-erc20, --oz-erc721, --oz-erc1155)";

/// What is reported where an upgradeable contract was asked for without a
/// token standard.
pub const UPGRADEABLE_NEEDS_BASE: &'static str =
    "Must specify a base token type (--oz-erc20, --oz-erc721, or --oz-erc1155) when using --upgradeable";

/// What is reported where an upgradeable contract was asked for in
/// Rust/Stylus.
pub const UPGRADEABLE_UNSUPPORTED: &'static str =
    "Upgradeable contracts are not yet supported for Rust/Stylus. OpenZeppelin Stylus library doesn't include upgradeable patterns yet.";

/// What is reported where extensions were asked for without a token
/// standard.
pub const EXTENSIONS_NEED_BASE: &'static str =
    "Must specify a base token type (--oz-erc20, --oz-erc721, or --oz-erc1155) when using --extensions";

/// The message about an extension that does not go with a base type. It
/// names both.
pub open spec fn incompatible_message(extension: TokenExtension, base: ContractView) -> Seq<char> {
    "Extension "@ + extension.name_text() + " is not compatible with base type "@
        + base.debug_text()
}

/// Whether the first `n` extensions go with `base`: the error names the
/// first that does not.
pub open spec fn compatibility_prefix(
    base: ContractView,
    extensions: Seq<TokenExtension>,
    n: nat,
) -> Result<(), ErrorView>
    decreases n,
{
    if n == 0 || n > extensions.len() {
        Ok(())
    } else {
        match compatibility_prefix(base, extensions, (n - 1) as nat) {
            Err(error) => Err(error),
            Ok(()) => if extensions[n - 1].compatible_with(base) {
                Ok(())
            } else {
                Err(ErrorView::Other(incompatible_message(extensions[n - 1], base)))
            },
        }
    }
}

/// Whether all of `extensions` go with `base`.
pub open spec fn compatibility(base: ContractView, extensions: Seq<TokenExtension>) -> Result<
    (),
    ErrorView,
> {
    compatibility_prefix(base, extensions, extensions.len())
}

/// How many of the three flags are set.
pub open spec fn flags_set(oz_erc20: bool, oz_erc721: bool, oz_erc1155: bool) -> nat {
    (if oz_erc20 {
        1nat
    } else {
        0nat
    }) + (if oz_erc721 {
        1nat
    } else {
        0nat
    }) + (if oz_erc1155 {
        1nat
    } else {
        0nat
    })
}

/// The tag chosen by the flags, where at most one standard is set.
pub open spec fn base_tag(
    oz_erc20: bool,
    oz_erc721: bool,
    oz_erc1155: bool,
    upgradeable: bool,
) -> ContractView {
    if oz_erc20 {
        if upgradeable {
            ContractView::ERC20Upgradeable
        } else {
            ContractView::ERC20
        }
    } else if oz_erc721 {
        if upgradeable {
            ContractView::ERC721Upgradeable
        } else {
            ContractView::ERC721
        }
    } else if oz_erc1155 {
        if upgradeable {
            ContractView::ERC1155Upgradeable
        } else {
            ContractView::ERC1155
        }
    } else {
        ContractView::Basic
    }
}

/// The contract type a request resolves to, or the first rule it breaks.
/// The rules, in order: at most one token standard; an upgradeable
/// contract needs a standard; Rust/Stylus has no upgradeable contracts;
/// extensions need a standard; every extension name is in the catalog;
/// every extension goes with the standard. Without extensions the result is
/// the tag of the standard, or the basic contract; with extensions it is the
/// composite of the tag and the extensions as converted for it.
pub open spec fn resolution(
    oz_erc20: bool,
    oz_erc721: bool,
    oz_erc1155: bool,
    upgradeable: bool,
    names: Seq<Seq<char>>,
    language: Language,
) -> Result<ContractView, ErrorView> {
    let count = flags_set(oz_erc20, oz_erc721, oz_erc1155);
    let base = base_tag(oz_erc20, oz_erc721, oz_erc1155, upgradeable);
    if count > 1 {
        Err(ErrorView::Other(MULTIPLE_BASES@))
    } else if upgradeable && count == 0 {
        Err(ErrorView::Other(UPGRADEABLE_NEEDS_BASE@))
    } else if upgradeable && language == Language::RustStylus {
        Err(ErrorView::Other(UPGRADEABLE_UNSUPPORTED@))
    } else if names.len() > 0 && count == 0 {
        Err(ErrorView::Other(EXTENSIONS_NEED_BASE@))
    } else {
        match parsed(names) {
            Err(error) => Err(error),
            Ok(list) => if list.len() == 0 {
                Ok(base)
            } else {
                match compatibility(base, list) {
                    Err(error) => Err(error),
                    Ok(()) => Ok(
                        ContractView::MultiInheritance {
                            base_type: Box::new(base),
                            extensions: effective_extensions(base, list),
                        },
                    ),
                }
            },
        }
    }
}

/// Checks that each of `extensions` goes with `base_type`: it is defined
/// for the base's standard or has a counterpart there. The error names the
/// first extension that does not, and the base.
pub fn validate_extensions_compatibility(
    base_type: &ContractType,
    extensions: &[TokenExtension],
) -> (r: Result<(), NothungError>)
    ensures
        match r {
            Ok(()) => compatibility(base_type@, extensions@) == Ok::<(), ErrorView>(()),
            Err(error) => compatibility(base_type@, extensions@) == Err::<(), ErrorView>(error@),
        },
{
    let mut i: usize = 0;
    while i < extensions.len()
        invariant
            i <= extensions.len(),
            compatibility_prefix(base_type@, extensions@, i as nat) == Ok::<(), ErrorView>(()),
        decreases extensions.len() - i,
    {
        if !extensions[i].is_compatible_with(base_type) {
            let base = base_type.debug_string();
            let mut message = String::from_str("Extension ");
            message.append(extensions[i].name());
            message.append(" is not compatible with base type ");
            message.append(base.as_str());
            proof {
                lemma_incompatibility_is_final(
                    base_type@,
                    extensions@,
                    (i + 1) as nat,
                    extensions@.len(),
                );
            }
            return Err(NothungError::Other(message));
        }
        i = i + 1;
    }
    Ok(())
}

/// Once a prefix of the extensions holds one that does not go with the
/// base, every longer prefix fails with the same error.
pub proof fn lemma_incompatibility_is_final(
    base: ContractView,
    extensions: Seq<TokenExtension>,
    n: nat,
    m: nat,
)
    requires
        n <= m <= extensions.len(),
        compatibility_prefix(base, extensions, n) is Err,
    ensures
        compatibility_prefix(base, extensions, m) == compatibility_prefix(base, extensions, n),
    decreases m,
{
    if n < m {
        lemma_incompatibility_is_final(base, extensions, n, (m - 1) as nat);
    }
}

/// Resolves a request to the contract type that is generated, or reports
/// the first rule the request breaks.
pub fn determine_contract_type(
    oz_erc20: bool,
    oz_erc721: bool,
    oz_erc1155: bool,
    upgradeable: bool,
    extensions: &[String],
    language: &Language,
) -> (r: Result<ContractType, NothungError>)
    ensures
        match r {
            Ok(contract) => resolution(
                oz_erc20,
                oz_erc721,
                oz_erc1155,
                upgradeable,
                texts(extensions@),
                *language,
            ) == Ok::<ContractView, ErrorView>(contract@),
            Err(error) => resolution(
                oz_erc20,
                oz_erc721,
                oz_erc1155,
                upgradeable,
                texts(extensions@),
                *language,
            ) == Err::<ContractView, ErrorView>(error@),
        },
{
    let mut base_count: u8 = 0;
    if oz_erc20 {
        base_count = base_count + 1;
    }
    if oz_erc721 {
        base_count = base_count + 1;
    }
    if oz_erc1155 {
        base_count = base_count + 1;
    }
    if base_count > 1 {
        return Err(NothungError::other(MULTIPLE_BASES));
    }
    if upgradeable && base_count == 0 {
        return Err(NothungError::other(UPGRADEABLE_NEEDS_BASE));
    }
    if upgradeable && *language == Language::RustStylus {
        return Err(NothungError::other(UPGRADEABLE_UNSUPPORTED));
    }
    if extensions.len() > 0 && base_count == 0 {
        return Err(NothungError::other(EXTENSIONS_NEED_BASE));
    }
    let parsed_extensions = match parse_extensions(extensions) {
        Ok(list) => list,
        Err(error) => {
            return Err(error);
        },
    };
    let base_type = match (oz_erc20, oz_erc721, oz_erc1155, upgradeable) {
        (true, _, _, false) => ContractType::ERC20,
        (true, _, _, true) => ContractType::ERC20Upgradeable,
        (false, true, _, false) => ContractType::ERC721,
        (false, true, _, true) => ContractType::ERC721Upgradeable,
        (false, false, true, false) => ContractType::ERC1155,
        (false, false, true, true) => ContractType::ERC1155Upgradeable,
        (false, false, false, _) => ContractType::Basic,
    };
    if parsed_extensions.len() == 0 {
        Ok(base_type)
    } else {
        match validate_extensions_compatibility(&base_type, parsed_extensions.as_slice()) {
            Ok(()) => {},
            Err(error) => {
                return Err(error);
            },
        }
        let effective = convert_extensions(&base_type, parsed_extensions.as_slice());
        Ok(ContractType::MultiInheritance { base_type: Box::new(base_type), extensions: effective })
    }
}

/// What is reported for a library with flags that only a contract takes.
pub const LIBRARY_FLAGS: &'static str =
    "Library generation doesn't support contract-specific flags";

/// What is reported for a script with flags that only a contract takes.
pub const SCRIPT_FLAGS: &'static str = "Script generation doesn't support contract-specific flags";

/// What is reported for a test with flags that only a contract takes.
pub const TEST_FLAGS: &'static str = "Test generation doesn't support contract-specific flags";

/// What is reported for an interface with flags that only a contract takes.
pub const INTERFACE_FLAGS: &'static str =
    "Interface generation doesn't support contract-specific flags";

/// What is reported for an abstract contract with flags that only a
/// contract takes.
pub const ABSTRACT_FLAGS: &'static str =
    "Abstract contract generation doesn't support contract-specific flags (except --with-section-markers)";

/// What is reported for a configuration file with flags that only a
/// contract takes.
pub const CONFIG_FLAGS: &'static str = "Config generation doesn't support contract-specific flags";

/// What is reported for a standalone script in Rust/Stylus.
pub const SCRIPT_IN_STYLUS: &'static str =
    "Script generation is not supported for Rust/Stylus projects";

/// What is reported for a standalone test in Rust/Stylus.
pub const TEST_IN_STYLUS: &'static str = "Test generation is not supported for Rust/Stylus projects";

/// What is reported for a standalone script outside a Foundry project.
pub const SCRIPT_NEEDS_FOUNDRY: &'static str =
    "Script generation is only supported for Foundry projects";

/// What is reported for a standalone test outside a Foundry project.
pub const TEST_NEEDS_FOUNDRY: &'static str =
    "Test generation is only supported for Foundry projects";

/// How the message about an unknown kind of resource starts.
pub const UNSUPPORTED_RESOURCE: &'static str = "Unsupported resource type: ";

/// How the message about an unknown kind of resource ends.
pub const SUPPORTED_RESOURCES: &'static str =
    ". Supported types: contract, library, script, test, interface, abstract, config";

/// Whether a flag is set that says something about a contract: a token
/// standard, upgradeability, extensions, or a test or script to go with it.
pub open spec fn contract_flags(
    oz_erc20: bool,
    oz_erc721: bool,
    oz_erc1155: bool,
    upgradeable: bool,
    extensions: nat,
    with_test: bool,
    with_script: bool,
) -> bool {
    oz_erc20 || oz_erc721 || oz_erc1155 || upgradeable || extensions > 0 || with_test
        || with_script
}

/// What a request for a new resource comes to in `project`, over what was
/// seen of it. The language is settled first; then the kind of resource
/// decides. Only a contract takes the flags of a contract; scripts and
/// tests exist in Solidity and in Foundry projects alone; an unknown kind of
/// resource is an error that lists the kinds.
pub open spec fn new_resource_plan(
    kind: Seq<char>,
    name: Seq<char>,
    solidity: bool,
    rust_stylus: bool,
    oz_erc20: bool,
    oz_erc721: bool,
    oz_erc1155: bool,
    upgradeable: bool,
    extensions: Seq<Seq<char>>,
    with_test: bool,
    with_script: bool,
    pragma: Seq<char>,
    license: Seq<char>,
    with_section_markers: bool,
    project: ProjectType,
    seen: SnapshotView,
) -> PlanView {
    let flags = contract_flags(
        oz_erc20,
        oz_erc721,
        oz_erc1155,
        upgradeable,
        extensions.len(),
        with_test,
        with_script,
    );
    match Language::chosen(solidity, rust_stylus) {
        Err(error) => PlanView::refused(error),
        Ok(language) => if kind == "contract"@ {
            match resolution(
                oz_erc20,
                oz_erc721,
                oz_erc1155,
                upgradeable,
                extensions,
                language,
            ) {
                Err(error) => PlanView::refused(error),
                Ok(contract) => contract_plan(
                    project,
                    language,
                    name,
                    contract,
                    with_test,
                    with_script,
                    Some(pragma),
                    Some(license),
                    seen,
                ),
            }
        } else if kind == "library"@ {
            if flags || with_section_markers {
                PlanView::refused(ErrorView::Other(LIBRARY_FLAGS@))
            } else {
                library_plan(
                    project,
                    language,
                    name,
                    Some(pragma),
                    Some(license),
                    seen,
                )
            }
        } else if kind == "script"@ {
            if language == Language::RustStylus {
                PlanView::refused(ErrorView::Other(SCRIPT_IN_STYLUS@))
            } else if flags || with_section_markers {
                PlanView::refused(ErrorView::Other(SCRIPT_FLAGS@))
            } else {
                match project {
                    ProjectType::Foundry(foundry) => script_plan(
                        foundry,
                        name,
                        pragma,
                        license,
                        seen,
                    ),
                    ProjectType::Cargo(_) => PlanView::refused(
                        ErrorView::Other(SCRIPT_NEEDS_FOUNDRY@),
                    ),
                }
            }
        } else if kind == "test"@ {
            if language == Language::RustStylus {
                PlanView::refused(ErrorView::Other(TEST_IN_STYLUS@))
            } else if flags || with_section_markers {
                PlanView::refused(ErrorView::Other(TEST_FLAGS@))
            } else {
                match project {
                    ProjectType::Foundry(foundry) => test_plan(
                        foundry,
                        name,
                        pragma,
                        license,
                        seen,
                    ),
                    ProjectType::Cargo(_) => PlanView::refused(
                        ErrorView::Other(TEST_NEEDS_FOUNDRY@),
                    ),
                }
            }
        } else if kind == "interface"@ {
            if flags || with_section_markers {
                PlanView::refused(ErrorView::Other(INTERFACE_FLAGS@))
            } else {
                interface_plan(
                    project,
                    language,
                    name,
                    Some(pragma),
                    Some(license),
                    seen,
                )
            }
        } else if kind == "abstract"@ {
            if flags {
                PlanView::refused(ErrorView::Other(ABSTRACT_FLAGS@))
            } else {
                abstract_contract_plan(
                    project,
                    language,
                    name,
                    Some(pragma),
                    Some(license),
                    seen,
                )
            }
        } else if kind == "config"@ {
            if flags || with_section_markers {
                PlanView::refused(ErrorView::Other(CONFIG_FLAGS@))
            } else {
                PlanView::refused(ErrorView::Other(config_message(name)))
            }
        } else {
            PlanView::refused(
                ErrorView::Other(UNSUPPORTED_RESOURCE@ + kind + SUPPORTED_RESOURCES@),
            )
        },
    }
}

/// Plans what the command `new` does in `project`, over what was seen of
/// the project: the generation of the resource `name` of the kind
/// `resource_type`, as the flags describe it.
pub fn execute_new(
    resource_type: &str,
    name: String,
    solidity: bool,
    rust_stylus: bool,
    oz_erc20: bool,
    oz_erc721: bool,
    oz_erc1155: bool,
    upgradeable: bool,
    extensions: Vec<String>,
    with_test: bool,
    with_script: bool,
    pragma: String,
    license: String,
    with_section_markers: bool,
    project: ProjectType,
    seen: &Snapshot,
) -> (r: Plan)
    ensures
        r@ == new_resource_plan(
            resource_type@,
            name@,
            solidity,
            rust_stylus,
            oz_erc20,
            oz_erc721,
            oz_erc1155,
            upgradeable,
            texts(extensions@),
            with_test,
            with_script,
            pragma@,
            license@,
            with_section_markers,
            project,
            seen@,
        ),
{
    let language = match Language::from_flags(solidity, rust_stylus) {
        Ok(language) => language,
        Err(error) => {
            return Plan::refused(error);
        },
    };
    let flags = oz_erc20 || oz_erc721 || oz_erc1155 || upgradeable || extensions.len() > 0
        || with_test || with_script;
    let markers = with_section_markers;
    let kind = resource_type;
    if same_text(kind, "contract") {
        let contract_type = match determine_contract_type(
            oz_erc20,
            oz_erc721,
            oz_erc1155,
            upgradeable,
            extensions.as_slice(),
            &language,
        ) {
            Ok(contract_type) => contract_type,
            Err(error) => {
                return Plan::refused(error);
            },
        };
        let generator = GenericContractGenerator::new(
            project,
            language,
            name,
            contract_type,
            with_test,
            with_script,
            Some(pragma),
            Some(license),
        );
        generator.generate(seen)
    } else if same_text(kind, "library") {
        if flags || markers {
            return Plan::refused(NothungError::other(LIBRARY_FLAGS));
        }
        let generator = LibraryGenerator::new(
            project,
            language,
            name,
            Some(pragma),
            Some(license),
        );
        generator.generate(seen)
    } else if same_text(kind, "script") {
        if rust_stylus {
            return Plan::refused(NothungError::other(SCRIPT_IN_STYLUS));
        }
        if flags || markers {
            return Plan::refused(NothungError::other(SCRIPT_FLAGS));
        }
        match project {
            ProjectType::Foundry(foundry) => {
                let generator = ScriptGenerator::new(
                    foundry,
                    name,
                    pragma,
                    license,
                );
                generator.generate(seen)
            },
            ProjectType::Cargo(_) => Plan::refused(NothungError::other(SCRIPT_NEEDS_FOUNDRY)),
        }
    } else if same_text(kind, "test") {
        if rust_stylus {
            return Plan::refused(NothungError::other(TEST_IN_STYLUS));
        }
        if flags || markers {
            return Plan::refused(NothungError::other(TEST_FLAGS));
        }
        match project {
            ProjectType::Foundry(foundry) => {
                let generator = TestGenerator::new(
                    foundry,
                    name,
                    pragma,
                    license,
                );
                generator.generate(seen)
            },
            ProjectType::Cargo(_) => Plan::refused(NothungError::other(TEST_NEEDS_FOUNDRY)),
        }
    } else if same_text(kind, "interface") {
        if flags || markers {
            return Plan::refused(NothungError::other(INTERFACE_FLAGS));
        }
        let generator = InterfaceGenerator::new(
            project,
            language,
            name,
            Some(pragma),
            Some(license),
        );
        generator.generate(seen)
    } else if same_text(kind, "abstract") {
        if flags {
            return Plan::refused(NothungError::other(ABSTRACT_FLAGS));
        }
        let generator = AbstractContractGenerator::new(
            project,
            language,
            name,
            Some(pragma),
            Some(license),
        );
        generator.generate(seen)
    } else if same_text(kind, "config") {
        if flags || markers {
            return Plan::refused(NothungError::other(CONFIG_FLAGS));
        }
        let generator = ConfigGenerator::new(project, language, name);
        generator.generate()
    } else {
        let mut message = String::from_str(UNSUPPORTED_RESOURCE);
        message.append(kind);
        message.append(SUPPORTED_RESOURCES);
        Plan::refused(NothungError::Other(message))
    }
}

/// An upgradeable contract in Rust/Stylus is rejected whatever the other
/// flags and extensions are.
pub proof fn lemma_upgradeable_stylus_is_rejected(
    oz_erc20: bool,
    oz_erc721: bool,
    oz_erc1155: bool,
    names: Seq<Seq<char>>,
)
    ensures
        resolution(oz_erc20, oz_erc721, oz_erc1155, true, names, Language::RustStylus) is Err,
{
}

/// A check of extensions against a base fails exactly when one of them does
/// not go with the base, and then with the message about the first such
/// extension.
pub proof fn lemma_incompatible_pairs_are_rejected(
    base: ContractView,
    extensions: Seq<TokenExtension>,
    n: nat,
)
    requires
        n <= extensions.len(),
    ensures
        match compatibility_prefix(base, extensions, n) {
            Ok(()) => forall|i: int| 0 <= i < n ==> (#[trigger] extensions[i]).compatible_with(base),
            Err(error) => exists|i: int|
                0 <= i < n && !(#[trigger] extensions[i]).compatible_with(base) && error
                    == ErrorView::Other(incompatible_message(extensions[i], base)) && forall|j: int|
                    0 <= j < i ==> (#[trigger] extensions[j]).compatible_with(base),
        },
    decreases n,
{
    if n > 0 {
        lemma_incompatible_pairs_are_rejected(base, extensions, (n - 1) as nat);
        match compatibility_prefix(base, extensions, (n - 1) as nat) {
            Ok(()) => {
                if !extensions[n - 1].compatible_with(base) {
                    let i = n - 1;
                    assert(!extensions[i].compatible_with(base));
                }
            },
            Err(error) => {},
        }
    }
}

/// What a request resolves to is well formed: the base of a composite is
/// one of the six standard tags, its extension list is not empty, and each
/// extension in it belongs to the base's standard.
pub proof fn lemma_resolution_is_well_formed(
    oz_erc20: bool,
    oz_erc721: bool,
    oz_erc1155: bool,
    upgradeable: bool,
    names: Seq<Seq<char>>,
    language: Language,
)
    ensures
        match resolution(oz_erc20, oz_erc721, oz_erc1155, upgradeable, names, language) {
            Ok(contract) => contract.well_formed(),
            Err(_) => true,
        },
{
    let base = base_tag(oz_erc20, oz_erc721, oz_erc1155, upgradeable);
    match resolution(oz_erc20, oz_erc721, oz_erc1155, upgradeable, names, language) {
        Ok(ContractView::MultiInheritance { base_type, extensions }) => {
            let list = parsed(names)->Ok_0;
            lemma_incompatible_pairs_are_rejected(base, list, list.len());
            assert forall|i: int| 0 <= i < extensions.len() implies (
            #[trigger] extensions[i]).native_standard() == base_type.standard()->0 by {
                assert(list[i].compatible_with(base));
            }
        },
        _ => {},
    }
}

} // verus!
