//! What the interactive wizard decides between its questions: which
//! choices it offers, what an answer stands for, and what the answers come
//! to once they are all in.

use crate::commands::{SCRIPT_NEEDS_FOUNDRY, TEST_NEEDS_FOUNDRY, UNSUPPORTED_RESOURCE};
use crate::compose::{DEFAULT_LICENSE, DEFAULT_PRAGMA};
use crate::error::{ErrorView, NothungError};
use crate::generators::library::library_plan;
use crate::generators::script::script_plan;
use crate::generators::test::test_plan;
use crate::generators::{
    contract_plan, name_problem, validate_name, GenericContractGenerator, LibraryGenerator,
    ScriptGenerator, TestGenerator,
};
use crate::language::Language;
use crate::plan::{Plan, PlanView, Snapshot, SnapshotView};
use crate::project::ProjectType;
use crate::templates::{ContractType, ContractView, Standard, TokenExtension};
use crate::text::{contains_text, occurs_in, same_text};
use vstd::prelude::*;
use vstd::string::*;

verus! {

/// What is reported where a script or a test is asked for in Rust/Stylus.
pub const SOLIDITY_ONLY: &'static str =
    "Scripts and tests are only supported for Solidity projects";

/// One extension the wizard offers: the short name and what it does.
#[derive(Clone, Copy, Debug, PartialEq, Eq)]
pub struct ExtensionChoice {
    pub name: &'static str,
    pub description: &'static str,
}

/// The answers collected by the wizard.
pub struct WizardState {
    pub resource_type: String,
    pub name: String,
    pub language: Language,
    pub contract_type: Option<ContractType>,
    pub extensions: Vec<TokenExtension>,
    pub with_test: bool,
    pub with_script: bool,
    pub pragma: String,
    pub license: String,
}

/// The extension that a short name stands for when it is chosen for a
/// contract of the given standard. Unlike on the command line, a name
/// stands for the extension of that standard at once.
pub open spec fn choice_for(name: Seq<char>, standard: Standard) -> Option<TokenExtension> {
    match standard {
        Standard::ERC20 => if name == "burnable"@ {
            Some(TokenExtension::ERC20Burnable)
        } else if name == "pausable"@ {
            Some(TokenExtension::ERC20Pausable)
        } else if name == "permit"@ {
            Some(TokenExtension::ERC20Permit)
        } else if name == "capped"@ {
            Some(TokenExtension::ERC20Capped)
        } else if name == "votes"@ {
            Some(TokenExtension::ERC20Votes)
        } else if name == "wrapper"@ {
            Some(TokenExtension::ERC20Wrapper)
        } else if name == "flashmint"@ {
            Some(TokenExtension::ERC20FlashMint)
        } else {
            None
        },
        Standard::ERC721 => if name == "burnable"@ {
            Some(TokenExtension::ERC721Burnable)
        } else if name == "pausable"@ {
            Some(TokenExtension::ERC721Pausable)
        } else if name == "enumerable"@ {
            Some(TokenExtension::ERC721Enumerable)
        } else if name == "uristorage"@ {
            Some(TokenExtension::ERC721URIStorage)
        } else if name == "royalty"@ {
            Some(TokenExtension::ERC721Royalty)
        } else if name == "votes"@ {
            Some(TokenExtension::ERC721Votes)
        } else {
            None
        },
        Standard::ERC1155 => if name == "burnable"@ {
            Some(TokenExtension::ERC1155Burnable)
        } else if name == "pausable"@ {
            Some(TokenExtension::ERC1155Pausable)
        } else if name == "supply"@ {
            Some(TokenExtension::ERC1155Supply)
        } else if name == "uristorage"@ {
            Some(TokenExtension::ERC1155URIStorage)
        } else {
            None
        },
    }
}

/// The extension that the chosen short name stands for on a plain standard
/// tag; nothing for any other base and for a name that is not offered.
pub open spec fn chosen_extension(name: Seq<char>, base: ContractView) -> Option<TokenExtension> {
    match base {
        ContractView::ERC20 => choice_for(name, Standard::ERC20),
        ContractView::ERC721 => choice_for(name, Standard::ERC721),
        ContractView::ERC1155 => choice_for(name, Standard::ERC1155),
        _ => None,
    }
}

/// The extension that the chosen short name stands for on `base_type`.
pub fn parse_extension(name: &str, base_type: &ContractType) -> (r: Option<TokenExtension>)
    ensures
        r == chosen_extension(name@, base_type@),
{
    match base_type {
        ContractType::ERC20 => {
            if same_text(name, "burnable") {
                Some(TokenExtension::ERC20Burnable)
            } else if same_text(name, "pausable") {
                Some(TokenExtension::ERC20Pausable)
            } else if same_text(name, "permit") {
                Some(TokenExtension::ERC20Permit)
            } else if same_text(name, "capped") {
                Some(TokenExtension::ERC20Capped)
            } else if same_text(name, "votes") {
                Some(TokenExtension::ERC20Votes)
            } else if same_text(name, "wrapper") {
                Some(TokenExtension::ERC20Wrapper)
            } else if same_text(name, "flashmint") {
                Some(TokenExtension::ERC20FlashMint)
            } else {
                None
            }
        },
        ContractType::ERC721 => {
            if same_text(name, "burnable") {
                Some(TokenExtension::ERC721Burnable)
            } else if same_text(name, "pausable") {
                Some(TokenExtension::ERC721Pausable)
            } else if same_text(name, "enumerable") {
                Some(TokenExtension::ERC721Enumerable)
            } else if same_text(name, "uristorage") {
                Some(TokenExtension::ERC721URIStorage)
            } else if same_text(name, "royalty") {
                Some(TokenExtension::ERC721Royalty)
            } else if same_text(name, "votes") {
                Some(TokenExtension::ERC721Votes)
            } else {
                None
            }
        },
        ContractType::ERC1155 => {
            if same_text(name, "burnable") {
                Some(TokenExtension::ERC1155Burnable)
            } else if same_text(name, "pausable") {
                Some(TokenExtension::ERC1155Pausable)
            } else if same_text(name, "supply") {
                Some(TokenExtension::ERC1155Supply)
            } else if same_text(name, "uristorage") {
                Some(TokenExtension::ERC1155URIStorage)
            } else {
                None
            }
        },
        _ => None,
    }
}

/// Whatever the wizard lets a user choose for a plain standard tag belongs
/// to that standard, so that no choice is ever converted or refused later.
pub proof fn lemma_choices_are_native(name: Seq<char>, base: ContractView)
    requires
        chosen_extension(name, base) is Some,
    ensures
        base.standard() == Some(chosen_extension(name, base)->0.native_standard()),
        chosen_extension(name, base)->0.compatible_with(base),
        chosen_extension(name, base)->0.converted_for(base) == chosen_extension(name, base)->0,
{
}

/// The short names the wizard offers for a base, in the order shown: a
/// selection for each plain standard tag, none for any other type.
pub open spec fn offered_names(base: ContractView) -> Seq<Seq<char>> {
    match base {
        ContractView::ERC20 => seq![
            "burnable"@,
            "pausable"@,
            "permit"@,
            "capped"@,
            "votes"@,
            "wrapper"@,
            "flashmint"@,
        ],
        ContractView::ERC721 => seq![
            "burnable"@,
            "pausable"@,
            "enumerable"@,
            "uristorage"@,
            "royalty"@,
            "votes"@,
        ],
        ContractView::ERC1155 => seq!["burnable"@, "pausable"@, "supply"@, "uristorage"@],
        _ => Seq::empty(),
    }
}

/// The names of a list of choices, in order.
pub open spec fn choice_names(choices: Seq<ExtensionChoice>) -> Seq<Seq<char>> {
    Seq::new(choices.len(), |i: int| choices[i].name@)
}

/// Every name the wizard offers for a base stands for an extension there.
pub proof fn lemma_offered_names_are_choices(base: ContractView, i: int)
    requires
        0 <= i < offered_names(base).len(),
    ensures
        chosen_extension(offered_names(base)[i], base) is Some,
{
}

/// The extensions the wizard offers for `base_type`, in the order shown,
/// each with a line that says what it does.
pub fn available_extensions(base_type: &ContractType) -> (r: Vec<ExtensionChoice>)
    ensures
        choice_names(r@) == offered_names(base_type@),
{
    let mut choices: Vec<ExtensionChoice> = Vec::new();
    match base_type {
        ContractType::ERC20 => {
            choices.push(
                ExtensionChoice { name: "burnable", description: "Token burning capability" },
            );
            choices.push(
                ExtensionChoice { name: "pausable", description: "Emergency pause functionality" },
            );
            choices.push(
                ExtensionChoice { name: "permit", description: "Gasless approvals (EIP-2612)" },
            );
            choices.push(ExtensionChoice { name: "capped", description: "Maximum supply limit" });
            choices.push(
                ExtensionChoice { name: "votes", description: "On-chain voting & delegation" },
            );
            choices.push(
                ExtensionChoice { name: "wrapper", description: "Wrap other ERC20 tokens" },
            );
            choices.push(ExtensionChoice { name: "flashmint", description: "Flash loan support" });
        },
        ContractType::ERC721 => {
            choices.push(
                ExtensionChoice { name: "burnable", description: "NFT burning capability" },
            );
            choices.push(
                ExtensionChoice { name: "pausable", description: "Emergency pause functionality" },
            );
            choices.push(ExtensionChoice { name: "enumerable", description: "Token enumeration" });
            choices.push(
                ExtensionChoice { name: "uristorage", description: "Dynamic metadata URIs" },
            );
            choices.push(
                ExtensionChoice { name: "royalty", description: "ERC2981 royalty standard" },
            );
            choices.push(ExtensionChoice { name: "votes", description: "NFT-based voting" });
        },
        ContractType::ERC1155 => {
            choices.push(ExtensionChoice { name: "burnable", description: "Multi-token burning" });
            choices.push(
                ExtensionChoice { name: "pausable", description: "Emergency pause functionality" },
            );
            choices.push(ExtensionChoice { name: "supply", description: "Track token supplies" });
            choices.push(
                ExtensionChoice { name: "uristorage", description: "Per-token URI storage" },
            );
        },
        _ => {},
    }
    assert(choice_names(choices@) == offered_names(base_type@));
    choices
}

/// The contract type for a chosen standard: its upgradeable twin where that
/// was asked for. The basic contract has no twin and stays as it is.
pub open spec fn with_upgradeability(base: ContractView, upgradeable: bool) -> ContractView {
    if upgradeable {
        match base {
            ContractView::ERC20 => ContractView::ERC20Upgradeable,
            ContractView::ERC721 => ContractView::ERC721Upgradeable,
            ContractView::ERC1155 => ContractView::ERC1155Upgradeable,
            other => other,
        }
    } else {
        base
    }
}

/// The contract type for the chosen standard `base`, upgradeable or not.
pub fn choose_contract_type(base: ContractType, upgradeable: bool) -> (r: ContractType)
    ensures
        r@ == with_upgradeability(base@, upgradeable),
{
    if upgradeable {
        match base {
            ContractType::ERC20 => ContractType::ERC20Upgradeable,
            ContractType::ERC721 => ContractType::ERC721Upgradeable,
            ContractType::ERC1155 => ContractType::ERC1155Upgradeable,
            other => other,
        }
    } else {
        base
    }
}

/// Whether a failed `forge init` can be tried again with force: the tool
/// complained that the directory is not empty or that something exists.
pub fn init_can_be_forced(stderr: &str) -> (r: bool)
    ensures
        r == (occurs_in(stderr@, "not empty"@) || occurs_in(stderr@, "already exists"@)),
{
    contains_text(stderr, "not empty") || contains_text(stderr, "already exists")
}

/// Checks a name as the wizard does while it is typed.
pub fn check_name(name: &str) -> (r: Result<(), NothungError>)
    ensures
        match r {
            Ok(()) => name_problem("Name"@, name@) is None,
            Err(error) => name_problem("Name"@, name@) == Some(error@->InvalidContractName_0)
                && error@ is InvalidContractName,
        },
{
    validate_name("Name", name)
}

/// The contract type the collected answers come to: the chosen type, or
/// the basic contract where none was chosen, as it is without extensions
/// and as the base of a composite with them.
pub open spec fn answered_contract(
    contract_type: Option<ContractType>,
    extensions: Seq<TokenExtension>,
) -> ContractView {
    let base = match contract_type {
        Some(chosen) => chosen@,
        None => ContractView::Basic,
    };
    if extensions.len() > 0 {
        ContractView::MultiInheritance { base_type: Box::new(base), extensions }
    } else {
        base
    }
}

/// What the collected answers come to in `project`, over what was seen of
/// it. The wizard knows contracts, libraries, scripts and tests.
pub open spec fn wizard_plan(
    state: WizardState,
    project: ProjectType,
    seen: SnapshotView,
) -> PlanView {
    let kind = state.resource_type@;
    if kind == "contract"@ {
        contract_plan(
            project,
            state.language,
            state.name@,
            answered_contract(state.contract_type, state.extensions@),
            state.with_test,
            state.with_script,
            Some(state.pragma@),
            Some(state.license@),
            seen,
        )
    } else if kind == "library"@ {
        library_plan(
            project,
            state.language,
            state.name@,
            Some(state.pragma@),
            Some(state.license@),
            seen,
        )
    } else if kind == "script"@ {
        match project {
            ProjectType::Foundry(foundry) => script_plan(
                foundry,
                state.name@,
                state.pragma@,
                state.license@,
                seen,
            ),
            ProjectType::Cargo(_) => PlanView::refused(ErrorView::Other(SCRIPT_NEEDS_FOUNDRY@)),
        }
    } else if kind == "test"@ {
        match project {
            ProjectType::Foundry(foundry) => test_plan(
                foundry,
                state.name@,
                state.pragma@,
                state.license@,
                seen,
            ),
            ProjectType::Cargo(_) => PlanView::refused(ErrorView::Other(TEST_NEEDS_FOUNDRY@)),
        }
    } else {
        PlanView::refused(ErrorView::Other(UNSUPPORTED_RESOURCE@ + kind))
    }
}

impl WizardState {
    /// The state before the first question: a Solidity resource without
    /// name or kind, with the default compiler version and license.
    pub fn new() -> (r: Self)
        ensures
            r.resource_type@.len() == 0,
            r.name@.len() == 0,
            r.language == Language::Solidity,
            r.contract_type is None,
            r.extensions@.len() == 0,
            !r.with_test,
            !r.with_script,
            r.pragma@ == DEFAULT_PRAGMA@,
            r.license@ == DEFAULT_LICENSE@,
    {
        Self {
            resource_type: String::new(),
            name: String::new(),
            language: Language::Solidity,
            contract_type: None,
            extensions: Vec::new(),
            with_test: false,
            with_script: false,
            pragma: String::from_str(DEFAULT_PRAGMA),
            license: String::from_str(DEFAULT_LICENSE),
        }
    }

    /// Checks that the chosen kind of resource exists in the chosen
    /// language: scripts and tests exist in Solidity alone.
    pub fn configure_script_or_test(&self) -> (r: Result<(), NothungError>)
        ensures
            match r {
                Ok(()) => self.language == Language::Solidity,
                Err(error) => self.language == Language::RustStylus && error@ == ErrorView::Other(
                    SOLIDITY_ONLY@,
                ),
            },
    {
        match self.language {
            Language::RustStylus => Err(NothungError::other(SOLIDITY_ONLY)),
            Language::Solidity => Ok(()),
        }
    }

    /// Plans the generation of what was answered.
    pub fn generate_from_state(self, project: ProjectType, seen: &Snapshot) -> (r: Plan)
        ensures
            r@ == wizard_plan(self, project, seen@),
    {
        let kind = self.resource_type.as_str();
        if same_text(kind, "contract") {
            let base = match self.contract_type {
                Some(chosen) => chosen,
                None => ContractType::Basic,
            };
            let contract_type = if self.extensions.len() > 0 {
                ContractType::MultiInheritance {
                    base_type: Box::new(base),
                    extensions: self.extensions,
                }
            } else {
                base
            };
            let generator = GenericContractGenerator::new(
                project,
                self.language,
                self.name,
                contract_type,
                self.with_test,
                self.with_script,
                Some(self.pragma),
                Some(self.license),
            );
            generator.generate(seen)
        } else if same_text(kind, "library") {
            let generator = LibraryGenerator::new(
                project,
                self.language,
                self.name,
                Some(self.pragma),
                Some(self.license),
            );
            generator.generate(seen)
        } else if same_text(kind, "script") {
            match project {
                ProjectType::Foundry(foundry) => {
                    let generator = ScriptGenerator::new(
                        foundry,
                        self.name,
                        self.pragma,
                        self.license,
                    );
                    generator.generate(seen)
                },
                ProjectType::Cargo(_) => Plan::refused(NothungError::other(SCRIPT_NEEDS_FOUNDRY)),
            }
        } else if same_text(kind, "test") {
            match project {
                ProjectType::Foundry(foundry) => {
                    let generator = TestGenerator::new(
                        foundry,
                        self.name,
                        self.pragma,
                        self.license,
                    );
                    generator.generate(seen)
                },
                ProjectType::Cargo(_) => Plan::refused(NothungError::other(TEST_NEEDS_FOUNDRY)),
            }
        } else {
            let mut message = String::from_str(UNSUPPORTED_RESOURCE);
            message.append(kind);
            Plan::refused(NothungError::Other(message))
        }
    }
}

} // verus!
