//! What can be generated: the contract types, the token extensions, and the
//! relation that says which extension goes with which token standard.

use crate::text::{join, joined, texts};
use vstd::prelude::*;
use vstd::string::*;

pub mod solidity;
pub mod stylus;

pub use solidity::SolidityTemplate;
pub use stylus::StylusTemplate;

verus! {

/// One of the three token standards a contract can be built on.
#[derive(Clone, Copy, Debug, PartialEq, Eq, Structural)]
pub enum Standard {
    /// The fungible token standard.
    ERC20,
    /// The non-fungible token standard.
    ERC721,
    /// The multi-token standard.
    ERC1155,
}

/// An optional feature of a token contract. Each extension is defined
/// against one token standard.
#[derive(Clone, Copy, Debug, PartialEq, Eq, Structural)]
pub enum TokenExtension {
    ERC20Permit,
    ERC20Burnable,
    ERC20Capped,
    ERC20Pausable,
    ERC20Votes,
    ERC20Wrapper,
    ERC20FlashMint,
    ERC20TemporaryApproval,
    ERC20Bridgeable,
    ERC1363,
    ERC4626,
    ERC721Pausable,
    ERC721Burnable,
    ERC721Consecutive,
    ERC721URIStorage,
    ERC721Votes,
    ERC721Royalty,
    ERC721Wrapper,
    ERC721Enumerable,
    ERC1155Pausable,
    ERC1155Burnable,
    ERC1155Supply,
    ERC1155URIStorage,
}

/// What is being generated.
#[derive(Debug, PartialEq)]
pub enum ContractType {
    /// A contract without inheritance.
    Basic,
    ERC20,
    ERC721,
    ERC1155,
    ERC20Upgradeable,
    ERC721Upgradeable,
    ERC1155Upgradeable,
    /// A standalone interface.
    Interface,
    /// A standalone abstract contract.
    Abstract,
    /// A token standard together with extensions, in the order requested.
    MultiInheritance { base_type: Box<ContractType>, extensions: Vec<TokenExtension> },
}

/// The mathematical value of a [`ContractType`]: the same shape, with the
/// extension list as a sequence.
pub enum ContractView {
    Basic,
    ERC20,
    ERC721,
    ERC1155,
    ERC20Upgradeable,
    ERC721Upgradeable,
    ERC1155Upgradeable,
    Interface,
    Abstract,
    MultiInheritance { base_type: Box<ContractView>, extensions: Seq<TokenExtension> },
}

/// The value of `t`, read off variant by variant.
pub open spec fn contract_view(t: ContractType) -> ContractView
    decreases t,
{
    match t {
        ContractType::Basic => ContractView::Basic,
        ContractType::ERC20 => ContractView::ERC20,
        ContractType::ERC721 => ContractView::ERC721,
        ContractType::ERC1155 => ContractView::ERC1155,
        ContractType::ERC20Upgradeable => ContractView::ERC20Upgradeable,
        ContractType::ERC721Upgradeable => ContractView::ERC721Upgradeable,
        ContractType::ERC1155Upgradeable => ContractView::ERC1155Upgradeable,
        ContractType::Interface => ContractView::Interface,
        ContractType::Abstract => ContractView::Abstract,
        ContractType::MultiInheritance { base_type, extensions } => {
            ContractView::MultiInheritance {
                base_type: Box::new(contract_view(*base_type)),
                extensions: extensions@,
            }
        },
    }
}

impl View for ContractType {
    type V = ContractView;

    open spec fn view(&self) -> ContractView {
        contract_view(*self)
    }
}

impl ContractView {
    /// The token standard of one of the six standard tags, plain or
    /// upgradeable; nothing for any other type.
    pub open spec fn standard(self) -> Option<Standard> {
        match self {
            ContractView::ERC20 | ContractView::ERC20Upgradeable => Some(Standard::ERC20),
            ContractView::ERC721 | ContractView::ERC721Upgradeable => Some(Standard::ERC721),
            ContractView::ERC1155 | ContractView::ERC1155Upgradeable => Some(Standard::ERC1155),
            _ => None,
        }
    }

    /// Whether this is one of the three upgradeable tags.
    pub open spec fn upgradeable(self) -> bool {
        self is ERC20Upgradeable || self is ERC721Upgradeable || self is ERC1155Upgradeable
    }

    /// The standard the contract rests on: its own for a standard tag, that
    /// of the base for a composite, nothing otherwise.
    pub open spec fn effective_standard(self) -> Option<Standard> {
        match self {
            ContractView::MultiInheritance { base_type, .. } => base_type.standard(),
            _ => self.standard(),
        }
    }

    /// Whether the contract rests on an upgradeable tag, directly or as the
    /// base of a composite.
    pub open spec fn effective_upgradeable(self) -> bool {
        match self {
            ContractView::MultiInheritance { base_type, .. } => base_type.upgradeable(),
            _ => self.upgradeable(),
        }
    }

    /// The name of a tag, as `Debug` prints it; for a composite, its
    /// fields in braces, as `Debug` prints a variant with named fields.
    pub open spec fn debug_text(self) -> Seq<char>
        decreases self,
    {
        match self {
            ContractView::Basic => "Basic"@,
            ContractView::ERC20 => "ERC20"@,
            ContractView::ERC721 => "ERC721"@,
            ContractView::ERC1155 => "ERC1155"@,
            ContractView::ERC20Upgradeable => "ERC20Upgradeable"@,
            ContractView::ERC721Upgradeable => "ERC721Upgradeable"@,
            ContractView::ERC1155Upgradeable => "ERC1155Upgradeable"@,
            ContractView::Interface => "Interface"@,
            ContractView::Abstract => "Abstract"@,
            ContractView::MultiInheritance { base_type, extensions } => {
                "MultiInheritance { base_type: "@ + base_type.debug_text() + ", extensions: ["@
                    + joined(extension_names(extensions), ", "@) + "] }"@
            },
        }
    }

    /// The invariant of a request that has been validated: the base of a
    /// composite is one of the six standard tags, its extension list is not
    /// empty, and each extension belongs to the base's standard.
    pub open spec fn well_formed(self) -> bool {
        match self {
            ContractView::MultiInheritance { base_type, extensions } => {
                &&& base_type.standard() is Some
                &&& extensions.len() > 0
                &&& forall|i: int|
                    0 <= i < extensions.len() ==> (#[trigger] extensions[i]).native_standard()
                        == base_type.standard()->0
            },
            _ => true,
        }
    }
}

/// The names of `extensions`, in order.
pub open spec fn extension_names(extensions: Seq<TokenExtension>) -> Seq<Seq<char>> {
    Seq::new(extensions.len(), |i: int| extensions[i].name_text())
}

impl TokenExtension {
    /// The standard the extension is defined against.
    pub open spec fn native_standard(self) -> Standard {
        match self {
            TokenExtension::ERC20Permit
            | TokenExtension::ERC20Burnable
            | TokenExtension::ERC20Capped
            | TokenExtension::ERC20Pausable
            | TokenExtension::ERC20Votes
            | TokenExtension::ERC20Wrapper
            | TokenExtension::ERC20FlashMint
            | TokenExtension::ERC20TemporaryApproval
            | TokenExtension::ERC20Bridgeable
            | TokenExtension::ERC1363
            | TokenExtension::ERC4626 => Standard::ERC20,
            TokenExtension::ERC721Pausable
            | TokenExtension::ERC721Burnable
            | TokenExtension::ERC721Consecutive
            | TokenExtension::ERC721URIStorage
            | TokenExtension::ERC721Votes
            | TokenExtension::ERC721Royalty
            | TokenExtension::ERC721Wrapper
            | TokenExtension::ERC721Enumerable => Standard::ERC721,
            TokenExtension::ERC1155Pausable
            | TokenExtension::ERC1155Burnable
            | TokenExtension::ERC1155Supply
            | TokenExtension::ERC1155URIStorage => Standard::ERC1155,
        }
    }

    /// The extension of `target` that stands in for this one when it is
    /// requested against a standard it was not defined for. Only burnable,
    /// pausable, wrapper and URI storage cross standards.
    pub open spec fn counterpart(self, target: Standard) -> Option<TokenExtension> {
        match (target, self) {
            (Standard::ERC721, TokenExtension::ERC20Burnable) => Some(
                TokenExtension::ERC721Burnable,
            ),
            (Standard::ERC1155, TokenExtension::ERC20Burnable) => Some(
                TokenExtension::ERC1155Burnable,
            ),
            (Standard::ERC721, TokenExtension::ERC20Pausable) => Some(
                TokenExtension::ERC721Pausable,
            ),
            (Standard::ERC1155, TokenExtension::ERC20Pausable) => Some(
                TokenExtension::ERC1155Pausable,
            ),
            (Standard::ERC721, TokenExtension::ERC20Wrapper) => Some(TokenExtension::ERC721Wrapper),
            (Standard::ERC1155, TokenExtension::ERC721URIStorage) => Some(
                TokenExtension::ERC1155URIStorage,
            ),
            _ => None,
        }
    }

    /// Whether the extension may be requested against `base`: it is defined
    /// for the base's standard, or has a counterpart there.
    pub open spec fn compatible_with(self, base: ContractView) -> bool {
        match base.standard() {
            Some(standard) => self.native_standard() == standard || self.counterpart(
                standard,
            ) is Some,
            None => false,
        }
    }

    /// The extension that is built when this one is requested against
    /// `base`: its counterpart where it has one, else itself.
    pub open spec fn converted_for(self, base: ContractView) -> TokenExtension {
        match base.standard() {
            Some(standard) => match self.counterpart(standard) {
                Some(other) => other,
                None => self,
            },
            None => self,
        }
    }

    /// The name of the variant, as `Debug` prints it.
    pub open spec fn name_text(self) -> Seq<char> {
        match self {
            TokenExtension::ERC20Permit => "ERC20Permit"@,
            TokenExtension::ERC20Burnable => "ERC20Burnable"@,
            TokenExtension::ERC20Capped => "ERC20Capped"@,
            TokenExtension::ERC20Pausable => "ERC20Pausable"@,
            TokenExtension::ERC20Votes => "ERC20Votes"@,
            TokenExtension::ERC20Wrapper => "ERC20Wrapper"@,
            TokenExtension::ERC20FlashMint => "ERC20FlashMint"@,
            TokenExtension::ERC20TemporaryApproval => "ERC20TemporaryApproval"@,
            TokenExtension::ERC20Bridgeable => "ERC20Bridgeable"@,
            TokenExtension::ERC1363 => "ERC1363"@,
            TokenExtension::ERC4626 => "ERC4626"@,
            TokenExtension::ERC721Pausable => "ERC721Pausable"@,
            TokenExtension::ERC721Burnable => "ERC721Burnable"@,
            TokenExtension::ERC721Consecutive => "ERC721Consecutive"@,
            TokenExtension::ERC721URIStorage => "ERC721URIStorage"@,
            TokenExtension::ERC721Votes => "ERC721Votes"@,
            TokenExtension::ERC721Royalty => "ERC721Royalty"@,
            TokenExtension::ERC721Wrapper => "ERC721Wrapper"@,
            TokenExtension::ERC721Enumerable => "ERC721Enumerable"@,
            TokenExtension::ERC1155Pausable => "ERC1155Pausable"@,
            TokenExtension::ERC1155Burnable => "ERC1155Burnable"@,
            TokenExtension::ERC1155Supply => "ERC1155Supply"@,
            TokenExtension::ERC1155URIStorage => "ERC1155URIStorage"@,
        }
    }

    /// The name of the variant.
    pub fn name(&self) -> (r: &'static str)
        ensures
            r@ == self.name_text(),
    {
        match self {
            TokenExtension::ERC20Permit => "ERC20Permit",
            TokenExtension::ERC20Burnable => "ERC20Burnable",
            TokenExtension::ERC20Capped => "ERC20Capped",
            TokenExtension::ERC20Pausable => "ERC20Pausable",
            TokenExtension::ERC20Votes => "ERC20Votes",
            TokenExtension::ERC20Wrapper => "ERC20Wrapper",
            TokenExtension::ERC20FlashMint => "ERC20FlashMint",
            TokenExtension::ERC20TemporaryApproval => "ERC20TemporaryApproval",
            TokenExtension::ERC20Bridgeable => "ERC20Bridgeable",
            TokenExtension::ERC1363 => "ERC1363",
            TokenExtension::ERC4626 => "ERC4626",
            TokenExtension::ERC721Pausable => "ERC721Pausable",
            TokenExtension::ERC721Burnable => "ERC721Burnable",
            TokenExtension::ERC721Consecutive => "ERC721Consecutive",
            TokenExtension::ERC721URIStorage => "ERC721URIStorage",
            TokenExtension::ERC721Votes => "ERC721Votes",
            TokenExtension::ERC721Royalty => "ERC721Royalty",
            TokenExtension::ERC721Wrapper => "ERC721Wrapper",
            TokenExtension::ERC721Enumerable => "ERC721Enumerable",
            TokenExtension::ERC1155Pausable => "ERC1155Pausable",
            TokenExtension::ERC1155Burnable => "ERC1155Burnable",
            TokenExtension::ERC1155Supply => "ERC1155Supply",
            TokenExtension::ERC1155URIStorage => "ERC1155URIStorage",
        }
    }

    /// Whether the extension may be requested against `base`.
    pub fn is_compatible_with(&self, base: &ContractType) -> (r: bool)
        ensures
            r == self.compatible_with(base@),
    {
        match (base.standard(), self) {
            (None, _) => false,
            (Some(standard), extension) if extension.standard() == standard => true,
            (Some(Standard::ERC721), TokenExtension::ERC20Burnable)
            | (Some(Standard::ERC721), TokenExtension::ERC20Pausable)
            | (Some(Standard::ERC721), TokenExtension::ERC20Wrapper)
            | (Some(Standard::ERC1155), TokenExtension::ERC20Burnable)
            | (Some(Standard::ERC1155), TokenExtension::ERC20Pausable)
            | (Some(Standard::ERC1155), TokenExtension::ERC721URIStorage) => true,
            _ => false,
        }
    }

    /// The standard the extension is defined against.
    pub fn standard(&self) -> (r: Standard)
        ensures
            r == self.native_standard(),
    {
        match self {
            TokenExtension::ERC20Permit
            | TokenExtension::ERC20Burnable
            | TokenExtension::ERC20Capped
            | TokenExtension::ERC20Pausable
            | TokenExtension::ERC20Votes
            | TokenExtension::ERC20Wrapper
            | TokenExtension::ERC20FlashMint
            | TokenExtension::ERC20TemporaryApproval
            | TokenExtension::ERC20Bridgeable
            | TokenExtension::ERC1363
            | TokenExtension::ERC4626 => Standard::ERC20,
            TokenExtension::ERC721Pausable
            | TokenExtension::ERC721Burnable
            | TokenExtension::ERC721Consecutive
            | TokenExtension::ERC721URIStorage
            | TokenExtension::ERC721Votes
            | TokenExtension::ERC721Royalty
            | TokenExtension::ERC721Wrapper
            | TokenExtension::ERC721Enumerable => Standard::ERC721,
            TokenExtension::ERC1155Pausable
            | TokenExtension::ERC1155Burnable
            | TokenExtension::ERC1155Supply
            | TokenExtension::ERC1155URIStorage => Standard::ERC1155,
        }
    }
}

impl ContractType {
    /// The token standard of one of the six standard tags.
    pub fn standard(&self) -> (r: Option<Standard>)
        ensures
            r == self@.standard(),
    {
        match self {
            ContractType::ERC20 | ContractType::ERC20Upgradeable => Some(Standard::ERC20),
            ContractType::ERC721 | ContractType::ERC721Upgradeable => Some(Standard::ERC721),
            ContractType::ERC1155 | ContractType::ERC1155Upgradeable => Some(Standard::ERC1155),
            _ => None,
        }
    }

    /// Whether this is one of the three upgradeable tags.
    pub fn is_upgradeable(&self) -> (r: bool)
        ensures
            r == self@.upgradeable(),
    {
        match self {
            ContractType::ERC20Upgradeable
            | ContractType::ERC721Upgradeable
            | ContractType::ERC1155Upgradeable => true,
            _ => false,
        }
    }

    /// The standard the contract rests on, looking into a composite.
    pub fn effective_standard(&self) -> (r: Option<Standard>)
        ensures
            r == self@.effective_standard(),
    {
        match self {
            ContractType::MultiInheritance { base_type, .. } => base_type.standard(),
            _ => self.standard(),
        }
    }

    /// Whether the contract rests on an upgradeable tag, looking into a
    /// composite.
    pub fn effective_upgradeable(&self) -> (r: bool)
        ensures
            r == self@.effective_upgradeable(),
    {
        match self {
            ContractType::MultiInheritance { base_type, .. } => base_type.is_upgradeable(),
            _ => self.is_upgradeable(),
        }
    }

    /// The text `Debug` prints for the type.
    pub fn debug_string(&self) -> (r: String)
        ensures
            r@ == self@.debug_text(),
        decreases self,
    {
        match self {
            ContractType::Basic => String::from_str("Basic"),
            ContractType::ERC20 => String::from_str("ERC20"),
            ContractType::ERC721 => String::from_str("ERC721"),
            ContractType::ERC1155 => String::from_str("ERC1155"),
            ContractType::ERC20Upgradeable => String::from_str("ERC20Upgradeable"),
            ContractType::ERC721Upgradeable => String::from_str("ERC721Upgradeable"),
            ContractType::ERC1155Upgradeable => String::from_str("ERC1155Upgradeable"),
            ContractType::Interface => String::from_str("Interface"),
            ContractType::Abstract => String::from_str("Abstract"),
            ContractType::MultiInheritance { base_type, extensions } => {
                let base = base_type.debug_string();
                let mut names: Vec<String> = Vec::new();
                let mut i: usize = 0;
                while i < extensions.len()
                    invariant
                        i <= extensions.len(),
                        texts(names@) == extension_names(extensions@).take(i as int),
                    decreases extensions.len() - i,
                {
                    let ghost before = texts(names@);
                    names.push(String::from_str(extensions[i].name()));
                    assert(texts(names@) == before.push(extensions@[i as int].name_text()));
                    i = i + 1;
                }
                assert(texts(names@) == extension_names(extensions@));
                let list = join(&names, ", ");
                let mut out = String::from_str("MultiInheritance { base_type: ");
                out.append(base.as_str());
                out.append(", extensions: [");
                out.append(list.as_str());
                out.append("] }");
                out
            },
        }
    }

    /// A copy with the same value.
    pub fn duplicate(&self) -> (r: ContractType)
        ensures
            r@ == self@,
        decreases self,
    {
        match self {
            ContractType::Basic => ContractType::Basic,
            ContractType::ERC20 => ContractType::ERC20,
            ContractType::ERC721 => ContractType::ERC721,
            ContractType::ERC1155 => ContractType::ERC1155,
            ContractType::ERC20Upgradeable => ContractType::ERC20Upgradeable,
            ContractType::ERC721Upgradeable => ContractType::ERC721Upgradeable,
            ContractType::ERC1155Upgradeable => ContractType::ERC1155Upgradeable,
            ContractType::Interface => ContractType::Interface,
            ContractType::Abstract => ContractType::Abstract,
            ContractType::MultiInheritance { base_type, extensions } => {
                let base = base_type.duplicate();
                let mut list: Vec<TokenExtension> = Vec::new();
                let mut i: usize = 0;
                while i < extensions.len()
                    invariant
                        i <= extensions.len(),
                        list@ == extensions@.take(i as int),
                    decreases extensions.len() - i,
                {
                    list.push(extensions[i]);
                    i = i + 1;
                }
                assert(list@ == extensions@);
                ContractType::MultiInheritance { base_type: Box::new(base), extensions: list }
            },
        }
    }
}

impl Clone for ContractType {
    fn clone(&self) -> (r: ContractType)
        ensures
            r@ == self@,
    {
        self.duplicate()
    }
}

/// Converts `extension` for `base`: a burnable, pausable, wrapper or URI
/// storage extension requested against another standard becomes that
/// standard's own; every other extension is handed back as it is.
pub fn convert_extension_for_base_type(base: &ContractType, extension: &TokenExtension) -> (r:
    TokenExtension)
    ensures
        r == extension.converted_for(base@),
{
    match (base, extension) {
        (
            ContractType::ERC721 | ContractType::ERC721Upgradeable,
            TokenExtension::ERC20Burnable,
        ) => TokenExtension::ERC721Burnable,
        (
            ContractType::ERC1155 | ContractType::ERC1155Upgradeable,
            TokenExtension::ERC20Burnable,
        ) => TokenExtension::ERC1155Burnable,
        (
            ContractType::ERC721 | ContractType::ERC721Upgradeable,
            TokenExtension::ERC20Pausable,
        ) => TokenExtension::ERC721Pausable,
        (
            ContractType::ERC1155 | ContractType::ERC1155Upgradeable,
            TokenExtension::ERC20Pausable,
        ) => TokenExtension::ERC1155Pausable,
        (
            ContractType::ERC721 | ContractType::ERC721Upgradeable,
            TokenExtension::ERC20Wrapper,
        ) => TokenExtension::ERC721Wrapper,
        (
            ContractType::ERC1155 | ContractType::ERC1155Upgradeable,
            TokenExtension::ERC721URIStorage,
        ) => TokenExtension::ERC1155URIStorage,
        _ => *extension,
    }
}

/// The extensions that are built when `extensions` are requested against
/// `base`, in the same order.
pub open spec fn effective_extensions(base: ContractView, extensions: Seq<TokenExtension>) -> Seq<
    TokenExtension,
> {
    Seq::new(extensions.len(), |i: int| extensions[i].converted_for(base))
}

/// Converts each extension of `extensions` for `base`, keeping the order.
pub fn convert_extensions(base: &ContractType, extensions: &[TokenExtension]) -> (r: Vec<
    TokenExtension,
>)
    ensures
        r@ == effective_extensions(base@, extensions@),
{
    let mut out: Vec<TokenExtension> = Vec::new();
    let mut i: usize = 0;
    while i < extensions.len()
        invariant
            i <= extensions.len(),
            out@ == effective_extensions(base@, extensions@).take(i as int),
        decreases extensions.len() - i,
    {
        out.push(convert_extension_for_base_type(base, &extensions[i]));
        i = i + 1;
    }
    out
}

/// A converted extension is not converted again.
pub proof fn lemma_conversion_is_idempotent(base: ContractView, extension: TokenExtension)
    ensures
        extension.converted_for(base).converted_for(base) == extension.converted_for(base),
{
}

/// Whatever is accepted against a base comes out as an extension of the
/// base's own standard: a request for another standard's extension never
/// reaches the generated contract under its own name.
pub proof fn lemma_conversion_lands_in_base_standard(base: ContractView, extension: TokenExtension)
    requires
        extension.compatible_with(base),
    ensures
        base.standard() == Some(extension.converted_for(base).native_standard()),
        extension.converted_for(base).compatible_with(base),
{
}

/// An extension that already belongs to the base's standard is kept.
pub proof fn lemma_native_extension_is_kept(base: ContractView, extension: TokenExtension)
    requires
        base.standard() == Some(extension.native_standard()),
    ensures
        extension.converted_for(base) == extension,
{
}

/// A source of generated text for one contract.
pub trait Template {
    /// Whether a contract can be generated for the template's contract type.
    spec fn supports_contract(&self) -> bool;

    /// The text of the contract.
    spec fn contract_text(&self) -> Seq<char>;

    /// The text of the test that goes with the contract.
    spec fn test_text(&self) -> Seq<char>;

    /// The text of the deployment script that goes with the contract.
    spec fn script_text(&self) -> Seq<char>;

    /// The text of a standalone library of the template's name.
    spec fn library_text(&self) -> Seq<char>;

    /// The text of a standalone interface of the template's name.
    spec fn interface_text(&self) -> Seq<char>;

    /// The text of a standalone abstract contract of the template's name.
    spec fn abstract_contract_text(&self) -> Seq<char>;

    fn generate_contract(&self) -> (r: String)
        requires
            self.supports_contract(),
        ensures
            r@ == self.contract_text(),
    ;

    fn generate_test(&self) -> (r: String)
        ensures
            r@ == self.test_text(),
    ;

    fn generate_script(&self) -> (r: String)
        ensures
            r@ == self.script_text(),
    ;

    fn generate_library(&self) -> (r: String)
        ensures
            r@ == self.library_text(),
    ;

    fn generate_interface(&self) -> (r: String)
        ensures
            r@ == self.interface_text(),
    ;

    fn generate_abstract_contract(&self) -> (r: String)
        ensures
            r@ == self.abstract_contract_text(),
    ;
}

} // verus!
