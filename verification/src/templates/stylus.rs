//! The Rust/Stylus composer: the text of a contract for the Stylus SDK, and
//! of what stands in for tests, scripts, libraries, interfaces and abstract
//! contracts there.
//!
//! Upgradeable contracts, interfaces and abstract contracts have no contract
//! text in this dialect; [`supported`] says which types have one.

use crate::templates::solidity::{symbol_of, symbol_text};
use crate::templates::{ContractType, ContractView, Standard, Template, TokenExtension};
use crate::text::{
    char_to_lowercase, chars_of, is_uppercase, lowercase_of_char, uppercase_letter,
};
use vstd::prelude::*;
use vstd::string::*;

verus! {

/// The imports of the basic contract, up to the name of the contract.
pub const BASIC_PREAMBLE: &'static str = r#"#![cfg_attr(not(feature = "export-abi"), no_std)]

extern crate alloc;

use stylus_sdk::{prelude::*, msg};
use alloc::string::String;
use alloc::vec::Vec;

/// Entrypoint for the "#;

/// What follows the first mention of the name in the basic contract, up to
/// the storage struct.
pub const BASIC_STORAGE: &'static str = r#" contract
#[entrypoint]
#[storage]
pub struct "#;

/// The storage of the basic contract, up to the implementation block.
pub const BASIC_IMPL: &'static str = r#" {
    owner: StorageAddress,
}

#[public]
impl "#;

/// The rest of the basic contract, after the last name or symbol.
pub const BASIC_BODY: &'static str = r#" {
    /// Constructor
    pub fn init(&mut self) -> Result<(), Vec<u8>> {
        self.owner.set(msg::sender());
        Ok(())
    }
    
    /// Get the owner
    pub fn owner(&self) -> Address {
        self.owner.get()
    }
}
"#;

/// The imports of the fungible token, up to the name of the contract.
pub const ERC20_PREAMBLE: &'static str = r#"#![cfg_attr(not(feature = "export-abi"), no_std)]

extern crate alloc;

use openzeppelin_stylus::{
    token::erc20::{
        Erc20, IErc20, IErc20Metadata,
        extensions::{Burnable, IBurnable},
    },
};
use stylus_sdk::{
    msg,
    prelude::*,
};
use alloc::string::String;

/// "#;

/// What follows the first mention of the name in the fungible token, up to
/// the storage struct.
pub const ERC20_STORAGE: &'static str = r#" ERC20 Token
#[entrypoint]
#[storage]
struct "#;

/// The storage of the fungible token, up to the implementation block.
pub const ERC20_IMPL: &'static str = r#" {
    #[borrow]
    erc20: Erc20,
}

#[public]
#[inherit(Erc20)]
impl "#;

/// What follows the name in the fungible token, up to the name as the
/// initializer stores it.
pub const ERC20_INIT: &'static str = " {\n    /// Initialize the contract with an initial supply\n    pub fn init(&mut self, initial_supply: U256) -> Result<(), Vec<u8>> {\n        self.erc20._metadata.name.set(String::from(\"";

/// What follows the stored name in the fungible token, up to the stored
/// symbol.
pub const ERC20_SYMBOL: &'static str = "\"));\n        self.erc20._metadata.symbol.set(String::from(\"";

/// The rest of the fungible token, after the last name or symbol.
pub const ERC20_BODY: &'static str = r#""));
        
        // Mint initial supply to deployer
        let deployer = msg::sender();
        self.erc20._mint(deployer, initial_supply)?;
        
        Ok(())
    }
    
    /// Mint new tokens
    pub fn mint(&mut self, to: Address, amount: U256) -> Result<(), Vec<u8>> {
        // Add access control as needed
        self.erc20._mint(to, amount)?;
        Ok(())
    }
}
"#;

/// The imports of the non-fungible token, up to the name of the contract.
pub const ERC721_PREAMBLE: &'static str = r#"#![cfg_attr(not(feature = "export-abi"), no_std)]

extern crate alloc;

use openzeppelin_stylus::{
    token::erc721::{
        Erc721, IErc721, IErc721Metadata,
        extensions::{enumerable::{Erc721Enumerable, IErc721Enumerable}},
    },
};
use stylus_sdk::{
    msg,
    prelude::*,
};
use alloc::string::String;

/// "#;

/// What follows the first mention of the name in the non-fungible token, up
/// to the storage struct.
pub const ERC721_STORAGE: &'static str = r#" NFT Collection
#[entrypoint]
#[storage]
struct "#;

/// The storage of the non-fungible token, up to the implementation block.
pub const ERC721_IMPL: &'static str = r#" {
    #[borrow]
    erc721: Erc721,
    #[borrow]
    enumerable: Erc721Enumerable,
    next_token_id: StorageU256,
}

#[public]
#[inherit(Erc721, Erc721Enumerable)]
impl "#;

/// What follows the name in the non-fungible token, up to the name as the
/// initializer stores it.
pub const ERC721_INIT: &'static str = " {\n    /// Initialize the NFT collection\n    pub fn init(&mut self) -> Result<(), Vec<u8>> {\n        self.erc721._metadata.name.set(String::from(\"";

/// What follows the stored name in the non-fungible token, up to the stored
/// symbol.
pub const ERC721_SYMBOL: &'static str = "\"));\n        self.erc721._metadata.symbol.set(String::from(\"";

/// The rest of the non-fungible token, after the last name or symbol.
pub const ERC721_BODY: &'static str = r#""));
        self.next_token_id.set(U256::from(1));
        Ok(())
    }
    
    /// Mint a new NFT
    pub fn mint(&mut self, to: Address) -> Result<U256, Vec<u8>> {
        let token_id = self.next_token_id.get();
        self.erc721._mint(to, token_id)?;
        self.next_token_id.set(token_id + U256::from(1));
        Ok(token_id)
    }
    
    /// Set token URI
    pub fn set_token_uri(&mut self, token_id: U256, uri: String) -> Result<(), Vec<u8>> {
        // Implement URI storage as needed
        Ok(())
    }
}
"#;

/// The imports of the multi-token contract, up to the name of the contract.
pub const ERC1155_PREAMBLE: &'static str = r#"#![cfg_attr(not(feature = "export-abi"), no_std)]

extern crate alloc;

use openzeppelin_stylus::{
    token::erc1155::{
        Erc1155, IErc1155, IErc1155MetadataUri,
        extensions::{supply::{Erc1155Supply, IErc1155Supply}},
    },
};
use stylus_sdk::{
    msg,
    prelude::*,
};
use alloc::string::String;
use alloc::vec::Vec;

/// "#;

/// What follows the first mention of the name in the multi-token contract, up
/// to the storage struct.
pub const ERC1155_STORAGE: &'static str = r#" Multi-Token Contract
#[entrypoint]
#[storage]
struct "#;

/// The storage of the multi-token contract, up to the implementation block.
pub const ERC1155_IMPL: &'static str = r#" {
    #[borrow]
    erc1155: Erc1155,
    #[borrow]
    supply: Erc1155Supply,
}

#[public]
#[inherit(Erc1155, Erc1155Supply)]
impl "#;

/// The rest of the multi-token contract, after the last name or symbol.
pub const ERC1155_BODY: &'static str = r#" {
    /// Initialize the multi-token contract
    pub fn init(&mut self, uri: String) -> Result<(), Vec<u8>> {
        self.erc1155._uri.set(uri);
        Ok(())
    }
    
    /// Mint tokens
    pub fn mint(
        &mut self,
        to: Address,
        id: U256,
        amount: U256,
        data: Vec<u8>,
    ) -> Result<(), Vec<u8>> {
        self.erc1155._mint(to, id, amount, &data)?;
        Ok(())
    }
    
    /// Mint batch of tokens
    pub fn mint_batch(
        &mut self,
        to: Address,
        ids: Vec<U256>,
        amounts: Vec<U256>,
        data: Vec<u8>,
    ) -> Result<(), Vec<u8>> {
        self.erc1155._mint_batch(to, ids, amounts, &data)?;
        Ok(())
    }
}
"#;

/// The imports of the test module, up to the name of the contract.
pub const TEST_PREAMBLE: &'static str = r#"#[cfg(test)]
mod tests {
    use super::*;
    use stylus_sdk::{Address, U256};
    
    #[test]
    fn test_deployment() {
        // Test contract deployment
        let contract = "#;

/// The rest of the test module, after the last name or symbol.
pub const TEST_BODY: &'static str = r#"::default();
        // Add test assertions here
    }
    
    #[test]
    fn test_basic_functionality() {
        // Add functionality tests here
    }
}
"#;

/// The rest of the deployment instructions, after the last name or symbol.
pub const SCRIPT_BODY: &'static str = r#" Deployment Instructions
//
// 1. Build the contract:
//    cargo build --release --target wasm32-unknown-unknown \
//      -Z build-std=std,panic_abort \
//      -Z build-std-features=panic_immediate_abort
//
// 2. Deploy using Stylus CLI:
//    stylus deploy --private-key $PRIVATE_KEY
//
// 3. Verify the contract:
//    stylus verify --address <CONTRACT_ADDRESS>
"#;

/// The imports of the library, up to the name of the contract.
pub const LIBRARY_PREAMBLE: &'static str = r#" Library
//! 
//! A reusable library for Stylus contracts providing utility functions.

#![cfg_attr(not(feature = "export-abi"), no_std)]

extern crate alloc;

use stylus_sdk::prelude::*;
use alloc::{string::String, vec::Vec};

/// Example trait for common functionality
pub trait "#;

/// What follows the title of the library, up to the trait of operations.
pub const LIBRARY_TRAIT: &'static str = r#"Operations {
    /// Example function - replace with your own
    fn example_operation(&self, value: U256) -> U256;
    
    /// Validation function
    fn is_valid(&self) -> bool;
}

/// Example data structure for library use
#[derive(Default)]
pub struct "#;

/// The trait of the library, up to the data structure.
pub const LIBRARY_DATA: &'static str = r#"Data {
    pub id: U256,
    pub owner: Address,
    pub is_active: bool,
}

impl "#;

/// The fields of the data structure of the library.
pub const LIBRARY_DATA_IMPL: &'static str = r#"Data {
    /// Create new data instance
    pub fn new(id: U256, owner: Address) -> Self {
        Self {
            id,
            owner,
            is_active: true,
        }
    }
    
    /// Validate data integrity
    pub fn validate(&self) -> bool {
        !self.owner.is_zero() && self.is_active
    }
    
    /// Example transformation
    pub fn transform(&mut self, multiplier: U256) {
        self.id = self.id * multiplier;
    }
}

/// Utility functions module
pub mod "#;

/// The methods of the data structure of the library, up to the module of
/// functions.
pub const LIBRARY_MODULE: &'static str = r#" {
    use super::*;
    
    /// Example pure function
    pub fn double_value(value: U256) -> U256 {
        value * U256::from(2)
    }
    
    /// Example validation function
    pub fn is_non_zero_address(addr: Address) -> bool {
        !addr.is_zero()
    }
    
    /// Example calculation function
    pub fn calculate_percentage(value: U256, percentage: u8) -> U256 {
        if percentage > 100 {
            return U256::ZERO;
        }
        value * U256::from(percentage) / U256::from(100)
    }
}

/// Error types for the library
#[derive(Debug)]
pub enum "#;

/// The module of functions of the library, up to the error type.
pub const LIBRARY_ERROR: &'static str = r#"Error {
    InvalidInput,
    ZeroAddress,
    InactiveData,
}

impl "#;

/// The variants of the error type of the library.
pub const LIBRARY_ERROR_IMPL: &'static str = r#"Error {
    pub fn as_bytes(&self) -> Vec<u8> {
        match self {
            Self::InvalidInput => b"Invalid input".to_vec(),
            Self::ZeroAddress => b"Zero address".to_vec(),
            Self::InactiveData => b"Inactive data".to_vec(),
        }
    }
}
"#;

/// The imports of the note on interfaces, up to the name of the contract.
pub const INTERFACE_PREAMBLE: &'static str = r#"// Interfaces are not directly supported in Rust/Stylus
// Use traits instead for similar functionality
// 
// Example trait definition:
//
// pub trait "#;

/// The rest of the note on interfaces, after the last name or symbol.
pub const INTERFACE_BODY: &'static str = r#" {
//     fn example_function(&self) -> bool;
// }
"#;

/// The imports of the note on abstract contracts, up to the name of the
/// contract.
pub const ABSTRACT_PREAMBLE: &'static str = r#"// Abstract contracts are not supported in Rust/Stylus
// Use traits for similar patterns
//
// Example trait with default implementations:
//
// pub trait "#;

/// The rest of the note on abstract contracts, after the last name or symbol.
pub const ABSTRACT_BODY: &'static str = r#" {
//     fn abstract_function(&self) -> U256;
//     
//     fn concrete_function(&self) -> String {
//         "This is a concrete function".to_string()
//     }
// }
"#;

/// The text of the first `n` words, each word but the first preceded by an
/// underscore where its mark is set. A word without a mark counts as
/// unmarked.
pub open spec fn underscored(words: Seq<Seq<char>>, marks: Seq<bool>, n: nat) -> Seq<char>
    decreases n,
{
    if n == 0 || n > words.len() {
        Seq::empty()
    } else if n > 1 && n <= marks.len() && marks[n - 1] {
        underscored(words, marks, (n - 1) as nat) + "_"@ + words[n - 1]
    } else {
        underscored(words, marks, (n - 1) as nat) + words[n - 1]
    }
}

/// The lowercase form of each character of `name`.
pub open spec fn lowercase_words(name: Seq<char>) -> Seq<Seq<char>> {
    Seq::new(name.len(), |i: int| lowercase_of_char(name[i]))
}

/// For each character of `name`, whether it is an uppercase letter.
pub open spec fn uppercase_marks(name: Seq<char>) -> Seq<bool> {
    Seq::new(name.len(), |i: int| uppercase_letter(name[i]))
}

/// The snake-case form of a name: every character in lowercase, with an
/// underscore before each uppercase letter but the first character.
pub open spec fn snake_text(name: Seq<char>) -> Seq<char> {
    underscored(lowercase_words(name), uppercase_marks(name), name.len())
}

/// Whether the dialect has a contract text for the type: it has none for
/// the upgradeable tags, for interfaces and for abstract contracts.
pub open spec fn supported(contract: ContractView) -> bool {
    !contract.upgradeable() && !(contract is Interface) && !(contract is Abstract)
}

/// A contract that stores its owner.
pub open spec fn basic_contract(name: Seq<char>) -> Seq<char> {
    BASIC_PREAMBLE@
        + name
        + BASIC_STORAGE@
        + name
        + BASIC_IMPL@
        + name
        + BASIC_BODY@
}

/// A fungible token whose initializer mints the initial supply to the deployer.
pub open spec fn erc20_contract(name: Seq<char>) -> Seq<char> {
    ERC20_PREAMBLE@
        + name
        + ERC20_STORAGE@
        + name
        + ERC20_IMPL@
        + name
        + ERC20_INIT@
        + name
        + ERC20_SYMBOL@
        + symbol_text(name)
        + ERC20_BODY@
}

/// A non-fungible token collection with a mint function.
pub open spec fn erc721_contract(name: Seq<char>) -> Seq<char> {
    ERC721_PREAMBLE@
        + name
        + ERC721_STORAGE@
        + name
        + ERC721_IMPL@
        + name
        + ERC721_INIT@
        + name
        + ERC721_SYMBOL@
        + symbol_text(name)
        + ERC721_BODY@
}

/// A multi-token contract with mint functions.
pub open spec fn erc1155_contract(name: Seq<char>) -> Seq<char> {
    ERC1155_PREAMBLE@
        + name
        + ERC1155_STORAGE@
        + name
        + ERC1155_IMPL@
        + name
        + ERC1155_BODY@
}

/// A test module for the contract.
pub open spec fn test_source(name: Seq<char>) -> Seq<char> {
    TEST_PREAMBLE@
        + name
        + TEST_BODY@
}

/// Deployment instructions, which stand in for a script.
pub open spec fn script_source(name: Seq<char>) -> Seq<char> {
    "// "@
        + name
        + SCRIPT_BODY@
}

/// A standalone library: a trait, a data structure, a module of functions
/// named in snake case, and an error type.
pub open spec fn library_source(name: Seq<char>) -> Seq<char> {
    "//! "@
        + name
        + LIBRARY_PREAMBLE@
        + name
        + LIBRARY_TRAIT@
        + name
        + LIBRARY_DATA@
        + name
        + LIBRARY_DATA_IMPL@
        + snake_text(name)
        + LIBRARY_MODULE@
        + name
        + LIBRARY_ERROR@
        + name
        + LIBRARY_ERROR_IMPL@
}

/// A note that points to traits in place of an interface.
pub open spec fn interface_source(name: Seq<char>) -> Seq<char> {
    INTERFACE_PREAMBLE@
        + name
        + INTERFACE_BODY@
}

/// A note that points to traits in place of an abstract contract.
pub open spec fn abstract_contract_source(name: Seq<char>) -> Seq<char> {
    ABSTRACT_PREAMBLE@
        + name
        + ABSTRACT_BODY@
}

/// A contract over a token standard with extensions. The dialect has no
/// extension mix-ins yet: the text is that of the base standard, and of the
/// basic contract where the base is no standard.
pub open spec fn multi_inheritance_contract(name: Seq<char>, base: ContractView) -> Seq<char> {
    match base.standard() {
        Some(Standard::ERC20) => erc20_contract(name),
        Some(Standard::ERC721) => erc721_contract(name),
        Some(Standard::ERC1155) => erc1155_contract(name),
        None => basic_contract(name),
    }
}

/// The text of the contract of the given type, where the dialect has one.
pub open spec fn contract_source(name: Seq<char>, contract: ContractView) -> Seq<char>
    recommends
        supported(contract),
{
    match contract {
        ContractView::ERC20 => erc20_contract(name),
        ContractView::ERC721 => erc721_contract(name),
        ContractView::ERC1155 => erc1155_contract(name),
        ContractView::MultiInheritance { base_type, .. } => multi_inheritance_contract(
            name,
            *base_type,
        ),
        _ => basic_contract(name),
    }
}

/// Joins `words`, putting an underscore before each marked word but the
/// first.
pub fn join_words(words: &Vec<String>, marks: &Vec<bool>) -> (r: String)
    ensures
        r@ == underscored(crate::text::texts(words@), marks@, words@.len()),
{
    let mut out = String::new();
    let mut i: usize = 0;
    while i < words.len()
        invariant
            i <= words.len(),
            out@ == underscored(crate::text::texts(words@), marks@, i as nat),
        decreases words.len() - i,
    {
        if i > 0 && i < marks.len() && marks[i] {
            out.append("_");
        }
        out.append(words[i].as_str());
        i = i + 1;
    }
    out
}

/// The snake-case form of `name`.
pub fn snake_case(name: &str) -> (r: String)
    ensures
        r@ == snake_text(name@),
{
    let chars = chars_of(name);
    let mut words: Vec<String> = Vec::new();
    let mut marks: Vec<bool> = Vec::new();
    let mut i: usize = 0;
    while i < chars.len()
        invariant
            i <= chars.len(),
            words.len() == i,
            marks.len() == i,
            forall|k: int| 0 <= k < i ==> (#[trigger] words[k])@ == lowercase_of_char(chars[k]),
            forall|k: int| 0 <= k < i ==> marks[k] == uppercase_letter(chars[k]),
        decreases chars.len() - i,
    {
        words.push(char_to_lowercase(chars[i]));
        marks.push(is_uppercase(chars[i]));
        i = i + 1;
    }
    assert(crate::text::texts(words@) == lowercase_words(name@));
    assert(marks@ == uppercase_marks(name@));
    join_words(&words, &marks)
}

/// The Rust/Stylus composer for one contract.
pub struct StylusTemplate {
    pub contract_name: String,
    pub contract_type: ContractType,
}

impl StylusTemplate {
    /// A composer for the contract `contract_name` of type `contract_type`.
    pub fn new(contract_name: String, contract_type: ContractType) -> (r: Self)
        ensures
            r.contract_name == contract_name,
            r.contract_type == contract_type,
    {
        Self { contract_name, contract_type }
    }

    /// The text of the contract, by its type.
    pub fn generate_contract(&self) -> (r: String)
        requires
            supported(self.contract_type@),
        ensures
            r@ == contract_source(self.contract_name@, self.contract_type@),
    {
        match &self.contract_type {
            ContractType::ERC20 => self.generate_erc20_contract(),
            ContractType::ERC721 => self.generate_erc721_contract(),
            ContractType::ERC1155 => self.generate_erc1155_contract(),
            ContractType::MultiInheritance { base_type, extensions } => {
                self.generate_multi_inheritance_contract(base_type, extensions.as_slice())
            },
            _ => self.generate_basic_contract(),
        }
    }

    /// A contract that stores its owner.
    pub fn generate_basic_contract(&self) -> (r: String)
        ensures
            r@ == basic_contract(self.contract_name@),
    {
        let mut out = String::new();
        out.append(BASIC_PREAMBLE);
        out.append(self.contract_name.as_str());
        out.append(BASIC_STORAGE);
        out.append(self.contract_name.as_str());
        out.append(BASIC_IMPL);
        out.append(self.contract_name.as_str());
        out.append(BASIC_BODY);
        out
    }

    /// A fungible token whose initializer mints the initial supply to the
    /// deployer.
    pub fn generate_erc20_contract(&self) -> (r: String)
        ensures
            r@ == erc20_contract(self.contract_name@),
    {
        let symbol = self.get_symbol();
        let mut out = String::new();
        out.append(ERC20_PREAMBLE);
        out.append(self.contract_name.as_str());
        out.append(ERC20_STORAGE);
        out.append(self.contract_name.as_str());
        out.append(ERC20_IMPL);
        out.append(self.contract_name.as_str());
        out.append(ERC20_INIT);
        out.append(self.contract_name.as_str());
        out.append(ERC20_SYMBOL);
        out.append(symbol.as_str());
        out.append(ERC20_BODY);
        out
    }

    /// A non-fungible token collection with a mint function.
    pub fn generate_erc721_contract(&self) -> (r: String)
        ensures
            r@ == erc721_contract(self.contract_name@),
    {
        let symbol = self.get_symbol();
        let mut out = String::new();
        out.append(ERC721_PREAMBLE);
        out.append(self.contract_name.as_str());
        out.append(ERC721_STORAGE);
        out.append(self.contract_name.as_str());
        out.append(ERC721_IMPL);
        out.append(self.contract_name.as_str());
        out.append(ERC721_INIT);
        out.append(self.contract_name.as_str());
        out.append(ERC721_SYMBOL);
        out.append(symbol.as_str());
        out.append(ERC721_BODY);
        out
    }

    /// A multi-token contract with mint functions.
    pub fn generate_erc1155_contract(&self) -> (r: String)
        ensures
            r@ == erc1155_contract(self.contract_name@),
    {
        let mut out = String::new();
        out.append(ERC1155_PREAMBLE);
        out.append(self.contract_name.as_str());
        out.append(ERC1155_STORAGE);
        out.append(self.contract_name.as_str());
        out.append(ERC1155_IMPL);
        out.append(self.contract_name.as_str());
        out.append(ERC1155_BODY);
        out
    }

    /// A contract over `base_type` with extensions: the text of the base
    /// standard.
    pub fn generate_multi_inheritance_contract(
        &self,
        base_type: &ContractType,
        extensions: &[TokenExtension],
    ) -> (r: String)
        ensures
            r@ == multi_inheritance_contract(self.contract_name@, base_type@),
    {
        match base_type.standard() {
            Some(Standard::ERC20) => self.generate_erc20_with_extensions(extensions),
            Some(Standard::ERC721) => self.generate_erc721_with_extensions(extensions),
            Some(Standard::ERC1155) => self.generate_erc1155_with_extensions(extensions),
            None => self.generate_basic_contract(),
        }
    }

    /// A fungible token with extensions: so far the plain token.
    pub fn generate_erc20_with_extensions(&self, extensions: &[TokenExtension]) -> (r: String)
        ensures
            r@ == erc20_contract(self.contract_name@),
    {
        self.generate_erc20_contract()
    }

    /// A non-fungible token with extensions: so far the plain token.
    pub fn generate_erc721_with_extensions(&self, extensions: &[TokenExtension]) -> (r: String)
        ensures
            r@ == erc721_contract(self.contract_name@),
    {
        self.generate_erc721_contract()
    }

    /// A multi-token contract with extensions: so far the plain contract.
    pub fn generate_erc1155_with_extensions(&self, extensions: &[TokenExtension]) -> (r: String)
        ensures
            r@ == erc1155_contract(self.contract_name@),
    {
        self.generate_erc1155_contract()
    }

    /// The token symbol derived from the contract's name.
    pub fn get_symbol(&self) -> (r: String)
        ensures
            r@ == symbol_text(self.contract_name@),
    {
        symbol_of(self.contract_name.as_str())
    }

    /// A test module for the contract.
    pub fn generate_test(&self) -> (r: String)
        ensures
            r@ == test_source(self.contract_name@),
    {
        let mut out = String::new();
        out.append(TEST_PREAMBLE);
        out.append(self.contract_name.as_str());
        out.append(TEST_BODY);
        out
    }

    /// Deployment instructions, which stand in for a script.
    pub fn generate_script(&self) -> (r: String)
        ensures
            r@ == script_source(self.contract_name@),
    {
        let mut out = String::new();
        out.append("// ");
        out.append(self.contract_name.as_str());
        out.append(SCRIPT_BODY);
        out
    }

    /// A standalone library: a trait, a data structure, a module of functions
    /// named in snake case, and an error type.
    pub fn generate_library(&self) -> (r: String)
        ensures
            r@ == library_source(self.contract_name@),
    {
        let snake = snake_case(self.contract_name.as_str());
        let mut out = String::new();
        out.append("//! ");
        out.append(self.contract_name.as_str());
        out.append(LIBRARY_PREAMBLE);
        out.append(self.contract_name.as_str());
        out.append(LIBRARY_TRAIT);
        out.append(self.contract_name.as_str());
        out.append(LIBRARY_DATA);
        out.append(self.contract_name.as_str());
        out.append(LIBRARY_DATA_IMPL);
        out.append(snake.as_str());
        out.append(LIBRARY_MODULE);
        out.append(self.contract_name.as_str());
        out.append(LIBRARY_ERROR);
        out.append(self.contract_name.as_str());
        out.append(LIBRARY_ERROR_IMPL);
        out
    }

    /// A note that points to traits in place of an interface.
    pub fn generate_interface(&self) -> (r: String)
        ensures
            r@ == interface_source(self.contract_name@),
    {
        let mut out = String::new();
        out.append(INTERFACE_PREAMBLE);
        out.append(self.contract_name.as_str());
        out.append(INTERFACE_BODY);
        out
    }

    /// A note that points to traits in place of an abstract contract.
    pub fn generate_abstract_contract(&self) -> (r: String)
        ensures
            r@ == abstract_contract_source(self.contract_name@),
    {
        let mut out = String::new();
        out.append(ABSTRACT_PREAMBLE);
        out.append(self.contract_name.as_str());
        out.append(ABSTRACT_BODY);
        out
    }
}

impl Template for StylusTemplate {
    open spec fn supports_contract(&self) -> bool {
        supported(self.contract_type@)
    }

    open spec fn contract_text(&self) -> Seq<char> {
        contract_source(self.contract_name@, self.contract_type@)
    }

    open spec fn test_text(&self) -> Seq<char> {
        test_source(self.contract_name@)
    }

    open spec fn script_text(&self) -> Seq<char> {
        script_source(self.contract_name@)
    }

    open spec fn library_text(&self) -> Seq<char> {
        library_source(self.contract_name@)
    }

    open spec fn interface_text(&self) -> Seq<char> {
        interface_source(self.contract_name@)
    }

    open spec fn abstract_contract_text(&self) -> Seq<char> {
        abstract_contract_source(self.contract_name@)
    }

    fn generate_contract(&self) -> (r: String) {
        StylusTemplate::generate_contract(self)
    }

    fn generate_test(&self) -> (r: String) {
        StylusTemplate::generate_test(self)
    }

    fn generate_script(&self) -> (r: String) {
        StylusTemplate::generate_script(self)
    }

    fn generate_library(&self) -> (r: String) {
        StylusTemplate::generate_library(self)
    }

    fn generate_interface(&self) -> (r: String) {
        StylusTemplate::generate_interface(self)
    }

    fn generate_abstract_contract(&self) -> (r: String) {
        StylusTemplate::generate_abstract_contract(self)
    }
}

} // verus!
