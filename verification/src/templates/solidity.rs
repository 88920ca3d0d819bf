//! The Solidity composer: the text of a contract, of the test and the
//! deployment script that go with it, and of standalone libraries,
//! interfaces and abstract contracts.
//!
//! Each generated text is defined once as a function on `Seq<char>`; the
//! executable functions are proved to produce exactly that text.

use crate::templates::{
    convert_extension_for_base_type, convert_extensions, effective_extensions,
    lemma_conversion_lands_in_base_standard, ContractType, ContractView, Standard, Template,
    TokenExtension,
};
use crate::text::{
    chars_of, is_uppercase, join, joined, lemma_occurs_between, lemma_occurs_widens, occurs_in,
    texts,
    to_uppercase, uppercase_letter, uppercase_of,
};
use vstd::prelude::*;
use vstd::string::*;

verus! {

/// What a test or a script passes to the constructor of a fungible token.
pub const SUPPLY_ARGUMENT: &'static str = "(1000000 * 10 ** 18)";

/// What a test or a script passes to every other constructor.
pub const NO_ARGUMENT: &'static str = "()";

/// The import of the access-control mix-in that every composite inherits.
pub const OWNABLE_IMPORT: &'static str = "import \"@openzeppelin/contracts/access/Ownable.sol\";";

/// The inheritance entry of the access-control mix-in.
pub const OWNABLE: &'static str = "Ownable";

/// The state variable that counts token identifiers.
pub const TOKEN_COUNTER: &'static str = "    uint256 private _tokenIdCounter;";

/// The constructor parameter of a fungible token.
pub const SUPPLY_PARAMETER: &'static str = "uint256 initialSupply";

/// The constructor statement that mints the initial supply.
pub const MINT_SUPPLY: &'static str = "        _mint(msg.sender, initialSupply);";

/// The base constructor call of the multi-token standard.
pub const ERC1155_CALL: &'static str = "ERC1155(\"https://api.example.com/tokens/{id}.json\")";

/// What a wrapper adds to the base constructor call: the token it wraps.
pub const WRAPPER_CALL: &'static str = " ERC721Wrapper(IERC721(UNDERLYING_TOKEN))";

/// The constructor of an upgradeable composite, up to the calls of the
/// mix-in constructors.
pub const DISABLED_CONSTRUCTOR: &'static str =
    "    /// @custom:oz-upgrades-unsafe-allow constructor\n    constructor()";

/// The rest of the constructor of an upgradeable composite: it sets the
/// owner of the implementation and disables its initializers.
pub const DISABLE_INITIALIZERS: &'static str =
    " Ownable(msg.sender) {\n        _disableInitializers();\n    }";

/// The statement by which an initializer hands the contract to its
/// deployer.
pub const TAKE_OWNERSHIP: &'static str = "        _transferOwnership(msg.sender);";

/// The initializer call of the upgradeable multi-token standard.
pub const ERC1155_INIT: &'static str =
    "        __ERC1155_init(\"https://api.example.com/tokens/{id}.json\");";

/// The hook that lets the owner, and nobody else, authorize an upgrade.
pub const UPGRADE_HOOK: &'static str =
    "    function _authorizeUpgrade(address newImplementation) internal override onlyOwner {}";

/// The functions a pausable extension adds.
pub const PAUSE_FUNCTIONS: &'static str = r#"    function pause() public onlyOwner {
        _pause();
    }

    function unpause() public onlyOwner {
        _unpause();
    }"#;

/// The overrides an enumerable extension needs.
pub const ENUMERABLE_OVERRIDES: &'static str = r#"    function supportsInterface(bytes4 interfaceId) public view virtual override(ERC721, ERC721Enumerable) returns (bool) {
        return super.supportsInterface(interfaceId);
    }

    function _update(address to, uint256 tokenId, address auth) internal virtual override(ERC721, ERC721Enumerable) returns (address) {
        return super._update(to, tokenId, auth);
    }

    function _increaseBalance(address account, uint128 value) internal virtual override(ERC721, ERC721Enumerable) {
        super._increaseBalance(account, value);
    }"#;

/// The constant a wrapper extension adds: the address of the wrapped token.
pub const WRAPPER_UNDERLYING: &'static str = r#"    // ERC721Wrapper requires an underlying token address
    // Replace with actual token address when deploying
    address constant UNDERLYING_TOKEN = address(0x0);"#;

/// The override a URI storage extension needs on the multi-token standard.
pub const URI_OVERRIDE: &'static str = r#"    function uri(uint256 tokenId) public view virtual override(ERC1155, ERC1155URIStorage) returns (string memory) {
        return super.uri(tokenId);
    }"#;

/// The rest of the basic contract, after the last name or symbol.
pub const BASIC_BODY: &'static str = r#" {
    constructor() {}
}"#;

/// The imports of the fungible token, up to the name of the contract.
pub const ERC20_PREAMBLE: &'static str = r#"import "@openzeppelin/contracts/token/ERC20/ERC20.sol";

contract "#;

/// What follows the name in the fungible token, up to the name as the
/// constructor takes it.
pub const ERC20_CONSTRUCTOR: &'static str = " is ERC20 {\n    constructor(uint256 initialSupply) ERC20(\"";

/// The rest of the fungible token, after the last name or symbol.
pub const ERC20_BODY: &'static str = r#"") {
        _mint(msg.sender, initialSupply);
    }
}"#;

/// The imports of the non-fungible token, up to the name of the contract.
pub const ERC721_PREAMBLE: &'static str = r#"import "@openzeppelin/contracts/token/ERC721/ERC721.sol";
import "@openzeppelin/contracts/access/Ownable.sol";

contract "#;

/// What follows the name in the non-fungible token, up to the name as the
/// constructor takes it.
pub const ERC721_CONSTRUCTOR: &'static str = " is ERC721, Ownable {\n    uint256 private _tokenIdCounter;\n\n    constructor() ERC721(\"";

/// The rest of the non-fungible token, after the last name or symbol.
pub const ERC721_BODY: &'static str = r#"") Ownable(msg.sender) {}

    function safeMint(address to) public onlyOwner {
        uint256 tokenId = _tokenIdCounter++;
        _safeMint(to, tokenId);
    }
}"#;

/// The imports of the multi-token contract, up to the name of the contract.
pub const ERC1155_PREAMBLE: &'static str = r#"import "@openzeppelin/contracts/token/ERC1155/ERC1155.sol";
import "@openzeppelin/contracts/access/Ownable.sol";

contract "#;

/// The rest of the multi-token contract, after the last name or symbol.
pub const ERC1155_BODY: &'static str = r#" is ERC1155, Ownable {
    constructor() ERC1155("https://api.example.com/tokens/{id}.json") Ownable(msg.sender) {}

    function mint(address to, uint256 id, uint256 amount, bytes memory data) public onlyOwner {
        _mint(to, id, amount, data);
    }

    function mintBatch(address to, uint256[] memory ids, uint256[] memory amounts, bytes memory data) public onlyOwner {
        _mintBatch(to, ids, amounts, data);
    }
}"#;

/// The imports of the upgradeable fungible token, up to the name of the
/// contract.
pub const ERC20_UPGRADEABLE_PREAMBLE: &'static str = r#"import "@openzeppelin/contracts-upgradeable/token/ERC20/ERC20Upgradeable.sol";
import "@openzeppelin/contracts-upgradeable/proxy/utils/Initializable.sol";
import "@openzeppelin/contracts-upgradeable/access/OwnableUpgradeable.sol";
import "@openzeppelin/contracts-upgradeable/proxy/utils/UUPSUpgradeable.sol";

contract "#;

/// What follows the name in the upgradeable fungible token, up to the name as
/// the initializer takes it.
pub const ERC20_UPGRADEABLE_INITIALIZER: &'static str = " is Initializable, ERC20Upgradeable, OwnableUpgradeable, UUPSUpgradeable {\n    /// @custom:oz-upgrades-unsafe-allow constructor\n    constructor() {\n        _disableInitializers();\n    }\n\n    function initialize(uint256 initialSupply) public initializer {\n        __ERC20_init(\"";

/// The rest of the upgradeable fungible token, after the last name or symbol.
pub const ERC20_UPGRADEABLE_BODY: &'static str = r#"");
        __Ownable_init(msg.sender);
        __UUPSUpgradeable_init();
        
        _mint(msg.sender, initialSupply);
    }

    function _authorizeUpgrade(address newImplementation) internal override onlyOwner {}
}"#;

/// The imports of the upgradeable non-fungible token, up to the name of the
/// contract.
pub const ERC721_UPGRADEABLE_PREAMBLE: &'static str = r#"import "@openzeppelin/contracts-upgradeable/token/ERC721/ERC721Upgradeable.sol";
import "@openzeppelin/contracts-upgradeable/proxy/utils/Initializable.sol";
import "@openzeppelin/contracts-upgradeable/access/OwnableUpgradeable.sol";
import "@openzeppelin/contracts-upgradeable/proxy/utils/UUPSUpgradeable.sol";

contract "#;

/// What follows the name in the upgradeable non-fungible token, up to the
/// name as the initializer takes it.
pub const ERC721_UPGRADEABLE_INITIALIZER: &'static str = " is Initializable, ERC721Upgradeable, OwnableUpgradeable, UUPSUpgradeable {\n    uint256 private _tokenIdCounter;\n\n    /// @custom:oz-upgrades-unsafe-allow constructor\n    constructor() {\n        _disableInitializers();\n    }\n\n    function initialize() public initializer {\n        __ERC721_init(\"";

/// The rest of the upgradeable non-fungible token, after the last name or
/// symbol.
pub const ERC721_UPGRADEABLE_BODY: &'static str = r#"");
        __Ownable_init(msg.sender);
        __UUPSUpgradeable_init();
    }

    function safeMint(address to) public onlyOwner {
        uint256 tokenId = _tokenIdCounter++;
        _safeMint(to, tokenId);
    }

    function _authorizeUpgrade(address newImplementation) internal override onlyOwner {}
}"#;

/// The imports of the upgradeable multi-token contract, up to the name of the
/// contract.
pub const ERC1155_UPGRADEABLE_PREAMBLE: &'static str = r#"import "@openzeppelin/contracts-upgradeable/token/ERC1155/ERC1155Upgradeable.sol";
import "@openzeppelin/contracts-upgradeable/proxy/utils/Initializable.sol";
import "@openzeppelin/contracts-upgradeable/access/OwnableUpgradeable.sol";
import "@openzeppelin/contracts-upgradeable/proxy/utils/UUPSUpgradeable.sol";

contract "#;

/// The rest of the upgradeable multi-token contract, after the last name or
/// symbol.
pub const ERC1155_UPGRADEABLE_BODY: &'static str = r#" is Initializable, ERC1155Upgradeable, OwnableUpgradeable, UUPSUpgradeable {
    /// @custom:oz-upgrades-unsafe-allow constructor
    constructor() {
        _disableInitializers();
    }

    function initialize() public initializer {
        __ERC1155_init("https://api.example.com/tokens/{id}.json");
        __Ownable_init(msg.sender);
        __UUPSUpgradeable_init();
    }

    function mint(address to, uint256 id, uint256 amount, bytes memory data) public onlyOwner {
        _mint(to, id, amount, data);
    }

    function mintBatch(address to, uint256[] memory ids, uint256[] memory amounts, bytes memory data) public onlyOwner {
        _mintBatch(to, ids, amounts, data);
    }

    function _authorizeUpgrade(address newImplementation) internal override onlyOwner {}
}"#;

/// How the comment above the library starts.
pub const LIBRARY_TITLE: &'static str = "/// @title ";

/// What follows the title of the library.
pub const LIBRARY_NOTICE: &'static str = r#"
/// @notice A library contract for reusable utility functions
/// @dev Add your custom functions here
library "#;

/// The rest of the library, after the last name or symbol.
pub const LIBRARY_BODY: &'static str = r#" {
    /// @notice Example function - replace with your own
    /// @param value The input value
    /// @return The processed result
    function exampleFunction(uint256 value) internal pure returns (uint256) {
        return value * 2;
    }
    
    /// @notice Example struct for data organization
    struct Data {
        uint256 id;
        address owner;
        bool isActive;
    }
    
    /// @notice Example function that works with structs
    /// @param data The input data struct
    /// @return Whether the data is valid
    function validateData(Data memory data) internal pure returns (bool) {
        return data.owner != address(0) && data.isActive;
    }
}
"#;

/// How the comment above the interface starts.
pub const INTERFACE_TITLE: &'static str = "/// @title I";

/// What follows the title of the interface.
pub const INTERFACE_NOTICE: &'static str = r#"
/// @notice Interface for "#;

/// What follows the notice of the interface, up to the declared name.
pub const INTERFACE_DECLARATION: &'static str = r#"
/// @dev Define your function signatures here
interface I"#;

/// The rest of the interface, after the last name or symbol.
pub const INTERFACE_BODY: &'static str = r#" {
    // Add your function signatures here
    // Example:
    // function exampleFunction(uint256 value) external returns (bool);
}
"#;

/// How the comment above the abstract contract starts.
pub const ABSTRACT_TITLE: &'static str = "/// @title ";

/// What follows the title of the abstract contract.
pub const ABSTRACT_NOTICE: &'static str = r#"
/// @notice Abstract contract for "#;

/// What follows the notice of the abstract contract, up to the declared name.
pub const ABSTRACT_DECLARATION: &'static str = r#"
/// @dev Implement the required functions in the inheriting contract
abstract contract "#;

/// The rest of the abstract contract, after the last name or symbol.
pub const ABSTRACT_BODY: &'static str = r#" {
    // Add your abstract functions and state variables here
    // Example:
    // function abstractFunction() public virtual returns (uint256);
    
    // You can also implement concrete functions
    function concreteFunction() public pure returns (string memory) {
        return "This is a concrete function";
    }
}
"#;

/// The imports of the test, up to the file of the contract.
pub const TEST_IMPORTS: &'static str = r#"import "forge-std/Test.sol";
import "../src/"#;

/// What follows the imported file in the test.
pub const TEST_CONTRACT: &'static str = r#".sol";

contract "#;

/// What follows the contract of the test, up to the type of the instance.
pub const TEST_INSTANCE: &'static str = r#"Test is Test {
    "#;

/// What follows the instance of the test, up to its creation.
pub const TEST_SETUP: &'static str = r#" public instance;

    function setUp() public {
        "#;

/// The rest of the test, after the last name or symbol.
pub const TEST_BODY: &'static str = r#"
    }

    function test_Deployment() public view {
        assertNotEq(address(instance), address(0));
    }
}"#;

/// The imports of the deployment script, up to the file of the contract.
pub const SCRIPT_IMPORTS: &'static str = r#"import "forge-std/Script.sol";
import "../src/"#;

/// What follows the imported file in the deployment script.
pub const SCRIPT_CONTRACT: &'static str = r#".sol";

contract Deploy"#;

/// What follows the name of the deployment script, up to the type it returns.
pub const SCRIPT_RETURNS: &'static str = r#" is Script {
    function run() external returns ("#;

/// What follows the return type in the deployment script, up to the
/// declaration of the instance.
pub const SCRIPT_BROADCAST: &'static str = r#") {
        uint256 deployerPrivateKey = vm.envUint("PRIVATE_KEY");
        
        vm.startBroadcast(deployerPrivateKey);
        
        "#;

/// The rest of the deployment script, after the last name or symbol.
pub const SCRIPT_BODY: &'static str = r#"
        
        vm.stopBroadcast();
        
        return instance;
    }
}"#;

/// The two lines every Solidity file starts with, and the blank line after
/// them.
pub open spec fn header(license: Seq<char>, pragma: Seq<char>) -> Seq<char> {
    "// SPDX-License-Identifier: "@ + license + "\npragma solidity ^"@ + pragma + ";\n\n"@
}

/// The first `n` characters of `s`, or all of `s` where it is shorter.
pub open spec fn at_most(s: Seq<char>, n: nat) -> Seq<char> {
    if s.len() <= n {
        s
    } else {
        s.take(n as int)
    }
}

/// The characters of `chars` whose mark is set, in order. A character
/// without a mark counts as unmarked.
pub open spec fn marked(chars: Seq<char>, marks: Seq<bool>) -> Seq<char>
    decreases chars.len(),
{
    if chars.len() == 0 {
        Seq::empty()
    } else if chars.len() <= marks.len() && marks[chars.len() - 1] {
        marked(chars.drop_last(), marks).push(chars.last())
    } else {
        marked(chars.drop_last(), marks)
    }
}

/// The uppercase letters of `name`, in order.
pub open spec fn uppercase_letters(name: Seq<char>) -> Seq<char> {
    name.filter(|c: char| uppercase_letter(c))
}

/// The token symbol derived from a contract name: its first three uppercase
/// letters, or fewer where it has fewer, passed through the uppercase
/// mapping.
pub open spec fn symbol_text(name: Seq<char>) -> Seq<char> {
    uppercase_of(at_most(uppercase_letters(name), 3))
}

/// The constructor arguments of a test or a script: the initial supply for a
/// contract that rests on the fungible standard, nothing for any other.
pub open spec fn constructor_arguments(contract: ContractView) -> Seq<char> {
    if contract.effective_standard() == Some(Standard::ERC20) {
        SUPPLY_ARGUMENT@
    } else {
        NO_ARGUMENT@
    }
}

/// A contract without inheritance, with an empty constructor.
pub open spec fn basic_contract(
    name: Seq<char>,
    pragma: Seq<char>,
    license: Seq<char>,
) -> Seq<char> {
    header(license, pragma)
        + "contract "@
        + name
        + BASIC_BODY@
}

/// A fungible token whose constructor mints the initial supply to the deployer.
pub open spec fn erc20_contract(
    name: Seq<char>,
    pragma: Seq<char>,
    license: Seq<char>,
) -> Seq<char> {
    header(license, pragma)
        + ERC20_PREAMBLE@
        + name
        + ERC20_CONSTRUCTOR@
        + name
        + "\", \""@
        + symbol_text(name)
        + ERC20_BODY@
}

/// A non-fungible token with a mint function for its owner.
pub open spec fn erc721_contract(
    name: Seq<char>,
    pragma: Seq<char>,
    license: Seq<char>,
) -> Seq<char> {
    header(license, pragma)
        + ERC721_PREAMBLE@
        + name
        + ERC721_CONSTRUCTOR@
        + name
        + "\", \""@
        + symbol_text(name)
        + ERC721_BODY@
}

/// A multi-token contract with mint functions for its owner.
pub open spec fn erc1155_contract(
    name: Seq<char>,
    pragma: Seq<char>,
    license: Seq<char>,
) -> Seq<char> {
    header(license, pragma)
        + ERC1155_PREAMBLE@
        + name
        + ERC1155_BODY@
}

/// The fungible token behind a proxy: a disabled constructor, an initializer
/// that does what the constructor did, and an upgrade hook for the owner.
pub open spec fn erc20_upgradeable_contract(
    name: Seq<char>,
    pragma: Seq<char>,
    license: Seq<char>,
) -> Seq<char> {
    header(license, pragma)
        + ERC20_UPGRADEABLE_PREAMBLE@
        + name
        + ERC20_UPGRADEABLE_INITIALIZER@
        + name
        + "\", \""@
        + symbol_text(name)
        + ERC20_UPGRADEABLE_BODY@
}

/// The non-fungible token behind a proxy.
pub open spec fn erc721_upgradeable_contract(
    name: Seq<char>,
    pragma: Seq<char>,
    license: Seq<char>,
) -> Seq<char> {
    header(license, pragma)
        + ERC721_UPGRADEABLE_PREAMBLE@
        + name
        + ERC721_UPGRADEABLE_INITIALIZER@
        + name
        + "\", \""@
        + symbol_text(name)
        + ERC721_UPGRADEABLE_BODY@
}

/// The multi-token contract behind a proxy.
pub open spec fn erc1155_upgradeable_contract(
    name: Seq<char>,
    pragma: Seq<char>,
    license: Seq<char>,
) -> Seq<char> {
    header(license, pragma)
        + ERC1155_UPGRADEABLE_PREAMBLE@
        + name
        + ERC1155_UPGRADEABLE_BODY@
}

/// A standalone library with an example function and struct.
pub open spec fn library_source(
    name: Seq<char>,
    pragma: Seq<char>,
    license: Seq<char>,
) -> Seq<char> {
    header(license, pragma)
        + LIBRARY_TITLE@
        + name
        + LIBRARY_NOTICE@
        + name
        + LIBRARY_BODY@
}

/// A standalone, empty interface named `I` followed by the name.
pub open spec fn interface_source(
    name: Seq<char>,
    pragma: Seq<char>,
    license: Seq<char>,
) -> Seq<char> {
    header(license, pragma)
        + INTERFACE_TITLE@
        + name
        + INTERFACE_NOTICE@
        + name
        + INTERFACE_DECLARATION@
        + name
        + INTERFACE_BODY@
}

/// A standalone abstract contract with one concrete function.
pub open spec fn abstract_contract_source(
    name: Seq<char>,
    pragma: Seq<char>,
    license: Seq<char>,
) -> Seq<char> {
    header(license, pragma)
        + ABSTRACT_TITLE@
        + name
        + ABSTRACT_NOTICE@
        + name
        + ABSTRACT_DECLARATION@
        + name
        + ABSTRACT_BODY@
}

/// The test that goes with a contract: it deploys an instance and checks its
/// address.
pub open spec fn test_source(
    name: Seq<char>,
    pragma: Seq<char>,
    license: Seq<char>,
    contract: ContractView,
) -> Seq<char> {
    header(license, pragma)
        + TEST_IMPORTS@
        + name
        + TEST_CONTRACT@
        + name
        + TEST_INSTANCE@
        + name
        + TEST_SETUP@
        + "instance = new "@
        + name
        + constructor_arguments(contract)
        + ";"@
        + TEST_BODY@
}

/// The script that deploys a contract and returns the instance.
pub open spec fn script_source(
    name: Seq<char>,
    pragma: Seq<char>,
    license: Seq<char>,
    contract: ContractView,
) -> Seq<char> {
    header(license, pragma)
        + SCRIPT_IMPORTS@
        + name
        + SCRIPT_CONTRACT@
        + name
        + SCRIPT_RETURNS@
        + name
        + SCRIPT_BROADCAST@
        + name
        + " instance = new "@
        + name
        + constructor_arguments(contract)
        + ";"@
        + SCRIPT_BODY@
}

/// The import lines an extension needs.
pub open spec fn extension_import(extension: TokenExtension) -> Seq<char> {
    match extension {
        TokenExtension::ERC20Permit => "import \"@openzeppelin/contracts/token/ERC20/extensions/ERC20Permit.sol\";"@,
        TokenExtension::ERC20Burnable => "import \"@openzeppelin/contracts/token/ERC20/extensions/ERC20Burnable.sol\";"@,
        TokenExtension::ERC20Capped => "import \"@openzeppelin/contracts/token/ERC20/extensions/ERC20Capped.sol\";"@,
        TokenExtension::ERC20Pausable => "import \"@openzeppelin/contracts/token/ERC20/extensions/ERC20Pausable.sol\";"@,
        TokenExtension::ERC20Votes => "import \"@openzeppelin/contracts/token/ERC20/extensions/ERC20Votes.sol\";\nimport \"@openzeppelin/contracts/utils/cryptography/EIP712.sol\";"@,
        TokenExtension::ERC20Wrapper => "import \"@openzeppelin/contracts/token/ERC20/extensions/ERC20Wrapper.sol\";"@,
        TokenExtension::ERC20FlashMint => "import \"@openzeppelin/contracts/token/ERC20/extensions/ERC20FlashMint.sol\";"@,
        TokenExtension::ERC20TemporaryApproval => "import \"@openzeppelin/contracts/token/ERC20/extensions/draft-ERC20TemporaryApproval.sol\";"@,
        TokenExtension::ERC20Bridgeable => "import \"@openzeppelin/contracts/token/ERC20/extensions/draft-ERC20Bridgeable.sol\";"@,
        TokenExtension::ERC1363 => "import \"@openzeppelin/contracts/token/ERC20/extensions/ERC1363.sol\";"@,
        TokenExtension::ERC4626 => "import \"@openzeppelin/contracts/token/ERC20/extensions/ERC4626.sol\";"@,
        TokenExtension::ERC721Pausable => "import \"@openzeppelin/contracts/token/ERC721/extensions/ERC721Pausable.sol\";"@,
        TokenExtension::ERC721Burnable => "import \"@openzeppelin/contracts/token/ERC721/extensions/ERC721Burnable.sol\";"@,
        TokenExtension::ERC721Consecutive => "import \"@openzeppelin/contracts/token/ERC721/extensions/ERC721Consecutive.sol\";"@,
        TokenExtension::ERC721URIStorage => "import \"@openzeppelin/contracts/token/ERC721/extensions/ERC721URIStorage.sol\";"@,
        TokenExtension::ERC721Votes => "import \"@openzeppelin/contracts/token/ERC721/extensions/ERC721Votes.sol\";\nimport \"@openzeppelin/contracts/utils/cryptography/EIP712.sol\";"@,
        TokenExtension::ERC721Royalty => "import \"@openzeppelin/contracts/token/ERC721/extensions/ERC721Royalty.sol\";"@,
        TokenExtension::ERC721Wrapper => "import \"@openzeppelin/contracts/token/ERC721/extensions/ERC721Wrapper.sol\";\nimport \"@openzeppelin/contracts/token/ERC721/IERC721.sol\";"@,
        TokenExtension::ERC721Enumerable => "import \"@openzeppelin/contracts/token/ERC721/extensions/ERC721Enumerable.sol\";"@,
        TokenExtension::ERC1155Pausable => "import \"@openzeppelin/contracts/token/ERC1155/extensions/ERC1155Pausable.sol\";"@,
        TokenExtension::ERC1155Burnable => "import \"@openzeppelin/contracts/token/ERC1155/extensions/ERC1155Burnable.sol\";"@,
        TokenExtension::ERC1155Supply => "import \"@openzeppelin/contracts/token/ERC1155/extensions/ERC1155Supply.sol\";"@,
        TokenExtension::ERC1155URIStorage => "import \"@openzeppelin/contracts/token/ERC1155/extensions/ERC1155URIStorage.sol\";"@,
    }
}

/// The entry of an extension in the inheritance list: its name, and for a
/// votes extension the signature scheme it relies on.
pub open spec fn extension_inheritance(extension: TokenExtension) -> Seq<char> {
    match extension {
        TokenExtension::ERC20Votes | TokenExtension::ERC721Votes => extension.name_text()
            + ", EIP712"@,
        _ => extension.name_text(),
    }
}

/// The members an extension adds to the contract body; empty for a mix-in
/// that needs nothing but its import and its inheritance entry.
pub open spec fn extension_functions(extension: TokenExtension) -> Seq<char> {
    match extension {
        TokenExtension::ERC20Pausable => PAUSE_FUNCTIONS@,
        TokenExtension::ERC721Pausable => PAUSE_FUNCTIONS@,
        TokenExtension::ERC721Wrapper => WRAPPER_UNDERLYING@,
        TokenExtension::ERC721Enumerable => ENUMERABLE_OVERRIDES@,
        TokenExtension::ERC1155Pausable => PAUSE_FUNCTIONS@,
        TokenExtension::ERC1155URIStorage => URI_OVERRIDE@,
        _ => Seq::empty(),
    }
}

/// The import of the base standard of a composite: each of the six
/// standard tags brings its own, the upgradeable ones from the upgradeable
/// package. A base that is no standard brings none.
pub open spec fn base_import(base: ContractView) -> Option<Seq<char>> {
    match base {
        ContractView::ERC20 => Some("import \"@openzeppelin/contracts/token/ERC20/ERC20.sol\";"@),
        ContractView::ERC721 => Some(
            "import \"@openzeppelin/contracts/token/ERC721/ERC721.sol\";"@,
        ),
        ContractView::ERC1155 => Some(
            "import \"@openzeppelin/contracts/token/ERC1155/ERC1155.sol\";"@,
        ),
        ContractView::ERC20Upgradeable => Some(
            "import \"@openzeppelin/contracts-upgradeable/token/ERC20/ERC20Upgradeable.sol\";"@,
        ),
        ContractView::ERC721Upgradeable => Some(
            "import \"@openzeppelin/contracts-upgradeable/token/ERC721/ERC721Upgradeable.sol\";"@,
        ),
        ContractView::ERC1155Upgradeable => Some(
            "import \"@openzeppelin/contracts-upgradeable/token/ERC1155/ERC1155Upgradeable.sol\";"@,
        ),
        _ => None,
    }
}

/// The inheritance entry of the base standard of a composite: the name of
/// the tag, for each of the six standard tags. A base that is no standard
/// brings none.
pub open spec fn base_inheritance(base: ContractView) -> Option<Seq<char>> {
    match base {
        ContractView::ERC20 => Some("ERC20"@),
        ContractView::ERC721 => Some("ERC721"@),
        ContractView::ERC1155 => Some("ERC1155"@),
        ContractView::ERC20Upgradeable => Some("ERC20Upgradeable"@),
        ContractView::ERC721Upgradeable => Some("ERC721Upgradeable"@),
        ContractView::ERC1155Upgradeable => Some("ERC1155Upgradeable"@),
        _ => None,
    }
}

/// `first`, if there is one, as a list of one element.
pub open spec fn leading_part(first: Option<Seq<char>>) -> Seq<Seq<char>> {
    match first {
        Some(part) => seq![part],
        None => Seq::empty(),
    }
}

/// The import blocks of a composite: that of the base, that of the
/// access-control mix-in, then one for each extension as converted for the
/// base, in the order requested.
pub open spec fn import_parts(base: ContractView, extensions: Seq<TokenExtension>) -> Seq<
    Seq<char>,
> {
    leading_part(base_import(base)) + seq![OWNABLE_IMPORT@] + Seq::new(
        extensions.len(),
        |i: int| extension_import(extensions[i].converted_for(base)),
    )
}

/// The inheritance list of a composite: the base, the access-control mix-in,
/// then one entry for each extension as converted for the base, in the order
/// requested.
pub open spec fn inheritance_parts(base: ContractView, extensions: Seq<TokenExtension>) -> Seq<
    Seq<char>,
> {
    leading_part(base_inheritance(base)) + seq![OWNABLE@] + Seq::new(
        extensions.len(),
        |i: int| extension_inheritance(extensions[i].converted_for(base)),
    )
}

/// The member blocks of the first `n` extensions, as converted for the base
/// and in the order requested. An extension without members adds no block.
pub open spec fn function_parts(base: ContractView, extensions: Seq<TokenExtension>, n: nat) -> Seq<
    Seq<char>,
>
    decreases n,
{
    if n == 0 || n > extensions.len() {
        Seq::empty()
    } else {
        let before = function_parts(base, extensions, (n - 1) as nat);
        let members = extension_functions(extensions[n - 1].converted_for(base));
        if members.len() > 0 {
            before.push(members)
        } else {
            before
        }
    }
}

/// Whether one of `extensions` needs the counter of token identifiers.
pub open spec fn needs_token_counter(extensions: Seq<TokenExtension>) -> bool {
    exists|i: int|
        0 <= i < extensions.len() && (#[trigger] extensions[i] == TokenExtension::ERC721Enumerable
            || extensions[i] == TokenExtension::ERC721Burnable)
}

/// The state variables of a composite: the counter of token identifiers,
/// declared once however many extensions need it.
pub open spec fn state_variables(extensions: Seq<TokenExtension>) -> Seq<char> {
    if needs_token_counter(extensions) {
        TOKEN_COUNTER@
    } else {
        Seq::empty()
    }
}

/// Whether one of `extensions` wraps another token.
pub open spec fn has_wrapper(extensions: Seq<TokenExtension>) -> bool {
    exists|i: int|
        0 <= i < extensions.len() && (#[trigger] extensions[i] == TokenExtension::ERC721Wrapper
            || extensions[i] == TokenExtension::ERC20Wrapper)
}

/// The constructor parameters of a composite. They depend on the base alone:
/// the fungible standard takes the initial supply.
pub open spec fn constructor_parameters(base: ContractView) -> Seq<char> {
    if base.standard() == Some(Standard::ERC20) {
        SUPPLY_PARAMETER@
    } else {
        Seq::empty()
    }
}

/// What a wrapper among the extensions adds to the constructor of a
/// composite over the non-fungible standard: the call that tells the
/// wrapper which token it wraps.
pub open spec fn wrapper_clause(base: ContractView, extensions: Seq<TokenExtension>) -> Seq<char> {
    if base.standard() == Some(Standard::ERC721) && has_wrapper(extensions) {
        WRAPPER_CALL@
    } else {
        Seq::empty()
    }
}

/// The call of the base constructor of a composite over a plain standard
/// tag. With a wrapper among the extensions the non-fungible standard also
/// initialises the wrapper.
pub open spec fn constructor_call(
    name: Seq<char>,
    base: ContractView,
    extensions: Seq<TokenExtension>,
) -> Seq<char> {
    match base {
        ContractView::ERC20 => "ERC20(\""@ + name + "\", \""@ + symbol_text(name) + "\")"@,
        ContractView::ERC721 => "ERC721(\""@ + name + "\", \""@ + symbol_text(name) + "\")"@
            + wrapper_clause(base, extensions),
        ContractView::ERC1155 => ERC1155_CALL@,
        _ => Seq::empty(),
    }
}

/// The statements of the constructor of a composite over a plain standard
/// tag.
pub open spec fn constructor_body(base: ContractView) -> Seq<char> {
    match base {
        ContractView::ERC20 => MINT_SUPPLY@,
        _ => Seq::empty(),
    }
}

/// The constructor of a composite over a base that is not upgradeable: its
/// parameters, the call of the base constructor, the access-control mix-in
/// with the deployer as owner, and the statements.
pub open spec fn constructor_section(
    name: Seq<char>,
    base: ContractView,
    extensions: Seq<TokenExtension>,
) -> Seq<char> {
    "    constructor("@ + constructor_parameters(base) + ") "@ + constructor_call(
        name,
        base,
        extensions,
    ) + " Ownable(msg.sender) {\n"@ + constructor_body(base) + "\n    }"@
}

/// The statements of the initializer of a composite over an upgradeable
/// tag. They do what the constructor of the plain tag does: initialize the
/// standard with name and symbol, hand the contract to the deployer and, for
/// the fungible standard, mint the initial supply.
pub open spec fn initializer_statements(name: Seq<char>, base: ContractView) -> Seq<char> {
    match base {
        ContractView::ERC20Upgradeable => "        __ERC20_init(\""@ + name + "\", \""@
            + symbol_text(name) + "\");\n"@ + TAKE_OWNERSHIP@ + "\n"@ + MINT_SUPPLY@,
        ContractView::ERC721Upgradeable => "        __ERC721_init(\""@ + name + "\", \""@
            + symbol_text(name) + "\");\n"@ + TAKE_OWNERSHIP@,
        ContractView::ERC1155Upgradeable => ERC1155_INIT@ + "\n"@ + TAKE_OWNERSHIP@,
        _ => Seq::empty(),
    }
}

/// The signature of the initializer of a composite over `base`, up to the
/// brace.
pub open spec fn initializer_signature(base: ContractView) -> Seq<char> {
    "    function initialize("@ + constructor_parameters(base) + ") public initializer {"@
}

/// The initializer of a composite over an upgradeable tag: its signature,
/// its statements and the closing brace.
pub open spec fn initializer(name: Seq<char>, base: ContractView) -> Seq<char> {
    initializer_signature(base) + "\n"@ + initializer_statements(name, base) + "\n    }"@
}

/// The constructor of a composite over an upgradeable tag. It calls the
/// constructors of the mix-ins and disables the initializers of the
/// implementation; everything else is left to the initializer.
pub open spec fn disabled_constructor(base: ContractView, extensions: Seq<TokenExtension>) -> Seq<
    char,
> {
    DISABLED_CONSTRUCTOR@ + wrapper_clause(base, extensions) + DISABLE_INITIALIZERS@
}

/// What stands in place of the constructor in a composite over an
/// upgradeable tag: a constructor that only disables the initializers, the
/// initializer that does what the constructor of the plain tag does, and the
/// hook that lets the owner authorize an upgrade.
pub open spec fn initializer_section(
    name: Seq<char>,
    base: ContractView,
    extensions: Seq<TokenExtension>,
) -> Seq<char> {
    disabled_constructor(base, extensions) + "\n\n"@ + initializer(name, base) + "\n\n"@
        + UPGRADE_HOOK@
}

/// The constructor of a composite, or what stands in its place: the
/// initializer pattern for an upgradeable base, the plain constructor for
/// every other.
pub open spec fn construction(
    name: Seq<char>,
    base: ContractView,
    extensions: Seq<TokenExtension>,
) -> Seq<char> {
    if base.upgradeable() {
        initializer_section(name, base, extensions)
    } else {
        constructor_section(name, base, extensions)
    }
}

/// The body of a composite, from its state variables to the closing brace:
/// the state variables, the constructor or the initializer pattern, and the
/// members of the extensions.
pub open spec fn contract_body(
    name: Seq<char>,
    base: ContractView,
    extensions: Seq<TokenExtension>,
) -> Seq<char> {
    let effective = effective_extensions(base, extensions);
    state_variables(effective) + "\n\n"@ + construction(name, base, effective) + "\n\n"@
        + joined(function_parts(base, extensions, extensions.len()), "\n\n"@) + "\n}"@
}

/// A contract that inherits from a token standard, from the access-control
/// mix-in and from each requested extension. Extensions are converted for
/// the base before anything is built from them. The text is made of the
/// header, the imports, the opening with the inheritance list, and the body.
pub open spec fn multi_inheritance_contract(
    name: Seq<char>,
    pragma: Seq<char>,
    license: Seq<char>,
    base: ContractView,
    extensions: Seq<TokenExtension>,
) -> Seq<char> {
    header(license, pragma) + joined(import_parts(base, extensions), "\n"@) + contract_opening(
        name,
        joined(inheritance_parts(base, extensions), ", "@),
    ) + contract_body(name, base, extensions)
}

/// The text of the contract of the given type.
pub open spec fn contract_source(
    name: Seq<char>,
    pragma: Seq<char>,
    license: Seq<char>,
    contract: ContractView,
) -> Seq<char> {
    match contract {
        ContractView::Basic => basic_contract(name, pragma, license),
        ContractView::ERC20 => erc20_contract(name, pragma, license),
        ContractView::ERC721 => erc721_contract(name, pragma, license),
        ContractView::ERC1155 => erc1155_contract(name, pragma, license),
        ContractView::ERC20Upgradeable => erc20_upgradeable_contract(name, pragma, license),
        ContractView::ERC721Upgradeable => erc721_upgradeable_contract(name, pragma, license),
        ContractView::ERC1155Upgradeable => erc1155_upgradeable_contract(name, pragma, license),
        ContractView::Interface => interface_source(name, pragma, license),
        ContractView::Abstract => abstract_contract_source(name, pragma, license),
        ContractView::MultiInheritance { base_type, extensions } => multi_inheritance_contract(
            name,
            pragma,
            license,
            *base_type,
            extensions,
        ),
    }
}

/// The entry of every extension in the inheritance list is a name, not the
/// empty text, and its fourth and fifth characters tell the standard the
/// extension belongs to.
pub proof fn lemma_entry_tells_standard(extension: TokenExtension)
    ensures
        extension_inheritance(extension).len() >= 7,
        extension_inheritance(extension)[0] == 'E',
        match extension.native_standard() {
            Standard::ERC721 => extension_inheritance(extension)[3] == '7',
            Standard::ERC1155 => extension_inheritance(extension)[3] == '1'
                && extension_inheritance(extension)[4] == '1',
            Standard::ERC20 => extension_inheritance(extension)[3] != '7' && !(
            extension_inheritance(extension)[3] == '1' && extension_inheritance(extension)[4]
                == '1'),
        },
{
    reveal_strlit("ERC20Permit");
    reveal_strlit("ERC20Burnable");
    reveal_strlit("ERC20Capped");
    reveal_strlit("ERC20Pausable");
    reveal_strlit("ERC20Votes");
    reveal_strlit("ERC20Wrapper");
    reveal_strlit("ERC20FlashMint");
    reveal_strlit("ERC20TemporaryApproval");
    reveal_strlit("ERC20Bridgeable");
    reveal_strlit("ERC1363");
    reveal_strlit("ERC4626");
    reveal_strlit("ERC721Pausable");
    reveal_strlit("ERC721Burnable");
    reveal_strlit("ERC721Consecutive");
    reveal_strlit("ERC721URIStorage");
    reveal_strlit("ERC721Votes");
    reveal_strlit("ERC721Royalty");
    reveal_strlit("ERC721Wrapper");
    reveal_strlit("ERC721Enumerable");
    reveal_strlit("ERC1155Pausable");
    reveal_strlit("ERC1155Burnable");
    reveal_strlit("ERC1155Supply");
    reveal_strlit("ERC1155URIStorage");
}

/// The opening of a contract that inherits from `parents`: from the blank
/// line before it to the brace.
pub open spec fn contract_opening(name: Seq<char>, parents: Seq<char>) -> Seq<char> {
    "\n\ncontract "@ + name + " is "@ + parents + " {\n"@
}

/// The inheritance list of a composite over any of the six standard tags:
/// first the base, under the name of its tag, then the access-control
/// mix-in, then one entry for each extension as converted for the base, in
/// the order requested and with nothing left out or added. No entry is
/// empty.
pub proof fn lemma_inheritance_list(base: ContractView, extensions: Seq<TokenExtension>)
    requires
        base.standard() is Some,
    ensures
        inheritance_parts(base, extensions).len() == extensions.len() + 2,
        inheritance_parts(base, extensions)[0] == base.debug_text(),
        inheritance_parts(base, extensions)[1] == OWNABLE@,
        forall|i: int|
            0 <= i < extensions.len() ==> #[trigger] inheritance_parts(base, extensions)[i + 2]
                == extension_inheritance(effective_extensions(base, extensions)[i]),
        forall|i: int|
            0 <= i < extensions.len() + 2 ==> (#[trigger] inheritance_parts(
                base,
                extensions,
            )[i]).len() > 0,
{
    let parts = inheritance_parts(base, extensions);
    let effective = effective_extensions(base, extensions);
    assert(parts[0].len() > 0 && parts[1].len() > 0) by {
        reveal_strlit("ERC20");
        reveal_strlit("ERC721");
        reveal_strlit("ERC1155");
        reveal_strlit("ERC20Upgradeable");
        reveal_strlit("ERC721Upgradeable");
        reveal_strlit("ERC1155Upgradeable");
        reveal_strlit("Ownable");
    }
    assert forall|i: int| 0 <= i < extensions.len() + 2 implies (#[trigger] parts[i]).len()
        > 0 by {
        if i >= 2 {
            lemma_entry_tells_standard(effective[i - 2]);
        }
    }
}

/// The imports of a composite over any of the six standard tags: first that
/// of the base, then that of the access-control mix-in, then one block for
/// each extension as converted for the base, in the order requested.
pub proof fn lemma_import_list(base: ContractView, extensions: Seq<TokenExtension>)
    requires
        base.standard() is Some,
    ensures
        import_parts(base, extensions).len() == extensions.len() + 2,
        base_import(base) == Some(import_parts(base, extensions)[0]),
        import_parts(base, extensions)[1] == OWNABLE_IMPORT@,
        forall|i: int|
            0 <= i < extensions.len() ==> #[trigger] import_parts(base, extensions)[i + 2]
                == extension_import(effective_extensions(base, extensions)[i]),
{
}

/// The inheritance list stands in the text of a composite, joined by
/// commas, between the contract's name and the opening brace.
pub proof fn lemma_inheritance_list_is_emitted(
    name: Seq<char>,
    pragma: Seq<char>,
    license: Seq<char>,
    base: ContractView,
    extensions: Seq<TokenExtension>,
)
    ensures
        occurs_in(
            multi_inheritance_contract(name, pragma, license, base, extensions),
            contract_opening(name, joined(inheritance_parts(base, extensions), ", "@)),
        ),
{
    let effective = effective_extensions(base, extensions);
    let before = header(license, pragma) + joined(import_parts(base, extensions), "\n"@);
    let needle = contract_opening(name, joined(inheritance_parts(base, extensions), ", "@));
    let after = contract_body(name, base, extensions);
    lemma_occurs_between(before, needle, after);
}

/// The counter of token identifiers is the only state variable of a
/// composite: it is declared once where an extension needs it, however many
/// do, and not at all otherwise.
pub proof fn lemma_counter_is_declared_once(extensions: Seq<TokenExtension>)
    ensures
        needs_token_counter(extensions) ==> state_variables(extensions) == TOKEN_COUNTER@,
        !needs_token_counter(extensions) ==> state_variables(extensions) == Seq::<char>::empty(),
{
}

/// A composite over an upgradeable tag has the initializer pattern in
/// place of a constructor: its text holds the constructor that disables the
/// initializers, the initializer with the parameters of the base and with
/// the statements that do what the constructor of the plain tag does, and
/// the hook that lets the owner authorize an upgrade.
pub proof fn lemma_upgradeable_composite_is_reshaped(
    name: Seq<char>,
    pragma: Seq<char>,
    license: Seq<char>,
    base: ContractView,
    extensions: Seq<TokenExtension>,
)
    requires
        base.upgradeable(),
    ensures
        ({
            let text = multi_inheritance_contract(name, pragma, license, base, extensions);
            let effective = effective_extensions(base, extensions);
            &&& occurs_in(text, disabled_constructor(base, effective))
            &&& occurs_in(text, initializer(name, base))
            &&& occurs_in(text, UPGRADE_HOOK@)
        }),
{
    let effective = effective_extensions(base, extensions);
    let text = multi_inheritance_contract(name, pragma, license, base, extensions);
    let section = initializer_section(name, base, effective);
    let disabled = disabled_constructor(base, effective);
    let hook = UPGRADE_HOOK@;
    assert(section == Seq::<char>::empty() + disabled + ("\n\n"@ + initializer(name, base)
        + "\n\n"@ + hook));
    lemma_occurs_between(Seq::empty(), disabled, "\n\n"@ + initializer(name, base) + "\n\n"@ + hook);
    assert(section == (disabled + "\n\n"@) + initializer(name, base) + ("\n\n"@ + hook));
    lemma_occurs_between(disabled + "\n\n"@, initializer(name, base), "\n\n"@ + hook);
    assert(section == (disabled + "\n\n"@ + initializer(name, base) + "\n\n"@) + hook
        + Seq::<char>::empty());
    lemma_occurs_between(
        disabled + "\n\n"@ + initializer(name, base) + "\n\n"@,
        hook,
        Seq::empty(),
    );
    let start = header(license, pragma) + joined(import_parts(base, extensions), "\n"@)
        + contract_opening(name, joined(inheritance_parts(base, extensions), ", "@))
        + (state_variables(effective) + "\n\n"@);
    let end = "\n\n"@ + joined(function_parts(base, extensions, extensions.len()), "\n\n"@)
        + "\n}"@;
    assert(contract_body(name, base, extensions) == (state_variables(effective) + "\n\n"@)
        + section + end);
    assert(text == start + section + end);
    lemma_occurs_widens(start, section, end, disabled);
    lemma_occurs_widens(start, section, end, initializer(name, base));
    lemma_occurs_widens(start, section, end, hook);
}

/// Where extensions that go with a non-fungible or multi-token base, plain
/// or upgradeable, are requested, no entry of the inheritance list is the
/// entry of an extension of another standard: an extension of the fungible
/// standard that was asked for appears as its counterpart, never under its
/// own name.
pub proof fn lemma_foreign_names_do_not_appear(
    base: ContractView,
    extensions: Seq<TokenExtension>,
    foreign: TokenExtension,
    i: int,
)
    requires
        base.standard() == Some(Standard::ERC721) || base.standard() == Some(Standard::ERC1155),
        forall|k: int| 0 <= k < extensions.len() ==> (#[trigger] extensions[k]).compatible_with(base),
        Some(foreign.native_standard()) != base.standard(),
        0 <= i < inheritance_parts(base, extensions).len(),
    ensures
        inheritance_parts(base, extensions)[i] != extension_inheritance(foreign),
{
    let parts = inheritance_parts(base, extensions);
    lemma_entry_tells_standard(foreign);
    reveal_strlit("ERC721");
    reveal_strlit("ERC1155");
    reveal_strlit("ERC721Upgradeable");
    reveal_strlit("ERC1155Upgradeable");
    reveal_strlit("Ownable");
    if i >= 2 {
        let converted = extensions[i - 2].converted_for(base);
        assert(extensions[i - 2].compatible_with(base));
        assert(parts[i] == extension_inheritance(converted));
        lemma_conversion_lands_in_base_standard(base, extensions[i - 2]);
        lemma_entry_tells_standard(converted);
    } else if i == 1 {
        assert(parts[1] == OWNABLE@);
    } else {
        assert(parts[0] == base.debug_text());
    }
}

/// The constructor arguments of a test and of a script follow the standard
/// the contract rests on, directly or as the base of a composite: the
/// initial supply for the fungible standard, plain or upgradeable, and no
/// argument for anything else. The instantiation with these arguments
/// stands in both texts.
pub proof fn lemma_constructor_arguments(
    name: Seq<char>,
    pragma: Seq<char>,
    license: Seq<char>,
    contract: ContractView,
)
    ensures
        contract.effective_standard() == Some(Standard::ERC20) ==> constructor_arguments(contract)
            == "(1000000 * 10 ** 18)"@,
        contract.effective_standard() != Some(Standard::ERC20) ==> constructor_arguments(contract)
            == "()"@,
        "(1000000 * 10 ** 18)"@ != "()"@,
        occurs_in(
            test_source(name, pragma, license, contract),
            "instance = new "@ + name + constructor_arguments(contract) + ";"@,
        ),
        occurs_in(
            script_source(name, pragma, license, contract),
            " instance = new "@ + name + constructor_arguments(contract) + ";"@,
        ),
{
    reveal_strlit("(1000000 * 10 ** 18)");
    reveal_strlit("()");
    let arguments = constructor_arguments(contract);
    let test_needle = "instance = new "@ + name + arguments + ";"@;
    let test_before = header(license, pragma) + TEST_IMPORTS@ + name + TEST_CONTRACT@ + name
        + TEST_INSTANCE@ + name + TEST_SETUP@;
    assert(test_source(name, pragma, license, contract) == test_before + test_needle + TEST_BODY@);
    lemma_occurs_between(test_before, test_needle, TEST_BODY@);
    let script_needle = " instance = new "@ + name + arguments + ";"@;
    let script_before = header(license, pragma) + SCRIPT_IMPORTS@ + name + SCRIPT_CONTRACT@ + name
        + SCRIPT_RETURNS@ + name + SCRIPT_BROADCAST@ + name;
    assert(script_source(name, pragma, license, contract) == script_before + script_needle
        + SCRIPT_BODY@);
    lemma_occurs_between(script_before, script_needle, SCRIPT_BODY@);
}

/// Whether `part` can be had from `whole` by leaving characters out.
pub open spec fn subsequence_of(part: Seq<char>, whole: Seq<char>) -> bool
    decreases whole.len(),
{
    if part.len() == 0 {
        true
    } else if whole.len() == 0 {
        false
    } else {
        (part.last() == whole.last() && subsequence_of(part.drop_last(), whole.drop_last()))
            || subsequence_of(part, whole.drop_last())
    }
}

/// The letters a symbol is made from: the first three uppercase letters of
/// the name, or all of them where there are fewer.
pub open spec fn symbol_letters(name: Seq<char>) -> Seq<char> {
    at_most(uppercase_letters(name), 3)
}

/// The uppercase letters of a text are had from it by leaving characters
/// out.
pub proof fn lemma_uppercase_letters_are_a_subsequence(name: Seq<char>)
    ensures
        subsequence_of(uppercase_letters(name), name),
    decreases name.len(),
{
    reveal(Seq::filter);
    if name.len() > 0 {
        lemma_uppercase_letters_are_a_subsequence(name.drop_last());
        let shorter = uppercase_letters(name.drop_last());
        if uppercase_letter(name.last()) {
            assert(uppercase_letters(name) == shorter.push(name.last()));
            assert(uppercase_letters(name).drop_last() == shorter);
        } else {
            assert(uppercase_letters(name) == shorter);
        }
    }
}

/// The start of a subsequence is a subsequence.
pub proof fn lemma_prefix_of_subsequence(part: Seq<char>, whole: Seq<char>, n: int)
    requires
        subsequence_of(part, whole),
        0 <= n <= part.len(),
    ensures
        subsequence_of(part.take(n), whole),
    decreases whole.len(),
{
    if n > 0 && whole.len() > 0 {
        if part.last() == whole.last() && subsequence_of(part.drop_last(), whole.drop_last()) {
            if n == part.len() {
                assert(part.take(n) == part);
            } else {
                lemma_prefix_of_subsequence(part.drop_last(), whole.drop_last(), n);
                assert(part.drop_last().take(n) == part.take(n));
                lemma_subsequence_of_longer(part.take(n), whole);
            }
        } else {
            lemma_prefix_of_subsequence(part, whole.drop_last(), n);
            lemma_subsequence_of_longer(part.take(n), whole);
        }
    }
}

/// What is a subsequence of a text without its last character is a
/// subsequence of the text.
pub proof fn lemma_subsequence_of_longer(part: Seq<char>, whole: Seq<char>)
    requires
        whole.len() > 0,
        subsequence_of(part, whole.drop_last()),
    ensures
        subsequence_of(part, whole),
{
}

/// The symbol of a name is the uppercase mapping of at most three letters,
/// each of them an uppercase letter of the name; together they are the
/// start of the name's uppercase letters, in the order they have in the
/// name. What the mapping makes of uppercase letters is for the standard
/// library to say.
pub proof fn lemma_symbol_letters(name: Seq<char>)
    ensures
        symbol_text(name) == uppercase_of(symbol_letters(name)),
        symbol_letters(name).len() <= 3,
        symbol_letters(name).len() <= name.len(),
        forall|i: int|
            0 <= i < symbol_letters(name).len() ==> uppercase_letter(
                #[trigger] symbol_letters(name)[i],
            ),
        forall|i: int|
            0 <= i < symbol_letters(name).len() ==> #[trigger] symbol_letters(name)[i]
                == uppercase_letters(name)[i],
        subsequence_of(symbol_letters(name), name),
{
    let letters = uppercase_letters(name);
    let pred = |c: char| uppercase_letter(c);
    name.lemma_filter_len(pred);
    assert forall|i: int| 0 <= i < symbol_letters(name).len() implies uppercase_letter(
        #[trigger] symbol_letters(name)[i],
    ) by {
        name.lemma_filter_pred(pred, i);
    }
    lemma_uppercase_letters_are_a_subsequence(name);
    if letters.len() <= 3 {
        assert(letters.take(letters.len() as int) == letters);
        lemma_prefix_of_subsequence(letters, name, letters.len() as int);
    } else {
        lemma_prefix_of_subsequence(letters, name, 3);
    }
}

/// Where every mark says whether its character is an uppercase letter, the
/// marked characters are the uppercase letters.
pub proof fn lemma_marked_uppercase(chars: Seq<char>, marks: Seq<bool>)
    requires
        marks.len() == chars.len(),
        forall|i: int| 0 <= i < chars.len() ==> marks[i] == uppercase_letter(chars[i]),
    ensures
        marked(chars, marks) == uppercase_letters(chars),
    decreases chars.len(),
{
    reveal(Seq::filter);
    if chars.len() > 0 {
        lemma_marked_uppercase(chars.drop_last(), marks.drop_last());
        lemma_marked_ignores_later_marks(chars.drop_last(), marks.drop_last(), marks);
    }
}

/// The marked characters do not depend on marks beyond the last character.
pub proof fn lemma_marked_ignores_later_marks(chars: Seq<char>, a: Seq<bool>, b: Seq<bool>)
    requires
        chars.len() <= a.len(),
        chars.len() <= b.len(),
        forall|i: int| 0 <= i < chars.len() ==> a[i] == b[i],
    ensures
        marked(chars, a) == marked(chars, b),
    decreases chars.len(),
{
    if chars.len() > 0 {
        lemma_marked_ignores_later_marks(chars.drop_last(), a, b);
    }
}

/// Writes the header of a Solidity file at the end of `out`.
fn push_header(out: &mut String, license: &str, pragma: &str)
    ensures
        final(out)@ == old(out)@ + header(license@, pragma@),
{
    out.append("// SPDX-License-Identifier: ");
    out.append(license);
    out.append("\npragma solidity ^");
    out.append(pragma);
    out.append(";\n\n");
}

/// The characters of `text` whose mark is set, up to `limit` of them, in
/// order.
pub fn select_marked(text: &str, marks: &Vec<bool>, limit: usize) -> (r: String)
    ensures
        r@ == at_most(marked(text@, marks@), limit as nat),
{
    let n = text.unicode_len();
    let mut out = String::new();
    let mut taken: usize = 0;
    let mut i: usize = 0;
    while i < n
        invariant
            n == text@.len(),
            i <= n,
            taken == out@.len(),
            taken <= limit,
            out@ == at_most(marked(text@.take(i as int), marks@), limit as nat),
        decreases n - i,
    {
        assert(text@.take(i + 1).drop_last() == text@.take(i as int));
        if i < marks.len() && marks[i] && taken < limit {
            let letter = text.substring_char(i, i + 1);
            assert(letter@ == seq![text@[i as int]]);
            out.append(letter);
            taken = taken + 1;
        }
        i = i + 1;
    }
    assert(text@.take(n as int) == text@);
    out
}

/// For each character of `chars`, whether it is an uppercase letter.
fn uppercase_marks(chars: &Vec<char>) -> (r: Vec<bool>)
    ensures
        r.len() == chars.len(),
        forall|i: int| 0 <= i < chars.len() ==> r[i] == uppercase_letter(chars[i]),
{
    let mut marks: Vec<bool> = Vec::new();
    let mut i: usize = 0;
    while i < chars.len()
        invariant
            i <= chars.len(),
            marks.len() == i,
            forall|j: int| 0 <= j < i ==> marks[j] == uppercase_letter(chars[j]),
        decreases chars.len() - i,
    {
        marks.push(is_uppercase(chars[i]));
        i = i + 1;
    }
    marks
}

/// The token symbol derived from `name`.
pub fn symbol_of(name: &str) -> (r: String)
    ensures
        r@ == symbol_text(name@),
{
    let chars = chars_of(name);
    let marks = uppercase_marks(&chars);
    let letters = select_marked(name, &marks, 3);
    proof {
        lemma_marked_uppercase(name@, marks@);
    }
    to_uppercase(letters.as_str())
}

fn import_of(extension: &TokenExtension) -> (r: &'static str)
    ensures
        r@ == extension_import(*extension),
{
    match extension {
        TokenExtension::ERC20Permit => "import \"@openzeppelin/contracts/token/ERC20/extensions/ERC20Permit.sol\";",
        TokenExtension::ERC20Burnable => "import \"@openzeppelin/contracts/token/ERC20/extensions/ERC20Burnable.sol\";",
        TokenExtension::ERC20Capped => "import \"@openzeppelin/contracts/token/ERC20/extensions/ERC20Capped.sol\";",
        TokenExtension::ERC20Pausable => "import \"@openzeppelin/contracts/token/ERC20/extensions/ERC20Pausable.sol\";",
        TokenExtension::ERC20Votes => "import \"@openzeppelin/contracts/token/ERC20/extensions/ERC20Votes.sol\";\nimport \"@openzeppelin/contracts/utils/cryptography/EIP712.sol\";",
        TokenExtension::ERC20Wrapper => "import \"@openzeppelin/contracts/token/ERC20/extensions/ERC20Wrapper.sol\";",
        TokenExtension::ERC20FlashMint => "import \"@openzeppelin/contracts/token/ERC20/extensions/ERC20FlashMint.sol\";",
        TokenExtension::ERC20TemporaryApproval => "import \"@openzeppelin/contracts/token/ERC20/extensions/draft-ERC20TemporaryApproval.sol\";",
        TokenExtension::ERC20Bridgeable => "import \"@openzeppelin/contracts/token/ERC20/extensions/draft-ERC20Bridgeable.sol\";",
        TokenExtension::ERC1363 => "import \"@openzeppelin/contracts/token/ERC20/extensions/ERC1363.sol\";",
        TokenExtension::ERC4626 => "import \"@openzeppelin/contracts/token/ERC20/extensions/ERC4626.sol\";",
        TokenExtension::ERC721Pausable => "import \"@openzeppelin/contracts/token/ERC721/extensions/ERC721Pausable.sol\";",
        TokenExtension::ERC721Burnable => "import \"@openzeppelin/contracts/token/ERC721/extensions/ERC721Burnable.sol\";",
        TokenExtension::ERC721Consecutive => "import \"@openzeppelin/contracts/token/ERC721/extensions/ERC721Consecutive.sol\";",
        TokenExtension::ERC721URIStorage => "import \"@openzeppelin/contracts/token/ERC721/extensions/ERC721URIStorage.sol\";",
        TokenExtension::ERC721Votes => "import \"@openzeppelin/contracts/token/ERC721/extensions/ERC721Votes.sol\";\nimport \"@openzeppelin/contracts/utils/cryptography/EIP712.sol\";",
        TokenExtension::ERC721Royalty => "import \"@openzeppelin/contracts/token/ERC721/extensions/ERC721Royalty.sol\";",
        TokenExtension::ERC721Wrapper => "import \"@openzeppelin/contracts/token/ERC721/extensions/ERC721Wrapper.sol\";\nimport \"@openzeppelin/contracts/token/ERC721/IERC721.sol\";",
        TokenExtension::ERC721Enumerable => "import \"@openzeppelin/contracts/token/ERC721/extensions/ERC721Enumerable.sol\";",
        TokenExtension::ERC1155Pausable => "import \"@openzeppelin/contracts/token/ERC1155/extensions/ERC1155Pausable.sol\";",
        TokenExtension::ERC1155Burnable => "import \"@openzeppelin/contracts/token/ERC1155/extensions/ERC1155Burnable.sol\";",
        TokenExtension::ERC1155Supply => "import \"@openzeppelin/contracts/token/ERC1155/extensions/ERC1155Supply.sol\";",
        TokenExtension::ERC1155URIStorage => "import \"@openzeppelin/contracts/token/ERC1155/extensions/ERC1155URIStorage.sol\";",
    }
}

fn functions_of(extension: &TokenExtension) -> (r: &'static str)
    ensures
        r@ == extension_functions(*extension),
{
    proof {
        reveal_strlit("");
    }
    match extension {
        TokenExtension::ERC20Pausable => PAUSE_FUNCTIONS,
        TokenExtension::ERC721Pausable => PAUSE_FUNCTIONS,
        TokenExtension::ERC721Wrapper => WRAPPER_UNDERLYING,
        TokenExtension::ERC721Enumerable => ENUMERABLE_OVERRIDES,
        TokenExtension::ERC1155Pausable => PAUSE_FUNCTIONS,
        TokenExtension::ERC1155URIStorage => URI_OVERRIDE,
        _ => "",
    }
}

/// The constructor parameters of a composite over `base`.
fn constructor_parameters_of(base: &ContractType) -> (r: &'static str)
    ensures
        r@ == constructor_parameters(base@),
{
    proof {
        reveal_strlit("");
    }
    match base.standard() {
        Some(Standard::ERC20) => SUPPLY_PARAMETER,
        _ => "",
    }
}

/// The constructor statements of a composite over `base`.
fn constructor_body_of(base: &ContractType) -> (r: &'static str)
    ensures
        r@ == constructor_body(base@),
{
    proof {
        reveal_strlit("");
    }
    match base {
        ContractType::ERC20 => MINT_SUPPLY,
        _ => "",
    }
}

/// The import of the base of a composite, where it is a standard tag.
fn base_import_of(base: &ContractType) -> (r: Option<&'static str>)
    ensures
        match r {
            Some(line) => base_import(base@) == Some(line@),
            None => base_import(base@) is None,
        },
{
    match base {
        ContractType::ERC20 => Some("import \"@openzeppelin/contracts/token/ERC20/ERC20.sol\";"),
        ContractType::ERC721 => Some("import \"@openzeppelin/contracts/token/ERC721/ERC721.sol\";"),
        ContractType::ERC1155 => Some(
            "import \"@openzeppelin/contracts/token/ERC1155/ERC1155.sol\";",
        ),
        ContractType::ERC20Upgradeable => Some(
            "import \"@openzeppelin/contracts-upgradeable/token/ERC20/ERC20Upgradeable.sol\";",
        ),
        ContractType::ERC721Upgradeable => Some(
            "import \"@openzeppelin/contracts-upgradeable/token/ERC721/ERC721Upgradeable.sol\";",
        ),
        ContractType::ERC1155Upgradeable => Some(
            "import \"@openzeppelin/contracts-upgradeable/token/ERC1155/ERC1155Upgradeable.sol\";",
        ),
        _ => None,
    }
}

/// The inheritance entry of the base of a composite, where it is a standard
/// tag.
fn base_inheritance_of(base: &ContractType) -> (r: Option<&'static str>)
    ensures
        match r {
            Some(entry) => base_inheritance(base@) == Some(entry@),
            None => base_inheritance(base@) is None,
        },
{
    match base {
        ContractType::ERC20 => Some("ERC20"),
        ContractType::ERC721 => Some("ERC721"),
        ContractType::ERC1155 => Some("ERC1155"),
        ContractType::ERC20Upgradeable => Some("ERC20Upgradeable"),
        ContractType::ERC721Upgradeable => Some("ERC721Upgradeable"),
        ContractType::ERC1155Upgradeable => Some("ERC1155Upgradeable"),
        _ => None,
    }
}

/// What a wrapper among `effective` adds to the constructor of a composite
/// over `base`.
fn wrapper_clause_of(base: &ContractType, effective: &[TokenExtension]) -> (r: &'static str)
    ensures
        r@ == wrapper_clause(base@, effective@),
{
    proof {
        reveal_strlit("");
    }
    match base.standard() {
        Some(Standard::ERC721) => if includes_wrapper(effective) {
            WRAPPER_CALL
        } else {
            ""
        },
        _ => "",
    }
}

/// Whether one of `extensions` wraps another token.
fn includes_wrapper(extensions: &[TokenExtension]) -> (r: bool)
    ensures
        r == has_wrapper(extensions@),
{
    let mut i: usize = 0;
    while i < extensions.len()
        invariant
            i <= extensions.len(),
            forall|k: int|
                0 <= k < i ==> extensions@[k] != TokenExtension::ERC721Wrapper && extensions@[k]
                    != TokenExtension::ERC20Wrapper,
        decreases extensions.len() - i,
    {
        match extensions[i] {
            TokenExtension::ERC721Wrapper | TokenExtension::ERC20Wrapper => {
                return true;
            },
            _ => {},
        }
        i = i + 1;
    }
    false
}

/// Looking at one more extension finds the counter needed exactly when it
/// was needed before or that extension needs it.
proof fn lemma_counter_step(extensions: Seq<TokenExtension>, i: int)
    requires
        0 <= i < extensions.len(),
    ensures
        needs_token_counter(extensions.take(i + 1)) == (needs_token_counter(extensions.take(i))
            || extensions[i] == TokenExtension::ERC721Enumerable || extensions[i]
            == TokenExtension::ERC721Burnable),
{
    let shorter = extensions.take(i);
    let longer = extensions.take(i + 1);
    if needs_token_counter(shorter) {
        let k = choose|k: int|
            0 <= k < shorter.len() && (#[trigger] shorter[k] == TokenExtension::ERC721Enumerable
                || shorter[k] == TokenExtension::ERC721Burnable);
        assert(longer[k] == shorter[k]);
    }
    if extensions[i] == TokenExtension::ERC721Enumerable || extensions[i]
        == TokenExtension::ERC721Burnable {
        assert(longer[i] == extensions[i]);
    }
    if needs_token_counter(longer) {
        let k = choose|k: int|
            0 <= k < longer.len() && (#[trigger] longer[k] == TokenExtension::ERC721Enumerable
                || longer[k] == TokenExtension::ERC721Burnable);
        if k < i {
            assert(shorter[k] == longer[k]);
        }
    }
}

/// The Solidity composer for one contract.
pub struct SolidityTemplate {
    pub contract_name: String,
    pub contract_type: ContractType,
    pub pragma: String,
    pub license: String,
}

impl SolidityTemplate {
    /// A composer for the contract `contract_name` of type `contract_type`,
    /// for the compiler version `pragma` and under the license `license`.
    pub fn new(
        contract_name: String,
        contract_type: ContractType,
        pragma: String,
        license: String,
    ) -> (r: Self)
        ensures
            r.contract_name == contract_name,
            r.contract_type == contract_type,
            r.pragma == pragma,
            r.license == license,
    {
        Self { contract_name, contract_type, pragma, license }
    }

    /// The text of the contract, by its type.
    pub fn generate_contract(&self) -> (r: String)
        ensures
            r@ == contract_source(
                self.contract_name@,
                self.pragma@,
                self.license@,
                self.contract_type@,
            ),
    {
        match &self.contract_type {
            ContractType::Basic => self.generate_basic_contract(),
            ContractType::ERC20 => self.generate_erc20_contract(),
            ContractType::ERC721 => self.generate_erc721_contract(),
            ContractType::ERC1155 => self.generate_erc1155_contract(),
            ContractType::ERC20Upgradeable => self.generate_erc20_upgradeable_contract(),
            ContractType::ERC721Upgradeable => self.generate_erc721_upgradeable_contract(),
            ContractType::ERC1155Upgradeable => self.generate_erc1155_upgradeable_contract(),
            ContractType::MultiInheritance { base_type, extensions } => {
                self.generate_multi_inheritance_contract(base_type, extensions.as_slice())
            },
            ContractType::Interface => self.generate_interface(),
            ContractType::Abstract => self.generate_abstract_contract(),
        }
    }

    /// What a test or a script passes to the contract's constructor.
    pub fn constructor_arguments(&self) -> (r: &'static str)
        ensures
            r@ == constructor_arguments(self.contract_type@),
    {
        match self.contract_type.effective_standard() {
            Some(Standard::ERC20) => SUPPLY_ARGUMENT,
            _ => NO_ARGUMENT,
        }
    }

    /// The test that goes with the contract.
    pub fn generate_test(&self) -> (r: String)
        ensures
            r@ == test_source(self.contract_name@, self.pragma@, self.license@, self.contract_type@),
    {
        let arguments = self.constructor_arguments();
        let mut out = String::new();
        push_header(&mut out, self.license.as_str(), self.pragma.as_str());
        out.append(TEST_IMPORTS);
        out.append(self.contract_name.as_str());
        out.append(TEST_CONTRACT);
        out.append(self.contract_name.as_str());
        out.append(TEST_INSTANCE);
        out.append(self.contract_name.as_str());
        out.append(TEST_SETUP);
        out.append("instance = new ");
        out.append(self.contract_name.as_str());
        out.append(arguments);
        out.append(";");
        out.append(TEST_BODY);
        out
    }

    /// The deployment script that goes with the contract.
    pub fn generate_script(&self) -> (r: String)
        ensures
            r@ == script_source(self.contract_name@, self.pragma@, self.license@, self.contract_type@),
    {
        let arguments = self.constructor_arguments();
        let mut out = String::new();
        push_header(&mut out, self.license.as_str(), self.pragma.as_str());
        out.append(SCRIPT_IMPORTS);
        out.append(self.contract_name.as_str());
        out.append(SCRIPT_CONTRACT);
        out.append(self.contract_name.as_str());
        out.append(SCRIPT_RETURNS);
        out.append(self.contract_name.as_str());
        out.append(SCRIPT_BROADCAST);
        out.append(self.contract_name.as_str());
        out.append(" instance = new ");
        out.append(self.contract_name.as_str());
        out.append(arguments);
        out.append(";");
        out.append(SCRIPT_BODY);
        out
    }

    /// A contract without inheritance.
    pub fn generate_basic_contract(&self) -> (r: String)
        ensures
            r@ == basic_contract(self.contract_name@, self.pragma@, self.license@),
    {
        let mut out = String::new();
        push_header(&mut out, self.license.as_str(), self.pragma.as_str());
        out.append("contract ");
        out.append(self.contract_name.as_str());
        out.append(BASIC_BODY);
        out
    }

    /// A fungible token.
    pub fn generate_erc20_contract(&self) -> (r: String)
        ensures
            r@ == erc20_contract(self.contract_name@, self.pragma@, self.license@),
    {
        let symbol = self.get_symbol();
        let mut out = String::new();
        push_header(&mut out, self.license.as_str(), self.pragma.as_str());
        out.append(ERC20_PREAMBLE);
        out.append(self.contract_name.as_str());
        out.append(ERC20_CONSTRUCTOR);
        out.append(self.contract_name.as_str());
        out.append("\", \"");
        out.append(symbol.as_str());
        out.append(ERC20_BODY);
        out
    }

    /// A non-fungible token.
    pub fn generate_erc721_contract(&self) -> (r: String)
        ensures
            r@ == erc721_contract(self.contract_name@, self.pragma@, self.license@),
    {
        let symbol = self.get_symbol();
        let mut out = String::new();
        push_header(&mut out, self.license.as_str(), self.pragma.as_str());
        out.append(ERC721_PREAMBLE);
        out.append(self.contract_name.as_str());
        out.append(ERC721_CONSTRUCTOR);
        out.append(self.contract_name.as_str());
        out.append("\", \"");
        out.append(symbol.as_str());
        out.append(ERC721_BODY);
        out
    }

    /// An upgradeable fungible token.
    pub fn generate_erc20_upgradeable_contract(&self) -> (r: String)
        ensures
            r@ == erc20_upgradeable_contract(self.contract_name@, self.pragma@, self.license@),
    {
        let symbol = self.get_symbol();
        let mut out = String::new();
        push_header(&mut out, self.license.as_str(), self.pragma.as_str());
        out.append(ERC20_UPGRADEABLE_PREAMBLE);
        out.append(self.contract_name.as_str());
        out.append(ERC20_UPGRADEABLE_INITIALIZER);
        out.append(self.contract_name.as_str());
        out.append("\", \"");
        out.append(symbol.as_str());
        out.append(ERC20_UPGRADEABLE_BODY);
        out
    }

    /// An upgradeable non-fungible token.
    pub fn generate_erc721_upgradeable_contract(&self) -> (r: String)
        ensures
            r@ == erc721_upgradeable_contract(self.contract_name@, self.pragma@, self.license@),
    {
        let symbol = self.get_symbol();
        let mut out = String::new();
        push_header(&mut out, self.license.as_str(), self.pragma.as_str());
        out.append(ERC721_UPGRADEABLE_PREAMBLE);
        out.append(self.contract_name.as_str());
        out.append(ERC721_UPGRADEABLE_INITIALIZER);
        out.append(self.contract_name.as_str());
        out.append("\", \"");
        out.append(symbol.as_str());
        out.append(ERC721_UPGRADEABLE_BODY);
        out
    }

    /// A multi-token contract.
    pub fn generate_erc1155_contract(&self) -> (r: String)
        ensures
            r@ == erc1155_contract(self.contract_name@, self.pragma@, self.license@),
    {
        let mut out = String::new();
        push_header(&mut out, self.license.as_str(), self.pragma.as_str());
        out.append(ERC1155_PREAMBLE);
        out.append(self.contract_name.as_str());
        out.append(ERC1155_BODY);
        out
    }

    /// An upgradeable multi-token contract.
    pub fn generate_erc1155_upgradeable_contract(&self) -> (r: String)
        ensures
            r@ == erc1155_upgradeable_contract(self.contract_name@, self.pragma@, self.license@),
    {
        let mut out = String::new();
        push_header(&mut out, self.license.as_str(), self.pragma.as_str());
        out.append(ERC1155_UPGRADEABLE_PREAMBLE);
        out.append(self.contract_name.as_str());
        out.append(ERC1155_UPGRADEABLE_BODY);
        out
    }

    /// A contract that inherits from `base_type`, from the access-control
    /// mix-in and from each of `extensions` as converted for `base_type`.
    pub fn generate_multi_inheritance_contract(
        &self,
        base_type: &ContractType,
        extensions: &[TokenExtension],
    ) -> (r: String)
        ensures
            r@ == multi_inheritance_contract(
                self.contract_name@,
                self.pragma@,
                self.license@,
                base_type@,
                extensions@,
            ),
    {
        let effective = convert_extensions(base_type, extensions);
        let parts = self.build_inheritance_components(base_type, extensions);
        let variables = self.generate_state_variables(effective.as_slice());
        let construction = if base_type.is_upgradeable() {
            self.initializer_section(base_type, effective.as_slice())
        } else {
            self.constructor_section(base_type, effective.as_slice())
        };
        let mut out = String::new();
        push_header(&mut out, self.license.as_str(), self.pragma.as_str());
        out.append(parts.0.as_str());
        out.append("\n\ncontract ");
        out.append(self.contract_name.as_str());
        out.append(" is ");
        out.append(parts.1.as_str());
        out.append(" {\n");
        out.append(variables.as_str());
        out.append("\n\n");
        out.append(construction.as_str());
        out.append("\n\n");
        out.append(parts.3.as_str());
        out.append("\n}");
        out
    }

    /// The constructor of a composite over `base_type`, which is not
    /// upgradeable, whose extensions, converted, are `effective`.
    pub fn constructor_section(&self, base_type: &ContractType, effective: &[TokenExtension]) -> (r:
        String)
        ensures
            r@ == constructor_section(self.contract_name@, base_type@, effective@),
    {
        let call = self.constructor_call(base_type, effective);
        let mut out = String::from_str("    constructor(");
        out.append(constructor_parameters_of(base_type));
        out.append(") ");
        out.append(call.as_str());
        out.append(" Ownable(msg.sender) {\n");
        out.append(constructor_body_of(base_type));
        out.append("\n    }");
        out
    }

    /// What stands in place of the constructor in a composite over the
    /// upgradeable tag `base_type`: the constructor that disables the
    /// initializers, the initializer, and the upgrade hook.
    pub fn initializer_section(&self, base_type: &ContractType, effective: &[TokenExtension]) -> (r:
        String)
        ensures
            r@ == initializer_section(self.contract_name@, base_type@, effective@),
    {
        let statements = self.initializer_statements(base_type);
        let mut out = String::from_str(DISABLED_CONSTRUCTOR);
        out.append(wrapper_clause_of(base_type, effective));
        out.append(DISABLE_INITIALIZERS);
        out.append("\n\n");
        out.append("    function initialize(");
        out.append(constructor_parameters_of(base_type));
        out.append(") public initializer {");
        out.append("\n");
        out.append(statements.as_str());
        out.append("\n    }");
        out.append("\n\n");
        out.append(UPGRADE_HOOK);
        out
    }

    /// The statements of the initializer of a composite over `base_type`.
    pub fn initializer_statements(&self, base_type: &ContractType) -> (r: String)
        ensures
            r@ == initializer_statements(self.contract_name@, base_type@),
    {
        let mut out = String::new();
        match base_type {
            ContractType::ERC20Upgradeable => {
                let symbol = self.get_symbol();
                out.append("        __ERC20_init(\"");
                out.append(self.contract_name.as_str());
                out.append("\", \"");
                out.append(symbol.as_str());
                out.append("\");\n");
                out.append(TAKE_OWNERSHIP);
                out.append("\n");
                out.append(MINT_SUPPLY);
            },
            ContractType::ERC721Upgradeable => {
                let symbol = self.get_symbol();
                out.append("        __ERC721_init(\"");
                out.append(self.contract_name.as_str());
                out.append("\", \"");
                out.append(symbol.as_str());
                out.append("\");\n");
                out.append(TAKE_OWNERSHIP);
            },
            ContractType::ERC1155Upgradeable => {
                out.append(ERC1155_INIT);
                out.append("\n");
                out.append(TAKE_OWNERSHIP);
            },
            _ => {},
        }
        out
    }

    /// The call of the base constructor of a composite over `base_type`
    /// whose extensions, converted, are `effective`.
    pub fn constructor_call(&self, base_type: &ContractType, effective: &[TokenExtension]) -> (r:
        String)
        ensures
            r@ == constructor_call(self.contract_name@, base_type@, effective@),
    {
        let mut out = String::new();
        match base_type {
            ContractType::ERC20 => {
                let symbol = self.get_symbol();
                out.append("ERC20(\"");
                out.append(self.contract_name.as_str());
                out.append("\", \"");
                out.append(symbol.as_str());
                out.append("\")");
            },
            ContractType::ERC721 => {
                let symbol = self.get_symbol();
                out.append("ERC721(\"");
                out.append(self.contract_name.as_str());
                out.append("\", \"");
                out.append(symbol.as_str());
                out.append("\")");
                out.append(wrapper_clause_of(base_type, effective));
            },
            ContractType::ERC1155 => {
                out.append(ERC1155_CALL);
            },
            _ => {},
        }
        out
    }

    /// The joined imports, the joined inheritance list, the initializers
    /// (there are none) and the joined member blocks of a composite.
    pub fn build_inheritance_components(
        &self,
        base_type: &ContractType,
        extensions: &[TokenExtension],
    ) -> (r: (String, String, String, String))
        ensures
            r.0@ == joined(import_parts(base_type@, extensions@), "\n"@),
            r.1@ == joined(inheritance_parts(base_type@, extensions@), ", "@),
            r.2@ == Seq::<char>::empty(),
            r.3@ == joined(
                function_parts(base_type@, extensions@, extensions@.len()),
                "\n\n"@,
            ),
    {
        let mut imports: Vec<String> = Vec::new();
        let mut inheritance: Vec<String> = Vec::new();
        let mut functions: Vec<String> = Vec::new();
        match base_import_of(base_type) {
            Some(line) => {
                imports.push(String::from_str(line));
            },
            None => {},
        }
        match base_inheritance_of(base_type) {
            Some(entry) => {
                inheritance.push(String::from_str(entry));
            },
            None => {},
        }
        imports.push(String::from_str(OWNABLE_IMPORT));
        inheritance.push(String::from_str(OWNABLE));
        let ghost import_head = leading_part(base_import(base_type@)) + seq![OWNABLE_IMPORT@];
        let ghost inheritance_head = leading_part(base_inheritance(base_type@)) + seq![OWNABLE@];
        assert(texts(imports@) == import_head);
        assert(texts(inheritance@) == inheritance_head);
        let mut i: usize = 0;
        while i < extensions.len()
            invariant
                i <= extensions.len(),
                import_head == leading_part(base_import(base_type@)) + seq![OWNABLE_IMPORT@],
                inheritance_head == leading_part(base_inheritance(base_type@)) + seq![OWNABLE@],
                texts(imports@) == import_head + Seq::new(
                    i as nat,
                    |k: int| extension_import(extensions@[k].converted_for(base_type@)),
                ),
                texts(inheritance@) == inheritance_head + Seq::new(
                    i as nat,
                    |k: int| extension_inheritance(extensions@[k].converted_for(base_type@)),
                ),
                texts(functions@) == function_parts(base_type@, extensions@, i as nat),
            decreases extensions.len() - i,
        {
            let converted = convert_extension_for_base_type(base_type, &extensions[i]);
            let parts = self.get_extension_components(&converted);
            let ghost imports_before = texts(imports@);
            let ghost inheritance_before = texts(inheritance@);
            let ghost functions_before = texts(functions@);
            let ghost members = parts.3@;
            imports.push(parts.0);
            inheritance.push(parts.1);
            assert(texts(imports@) == imports_before.push(extension_import(converted)));
            assert(texts(inheritance@) == inheritance_before.push(
                extension_inheritance(converted),
            ));
            if !parts.3.as_str().is_empty() {
                functions.push(parts.3);
                assert(texts(functions@) == functions_before.push(members));
            }
            i = i + 1;
        }
        let initializers = String::new();
        (join(&imports, "\n"), join(&inheritance, ", "), initializers, join(&functions, "\n\n"))
    }

    /// Converts `extension` for `base_type`.
    pub fn convert_extension_for_base_type(
        &self,
        base_type: &ContractType,
        extension: &TokenExtension,
    ) -> (r: TokenExtension)
        ensures
            r == extension.converted_for(base_type@),
    {
        convert_extension_for_base_type(base_type, extension)
    }

    /// The import lines, the inheritance entry, the initializer (there is
    /// none) and the members of one extension.
    pub fn get_extension_components(&self, extension: &TokenExtension) -> (r: (
        String,
        String,
        String,
        String,
    ))
        ensures
            r.0@ == extension_import(*extension),
            r.1@ == extension_inheritance(*extension),
            r.2@ == Seq::<char>::empty(),
            r.3@ == extension_functions(*extension),
    {
        let mut entry = String::from_str(extension.name());
        match extension {
            TokenExtension::ERC20Votes | TokenExtension::ERC721Votes => {
                entry.append(", EIP712");
            },
            _ => {},
        }
        (
            String::from_str(import_of(extension)),
            entry,
            String::new(),
            String::from_str(functions_of(extension)),
        )
    }

    /// The state variables that `extensions` need.
    pub fn generate_state_variables(&self, extensions: &[TokenExtension]) -> (r: String)
        ensures
            r@ == state_variables(extensions@),
    {
        let mut found = false;
        let mut i: usize = 0;
        while i < extensions.len()
            invariant
                i <= extensions.len(),
                found == needs_token_counter(extensions@.take(i as int)),
            decreases extensions.len() - i,
        {
            match extensions[i] {
                TokenExtension::ERC721Enumerable | TokenExtension::ERC721Burnable => {
                    found = true;
                },
                _ => {},
            }
            proof {
                lemma_counter_step(extensions@, i as int);
            }
            i = i + 1;
        }
        assert(extensions@.take(extensions.len() as int) == extensions@);
        if found {
            String::from_str(TOKEN_COUNTER)
        } else {
            String::new()
        }
    }

    /// The token symbol derived from the contract's name.
    pub fn get_symbol(&self) -> (r: String)
        ensures
            r@ == symbol_text(self.contract_name@),
    {
        symbol_of(self.contract_name.as_str())
    }

    /// A standalone library of the template's name.
    pub fn generate_library(&self) -> (r: String)
        ensures
            r@ == library_source(self.contract_name@, self.pragma@, self.license@),
    {
        let mut out = String::new();
        push_header(&mut out, self.license.as_str(), self.pragma.as_str());
        out.append(LIBRARY_TITLE);
        out.append(self.contract_name.as_str());
        out.append(LIBRARY_NOTICE);
        out.append(self.contract_name.as_str());
        out.append(LIBRARY_BODY);
        out
    }

    /// A standalone interface of the template's name.
    pub fn generate_interface(&self) -> (r: String)
        ensures
            r@ == interface_source(self.contract_name@, self.pragma@, self.license@),
    {
        let mut out = String::new();
        push_header(&mut out, self.license.as_str(), self.pragma.as_str());
        out.append(INTERFACE_TITLE);
        out.append(self.contract_name.as_str());
        out.append(INTERFACE_NOTICE);
        out.append(self.contract_name.as_str());
        out.append(INTERFACE_DECLARATION);
        out.append(self.contract_name.as_str());
        out.append(INTERFACE_BODY);
        out
    }

    /// A standalone abstract contract of the template's name.
    pub fn generate_abstract_contract(&self) -> (r: String)
        ensures
            r@ == abstract_contract_source(self.contract_name@, self.pragma@, self.license@),
    {
        let mut out = String::new();
        push_header(&mut out, self.license.as_str(), self.pragma.as_str());
        out.append(ABSTRACT_TITLE);
        out.append(self.contract_name.as_str());
        out.append(ABSTRACT_NOTICE);
        out.append(self.contract_name.as_str());
        out.append(ABSTRACT_DECLARATION);
        out.append(self.contract_name.as_str());
        out.append(ABSTRACT_BODY);
        out
    }
}

impl Template for SolidityTemplate {
    open spec fn supports_contract(&self) -> bool {
        true
    }

    open spec fn contract_text(&self) -> Seq<char> {
        contract_source(self.contract_name@, self.pragma@, self.license@, self.contract_type@)
    }

    open spec fn test_text(&self) -> Seq<char> {
        test_source(self.contract_name@, self.pragma@, self.license@, self.contract_type@)
    }

    open spec fn script_text(&self) -> Seq<char> {
        script_source(self.contract_name@, self.pragma@, self.license@, self.contract_type@)
    }

    open spec fn library_text(&self) -> Seq<char> {
        library_source(self.contract_name@, self.pragma@, self.license@)
    }

    open spec fn interface_text(&self) -> Seq<char> {
        interface_source(self.contract_name@, self.pragma@, self.license@)
    }

    open spec fn abstract_contract_text(&self) -> Seq<char> {
        abstract_contract_source(self.contract_name@, self.pragma@, self.license@)
    }

    fn generate_contract(&self) -> (r: String) {
        SolidityTemplate::generate_contract(self)
    }

    fn generate_test(&self) -> (r: String) {
        SolidityTemplate::generate_test(self)
    }

    fn generate_script(&self) -> (r: String) {
        SolidityTemplate::generate_script(self)
    }

    fn generate_library(&self) -> (r: String) {
        SolidityTemplate::generate_library(self)
    }

    fn generate_interface(&self) -> (r: String) {
        SolidityTemplate::generate_interface(self)
    }

    fn generate_abstract_contract(&self) -> (r: String) {
        SolidityTemplate::generate_abstract_contract(self)
    }
}

} // verus!
