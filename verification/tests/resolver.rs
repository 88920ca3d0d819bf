use gramr::extensions::extension_for_short_name;
use gramr::templates::convert_extension_for_base_type;
use gramr::{
    determine_contract_type, parse_extension, parse_extensions,
    validate_extensions_compatibility, ContractType, GramrError, Language, NothungError,
    Standard, TokenExtension,
};

fn names(list: &[&str]) -> Vec<String> {
    list.iter().map(|name| name.to_string()).collect()
}

fn message(error: NothungError) -> String {
    match error {
        NothungError::Other(text) => text,
        other => panic!("expected the catch-all error, got {:?}", other),
    }
}

const ALL_EXTENSIONS: [TokenExtension; 23] = [
    TokenExtension::ERC20Permit,
    TokenExtension::ERC20Burnable,
    TokenExtension::ERC20Capped,
    TokenExtension::ERC20Pausable,
    TokenExtension::ERC20Votes,
    TokenExtension::ERC20Wrapper,
    TokenExtension::ERC20FlashMint,
    TokenExtension::ERC20TemporaryApproval,
    TokenExtension::ERC20Bridgeable,
    TokenExtension::ERC1363,
    TokenExtension::ERC4626,
    TokenExtension::ERC721Pausable,
    TokenExtension::ERC721Burnable,
    TokenExtension::ERC721Consecutive,
    TokenExtension::ERC721URIStorage,
    TokenExtension::ERC721Votes,
    TokenExtension::ERC721Royalty,
    TokenExtension::ERC721Wrapper,
    TokenExtension::ERC721Enumerable,
    TokenExtension::ERC1155Pausable,
    TokenExtension::ERC1155Burnable,
    TokenExtension::ERC1155Supply,
    TokenExtension::ERC1155URIStorage,
];

#[test]
fn every_short_name_stands_for_its_extension() {
    let catalog = [
        ("permit", TokenExtension::ERC20Permit),
        ("burnable", TokenExtension::ERC20Burnable),
        ("capped", TokenExtension::ERC20Capped),
        ("pausable", TokenExtension::ERC20Pausable),
        ("votes", TokenExtension::ERC20Votes),
        ("wrapper", TokenExtension::ERC20Wrapper),
        ("flashmint", TokenExtension::ERC20FlashMint),
        ("temporaryapproval", TokenExtension::ERC20TemporaryApproval),
        ("bridgeable", TokenExtension::ERC20Bridgeable),
        ("erc1363", TokenExtension::ERC1363),
        ("erc4626", TokenExtension::ERC4626),
        ("consecutive", TokenExtension::ERC721Consecutive),
        ("uristorage", TokenExtension::ERC721URIStorage),
        ("royalty", TokenExtension::ERC721Royalty),
        ("enumerable", TokenExtension::ERC721Enumerable),
        ("supply", TokenExtension::ERC1155Supply),
    ];
    for (name, extension) in catalog {
        assert_eq!(extension_for_short_name(name), Some(extension));
        assert_eq!(parse_extension(name), Some(extension));
        assert_eq!(parse_extension(&name.to_uppercase()), Some(extension));
    }
    assert_eq!(extension_for_short_name("Burnable"), None);
    assert_eq!(extension_for_short_name(""), None);
    assert_eq!(extension_for_short_name("burnable "), None);
}

#[test]
fn parsing_keeps_order_and_duplicates() {
    let parsed = parse_extensions(&names(&["pausable", "burnable", "pausable", "burnable"]));
    assert_eq!(
        parsed.unwrap(),
        vec![
            TokenExtension::ERC20Pausable,
            TokenExtension::ERC20Burnable,
            TokenExtension::ERC20Pausable,
            TokenExtension::ERC20Burnable,
        ]
    );
    let twice = parse_extensions(&names(&["burnable", "burnable"])).unwrap();
    assert_eq!(twice.len(), 2);
    assert_eq!(twice[0], twice[1]);
}

#[test]
fn parsing_ignores_case_but_not_whitespace() {
    let upper = parse_extensions(&names(&["BURNABLE"])).unwrap();
    let mixed = parse_extensions(&names(&["Burnable"])).unwrap();
    let lower = parse_extensions(&names(&["burnable"])).unwrap();
    assert_eq!(upper, vec![TokenExtension::ERC20Burnable]);
    assert_eq!(upper, mixed);
    assert_eq!(mixed, lower);
    assert!(parse_extensions(&names(&[" burnable "])).is_err());
    assert!(parse_extensions(&names(&["burnable\n"])).is_err());
    assert!(parse_extensions(&names(&[""])).is_err());
}

#[test]
fn the_first_unknown_name_is_reported_with_the_catalog() {
    let error = parse_extensions(&names(&["burnable", "Mystery", "another"])).unwrap_err();
    assert_eq!(
        message(error),
        "Unknown extension: Mystery. Available extensions: permit, burnable, capped, pausable, votes, wrapper, flashmint, temporaryapproval, bridgeable, erc1363, erc4626, consecutive, uristorage, royalty, wrapper, enumerable, supply"
    );
}

#[test]
fn extensions_are_named_and_belong_to_one_standard() {
    for extension in ALL_EXTENSIONS {
        let name = extension.name();
        assert_eq!(name, format!("{:?}", extension));
        let expected = if name.starts_with("ERC721") {
            Standard::ERC721
        } else if name.starts_with("ERC1155") {
            Standard::ERC1155
        } else {
            Standard::ERC20
        };
        assert_eq!(extension.standard(), expected);
    }
}

#[test]
fn compatibility_follows_the_matrix() {
    let bases = [
        (ContractType::ERC20, Some(Standard::ERC20)),
        (ContractType::ERC20Upgradeable, Some(Standard::ERC20)),
        (ContractType::ERC721, Some(Standard::ERC721)),
        (ContractType::ERC721Upgradeable, Some(Standard::ERC721)),
        (ContractType::ERC1155, Some(Standard::ERC1155)),
        (ContractType::ERC1155Upgradeable, Some(Standard::ERC1155)),
        (ContractType::Basic, None),
        (ContractType::Interface, None),
        (ContractType::Abstract, None),
    ];
    let crossing = [
        (Standard::ERC721, TokenExtension::ERC20Burnable, TokenExtension::ERC721Burnable),
        (Standard::ERC721, TokenExtension::ERC20Pausable, TokenExtension::ERC721Pausable),
        (Standard::ERC721, TokenExtension::ERC20Wrapper, TokenExtension::ERC721Wrapper),
        (Standard::ERC1155, TokenExtension::ERC20Burnable, TokenExtension::ERC1155Burnable),
        (Standard::ERC1155, TokenExtension::ERC20Pausable, TokenExtension::ERC1155Pausable),
        (Standard::ERC1155, TokenExtension::ERC721URIStorage, TokenExtension::ERC1155URIStorage),
    ];
    for (base, standard) in bases {
        assert_eq!(base.standard(), standard);
        for extension in ALL_EXTENSIONS {
            let counterpart = crossing
                .iter()
                .find(|(target, from, _)| Some(*target) == standard && *from == extension)
                .map(|(_, _, to)| *to);
            let native = standard == Some(extension.standard());
            assert_eq!(
                extension.is_compatible_with(&base),
                native || counterpart.is_some(),
                "{:?} against {:?}",
                extension,
                base
            );
            assert_eq!(
                convert_extension_for_base_type(&base, &extension),
                counterpart.unwrap_or(extension)
            );
            let converted = convert_extension_for_base_type(&base, &extension);
            assert_eq!(convert_extension_for_base_type(&base, &converted), converted);
            if extension.is_compatible_with(&base) {
                assert_eq!(Some(converted.standard()), standard);
            }
        }
    }
}

#[test]
fn an_incompatible_pair_is_rejected_by_name() {
    let error = validate_extensions_compatibility(
        &ContractType::ERC20,
        &[TokenExtension::ERC20Burnable, TokenExtension::ERC1155Supply, TokenExtension::ERC721Royalty],
    )
    .unwrap_err();
    assert_eq!(
        message(error),
        "Extension ERC1155Supply is not compatible with base type ERC20"
    );
    let error = validate_extensions_compatibility(
        &ContractType::ERC721Upgradeable,
        &[TokenExtension::ERC20Permit],
    )
    .unwrap_err();
    assert_eq!(
        message(error),
        "Extension ERC20Permit is not compatible with base type ERC721Upgradeable"
    );
    assert!(validate_extensions_compatibility(
        &ContractType::ERC721,
        &[TokenExtension::ERC20Burnable, TokenExtension::ERC721Votes],
    )
    .is_ok());
    assert!(validate_extensions_compatibility(&ContractType::Basic, &[]).is_ok());
}

#[test]
fn a_base_that_is_no_standard_takes_no_extension() {
    let nested = ContractType::MultiInheritance {
        base_type: Box::new(ContractType::ERC20),
        extensions: vec![TokenExtension::ERC20Permit, TokenExtension::ERC20Votes],
    };
    let error =
        validate_extensions_compatibility(&nested, &[TokenExtension::ERC20Permit]).unwrap_err();
    assert_eq!(
        message(error),
        format!("Extension ERC20Permit is not compatible with base type {:?}", nested)
    );
    assert_eq!(
        nested.debug_string(),
        "MultiInheritance { base_type: ERC20, extensions: [ERC20Permit, ERC20Votes] }"
    );
    let empty = ContractType::MultiInheritance {
        base_type: Box::new(ContractType::Basic),
        extensions: vec![],
    };
    assert_eq!(empty.debug_string(), format!("{:?}", empty));
    assert_eq!(ContractType::ERC1155Upgradeable.debug_string(), "ERC1155Upgradeable");
}

#[test]
fn flags_without_extensions_resolve_to_a_tag() {
    let cases = [
        ((false, false, false, false), ContractType::Basic),
        ((true, false, false, false), ContractType::ERC20),
        ((true, false, false, true), ContractType::ERC20Upgradeable),
        ((false, true, false, false), ContractType::ERC721),
        ((false, true, false, true), ContractType::ERC721Upgradeable),
        ((false, false, true, false), ContractType::ERC1155),
        ((false, false, true, true), ContractType::ERC1155Upgradeable),
    ];
    for ((erc20, erc721, erc1155, upgradeable), expected) in cases {
        let resolved =
            determine_contract_type(erc20, erc721, erc1155, upgradeable, &[], &Language::Solidity);
        assert_eq!(resolved.unwrap(), expected);
    }
    let stylus = determine_contract_type(false, true, false, false, &[], &Language::RustStylus);
    assert_eq!(stylus.unwrap(), ContractType::ERC721);
}

#[test]
fn extensions_resolve_to_a_composite_of_converted_extensions() {
    let resolved = determine_contract_type(
        false,
        true,
        false,
        false,
        &names(&["Burnable", "enumerable", "wrapper", "burnable"]),
        &Language::Solidity,
    )
    .unwrap();
    assert_eq!(
        resolved,
        ContractType::MultiInheritance {
            base_type: Box::new(ContractType::ERC721),
            extensions: vec![
                TokenExtension::ERC721Burnable,
                TokenExtension::ERC721Enumerable,
                TokenExtension::ERC721Wrapper,
                TokenExtension::ERC721Burnable,
            ],
        }
    );
    let upgradeable = determine_contract_type(
        false,
        false,
        true,
        true,
        &names(&["uristorage", "supply"]),
        &Language::Solidity,
    )
    .unwrap();
    assert_eq!(
        upgradeable,
        ContractType::MultiInheritance {
            base_type: Box::new(ContractType::ERC1155Upgradeable),
            extensions: vec![TokenExtension::ERC1155URIStorage, TokenExtension::ERC1155Supply],
        }
    );
}

#[test]
fn more_than_one_standard_is_rejected() {
    for flags in [(true, true, false), (true, false, true), (false, true, true), (true, true, true)] {
        let error = determine_contract_type(flags.0, flags.1, flags.2, false, &[], &Language::Solidity)
            .unwrap_err();
        assert_eq!(
            message(error),
            "Cannot use multiple base token types together (--oz-erc20, --oz-erc721, --oz-erc1155)"
        );
    }
}

#[test]
fn upgradeable_needs_a_standard() {
    let error =
        determine_contract_type(false, false, false, true, &[], &Language::Solidity).unwrap_err();
    assert_eq!(
        message(error),
        "Must specify a base token type (--oz-erc20, --oz-erc721, or --oz-erc1155) when using --upgradeable"
    );
}

#[test]
fn upgradeable_stylus_is_rejected_whatever_else_is_asked() {
    for erc20 in [false, true] {
        for erc721 in [false, true] {
            for erc1155 in [false, true] {
                for list in [vec![], names(&["burnable"]), names(&["bogus"])] {
                    let resolved = determine_contract_type(
                        erc20,
                        erc721,
                        erc1155,
                        true,
                        &list,
                        &Language::RustStylus,
                    );
                    assert!(resolved.is_err());
                }
            }
        }
    }
    let error =
        determine_contract_type(true, false, false, true, &[], &Language::RustStylus).unwrap_err();
    assert_eq!(
        message(error),
        "Upgradeable contracts are not yet supported for Rust/Stylus. OpenZeppelin Stylus library doesn't include upgradeable patterns yet."
    );
}

#[test]
fn extensions_need_a_standard() {
    for list in [names(&["burnable"]), names(&["bogus"])] {
        let error = determine_contract_type(false, false, false, false, &list, &Language::Solidity)
            .unwrap_err();
        assert_eq!(
            message(error),
            "Must specify a base token type (--oz-erc20, --oz-erc721, or --oz-erc1155) when using --extensions"
        );
    }
}

#[test]
fn unknown_and_incompatible_extensions_fail_the_resolution() {
    let unknown = determine_contract_type(
        true,
        false,
        false,
        false,
        &names(&["burnable", "bogus"]),
        &Language::Solidity,
    )
    .unwrap_err();
    assert!(message(unknown).starts_with("Unknown extension: bogus. Available extensions: "));
    let incompatible = determine_contract_type(
        true,
        false,
        false,
        false,
        &names(&["burnable", "supply"]),
        &Language::Solidity,
    )
    .unwrap_err();
    assert_eq!(
        message(incompatible),
        "Extension ERC1155Supply is not compatible with base type ERC20"
    );
}

#[test]
fn language_follows_the_two_flags() {
    assert_eq!(Language::from_flags(true, false).unwrap(), Language::Solidity);
    assert_eq!(Language::from_flags(false, true).unwrap(), Language::RustStylus);
    assert_eq!(
        message(Language::from_flags(false, false).unwrap_err()),
        "Must specify either --solidity or --rust-stylus"
    );
    assert_eq!(
        message(Language::from_flags(true, true).unwrap_err()),
        "Cannot specify both --solidity and --rust-stylus"
    );
    assert_eq!(Language::Solidity.file_extension(), "sol");
    assert_eq!(Language::RustStylus.file_extension(), "rs");
}

#[test]
fn every_error_has_its_line() {
    let text = || "x.sol".to_string();
    assert_eq!(
        GramrError::NotFoundryProject.message(),
        "Not in a Foundry project. Please run this command from a Foundry project directory."
    );
    assert_eq!(
        GramrError::FoundryNotInstalled.message(),
        "Foundry is not installed. Please install Foundry first: https://getfoundry.sh"
    );
    assert_eq!(GramrError::ProjectNotFound(text()).message(), "Project not found: x.sol");
    assert_eq!(GramrError::FileExists(text()).message(), "File already exists: x.sol");
    assert_eq!(GramrError::FileCreationError(text()).message(), "Failed to create file: x.sol");
    assert_eq!(
        GramrError::ForgeCommandError(text()).message(),
        "Failed to run forge command: x.sol"
    );
    assert_eq!(
        GramrError::InvalidContractName(text()).message(),
        "Invalid contract name: x.sol"
    );
    assert_eq!(GramrError::IoError(text()).message(), "IO error: x.sol");
    assert_eq!(GramrError::Other(text()).message(), "Other error: x.sol");
    assert_eq!(NothungError::other("plain"), NothungError::Other("plain".to_string()));
}
