use gramr::wizard::{
    available_extensions, check_name, choose_contract_type, init_can_be_forced, parse_extension,
    WizardState,
};
use gramr::{
    CargoProject, ContractType, FoundryProject, GenericContractGenerator, Language,
    LibraryGenerator, NothungError, Plan, ProjectType, ScriptGenerator, Snapshot, TestGenerator,
    TokenExtension,
};

fn foundry() -> FoundryProject {
    FoundryProject::at("/work/app".to_string())
}

fn nothing_seen() -> Snapshot {
    Snapshot::new(vec![], None)
}

fn answers(kind: &str) -> WizardState {
    let mut state = WizardState::new();
    state.resource_type = kind.to_string();
    state.name = "Vault".to_string();
    state
}

#[test]
fn the_wizard_starts_from_the_defaults() {
    let state = WizardState::new();
    assert_eq!(state.resource_type, "");
    assert_eq!(state.name, "");
    assert_eq!(state.language, Language::Solidity);
    assert!(state.contract_type.is_none());
    assert!(state.extensions.is_empty());
    assert!(!state.with_test);
    assert!(!state.with_script);
    assert_eq!(state.pragma, "0.8.30");
    assert_eq!(state.license, "UNLICENSED");
}

#[test]
fn the_wizard_offers_extensions_for_plain_standards_only() {
    let names = |base: ContractType| -> Vec<&'static str> {
        available_extensions(&base).iter().map(|choice| choice.name).collect()
    };
    assert_eq!(
        names(ContractType::ERC20),
        vec!["burnable", "pausable", "permit", "capped", "votes", "wrapper", "flashmint"]
    );
    assert_eq!(
        names(ContractType::ERC721),
        vec!["burnable", "pausable", "enumerable", "uristorage", "royalty", "votes"]
    );
    assert_eq!(names(ContractType::ERC1155), vec!["burnable", "pausable", "supply", "uristorage"]);
    for other in [
        ContractType::Basic,
        ContractType::ERC20Upgradeable,
        ContractType::ERC721Upgradeable,
        ContractType::ERC1155Upgradeable,
        ContractType::Interface,
        ContractType::Abstract,
    ] {
        assert!(names(other).is_empty());
    }
    let first = available_extensions(&ContractType::ERC20)[0];
    assert_eq!(first.description, "Token burning capability");
}

#[test]
fn every_offered_extension_belongs_to_its_standard() {
    for base in [ContractType::ERC20, ContractType::ERC721, ContractType::ERC1155] {
        for choice in available_extensions(&base) {
            let extension = parse_extension(choice.name, &base).unwrap();
            assert_eq!(Some(extension.standard()), base.standard());
            assert!(extension.is_compatible_with(&base));
        }
    }
    assert_eq!(
        parse_extension("burnable", &ContractType::ERC1155),
        Some(TokenExtension::ERC1155Burnable)
    );
    assert_eq!(
        parse_extension("votes", &ContractType::ERC721),
        Some(TokenExtension::ERC721Votes)
    );
    assert_eq!(parse_extension("permit", &ContractType::ERC721), None);
    assert_eq!(parse_extension("Burnable", &ContractType::ERC20), None);
    assert_eq!(parse_extension("burnable", &ContractType::Basic), None);
    assert_eq!(parse_extension("burnable", &ContractType::ERC20Upgradeable), None);
}

#[test]
fn a_standard_becomes_its_upgradeable_twin() {
    assert_eq!(choose_contract_type(ContractType::ERC20, true), ContractType::ERC20Upgradeable);
    assert_eq!(choose_contract_type(ContractType::ERC721, true), ContractType::ERC721Upgradeable);
    assert_eq!(choose_contract_type(ContractType::ERC1155, true), ContractType::ERC1155Upgradeable);
    assert_eq!(choose_contract_type(ContractType::Basic, true), ContractType::Basic);
    assert_eq!(choose_contract_type(ContractType::ERC20, false), ContractType::ERC20);
    assert_eq!(choose_contract_type(ContractType::Basic, false), ContractType::Basic);
}

#[test]
fn a_name_is_checked_while_it_is_typed() {
    let complaint = |name: &str| match check_name(name) {
        Err(NothungError::InvalidContractName(text)) => text,
        other => panic!("expected a complaint, got {:?}", other),
    };
    assert!(check_name("Vault_2").is_ok());
    assert_eq!(complaint(""), "Name cannot be empty");
    assert_eq!(complaint("2Vault"), "Name must start with a letter");
    assert_eq!(complaint("Va ult"), "Name can only contain letters, numbers, and underscores");
}

#[test]
fn a_failed_init_can_be_forced_where_the_directory_is_in_the_way() {
    assert!(init_can_be_forced("Error: directory is not empty"));
    assert!(init_can_be_forced("fatal: destination path already exists"));
    assert!(!init_can_be_forced("error: network unreachable"));
    assert!(!init_can_be_forced(""));
}

#[test]
fn scripts_and_tests_are_for_solidity_alone() {
    let mut state = answers("script");
    assert!(state.configure_script_or_test().is_ok());
    state.language = Language::RustStylus;
    assert_eq!(
        state.configure_script_or_test().unwrap_err(),
        NothungError::Other("Scripts and tests are only supported for Solidity projects".to_string())
    );
}

#[test]
fn the_answers_become_a_contract() {
    let mut state = answers("contract");
    state.contract_type = Some(ContractType::ERC721);
    state.extensions = vec![TokenExtension::ERC721Burnable, TokenExtension::ERC721Royalty];
    state.with_test = true;
    let plan = state.generate_from_state(ProjectType::Foundry(foundry()), &nothing_seen());
    let expected = GenericContractGenerator::new(
        ProjectType::Foundry(foundry()),
        Language::Solidity,
        "Vault".to_string(),
        ContractType::MultiInheritance {
            base_type: Box::new(ContractType::ERC721),
            extensions: vec![TokenExtension::ERC721Burnable, TokenExtension::ERC721Royalty],
        },
        true,
        false,
        Some("0.8.30".to_string()),
        Some("UNLICENSED".to_string()),
    )
    .generate(&nothing_seen());
    assert_eq!(plan, expected);
    assert!(plan.outcome.is_ok());

    let plain = answers("contract").generate_from_state(ProjectType::Foundry(foundry()), &nothing_seen());
    let expected = GenericContractGenerator::new(
        ProjectType::Foundry(foundry()),
        Language::Solidity,
        "Vault".to_string(),
        ContractType::Basic,
        false,
        false,
        Some("0.8.30".to_string()),
        Some("UNLICENSED".to_string()),
    )
    .generate(&nothing_seen());
    assert_eq!(plain, expected);
}

#[test]
fn the_answers_become_a_standalone_resource() {
    let library = answers("library").generate_from_state(ProjectType::Foundry(foundry()), &nothing_seen());
    assert_eq!(
        library,
        LibraryGenerator::new(
            ProjectType::Foundry(foundry()),
            Language::Solidity,
            "Vault".to_string(),
            Some("0.8.30".to_string()),
            Some("UNLICENSED".to_string()),
        )
        .generate(&nothing_seen())
    );
    let script = answers("script").generate_from_state(ProjectType::Foundry(foundry()), &nothing_seen());
    assert_eq!(
        script,
        ScriptGenerator::new(
            foundry(),
            "Vault".to_string(),
            "0.8.30".to_string(),
            "UNLICENSED".to_string()
        )
        .generate(&nothing_seen())
    );
    let test = answers("test").generate_from_state(ProjectType::Foundry(foundry()), &nothing_seen());
    assert_eq!(
        test,
        TestGenerator::new(
            foundry(),
            "Vault".to_string(),
            "0.8.30".to_string(),
            "UNLICENSED".to_string()
        )
        .generate(&nothing_seen())
    );
}

#[test]
fn the_answers_are_refused_where_nothing_can_be_generated() {
    let cargo = || ProjectType::Cargo(CargoProject { root: "/work/gem".to_string() });
    let refused = |text: &str| Plan {
        steps: vec![],
        outcome: Err(NothungError::Other(text.to_string())),
    };
    assert_eq!(
        answers("script").generate_from_state(cargo(), &nothing_seen()),
        refused("Script generation is only supported for Foundry projects")
    );
    assert_eq!(
        answers("test").generate_from_state(cargo(), &nothing_seen()),
        refused("Test generation is only supported for Foundry projects")
    );
    assert_eq!(
        answers("interface").generate_from_state(cargo(), &nothing_seen()),
        refused("Unsupported resource type: interface")
    );
}
