use gramr::{
    ContractGenerator, ContractType, FoundryProject, GramrError, Plan, Snapshot, Step, Tool,
};

fn create_test_foundry_project() -> (Snapshot, FoundryProject) {
    let root = "/work/project".to_string();
    let seen = Snapshot::new(
        vec![
            "/work/project/foundry.toml".to_string(),
            "/work/project/src".to_string(),
            "/work/project/test".to_string(),
            "/work/project/script".to_string(),
            "/work/project/lib".to_string(),
        ],
        None,
    );
    let project = FoundryProject {
        root: root.clone(),
        src_dir: "/work/project/src".to_string(),
        test_dir: "/work/project/test".to_string(),
        script_dir: "/work/project/script".to_string(),
    };
    (seen, project)
}

fn written(plan: &Plan, path: &str) -> bool {
    plan.steps
        .iter()
        .any(|step| matches!(step, Step::WriteFile { path: p, .. } if p == path))
}

#[test]
fn test_contract_generator_new() {
    let (_seen, project) = create_test_foundry_project();

    let generator = ContractGenerator::new(
        project,
        "TestContract".to_string(),
        ContractType::Basic,
        true,
        true,
        "0.8.30".to_string(),
        "MIT".to_string(),
    );

    assert_eq!(generator.contract_name, "TestContract");
    assert!(matches!(generator.contract_type, ContractType::Basic));
    assert!(generator.with_test);
    assert!(generator.with_script);
    assert_eq!(generator.pragma, "0.8.30");
    assert_eq!(generator.license, "MIT");
}

#[test]
fn test_validate_name_success() {
    let (_seen, project) = create_test_foundry_project();

    let generator = ContractGenerator::new(
        project,
        "ValidName".to_string(),
        ContractType::Basic,
        false,
        false,
        "0.8.30".to_string(),
        "MIT".to_string(),
    );

    assert!(generator.validate_name().is_ok());
}

#[test]
fn test_validate_name_with_underscores() {
    let (_seen, project) = create_test_foundry_project();

    let generator = ContractGenerator::new(
        project,
        "Valid_Name_123".to_string(),
        ContractType::Basic,
        false,
        false,
        "0.8.30".to_string(),
        "MIT".to_string(),
    );

    assert!(generator.validate_name().is_ok());
}

#[test]
fn test_validate_name_empty() {
    let (_seen, project) = create_test_foundry_project();

    let generator = ContractGenerator::new(
        project,
        "".to_string(),
        ContractType::Basic,
        false,
        false,
        "0.8.30".to_string(),
        "MIT".to_string(),
    );

    let result = generator.validate_name();
    assert!(result.is_err());
    if let Err(GramrError::InvalidContractName(msg)) = result {
        assert!(msg.contains("cannot be empty"));
    } else {
        panic!("Expected InvalidContractName error");
    }
}

#[test]
fn test_validate_name_starts_with_number() {
    let (_seen, project) = create_test_foundry_project();

    let generator = ContractGenerator::new(
        project,
        "123Contract".to_string(),
        ContractType::Basic,
        false,
        false,
        "0.8.30".to_string(),
        "MIT".to_string(),
    );

    let result = generator.validate_name();
    assert!(result.is_err());
    if let Err(GramrError::InvalidContractName(msg)) = result {
        assert!(msg.contains("must start with a letter"));
    } else {
        panic!("Expected InvalidContractName error");
    }
}

#[test]
fn test_validate_name_invalid_characters() {
    let (_seen, project) = create_test_foundry_project();

    let generator = ContractGenerator::new(
        project,
        "Contract-Name".to_string(),
        ContractType::Basic,
        false,
        false,
        "0.8.30".to_string(),
        "MIT".to_string(),
    );

    let result = generator.validate_name();
    assert!(result.is_err());
    if let Err(GramrError::InvalidContractName(msg)) = result {
        assert!(msg.contains("can only contain letters, numbers, and underscores"));
    } else {
        panic!("Expected InvalidContractName error");
    }
}

#[test]
fn contract_test_generate_basic_contract() {
    let (seen, project) = create_test_foundry_project();
    let project_src = project.src_dir.clone();

    let generator = ContractGenerator::new(
        project,
        "BasicContract".to_string(),
        ContractType::Basic,
        false,
        false,
        "0.8.30".to_string(),
        "MIT".to_string(),
    );

    let plan = generator.generate(&seen);
    assert!(plan.outcome.is_ok());

    let contract_path = format!("{}/BasicContract.sol", project_src);
    assert!(written(&plan, &contract_path));
}

#[test]
fn test_generate_with_test_and_script() {
    let (seen, project) = create_test_foundry_project();
    let project_src = project.src_dir.clone();
    let project_test = project.test_dir.clone();
    let project_script = project.script_dir.clone();

    let generator = ContractGenerator::new(
        project,
        "FullContract".to_string(),
        ContractType::Basic,
        true,
        true,
        "0.8.30".to_string(),
        "MIT".to_string(),
    );

    let plan = generator.generate(&seen);
    assert!(plan.outcome.is_ok());

    let contract_path = format!("{}/FullContract.sol", project_src);
    let test_path = format!("{}/FullContract.t.sol", project_test);
    let script_path = format!("{}/DeployFullContract.s.sol", project_script);

    assert!(written(&plan, &contract_path));
    assert!(written(&plan, &test_path));
    assert!(written(&plan, &script_path));
}

#[test]
fn test_generate_invalid_name() {
    let (seen, project) = create_test_foundry_project();

    let generator = ContractGenerator::new(
        project,
        "".to_string(),
        ContractType::Basic,
        false,
        false,
        "0.8.30".to_string(),
        "MIT".to_string(),
    );

    let plan = generator.generate(&seen);
    assert!(plan.outcome.is_err());
}

#[test]
fn test_dependency_checking_erc20() {
    let (seen, project) = create_test_foundry_project();

    let generator = ContractGenerator::new(
        project,
        "Token".to_string(),
        ContractType::ERC20,
        false,
        false,
        "0.8.30".to_string(),
        "MIT".to_string(),
    );

    let steps = generator.check_and_install_dependencies(&seen);
    assert!(steps.is_ok());
    let steps = steps.unwrap();
    assert_eq!(steps.len(), 1);
    assert!(matches!(&steps[0], Step::Run { tool: Tool::Forge, .. }));
}

#[test]
fn test_dependency_checking_basic() {
    let (seen, project) = create_test_foundry_project();

    let generator = ContractGenerator::new(
        project,
        "Basic".to_string(),
        ContractType::Basic,
        false,
        false,
        "0.8.30".to_string(),
        "MIT".to_string(),
    );

    let steps = generator.check_and_install_dependencies(&seen);
    assert!(steps.is_ok());
    assert!(steps.unwrap().is_empty());
}

#[test]
fn test_contract_generator_builder_pattern() {
    let (_seen, project) = create_test_foundry_project();

    let generator = ContractGenerator::new(
        project,
        "MyContract".to_string(),
        ContractType::ERC721,
        true,
        false,
        "0.8.25".to_string(),
        "Apache-2.0".to_string(),
    );

    assert_eq!(generator.contract_name, "MyContract");
    assert!(matches!(generator.contract_type, ContractType::ERC721));
    assert!(generator.with_test);
    assert!(!generator.with_script);
    assert_eq!(generator.pragma, "0.8.25");
    assert_eq!(generator.license, "Apache-2.0");
}
