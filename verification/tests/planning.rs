use gramr::generators::{
    check_and_install_dependencies, contract_file, dependency_of, deploy_file, name_verdict,
    plan_writes, test_file, validate_name, Dependency, NewFile,
};
use gramr::text::{contains_text, join, join_path, same_text};
use gramr::{
    compose, execute_new, AbstractContractGenerator, CargoProject, ConfigGenerator,
    ContractBuilder, ContractGenerator, ContractType, FoundryProject, GenericContractGenerator,
    InterfaceGenerator, Language, LibraryGenerator, NothungError, Plan, Project, ProjectType,
    ScriptGenerator, Snapshot, Step, TestGenerator, TokenExtension, Tool,
};

fn strings(list: &[&str]) -> Vec<String> {
    list.iter().map(|text| text.to_string()).collect()
}

fn nothing_seen() -> Snapshot {
    Snapshot::new(vec![], None)
}

fn seen(paths: &[&str]) -> Snapshot {
    Snapshot::new(strings(paths), None)
}

fn foundry() -> FoundryProject {
    FoundryProject::at("/work/app".to_string())
}

fn cargo() -> CargoProject {
    CargoProject { root: "/work/gem".to_string() }
}

fn directory(path: &str) -> Step {
    Step::CreateDirectory { path: path.to_string() }
}

fn foundry_directories() -> Vec<Step> {
    vec![directory("/work/app/src"), directory("/work/app/test"), directory("/work/app/script")]
}

fn forge_install(package: &str) -> Step {
    Step::Run {
        tool: Tool::Forge,
        arguments: strings(&["install", package]),
        directory: "/work/app".to_string(),
    }
}

fn write(path: &str, contents: String) -> Step {
    Step::WriteFile { path: path.to_string(), contents }
}

fn refused(error: NothungError) -> Plan {
    Plan { steps: vec![], outcome: Err(error) }
}

fn other(text: &str) -> NothungError {
    NothungError::Other(text.to_string())
}

fn after(plan: &Plan, before: &Snapshot) -> Snapshot {
    let mut paths = before.paths.clone();
    for step in &plan.steps {
        match step {
            Step::CreateDirectory { path } => paths.push(path.clone()),
            Step::WriteFile { path, .. } => paths.push(path.clone()),
            Step::Run { .. } => {}
        }
    }
    Snapshot::new(paths, before.manifest.clone())
}

#[test]
fn paths_are_joined_by_one_separator() {
    assert_eq!(join_path("/work/app", "src"), "/work/app/src");
    assert_eq!(join_path("/work/app/", "src"), "/work/app/src");
    assert_eq!(join_path("/", "src"), "/src");
    assert_eq!(join_path("", "src"), "src");
    assert_eq!(join_path("rel", "lib/openzeppelin-contracts"), "rel/lib/openzeppelin-contracts");
}

#[test]
fn texts_are_joined_compared_and_searched() {
    assert_eq!(join(&strings(&["a", "b", "c"]), ", "), "a, b, c");
    assert_eq!(join(&strings(&["only"]), ", "), "only");
    assert_eq!(join(&strings(&[]), ", "), "");
    assert_eq!(join(&strings(&["", ""]), "-"), "-");
    assert!(same_text("écu", "écu"));
    assert!(!same_text("ecu", "écu"));
    assert!(!same_text("a", "ab"));
    assert!(same_text("", ""));
    assert!(contains_text("[dependencies]\nopenzeppelin-stylus = \"0.3.0\"\n", "openzeppelin-stylus"));
    assert!(contains_text("abc", ""));
    assert!(contains_text("", ""));
    assert!(contains_text("abc", "abc"));
    assert!(contains_text("aab", "ab"));
    assert!(!contains_text("abc", "abcd"));
    assert!(!contains_text("openzeppelin_stylus", "openzeppelin-stylus"));
}

#[test]
fn a_name_is_judged_by_its_first_fault() {
    let complaint = |result: Result<(), NothungError>| match result {
        Err(NothungError::InvalidContractName(text)) => text,
        other => panic!("expected a complaint about the name, got {:?}", other),
    };
    assert!(validate_name("Contract name", "Token").is_ok());
    assert!(validate_name("Contract name", "t").is_ok());
    assert!(validate_name("Contract name", "Token_2").is_ok());
    assert!(validate_name("Contract name", "Écu").is_ok());
    assert_eq!(complaint(validate_name("Contract name", "")), "Contract name cannot be empty");
    assert_eq!(
        complaint(validate_name("Library name", "_Token")),
        "Library name must start with a letter"
    );
    assert_eq!(
        complaint(validate_name("Script name", "9-lives")),
        "Script name must start with a letter"
    );
    assert_eq!(
        complaint(validate_name("Test name", "Token Name")),
        "Test name can only contain letters, numbers, and underscores"
    );
    assert_eq!(
        complaint(name_verdict("Contract name", true, false, false)),
        "Contract name cannot be empty"
    );
    assert_eq!(
        complaint(name_verdict("Contract name", false, false, false)),
        "Contract name must start with a letter"
    );
    assert_eq!(
        complaint(name_verdict("Contract name", false, true, false)),
        "Contract name can only contain letters, numbers, and underscores"
    );
    assert!(name_verdict("Contract name", false, true, true).is_ok());
}

#[test]
fn the_nearest_marked_ancestor_is_the_foundry_root() {
    let candidates = strings(&["/work/app/src/deep", "/work/app/src", "/work/app", "/work", "/"]);
    let marks = seen(&["/work/app/foundry.toml", "/work/foundry.toml"]);
    assert_eq!(
        FoundryProject::find_foundry_root(&candidates, &marks).unwrap(),
        "/work/app"
    );
    let project = FoundryProject::detect(true, &candidates, &marks).unwrap();
    assert_eq!(project, foundry());
    assert_eq!(project.src_dir, "/work/app/src");
    assert_eq!(project.test_dir, "/work/app/test");
    assert_eq!(project.script_dir, "/work/app/script");
    assert_eq!(
        FoundryProject::detect(true, &candidates, &nothing_seen()).unwrap_err(),
        NothungError::NotFoundryProject
    );
    assert_eq!(
        FoundryProject::detect(false, &candidates, &marks).unwrap_err(),
        NothungError::FoundryNotInstalled
    );
    assert_eq!(
        FoundryProject::detect(true, &[], &marks).unwrap_err(),
        NothungError::NotFoundryProject
    );
}

#[test]
fn the_nearest_ancestor_with_a_manifest_is_the_cargo_root() {
    let candidates = strings(&["/work/gem/src", "/work/gem", "/work", "/"]);
    let marks = seen(&["/work/gem/Cargo.toml", "/work/Cargo.toml"]);
    assert_eq!(
        ProjectType::detect(&Language::RustStylus, false, &candidates, &marks).unwrap(),
        ProjectType::Cargo(cargo())
    );
    assert_eq!(CargoProject::detect(&candidates, &marks).unwrap(), cargo());
    assert_eq!(
        CargoProject::detect(&candidates, &nothing_seen()).unwrap_err(),
        NothungError::ProjectNotFound(
            "No Cargo.toml found. Please run from a Rust project directory.".to_string()
        )
    );
    assert!(ProjectType::detect(&Language::RustStylus, true, &[], &marks).is_err());
    assert_eq!(cargo().cargo_toml_path(), "/work/gem/Cargo.toml");
}

#[test]
fn files_are_named_after_the_contract() {
    assert_eq!(contract_file(&Language::Solidity, "MyToken"), "MyToken.sol");
    assert_eq!(contract_file(&Language::RustStylus, "MyToken"), "MyToken.rs");
    assert_eq!(test_file(&Language::Solidity, "MyToken"), "MyToken.t.sol");
    assert_eq!(test_file(&Language::RustStylus, "MyToken"), "my_token_test.rs");
    assert_eq!(deploy_file(&Language::Solidity, "MyToken"), "DeployMyToken.s.sol");
    assert_eq!(deploy_file(&Language::RustStylus, "MyToken"), "mytoken_deploy.md");
}

#[test]
fn the_language_picks_the_kind_of_project() {
    let candidates = strings(&["/work/app"]);
    let marks = seen(&["/work/app/foundry.toml", "/work/app/Cargo.toml"]);
    assert_eq!(
        ProjectType::detect(&Language::Solidity, true, &candidates, &marks).unwrap(),
        ProjectType::Foundry(foundry())
    );
    assert_eq!(
        ProjectType::detect(&Language::Solidity, false, &candidates, &marks).unwrap_err(),
        NothungError::FoundryNotInstalled
    );
    assert!(matches!(
        ProjectType::detect(&Language::RustStylus, true, &candidates, &marks).unwrap(),
        ProjectType::Cargo(_)
    ));
}

#[test]
fn projects_know_their_directories_and_packages() {
    let project = ProjectType::Foundry(foundry());
    assert_eq!(project.src_dir(), "/work/app/src");
    assert_eq!(project.test_dir(), "/work/app/test");
    assert_eq!(project.script_dir(), "/work/app/script");
    assert_eq!(project.ensure_directories(), foundry_directories());
    assert!(!project.has_openzeppelin(&nothing_seen()));
    assert!(project.has_openzeppelin(&seen(&["/work/app/lib/openzeppelin-contracts"])));
    assert!(!project.has_openzeppelin_upgradeable(&seen(&["/work/app/lib/openzeppelin-contracts"])));
    assert!(project
        .has_openzeppelin_upgradeable(&seen(&["/work/app/lib/openzeppelin-contracts-upgradeable"])));
    assert_eq!(
        project.install_openzeppelin().unwrap(),
        forge_install("OpenZeppelin/openzeppelin-contracts")
    );
    assert_eq!(
        project.install_openzeppelin_upgradeable().unwrap(),
        forge_install("OpenZeppelin/openzeppelin-contracts-upgradeable")
    );

    let project = ProjectType::Cargo(cargo());
    assert_eq!(project.src_dir(), "/work/gem/src");
    assert_eq!(project.test_dir(), "/work/gem/tests");
    assert_eq!(project.script_dir(), "/work/gem/scripts");
    assert_eq!(
        project.ensure_directories(),
        vec![
            directory("/work/gem/src"),
            directory("/work/gem/tests"),
            directory("/work/gem/scripts"),
        ]
    );
    let plain = Snapshot::new(vec![], Some("[dependencies]\n".to_string()));
    let with_package =
        Snapshot::new(vec![], Some("[dependencies]\nopenzeppelin-stylus = \"0.3.0\"\n".to_string()));
    let malformed = Snapshot::new(
        vec![],
        Some("invalid toml content but contains openzeppelin-stylus somewhere".to_string()),
    );
    assert!(!project.has_openzeppelin(&plain));
    assert!(!project.has_openzeppelin_upgradeable(&plain));
    assert!(project.has_openzeppelin(&with_package));
    assert!(project.has_openzeppelin_upgradeable(&with_package));
    assert!(project.has_openzeppelin(&malformed));
    assert!(!project.has_openzeppelin(&nothing_seen()));
    assert_eq!(
        project.install_openzeppelin().unwrap(),
        Step::Run {
            tool: Tool::Cargo,
            arguments: strings(&["add", "openzeppelin-stylus@=0.3.0"]),
            directory: "/work/gem".to_string(),
        }
    );
    assert_eq!(
        project.install_openzeppelin_upgradeable().unwrap_err(),
        other("Upgradeable contracts are not yet supported for Rust/Stylus projects")
    );
}

#[test]
fn a_failed_step_becomes_the_error_of_its_kind() {
    assert_eq!(
        forge_install("x").failure("fatal: repository not found"),
        NothungError::ForgeCommandError("fatal: repository not found".to_string())
    );
    assert_eq!(
        cargo().install_openzeppelin().unwrap().failure("no network"),
        other("Failed to add openzeppelin-stylus: no network")
    );
    assert_eq!(
        directory("/x").failure("permission denied"),
        NothungError::IoError("permission denied".to_string())
    );
    assert_eq!(
        write("/x", String::new()).failure("disk full"),
        NothungError::IoError("disk full".to_string())
    );
    assert_eq!(Tool::Forge.program(), "forge");
    assert_eq!(Tool::Cargo.program(), "cargo");
}

#[test]
fn a_contract_needs_the_package_of_its_standard() {
    let composite = |base| ContractType::MultiInheritance {
        base_type: Box::new(base),
        extensions: vec![TokenExtension::ERC20Burnable],
    };
    for plain in [ContractType::ERC20, ContractType::ERC721, ContractType::ERC1155] {
        assert_eq!(dependency_of(&plain), Dependency::OpenZeppelin);
        assert_eq!(dependency_of(&composite(plain)), Dependency::OpenZeppelin);
    }
    for upgradeable in [
        ContractType::ERC20Upgradeable,
        ContractType::ERC721Upgradeable,
        ContractType::ERC1155Upgradeable,
    ] {
        assert_eq!(dependency_of(&upgradeable), Dependency::OpenZeppelinUpgradeable);
        assert_eq!(dependency_of(&composite(upgradeable)), Dependency::OpenZeppelinUpgradeable);
    }
    for alone in [ContractType::Basic, ContractType::Interface, ContractType::Abstract] {
        assert_eq!(dependency_of(&alone), Dependency::Nothing);
        assert_eq!(dependency_of(&composite(alone)), Dependency::Nothing);
    }
}

#[test]
fn the_package_is_installed_only_where_it_is_missing() {
    let project = foundry();
    let installed = seen(&[
        "/work/app/lib/openzeppelin-contracts",
        "/work/app/lib/openzeppelin-contracts-upgradeable",
    ]);
    assert_eq!(
        check_and_install_dependencies(&project, &ContractType::ERC721, &nothing_seen()).unwrap(),
        vec![forge_install("OpenZeppelin/openzeppelin-contracts")]
    );
    assert_eq!(
        check_and_install_dependencies(&project, &ContractType::ERC721Upgradeable, &nothing_seen())
            .unwrap(),
        vec![forge_install("OpenZeppelin/openzeppelin-contracts-upgradeable")]
    );
    assert!(check_and_install_dependencies(&project, &ContractType::ERC721, &installed)
        .unwrap()
        .is_empty());
    assert!(check_and_install_dependencies(&project, &ContractType::ERC20Upgradeable, &installed)
        .unwrap()
        .is_empty());
    assert_eq!(
        check_and_install_dependencies(&cargo(), &ContractType::ERC20Upgradeable, &nothing_seen())
            .unwrap_err(),
        other("Upgradeable contracts are not yet supported for Rust/Stylus projects")
    );
}

#[test]
fn writes_stop_at_the_first_file_that_is_there() {
    let file = |path: &str| NewFile { path: path.to_string(), contents: format!("<{}>", path) };
    let files = vec![file("/a"), file("/b"), file("/c")];
    let plan = plan_writes(vec![directory("/")], &files, &seen(&["/c", "/b"]));
    assert_eq!(
        plan,
        Plan {
            steps: vec![directory("/"), write("/a", "</a>".to_string())],
            outcome: Err(NothungError::FileExists("/b".to_string())),
        }
    );
    let plan = plan_writes(vec![], &files, &nothing_seen());
    assert_eq!(
        plan,
        Plan {
            steps: vec![
                write("/a", "</a>".to_string()),
                write("/b", "</b>".to_string()),
                write("/c", "</c>".to_string()),
            ],
            outcome: Ok(()),
        }
    );
    assert_eq!(plan_writes(vec![], &vec![], &nothing_seen()), Plan { steps: vec![], outcome: Ok(()) });
}

#[test]
fn a_contract_with_test_and_script_is_three_files() {
    let generator = ContractGenerator::new(
        foundry(),
        "Coin".to_string(),
        ContractType::ERC20,
        true,
        true,
        "0.8.30".to_string(),
        "MIT".to_string(),
    );
    let texts =
        compose("Coin", &ContractType::ERC20, &Language::Solidity, Some("0.8.30"), Some("MIT"))
            .unwrap();
    let mut steps = foundry_directories();
    steps.push(forge_install("OpenZeppelin/openzeppelin-contracts"));
    steps.push(write("/work/app/src/Coin.sol", texts.contract));
    steps.push(write("/work/app/test/Coin.t.sol", texts.test));
    steps.push(write("/work/app/script/DeployCoin.s.sol", texts.script));
    assert_eq!(generator.generate(&nothing_seen()), Plan { steps, outcome: Ok(()) });
}

#[test]
fn generating_again_writes_the_same_three_files() {
    let generator = || {
        GenericContractGenerator::new(
            ProjectType::Foundry(foundry()),
            Language::Solidity,
            "Coin".to_string(),
            ContractType::ERC721,
            true,
            true,
            None,
            None,
        )
    };
    let writes = |plan: &Plan| -> Vec<Step> {
        plan.steps
            .iter()
            .filter(|step| matches!(step, Step::WriteFile { .. }))
            .map(|step| match step {
                Step::WriteFile { path, contents } => write(path, contents.clone()),
                _ => unreachable!(),
            })
            .collect()
    };
    let first = generator().generate(&nothing_seen());
    let installed = seen(&["/work/app/lib/openzeppelin-contracts", "/work/app/src"]);
    let second = generator().generate(&installed);
    assert!(first.outcome.is_ok());
    assert!(second.outcome.is_ok());
    assert_eq!(writes(&first).len(), 3);
    assert_eq!(writes(&first), writes(&second));
    assert_eq!(first.steps.len(), second.steps.len() + 1);
}

#[test]
fn a_second_run_overwrites_nothing() {
    let generator = ContractGenerator::new(
        foundry(),
        "Coin".to_string(),
        ContractType::Basic,
        true,
        false,
        "0.8.30".to_string(),
        "MIT".to_string(),
    );
    let before = nothing_seen();
    let first = generator.generate(&before);
    assert!(first.outcome.is_ok());
    let second = generator.generate(&after(&first, &before));
    assert_eq!(
        second,
        Plan {
            steps: foundry_directories(),
            outcome: Err(NothungError::FileExists("/work/app/src/Coin.sol".to_string())),
        }
    );
}

#[test]
fn a_test_that_is_there_stops_the_plan_after_the_contract() {
    let generator = ContractGenerator::new(
        foundry(),
        "Coin".to_string(),
        ContractType::Basic,
        true,
        true,
        "0.8.30".to_string(),
        "MIT".to_string(),
    );
    let plan = generator.generate(&seen(&["/work/app/test/Coin.t.sol"]));
    assert_eq!(plan.outcome, Err(NothungError::FileExists("/work/app/test/Coin.t.sol".to_string())));
    assert_eq!(plan.steps.len(), 4);
    assert!(matches!(&plan.steps[3], Step::WriteFile { path, .. } if path == "/work/app/src/Coin.sol"));
}

#[test]
fn a_stylus_contract_has_neither_test_nor_script() {
    let generator = |with_test, with_script, contract_type| {
        GenericContractGenerator::new(
            ProjectType::Cargo(cargo()),
            Language::RustStylus,
            "Gem".to_string(),
            contract_type,
            with_test,
            with_script,
            None,
            None,
        )
    };
    assert_eq!(
        generator(true, true, ContractType::Basic).generate(&nothing_seen()),
        refused(other(
            "Test generation (--with-test) is not supported for Rust/Stylus projects. Use 'cargo test' instead."
        ))
    );
    assert_eq!(
        generator(false, true, ContractType::Basic).generate(&nothing_seen()),
        refused(other(
            "Script generation (--with-script) is not supported for Rust/Stylus projects. Use deployment tools like 'stylus deploy' instead."
        ))
    );
    assert_eq!(
        generator(false, false, ContractType::ERC20Upgradeable).generate(&nothing_seen()),
        refused(other("Upgradeable contracts are not yet supported for Rust/Stylus"))
    );
    assert_eq!(
        generator(false, false, ContractType::Interface).generate(&nothing_seen()),
        refused(other("Interface and Abstract contracts are not supported for Rust/Stylus"))
    );
    let texts =
        compose("Gem", &ContractType::ERC20, &Language::RustStylus, None, None).unwrap();
    assert_eq!(
        generator(false, false, ContractType::ERC20).generate(&nothing_seen()),
        Plan {
            steps: vec![
                directory("/work/gem/src"),
                directory("/work/gem/tests"),
                directory("/work/gem/scripts"),
                Step::Run {
                    tool: Tool::Cargo,
                    arguments: strings(&["add", "openzeppelin-stylus@=0.3.0"]),
                    directory: "/work/gem".to_string(),
                },
                write("/work/gem/src/Gem.rs", texts.contract),
            ],
            outcome: Ok(()),
        }
    );
}

#[test]
fn compose_refuses_what_has_no_sound_text() {
    let mismatched = ContractType::MultiInheritance {
        base_type: Box::new(ContractType::ERC20),
        extensions: vec![TokenExtension::ERC20Permit, TokenExtension::ERC721Royalty],
    };
    assert_eq!(
        compose("X", &mismatched, &Language::Solidity, None, None).unwrap_err(),
        other("Extension ERC721Royalty is not compatible with base type ERC20")
    );
    assert_eq!(
        compose("X", &ContractType::ERC721Upgradeable, &Language::RustStylus, None, None)
            .unwrap_err(),
        other("Upgradeable contracts are not yet supported for Rust/Stylus")
    );
    assert_eq!(
        compose("X", &ContractType::Abstract, &Language::RustStylus, None, None).unwrap_err(),
        other("Interface and Abstract contracts are not supported for Rust/Stylus")
    );
    assert!(compose("X", &ContractType::Abstract, &Language::Solidity, None, None).is_ok());
    assert_eq!(
        gramr::compose_interface("X", &Language::RustStylus, None, None).unwrap_err(),
        other("Interface generation for Rust/Stylus projects is not yet supported. Use traits instead.")
    );
    assert_eq!(
        gramr::compose_abstract("X", &Language::RustStylus, None, None).unwrap_err(),
        other(
            "Abstract contract generation for Rust/Stylus projects is not yet supported. Use traits for similar patterns."
        )
    );
}

#[test]
fn standalone_resources_go_to_their_directories() {
    let library = LibraryGenerator::new(
        ProjectType::Foundry(foundry()),
        Language::Solidity,
        "MathUtils".to_string(),
        Some("0.8.20".to_string()),
        None,
    );
    let mut steps = foundry_directories();
    steps.push(directory("/work/app/src/libraries"));
    steps.push(write(
        "/work/app/src/libraries/MathUtils.sol",
        gramr::compose_library("MathUtils", &Language::Solidity, Some("0.8.20"), None),
    ));
    assert_eq!(library.generate(&nothing_seen()), Plan { steps, outcome: Ok(()) });

    let library = LibraryGenerator::new(
        ProjectType::Cargo(cargo()),
        Language::RustStylus,
        "MathUtils".to_string(),
        None,
        None,
    );
    assert_eq!(
        library.generate(&nothing_seen()),
        Plan {
            steps: vec![
                directory("/work/gem/src"),
                directory("/work/gem/tests"),
                directory("/work/gem/scripts"),
                directory("/work/gem/src/libraries"),
                write(
                    "/work/gem/src/libraries/MathUtils.rs",
                    gramr::compose_library("MathUtils", &Language::RustStylus, None, None),
                ),
            ],
            outcome: Ok(()),
        }
    );

    let interface = InterfaceGenerator::new(
        ProjectType::Foundry(foundry()),
        Language::Solidity,
        "Vault".to_string(),
        None,
        Some("MIT".to_string()),
    );
    let mut steps = foundry_directories();
    steps.push(directory("/work/app/src/interfaces"));
    steps.push(write(
        "/work/app/src/interfaces/IVault.sol",
        gramr::compose_interface("Vault", &Language::Solidity, None, Some("MIT")).unwrap(),
    ));
    assert_eq!(interface.generate(&nothing_seen()), Plan { steps, outcome: Ok(()) });

    let abstract_contract = AbstractContractGenerator::new(
        ProjectType::Foundry(foundry()),
        Language::Solidity,
        "Vault".to_string(),
        None,
        None,
    );
    let mut steps = foundry_directories();
    steps.push(directory("/work/app/src/abstracts"));
    steps.push(write(
        "/work/app/src/abstracts/Vault.sol",
        gramr::compose_abstract("Vault", &Language::Solidity, None, None).unwrap(),
    ));
    assert_eq!(abstract_contract.generate(&nothing_seen()), Plan { steps, outcome: Ok(()) });

    let script = ScriptGenerator::new(
        foundry(),
        "Migrate".to_string(),
        "0.8.30".to_string(),
        "MIT".to_string(),
    );
    let mut steps = foundry_directories();
    steps.push(write("/work/app/script/Migrate.s.sol", script.generate_script_content()));
    assert_eq!(script.generate(&nothing_seen()), Plan { steps, outcome: Ok(()) });

    let test = TestGenerator::new(
        foundry(),
        "Vault".to_string(),
        "0.8.30".to_string(),
        "MIT".to_string(),
    );
    let mut steps = foundry_directories();
    steps.push(write("/work/app/test/Vault.t.sol", test.generate_test_content()));
    assert_eq!(test.generate(&nothing_seen()), Plan { steps, outcome: Ok(()) });
}

#[test]
fn standalone_resources_are_refused_where_they_do_not_exist() {
    let interface = |project, language, name: &str| {
        InterfaceGenerator::new(project, language, name.to_string(), None, None)
    };
    assert_eq!(
        interface(ProjectType::Cargo(cargo()), Language::RustStylus, "Vault")
            .generate(&nothing_seen()),
        refused(other(
            "Interface generation for Rust/Stylus projects is not yet supported. Use traits instead."
        ))
    );
    assert_eq!(
        interface(ProjectType::Cargo(cargo()), Language::Solidity, "Vault")
            .generate(&nothing_seen()),
        refused(other("Interface generation for Rust/Stylus projects is not yet supported"))
    );
    assert_eq!(
        interface(ProjectType::Foundry(foundry()), Language::Solidity, "1Vault")
            .generate(&nothing_seen()),
        refused(NothungError::InvalidContractName(
            "Interface name must start with a letter".to_string()
        ))
    );
    let abstract_contract = |project, language, name: &str| {
        AbstractContractGenerator::new(project, language, name.to_string(), None, None)
    };
    assert_eq!(
        abstract_contract(ProjectType::Foundry(foundry()), Language::RustStylus, "Vault")
            .generate(&nothing_seen()),
        refused(other(
            "Abstract contract generation for Rust/Stylus projects is not yet supported. Use traits for similar patterns."
        ))
    );
    assert_eq!(
        abstract_contract(ProjectType::Cargo(cargo()), Language::Solidity, "Vault")
            .generate(&nothing_seen()),
        refused(other("Abstract contract generation for Rust/Stylus projects is not yet supported"))
    );
    assert_eq!(
        abstract_contract(ProjectType::Foundry(foundry()), Language::Solidity, "")
            .generate(&nothing_seen()),
        refused(NothungError::InvalidContractName(
            "Abstract contract name cannot be empty".to_string()
        ))
    );
    let library = LibraryGenerator::new(
        ProjectType::Foundry(foundry()),
        Language::Solidity,
        "Math Utils".to_string(),
        None,
        None,
    );
    assert_eq!(
        library.generate(&nothing_seen()),
        refused(NothungError::InvalidContractName(
            "Library name can only contain letters, numbers, and underscores".to_string()
        ))
    );
    let existing = seen(&["/work/app/test/Vault.t.sol"]);
    let test = TestGenerator::new(
        foundry(),
        "Vault".to_string(),
        "0.8.30".to_string(),
        "MIT".to_string(),
    );
    assert_eq!(
        test.generate(&existing),
        Plan {
            steps: foundry_directories(),
            outcome: Err(NothungError::FileExists("/work/app/test/Vault.t.sol".to_string())),
        }
    );
}

#[test]
fn configuration_files_are_not_implemented() {
    let generator = ConfigGenerator::new(
        ProjectType::Foundry(foundry()),
        Language::Solidity,
        "slither".to_string(),
    );
    assert_eq!(
        generator.generate(),
        refused(other(
            "Config generation for 'slither' is not yet implemented! This will be used to quickly scaffold config files like slither.json, foundry.toml, etc."
        ))
    );
}

#[test]
fn the_builder_plans_the_contract_alone() {
    let plan = ContractBuilder::new("Coin")
        .contract_type(ContractType::ERC20)
        .license("MIT")
        .generate(foundry(), &seen(&["/work/app/lib/openzeppelin-contracts"]));
    let mut steps = foundry_directories();
    steps.push(write(
        "/work/app/src/Coin.sol",
        ContractBuilder::new("Coin").contract_type(ContractType::ERC20).license("MIT").build(),
    ));
    assert_eq!(plan, Plan { steps, outcome: Ok(()) });
}

fn new_resource(
    kind: &str,
    languages: (bool, bool),
    standards: (bool, bool, bool),
    upgradeable: bool,
    extensions: &[&str],
    extras: (bool, bool, bool),
    project: ProjectType,
) -> Plan {
    execute_new(
        kind,
        "Coin".to_string(),
        languages.0,
        languages.1,
        standards.0,
        standards.1,
        standards.2,
        upgradeable,
        strings(extensions),
        extras.0,
        extras.1,
        "0.8.30".to_string(),
        "MIT".to_string(),
        extras.2,
        project,
        &nothing_seen(),
    )
}

const SOLIDITY: (bool, bool) = (true, false);
const STYLUS: (bool, bool) = (false, true);
const NO_STANDARD: (bool, bool, bool) = (false, false, false);
const NO_EXTRAS: (bool, bool, bool) = (false, false, false);

#[test]
fn a_new_contract_is_resolved_and_planned() {
    let plan = new_resource(
        "contract",
        SOLIDITY,
        (false, true, false),
        false,
        &["burnable", "enumerable"],
        (true, false, false),
        ProjectType::Foundry(foundry()),
    );
    let contract_type = ContractType::MultiInheritance {
        base_type: Box::new(ContractType::ERC721),
        extensions: vec![TokenExtension::ERC721Burnable, TokenExtension::ERC721Enumerable],
    };
    let expected = GenericContractGenerator::new(
        ProjectType::Foundry(foundry()),
        Language::Solidity,
        "Coin".to_string(),
        contract_type,
        true,
        false,
        Some("0.8.30".to_string()),
        Some("MIT".to_string()),
    )
    .generate(&nothing_seen());
    assert_eq!(plan, expected);
    assert!(plan.outcome.is_ok());
    assert_eq!(plan.steps.len(), 6);
}

#[test]
fn a_new_resource_is_refused_for_the_first_rule_it_breaks() {
    let foundry_project = || ProjectType::Foundry(foundry());
    let cargo_project = || ProjectType::Cargo(cargo());
    assert_eq!(
        new_resource("contract", (false, false), NO_STANDARD, false, &[], NO_EXTRAS, foundry_project()),
        refused(other("Must specify either --solidity or --rust-stylus"))
    );
    assert_eq!(
        new_resource("nothing", (true, true), NO_STANDARD, false, &[], NO_EXTRAS, foundry_project()),
        refused(other("Cannot specify both --solidity and --rust-stylus"))
    );
    assert_eq!(
        new_resource("contract", STYLUS, (true, false, false), true, &[], NO_EXTRAS, cargo_project()),
        refused(other(
            "Upgradeable contracts are not yet supported for Rust/Stylus. OpenZeppelin Stylus library doesn't include upgradeable patterns yet."
        ))
    );
    assert_eq!(
        new_resource("library", SOLIDITY, (true, false, false), false, &[], NO_EXTRAS, foundry_project()),
        refused(other("Library generation doesn't support contract-specific flags"))
    );
    assert_eq!(
        new_resource("library", SOLIDITY, NO_STANDARD, false, &[], (false, false, true), foundry_project()),
        refused(other("Library generation doesn't support contract-specific flags"))
    );
    assert_eq!(
        new_resource("script", STYLUS, (true, false, false), false, &[], NO_EXTRAS, cargo_project()),
        refused(other("Script generation is not supported for Rust/Stylus projects"))
    );
    assert_eq!(
        new_resource("script", SOLIDITY, NO_STANDARD, false, &["burnable"], NO_EXTRAS, foundry_project()),
        refused(other("Script generation doesn't support contract-specific flags"))
    );
    assert_eq!(
        new_resource("script", SOLIDITY, NO_STANDARD, false, &[], NO_EXTRAS, cargo_project()),
        refused(other("Script generation is only supported for Foundry projects"))
    );
    assert_eq!(
        new_resource("test", STYLUS, NO_STANDARD, false, &[], NO_EXTRAS, cargo_project()),
        refused(other("Test generation is not supported for Rust/Stylus projects"))
    );
    assert_eq!(
        new_resource("test", SOLIDITY, NO_STANDARD, false, &[], (true, false, false), foundry_project()),
        refused(other("Test generation doesn't support contract-specific flags"))
    );
    assert_eq!(
        new_resource("test", SOLIDITY, NO_STANDARD, false, &[], NO_EXTRAS, cargo_project()),
        refused(other("Test generation is only supported for Foundry projects"))
    );
    assert_eq!(
        new_resource("interface", SOLIDITY, NO_STANDARD, true, &[], NO_EXTRAS, foundry_project()),
        refused(other("Interface generation doesn't support contract-specific flags"))
    );
    assert_eq!(
        new_resource("abstract", SOLIDITY, NO_STANDARD, false, &[], (false, true, false), foundry_project()),
        refused(other(
            "Abstract contract generation doesn't support contract-specific flags (except --with-section-markers)"
        ))
    );
    assert_eq!(
        new_resource("config", SOLIDITY, (false, false, true), false, &[], NO_EXTRAS, foundry_project()),
        refused(other("Config generation doesn't support contract-specific flags"))
    );
    assert_eq!(
        new_resource("config", SOLIDITY, NO_STANDARD, false, &[], NO_EXTRAS, foundry_project()),
        refused(other(
            "Config generation for 'Coin' is not yet implemented! This will be used to quickly scaffold config files like slither.json, foundry.toml, etc."
        ))
    );
    assert_eq!(
        new_resource("Contract", SOLIDITY, NO_STANDARD, false, &[], NO_EXTRAS, foundry_project()),
        refused(other(
            "Unsupported resource type: Contract. Supported types: contract, library, script, test, interface, abstract, config"
        ))
    );
}

#[test]
fn a_new_standalone_resource_is_planned_by_its_generator() {
    let project = || ProjectType::Foundry(foundry());
    let generated = |kind: &str, markers: bool| {
        new_resource(kind, SOLIDITY, NO_STANDARD, false, &[], (false, false, markers), project())
    };
    let pragma = || Some("0.8.30".to_string());
    let license = || Some("MIT".to_string());
    let name = || "Coin".to_string();
    assert_eq!(
        generated("library", false),
        LibraryGenerator::new(project(), Language::Solidity, name(), pragma(), license())
            .generate(&nothing_seen())
    );
    assert_eq!(
        generated("interface", false),
        InterfaceGenerator::new(project(), Language::Solidity, name(), pragma(), license())
            .generate(&nothing_seen())
    );
    assert_eq!(
        generated("abstract", true),
        AbstractContractGenerator::new(project(), Language::Solidity, name(), pragma(), license())
            .generate(&nothing_seen())
    );
    assert_eq!(
        generated("script", false),
        ScriptGenerator::new(foundry(), name(), "0.8.30".to_string(), "MIT".to_string())
            .generate(&nothing_seen())
    );
    assert_eq!(
        generated("test", false),
        TestGenerator::new(foundry(), name(), "0.8.30".to_string(), "MIT".to_string())
            .generate(&nothing_seen())
    );
    assert!(generated("library", false).outcome.is_ok());
    assert!(generated("abstract", true).outcome.is_ok());
}
