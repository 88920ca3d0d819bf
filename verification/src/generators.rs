//! The resource generators. Each validates the name of its resource, lays
//! out the project's directories, sees to the token-standard package where
//! the contract needs it, composes the text and plans the files to write.
//! No generator overwrites a file.
//!
//! A generator decides over a [`Snapshot`] of the project and answers with a
//! [`Plan`]; it touches nothing itself.

use crate::compose::{compose, composed, optional_text, CompositionView};
use crate::error::{ErrorView, NothungError};
use crate::language::Language;
use crate::plan::{step_views, Plan, PlanView, Snapshot, SnapshotView, Step, StepView};
use crate::project::{Project, ProjectType};
use crate::templates::stylus::{snake_case, snake_text};
use crate::templates::{ContractType, ContractView};
use crate::text::{
    alphabetic, alphanumeric, chars_of, is_alphabetic, is_alphanumeric, join_path, lowercase_of,
    path_join, to_lowercase,
};
use vstd::prelude::*;
use vstd::string::*;

pub mod abstract_contract;
pub mod config;
pub mod contract;
pub mod generic;
pub mod interface;
pub mod library;
pub mod script;
pub mod test;

pub use abstract_contract::AbstractContractGenerator;
pub use config::ConfigGenerator;
pub use contract::ContractGenerator;
pub use generic::GenericContractGenerator;
pub use interface::InterfaceGenerator;
pub use library::LibraryGenerator;
pub use script::ScriptGenerator;
pub use test::TestGenerator;

verus! {

/// How the complaint about an empty name ends.
pub const NAME_EMPTY: &'static str = " cannot be empty";

/// How the complaint about a name that starts with no letter ends.
pub const NAME_START: &'static str = " must start with a letter";

/// How the complaint about a name with a character that is not allowed
/// ends.
pub const NAME_CHARACTERS: &'static str = " can only contain letters, numbers, and underscores";

/// Whether `c` may stand in a name: a letter, a digit or an underscore.
pub open spec fn allowed_in_name(c: char) -> bool {
    alphanumeric(c) || c == '_'
}

/// Whether every character of `name` may stand in a name.
pub open spec fn all_allowed(name: Seq<char>) -> bool {
    forall|i: int| 0 <= i < name.len() ==> allowed_in_name(#[trigger] name[i])
}

/// The complaint about three facts of a name, if one of them is a fault.
/// The first fault in the order empty, first character, other characters is
/// the one reported. `label` says what is named, as in "Contract name".
pub open spec fn name_complaint(
    label: Seq<char>,
    is_empty: bool,
    starts_with_letter: bool,
    only_allowed: bool,
) -> Option<Seq<char>> {
    if is_empty {
        Some(label + NAME_EMPTY@)
    } else if !starts_with_letter {
        Some(label + NAME_START@)
    } else if !only_allowed {
        Some(label + NAME_CHARACTERS@)
    } else {
        None
    }
}

/// What is wrong with `name` as the name of a resource, if anything: a valid
/// name is not empty, starts with a letter and goes on with letters, digits
/// and underscores.
pub open spec fn name_problem(label: Seq<char>, name: Seq<char>) -> Option<Seq<char>> {
    name_complaint(label, name.len() == 0, name.len() > 0 && alphabetic(name[0]), all_allowed(name))
}

/// Judges a name by three facts about it: whether it is empty, whether it
/// starts with a letter, and whether all its characters are allowed.
pub fn name_verdict(label: &str, is_empty: bool, starts_with_letter: bool, only_allowed: bool) -> (r:
    Result<(), NothungError>)
    ensures
        match r {
            Ok(()) => name_complaint(label@, is_empty, starts_with_letter, only_allowed) is None,
            Err(error) => name_complaint(label@, is_empty, starts_with_letter, only_allowed)
                == Some(error@->InvalidContractName_0) && error@ is InvalidContractName,
        },
{
    let ending = if is_empty {
        NAME_EMPTY
    } else if !starts_with_letter {
        NAME_START
    } else if !only_allowed {
        NAME_CHARACTERS
    } else {
        return Ok(());
    };
    let mut message = String::from_str(label);
    message.append(ending);
    Err(NothungError::InvalidContractName(message))
}

/// Checks that `name` is a valid name. `label` says what is named, as in
/// "Contract name".
pub fn validate_name(label: &str, name: &str) -> (r: Result<(), NothungError>)
    ensures
        match r {
            Ok(()) => name_problem(label@, name@) is None,
            Err(error) => name_problem(label@, name@) == Some(error@->InvalidContractName_0)
                && error@ is InvalidContractName,
        },
{
    let chars = chars_of(name);
    let is_empty = chars.len() == 0;
    let starts_with_letter = chars.len() > 0 && is_alphabetic(chars[0]);
    let mut only_allowed = true;
    let mut i: usize = 0;
    while i < chars.len()
        invariant
            i <= chars.len(),
            only_allowed == all_allowed(chars@.take(i as int)),
        decreases chars.len() - i,
    {
        let c = chars[i];
        if !(is_alphanumeric(c) || c == '_') {
            only_allowed = false;
        }
        proof {
            let shorter = chars@.take(i as int);
            let longer = chars@.take(i + 1);
            assert(longer[i as int] == c);
            assert(forall|k: int| 0 <= k < i ==> longer[k] == shorter[k]);
            if all_allowed(longer) {
                assert forall|k: int| 0 <= k < shorter.len() implies allowed_in_name(
                    #[trigger] shorter[k],
                ) by {
                    assert(allowed_in_name(longer[k]));
                }
            }
        }
        i = i + 1;
    }
    assert(chars@.take(chars.len() as int) == chars@);
    name_verdict(label, is_empty, starts_with_letter, only_allowed)
}

/// A file a generator wants to write.
#[derive(Debug, PartialEq, Eq)]
pub struct NewFile {
    pub path: String,
    pub contents: String,
}

/// The mathematical value of a [`NewFile`].
pub struct NewFileView {
    pub path: Seq<char>,
    pub contents: Seq<char>,
}

impl View for NewFile {
    type V = NewFileView;

    open spec fn view(&self) -> NewFileView {
        NewFileView { path: self.path@, contents: self.contents@ }
    }
}

/// The views of a list of files, in order.
pub open spec fn file_views(files: Seq<NewFile>) -> Seq<NewFileView> {
    Seq::new(files.len(), |i: int| files[i]@)
}

/// The plan that carries out `before` and then writes the first `n` of
/// `files`, in order. The first file whose path was seen ends the plan
/// with an error: it is not written, and no file after it is.
pub open spec fn writing_prefix(
    before: Seq<StepView>,
    files: Seq<NewFileView>,
    seen: SnapshotView,
    n: nat,
) -> PlanView
    decreases n,
{
    if n == 0 || n > files.len() {
        PlanView { steps: before, outcome: Ok(()) }
    } else {
        let earlier = writing_prefix(before, files, seen, (n - 1) as nat);
        let file = files[n - 1];
        match earlier.outcome {
            Err(_) => earlier,
            Ok(()) => if seen.paths.contains(file.path) {
                PlanView { steps: earlier.steps, outcome: Err(ErrorView::FileExists(file.path)) }
            } else {
                PlanView {
                    steps: earlier.steps.push(
                        StepView::WriteFile { path: file.path, contents: file.contents },
                    ),
                    outcome: Ok(()),
                }
            },
        }
    }
}

/// The plan that carries out `before` and then writes `files`, refusing to
/// overwrite.
pub open spec fn writing(
    before: Seq<StepView>,
    files: Seq<NewFileView>,
    seen: SnapshotView,
) -> PlanView {
    writing_prefix(before, files, seen, files.len())
}

/// Plans the writing of `files` after `steps`. A file that is already there
/// ends the plan with an error that names it.
pub fn plan_writes(steps: Vec<Step>, files: &Vec<NewFile>, seen: &Snapshot) -> (r: Plan)
    ensures
        r@ == writing(step_views(steps@), file_views(files@), seen@),
{
    let ghost before = step_views(steps@);
    let mut planned = steps;
    let mut i: usize = 0;
    while i < files.len()
        invariant
            i <= files.len(),
            before == step_views(steps@),
            writing_prefix(before, file_views(files@), seen@, i as nat) == (PlanView {
                steps: step_views(planned@),
                outcome: Ok(()),
            }),
        decreases files.len() - i,
    {
        let file = &files[i];
        assert(file_views(files@)[i as int] == file@);
        if seen.has_path(file.path.as_str()) {
            proof {
                lemma_refusal_is_final(
                    before,
                    file_views(files@),
                    seen@,
                    (i + 1) as nat,
                    files@.len(),
                );
            }
            return Plan { steps: planned, outcome: Err(NothungError::FileExists(file.path.clone())) };
        }
        let ghost earlier = step_views(planned@);
        planned.push(Step::WriteFile { path: file.path.clone(), contents: file.contents.clone() });
        assert(step_views(planned@) == earlier.push(
            StepView::WriteFile { path: file.path@, contents: file.contents@ },
        ));
        i = i + 1;
    }
    Plan { steps: planned, outcome: Ok(()) }
}

/// Once a file is refused, the plan does not change however many files
/// follow.
pub proof fn lemma_refusal_is_final(
    before: Seq<StepView>,
    files: Seq<NewFileView>,
    seen: SnapshotView,
    n: nat,
    m: nat,
)
    requires
        n <= m <= files.len(),
        writing_prefix(before, files, seen, n).outcome is Err,
    ensures
        writing_prefix(before, files, seen, m) == writing_prefix(before, files, seen, n),
    decreases m,
{
    if n < m {
        lemma_refusal_is_final(before, files, seen, n, (m - 1) as nat);
    }
}

/// The package a contract needs in the project.
#[derive(Clone, Copy, Debug, PartialEq, Eq, Structural)]
pub enum Dependency {
    /// The contract stands alone.
    Nothing,
    /// The contract rests on a token standard.
    OpenZeppelin,
    /// The contract rests on an upgradeable token standard.
    OpenZeppelinUpgradeable,
}

/// The package a contract of the given type needs: that of the standard it
/// rests on, directly or as the base of a composite.
pub open spec fn required_dependency(contract: ContractView) -> Dependency {
    if contract.effective_standard() is None {
        Dependency::Nothing
    } else if contract.effective_upgradeable() {
        Dependency::OpenZeppelinUpgradeable
    } else {
        Dependency::OpenZeppelin
    }
}

/// The package a contract of the given type needs.
pub fn dependency_of(contract_type: &ContractType) -> (r: Dependency)
    ensures
        r == required_dependency(contract_type@),
{
    if contract_type.effective_standard().is_none() {
        Dependency::Nothing
    } else if contract_type.effective_upgradeable() {
        Dependency::OpenZeppelinUpgradeable
    } else {
        Dependency::OpenZeppelin
    }
}

/// The steps that see to a dependency: none where nothing is needed or the
/// package was seen, else the step that installs it. A project that cannot
/// install the package answers with its error.
pub open spec fn dependency_steps<P: Project>(
    project: P,
    dependency: Dependency,
    seen: SnapshotView,
) -> Result<Seq<StepView>, ErrorView> {
    match dependency {
        Dependency::Nothing => Ok(Seq::empty()),
        Dependency::OpenZeppelin => if project.openzeppelin_seen(seen) {
            Ok(Seq::empty())
        } else {
            Ok(seq![project.installation()])
        },
        Dependency::OpenZeppelinUpgradeable => if project.openzeppelin_upgradeable_seen(seen) {
            Ok(Seq::empty())
        } else {
            match project.upgradeable_installation() {
                Ok(step) => Ok(seq![step]),
                Err(error) => Err(error),
            }
        },
    }
}

/// Decides whether the package that `contract_type` needs has to be
/// installed in `project`, and plans the installation where it is missing.
pub fn check_and_install_dependencies<P: Project>(
    project: &P,
    contract_type: &ContractType,
    seen: &Snapshot,
) -> (r: Result<Vec<Step>, NothungError>)
    ensures
        match r {
            Ok(steps) => dependency_steps(*project, required_dependency(contract_type@), seen@)
                == Ok::<Seq<StepView>, ErrorView>(step_views(steps@)),
            Err(error) => dependency_steps(*project, required_dependency(contract_type@), seen@)
                == Err::<Seq<StepView>, ErrorView>(error@),
        },
{
    let mut steps: Vec<Step> = Vec::new();
    assert(step_views(steps@) == Seq::<StepView>::empty());
    match dependency_of(contract_type) {
        Dependency::Nothing => {},
        Dependency::OpenZeppelin => {
            if !project.has_openzeppelin(seen) {
                match project.install_openzeppelin() {
                    Ok(step) => {
                        steps.push(step);
                        assert(step_views(steps@) == seq![project.installation()]);
                    },
                    Err(error) => {
                        return Err(error);
                    },
                }
            }
        },
        Dependency::OpenZeppelinUpgradeable => {
            if !project.has_openzeppelin_upgradeable(seen) {
                match project.install_openzeppelin_upgradeable() {
                    Ok(step) => {
                        steps.push(step);
                        assert(step_views(steps@) == seq![step@]);
                    },
                    Err(error) => {
                        return Err(error);
                    },
                }
            }
        },
    }
    Ok(steps)
}

/// Puts the steps of `more` after those of `steps`.
pub fn extend_steps(steps: Vec<Step>, more: Vec<Step>) -> (r: Vec<Step>)
    ensures
        step_views(r@) == step_views(steps@) + step_views(more@),
{
    let mut steps = steps;
    let mut more = more;
    let ghost first = steps@;
    let ghost second = more@;
    steps.append(&mut more);
    assert(steps@ == first + second);
    assert(step_views(steps@) == step_views(first) + step_views(second));
    steps
}

/// What is reported where a test is asked for with a Rust/Stylus contract.
pub const TEST_UNSUPPORTED: &'static str =
    "Test generation (--with-test) is not supported for Rust/Stylus projects. Use 'cargo test' instead.";

/// What is reported where a script is asked for with a Rust/Stylus
/// contract.
pub const SCRIPT_UNSUPPORTED: &'static str =
    "Script generation (--with-script) is not supported for Rust/Stylus projects. Use deployment tools like 'stylus deploy' instead.";

/// Why a contract in `language` cannot have the test or the script that
/// was asked for, if it cannot: Rust/Stylus contracts have neither.
pub open spec fn language_objection(language: Language, with_test: bool, with_script: bool) -> Option<
    ErrorView,
> {
    if language == Language::RustStylus && with_test {
        Some(ErrorView::Other(TEST_UNSUPPORTED@))
    } else if language == Language::RustStylus && with_script {
        Some(ErrorView::Other(SCRIPT_UNSUPPORTED@))
    } else {
        None
    }
}

/// Checks that a contract in `language` can have the test and the script
/// that were asked for.
pub fn validate_language_compatibility(language: &Language, with_test: bool, with_script: bool) -> (r:
    Result<(), NothungError>)
    ensures
        match r {
            Ok(()) => language_objection(*language, with_test, with_script) is None,
            Err(error) => language_objection(*language, with_test, with_script) == Some(error@),
        },
{
    if *language == Language::RustStylus && with_test {
        return Err(NothungError::other(TEST_UNSUPPORTED));
    }
    if *language == Language::RustStylus && with_script {
        return Err(NothungError::other(SCRIPT_UNSUPPORTED));
    }
    Ok(())
}

/// The view of an optional string.
pub open spec fn optional_view(text: Option<String>) -> Option<Seq<char>> {
    match text {
        Some(text) => Some(text@),
        None => None,
    }
}

/// The text of an optional string, borrowed.
pub fn as_text(text: &Option<String>) -> (r: Option<&str>)
    ensures
        optional_text(r) == optional_view(*text),
{
    match text {
        Some(text) => Some(text.as_str()),
        None => None,
    }
}

/// The name of the file of a contract: the contract's name with the
/// extension of the language.
pub open spec fn contract_file_name(language: Language, name: Seq<char>) -> Seq<char> {
    name + "."@ + language.extension_text()
}

/// The name of the file of the test that goes with a contract: the
/// contract's name before `.t.sol` in Solidity, its snake-case form before
/// `_test.rs` in Rust/Stylus.
pub open spec fn test_file_name(language: Language, name: Seq<char>) -> Seq<char> {
    match language {
        Language::Solidity => name + ".t.sol"@,
        Language::RustStylus => snake_text(name) + "_test.rs"@,
    }
}

/// The name of the file that says how a contract is deployed: a script named
/// `Deploy` and the contract's name in Solidity, a note named after the
/// contract in lowercase in Rust/Stylus, which has no scripts.
pub open spec fn deploy_file_name(language: Language, name: Seq<char>) -> Seq<char> {
    match language {
        Language::Solidity => "Deploy"@ + name + ".s.sol"@,
        Language::RustStylus => lowercase_of(name) + "_deploy.md"@,
    }
}

/// The name of the file of the contract `name` in `language`.
pub fn contract_file(language: &Language, name: &str) -> (r: String)
    ensures
        r@ == contract_file_name(*language, name@),
{
    let mut file_name = String::from_str(name);
    file_name.append(".");
    file_name.append(language.file_extension());
    file_name
}

/// The name of the file of the test that goes with the contract `name`.
pub fn test_file(language: &Language, name: &str) -> (r: String)
    ensures
        r@ == test_file_name(*language, name@),
{
    match language {
        Language::Solidity => {
            let mut file_name = String::from_str(name);
            file_name.append(".t.sol");
            file_name
        },
        Language::RustStylus => {
            let mut file_name = snake_case(name);
            file_name.append("_test.rs");
            file_name
        },
    }
}

/// The name of the file that says how the contract `name` is deployed.
pub fn deploy_file(language: &Language, name: &str) -> (r: String)
    ensures
        r@ == deploy_file_name(*language, name@),
{
    match language {
        Language::Solidity => {
            let mut file_name = String::from_str("Deploy");
            file_name.append(name);
            file_name.append(".s.sol");
            file_name
        },
        Language::RustStylus => {
            let mut file_name = to_lowercase(name);
            file_name.append("_deploy.md");
            file_name
        },
    }
}

/// The files of a contract: the contract among the sources, then its test
/// among the tests and its script among the scripts, where they are asked
/// for.
pub open spec fn contract_files<P: Project>(
    project: P,
    language: Language,
    name: Seq<char>,
    with_test: bool,
    with_script: bool,
    texts: CompositionView,
) -> Seq<NewFileView> {
    seq![
        NewFileView {
            path: path_join(project.src_dir_text(), contract_file_name(language, name)),
            contents: texts.contract,
        },
    ] + (if with_test {
        seq![
            NewFileView {
                path: path_join(project.test_dir_text(), test_file_name(language, name)),
                contents: texts.test,
            },
        ]
    } else {
        Seq::empty()
    }) + (if with_script {
        seq![
            NewFileView {
                path: path_join(project.script_dir_text(), deploy_file_name(language, name)),
                contents: texts.script,
            },
        ]
    } else {
        Seq::empty()
    })
}

/// What generating a contract comes to. A bad name, a test or a script
/// asked for in Rust/Stylus, and a contract type without a text end the
/// request before anything is done. Otherwise the project's directories
/// are created, the package the contract needs is installed where it was
/// not seen, and the files are written, none over a file that is there.
pub open spec fn contract_plan<P: Project>(
    project: P,
    language: Language,
    name: Seq<char>,
    contract: ContractView,
    with_test: bool,
    with_script: bool,
    pragma: Option<Seq<char>>,
    license: Option<Seq<char>>,
    seen: SnapshotView,
) -> PlanView {
    match name_problem("Contract name"@, name) {
        Some(complaint) => PlanView::refused(ErrorView::InvalidContractName(complaint)),
        None => match language_objection(language, with_test, with_script) {
            Some(error) => PlanView::refused(error),
            None => match composed(name, contract, language, pragma, license) {
                Err(error) => PlanView::refused(error),
                Ok(texts) => match dependency_steps(
                    project,
                    required_dependency(contract),
                    seen,
                ) {
                    Err(error) => PlanView { steps: project.directories(), outcome: Err(error) },
                    Ok(installation) => writing(
                        project.directories() + installation,
                        contract_files(project, language, name, with_test, with_script, texts),
                        seen,
                    ),
                },
            },
        },
    }
}

/// Plans the generation of the contract `name` of type `contract_type` in
/// `project`, with its test and its script where they are asked for.
pub fn plan_contract<P: Project>(
    project: &P,
    language: &Language,
    name: &str,
    contract_type: &ContractType,
    with_test: bool,
    with_script: bool,
    pragma: Option<&str>,
    license: Option<&str>,
    seen: &Snapshot,
) -> (r: Plan)
    ensures
        r@ == contract_plan(
            *project,
            *language,
            name@,
            contract_type@,
            with_test,
            with_script,
            optional_text(pragma),
            optional_text(license),
            seen@,
        ),
{
    match validate_name("Contract name", name) {
        Ok(()) => {},
        Err(error) => {
            return Plan::refused(error);
        },
    }
    match validate_language_compatibility(language, with_test, with_script) {
        Ok(()) => {},
        Err(error) => {
            return Plan::refused(error);
        },
    }
    let texts = match compose(name, contract_type, language, pragma, license) {
        Ok(texts) => texts,
        Err(error) => {
            return Plan::refused(error);
        },
    };
    let directories = project.ensure_directories();
    let installation = match check_and_install_dependencies(project, contract_type, seen) {
        Ok(steps) => steps,
        Err(error) => {
            return Plan { steps: directories, outcome: Err(error) };
        },
    };
    let steps = extend_steps(directories, installation);
    let mut files: Vec<NewFile> = Vec::new();
    let src_dir = project.src_dir();
    let file_name = contract_file(language, name);
    files.push(
        NewFile {
            path: join_path(src_dir.as_str(), file_name.as_str()),
            contents: texts.contract,
        },
    );
    if with_test {
        let test_dir = project.test_dir();
        let file_name = test_file(language, name);
        files.push(
            NewFile {
                path: join_path(test_dir.as_str(), file_name.as_str()),
                contents: texts.test,
            },
        );
    }
    if with_script {
        let script_dir = project.script_dir();
        let file_name = deploy_file(language, name);
        files.push(
            NewFile {
                path: join_path(script_dir.as_str(), file_name.as_str()),
                contents: texts.script,
            },
        );
    }
    assert(file_views(files@) == contract_files(
        *project,
        *language,
        name@,
        with_test,
        with_script,
        texts@,
    ));
    plan_writes(steps, &files, seen)
}

/// What generating one standalone file comes to, once name and language
/// have been checked: the project's directories are created, then the
/// directory `folder` where one is given, then the file is written unless it
/// is there.
pub open spec fn single_file_plan(
    directories: Seq<StepView>,
    folder: Option<Seq<char>>,
    file: NewFileView,
    seen: SnapshotView,
) -> PlanView {
    let extra = match folder {
        Some(path) => seq![StepView::CreateDirectory { path }],
        None => Seq::empty(),
    };
    writing(directories + extra, seq![file], seen)
}

/// Plans the writing of one standalone file into `project`.
pub fn plan_single_file<P: Project>(
    project: &P,
    folder: Option<String>,
    file: NewFile,
    seen: &Snapshot,
) -> (r: Plan)
    ensures
        r@ == single_file_plan(project.directories(), optional_view(folder), file@, seen@),
{
    let mut steps = project.ensure_directories();
    match folder {
        Some(path) => {
            let ghost before = step_views(steps@);
            steps.push(Step::CreateDirectory { path });
            assert(step_views(steps@) == before + seq![StepView::CreateDirectory { path: path@ }]);
        },
        None => {
            assert(step_views(steps@) == step_views(steps@) + Seq::<StepView>::empty());
        },
    }
    let mut files: Vec<NewFile> = Vec::new();
    let ghost wanted = file@;
    files.push(file);
    assert(file_views(files@) == seq![wanted]);
    plan_writes(steps, &files, seen)
}

/// The steps that write `files`, one for each and in order.
pub open spec fn write_steps(files: Seq<NewFileView>) -> Seq<StepView> {
    Seq::new(
        files.len(),
        |i: int| StepView::WriteFile { path: files[i].path, contents: files[i].contents },
    )
}

/// Where none of the first `n` files is there, all of them are written, in
/// order, and the plan succeeds.
pub proof fn lemma_writing_unhindered(
    before: Seq<StepView>,
    files: Seq<NewFileView>,
    seen: SnapshotView,
    n: nat,
)
    requires
        n <= files.len(),
        forall|i: int| 0 <= i < n ==> !seen.paths.contains(#[trigger] files[i].path),
    ensures
        writing_prefix(before, files, seen, n) == (PlanView {
            steps: before + write_steps(files.take(n as int)),
            outcome: Ok(()),
        }),
    decreases n,
{
    if n == 0 {
        assert(before + write_steps(files.take(0)) == before);
    } else {
        lemma_writing_unhindered(before, files, seen, (n - 1) as nat);
        let shorter = write_steps(files.take(n - 1));
        let file = files[n - 1];
        assert(!seen.paths.contains(file.path));
        assert(write_steps(files.take(n as int)) == shorter.push(
            StepView::WriteFile { path: file.path, contents: file.contents },
        ));
        assert((before + shorter).push(
            StepView::WriteFile { path: file.path, contents: file.contents },
        ) == before + write_steps(files.take(n as int)));
    }
}

/// A plan of writes succeeds only where none of the files is there.
pub proof fn lemma_writing_succeeds_only_unhindered(
    before: Seq<StepView>,
    files: Seq<NewFileView>,
    seen: SnapshotView,
    n: nat,
)
    requires
        n <= files.len(),
        writing_prefix(before, files, seen, n).outcome is Ok,
    ensures
        forall|i: int| 0 <= i < n ==> !seen.paths.contains(#[trigger] files[i].path),
    decreases n,
{
    if n > 0 {
        lemma_writing_succeeds_only_unhindered(before, files, seen, (n - 1) as nat);
    }
}

/// Where the first of the files is there already, nothing is written and the
/// plan ends with the error that names that file.
pub proof fn lemma_existing_file_is_not_overwritten(
    before: Seq<StepView>,
    files: Seq<NewFileView>,
    seen: SnapshotView,
)
    requires
        files.len() > 0,
        seen.paths.contains(files[0].path),
    ensures
        writing(before, files, seen) == (PlanView {
            steps: before,
            outcome: Err(ErrorView::FileExists(files[0].path)),
        }),
{
    assert(writing_prefix(before, files, seen, 0) == (PlanView { steps: before, outcome: Ok(()) }));
    assert(writing_prefix(before, files, seen, 1).outcome is Err);
    lemma_refusal_is_final(before, files, seen, 1, files.len());
}

/// Generating the same contract again, into a project from which nothing
/// was deleted, writes nothing: the second run ends with the error that
/// names the contract's file, after the steps that create directories and
/// install the package, none of which touches a file of the first run.
pub proof fn lemma_second_run_is_refused(
    project: ProjectType,
    language: Language,
    name: Seq<char>,
    contract: ContractView,
    with_test: bool,
    with_script: bool,
    pragma: Option<Seq<char>>,
    license: Option<Seq<char>>,
    first: SnapshotView,
    second: SnapshotView,
)
    requires
        contract_plan(
            project,
            language,
            name,
            contract,
            with_test,
            with_script,
            pragma,
            license,
            first,
        ).outcome is Ok,
        forall|path: Seq<char>| first.paths.contains(path) ==> second.paths.contains(path),
        first.manifest == second.manifest,
        second.paths.contains(
            path_join(project.src_dir_text(), contract_file_name(language, name)),
        ),
    ensures
        dependency_steps(project, required_dependency(contract), second) is Ok,
        contract_plan(
            project,
            language,
            name,
            contract,
            with_test,
            with_script,
            pragma,
            license,
            second,
        ) == (PlanView {
            steps: project.directories() + dependency_steps(
                project,
                required_dependency(contract),
                second,
            )->Ok_0,
            outcome: Err(
                ErrorView::FileExists(
                    path_join(project.src_dir_text(), contract_file_name(language, name)),
                ),
            ),
        }),
{
    let texts = composed(name, contract, language, pragma, license)->Ok_0;
    let files = contract_files(project, language, name, with_test, with_script, texts);
    let installation = dependency_steps(project, required_dependency(contract), second)->Ok_0;
    assert(files[0].path == path_join(project.src_dir_text(), contract_file_name(language, name)));
    lemma_existing_file_is_not_overwritten(project.directories() + installation, files, second);
}

/// Generating a contract twice in a row fails the second time: what the
/// first run leaves behind holds the contract's file, so the second run
/// ends with the error that names it and writes nothing.
pub proof fn lemma_generating_twice_is_refused(
    project: ProjectType,
    language: Language,
    name: Seq<char>,
    contract: ContractView,
    with_test: bool,
    with_script: bool,
    pragma: Option<Seq<char>>,
    license: Option<Seq<char>>,
    seen: SnapshotView,
)
    requires
        contract_plan(
            project,
            language,
            name,
            contract,
            with_test,
            with_script,
            pragma,
            license,
            seen,
        ).outcome is Ok,
    ensures
        ({
            let first = contract_plan(
                project,
                language,
                name,
                contract,
                with_test,
                with_script,
                pragma,
                license,
                seen,
            );
            let second = contract_plan(
                project,
                language,
                name,
                contract,
                with_test,
                with_script,
                pragma,
                license,
                first.leaves(seen),
            );
            &&& second.outcome == Err::<(), ErrorView>(
                ErrorView::FileExists(
                    path_join(project.src_dir_text(), contract_file_name(language, name)),
                ),
            )
            &&& forall|i: int| 0 <= i < second.steps.len() ==> !(second.steps[i] is WriteFile)
        }),
{
    let first = contract_plan(
        project,
        language,
        name,
        contract,
        with_test,
        with_script,
        pragma,
        license,
        seen,
    );
    let later = first.leaves(seen);
    let path = path_join(project.src_dir_text(), contract_file_name(language, name));
    lemma_generation_is_repeatable(
        project,
        language,
        name,
        contract,
        with_test,
        with_script,
        pragma,
        license,
        seen,
    );
    let texts = composed(name, contract, language, pragma, license)->Ok_0;
    let files = contract_files(project, language, name, with_test, with_script, texts);
    let before = project.directories() + dependency_steps(
        project,
        required_dependency(contract),
        seen,
    )->Ok_0;
    assert(first.steps[before.len() as int] == write_steps(files)[0]);
    assert(first.steps[before.len() as int].produces(path));
    assert(later.paths.contains(path));
    lemma_second_run_is_refused(
        project,
        language,
        name,
        contract,
        with_test,
        with_script,
        pragma,
        license,
        seen,
        later,
    );
}

/// When a contract is generated: with a valid name, a language that has
/// what was asked for, a contract type that has a text, a package that is
/// there or can be installed, and none of the files there yet, the plan
/// succeeds. It creates the directories, installs the package where it was
/// not seen, and writes every file.
pub proof fn lemma_contract_is_generated<P: Project>(
    project: P,
    language: Language,
    name: Seq<char>,
    contract: ContractView,
    with_test: bool,
    with_script: bool,
    pragma: Option<Seq<char>>,
    license: Option<Seq<char>>,
    seen: SnapshotView,
)
    requires
        name_problem("Contract name"@, name) is None,
        language_objection(language, with_test, with_script) is None,
        composed(name, contract, language, pragma, license) is Ok,
        dependency_steps(project, required_dependency(contract), seen) is Ok,
        forall|i: int|
            0 <= i < contract_files(
                project,
                language,
                name,
                with_test,
                with_script,
                composed(name, contract, language, pragma, license)->Ok_0,
            ).len() ==> !seen.paths.contains(
                (#[trigger] contract_files(
                    project,
                    language,
                    name,
                    with_test,
                    with_script,
                    composed(name, contract, language, pragma, license)->Ok_0,
                )[i]).path,
            ),
    ensures
        contract_plan(
            project,
            language,
            name,
            contract,
            with_test,
            with_script,
            pragma,
            license,
            seen,
        ) == (PlanView {
            steps: project.directories() + dependency_steps(
                project,
                required_dependency(contract),
                seen,
            )->Ok_0 + write_steps(
                contract_files(
                    project,
                    language,
                    name,
                    with_test,
                    with_script,
                    composed(name, contract, language, pragma, license)->Ok_0,
                ),
            ),
            outcome: Ok(()),
        }),
{
    let texts = composed(name, contract, language, pragma, license)->Ok_0;
    let files = contract_files(project, language, name, with_test, with_script, texts);
    let installation = dependency_steps(project, required_dependency(contract), seen)->Ok_0;
    lemma_writing_unhindered(project.directories() + installation, files, seen, files.len());
    assert(files.take(files.len() as int) == files);
}

/// A basic Solidity contract with its test and its script is three files:
/// with a valid name and none of the three there yet, the plan succeeds,
/// and after the directories it writes exactly the contract among the
/// sources, the test among the tests and the script, named `Deploy` and the
/// contract's name, among the scripts, each with the text of the composer.
pub proof fn lemma_contract_with_test_and_script_is_three_files<P: Project>(
    project: P,
    name: Seq<char>,
    pragma: Seq<char>,
    license: Seq<char>,
    seen: SnapshotView,
)
    requires
        name_problem("Contract name"@, name) is None,
        !seen.paths.contains(path_join(project.src_dir_text(), name + ".sol"@)),
        !seen.paths.contains(path_join(project.test_dir_text(), name + ".t.sol"@)),
        !seen.paths.contains(
            path_join(project.script_dir_text(), "Deploy"@ + name + ".s.sol"@),
        ),
    ensures
        contract_plan(
            project,
            Language::Solidity,
            name,
            ContractView::Basic,
            true,
            true,
            Some(pragma),
            Some(license),
            seen,
        ) == (PlanView {
            steps: project.directories() + seq![
                StepView::WriteFile {
                    path: path_join(project.src_dir_text(), name + ".sol"@),
                    contents: crate::templates::solidity::contract_source(
                        name,
                        pragma,
                        license,
                        ContractView::Basic,
                    ),
                },
                StepView::WriteFile {
                    path: path_join(project.test_dir_text(), name + ".t.sol"@),
                    contents: crate::templates::solidity::test_source(
                        name,
                        pragma,
                        license,
                        ContractView::Basic,
                    ),
                },
                StepView::WriteFile {
                    path: path_join(project.script_dir_text(), "Deploy"@ + name + ".s.sol"@),
                    contents: crate::templates::solidity::script_source(
                        name,
                        pragma,
                        license,
                        ContractView::Basic,
                    ),
                },
            ],
            outcome: Ok(()),
        }),
{
    let contract = ContractView::Basic;
    let language = Language::Solidity;
    let texts = composed(name, contract, language, Some(pragma), Some(license))->Ok_0;
    let files = contract_files(project, language, name, true, true, texts);
    assert(files.len() == 3);
    assert(files[0].path == path_join(project.src_dir_text(), name + ".sol"@)) by {
        reveal_strlit(".");
        reveal_strlit("sol");
        reveal_strlit(".sol");
        assert(name + "."@ + "sol"@ =~= name + ".sol"@);
    }
    assert(files[1].path == path_join(project.test_dir_text(), name + ".t.sol"@));
    assert(files[2].path == path_join(project.script_dir_text(), "Deploy"@ + name + ".s.sol"@));
    lemma_contract_is_generated(
        project,
        language,
        name,
        contract,
        true,
        true,
        Some(pragma),
        Some(license),
        seen,
    );
    assert(project.directories() + Seq::<StepView>::empty() + write_steps(files)
        == project.directories() + seq![
        StepView::WriteFile { path: files[0].path, contents: files[0].contents },
        StepView::WriteFile { path: files[1].path, contents: files[1].contents },
        StepView::WriteFile { path: files[2].path, contents: files[2].contents },
    ]);
}

/// Generating a contract is repeatable: whatever was seen of the project,
/// a run that succeeds writes the same files with the same contents, one
/// for the contract and one each for the test and the script that were
/// asked for, after the steps that create directories and install the
/// package.
pub proof fn lemma_generation_is_repeatable<P: Project>(
    project: P,
    language: Language,
    name: Seq<char>,
    contract: ContractView,
    with_test: bool,
    with_script: bool,
    pragma: Option<Seq<char>>,
    license: Option<Seq<char>>,
    seen: SnapshotView,
)
    requires
        contract_plan(
            project,
            language,
            name,
            contract,
            with_test,
            with_script,
            pragma,
            license,
            seen,
        ).outcome is Ok,
    ensures
        composed(name, contract, language, pragma, license) is Ok,
        dependency_steps(project, required_dependency(contract), seen) is Ok,
        contract_plan(
            project,
            language,
            name,
            contract,
            with_test,
            with_script,
            pragma,
            license,
            seen,
        ).steps == project.directories() + dependency_steps(
            project,
            required_dependency(contract),
            seen,
        )->Ok_0 + write_steps(
            contract_files(
                project,
                language,
                name,
                with_test,
                with_script,
                composed(name, contract, language, pragma, license)->Ok_0,
            ),
        ),
        contract_files(
            project,
            language,
            name,
            with_test,
            with_script,
            composed(name, contract, language, pragma, license)->Ok_0,
        ).len() == 1 + (if with_test {
            1int
        } else {
            0int
        }) + (if with_script {
            1int
        } else {
            0int
        }),
{
    let texts = composed(name, contract, language, pragma, license)->Ok_0;
    let files = contract_files(project, language, name, with_test, with_script, texts);
    let installation = dependency_steps(project, required_dependency(contract), seen)->Ok_0;
    let before = project.directories() + installation;
    lemma_writing_succeeds_only_unhindered(before, files, seen, files.len());
    lemma_writing_unhindered(before, files, seen, files.len());
    assert(files.take(files.len() as int) == files);
}

} // verus!
