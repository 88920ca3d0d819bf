//! The two target languages.

use crate::error::{ErrorView, NothungError};
use vstd::prelude::*;
use vstd::string::*;

verus! {

/// The language a resource is generated in. It decides the file extension,
/// the dialect of the composer and which kinds of resource exist.
#[derive(Clone, Copy, Debug, PartialEq, Eq, Structural)]
pub enum Language {
    Solidity,
    RustStylus,
}

/// What is reported where no language was chosen.
pub const NO_LANGUAGE: &'static str = "Must specify either --solidity or --rust-stylus";

/// What is reported where both languages were chosen.
pub const BOTH_LANGUAGES: &'static str = "Cannot specify both --solidity and --rust-stylus";

impl Language {
    /// The language chosen by the two flags: exactly one of them must be
    /// set.
    pub open spec fn chosen(solidity: bool, rust_stylus: bool) -> Result<Language, ErrorView> {
        if solidity && rust_stylus {
            Err(ErrorView::Other(BOTH_LANGUAGES@))
        } else if solidity {
            Ok(Language::Solidity)
        } else if rust_stylus {
            Ok(Language::RustStylus)
        } else {
            Err(ErrorView::Other(NO_LANGUAGE@))
        }
    }

    /// The language chosen by the two flags. Choosing both or neither is an
    /// error.
    pub fn from_flags(solidity: bool, rust_stylus: bool) -> (r: Result<Language, NothungError>)
        ensures
            match r {
                Ok(language) => Language::chosen(solidity, rust_stylus) == Ok::<
                    Language,
                    ErrorView,
                >(language),
                Err(error) => Language::chosen(solidity, rust_stylus) == Err::<Language, ErrorView>(
                    error@,
                ),
            },
    {
        match (solidity, rust_stylus) {
            (true, false) => Ok(Language::Solidity),
            (false, true) => Ok(Language::RustStylus),
            (false, false) => Err(NothungError::other(NO_LANGUAGE)),
            (true, true) => Err(NothungError::other(BOTH_LANGUAGES)),
        }
    }

    /// The extension of source files in this language.
    pub open spec fn extension_text(self) -> Seq<char> {
        match self {
            Language::Solidity => "sol"@,
            Language::RustStylus => "rs"@,
        }
    }

    /// The extension of source files in this language.
    pub fn file_extension(&self) -> (r: &'static str)
        ensures
            r@ == self.extension_text(),
    {
        match self {
            Language::Solidity => "sol",
            Language::RustStylus => "rs",
        }
    }
}

} // verus!
