//! Parsing of extension names as a user writes them.
//!
//! A name is matched against the catalog after lowercasing and nothing
//! else: whitespace around a name is not trimmed, so `" burnable "` is not
//! a name of the catalog.

use crate::error::{ErrorView, NothungError};
use crate::templates::TokenExtension;
use crate::text::{lowercase_of, same_text, to_lowercase};
use vstd::prelude::*;
use vstd::string::*;

verus! {

/// How the message about an unknown name starts.
pub const UNKNOWN_EXTENSION: &'static str = "Unknown extension: ";

/// How the message about an unknown name ends: with the names of the
/// catalog.
pub const AVAILABLE_EXTENSIONS: &'static str =
    ". Available extensions: permit, burnable, capped, pausable, votes, wrapper, flashmint, temporaryapproval, bridgeable, erc1363, erc4626, consecutive, uristorage, royalty, wrapper, enumerable, supply";

/// The extension a short name of the catalog stands for. The names are in
/// lowercase; a name shared by several standards stands for the extension
/// of the fungible standard, or of the non-fungible one where the fungible
/// has none.
pub open spec fn catalog_entry(short_name: Seq<char>) -> Option<TokenExtension> {
    if short_name == "permit"@ {
        Some(TokenExtension::ERC20Permit)
    } else if short_name == "burnable"@ {
        Some(TokenExtension::ERC20Burnable)
    } else if short_name == "capped"@ {
        Some(TokenExtension::ERC20Capped)
    } else if short_name == "pausable"@ {
        Some(TokenExtension::ERC20Pausable)
    } else if short_name == "votes"@ {
        Some(TokenExtension::ERC20Votes)
    } else if short_name == "wrapper"@ {
        Some(TokenExtension::ERC20Wrapper)
    } else if short_name == "flashmint"@ {
        Some(TokenExtension::ERC20FlashMint)
    } else if short_name == "temporaryapproval"@ {
        Some(TokenExtension::ERC20TemporaryApproval)
    } else if short_name == "bridgeable"@ {
        Some(TokenExtension::ERC20Bridgeable)
    } else if short_name == "erc1363"@ {
        Some(TokenExtension::ERC1363)
    } else if short_name == "erc4626"@ {
        Some(TokenExtension::ERC4626)
    } else if short_name == "consecutive"@ {
        Some(TokenExtension::ERC721Consecutive)
    } else if short_name == "uristorage"@ {
        Some(TokenExtension::ERC721URIStorage)
    } else if short_name == "royalty"@ {
        Some(TokenExtension::ERC721Royalty)
    } else if short_name == "enumerable"@ {
        Some(TokenExtension::ERC721Enumerable)
    } else if short_name == "supply"@ {
        Some(TokenExtension::ERC1155Supply)
    } else {
        None
    }
}

/// The extension a name stands for, whatever its case.
pub open spec fn parsed_name(name: Seq<char>) -> Option<TokenExtension> {
    catalog_entry(lowercase_of(name))
}

/// The message about a name that is not in the catalog.
pub open spec fn unknown_extension_message(name: Seq<char>) -> Seq<char> {
    UNKNOWN_EXTENSION@ + name + AVAILABLE_EXTENSIONS@
}

/// The result of parsing the first `n` names: the extensions they stand
/// for, in order, or the error about the first name that stands for none.
pub open spec fn parsed_prefix(names: Seq<Seq<char>>, n: nat) -> Result<
    Seq<TokenExtension>,
    ErrorView,
>
    decreases n,
{
    if n == 0 || n > names.len() {
        Ok(Seq::empty())
    } else {
        match parsed_prefix(names, (n - 1) as nat) {
            Err(error) => Err(error),
            Ok(list) => match parsed_name(names[n - 1]) {
                Some(extension) => Ok(list.push(extension)),
                None => Err(ErrorView::Other(unknown_extension_message(names[n - 1]))),
            },
        }
    }
}

/// The result of parsing all of `names`.
pub open spec fn parsed(names: Seq<Seq<char>>) -> Result<Seq<TokenExtension>, ErrorView> {
    parsed_prefix(names, names.len())
}

/// The extension that the lowercase short name `short_name` stands for.
pub fn extension_for_short_name(short_name: &str) -> (r: Option<TokenExtension>)
    ensures
        r == catalog_entry(short_name@),
{
    if same_text(short_name, "permit") {
        Some(TokenExtension::ERC20Permit)
    } else if same_text(short_name, "burnable") {
        Some(TokenExtension::ERC20Burnable)
    } else if same_text(short_name, "capped") {
        Some(TokenExtension::ERC20Capped)
    } else if same_text(short_name, "pausable") {
        Some(TokenExtension::ERC20Pausable)
    } else if same_text(short_name, "votes") {
        Some(TokenExtension::ERC20Votes)
    } else if same_text(short_name, "wrapper") {
        Some(TokenExtension::ERC20Wrapper)
    } else if same_text(short_name, "flashmint") {
        Some(TokenExtension::ERC20FlashMint)
    } else if same_text(short_name, "temporaryapproval") {
        Some(TokenExtension::ERC20TemporaryApproval)
    } else if same_text(short_name, "bridgeable") {
        Some(TokenExtension::ERC20Bridgeable)
    } else if same_text(short_name, "erc1363") {
        Some(TokenExtension::ERC1363)
    } else if same_text(short_name, "erc4626") {
        Some(TokenExtension::ERC4626)
    } else if same_text(short_name, "consecutive") {
        Some(TokenExtension::ERC721Consecutive)
    } else if same_text(short_name, "uristorage") {
        Some(TokenExtension::ERC721URIStorage)
    } else if same_text(short_name, "royalty") {
        Some(TokenExtension::ERC721Royalty)
    } else if same_text(short_name, "enumerable") {
        Some(TokenExtension::ERC721Enumerable)
    } else if same_text(short_name, "supply") {
        Some(TokenExtension::ERC1155Supply)
    } else {
        None
    }
}

/// The extension that `name` stands for, whatever its case.
pub fn parse_extension(name: &str) -> (r: Option<TokenExtension>)
    ensures
        r == parsed_name(name@),
{
    let lowered = to_lowercase(name);
    extension_for_short_name(lowered.as_str())
}

/// Parses `extensions` in order. Duplicates are kept. The first name that
/// is not in the catalog fails the whole call, with a message that lists the
/// catalog.
pub fn parse_extensions(extensions: &[String]) -> (r: Result<Vec<TokenExtension>, NothungError>)
    ensures
        match r {
            Ok(list) => parsed(crate::text::texts(extensions@)) == Ok::<
                Seq<TokenExtension>,
                ErrorView,
            >(list@),
            Err(error) => parsed(crate::text::texts(extensions@)) == Err::<
                Seq<TokenExtension>,
                ErrorView,
            >(error@),
        },
{
    let mut result: Vec<TokenExtension> = Vec::new();
    let mut i: usize = 0;
    while i < extensions.len()
        invariant
            i <= extensions.len(),
            parsed_prefix(crate::text::texts(extensions@), i as nat) == Ok::<
                Seq<TokenExtension>,
                ErrorView,
            >(result@),
        decreases extensions.len() - i,
    {
        match parse_extension(extensions[i].as_str()) {
            Some(extension) => {
                result.push(extension);
            },
            None => {
                let mut message = String::from_str(UNKNOWN_EXTENSION);
                message.append(extensions[i].as_str());
                message.append(AVAILABLE_EXTENSIONS);
                proof {
                    lemma_failure_is_final(
                        crate::text::texts(extensions@),
                        (i + 1) as nat,
                        extensions@.len(),
                    );
                }
                return Err(NothungError::Other(message));
            },
        }
        i = i + 1;
    }
    Ok(result)
}

/// Once a prefix of the names fails to parse, every longer prefix fails
/// with the same error.
pub proof fn lemma_failure_is_final(names: Seq<Seq<char>>, n: nat, m: nat)
    requires
        n <= m <= names.len(),
        parsed_prefix(names, n) is Err,
    ensures
        parsed_prefix(names, m) == parsed_prefix(names, n),
    decreases m,
{
    if n < m {
        lemma_failure_is_final(names, n, (m - 1) as nat);
    }
}

/// Parsing keeps order and duplicates: where it succeeds there is one
/// extension for each name, at the name's position, and it is what that
/// name alone stands for.
pub proof fn lemma_parsing_is_pointwise(names: Seq<Seq<char>>, n: nat)
    requires
        n <= names.len(),
    ensures
        match parsed_prefix(names, n) {
            Ok(list) => {
                &&& list.len() == n
                &&& forall|i: int| 0 <= i < n ==> parsed_name(#[trigger] names[i]) == Some(list[i])
            },
            Err(_) => exists|i: int| 0 <= i < n && parsed_name(#[trigger] names[i]) is None,
        },
    decreases n,
{
    if n > 0 {
        lemma_parsing_is_pointwise(names, (n - 1) as nat);
        match parsed_prefix(names, (n - 1) as nat) {
            Ok(list) => {
                if parsed_name(names[n - 1]) is None {
                    assert(parsed_name(names[n - 1]) is None);
                }
            },
            Err(_) => {},
        }
    }
}

/// Two names that differ only in case stand for the same extension, or
/// both for none.
pub proof fn lemma_parsing_ignores_case(a: Seq<char>, b: Seq<char>)
    requires
        lowercase_of(a) == lowercase_of(b),
    ensures
        parsed_name(a) == parsed_name(b),
{
}

} // verus!
