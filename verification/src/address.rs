//! The address a session connects to.
//!
//! Every debuggable instance is named by a session token. The inspector of an
//! instance listens on a secure socket whose path ends in that token.

use vstd::prelude::*;

verus! {

/// The failure of `url::Url::parse`. Which failure it is, is not read here.
#[verifier::external_type_specification]
#[verifier::external_body]
pub struct ExParseError(url::ParseError);

/// The session token does not give an address a socket can be opened to.
#[derive(Clone, Copy, Debug, PartialEq, Eq, Structural)]
pub struct InvalidAddress;

/// The inspector's address for the instance that `token` names, as written
/// before it is parsed.
pub open spec fn inspect_address(token: Seq<char>) -> Seq<char> {
    "wss://rawhttp.cloudflareworkers.com/inspect/"@ + token
}

/// The normal form in which the URL parser of `url` writes `text` back, or
/// `None` where `text` is no absolute URL.
pub uninterp spec fn parsed_url(text: Seq<char>) -> Option<Seq<char>>;

/// Parses `text` with `url::Url::parse` and hands back the parsed URL's
/// serialisation.
///
/// The contract claims that the result is a function of the text: the parser
/// reads nothing else.
#[verifier::external_body]
fn parse_url(text: &str) -> (result: Result<String, url::ParseError>)
    ensures
        match result {
            Ok(parsed) => parsed_url(text@) == Some(parsed@),
            Err(_) => parsed_url(text@) is None,
        },
{
    url::Url::parse(text).map(String::from)
}

/// Writes the inspector's address for `token`.
pub fn write_address(token: &str) -> (address: String)
    ensures
        address@ == inspect_address(token@),
{
    let mut address = String::from_str("wss://rawhttp.cloudflareworkers.com/inspect/");
    address.append(token);
    address
}

/// Turns the parser's answer into the address to connect to.
pub fn target_from(parsed: Result<String, url::ParseError>) -> (target: Result<
    String,
    InvalidAddress,
>)
    ensures
        match parsed {
            Ok(address) => target == Ok::<String, InvalidAddress>(address),
            Err(_) => target == Err::<String, InvalidAddress>(InvalidAddress),
        },
{
    match parsed {
        Ok(address) => Ok(address),
        Err(_) => Err(InvalidAddress),
    }
}

/// The address to connect to for the instance that `token` names: the parsed
/// form of the inspector's address, where it has one.
pub fn connect_target(token: &str) -> (target: Result<String, InvalidAddress>)
    ensures
        match target {
            Ok(address) => parsed_url(inspect_address(token@)) == Some(address@),
            Err(_) => parsed_url(inspect_address(token@)) is None,
        },
{
    let address = write_address(token);
    target_from(parse_url(address.as_str()))
}

} // verus!
