//! The configuration file is an INI document, read by the `ini` crate. Only
//! its general section, the settings that stand before any section header,
//! is of interest here.

use vstd::prelude::*;

verus! {

/// A parsed INI document. Opaque: its settings are read through
/// [`general_value`].
#[verifier::external_type_specification]
#[verifier::external_body]
pub struct ExIni(ini::Ini);

/// The failure to parse an INI document.
#[verifier::external_type_specification]
#[verifier::external_body]
pub struct ExParseError(ini::ParseError);

/// The general section of a document: each of its keys with the first value
/// that the document gives it.
pub uninterp spec fn general_section(doc: ini::Ini) -> Map<Seq<char>, Seq<char>>;

/// What `Ini::load_from_str` makes of a text: the general section of the
/// document it parses to, or `None` where it refuses the text.
pub uninterp spec fn parsed_general_section(text: Seq<char>) -> Option<Map<Seq<char>, Seq<char>>>;

/// Calls `Ini::load_from_str`. Trusted: the outcome depends on the text
/// alone, and is known here only by name.
#[verifier::external_body]
pub(crate) fn load_from_str(text: &str) -> (r: Result<ini::Ini, ini::ParseError>)
    ensures
        match r {
            Ok(doc) => parsed_general_section(text@) == Some(general_section(doc)),
            Err(_) => parsed_general_section(text@).is_none(),
        },
{
    ini::Ini::load_from_str(text)
}

/// Calls `Ini::get_from` for the general section. Trusted: the result is the
/// first value that the section holds for `key`, or `None` where it holds
/// none.
#[verifier::external_body]
pub(crate) fn general_value(doc: &ini::Ini, key: &str) -> (value: Option<String>)
    ensures
        value.is_some() == general_section(*doc).contains_key(key@),
        value matches Some(v) ==> v@ == general_section(*doc)[key@],
{
    doc.get_from(None::<String>, key).map(String::from)
}

/// The text of a parse failure, as its `Display` gives it. Trusted; nothing
/// is claimed of the text.
#[verifier::external_body]
pub(crate) fn parse_error_text(e: &ini::ParseError) -> String {
    e.to_string()
}

} // verus!
