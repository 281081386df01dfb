//! The first steps of reading a data file of a mod: telling its format from
//! its first byte, and decoding it as UTF-8 text.

use vstd::prelude::*;
use vstd::utf8::{decode_utf8, valid_utf8};
use crate::mod_paths::str_from_utf8;

verus! {

/// The formats in which mod data files are written.
#[derive(Debug, Clone, Copy, PartialEq, Eq, Structural)]
pub enum DataFormat {
    Json5,
    Toml,
    Yaml,
}

/// The file is not valid UTF-8 text.
#[derive(Debug, Clone, Copy, PartialEq, Eq, Structural)]
pub struct NotUtf8;

/// The format of a data file, told by its first byte: `{` opens JSON5,
/// `[` opens TOML, and anything else is read as YAML.
pub open spec fn spec_detect_format(bytes: Seq<u8>) -> DataFormat {
    if bytes.len() > 0 && bytes[0] == 0x7bu8 {
        DataFormat::Json5
    } else if bytes.len() > 0 && bytes[0] == 0x5bu8 {
        DataFormat::Toml
    } else {
        DataFormat::Yaml
    }
}

/// The format of a data file depends on its first byte alone: `{` opens
/// JSON5, `[` opens TOML, and an empty file or any other first byte is YAML.
pub proof fn law_detect_format(bytes: Seq<u8>, other: Seq<u8>)
    ensures
        bytes.len() == 0 ==> spec_detect_format(bytes) == DataFormat::Yaml,
        bytes.len() > 0 && bytes[0] as int == '{' as int ==> spec_detect_format(bytes) == DataFormat::Json5,
        bytes.len() > 0 && bytes[0] as int == '[' as int ==> spec_detect_format(bytes) == DataFormat::Toml,
        bytes.len() > 0 && bytes[0] as int != '{' as int && bytes[0] as int != '[' as int
            ==> spec_detect_format(bytes) == DataFormat::Yaml,
        bytes.len() > 0 && other.len() > 0 && bytes[0] == other[0] ==> spec_detect_format(bytes)
            == spec_detect_format(other),
{
}


/// Tells the format of a data file from its first byte.
pub fn detect_format(bytes: &[u8]) -> (r: DataFormat)
    ensures
        r == spec_detect_format(bytes@),
{
    if bytes.len() > 0 && bytes[0] == 0x7bu8 {
        DataFormat::Json5
    } else if bytes.len() > 0 && bytes[0] == 0x5bu8 {
        DataFormat::Toml
    } else {
        DataFormat::Yaml
    }
}

/// The text of a data file, when its bytes are valid UTF-8.
pub fn source_text(bytes: &[u8]) -> (r: Result<&str, NotUtf8>)
    ensures
        r is Ok <==> valid_utf8(bytes@),
        r matches Ok(s) ==> s@ == decode_utf8(bytes@),
{
    match str_from_utf8(bytes) {
        Some(s) => Ok(s),
        None => Err(NotUtf8),
    }
}

} // verus!
