//! Java properties files, as the Android SDK and NDK write them.
//!
//! Reading the file format is the work of the `java-properties` crate; the
//! library asks it for one value at a time.

use vstd::prelude::*;
use vstd::string::*;

verus! {

/// The error of the `java-properties` crate for a file that it cannot
/// read.
#[verifier::external_type_specification]
#[verifier::external_body]
pub struct ExPropertiesError(java_properties::PropertiesError);

/// What the properties file `bytes` holds under `key`, the last entry
/// counting where a key comes twice: `Some(None)` where the key is absent,
/// `None` where `bytes` is no properties file.
pub uninterp spec fn property_of(bytes: Seq<u8>, key: Seq<char>) -> Option<Option<Seq<char>>>;

/// Reads the properties in `bytes` and looks `key` up
/// (`java_properties::read`). Claimed: the result is `property_of`, and
/// reading fails exactly where that is `None`.
#[verifier::external_body]
fn read_property(bytes: &[u8], key: &str) -> (r: Result<
    Option<String>,
    java_properties::PropertiesError,
>)
    ensures
        match r {
            Ok(value) => property_of(bytes@, key@) == Some(value.deep_view()),
            Err(_) => property_of(bytes@, key@) is None,
        },
{
    java_properties::read(bytes).map(|props| props.get(key).cloned())
}

/// What the reader says of an error (`PropertiesError` as `Display`).
/// Nothing is claimed of the text.
#[verifier::external_body]
fn error_text(error: &java_properties::PropertiesError) -> String {
    format!("{}", error)
}

/// What the properties file `bytes` holds under `key`; the error is what
/// the reader said of a file that it could not read.
pub fn property(bytes: &Vec<u8>, key: &str) -> (r: Result<Option<String>, String>)
    ensures
        match r {
            Ok(value) => property_of(bytes@, key@) == Some(value.deep_view()),
            Err(_) => property_of(bytes@, key@) is None,
        },
{
    match read_property(bytes.as_slice(), key) {
        Ok(value) => Ok(value),
        Err(e) => Err(error_text(&e)),
    }
}

} // verus!
