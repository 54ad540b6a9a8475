//! The trusted boundary to the XML property-list wire format.
//!
//! The crate renders a job to its own [`PlistValue`] tree with a verified,
//! exact contract; the XML encoding of that tree is delegated to the `plist`
//! crate. The bytes of the encoding are named by the uninterpreted function
//! [`xml_of`]: they are a function of the value tree alone, and nothing more
//! is assumed about them.

use vstd::prelude::*;
use vstd::string::StringExecFns;

use crate::launchagent::{LaunchAgent, agent_value};
use crate::value::{PlistValue, SpecValue};

verus! {

/// The XML property-list encoding of a value tree, as the `plist` crate
/// produces it. The encoding depends on the tree alone.
pub uninterp spec fn xml_of(v: SpecValue) -> Seq<u8>;

/// An encoding failure, carrying the encoder's description.
#[derive(Debug)]
pub struct EncodeError {
    /// What the encoder reported.
    pub message: String,
}

/// The declaration of the `plist` crate's value type, so that the conversion
/// below can name it; the type stays opaque.
#[verifier::external_type_specification]
#[verifier::external_body]
pub struct ExPlistCrateValue(plist::Value);

/// Relies on the `plist` crate's value constructors: maps each variant of the
/// crate's own tree one-for-one onto the corresponding `plist::Value`
/// variant, keys and elements in order. The crate's dictionary is keyed:
/// should a pair list hold one key twice — which the library's contracts rule
/// out — the entries would merge on the wire, the last value winning.
#[verifier::external_body]
fn to_plist_value(v: &PlistValue) -> plist::Value {
    match v {
        PlistValue::Boolean(b) => plist::Value::Boolean(*b),
        PlistValue::Integer(i) => plist::Value::Integer(plist::Integer::from(*i)),
        PlistValue::String(s) => plist::Value::String(s.clone()),
        PlistValue::Array(items) => plist::Value::Array(items.iter().map(to_plist_value).collect()),
        PlistValue::Dictionary(pairs) => plist::Value::Dictionary(
            pairs.iter().map(|p| (p.0.clone(), to_plist_value(&p.1))).collect(),
        ),
    }
}

/// Relies on `plist::Value::to_writer_xml`: the call hands back the XML
/// plist encoding of the value, a function of the value alone. Success is
/// owed: the writer's only failure modes are I/O errors — and a write into
/// an in-memory buffer cannot fail — and malformed event streams, which the
/// event stream of a built value never is; no date, real, data or uid value,
/// the kinds with fallible formatting, can come out of the conversion above.
#[verifier::external_body]
fn encode_value_xml(v: &PlistValue) -> (r: Result<Vec<u8>, EncodeError>)
    ensures
        r is Ok,
        r matches Ok(bytes) ==> bytes@ == xml_of(v@),
{
    let mut out: Vec<u8> = Vec::new();
    match to_plist_value(v).to_writer_xml(&mut out) {
        Ok(()) => Ok(out),
        Err(e) => Err(EncodeError { message: e.to_string() }),
    }
}

impl LaunchAgent {
    /// Renders the job and encodes it as an XML property-list document.
    /// Encoding always succeeds, and the bytes are exactly the encoding of
    /// the job's rendered dictionary.
    pub fn to_xml(&self) -> (r: Result<Vec<u8>, EncodeError>)
        ensures
            r matches Ok(bytes) && bytes@ == xml_of(agent_value(*self)),
    {
        let v = self.to_value();
        encode_value_xml(&v)
    }
}

/// The file path that a save of a job with the given label targets:
/// `<out_dir>/<label>.plist`.
pub fn plist_file_path(out_dir: &str, label: &str) -> (r: String)
    ensures
        r@ == out_dir@ + "/"@ + label@ + ".plist"@,
{
    let mut s: String = out_dir.to_owned();
    s.append("/");
    s.append(label);
    s.append(".plist");
    s
}

} // verus!
