//! HCL tokens: string literals and identifiers as hcl-rs writes them, the
//! pretty form of a JSON document as serde_json writes it, and references from
//! one block to an attribute of another.
use vstd::prelude::*;

verus! {

/// What hcl-rs prints for a string expression holding the given text.
pub uninterp spec fn hcl_string_literal(s: Seq<char>) -> Seq<char>;

/// The identifier that hcl-rs makes of the given text.
pub uninterp spec fn hcl_identifier(s: Seq<char>) -> Seq<char>;

/// The pretty-printed form of a JSON text, or `None` where the text is not JSON.
pub uninterp spec fn pretty_json(s: Seq<char>) -> Option<Seq<char>>;

/// Relies on the `Display` of `hcl::Expression` (through `hcl::format::to_string`,
/// which cannot fail): a string expression printed as a quoted HCL literal, with
/// quotes, control characters and template markers escaped.
#[verifier::external_body]
pub(crate) fn string_literal(s: &str) -> (r: String)
    ensures
        r@ == hcl_string_literal(s@),
{
    hcl::Expression::String(s.to_string()).to_string()
}

/// Relies on `hcl::Identifier::sanitized`: the text with each character that an
/// identifier cannot hold replaced by `_`.
#[verifier::external_body]
pub(crate) fn identifier(s: &str) -> (r: String)
    ensures
        r@ == hcl_identifier(s@),
{
    hcl::Identifier::sanitized(s).to_string()
}

/// Relies on `serde_json::from_str` into a `serde_json::Value`, then
/// `serde_json::to_string_pretty` of that value: `None` where the text does not
/// parse, else the value printed with two-space indentation.
#[verifier::external_body]
pub(crate) fn pretty_json_text(s: &str) -> (r: Option<String>)
    ensures
        match r {
            Some(t) => pretty_json(s@) == Some(t@),
            None => pretty_json(s@) is None,
        },
{
    match serde_json::from_str::<serde_json::Value>(s) {
        Ok(v) => serde_json::to_string_pretty(&v).ok(),
        Err(_) => None,
    }
}

/// The HCL literal of a boolean.
pub open spec fn bool_text(b: bool) -> Seq<char> {
    if b {
        "true"@
    } else {
        "false"@
    }
}

pub fn bool_literal(b: bool) -> (r: String)
    ensures
        r@ == bool_text(b),
{
    if b {
        String::from_str("true")
    } else {
        String::from_str("false")
    }
}

/// Attribute `attribute` of the block of kind `kind` labelled `label`.
pub struct Reference {
    pub kind: String,
    pub label: String,
    pub attribute: String,
}

/// The traversal expression `kind.label.attribute`.
pub open spec fn reference_text(kind: Seq<char>, label: Seq<char>, attribute: Seq<char>) -> Seq<char> {
    hcl_identifier(kind) + "."@ + hcl_identifier(label) + "."@ + hcl_identifier(attribute)
}

impl Reference {
    pub fn to_expression(&self) -> (r: String)
        ensures
            r@ == reference_text(self.kind@, self.label@, self.attribute@),
    {
        let mut r = identifier(self.kind.as_str());
        r.append(".");
        let label = identifier(self.label.as_str());
        r.append(label.as_str());
        r.append(".");
        let attribute = identifier(self.attribute.as_str());
        r.append(attribute.as_str());
        r
    }
}

} // verus!
