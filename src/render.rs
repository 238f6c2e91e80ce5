//! Rendering a bucket: its blocks, and the policy document appended as a
//! heredoc block.
use vstd::prelude::*;
use crate::layout::{
    Attribute, AttributeView, LeafView, NestedBlock, LeafBlock, NestedView, ResourceBlock,
    ResourceView, body_text, format_body,
};
use crate::terraform::{Bucket, BucketPublicAccessBlock, normalize_resource_name, normalized};
use crate::tokens::{
    Reference, bool_text, hcl_string_literal, pretty_json, pretty_json_text, reference_text,
    string_literal,
};

verus! {

/// Encryption settings with their values written as HCL literals.
pub struct EncryptionTokens {
    pub sse_algorithm: String,
    pub kms_master_key_id: Option<String>,
    pub bucket_key_enabled: bool,
}

/// A bucket with every value written as an HCL token: the quoted block label,
/// the quoted bucket name, the reference to the bucket's `bucket` attribute, and
/// the quoted attribute values.
pub struct BucketTokens {
    pub label: String,
    pub name: String,
    pub reference: String,
    pub public_access_block: Option<BucketPublicAccessBlock>,
    pub encryption: Option<EncryptionTokens>,
    pub versioning: Option<String>,
    pub logging: Option<(String, String)>,
}

#[verifier::ext_equal]
pub struct EncryptionTokensView {
    pub sse_algorithm: Seq<char>,
    pub kms_master_key_id: Option<Seq<char>>,
    pub bucket_key_enabled: bool,
}

#[verifier::ext_equal]
pub struct TokensView {
    pub label: Seq<char>,
    pub name: Seq<char>,
    pub reference: Seq<char>,
    pub public_access_block: Option<BucketPublicAccessBlock>,
    pub encryption: Option<EncryptionTokensView>,
    pub versioning: Option<Seq<char>>,
    pub logging: Option<(Seq<char>, Seq<char>)>,
}

impl View for EncryptionTokens {
    type V = EncryptionTokensView;

    open spec fn view(&self) -> EncryptionTokensView {
        EncryptionTokensView {
            sse_algorithm: self.sse_algorithm@,
            kms_master_key_id: match self.kms_master_key_id {
                Some(k) => Some(k@),
                None => None,
            },
            bucket_key_enabled: self.bucket_key_enabled,
        }
    }
}

impl View for BucketTokens {
    type V = TokensView;

    open spec fn view(&self) -> TokensView {
        TokensView {
            label: self.label@,
            name: self.name@,
            reference: self.reference@,
            public_access_block: self.public_access_block,
            encryption: match self.encryption {
                Some(e) => Some(e@),
                None => None,
            },
            versioning: match self.versioning {
                Some(v) => Some(v@),
                None => None,
            },
            logging: match self.logging {
                Some(l) => Some((l.0@, l.1@)),
                None => None,
            },
        }
    }
}

pub open spec fn attr(key: Seq<char>, value: Seq<char>) -> AttributeView {
    AttributeView { key, value }
}

pub open spec fn resource(kind: Seq<char>, label: Seq<char>, attributes: Seq<AttributeView>, blocks: Seq<NestedView>) -> ResourceView {
    ResourceView { ident: "resource"@, labels: seq![kind, label], attributes, blocks }
}

/// The block of the bucket itself.
pub open spec fn primary_view(t: TokensView) -> ResourceView {
    resource("\"aws_s3_bucket\""@, t.label, seq![attr("bucket"@, t.name)], seq![])
}

pub open spec fn public_access_block_view(t: TokensView, p: BucketPublicAccessBlock) -> ResourceView {
    resource(
        "\"aws_s3_bucket_public_access_block\""@,
        t.label,
        seq![
            attr("bucket"@, t.reference),
            attr("block_public_acls"@, bool_text(p.block_public_acls)),
            attr("block_public_policy"@, bool_text(p.block_public_policy)),
            attr("ignore_public_acls"@, bool_text(p.ignore_public_acls)),
            attr("restrict_public_buckets"@, bool_text(p.restrict_public_buckets)),
        ],
        seq![],
    )
}

/// The encryption block: a `rule` holding the default-encryption block, then
/// `bucket_key_enabled` where it is set.
pub open spec fn encryption_view(t: TokensView, e: EncryptionTokensView) -> ResourceView {
    let defaults = LeafView {
        ident: "apply_server_side_encryption_by_default"@,
        attributes: seq![attr("sse_algorithm"@, e.sse_algorithm)] + match e.kms_master_key_id {
            Some(k) => seq![attr("kms_master_key_id"@, k)],
            None => seq![],
        },
    };
    let rule = NestedView {
        ident: "rule"@,
        blocks: seq![defaults],
        attributes: if e.bucket_key_enabled {
            seq![attr("bucket_key_enabled"@, "true"@)]
        } else {
            seq![]
        },
    };
    resource(
        "\"aws_s3_bucket_server_side_encryption_configuration\""@,
        t.label,
        seq![attr("bucket"@, t.reference)],
        seq![rule],
    )
}

pub open spec fn versioning_view(t: TokensView, status: Seq<char>) -> ResourceView {
    let configuration = NestedView {
        ident: "versioning_configuration"@,
        blocks: seq![],
        attributes: seq![attr("status"@, status)],
    };
    resource("\"aws_s3_bucket_versioning\""@, t.label, seq![attr("bucket"@, t.reference)], seq![configuration])
}

pub open spec fn logging_view(t: TokensView, target_bucket: Seq<char>, target_prefix: Seq<char>) -> ResourceView {
    resource(
        "\"aws_s3_bucket_logging\""@,
        t.label,
        seq![
            attr("bucket"@, t.reference),
            attr("target_bucket"@, target_bucket),
            attr("target_prefix"@, target_prefix),
        ],
        seq![],
    )
}

pub open spec fn public_access_part(t: TokensView) -> Seq<ResourceView> {
    match t.public_access_block {
        Some(p) => seq![public_access_block_view(t, p)],
        None => seq![],
    }
}

pub open spec fn encryption_part(t: TokensView) -> Seq<ResourceView> {
    match t.encryption {
        Some(e) => seq![encryption_view(t, e)],
        None => seq![],
    }
}

pub open spec fn versioning_part(t: TokensView) -> Seq<ResourceView> {
    match t.versioning {
        Some(s) => seq![versioning_view(t, s)],
        None => seq![],
    }
}

pub open spec fn logging_part(t: TokensView) -> Seq<ResourceView> {
    match t.logging {
        Some(l) => seq![logging_view(t, l.0, l.1)],
        None => seq![],
    }
}

/// The blocks of a bucket: its own block first, then one block for each
/// attribute that is present, in the order public access, encryption,
/// versioning, logging.
pub open spec fn token_blocks(t: TokensView) -> Seq<ResourceView> {
    seq![primary_view(t)] + public_access_part(t) + encryption_part(t) + versioning_part(t)
        + logging_part(t)
}

/// How many of the four block-producing attributes are present.
pub open spec fn present_count(t: TokensView) -> nat {
    (if t.public_access_block is Some { 1nat } else { 0 })
        + (if t.encryption is Some { 1nat } else { 0 })
        + (if t.versioning is Some { 1nat } else { 0 })
        + (if t.logging is Some { 1nat } else { 0 })
}

fn attribute(key: &str, value: String) -> (r: Attribute)
    ensures
        r@ == attr(key@, value@),
{
    Attribute { key: String::from_str(key), value }
}

fn resource_block(kind: &str, label: &String, attributes: Vec<Attribute>, blocks: Vec<NestedBlock>) -> (r: ResourceBlock)
    ensures
        r@ == resource(
            kind@,
            label@,
            attributes@.map_values(|a: Attribute| a@),
            blocks@.map_values(|b: NestedBlock| b@),
        ),
{
    let labels = vec![String::from_str(kind), label.clone()];
    let r = ResourceBlock { ident: String::from_str("resource"), labels, attributes, blocks };
    assert(r@.labels =~= seq![kind@, label@]);
    r
}

fn bool_attribute(key: &str, b: bool) -> (r: Attribute)
    ensures
        r@ == attr(key@, bool_text(b)),
{
    attribute(key, crate::tokens::bool_literal(b))
}

fn public_access_block_block(t: &BucketTokens, p: BucketPublicAccessBlock) -> (r: ResourceBlock)
    ensures
        r@ == public_access_block_view(t@, p),
{
    let attributes = vec![
        attribute("bucket", t.reference.clone()),
        bool_attribute("block_public_acls", p.block_public_acls),
        bool_attribute("block_public_policy", p.block_public_policy),
        bool_attribute("ignore_public_acls", p.ignore_public_acls),
        bool_attribute("restrict_public_buckets", p.restrict_public_buckets),
    ];
    let r = resource_block("\"aws_s3_bucket_public_access_block\"", &t.label, attributes, Vec::new());
    assert(r@ =~~= public_access_block_view(t@, p));
    r
}

fn encryption_block(t: &BucketTokens, e: &EncryptionTokens) -> (r: ResourceBlock)
    ensures
        r@ == encryption_view(t@, e@),
{
    let mut defaults = vec![attribute("sse_algorithm", e.sse_algorithm.clone())];
    match &e.kms_master_key_id {
        Some(k) => defaults.push(attribute("kms_master_key_id", k.clone())),
        None => {},
    }
    let leaf = LeafBlock {
        ident: String::from_str("apply_server_side_encryption_by_default"),
        attributes: defaults,
    };
    let mut rule_attributes: Vec<Attribute> = Vec::new();
    if e.bucket_key_enabled {
        rule_attributes.push(attribute("bucket_key_enabled", String::from_str("true")));
    }
    let rule = NestedBlock { ident: String::from_str("rule"), blocks: vec![leaf], attributes: rule_attributes };
    let r = resource_block(
        "\"aws_s3_bucket_server_side_encryption_configuration\"",
        &t.label,
        vec![attribute("bucket", t.reference.clone())],
        vec![rule],
    );
    assert(rule@.blocks =~= seq![leaf@]);
    assert(leaf@.attributes =~= encryption_view(t@, e@).blocks[0].blocks[0].attributes);
    assert(rule@.attributes =~= encryption_view(t@, e@).blocks[0].attributes);
    assert(r@ =~~= encryption_view(t@, e@));
    r
}

fn versioning_block(t: &BucketTokens, status: &String) -> (r: ResourceBlock)
    ensures
        r@ == versioning_view(t@, status@),
{
    let configuration = NestedBlock {
        ident: String::from_str("versioning_configuration"),
        blocks: Vec::new(),
        attributes: vec![attribute("status", status.clone())],
    };
    let r = resource_block(
        "\"aws_s3_bucket_versioning\"",
        &t.label,
        vec![attribute("bucket", t.reference.clone())],
        vec![configuration],
    );
    assert(configuration@ =~~= versioning_view(t@, status@).blocks[0]);
    assert(r@ =~~= versioning_view(t@, status@));
    r
}

fn logging_block(t: &BucketTokens, target_bucket: &String, target_prefix: &String) -> (r: ResourceBlock)
    ensures
        r@ == logging_view(t@, target_bucket@, target_prefix@),
{
    let attributes = vec![
        attribute("bucket", t.reference.clone()),
        attribute("target_bucket", target_bucket.clone()),
        attribute("target_prefix", target_prefix.clone()),
    ];
    let r = resource_block("\"aws_s3_bucket_logging\"", &t.label, attributes, Vec::new());
    assert(r@ =~~= logging_view(t@, target_bucket@, target_prefix@));
    r
}

/// The blocks of a bucket whose values are already HCL tokens.
pub fn blocks_from_tokens(t: &BucketTokens) -> (r: Vec<ResourceBlock>)
    ensures
        r@.map_values(|b: ResourceBlock| b@) == token_blocks(t@),
        r@.len() == 1 + present_count(t@),
{
    let primary = resource_block(
        "\"aws_s3_bucket\"",
        &t.label,
        vec![attribute("bucket", t.name.clone())],
        Vec::new(),
    );
    assert(primary@ =~~= primary_view(t@));
    let mut r = vec![primary];
    let ghost a = public_access_part(t@);
    let ghost b = encryption_part(t@);
    let ghost c = versioning_part(t@);
    let ghost d = logging_part(t@);
    assert(r@.map_values(|b: ResourceBlock| b@) =~= seq![primary_view(t@)]);
    if let Some(p) = t.public_access_block {
        r.push(public_access_block_block(t, p));
    }
    assert(r@.map_values(|b: ResourceBlock| b@) =~= seq![primary_view(t@)] + a);
    if let Some(e) = &t.encryption {
        r.push(encryption_block(t, e));
    }
    assert(r@.map_values(|b: ResourceBlock| b@) =~= seq![primary_view(t@)] + a + b);
    if let Some(s) = &t.versioning {
        r.push(versioning_block(t, s));
    }
    assert(r@.map_values(|b: ResourceBlock| b@) =~= seq![primary_view(t@)] + a + b + c);
    if let Some(l) = &t.logging {
        r.push(logging_block(t, &l.0, &l.1));
    }
    assert(r@.map_values(|b: ResourceBlock| b@) =~= seq![primary_view(t@)] + a + b + c + d);
    r
}

/// Why a bucket could not be rendered.
#[derive(Debug, Clone, Copy, PartialEq, Eq, Structural)]
pub enum RenderError {
    /// The stored policy document is not valid JSON.
    InvalidPolicy,
}

impl RenderError {
    pub fn message(&self) -> (r: String)
        ensures
            *self == RenderError::InvalidPolicy ==> r@ == "the bucket policy is not valid JSON"@,
    {
        match self {
            RenderError::InvalidPolicy => String::from_str("the bucket policy is not valid JSON"),
        }
    }
}

/// The tokens of a bucket: its name quoted, its normalized name quoted as the
/// label, a reference to `aws_s3_bucket.<label>.bucket`, and each string value
/// quoted.
pub open spec fn tokens_of(b: Bucket) -> TokensView {
    TokensView {
        label: hcl_string_literal(normalized(b.name@)),
        name: hcl_string_literal(b.name@),
        reference: reference_text("aws_s3_bucket"@, normalized(b.name@), "bucket"@),
        public_access_block: b.public_access_block,
        encryption: match b.encryption {
            Some(e) => Some(
                EncryptionTokensView {
                    sse_algorithm: hcl_string_literal(e.sse_algorithm@),
                    kms_master_key_id: match e.kms_master_key_id {
                        Some(k) => Some(hcl_string_literal(k@)),
                        None => None,
                    },
                    bucket_key_enabled: e.bucket_key_enabled,
                },
            ),
            None => None,
        },
        versioning: match b.versioning {
            Some(v) => Some(hcl_string_literal(v.status@)),
            None => None,
        },
        logging: match b.logging {
            Some(l) => Some((hcl_string_literal(l.target_bucket@), hcl_string_literal(l.target_prefix@))),
            None => None,
        },
    }
}

pub fn bucket_tokens(b: &Bucket) -> (r: BucketTokens)
    ensures
        r@ == tokens_of(*b),
{
    let label_name = normalize_resource_name(b.name.as_str());
    let label = string_literal(label_name.as_str());
    let name = string_literal(b.name.as_str());
    let target = Reference {
        kind: String::from_str("aws_s3_bucket"),
        label: label_name,
        attribute: String::from_str("bucket"),
    };
    let reference = target.to_expression();
    let encryption = match &b.encryption {
        Some(e) => {
            let kms_master_key_id = match &e.kms_master_key_id {
                Some(k) => Some(string_literal(k.as_str())),
                None => None,
            };
            Some(
                EncryptionTokens {
                    sse_algorithm: string_literal(e.sse_algorithm.as_str()),
                    kms_master_key_id,
                    bucket_key_enabled: e.bucket_key_enabled,
                },
            )
        },
        None => None,
    };
    let versioning = match &b.versioning {
        Some(v) => Some(string_literal(v.status.as_str())),
        None => None,
    };
    let logging = match &b.logging {
        Some(l) => Some((string_literal(l.target_bucket.as_str()), string_literal(l.target_prefix.as_str()))),
        None => None,
    };
    let r = BucketTokens {
        label,
        name,
        reference,
        public_access_block: b.public_access_block,
        encryption,
        versioning,
        logging,
    };
    assert(r@ =~~= tokens_of(*b));
    r
}

/// The policy block: a heredoc holding the policy document, after a blank line.
pub open spec fn policy_text(label: Seq<char>, json: Seq<char>) -> Seq<char> {
    "\nresource \"aws_s3_bucket_policy\" \""@ + label + "\" {\n  bucket = aws_s3_bucket."@ + label
        + ".bucket\n  policy = <<POLICY\n"@ + json + "\nPOLICY\n}\n"@
}

/// Writes the policy block of the bucket labelled `label` around an already
/// formatted policy document.
pub fn policy_block(label: &str, json: &str) -> (r: String)
    ensures
        r@ == policy_text(label@, json@),
{
    let mut r = String::from_str("\nresource \"aws_s3_bucket_policy\" \"");
    r.append(label);
    r.append("\" {\n  bucket = aws_s3_bucket.");
    r.append(label);
    r.append(".bucket\n  policy = <<POLICY\n");
    r.append(json);
    r.append("\nPOLICY\n}\n");
    assert(r@ =~= policy_text(label@, json@));
    r
}

/// The text of a bucket: its blocks, then the policy block where it has a
/// policy; `None` where the stored policy is not JSON.
pub open spec fn rendered(b: Bucket) -> Option<Seq<char>> {
    let body = body_text(token_blocks(tokens_of(b)));
    match b.policy {
        None => Some(body),
        Some(p) => match pretty_json(p@) {
            None => None,
            Some(json) => Some(body + policy_text(normalized(b.name@), json)),
        },
    }
}

/// Renders a bucket. Fails exactly where the stored policy is not valid JSON.
pub fn render_bucket(b: &Bucket) -> (r: Result<String, RenderError>)
    ensures
        match rendered(*b) {
            Some(t) => r is Ok && r->Ok_0@ == t,
            None => r == Err::<String, RenderError>(RenderError::InvalidPolicy),
        },
{
    let tokens = bucket_tokens(b);
    let blocks = blocks_from_tokens(&tokens);
    let mut out = format_body(&blocks);
    match &b.policy {
        None => Ok(out),
        Some(p) => match pretty_json_text(p.as_str()) {
            None => Err(RenderError::InvalidPolicy),
            Some(json) => {
                let label = normalize_resource_name(b.name.as_str());
                let block = policy_block(label.as_str(), json.as_str());
                out.append(block.as_str());
                Ok(out)
            },
        },
    }
}

/// A bucket with nothing but a name renders as exactly one block, its own, and
/// no other block.
pub proof fn lemma_name_only_renders_one_block(b: Bucket)
    requires
        b.policy is None,
        b.public_access_block is None,
        b.encryption is None,
        b.versioning is None,
        b.logging is None,
    ensures
        token_blocks(tokens_of(b)) == seq![primary_view(tokens_of(b))],
        rendered(b) == Some(body_text(seq![primary_view(tokens_of(b))])),
{
    assert(token_blocks(tokens_of(b)) =~= seq![primary_view(tokens_of(b))]);
}

} // verus!
