//! The renderer's own records of a bucket, and the labels that name them.
use vstd::prelude::*;
use crate::model;

verus! {

/// A name character that a block label cannot hold as it is.
pub open spec fn is_separator(c: char) -> bool {
    c == '-' || c == '.' || c == ' ' || c == '/'
}

pub open spec fn normalized_char(c: char) -> char {
    if is_separator(c) {
        '_'
    } else {
        c
    }
}

/// A name with each `-`, `.`, space and `/` replaced by `_`.
pub open spec fn normalized(name: Seq<char>) -> Seq<char> {
    name.map_values(|c: char| normalized_char(c))
}

/// Turns a resource name into a block label.
pub fn normalize_resource_name(name: &str) -> (r: String)
    ensures
        r@ == normalized(name@),
{
    let n = name.unicode_len();
    let mut r = String::new();
    let mut i: usize = 0;
    proof {
        reveal_strlit("_");
    }
    while i < n
        invariant
            n == name@.len(),
            i <= n,
            r@ == normalized(name@.subrange(0, i as int)),
            "_"@ == seq!['_'],
        decreases n - i,
    {
        let c = name.get_char(i);
        if c == '-' || c == '.' || c == ' ' || c == '/' {
            r.append("_");
        } else {
            let one = name.substring_char(i, i + 1);
            assert(one@ =~= seq![c]);
            r.append(one);
        }
        i = i + 1;
        assert(r@ =~= normalized(name@.subrange(0, i as int)));
    }
    assert(name@.subrange(0, n as int) =~= name@);
    r
}

/// Normalizing is idempotent: a normalized name is its own normal form.
pub proof fn lemma_normalize_idempotent(name: Seq<char>)
    ensures
        normalized(normalized(name)) == normalized(name),
        forall|i: int| 0 <= i < normalized(name).len() ==> !is_separator(#[trigger] normalized(name)[i]),
{
    assert(normalized(normalized(name)) =~= normalized(name));
}

/// The public-access settings as rendered.
#[derive(Debug, Clone, Copy, PartialEq, Eq)]
pub struct BucketPublicAccessBlock {
    pub block_public_acls: bool,
    pub block_public_policy: bool,
    pub ignore_public_acls: bool,
    pub restrict_public_buckets: bool,
}

/// Default encryption as rendered.
#[derive(Debug)]
pub struct BucketEncryption {
    pub sse_algorithm: String,
    pub kms_master_key_id: Option<String>,
    pub bucket_key_enabled: bool,
}

/// Versioning as rendered.
#[derive(Debug)]
pub struct BucketVersioning {
    pub status: String,
}

/// Access logging as rendered.
#[derive(Debug)]
pub struct BucketLogging {
    pub target_bucket: String,
    pub target_prefix: String,
}

/// A bucket as the renderer holds it.
#[derive(Debug)]
pub struct Bucket {
    pub name: String,
    pub policy: Option<String>,
    pub public_access_block: Option<BucketPublicAccessBlock>,
    pub encryption: Option<BucketEncryption>,
    pub versioning: Option<BucketVersioning>,
    pub logging: Option<BucketLogging>,
}

pub open spec fn public_access_block_of(v: model::BucketPublicAccessBlock) -> BucketPublicAccessBlock {
    BucketPublicAccessBlock {
        block_public_acls: v.block_public_acls,
        block_public_policy: v.block_public_policy,
        ignore_public_acls: v.ignore_public_acls,
        restrict_public_buckets: v.restrict_public_buckets,
    }
}

pub open spec fn encryption_of(v: model::BucketEncryption) -> BucketEncryption {
    BucketEncryption {
        sse_algorithm: v.sse_algorithm,
        kms_master_key_id: v.kms_master_key_id,
        bucket_key_enabled: v.bucket_key_enabled,
    }
}

pub open spec fn versioning_of(v: model::BucketVersioning) -> BucketVersioning {
    BucketVersioning { status: v.status }
}

pub open spec fn logging_of(v: model::BucketLogging) -> BucketLogging {
    BucketLogging { target_bucket: v.target_bucket, target_prefix: v.target_prefix }
}

/// The renderer's copy of a fetched bucket: every field carried over as it is.
pub open spec fn bucket_of(v: model::Bucket) -> Bucket {
    Bucket {
        name: v.name,
        policy: v.policy,
        public_access_block: match v.public_access_block {
            Some(p) => Some(public_access_block_of(p)),
            None => None,
        },
        encryption: match v.encryption {
            Some(e) => Some(encryption_of(e)),
            None => None,
        },
        versioning: match v.versioning {
            Some(x) => Some(versioning_of(x)),
            None => None,
        },
        logging: match v.logging {
            Some(l) => Some(logging_of(l)),
            None => None,
        },
    }
}

impl From<model::BucketPublicAccessBlock> for BucketPublicAccessBlock {
    fn from(v: model::BucketPublicAccessBlock) -> (r: Self) {
        BucketPublicAccessBlock {
            block_public_acls: v.block_public_acls,
            block_public_policy: v.block_public_policy,
            ignore_public_acls: v.ignore_public_acls,
            restrict_public_buckets: v.restrict_public_buckets,
        }
    }
}

impl vstd::std_specs::convert::FromSpecImpl<model::BucketPublicAccessBlock> for BucketPublicAccessBlock {
    open spec fn obeys_from_spec() -> bool {
        true
    }

    open spec fn from_spec(v: model::BucketPublicAccessBlock) -> Self {
        public_access_block_of(v)
    }
}

impl From<model::BucketEncryption> for BucketEncryption {
    fn from(v: model::BucketEncryption) -> (r: Self) {
        BucketEncryption {
            sse_algorithm: v.sse_algorithm,
            kms_master_key_id: v.kms_master_key_id,
            bucket_key_enabled: v.bucket_key_enabled,
        }
    }
}

impl vstd::std_specs::convert::FromSpecImpl<model::BucketEncryption> for BucketEncryption {
    open spec fn obeys_from_spec() -> bool {
        true
    }

    open spec fn from_spec(v: model::BucketEncryption) -> Self {
        encryption_of(v)
    }
}

impl From<model::BucketVersioning> for BucketVersioning {
    fn from(v: model::BucketVersioning) -> (r: Self) {
        BucketVersioning { status: v.status }
    }
}

impl vstd::std_specs::convert::FromSpecImpl<model::BucketVersioning> for BucketVersioning {
    open spec fn obeys_from_spec() -> bool {
        true
    }

    open spec fn from_spec(v: model::BucketVersioning) -> Self {
        versioning_of(v)
    }
}

impl From<model::BucketLogging> for BucketLogging {
    fn from(v: model::BucketLogging) -> (r: Self) {
        BucketLogging { target_bucket: v.target_bucket, target_prefix: v.target_prefix }
    }
}

impl vstd::std_specs::convert::FromSpecImpl<model::BucketLogging> for BucketLogging {
    open spec fn obeys_from_spec() -> bool {
        true
    }

    open spec fn from_spec(v: model::BucketLogging) -> Self {
        logging_of(v)
    }
}

impl From<model::Bucket> for Bucket {
    fn from(v: model::Bucket) -> (r: Self) {
        Bucket {
            name: v.name,
            policy: v.policy,
            public_access_block: match v.public_access_block {
                Some(p) => Some(BucketPublicAccessBlock::from(p)),
                None => None,
            },
            encryption: match v.encryption {
                Some(e) => Some(BucketEncryption::from(e)),
                None => None,
            },
            versioning: match v.versioning {
                Some(x) => Some(BucketVersioning::from(x)),
                None => None,
            },
            logging: match v.logging {
                Some(l) => Some(BucketLogging::from(l)),
                None => None,
            },
        }
    }
}

impl vstd::std_specs::convert::FromSpecImpl<model::Bucket> for Bucket {
    open spec fn obeys_from_spec() -> bool {
        true
    }

    open spec fn from_spec(v: model::Bucket) -> Self {
        bucket_of(v)
    }
}

} // verus!
