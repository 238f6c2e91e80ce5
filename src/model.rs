//! Records of a bucket as read from the storage account.
use vstd::prelude::*;

verus! {

/// The public-access settings of a bucket: four safety flags.
#[derive(Debug, Clone, Copy, PartialEq, Eq)]
pub struct BucketPublicAccessBlock {
    pub block_public_acls: bool,
    pub block_public_policy: bool,
    pub ignore_public_acls: bool,
    pub restrict_public_buckets: bool,
}

/// Default server-side encryption of a bucket.
#[derive(Debug)]
pub struct BucketEncryption {
    pub sse_algorithm: String,
    pub kms_master_key_id: Option<String>,
    pub bucket_key_enabled: bool,
}

/// The default-encryption part of one server-side encryption rule.
#[derive(Debug)]
pub struct DefaultEncryption {
    pub sse_algorithm: String,
    pub kms_master_key_id: Option<String>,
}

/// One server-side encryption rule as the storage service reports it.
#[derive(Debug)]
pub struct ServerSideEncryptionRule {
    pub default_encryption: Option<DefaultEncryption>,
    pub bucket_key_enabled: Option<bool>,
}

/// The encryption that a list of rules configures: the default encryption of the
/// first rule, if there is a first rule and it has one.
pub open spec fn encryption_of_rules(rules: Seq<ServerSideEncryptionRule>) -> Option<BucketEncryption> {
    if rules.len() == 0 {
        None
    } else {
        match rules[0].default_encryption {
            None => None,
            Some(d) => Some(
                BucketEncryption {
                    sse_algorithm: d.sse_algorithm,
                    kms_master_key_id: d.kms_master_key_id,
                    bucket_key_enabled: match rules[0].bucket_key_enabled {
                        Some(b) => b,
                        None => false,
                    },
                },
            ),
        }
    }
}

impl BucketEncryption {
    pub fn from_aws_rules(rules: &[ServerSideEncryptionRule]) -> (r: Option<Self>)
        ensures
            r == encryption_of_rules(rules@),
    {
        if rules.len() == 0 {
            return None;
        }
        let rule = &rules[0];
        match &rule.default_encryption {
            None => None,
            Some(d) => {
                let kms_master_key_id = match &d.kms_master_key_id {
                    Some(id) => Some(id.clone()),
                    None => None,
                };
                let bucket_key_enabled = match rule.bucket_key_enabled {
                    Some(b) => b,
                    None => false,
                };
                Some(
                    BucketEncryption {
                        sse_algorithm: d.sse_algorithm.clone(),
                        kms_master_key_id,
                        bucket_key_enabled,
                    },
                )
            },
        }
    }
}

/// Versioning state of a bucket.
#[derive(Debug)]
pub struct BucketVersioning {
    pub status: String,
}

/// Access-logging target of a bucket.
#[derive(Debug)]
pub struct BucketLogging {
    pub target_bucket: String,
    pub target_prefix: String,
}

/// A bucket with every attribute that could be fetched; an absent attribute
/// was either not configured or could not be read.
#[derive(Debug)]
pub struct Bucket {
    pub name: String,
    pub policy: Option<String>,
    pub public_access_block: Option<BucketPublicAccessBlock>,
    pub encryption: Option<BucketEncryption>,
    pub versioning: Option<BucketVersioning>,
    pub logging: Option<BucketLogging>,
}

/// Accumulates the attributes of one bucket, then yields the finished record.
pub struct BucketBuilder {
    name: String,
    policy: Option<String>,
    public_access_block: Option<BucketPublicAccessBlock>,
    encryption: Option<BucketEncryption>,
    versioning: Option<BucketVersioning>,
    logging: Option<BucketLogging>,
}

impl BucketBuilder {
    /// The record that `build` would return now.
    pub closed spec fn record(self) -> Bucket {
        Bucket {
            name: self.name,
            policy: self.policy,
            public_access_block: self.public_access_block,
            encryption: self.encryption,
            versioning: self.versioning,
            logging: self.logging,
        }
    }

    pub fn new(name: String) -> (r: Self)
        ensures
            r.record() == (Bucket {
                name,
                policy: None,
                public_access_block: None,
                encryption: None,
                versioning: None,
                logging: None,
            }),
    {
        BucketBuilder {
            name,
            policy: None,
            public_access_block: None,
            encryption: None,
            versioning: None,
            logging: None,
        }
    }

    pub fn with_policy(self, policy: String) -> (r: Self)
        ensures
            r.record() == (Bucket { policy: Some(policy), ..self.record() }),
    {
        BucketBuilder { policy: Some(policy), ..self }
    }

    pub fn with_public_access_block(self, public_access_block: BucketPublicAccessBlock) -> (r: Self)
        ensures
            r.record() == (Bucket {
                public_access_block: Some(public_access_block),
                ..self.record()
            }),
    {
        BucketBuilder { public_access_block: Some(public_access_block), ..self }
    }

    pub fn with_encryption(self, encryption: BucketEncryption) -> (r: Self)
        ensures
            r.record() == (Bucket { encryption: Some(encryption), ..self.record() }),
    {
        BucketBuilder { encryption: Some(encryption), ..self }
    }

    pub fn with_versioning(self, versioning: BucketVersioning) -> (r: Self)
        ensures
            r.record() == (Bucket { versioning: Some(versioning), ..self.record() }),
    {
        BucketBuilder { versioning: Some(versioning), ..self }
    }

    pub fn with_logging(self, logging: BucketLogging) -> (r: Self)
        ensures
            r.record() == (Bucket { logging: Some(logging), ..self.record() }),
    {
        BucketBuilder { logging: Some(logging), ..self }
    }

    pub fn build(self) -> (r: Bucket)
        ensures
            r == self.record(),
    {
        Bucket {
            name: self.name,
            policy: self.policy,
            public_access_block: self.public_access_block,
            encryption: self.encryption,
            versioning: self.versioning,
            logging: self.logging,
        }
    }
}

} // verus!
