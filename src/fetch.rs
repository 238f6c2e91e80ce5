//! The decisions of a fetch: which listed buckets are enriched, how a
//! public-access answer is read, and how the answers of one bucket combine.
use vstd::prelude::*;
use crate::model::{
    Bucket, BucketBuilder, BucketEncryption, BucketLogging, BucketPublicAccessBlock,
    BucketVersioning,
};

verus! {

/// A flag of a public-access answer: the restrictive value `true` unless the
/// answer states the flag.
pub open spec fn flag_or_restrictive(flag: Option<bool>) -> bool {
    match flag {
        Some(b) => b,
        None => true,
    }
}

/// Reads the four flags of a public-access answer that arrived; a flag that the
/// answer leaves unset takes the restrictive value.
pub fn public_access_block_from_flags(
    block_public_acls: Option<bool>,
    block_public_policy: Option<bool>,
    ignore_public_acls: Option<bool>,
    restrict_public_buckets: Option<bool>,
) -> (r: BucketPublicAccessBlock)
    ensures
        r.block_public_acls == flag_or_restrictive(block_public_acls),
        r.block_public_policy == flag_or_restrictive(block_public_policy),
        r.ignore_public_acls == flag_or_restrictive(ignore_public_acls),
        r.restrict_public_buckets == flag_or_restrictive(restrict_public_buckets),
{
    BucketPublicAccessBlock {
        block_public_acls: block_public_acls.unwrap_or(true),
        block_public_policy: block_public_policy.unwrap_or(true),
        ignore_public_acls: ignore_public_acls.unwrap_or(true),
        restrict_public_buckets: restrict_public_buckets.unwrap_or(true),
    }
}

/// The names of a listing, in order, leaving out entries without a name.
pub open spec fn named(entries: Seq<Option<String>>) -> Seq<String>
    decreases entries.len(),
{
    if entries.len() == 0 {
        Seq::empty()
    } else {
        let rest = named(entries.drop_last());
        match entries.last() {
            Some(n) => rest.push(n),
            None => rest,
        }
    }
}

/// The buckets to enrich: the named entries of a listing, in listing order.
pub fn bucket_names(entries: Vec<Option<String>>) -> (r: Vec<String>)
    ensures
        r@ == named(entries@),
{
    let mut r: Vec<String> = Vec::new();
    let mut i: usize = 0;
    while i < entries.len()
        invariant
            i <= entries.len(),
            r@ == named(entries@.subrange(0, i as int)),
        decreases entries.len() - i,
    {
        assert(entries@.subrange(0, i as int + 1).drop_last() =~= entries@.subrange(0, i as int));
        match &entries[i] {
            Some(n) => r.push(n.clone()),
            None => {},
        }
        i = i + 1;
    }
    assert(entries@.subrange(0, entries.len() as int) =~= entries@);
    r
}

/// The record of one bucket given the answer of each sub-request; `None` stands
/// for a sub-request that failed or found nothing.
pub open spec fn enriched(
    name: String,
    policy: Option<String>,
    public_access_block: Option<BucketPublicAccessBlock>,
    encryption: Option<BucketEncryption>,
    versioning: Option<BucketVersioning>,
    logging: Option<BucketLogging>,
) -> Bucket {
    Bucket { name, policy, public_access_block, encryption, versioning, logging }
}

/// Combines the answers of the sub-requests of one bucket into its record. Each
/// answer fills its own attribute and no other.
pub fn enrich_bucket(
    name: String,
    policy: Option<String>,
    public_access_block: Option<BucketPublicAccessBlock>,
    encryption: Option<BucketEncryption>,
    versioning: Option<BucketVersioning>,
    logging: Option<BucketLogging>,
) -> (r: Bucket)
    ensures
        r == enriched(name, policy, public_access_block, encryption, versioning, logging),
{
    let mut builder = BucketBuilder::new(name);
    if let Some(p) = policy {
        builder = builder.with_policy(p);
    }
    if let Some(b) = public_access_block {
        builder = builder.with_public_access_block(b);
    }
    if let Some(e) = encryption {
        builder = builder.with_encryption(e);
    }
    if let Some(v) = versioning {
        builder = builder.with_versioning(v);
    }
    if let Some(l) = logging {
        builder = builder.with_logging(l);
    }
    builder.build()
}

/// Sub-requests are independent: an attribute whose sub-request failed is
/// absent, and each attribute of the record depends on its own answer alone,
/// whatever the other answers are.
pub proof fn lemma_answers_independent(
    name: String,
    first: (Option<String>, Option<BucketPublicAccessBlock>, Option<BucketEncryption>, Option<BucketVersioning>, Option<BucketLogging>),
    second: (Option<String>, Option<BucketPublicAccessBlock>, Option<BucketEncryption>, Option<BucketVersioning>, Option<BucketLogging>),
)
    ensures
        ({
            let a = enriched(name, first.0, first.1, first.2, first.3, first.4);
            let b = enriched(name, second.0, second.1, second.2, second.3, second.4);
            &&& a.name == name
            &&& (first.0 is None ==> a.policy is None)
            &&& (first.1 is None ==> a.public_access_block is None)
            &&& (first.2 is None ==> a.encryption is None)
            &&& (first.3 is None ==> a.versioning is None)
            &&& (first.4 is None ==> a.logging is None)
            &&& (first.0 == second.0 ==> a.policy == b.policy)
            &&& (first.1 == second.1 ==> a.public_access_block == b.public_access_block)
            &&& (first.2 == second.2 ==> a.encryption == b.encryption)
            &&& (first.3 == second.3 ==> a.versioning == b.versioning)
            &&& (first.4 == second.4 ==> a.logging == b.logging)
        }),
{
}

} // verus!
