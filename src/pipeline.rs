//! The generation pipeline: each record is converted to its renderer-side
//! form, rendered, and followed by a newline; the first failure stops the run.
use vstd::prelude::*;
use crate::model;
use crate::render::{RenderError, render_bucket, rendered};
use crate::terraform::{self, bucket_of};

verus! {

/// A record that converts, without loss, into the form the renderer reads.
pub trait IntoTerraform: Sized {
    type TerraformResource: TerraformGenerator;

    spec fn terraform_spec(self) -> Self::TerraformResource;

    fn into_terraform(self) -> (r: Self::TerraformResource)
        ensures
            r == self.terraform_spec(),
    ;
}

/// A renderer-side record that renders as HCL.
pub trait TerraformGenerator: Sized {
    /// The text of the record, or `None` where it cannot be rendered.
    spec fn hcl_spec(&self) -> Option<Seq<char>>;

    fn to_hcl(&self) -> (r: Result<String, RenderError>)
        ensures
            match self.hcl_spec() {
                Some(t) => r is Ok && r->Ok_0@ == t,
                None => r is Err,
            },
    ;
}

impl IntoTerraform for model::Bucket {
    type TerraformResource = terraform::Bucket;

    open spec fn terraform_spec(self) -> terraform::Bucket {
        bucket_of(self)
    }

    fn into_terraform(self) -> (r: terraform::Bucket) {
        terraform::Bucket::from(self)
    }
}

impl TerraformGenerator for terraform::Bucket {
    open spec fn hcl_spec(&self) -> Option<Seq<char>> {
        rendered(*self)
    }

    fn to_hcl(&self) -> (r: Result<String, RenderError>) {
        render_bucket(self)
    }
}

/// The text of a run over `records`: each record's text followed by a newline,
/// or `None` where some record cannot be rendered.
pub open spec fn generated<R: IntoTerraform>(records: Seq<R>) -> Option<Seq<char>>
    decreases records.len(),
{
    if records.len() == 0 {
        Some(Seq::empty())
    } else {
        match generated(records.drop_last()) {
            None => None,
            Some(before) => match records.last().terraform_spec().hcl_spec() {
                None => None,
                Some(t) => Some(before + t + "\n"@),
            },
        }
    }
}

/// Drives one kind of resource through the pipeline; `fetcher` yields its
/// records.
pub struct Generator<F> {
    pub fetcher: F,
}

impl<F> Generator<F> {
    pub fn new(fetcher: F) -> (r: Self)
        ensures
            r.fetcher == fetcher,
    {
        Generator { fetcher }
    }

    /// Converts and renders each record in order, each text followed by a
    /// newline. Fails on the first record that cannot be rendered.
    pub fn render<R: IntoTerraform>(&self, records: Vec<R>) -> (r: Result<String, RenderError>)
        ensures
            match generated(records@) {
                Some(t) => r is Ok && r->Ok_0@ == t,
                None => r is Err,
            },
    {
        render_all(records)
    }
}

/// Converts and renders each record in order, each text followed by a newline.
/// Fails on the first record that cannot be rendered.
pub fn render_all<R: IntoTerraform>(records: Vec<R>) -> (r: Result<String, RenderError>)
    ensures
        match generated(records@) {
            Some(t) => r is Ok && r->Ok_0@ == t,
            None => r is Err,
        },
{
    let ghost all = records@;
    let mut out = String::new();
    let mut rest = records;
    let mut i: usize = 0;
    let n = rest.len();
    while i < n
        invariant
            n == all.len(),
            all == records@,
            i <= n,
            rest@ == all.subrange(i as int, n as int),
            generated(all.subrange(0, i as int)) == Some(out@),
        decreases n - i,
    {
        let record = rest.remove(0);
        proof {
            assert(all.subrange(0, i as int + 1).drop_last() =~= all.subrange(0, i as int));
            assert(all.subrange(0, i as int + 1).last() == record);
        }
        let resource = record.into_terraform();
        match resource.to_hcl() {
            Err(e) => {
                proof {
                    lemma_generated_stays_none(all, i as int + 1);
                }
                return Err(e);
            },
            Ok(text) => {
                out.append(text.as_str());
                out.append("\n");
            },
        }
        assert(rest@ =~= all.subrange(i as int + 1, n as int));
        i = i + 1;
        assert(out@ =~= generated(all.subrange(0, i as int))->0);
    }
    assert(all.subrange(0, n as int) =~= all);
    Ok(out)
}

/// Once a prefix of the records cannot be rendered, no longer prefix can.
proof fn lemma_generated_stays_none<R: IntoTerraform>(all: Seq<R>, i: int)
    requires
        0 <= i <= all.len(),
        generated(all.subrange(0, i)) is None,
    ensures
        generated(all) is None,
    decreases all.len() - i,
{
    if i < all.len() {
        assert(all.subrange(0, i + 1).drop_last() =~= all.subrange(0, i));
        lemma_generated_stays_none(all, i + 1);
    } else {
        assert(all.subrange(0, i) =~= all);
    }
}

/// Generation is repeatable: the same records give the same text, or fail
/// alike, on every run.
pub proof fn lemma_generation_repeatable<R: IntoTerraform>(first: Seq<R>, second: Seq<R>)
    requires
        first == second,
    ensures
        generated(first) == generated(second),
{
}

} // verus!
