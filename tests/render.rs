use hcl::expr::{Traversal, Variable};
use hcl::{Block, Body};
use tfgen::layout::{format_body, Attribute, LeafBlock, NestedBlock, ResourceBlock};
use tfgen::model;
use tfgen::pipeline::{render_all, Generator, TerraformGenerator, IntoTerraform};
use tfgen::render::{policy_block, render_bucket, RenderError};
use tfgen::terraform::{normalize_resource_name, Bucket};
use tfgen::tokens::{bool_literal, Reference};

fn bucket(name: &str) -> model::Bucket {
    model::BucketBuilder::new(name.to_string()).build()
}

fn full(name: &str) -> model::Bucket {
    model::BucketBuilder::new(name.to_string())
        .with_public_access_block(model::BucketPublicAccessBlock {
            block_public_acls: true,
            block_public_policy: false,
            ignore_public_acls: true,
            restrict_public_buckets: false,
        })
        .with_encryption(model::BucketEncryption {
            sse_algorithm: "aws:kms".to_string(),
            kms_master_key_id: Some("arn:key/1".to_string()),
            bucket_key_enabled: true,
        })
        .with_versioning(model::BucketVersioning { status: "Enabled".to_string() })
        .with_logging(model::BucketLogging {
            target_bucket: "logs".to_string(),
            target_prefix: "x/".to_string(),
        })
        .build()
}

/// The same configuration built with hcl-rs's own builders and formatter.
fn hcl_oracle(b: &model::Bucket) -> String {
    let label = normalize_resource_name(&b.name);
    let mut body = Body::builder().add_block(
        Block::builder("resource")
            .add_label("aws_s3_bucket")
            .add_label(label.clone())
            .add_attribute(("bucket", b.name.clone()))
            .build(),
    );
    let r = Traversal::builder(Variable::new("aws_s3_bucket").unwrap())
        .attr(label.clone())
        .attr("bucket")
        .build();
    if let Some(p) = &b.public_access_block {
        body = body.add_block(
            Block::builder("resource")
                .add_label("aws_s3_bucket_public_access_block")
                .add_label(label.clone())
                .add_attribute(("bucket", r.clone()))
                .add_attribute(("block_public_acls", p.block_public_acls))
                .add_attribute(("block_public_policy", p.block_public_policy))
                .add_attribute(("ignore_public_acls", p.ignore_public_acls))
                .add_attribute(("restrict_public_buckets", p.restrict_public_buckets))
                .build(),
        );
    }
    if let Some(e) = &b.encryption {
        let mut d = Block::builder("apply_server_side_encryption_by_default")
            .add_attribute(("sse_algorithm", e.sse_algorithm.clone()));
        if let Some(k) = &e.kms_master_key_id {
            d = d.add_attribute(("kms_master_key_id", k.clone()));
        }
        let mut rule = Block::builder("rule").add_block(d.build());
        if e.bucket_key_enabled {
            rule = rule.add_attribute(("bucket_key_enabled", true));
        }
        body = body.add_block(
            Block::builder("resource")
                .add_label("aws_s3_bucket_server_side_encryption_configuration")
                .add_label(label.clone())
                .add_attribute(("bucket", r.clone()))
                .add_block(rule.build())
                .build(),
        );
    }
    if let Some(v) = &b.versioning {
        body = body.add_block(
            Block::builder("resource")
                .add_label("aws_s3_bucket_versioning")
                .add_label(label.clone())
                .add_attribute(("bucket", r.clone()))
                .add_block(
                    Block::builder("versioning_configuration")
                        .add_attribute(("status", v.status.clone()))
                        .build(),
                )
                .build(),
        );
    }
    if let Some(l) = &b.logging {
        body = body.add_block(
            Block::builder("resource")
                .add_label("aws_s3_bucket_logging")
                .add_label(label.clone())
                .add_attribute(("bucket", r.clone()))
                .add_attribute(("target_bucket", l.target_bucket.clone()))
                .add_attribute(("target_prefix", l.target_prefix.clone()))
                .build(),
        );
    }
    hcl::format::to_string(&body.build()).unwrap()
}

fn render(b: model::Bucket) -> Result<String, RenderError> {
    render_bucket(&Bucket::from(b))
}

#[test]
fn normalizes_separators() {
    assert_eq!(normalize_resource_name("my.bucket-1"), "my_bucket_1");
    assert_eq!(normalize_resource_name("a b/c"), "a_b_c");
    assert_eq!(normalize_resource_name(""), "");
    assert_eq!(normalize_resource_name("plain_name"), "plain_name");
}

#[test]
fn normalizing_twice_changes_nothing() {
    for name in ["my.bucket-1", "x/y z", "__", "a-.-b"] {
        let once = normalize_resource_name(name);
        assert_eq!(normalize_resource_name(&once), once);
    }
}

#[test]
fn name_only_is_one_block() {
    let text = render(bucket("my.bucket-1")).unwrap();
    assert_eq!(text, "resource \"aws_s3_bucket\" \"my_bucket_1\" {\n  bucket = \"my.bucket-1\"\n}\n");
    assert_eq!(text.matches("resource \"").count(), 1);
}

#[test]
fn name_only_matches_hcl_formatter() {
    let b = bucket("my.bucket-1");
    let expected = hcl_oracle(&b);
    assert_eq!(render(b).unwrap(), expected);
}

#[test]
fn every_attribute_matches_hcl_formatter() {
    let b = full("data.lake");
    let expected = hcl_oracle(&b);
    assert_eq!(render(full("data.lake")).unwrap(), expected);
}

#[test]
fn every_attribute_exact_text() {
    let text = render(full("d")).unwrap();
    let expected = "resource \"aws_s3_bucket\" \"d\" {\n  bucket = \"d\"\n}\n\n\
resource \"aws_s3_bucket_public_access_block\" \"d\" {\n  bucket = aws_s3_bucket.d.bucket\n  block_public_acls = true\n  block_public_policy = false\n  ignore_public_acls = true\n  restrict_public_buckets = false\n}\n\n\
resource \"aws_s3_bucket_server_side_encryption_configuration\" \"d\" {\n  bucket = aws_s3_bucket.d.bucket\n\n  rule {\n    apply_server_side_encryption_by_default {\n      sse_algorithm = \"aws:kms\"\n      kms_master_key_id = \"arn:key/1\"\n    }\n\n    bucket_key_enabled = true\n  }\n}\n\n\
resource \"aws_s3_bucket_versioning\" \"d\" {\n  bucket = aws_s3_bucket.d.bucket\n\n  versioning_configuration {\n    status = \"Enabled\"\n  }\n}\n\n\
resource \"aws_s3_bucket_logging\" \"d\" {\n  bucket = aws_s3_bucket.d.bucket\n  target_bucket = \"logs\"\n  target_prefix = \"x/\"\n}\n";
    assert_eq!(text, expected);
}

#[test]
fn encryption_without_key_matches_hcl_formatter() {
    let b = model::BucketBuilder::new("e".to_string())
        .with_encryption(model::BucketEncryption {
            sse_algorithm: "AES256".to_string(),
            kms_master_key_id: None,
            bucket_key_enabled: false,
        })
        .build();
    let expected = hcl_oracle(&b);
    let text = render(b).unwrap();
    assert_eq!(text, expected);
    assert!(!text.contains("bucket_key_enabled"));
    assert!(!text.contains("kms_master_key_id"));
}

#[test]
fn quoting_escapes_like_hcl() {
    let b = bucket("we\"ird${x}");
    let expected = hcl_oracle(&b);
    let text = render(bucket("we\"ird${x}")).unwrap();
    assert_eq!(text, expected);
    assert!(text.contains("bucket = \"we\\\"ird$${x}\""));
}

#[test]
fn reference_sanitizes_identifiers() {
    let r = Reference {
        kind: "aws_s3_bucket".to_string(),
        label: "1abc".to_string(),
        attribute: "bucket".to_string(),
    };
    let expected = format!("aws_s3_bucket.{}.bucket", hcl::Identifier::sanitized("1abc"));
    assert_eq!(r.to_expression(), expected);
    assert_ne!(r.to_expression(), "aws_s3_bucket.1abc.bucket");
}

#[test]
fn reference_of_plain_label() {
    let r = Reference {
        kind: "aws_s3_bucket".to_string(),
        label: "my_bucket".to_string(),
        attribute: "bucket".to_string(),
    };
    assert_eq!(r.to_expression(), "aws_s3_bucket.my_bucket.bucket");
}

#[test]
fn bool_literals() {
    assert_eq!(bool_literal(true), "true");
    assert_eq!(bool_literal(false), "false");
}

#[test]
fn valid_policy_is_pretty_printed() {
    let b = model::BucketBuilder::new("p".to_string())
        .with_policy("{\"Version\":\"2012-10-17\",\"Statement\":[]}".to_string())
        .build();
    let text = render(b).unwrap();
    let expected = "resource \"aws_s3_bucket\" \"p\" {\n  bucket = \"p\"\n}\n\n\
resource \"aws_s3_bucket_policy\" \"p\" {\n  bucket = aws_s3_bucket.p.bucket\n  policy = <<POLICY\n{\n  \"Statement\": [],\n  \"Version\": \"2012-10-17\"\n}\nPOLICY\n}\n";
    assert_eq!(text, expected);
}

#[test]
fn invalid_policy_fails() {
    let b = model::BucketBuilder::new("p".to_string())
        .with_policy("{\"Version\":\"2012-10-17\",\"Statement\":[],}".to_string())
        .build();
    assert_eq!(render(b), Err(RenderError::InvalidPolicy));
    assert_eq!(RenderError::InvalidPolicy.message(), "the bucket policy is not valid JSON");
}

#[test]
fn policy_block_text() {
    let text = policy_block("lbl", "{}");
    assert_eq!(
        text,
        "\nresource \"aws_s3_bucket_policy\" \"lbl\" {\n  bucket = aws_s3_bucket.lbl.bucket\n  policy = <<POLICY\n{}\nPOLICY\n}\n"
    );
}

#[test]
fn layout_of_blocks() {
    let attr = |k: &str, v: &str| Attribute { key: k.to_string(), value: v.to_string() };
    let blocks = vec![
        ResourceBlock {
            ident: "a".to_string(),
            labels: vec!["\"x\"".to_string()],
            attributes: vec![attr("k", "1")],
            blocks: vec![NestedBlock {
                ident: "n".to_string(),
                blocks: vec![
                    LeafBlock { ident: "l".to_string(), attributes: vec![attr("p", "2")] },
                    LeafBlock { ident: "m".to_string(), attributes: vec![] },
                ],
                attributes: vec![attr("q", "3")],
            }],
        },
        ResourceBlock { ident: "b".to_string(), labels: vec![], attributes: vec![attr("z", "4")], blocks: vec![] },
    ];
    let expected = "a \"x\" {\n  k = 1\n\n  n {\n    l {\n      p = 2\n    }\n\n    m {    }\n\n    q = 3\n  }\n}\n\nb {\n  z = 4\n}\n";
    assert_eq!(format_body(&blocks), expected);
    assert_eq!(format_body(&vec![]), "");
}

fn mock_backend() -> Vec<model::Bucket> {
    let names = tfgen::fetch::bucket_names(vec![
        Some("a".to_string()),
        Some("b".to_string()),
        Some("c".to_string()),
    ]);
    let mut out = Vec::new();
    for n in names {
        let pab = if n == "b" {
            Some(tfgen::fetch::public_access_block_from_flags(None, None, None, None))
        } else {
            None
        };
        let ver = if n == "c" {
            Some(model::BucketVersioning { status: "Enabled".to_string() })
        } else {
            None
        };
        out.push(tfgen::fetch::enrich_bucket(n, None, pab, None, ver, None));
    }
    out
}

#[test]
fn three_buckets_end_to_end() {
    let text = render_all(mock_backend()).unwrap();
    assert_eq!(text.matches("resource \"aws_s3_bucket\" ").count(), 3);
    for n in ["a", "b", "c"] {
        assert!(text.contains(&format!("resource \"aws_s3_bucket\" \"{}\" {{", n)));
    }
    assert_eq!(text.matches("resource \"aws_s3_bucket_public_access_block\" \"b\"").count(), 1);
    assert_eq!(text.matches("resource \"aws_s3_bucket_public_access_block\"").count(), 1);
    assert_eq!(text.matches("resource \"aws_s3_bucket_versioning\" \"c\"").count(), 1);
    assert_eq!(text.matches("resource \"aws_s3_bucket_versioning\"").count(), 1);
    assert_eq!(text.matches("resource \"").count(), 5);
    let a_part = &text[..text.find("resource \"aws_s3_bucket\" \"b\"").unwrap()];
    assert_eq!(a_part, "resource \"aws_s3_bucket\" \"a\" {\n  bucket = \"a\"\n}\n\n");
}

#[test]
fn running_twice_gives_identical_text() {
    let first = render_all(mock_backend()).unwrap();
    let second = render_all(mock_backend()).unwrap();
    assert_eq!(first, second);
}

#[test]
fn pipeline_stops_at_invalid_policy() {
    let good = bucket("ok");
    let bad = model::BucketBuilder::new("bad".to_string()).with_policy("not json".to_string()).build();
    assert_eq!(render_all(vec![good, bad]), Err(RenderError::InvalidPolicy));
    assert_eq!(render_all(Vec::<model::Bucket>::new()), Ok(String::new()));
}

#[test]
fn generator_renders_through_traits() {
    let g = Generator::new(7u8);
    assert_eq!(g.fetcher, 7u8);
    let text = g.render(vec![bucket("x")]).unwrap();
    assert_eq!(text, "resource \"aws_s3_bucket\" \"x\" {\n  bucket = \"x\"\n}\n\n");
    let direct = bucket("x").into_terraform().to_hcl().unwrap();
    assert_eq!(format!("{}\n", direct), text);
}
