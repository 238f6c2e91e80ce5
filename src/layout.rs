//! Configuration blocks whose identifiers and expressions are already written as
//! HCL tokens, and their layout as text: two spaces of indentation per level, a
//! blank line around nested blocks and between top-level blocks.
use vstd::prelude::*;

verus! {

/// An attribute: `key = value`, both already HCL text.
#[derive(Debug)]
pub struct Attribute {
    pub key: String,
    pub value: String,
}

/// A block holding attributes only.
#[derive(Debug)]
pub struct LeafBlock {
    pub ident: String,
    pub attributes: Vec<Attribute>,
}

/// A block holding leaf blocks, then attributes.
#[derive(Debug)]
pub struct NestedBlock {
    pub ident: String,
    pub blocks: Vec<LeafBlock>,
    pub attributes: Vec<Attribute>,
}

/// A top-level block: identifier and labels, then attributes, then nested blocks.
#[derive(Debug)]
pub struct ResourceBlock {
    pub ident: String,
    pub labels: Vec<String>,
    pub attributes: Vec<Attribute>,
    pub blocks: Vec<NestedBlock>,
}

#[verifier::ext_equal]
pub struct AttributeView {
    pub key: Seq<char>,
    pub value: Seq<char>,
}

#[verifier::ext_equal]
pub struct LeafView {
    pub ident: Seq<char>,
    pub attributes: Seq<AttributeView>,
}

#[verifier::ext_equal]
pub struct NestedView {
    pub ident: Seq<char>,
    pub blocks: Seq<LeafView>,
    pub attributes: Seq<AttributeView>,
}

#[verifier::ext_equal]
pub struct ResourceView {
    pub ident: Seq<char>,
    pub labels: Seq<Seq<char>>,
    pub attributes: Seq<AttributeView>,
    pub blocks: Seq<NestedView>,
}

impl View for Attribute {
    type V = AttributeView;

    open spec fn view(&self) -> AttributeView {
        AttributeView { key: self.key@, value: self.value@ }
    }
}

pub open spec fn attributes_view(v: Seq<Attribute>) -> Seq<AttributeView> {
    v.map_values(|a: Attribute| a@)
}

impl View for LeafBlock {
    type V = LeafView;

    open spec fn view(&self) -> LeafView {
        LeafView { ident: self.ident@, attributes: attributes_view(self.attributes@) }
    }
}

impl View for NestedBlock {
    type V = NestedView;

    open spec fn view(&self) -> NestedView {
        NestedView {
            ident: self.ident@,
            blocks: self.blocks@.map_values(|b: LeafBlock| b@),
            attributes: attributes_view(self.attributes@),
        }
    }
}

impl View for ResourceBlock {
    type V = ResourceView;

    open spec fn view(&self) -> ResourceView {
        ResourceView {
            ident: self.ident@,
            labels: self.labels@.map_values(|l: String| l@),
            attributes: attributes_view(self.attributes@),
            blocks: self.blocks@.map_values(|b: NestedBlock| b@),
        }
    }
}

pub open spec fn indent(depth: nat) -> Seq<char>
    decreases depth,
{
    if depth == 0 {
        Seq::empty()
    } else {
        indent((depth - 1) as nat) + "  "@
    }
}

pub open spec fn attribute_text(depth: nat, a: AttributeView) -> Seq<char> {
    indent(depth) + a.key + " = "@ + a.value + "\n"@
}

pub open spec fn attributes_text(depth: nat, s: Seq<AttributeView>) -> Seq<char>
    decreases s.len(),
{
    if s.len() == 0 {
        Seq::empty()
    } else {
        attributes_text(depth, s.drop_last()) + attribute_text(depth, s.last())
    }
}

/// A block: header, ` {`, the body, and the closing brace on its own line. A
/// non-empty body starts on a new line.
pub open spec fn block_text(depth: nat, header: Seq<char>, body: Seq<char>) -> Seq<char> {
    indent(depth) + header + " {"@ + (if body.len() == 0 {
        Seq::empty()
    } else {
        "\n"@ + body
    }) + indent(depth) + "}\n"@
}

pub open spec fn leaf_text(depth: nat, b: LeafView) -> Seq<char> {
    block_text(depth, b.ident, attributes_text(depth + 1, b.attributes))
}

/// Parts separated by a blank line.
pub open spec fn spaced(parts: Seq<Seq<char>>) -> Seq<char>
    decreases parts.len(),
{
    if parts.len() == 0 {
        Seq::empty()
    } else if parts.len() == 1 {
        parts[0]
    } else {
        spaced(parts.drop_last()) + "\n"@ + parts.last()
    }
}

/// Two parts of a body, with a blank line between them where both are there.
pub open spec fn spaced_pair(first: Seq<char>, second: Seq<char>) -> Seq<char> {
    if first.len() != 0 && second.len() != 0 {
        first + "\n"@ + second
    } else {
        first + second
    }
}

pub open spec fn nested_text(depth: nat, b: NestedView) -> Seq<char> {
    block_text(
        depth,
        b.ident,
        spaced_pair(
            spaced(b.blocks.map_values(|l: LeafView| leaf_text(depth + 1, l))),
            attributes_text(depth + 1, b.attributes),
        ),
    )
}

pub open spec fn labels_text(s: Seq<Seq<char>>) -> Seq<char>
    decreases s.len(),
{
    if s.len() == 0 {
        Seq::empty()
    } else {
        labels_text(s.drop_last()) + " "@ + s.last()
    }
}

pub open spec fn resource_text(b: ResourceView) -> Seq<char> {
    block_text(
        0,
        b.ident + labels_text(b.labels),
        spaced_pair(
            attributes_text(1, b.attributes),
            spaced(b.blocks.map_values(|n: NestedView| nested_text(1, n))),
        ),
    )
}

/// The text of a body of top-level blocks.
pub open spec fn body_text(blocks: Seq<ResourceView>) -> Seq<char> {
    spaced(blocks.map_values(|b: ResourceView| resource_text(b)))
}

fn push_indent(out: &mut String, depth: usize)
    ensures
        final(out)@ == old(out)@ + indent(depth as nat),
{
    let mut i: usize = 0;
    while i < depth
        invariant
            i <= depth,
            out@ == old(out)@ + indent(i as nat),
        decreases depth - i,
    {
        out.append("  ");
        i = i + 1;
        assert(out@ =~= old(out)@ + indent(i as nat));
    }
}

fn push_attributes(out: &mut String, depth: usize, attributes: &Vec<Attribute>)
    ensures
        final(out)@ == old(out)@ + attributes_text(depth as nat, attributes_view(attributes@)),
{
    let ghost start = out@;
    let mut i: usize = 0;
    while i < attributes.len()
        invariant
            i <= attributes.len(),
            out@ == start + attributes_text(
                depth as nat,
                attributes_view(attributes@.subrange(0, i as int)),
            ),
        decreases attributes.len() - i,
    {
        let a = &attributes[i];
        push_indent(out, depth);
        out.append(a.key.as_str());
        out.append(" = ");
        out.append(a.value.as_str());
        out.append("\n");
        proof {
            let s = attributes_view(attributes@.subrange(0, i as int + 1));
            assert(s.drop_last() =~= attributes_view(attributes@.subrange(0, i as int)));
            assert(s.last() == a@);
        }
        i = i + 1;
        assert(out@ =~= start + attributes_text(
            depth as nat,
            attributes_view(attributes@.subrange(0, i as int)),
        ));
    }
    assert(attributes@.subrange(0, attributes.len() as int) =~= attributes@);
}

proof fn lemma_spaced_push(parts: Seq<Seq<char>>, x: Seq<char>)
    ensures
        spaced(parts.push(x)) == (if parts.len() == 0 {
            x
        } else {
            spaced(parts) + "\n"@ + x
        }),
{
    assert(parts.push(x).drop_last() =~= parts);
}

fn push_block(out: &mut String, depth: usize, header: &str, body: &str)
    ensures
        final(out)@ == old(out)@ + block_text(depth as nat, header@, body@),
{
    push_indent(out, depth);
    out.append(header);
    out.append(" {");
    if !body.is_empty() {
        out.append("\n");
        out.append(body);
    }
    push_indent(out, depth);
    out.append("}\n");
    assert(out@ =~= old(out)@ + block_text(depth as nat, header@, body@));
}

fn spaced_pair_string(first: String, second: &str) -> (r: String)
    ensures
        r@ == spaced_pair(first@, second@),
{
    let mut r = first;
    if !r.as_str().is_empty() && !second.is_empty() {
        r.append("\n");
    }
    r.append(second);
    r
}

fn leaf_string(depth: usize, b: &LeafBlock) -> (r: String)
    requires
        depth < 100,
    ensures
        r@ == leaf_text(depth as nat, b@),
{
    let mut body = String::new();
    push_attributes(&mut body, depth + 1, &b.attributes);
    let mut r = String::new();
    push_block(&mut r, depth, b.ident.as_str(), body.as_str());
    r
}

fn leaves_string(depth: usize, blocks: &Vec<LeafBlock>) -> (r: String)
    requires
        depth < 100,
    ensures
        r@ == spaced(blocks@.map_values(|b: LeafBlock| b@).map_values(|l: LeafView| leaf_text(depth as nat, l))),
{
    let ghost f = |l: LeafView| leaf_text(depth as nat, l);
    let ghost parts = blocks@.map_values(|b: LeafBlock| b@).map_values(f);
    let mut r = String::new();
    let mut i: usize = 0;
    while i < blocks.len()
        invariant
            i <= blocks.len(),
            parts == blocks@.map_values(|b: LeafBlock| b@).map_values(f),
            f == (|l: LeafView| leaf_text(depth as nat, l)),
            depth < 100,
            r@ == spaced(parts.subrange(0, i as int)),
        decreases blocks.len() - i,
    {
        let text = leaf_string(depth, &blocks[i]);
        if i > 0 {
            r.append("\n");
        }
        r.append(text.as_str());
        proof {
            lemma_spaced_push(parts.subrange(0, i as int), text@);
            assert(parts.subrange(0, i as int).push(text@) =~= parts.subrange(0, i as int + 1));
        }
        i = i + 1;
    }
    assert(parts.subrange(0, blocks.len() as int) =~= parts);
    r
}

fn nested_string(depth: usize, b: &NestedBlock) -> (r: String)
    requires
        depth < 50,
    ensures
        r@ == nested_text(depth as nat, b@),
{
    let blocks = leaves_string(depth + 1, &b.blocks);
    let mut attributes = String::new();
    push_attributes(&mut attributes, depth + 1, &b.attributes);
    let body = spaced_pair_string(blocks, attributes.as_str());
    let mut r = String::new();
    push_block(&mut r, depth, b.ident.as_str(), body.as_str());
    assert(b@.blocks.map_values(|l: LeafView| leaf_text(depth as nat + 1, l)) =~= b.blocks@.map_values(|b: LeafBlock| b@).map_values(|l: LeafView| leaf_text((depth + 1) as nat, l)));
    r
}

fn header_string(ident: &str, labels: &Vec<String>) -> (r: String)
    ensures
        r@ == ident@ + labels_text(labels@.map_values(|l: String| l@)),
{
    let mut r = String::from_str(ident);
    let mut i: usize = 0;
    while i < labels.len()
        invariant
            i <= labels.len(),
            r@ == ident@ + labels_text(labels@.subrange(0, i as int).map_values(|l: String| l@)),
        decreases labels.len() - i,
    {
        r.append(" ");
        r.append(labels[i].as_str());
        proof {
            let s = labels@.subrange(0, i as int + 1).map_values(|l: String| l@);
            assert(s.drop_last() =~= labels@.subrange(0, i as int).map_values(|l: String| l@));
        }
        i = i + 1;
        assert(r@ =~= ident@ + labels_text(labels@.subrange(0, i as int).map_values(|l: String| l@)));
    }
    assert(labels@.subrange(0, labels.len() as int) =~= labels@);
    r
}

fn nesteds_string(blocks: &Vec<NestedBlock>) -> (r: String)
    ensures
        r@ == spaced(blocks@.map_values(|b: NestedBlock| b@).map_values(|n: NestedView| nested_text(1, n))),
{
    let ghost f = |n: NestedView| nested_text(1, n);
    let ghost parts = blocks@.map_values(|b: NestedBlock| b@).map_values(f);
    let mut r = String::new();
    let mut i: usize = 0;
    while i < blocks.len()
        invariant
            i <= blocks.len(),
            parts == blocks@.map_values(|b: NestedBlock| b@).map_values(f),
            f == (|n: NestedView| nested_text(1, n)),
            r@ == spaced(parts.subrange(0, i as int)),
        decreases blocks.len() - i,
    {
        let text = nested_string(1, &blocks[i]);
        if i > 0 {
            r.append("\n");
        }
        r.append(text.as_str());
        proof {
            lemma_spaced_push(parts.subrange(0, i as int), text@);
            assert(parts.subrange(0, i as int).push(text@) =~= parts.subrange(0, i as int + 1));
        }
        i = i + 1;
    }
    assert(parts.subrange(0, blocks.len() as int) =~= parts);
    r
}

/// The text of one top-level block.
pub fn resource_string(b: &ResourceBlock) -> (r: String)
    ensures
        r@ == resource_text(b@),
{
    let header = header_string(b.ident.as_str(), &b.labels);
    let mut attributes = String::new();
    push_attributes(&mut attributes, 1, &b.attributes);
    let blocks = nesteds_string(&b.blocks);
    let body = spaced_pair_string(attributes, blocks.as_str());
    let mut r = String::new();
    push_block(&mut r, 0, header.as_str(), body.as_str());
    assert(b@.blocks.map_values(|n: NestedView| nested_text(1, n)) =~= b.blocks@.map_values(|b: NestedBlock| b@).map_values(|n: NestedView| nested_text(1, n)));
    r
}

/// Lays out top-level blocks as HCL text, one blank line between blocks.
pub fn format_body(blocks: &Vec<ResourceBlock>) -> (r: String)
    ensures
        r@ == body_text(blocks@.map_values(|b: ResourceBlock| b@)),
{
    let ghost parts = blocks@.map_values(|b: ResourceBlock| b@).map_values(|b: ResourceView| resource_text(b));
    let mut r = String::new();
    let mut i: usize = 0;
    while i < blocks.len()
        invariant
            i <= blocks.len(),
            parts == blocks@.map_values(|b: ResourceBlock| b@).map_values(|b: ResourceView| resource_text(b)),
            r@ == spaced(parts.subrange(0, i as int)),
        decreases blocks.len() - i,
    {
        let text = resource_string(&blocks[i]);
        if i > 0 {
            r.append("\n");
        }
        r.append(text.as_str());
        proof {
            lemma_spaced_push(parts.subrange(0, i as int), text@);
            assert(parts.subrange(0, i as int).push(text@) =~= parts.subrange(0, i as int + 1));
        }
        i = i + 1;
    }
    assert(parts.subrange(0, blocks.len() as int) =~= parts);
    r
}

} // verus!
