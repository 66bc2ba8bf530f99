use vstd::prelude::*;
use crate::error_definitions::{ErrorCause, FailureView, HierarchyLevel};
use crate::entries::{assoc_insert, key_index_from};
use crate::parser::{
    doc_from, doc_of, docs_from, finished, has_marker_line, lemma_root_field_advances, no_root_fields,
    protocol_of, protocols_from,
    spec_documentation, spec_load, spec_media_types, spec_parse_root, spec_root_field, spec_root_from,
    missing_root_title, spec_protocols, DocView, Protocol, RamlView, RootFields,
};
use crate::text::lower_of;
use crate::token_type_definitions::TokenTypeDef;
use crate::tokens::{yaml_scan, ScanView};
use crate::yaml::{
    spec_block_mapping_from, spec_block_sequence, spec_block_sequences_from, spec_flow_sequence_from,
    BlockView, EntryView,
};

verus! {

/// A text whose first line is not the version marker fails with
/// `MissingRamlVersion`, at no position, whatever follows.
pub proof fn lemma_missing_marker_fails(source: Seq<char>)
    requires
        !has_marker_line(source),
    ensures
        spec_load(source) == Err::<RamlView, FailureView>(
            FailureView { cause: ErrorCause::MissingRamlVersion, position: None },
        ),
{
}

/// The tokens from `i` on are a key `title`, a value marker and the scalar `t`.
pub open spec fn title_entry_at(s: ScanView, i: int, t: Seq<char>) -> bool {
    &&& 0 <= i
    &&& i + 3 < s.tokens.len()
    &&& s.tokens[i].kind == TokenTypeDef::Key
    &&& s.tokens[i + 1].kind == TokenTypeDef::Scalar
    &&& s.tokens[i + 1].value == "title"@
    &&& s.tokens[i + 2].kind == TokenTypeDef::Value
    &&& s.tokens[i + 3].kind == TokenTypeDef::Scalar
    &&& s.tokens[i + 3].value == t
}

/// A title read by the root loop is always the scalar after a `title` key.
proof fn lemma_root_title(s: ScanView, pos: int, b: RootFields)
    requires
        b.title matches Some(t) ==> exists|i: int| title_entry_at(s, i, t),
    ensures
        spec_root_from(s, pos, b) matches Ok((r, _)) ==> exists|i: int| title_entry_at(s, i, r.title),
    decreases s.tokens.len() - pos,
{
    if 0 <= pos < s.tokens.len() {
        let t = s.tokens[pos];
        if t.kind == TokenTypeDef::Key && 0 <= pos + 1 < s.tokens.len() {
            let k = s.tokens[pos + 1];
            if k.kind == TokenTypeDef::Scalar {
                lemma_root_field_advances(s, pos + 2, k, b);
                match spec_root_field(s, pos + 2, k, b) {
                    Err(f) => {},
                    Ok((b2, q)) => {
                        if k.value == "title"@ {
                            assert(title_entry_at(s, pos, b2.title->Some_0));
                        } else {
                            assert(b2.title == b.title);
                        }
                        lemma_root_title(s, q, b2);
                        assert(spec_root_from(s, pos, b) == spec_root_from(s, q, b2));
                    },
                }
            }
        } else if t.kind == TokenTypeDef::BlockEnd && b.title is Some {
            let r = finished(b);
            assert(spec_root_from(s, pos, b) == Ok::<(RamlView, int), FailureView>((r, pos + 1)));
            assert(r.title == b.title->Some_0);
        }
    }
}

/// A document that parses has as its title, exactly, the scalar that follows
/// a `title` key in its tokens; so a text with no `title` key never parses.
pub proof fn lemma_title_is_source_value(source: Seq<char>)
    ensures
        spec_load(source) matches Ok(r) ==> exists|i: int| title_entry_at(yaml_scan(source), i, r.title),
{
    lemma_root_title(yaml_scan(source), 2, no_root_fields());
}

/// A root mapping that holds only a title parses, and its title is the
/// title's scalar, exactly; every other field is absent.
pub proof fn lemma_title_only_document(s: ScanView, t: Seq<char>)
    requires
        s.tokens.len() >= 7,
        s.tokens[0].kind == TokenTypeDef::StreamStart,
        s.tokens[1].kind == TokenTypeDef::BlockMappingStart,
        title_entry_at(s, 2, t),
        s.tokens[6].kind == TokenTypeDef::BlockEnd,
    ensures
        spec_parse_root(s) == Ok::<RamlView, FailureView>(
            RamlView {
                title: t,
                version: None,
                description: None,
                base_uri: None,
                protocols: None,
                media_types: None,
                documentation: None,
                security_schemes: None,
            },
        ),
{
    let b2 = RootFields { title: Some(t), ..no_root_fields() };
    assert(spec_root_field(s, 4, s.tokens[3], no_root_fields()) == Ok::<(RootFields, int), FailureView>((b2, 6)));
    assert(spec_root_from(s, 6, b2) == Ok::<(RamlView, int), FailureView>((finished(b2), 7)));
}

/// When the document root closes before a title was read, the parse fails
/// with the missing title, at no position.
pub proof fn lemma_missing_title_fails(s: ScanView, pos: int, b: RootFields)
    requires
        0 <= pos < s.tokens.len(),
        s.tokens[pos].kind == TokenTypeDef::BlockEnd,
        b.title is None,
    ensures
        spec_root_from(s, pos, b) == Err::<(RamlView, int), FailureView>(
            FailureView {
                cause: ErrorCause::MissingField { field: "title"@, level: HierarchyLevel::DocumentRoot },
                position: None,
            },
        ),
{
}

/// Protocol names are read without regard to case: names with the same
/// lower-case forms, at the same places, give the same protocols or the same
/// failure.
pub proof fn lemma_protocols_ignore_case(a: Seq<EntryView>, b: Seq<EntryView>, i: int, acc: Seq<Protocol>)
    requires
        a.len() == b.len(),
        forall|j: int| 0 <= j < a.len() ==> lower_of(#[trigger] a[j].value) == lower_of(b[j].value),
        forall|j: int| 0 <= j < a.len() ==> #[trigger] a[j].position == b[j].position,
    ensures
        protocols_from(a, i, acc) == protocols_from(b, i, acc),
    decreases a.len() - i,
{
    if 0 <= i < a.len() {
        assert(lower_of(a[i].value) == lower_of(b[i].value));
        assert(a[i].position == b[i].position);
        match protocol_of(lower_of(a[i].value)) {
            Some(p) => lemma_protocols_ignore_case(a, b, i + 1, acc.push(p)),
            None => {},
        }
    }
}

/// A media type written as a bare scalar and one written as a sequence of one
/// scalar both give a list of that one media type.
pub proof fn lemma_media_type_shapes(s: ScanView, pos: int, t: ScanView, tpos: int)
    requires
        0 <= pos,
        pos + 1 < s.tokens.len(),
        s.tokens[pos].kind == TokenTypeDef::Value,
        s.tokens[pos + 1].kind == TokenTypeDef::Scalar,
        0 <= tpos,
        tpos + 3 < t.tokens.len(),
        t.tokens[tpos].kind == TokenTypeDef::Value,
        t.tokens[tpos + 1].kind == TokenTypeDef::FlowSequenceStart,
        t.tokens[tpos + 2].kind == TokenTypeDef::Scalar,
        t.tokens[tpos + 2].value == s.tokens[pos + 1].value,
        t.tokens[tpos + 3].kind == TokenTypeDef::FlowSequenceEnd,
    ensures
        spec_media_types(s, pos) == Ok::<(Seq<Seq<char>>, int), FailureView>((seq![s.tokens[pos + 1].value], pos + 2)),
        spec_media_types(t, tpos) == Ok::<(Seq<Seq<char>>, int), FailureView>((seq![s.tokens[pos + 1].value], tpos + 4)),
{
    let v = s.tokens[pos + 1].value;
    let e1 = seq![EntryView { value: v, position: s.tokens[pos + 1].position }];
    assert(e1.map_values(|e: EntryView| e.value) =~= seq![v]);
    let e2 = seq![EntryView { value: v, position: t.tokens[tpos + 2].position }];
    assert(Seq::<EntryView>::empty().push(e2[0]) =~= e2);
    assert(spec_flow_sequence_from(t, tpos + 3, e2) == Ok::<(Seq<EntryView>, int), FailureView>((e2, tpos + 4)));
    assert(spec_flow_sequence_from(t, tpos + 2, Seq::empty())
        == spec_flow_sequence_from(t, tpos + 3, e2));
    assert(e2.map_values(|e: EntryView| e.value) =~= seq![v]);
}

/// Whether a key is one the document root knows.
pub open spec fn is_root_key(k: Seq<char>) -> bool {
    k == "title"@ || k == "version"@ || k == "description"@ || k == "baseUri"@ || k == "protocols"@
        || k == "mediaType"@ || k == "documentation"@ || k == "securitySchemes"@
}

/// A key the document root does not know fails the parse where it stands,
/// with `UnexpectedKeyRoot` at the document root; it is never skipped.
pub proof fn lemma_unknown_root_key_fails(s: ScanView, pos: int, b: RootFields)
    requires
        0 <= pos,
        pos + 1 < s.tokens.len(),
        s.tokens[pos].kind == TokenTypeDef::Key,
        s.tokens[pos + 1].kind == TokenTypeDef::Scalar,
        !is_root_key(s.tokens[pos + 1].value),
    ensures
        spec_root_from(s, pos, b) == Err::<(RamlView, int), FailureView>(
            FailureView {
                cause: ErrorCause::UnexpectedKeyRoot {
                    field: s.tokens[pos + 1].value,
                    level: HierarchyLevel::DocumentRoot,
                },
                position: Some(s.tokens[pos + 1].position),
            },
        ),
{
    lemma_root_field_advances(s, pos + 2, s.tokens[pos + 1], b);
}

/// Parsing has no hidden state: the same text gives the same document, or
/// the same failure, every time.
pub proof fn lemma_parse_deterministic(a: Seq<char>, b: Seq<char>)
    requires
        a == b,
    ensures
        spec_load(a) == spec_load(b),
{
}

/// The tokens from `i` on are a key `k`, a value marker and the scalar `v`.
pub open spec fn field_entry_at(s: ScanView, i: int, k: Seq<char>, v: Seq<char>) -> bool {
    &&& 0 <= i
    &&& i + 3 < s.tokens.len()
    &&& s.tokens[i].kind == TokenTypeDef::Key
    &&& s.tokens[i + 1].kind == TokenTypeDef::Scalar
    &&& s.tokens[i + 1].value == k
    &&& s.tokens[i + 2].kind == TokenTypeDef::Value
    &&& s.tokens[i + 3].kind == TokenTypeDef::Scalar
    &&& s.tokens[i + 3].value == v
}

/// The eleven tokens from `i` on are one block of a documentation sequence:
/// an entry marker and a block mapping of `title: d.title` and
/// `content: d.content`, in either order.
pub open spec fn doc_block_at(s: ScanView, i: int, d: DocView) -> bool {
    &&& 0 <= i
    &&& i + 10 < s.tokens.len()
    &&& s.tokens[i].kind == TokenTypeDef::BlockEntry
    &&& s.tokens[i + 1].kind == TokenTypeDef::BlockMappingStart
    &&& {
        ||| field_entry_at(s, i + 2, "title"@, d.title) && field_entry_at(s, i + 6, "content"@, d.content)
        ||| field_entry_at(s, i + 2, "content"@, d.content) && field_entry_at(s, i + 6, "title"@, d.title)
    }
    &&& s.tokens[i + 10].kind == TokenTypeDef::BlockEnd
}

/// The pairs read from the block at `i`.
spec fn block_at(s: ScanView, i: int) -> BlockView {
    seq![
        (s.tokens[i + 3].value, EntryView { value: s.tokens[i + 5].value, position: s.tokens[i + 2].position }),
        (s.tokens[i + 7].value, EntryView { value: s.tokens[i + 9].value, position: s.tokens[i + 6].position }),
    ]
}

/// One well-formed documentation block is read as its two pairs, and
/// stands for its entry.
proof fn lemma_one_block(s: ScanView, i: int, d: DocView)
    requires
        doc_block_at(s, i, d),
    ensures
        spec_block_sequence(s, i + 1) == Ok::<(BlockView, int), FailureView>((block_at(s, i), i + 11)),
        doc_of(block_at(s, i)) == Ok::<DocView, FailureView>(d),
{
    reveal_strlit("title");
    reveal_strlit("content");
    assert("title"@ != "content"@) by {
        assert("title"@.len() != "content"@.len());
    }
    let k1 = s.tokens[i + 3].value;
    let k2 = s.tokens[i + 7].value;
    assert(k1 != k2);
    let e1 = EntryView { value: s.tokens[i + 5].value, position: s.tokens[i + 2].position };
    let e2 = EntryView { value: s.tokens[i + 9].value, position: s.tokens[i + 6].position };
    let one = seq![(k1, e1)];
    assert(assoc_insert(Seq::<(Seq<char>, EntryView)>::empty(), k1, e1) =~= one);
    assert(key_index_from(one, k2, 1) == 1);
    assert(key_index_from(one, k2, 0) == 1);
    assert(assoc_insert(one, k2, e2) =~= block_at(s, i));
    assert(spec_block_mapping_from(s, i + 10, block_at(s, i)) == Ok::<(BlockView, int), FailureView>((block_at(s, i), i + 11)));
    assert(spec_block_mapping_from(s, i + 6, one) == spec_block_mapping_from(s, i + 10, block_at(s, i)));
    assert(spec_block_mapping_from(s, i + 2, Seq::empty()) == spec_block_mapping_from(s, i + 6, one));
    let blk = block_at(s, i);
    assert(doc_from(blk, 2, Some(d.title), Some(d.content)) == Ok::<DocView, FailureView>(d));
    if k1 == "title"@ {
        assert(doc_from(blk, 1, Some(d.title), None) == doc_from(blk, 2, Some(d.title), Some(d.content)));
        assert(doc_from(blk, 0, None, None) == doc_from(blk, 1, Some(d.title), None));
    } else {
        assert(doc_from(blk, 1, None, Some(d.content)) == doc_from(blk, 2, Some(d.title), Some(d.content)));
        assert(doc_from(blk, 0, None, None) == doc_from(blk, 1, None, Some(d.content)));
    }
}

/// The pairs read from the blocks `k` to `n` that start at `base`.
spec fn blocks_at(s: ScanView, base: int, k: int, n: int) -> Seq<BlockView> {
    Seq::new((n - k) as nat, |j: int| block_at(s, base + 11 * (k + j)))
}

/// Well-formed documentation blocks from the `k`-th on are read in order.
proof fn lemma_blocks(s: ScanView, base: int, docs: Seq<DocView>, k: int, acc: Seq<BlockView>)
    requires
        0 <= k <= docs.len(),
        forall|j: int| 0 <= j < docs.len() ==> doc_block_at(s, base + 11 * j, #[trigger] docs[j]),
        0 <= base + 11 * docs.len() < s.tokens.len(),
        s.tokens[base + 11 * docs.len()].kind == TokenTypeDef::BlockEnd,
    ensures
        spec_block_sequences_from(s, base + 11 * k, acc) == Ok::<(Seq<BlockView>, int), FailureView>(
            (acc + blocks_at(s, base, k, docs.len() as int), base + 11 * docs.len() + 1),
        ),
    decreases docs.len() - k,
{
    let n = docs.len() as int;
    if k < n {
        assert(doc_block_at(s, base + 11 * k, docs[k]));
        lemma_one_block(s, base + 11 * k, docs[k]);
        let blk = block_at(s, base + 11 * k);
        assert(base + 11 * k + 11 == base + 11 * (k + 1));
        lemma_blocks(s, base, docs, k + 1, acc.push(blk));
        assert(acc.push(blk) + blocks_at(s, base, k + 1, n) =~= acc + blocks_at(s, base, k, n));
    } else {
        assert(acc + blocks_at(s, base, k, n) =~= acc);
    }
}

/// Blocks that each stand for an entry give those entries, in order.
proof fn lemma_docs(bs: Seq<BlockView>, docs: Seq<DocView>, i: int)
    requires
        0 <= i <= docs.len(),
        bs.len() == docs.len(),
        forall|j: int| 0 <= j < bs.len() ==> doc_of(#[trigger] bs[j]) == Ok::<DocView, FailureView>(docs[j]),
    ensures
        docs_from(bs, i, docs.subrange(0, i)) == Ok::<Seq<DocView>, FailureView>(docs),
    decreases docs.len() - i,
{
    if i < docs.len() {
        assert(doc_of(bs[i]) == Ok::<DocView, FailureView>(docs[i]));
        assert(docs.subrange(0, i).push(docs[i]) =~= docs.subrange(0, i + 1));
        lemma_docs(bs, docs, i + 1);
    } else {
        assert(docs.subrange(0, i) =~= docs);
    }
}

/// A documentation value written as a block sequence of `title` and
/// `content` mappings, each in either order, gives the entries in the order
/// written, each with the
/// title and content written.
pub proof fn lemma_documentation_round_trip(s: ScanView, pos: int, docs: Seq<DocView>)
    requires
        0 <= pos,
        pos + 2 + 11 * docs.len() < s.tokens.len(),
        s.tokens[pos].kind == TokenTypeDef::Value,
        s.tokens[pos + 1].kind == TokenTypeDef::BlockSequenceStart,
        forall|j: int| 0 <= j < docs.len() ==> doc_block_at(s, pos + 2 + 11 * j, #[trigger] docs[j]),
        s.tokens[pos + 2 + 11 * docs.len()].kind == TokenTypeDef::BlockEnd,
    ensures
        spec_documentation(s, pos) == Ok::<(Seq<DocView>, int), FailureView>((docs, pos + 3 + 11 * docs.len())),
{
    let n = docs.len() as int;
    lemma_blocks(s, pos + 2, docs, 0, Seq::empty());
    let bs = blocks_at(s, pos + 2, 0, n);
    assert(Seq::<BlockView>::empty() + bs =~= bs);
    assert forall|j: int| 0 <= j < bs.len() implies doc_of(#[trigger] bs[j]) == Ok::<DocView, FailureView>(docs[j]) by {
        assert(doc_block_at(s, pos + 2 + 11 * j, docs[j]));
        lemma_one_block(s, pos + 2 + 11 * j, docs[j]);
    }
    lemma_docs(bs, docs, 0);
    assert(docs.subrange(0, 0) =~= Seq::<DocView>::empty());
}

/// A text whose body is empty, a stream that ends right after it starts,
/// fails with the missing title, at no position.
pub proof fn lemma_empty_body_fails(s: ScanView)
    requires
        s.tokens.len() >= 2,
        s.tokens[0].kind == TokenTypeDef::StreamStart,
        s.tokens[1].kind == TokenTypeDef::StreamEnd,
    ensures
        spec_parse_root(s) == Err::<RamlView, FailureView>(missing_root_title()),
{
}

/// A document-root key whose value is one scalar.
pub open spec fn is_scalar_field_key(k: Seq<char>) -> bool {
    k == "title"@ || k == "version"@ || k == "description"@ || k == "baseUri"@
}

/// The tokens from `i` on are a key with a one-scalar value and that value.
pub open spec fn scalar_field_at(s: ScanView, i: int) -> bool {
    &&& 0 <= i
    &&& i + 3 < s.tokens.len()
    &&& s.tokens[i].kind == TokenTypeDef::Key
    &&& s.tokens[i + 1].kind == TokenTypeDef::Scalar
    &&& is_scalar_field_key(s.tokens[i + 1].value)
    &&& s.tokens[i + 2].kind == TokenTypeDef::Value
    &&& s.tokens[i + 3].kind == TokenTypeDef::Scalar
}

/// The stream opens a root mapping whose first `n` entries are scalar fields.
pub open spec fn scalar_fields_root(s: ScanView, n: int) -> bool {
    &&& 0 <= n
    &&& s.tokens.len() >= 2
    &&& s.tokens[0].kind == TokenTypeDef::StreamStart
    &&& s.tokens[1].kind == TokenTypeDef::BlockMappingStart
    &&& forall|j: int| 0 <= j < n ==> #[trigger] scalar_field_at(s, 2 + 4 * j)
}

/// The fields `b` with the scalar field `k` set to `v`.
pub open spec fn with_field(b: RootFields, k: Seq<char>, v: Seq<char>) -> RootFields {
    if k == "title"@ {
        RootFields { title: Some(v), ..b }
    } else if k == "version"@ {
        RootFields { version: Some(v), ..b }
    } else if k == "description"@ {
        RootFields { description: Some(v), ..b }
    } else {
        RootFields { base_uri: Some(v), ..b }
    }
}

/// The fields set by the first `n` scalar fields of the root, later ones
/// replacing earlier ones.
pub open spec fn fields_after(s: ScanView, n: int) -> RootFields
    decreases n,
{
    if n <= 0 {
        no_root_fields()
    } else {
        with_field(fields_after(s, n - 1), s.tokens[4 * n - 1].value, s.tokens[4 * n + 1].value)
    }
}

proof fn lemma_scalar_fields(s: ScanView, n: int, j: int)
    requires
        scalar_fields_root(s, n),
        0 <= j <= n,
    ensures
        spec_root_from(s, 2 + 4 * j, fields_after(s, j)) == spec_root_from(s, 2 + 4 * n, fields_after(s, n)),
    decreases n - j,
{
    if j < n {
        assert(scalar_field_at(s, 2 + 4 * j));
        let k = s.tokens[3 + 4 * j];
        let b = fields_after(s, j);
        let b2 = fields_after(s, j + 1);
        assert(b2 == with_field(b, k.value, s.tokens[5 + 4 * j].value));
        lemma_root_field_advances(s, 4 + 4 * j, k, b);
        assert(spec_root_field(s, 4 + 4 * j, k, b) == Ok::<(RootFields, int), FailureView>((b2, 6 + 4 * j)));
        lemma_scalar_fields(s, n, j + 1);
    }
}

/// A root whose `n` entries are all scalar fields parses exactly when a
/// title is among them; the document then holds the last value given to
/// each field, and without a title the parse fails with the missing title.
pub proof fn lemma_scalar_fields_root(s: ScanView, n: int)
    requires
        scalar_fields_root(s, n),
        2 + 4 * n < s.tokens.len(),
        s.tokens[2 + 4 * n].kind == TokenTypeDef::BlockEnd,
    ensures
        spec_parse_root(s) == match fields_after(s, n).title {
            None => Err::<RamlView, FailureView>(missing_root_title()),
            Some(_) => Ok::<RamlView, FailureView>(finished(fields_after(s, n))),
        },
{
    lemma_scalar_fields(s, n, 0);
}

/// One of the first `n` root entries is a `title` field whose scalar is `t`.
pub open spec fn title_among(s: ScanView, n: int, t: Seq<char>) -> bool {
    exists|j: int| 0 <= j < n && #[trigger] title_entry_at(s, 2 + 4 * j, t)
}

/// The title the scalar fields give is absent exactly when no field is the
/// title, and otherwise is, exactly, the scalar of a `title` field.
pub proof fn lemma_fields_after_title(s: ScanView, n: int)
    requires
        scalar_fields_root(s, n),
    ensures
        fields_after(s, n).title is None <==> forall|j: int| 0 <= j < n ==> #[trigger] s.tokens[3 + 4 * j].value != "title"@,
        fields_after(s, n).title is Some ==> title_among(s, n, fields_after(s, n).title->Some_0),
    decreases n,
{
    if n > 0 {
        assert(scalar_fields_root(s, n - 1));
        lemma_fields_after_title(s, n - 1);
        assert(scalar_field_at(s, 2 + 4 * (n - 1)));
        assert(4 * n - 1 == 3 + 4 * (n - 1));
        assert(4 * n + 1 == 5 + 4 * (n - 1));
        if s.tokens[3 + 4 * (n - 1)].value == "title"@ {
            let v = s.tokens[5 + 4 * (n - 1)].value;
            assert(fields_after(s, n).title == Some(v));
            let j = n - 1;
            assert(2 + 4 * j == 2 + 4 * (n - 1));
            assert(title_entry_at(s, 2 + 4 * j, v));
            assert(title_among(s, n, v));
        } else {
            assert(fields_after(s, n).title == fields_after(s, n - 1).title);
            if fields_after(s, n - 1).title is None {
                assert forall|j: int| 0 <= j < n implies #[trigger] s.tokens[3 + 4 * j].value != "title"@ by {
                    if j < n - 1 {
                        assert(s.tokens[3 + 4 * j].value != "title"@);
                    }
                }
            } else {
                let t = fields_after(s, n - 1).title->Some_0;
                assert(title_among(s, n - 1, t));
                let j = choose|j: int| 0 <= j < n - 1 && #[trigger] title_entry_at(s, 2 + 4 * j, t);
                assert(0 <= j < n && title_entry_at(s, 2 + 4 * j, t));
                assert(title_among(s, n, t));
            }
        }
    }
}

/// After scalar fields, a key the document root does not know fails the
/// parse where it stands, with `UnexpectedKeyRoot` at the document root.
pub proof fn lemma_unknown_key_after_scalar_fields(s: ScanView, n: int)
    requires
        scalar_fields_root(s, n),
        3 + 4 * n < s.tokens.len(),
        s.tokens[2 + 4 * n].kind == TokenTypeDef::Key,
        s.tokens[3 + 4 * n].kind == TokenTypeDef::Scalar,
        !is_root_key(s.tokens[3 + 4 * n].value),
    ensures
        spec_parse_root(s) == Err::<RamlView, FailureView>(
            FailureView {
                cause: ErrorCause::UnexpectedKeyRoot {
                    field: s.tokens[3 + 4 * n].value,
                    level: HierarchyLevel::DocumentRoot,
                },
                position: Some(s.tokens[3 + 4 * n].position),
            },
        ),
{
    lemma_scalar_fields(s, n, 0);
    lemma_unknown_root_key_fails(s, 2 + 4 * n, fields_after(s, n));
}

/// The index of the token that closes a flow sequence of `n` scalars whose
/// first scalar is at `q`.
pub open spec fn flow_end(q: int, n: int) -> int {
    if n == 0 {
        q
    } else {
        q + 2 * n - 1
    }
}

/// From `q` on stand `n` scalars separated by entry markers, then the end of
/// the flow sequence.
pub open spec fn flow_scalars_at(s: ScanView, q: int, n: int) -> bool {
    &&& 0 <= q
    &&& 0 <= n
    &&& flow_end(q, n) < s.tokens.len()
    &&& s.tokens[flow_end(q, n)].kind == TokenTypeDef::FlowSequenceEnd
    &&& forall|i: int| 0 <= i < n ==> (#[trigger] s.tokens[q + 2 * i]).kind == TokenTypeDef::Scalar
    &&& forall|i: int| 0 <= i < n - 1 ==> (#[trigger] s.tokens[q + 2 * i + 1]).kind == TokenTypeDef::FlowEntry
}

/// The entries of those scalars.
pub open spec fn flow_entries(s: ScanView, q: int, n: int) -> Seq<EntryView> {
    Seq::new(n as nat, |i: int| EntryView { value: s.tokens[q + 2 * i].value, position: s.tokens[q + 2 * i].position })
}

proof fn lemma_flow_scalars(s: ScanView, q: int, n: int, i: int)
    requires
        flow_scalars_at(s, q, n),
        0 <= i <= n,
        i < n || n == 0,
    ensures
        spec_flow_sequence_from(s, q + 2 * i, flow_entries(s, q, n).take(i)) == Ok::<(Seq<EntryView>, int), FailureView>(
            (flow_entries(s, q, n), flow_end(q, n) + 1),
        ),
    decreases n - i,
{
    let es = flow_entries(s, q, n);
    if n == 0 {
        assert(es.take(0) =~= es);
        assert(spec_flow_sequence_from(s, q, es.take(0)) == Ok::<(Seq<EntryView>, int), FailureView>((es.take(0), q + 1)));
    } else {
        let t = s.tokens[q + 2 * i];
        assert(t.kind == TokenTypeDef::Scalar);
        assert(es[i] == EntryView { value: t.value, position: t.position });
        assert(es.take(i).push(es[i]) =~= es.take(i + 1));
        assert(spec_flow_sequence_from(s, q + 2 * i, es.take(i))
            == spec_flow_sequence_from(s, q + 2 * i + 1, es.take(i + 1)));
        if i + 1 < n {
            assert(s.tokens[q + 2 * i + 1].kind == TokenTypeDef::FlowEntry);
            assert(spec_flow_sequence_from(s, q + 2 * i + 1, es.take(i + 1))
                == spec_flow_sequence_from(s, q + 2 * i + 2, es.take(i + 1)));
            lemma_flow_scalars(s, q, n, i + 1);
            assert(q + 2 * i + 2 == q + 2 * (i + 1));
        } else {
            assert(es.take(i + 1) =~= es);
            assert(flow_end(q, n) == q + 2 * i + 1);
            assert(spec_flow_sequence_from(s, q + 2 * i + 1, es.take(i + 1))
                == Ok::<(Seq<EntryView>, int), FailureView>((es.take(i + 1), q + 2 * i + 2)));
        }
    }
}

/// A flow sequence of any number of scalars is read as those scalars, in
/// order, each with its place.
pub proof fn lemma_flow_sequence_in_order(s: ScanView, q: int, n: int)
    requires
        flow_scalars_at(s, q, n),
    ensures
        spec_flow_sequence_from(s, q, Seq::empty()) == Ok::<(Seq<EntryView>, int), FailureView>(
            (flow_entries(s, q, n), flow_end(q, n) + 1),
        ),
{
    lemma_flow_scalars(s, q, n, 0);
    assert(flow_entries(s, q, n).take(0) =~= Seq::<EntryView>::empty());
}

/// Media types written as a flow sequence of any length are kept verbatim
/// and in order; an empty sequence gives none.
pub proof fn lemma_media_types_verbatim(s: ScanView, pos: int, n: int)
    requires
        0 <= pos,
        s.tokens.len() > pos + 1,
        s.tokens[pos].kind == TokenTypeDef::Value,
        s.tokens[pos + 1].kind == TokenTypeDef::FlowSequenceStart,
        flow_scalars_at(s, pos + 2, n),
    ensures
        spec_media_types(s, pos) == Ok::<(Seq<Seq<char>>, int), FailureView>(
            (Seq::new(n as nat, |i: int| s.tokens[pos + 2 + 2 * i].value), flow_end(pos + 2, n) + 1),
        ),
{
    lemma_flow_sequence_in_order(s, pos + 2, n);
    assert(flow_entries(s, pos + 2, n).map_values(|e: EntryView| e.value)
        =~= Seq::new(n as nat, |i: int| s.tokens[pos + 2 + 2 * i].value));
}

/// The protocol a scalar names, without regard to case.
pub open spec fn named_protocol(v: Seq<char>) -> Protocol {
    protocol_of(lower_of(v))->Some_0
}

proof fn lemma_protocols_all_known(es: Seq<EntryView>, i: int)
    requires
        0 <= i <= es.len(),
        forall|j: int| 0 <= j < es.len() ==> protocol_of(lower_of(#[trigger] es[j].value)) is Some,
    ensures
        protocols_from(es, i, es.take(i).map_values(|e: EntryView| named_protocol(e.value)))
            == Ok::<Seq<Protocol>, FailureView>(es.map_values(|e: EntryView| named_protocol(e.value))),
    decreases es.len() - i,
{
    if i < es.len() {
        assert(protocol_of(lower_of(es[i].value)) is Some);
        assert(es.take(i).map_values(|e: EntryView| named_protocol(e.value)).push(named_protocol(es[i].value))
            =~= es.take(i + 1).map_values(|e: EntryView| named_protocol(e.value)));
        lemma_protocols_all_known(es, i + 1);
    } else {
        assert(es.take(i) =~= es);
    }
}

/// A non-empty flow sequence of protocol names, each `http` or `https` in any
/// case, gives those protocols in the order written.
pub proof fn lemma_protocols_in_order(s: ScanView, pos: int, n: int)
    requires
        0 <= pos,
        s.tokens.len() > pos + 1,
        s.tokens[pos].kind == TokenTypeDef::Value,
        s.tokens[pos + 1].kind == TokenTypeDef::FlowSequenceStart,
        flow_scalars_at(s, pos + 2, n),
        n >= 1,
        forall|i: int| 0 <= i < n ==> protocol_of(lower_of(#[trigger] s.tokens[pos + 2 + 2 * i].value)) is Some,
    ensures
        spec_protocols(s, pos) == Ok::<(Seq<Protocol>, int), FailureView>(
            (
                Seq::new(n as nat, |i: int| named_protocol(s.tokens[pos + 2 + 2 * i].value)),
                flow_end(pos + 2, n) + 1,
            ),
        ),
{
    lemma_flow_sequence_in_order(s, pos + 2, n);
    let es = flow_entries(s, pos + 2, n);
    assert forall|j: int| 0 <= j < es.len() implies protocol_of(lower_of(#[trigger] es[j].value)) is Some by {
        assert(es[j].value == s.tokens[pos + 2 + 2 * j].value);
    }
    lemma_protocols_all_known(es, 0);
    assert(es.take(0).map_values(|e: EntryView| named_protocol(e.value)) =~= Seq::<Protocol>::empty());
    assert(es.map_values(|e: EntryView| named_protocol(e.value))
        =~= Seq::new(n as nat, |i: int| named_protocol(s.tokens[pos + 2 + 2 * i].value)));
}

} // verus!
