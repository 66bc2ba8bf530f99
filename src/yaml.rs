use vstd::prelude::*;
use crate::entries::{assoc_insert, insert_entry, pairs_view};
use crate::error_definitions::{ErrorCause, ErrorDef, Failure, FailureView};
use crate::token_type_definitions::TokenTypeDef;
use crate::tokens::{scan, yaml_scan, Position, ScanView, ScannedTokens, Token, TokenView};

verus! {

/// A scalar read from a sequence, with where it starts.
pub struct FlowSequenceEntry {
    pub value: String,
    pub position: Position,
}

/// The value of a block mapping's key, with where the key starts.
pub struct BlockSequenceEntry {
    pub value: String,
    pub position: Position,
}

/// A key with its scalar value.
pub struct KeyValue {
    pub key: String,
    pub value: String,
}

/// The mathematical value of a scalar together with its place.
pub struct EntryView {
    pub value: Seq<char>,
    pub position: Position,
}

impl View for FlowSequenceEntry {
    type V = EntryView;

    open spec fn view(&self) -> EntryView {
        EntryView { value: self.value@, position: self.position }
    }
}

impl View for BlockSequenceEntry {
    type V = EntryView;

    open spec fn view(&self) -> EntryView {
        EntryView { value: self.value@, position: self.position }
    }
}

/// The keys of one block mapping with their entries, in the order the keys
/// first occur; no key occurs twice.
pub type BlockSequenceEntries = Vec<(String, BlockSequenceEntry)>;

/// The view of a block mapping.
pub type BlockView = Seq<(Seq<char>, EntryView)>;

/// The views of sequence entries.
pub open spec fn flow_view(v: Seq<FlowSequenceEntry>) -> Seq<EntryView> {
    v.map_values(|e: FlowSequenceEntry| e@)
}

/// The views of block mappings.
pub open spec fn blocks_view(v: Seq<BlockSequenceEntries>) -> Seq<BlockView> {
    v.map_values(|b: BlockSequenceEntries| pairs_view(b@))
}

/// An executable result seen through `f`, and its failure through its view.
pub open spec fn result_view<T, V>(r: Result<T, Failure>, f: spec_fn(T) -> V) -> Result<V, FailureView> {
    match r {
        Ok(v) => Ok(f(v)),
        Err(e) => Err(e@),
    }
}

/// `r`, ending at `end`, is what the grammar step `s` gives.
pub open spec fn step_outcome<V>(r: Result<V, FailureView>, end: int, s: Result<(V, int), FailureView>) -> bool {
    match s {
        Ok((v, p)) => r == Ok::<V, FailureView>(v) && end == p,
        Err(f) => r == Err::<V, FailureView>(f),
    }
}

/// The failure when the grammar asks for a token past the end of the stream:
/// the scanner's own error if it stopped on one.
pub open spec fn exhausted(s: ScanView) -> FailureView {
    FailureView {
        cause: ErrorCause::InvalidDocument {
            message: match s.error {
                Some(m) => m,
                None => "the token stream ended early"@,
            },
        },
        position: None,
    }
}

/// Token `t` came where a token of kind `expected` was due.
pub open spec fn unexpected(expected: TokenTypeDef, t: TokenView) -> FailureView {
    FailureView {
        cause: ErrorCause::UnexpectedEntry { expected, found: t.kind },
        position: Some(t.position),
    }
}

/// Token `t` came where a token of kind `a` or `b` was due.
pub open spec fn unexpected_multi(a: TokenTypeDef, b: TokenTypeDef, t: TokenView) -> FailureView {
    FailureView {
        cause: ErrorCause::UnexpectedEntryMulti { expected: seq![a, b], found: t.kind },
        position: Some(t.position),
    }
}

/// The token at `pos`, and the position after it.
pub open spec fn spec_next(s: ScanView, pos: int) -> Result<(TokenView, int), FailureView> {
    if 0 <= pos < s.tokens.len() {
        Ok((s.tokens[pos], pos + 1))
    } else {
        Err(exhausted(s))
    }
}

/// Reads one token, which must be of kind `k`.
pub open spec fn spec_expect(s: ScanView, pos: int, k: TokenTypeDef) -> Result<((), int), FailureView> {
    match spec_next(s, pos) {
        Err(f) => Err(f),
        Ok((t, p)) => if t.kind == k {
            Ok(((), p))
        } else {
            Err(unexpected(k, t))
        },
    }
}

/// Reads one scalar.
pub open spec fn spec_scalar_value(s: ScanView, pos: int) -> Result<(Seq<char>, int), FailureView> {
    match spec_next(s, pos) {
        Err(f) => Err(f),
        Ok((t, p)) => if t.kind == TokenTypeDef::Scalar {
            Ok((t.value, p))
        } else {
            Err(unexpected(TokenTypeDef::Scalar, t))
        },
    }
}

/// Reads a value marker and then one scalar.
pub open spec fn spec_single_value(s: ScanView, pos: int) -> Result<(Seq<char>, int), FailureView> {
    match spec_expect(s, pos, TokenTypeDef::Value) {
        Err(f) => Err(f),
        Ok((_, p)) => spec_scalar_value(s, p),
    }
}

/// Reads the rest of a flow sequence of scalars, after `acc` was read.
pub open spec fn spec_flow_sequence_from(s: ScanView, pos: int, acc: Seq<EntryView>) -> Result<(Seq<EntryView>, int), FailureView>
    decreases s.tokens.len() - pos,
{
    if 0 <= pos < s.tokens.len() {
        let t = s.tokens[pos];
        if t.kind == TokenTypeDef::Scalar {
            spec_flow_sequence_from(s, pos + 1, acc.push(EntryView { value: t.value, position: t.position }))
        } else if t.kind == TokenTypeDef::FlowEntry {
            spec_flow_sequence_from(s, pos + 1, acc)
        } else if t.kind == TokenTypeDef::FlowSequenceEnd {
            Ok((acc, pos + 1))
        } else {
            Err(unexpected_multi(TokenTypeDef::FlowEntry, TokenTypeDef::FlowSequenceEnd, t))
        }
    } else {
        Err(exhausted(s))
    }
}

/// Reads the scalars of a flow sequence up to its end.
pub open spec fn spec_flow_sequence(s: ScanView, pos: int) -> Result<(Seq<EntryView>, int), FailureView> {
    spec_flow_sequence_from(s, pos, Seq::empty())
}

/// Reads a value marker, then a flow sequence of scalars.
pub open spec fn spec_multiple_values(s: ScanView, pos: int) -> Result<(Seq<EntryView>, int), FailureView> {
    match spec_expect(s, pos, TokenTypeDef::Value) {
        Err(f) => Err(f),
        Ok((_, p)) => match spec_expect(s, p, TokenTypeDef::FlowSequenceStart) {
            Err(f) => Err(f),
            Ok((_, q)) => spec_flow_sequence(s, q),
        },
    }
}

/// Reads a value marker, then one scalar, taken as a sequence of one, or a
/// flow sequence of scalars.
pub open spec fn spec_single_or_multiple_values(s: ScanView, pos: int) -> Result<(Seq<EntryView>, int), FailureView> {
    match spec_expect(s, pos, TokenTypeDef::Value) {
        Err(f) => Err(f),
        Ok((_, p)) => match spec_next(s, p) {
            Err(f) => Err(f),
            Ok((t, q)) => if t.kind == TokenTypeDef::Scalar {
                Ok((seq![EntryView { value: t.value, position: t.position }], q))
            } else if t.kind == TokenTypeDef::FlowSequenceStart {
                spec_flow_sequence(s, q)
            } else {
                Err(unexpected_multi(TokenTypeDef::Scalar, TokenTypeDef::FlowSequenceStart, t))
            },
        },
    }
}

/// Reads a scalar key, a value marker and a scalar value.
pub open spec fn spec_key_value(s: ScanView, pos: int) -> Result<((Seq<char>, Seq<char>), int), FailureView> {
    match spec_scalar_value(s, pos) {
        Err(f) => Err(f),
        Ok((k, p)) => match spec_expect(s, p, TokenTypeDef::Value) {
            Err(f) => Err(f),
            Ok((_, q)) => match spec_scalar_value(s, q) {
                Err(f) => Err(f),
                Ok((v, r)) => Ok(((k, v), r)),
            },
        },
    }
}

/// Reads the rest of a block mapping of scalar pairs, after `acc` was read.
pub open spec fn spec_block_mapping_from(s: ScanView, pos: int, acc: BlockView) -> Result<(BlockView, int), FailureView>
    decreases s.tokens.len() - pos,
{
    if 0 <= pos < s.tokens.len() {
        let t = s.tokens[pos];
        if t.kind == TokenTypeDef::Key {
            match spec_key_value(s, pos + 1) {
                Err(f) => Err(f),
                Ok((kv, q)) => spec_block_mapping_from(
                    s,
                    q,
                    assoc_insert(acc, kv.0, EntryView { value: kv.1, position: t.position }),
                ),
            }
        } else if t.kind == TokenTypeDef::BlockEnd {
            Ok((acc, pos + 1))
        } else {
            Err(unexpected_multi(TokenTypeDef::Key, TokenTypeDef::BlockEnd, t))
        }
    } else {
        Err(exhausted(s))
    }
}

/// Reads one block mapping of scalar pairs.
pub open spec fn spec_block_sequence(s: ScanView, pos: int) -> Result<(BlockView, int), FailureView> {
    match spec_expect(s, pos, TokenTypeDef::BlockMappingStart) {
        Err(f) => Err(f),
        Ok((_, p)) => spec_block_mapping_from(s, p, Seq::empty()),
    }
}

/// Reading the rest of a block mapping consumes at least one token.
pub proof fn lemma_block_mapping_advances(s: ScanView, pos: int, acc: BlockView)
    ensures
        spec_block_mapping_from(s, pos, acc) matches Ok((_, q)) ==> pos < q <= s.tokens.len(),
    decreases s.tokens.len() - pos,
{
    if 0 <= pos < s.tokens.len() && s.tokens[pos].kind == TokenTypeDef::Key {
        let t = s.tokens[pos];
        match spec_key_value(s, pos + 1) {
            Err(f) => {},
            Ok((kv, q)) => {
                lemma_block_mapping_advances(
                    s,
                    q,
                    assoc_insert(acc, kv.0, EntryView { value: kv.1, position: t.position }),
                );
            },
        }
    }
}

/// Reading a block mapping consumes at least one token.
pub proof fn lemma_block_sequence_advances(s: ScanView, pos: int)
    ensures
        spec_block_sequence(s, pos) matches Ok((_, q)) ==> pos < q <= s.tokens.len(),
{
    lemma_block_mapping_advances(s, pos + 1, Seq::empty());
}

/// Reads the rest of a block sequence of block mappings, after `acc` was read.
pub open spec fn spec_block_sequences_from(s: ScanView, pos: int, acc: Seq<BlockView>) -> Result<(Seq<BlockView>, int), FailureView>
    decreases s.tokens.len() - pos,
{
    if 0 <= pos < s.tokens.len() {
        let t = s.tokens[pos];
        if t.kind == TokenTypeDef::BlockEntry {
            proof {
                lemma_block_sequence_advances(s, pos + 1);
            }
            match spec_block_sequence(s, pos + 1) {
                Err(f) => Err(f),
                Ok((b, q)) => spec_block_sequences_from(s, q, acc.push(b)),
            }
        } else if t.kind == TokenTypeDef::BlockEnd {
            Ok((acc, pos + 1))
        } else {
            Err(unexpected_multi(TokenTypeDef::BlockEntry, TokenTypeDef::BlockEnd, t))
        }
    } else {
        Err(exhausted(s))
    }
}

/// Reads a value marker, then a block sequence of block mappings.
pub open spec fn spec_multiple_sets_of_values(s: ScanView, pos: int) -> Result<(Seq<BlockView>, int), FailureView> {
    match spec_expect(s, pos, TokenTypeDef::Value) {
        Err(f) => Err(f),
        Ok((_, p)) => match spec_expect(s, p, TokenTypeDef::BlockSequenceStart) {
            Err(f) => Err(f),
            Ok((_, q)) => spec_block_sequences_from(s, q, Seq::empty()),
        },
    }
}

/// Reading the rest of a flow sequence consumes at least one token.
pub proof fn lemma_flow_sequence_advances(s: ScanView, pos: int, acc: Seq<EntryView>)
    ensures
        spec_flow_sequence_from(s, pos, acc) matches Ok((_, q)) ==> pos < q <= s.tokens.len(),
    decreases s.tokens.len() - pos,
{
    if 0 <= pos < s.tokens.len() {
        let t = s.tokens[pos];
        if t.kind == TokenTypeDef::Scalar {
            lemma_flow_sequence_advances(s, pos + 1, acc.push(EntryView { value: t.value, position: t.position }));
        } else if t.kind == TokenTypeDef::FlowEntry {
            lemma_flow_sequence_advances(s, pos + 1, acc);
        }
    }
}

pub proof fn lemma_block_sequences_advances(s: ScanView, pos: int, acc: Seq<BlockView>)
    ensures
        spec_block_sequences_from(s, pos, acc) matches Ok((_, q)) ==> pos < q <= s.tokens.len(),
    decreases s.tokens.len() - pos,
{
    if 0 <= pos < s.tokens.len() && s.tokens[pos].kind == TokenTypeDef::BlockEntry {
        lemma_block_sequence_advances(s, pos + 1);
        match spec_block_sequence(s, pos + 1) {
            Err(f) => {},
            Ok((b, q)) => lemma_block_sequences_advances(s, q, acc.push(b)),
        }
    }
}

/// Each reader of a value consumes at least one token when it succeeds.
pub proof fn lemma_values_advance(s: ScanView, pos: int)
    ensures
        spec_single_value(s, pos) matches Ok((_, q)) ==> pos < q <= s.tokens.len(),
        spec_multiple_values(s, pos) matches Ok((_, q)) ==> pos < q <= s.tokens.len(),
        spec_single_or_multiple_values(s, pos) matches Ok((_, q)) ==> pos < q <= s.tokens.len(),
        spec_multiple_sets_of_values(s, pos) matches Ok((_, q)) ==> pos < q <= s.tokens.len(),
{
    lemma_flow_sequence_advances(s, pos + 2, Seq::empty());
    lemma_block_sequences_advances(s, pos + 2, Seq::empty());
}

/// A forward-only reader over the tokens of a text.
pub struct ForwardCursor {
    scanned: ScannedTokens,
    pos: usize,
}

impl ForwardCursor {
    /// The tokens read over.
    pub closed spec fn stream(&self) -> ScanView {
        self.scanned@
    }

    /// The position of the next token.
    pub closed spec fn pos(&self) -> int {
        self.pos as int
    }

    pub closed spec fn wf(&self) -> bool {
        self.pos <= self.scanned.tokens.len()
    }

    /// A cursor at the first token of `source`.
    pub fn new(source: &str) -> (r: ForwardCursor)
        ensures
            r.wf(),
            r.stream() == yaml_scan(source@),
            r.pos() == 0,
    {
        ForwardCursor { scanned: scan(source), pos: 0 }
    }

    /// The kind of the next token, without reading it; none past the end.
    pub fn peek_kind(&self) -> (r: Option<TokenTypeDef>)
        requires
            self.wf(),
        ensures
            r == (if self.pos() < self.stream().tokens.len() {
                Some(self.stream().tokens[self.pos()].kind)
            } else {
                None::<TokenTypeDef>
            }),
    {
        if self.pos < self.scanned.tokens.len() {
            Some(self.scanned.tokens[self.pos].kind)
        } else {
            None
        }
    }

    /// Reads the next token.
    pub fn next_token(&mut self) -> (r: Result<Token, Failure>)
        requires
            old(self).wf(),
        ensures
            final(self).wf(),
            final(self).stream() == old(self).stream(),
            step_outcome(
                result_view(r, |t: Token| t@),
                final(self).pos(),
                spec_next(old(self).stream(), old(self).pos()),
            ),
            final(self).pos() == if old(self).pos() < old(self).stream().tokens.len() {
                old(self).pos() + 1
            } else {
                old(self).pos()
            },
    {
        if self.pos < self.scanned.tokens.len() {
            let t = &self.scanned.tokens[self.pos];
            let token = Token { kind: t.kind, value: t.value.clone(), position: t.position };
            self.pos = self.pos + 1;
            Ok(token)
        } else {
            let message = match &self.scanned.error {
                Some(e) => e.clone(),
                None => String::from_str("the token stream ended early"),
            };
            Err(Failure { cause: ErrorDef::InvalidDocument { message }, position: None })
        }
    }

    /// Reads the next token, which must be of kind `expected_token_type`.
    pub fn expect(&mut self, expected_token_type: TokenTypeDef) -> (r: Result<(), Failure>)
        requires
            old(self).wf(),
        ensures
            final(self).wf(),
            final(self).stream() == old(self).stream(),
            step_outcome(
                result_view(r, |u: ()| u),
                final(self).pos(),
                spec_expect(old(self).stream(), old(self).pos(), expected_token_type),
            ),
            final(self).pos() == if old(self).pos() < old(self).stream().tokens.len() {
                old(self).pos() + 1
            } else {
                old(self).pos()
            },
    {
        let token = match self.next_token() {
            Ok(t) => t,
            Err(e) => return Err(e),
        };
        if token.kind == expected_token_type {
            Ok(())
        } else {
            Err(unexpected_entry(expected_token_type, &token))
        }
    }
}

/// The failure for token `t` where `expected` was due.
pub fn unexpected_entry(expected: TokenTypeDef, t: &Token) -> (r: Failure)
    ensures
        r@ == unexpected(expected, t@),
{
    Failure {
        cause: ErrorDef::UnexpectedEntry { expected, found: t.kind },
        position: Some(t.position),
    }
}

/// The failure for token `t` where `a` or `b` was due.
pub fn unexpected_entry_multi(a: TokenTypeDef, b: TokenTypeDef, t: &Token) -> (r: Failure)
    ensures
        r@ == unexpected_multi(a, b, t@),
{
    let expected = vec![a, b];
    assert(expected@ == seq![a, b]);
    Failure {
        cause: ErrorDef::UnexpectedEntryMulti { expected, found: t.kind },
        position: Some(t.position),
    }
}

/// Reads one scalar.
pub fn get_scalar_value(cursor: &mut ForwardCursor) -> (r: Result<String, Failure>)
    requires
        old(cursor).wf(),
    ensures
        final(cursor).wf(),
        final(cursor).stream() == old(cursor).stream(),
        step_outcome(
            result_view(r, |v: String| v@),
            final(cursor).pos(),
            spec_scalar_value(old(cursor).stream(), old(cursor).pos()),
        ),
{
    let token = match cursor.next_token() {
        Ok(t) => t,
        Err(e) => return Err(e),
    };
    match token.kind {
        TokenTypeDef::Scalar => Ok(token.value),
        _ => Err(unexpected_entry(TokenTypeDef::Scalar, &token)),
    }
}

/// Reads the scalars of a flow sequence up to its end; the opening token is
/// already read.
pub fn get_flow_sequence(cursor: &mut ForwardCursor) -> (r: Result<Vec<FlowSequenceEntry>, Failure>)
    requires
        old(cursor).wf(),
    ensures
        final(cursor).wf(),
        final(cursor).stream() == old(cursor).stream(),
        step_outcome(
            result_view(r, |v: Vec<FlowSequenceEntry>| flow_view(v@)),
            final(cursor).pos(),
            spec_flow_sequence(old(cursor).stream(), old(cursor).pos()),
        ),
{
    let ghost s = cursor.stream();
    let ghost start = cursor.pos();
    let mut values: Vec<FlowSequenceEntry> = Vec::new();
    assert(flow_view(values@) =~= Seq::empty());
    loop
        invariant
            cursor.wf(),
            cursor.stream() == s,
            s == old(cursor).stream(),
            start == old(cursor).pos(),
            spec_flow_sequence_from(s, cursor.pos(), flow_view(values@)) == spec_flow_sequence(s, start),
        decreases s.tokens.len() - cursor.pos(),
    {
        let token = match cursor.next_token() {
            Ok(t) => t,
            Err(e) => return Err(e),
        };
        match token.kind {
            TokenTypeDef::Scalar => {
                let ghost before = flow_view(values@);
                values.push(FlowSequenceEntry { value: token.value, position: token.position });
                assert(flow_view(values@) =~= before.push(
                    EntryView { value: token@.value, position: token.position },
                ));
            },
            TokenTypeDef::FlowEntry => {},
            TokenTypeDef::FlowSequenceEnd => {
                return Ok(values);
            },
            _ => {
                return Err(
                    unexpected_entry_multi(TokenTypeDef::FlowEntry, TokenTypeDef::FlowSequenceEnd, &token),
                );
            },
        }
    }
}

/// Reads a value marker, then a flow sequence of scalars.
pub fn get_multiple_values(cursor: &mut ForwardCursor) -> (r: Result<Vec<FlowSequenceEntry>, Failure>)
    requires
        old(cursor).wf(),
    ensures
        final(cursor).wf(),
        final(cursor).stream() == old(cursor).stream(),
        step_outcome(
            result_view(r, |v: Vec<FlowSequenceEntry>| flow_view(v@)),
            final(cursor).pos(),
            spec_multiple_values(old(cursor).stream(), old(cursor).pos()),
        ),
{
    match cursor.expect(TokenTypeDef::Value) {
        Ok(_) => {},
        Err(e) => return Err(e),
    }
    match cursor.expect(TokenTypeDef::FlowSequenceStart) {
        Ok(_) => {},
        Err(e) => return Err(e),
    }
    get_flow_sequence(cursor)
}

/// Reads a value marker, then a block sequence of block mappings.
pub fn get_multiple_sets_of_values(cursor: &mut ForwardCursor) -> (r: Result<Vec<BlockSequenceEntries>, Failure>)
    requires
        old(cursor).wf(),
    ensures
        final(cursor).wf(),
        final(cursor).stream() == old(cursor).stream(),
        step_outcome(
            result_view(r, |v: Vec<BlockSequenceEntries>| blocks_view(v@)),
            final(cursor).pos(),
            spec_multiple_sets_of_values(old(cursor).stream(), old(cursor).pos()),
        ),
{
    match cursor.expect(TokenTypeDef::Value) {
        Ok(_) => {},
        Err(e) => return Err(e),
    }
    match cursor.expect(TokenTypeDef::BlockSequenceStart) {
        Ok(_) => {},
        Err(e) => return Err(e),
    }
    get_block_sequences(cursor)
}

/// Reads a value marker and then one scalar.
pub fn get_single_value(cursor: &mut ForwardCursor) -> (r: Result<String, Failure>)
    requires
        old(cursor).wf(),
    ensures
        final(cursor).wf(),
        final(cursor).stream() == old(cursor).stream(),
        step_outcome(
            result_view(r, |v: String| v@),
            final(cursor).pos(),
            spec_single_value(old(cursor).stream(), old(cursor).pos()),
        ),
{
    match cursor.expect(TokenTypeDef::Value) {
        Ok(_) => {},
        Err(e) => return Err(e),
    }
    get_scalar_value(cursor)
}

/// Reads block mappings up to the end of their block sequence; the opening
/// token is already read.
pub fn get_block_sequences(cursor: &mut ForwardCursor) -> (r: Result<Vec<BlockSequenceEntries>, Failure>)
    requires
        old(cursor).wf(),
    ensures
        final(cursor).wf(),
        final(cursor).stream() == old(cursor).stream(),
        step_outcome(
            result_view(r, |v: Vec<BlockSequenceEntries>| blocks_view(v@)),
            final(cursor).pos(),
            spec_block_sequences_from(old(cursor).stream(), old(cursor).pos(), Seq::empty()),
        ),
{
    let ghost s = cursor.stream();
    let ghost start = cursor.pos();
    let mut result: Vec<BlockSequenceEntries> = Vec::new();
    assert(blocks_view(result@) =~= Seq::empty());
    loop
        invariant
            cursor.wf(),
            cursor.stream() == s,
            s == old(cursor).stream(),
            start == old(cursor).pos(),
            spec_block_sequences_from(s, cursor.pos(), blocks_view(result@))
                == spec_block_sequences_from(s, start, Seq::empty()),
        decreases s.tokens.len() - cursor.pos(),
    {
        let ghost here = cursor.pos();
        let token = match cursor.next_token() {
            Ok(t) => t,
            Err(e) => return Err(e),
        };
        match token.kind {
            TokenTypeDef::BlockEntry => {
                proof {
                    lemma_block_sequence_advances(s, here + 1);
                }
                let block_sequence = match get_block_sequence(cursor) {
                    Ok(b) => b,
                    Err(e) => return Err(e),
                };
                let ghost before = blocks_view(result@);
                let ghost b = pairs_view(block_sequence@);
                result.push(block_sequence);
                assert(blocks_view(result@) =~= before.push(b));
            },
            TokenTypeDef::BlockEnd => {
                return Ok(result);
            },
            _ => {
                return Err(
                    unexpected_entry_multi(TokenTypeDef::BlockEntry, TokenTypeDef::BlockEnd, &token),
                );
            },
        }
    }
}

/// Reads a scalar key, a value marker and a scalar value.
pub fn get_key_value(cursor: &mut ForwardCursor) -> (r: Result<KeyValue, Failure>)
    requires
        old(cursor).wf(),
    ensures
        final(cursor).wf(),
        final(cursor).stream() == old(cursor).stream(),
        step_outcome(
            result_view(r, |kv: KeyValue| (kv.key@, kv.value@)),
            final(cursor).pos(),
            spec_key_value(old(cursor).stream(), old(cursor).pos()),
        ),
{
    let key = match get_scalar_value(cursor) {
        Ok(k) => k,
        Err(e) => return Err(e),
    };
    match cursor.expect(TokenTypeDef::Value) {
        Ok(_) => {},
        Err(e) => return Err(e),
    }
    let value = match get_scalar_value(cursor) {
        Ok(v) => v,
        Err(e) => return Err(e),
    };
    Ok(KeyValue { key, value })
}

/// Reads one block mapping of scalar pairs; a key that occurs again replaces
/// the earlier value.
pub fn get_block_sequence(cursor: &mut ForwardCursor) -> (r: Result<BlockSequenceEntries, Failure>)
    requires
        old(cursor).wf(),
    ensures
        final(cursor).wf(),
        final(cursor).stream() == old(cursor).stream(),
        step_outcome(
            result_view(r, |b: BlockSequenceEntries| pairs_view(b@)),
            final(cursor).pos(),
            spec_block_sequence(old(cursor).stream(), old(cursor).pos()),
        ),
{
    let ghost s = cursor.stream();
    match cursor.expect(TokenTypeDef::BlockMappingStart) {
        Ok(_) => {},
        Err(e) => return Err(e),
    }
    let ghost start = cursor.pos();
    let mut result: BlockSequenceEntries = Vec::new();
    assert(pairs_view(result@) =~= Seq::empty());
    loop
        invariant
            cursor.wf(),
            cursor.stream() == s,
            s == old(cursor).stream(),
            spec_block_sequence(s, old(cursor).pos()) == spec_block_mapping_from(s, start, Seq::empty()),
            spec_block_mapping_from(s, cursor.pos(), pairs_view(result@))
                == spec_block_mapping_from(s, start, Seq::empty()),
        decreases s.tokens.len() - cursor.pos(),
    {
        let token = match cursor.next_token() {
            Ok(t) => t,
            Err(e) => return Err(e),
        };
        match token.kind {
            TokenTypeDef::Key => {
                let key_value = match get_key_value(cursor) {
                    Ok(kv) => kv,
                    Err(e) => return Err(e),
                };
                insert_entry(
                    &mut result,
                    key_value.key,
                    BlockSequenceEntry { value: key_value.value, position: token.position },
                );
            },
            TokenTypeDef::BlockEnd => {
                return Ok(result);
            },
            _ => {
                return Err(unexpected_entry_multi(TokenTypeDef::Key, TokenTypeDef::BlockEnd, &token));
            },
        }
    }
}

/// Reads a value marker, then one scalar, taken as a sequence of one, or a
/// flow sequence of scalars.
pub fn get_single_or_multiple_values(cursor: &mut ForwardCursor) -> (r: Result<Vec<FlowSequenceEntry>, Failure>)
    requires
        old(cursor).wf(),
    ensures
        final(cursor).wf(),
        final(cursor).stream() == old(cursor).stream(),
        step_outcome(
            result_view(r, |v: Vec<FlowSequenceEntry>| flow_view(v@)),
            final(cursor).pos(),
            spec_single_or_multiple_values(old(cursor).stream(), old(cursor).pos()),
        ),
{
    match cursor.expect(TokenTypeDef::Value) {
        Ok(_) => {},
        Err(e) => return Err(e),
    }
    let token = match cursor.next_token() {
        Ok(t) => t,
        Err(e) => return Err(e),
    };
    match token.kind {
        TokenTypeDef::Scalar => {
            let v = vec![FlowSequenceEntry { value: token.value, position: token.position }];
            assert(flow_view(v@) =~= seq![EntryView { value: token@.value, position: token.position }]);
            Ok(v)
        },
        TokenTypeDef::FlowSequenceStart => get_flow_sequence(cursor),
        _ => Err(
            unexpected_entry_multi(TokenTypeDef::Scalar, TokenTypeDef::FlowSequenceStart, &token),
        ),
    }
}

} // verus!
