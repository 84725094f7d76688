//! The wire shape of conversation messages.
//!
//! The model provider exchanges messages as tagged content blocks. A
//! [`WireBlock`] is one such block: a tag plus whichever fields the tagged
//! kind carries, with unused fields absent. Serializing preserves block
//! order and every opaque continuation token; parsing a provider response
//! rejects a block whose tag is unrecognized or whose required fields are
//! missing. The embedding application maps this shape one-for-one onto its
//! JSON encoding.

use vstd::prelude::*;
use crate::strutil::{clone_opt_str, str_eq};
use crate::types::AgentContent;
use crate::types::AgentError;
use crate::types::AgentMessage;
use crate::types::BlockView;
use crate::types::ContentBlock;
use crate::types::ToolResult;
use crate::types::ToolResultView;

verus! {

/// One content block as it crosses the provider boundary.
#[derive(Debug, Clone, PartialEq, Eq)]
pub struct WireBlock {
    /// The block's tag: `text`, `tool_use` or `tool_result`.
    pub block_type: String,
    /// Prose; present on `text` blocks.
    pub text: Option<String>,
    /// Tool-use id; present on `tool_use` blocks.
    pub id: Option<String>,
    /// Tool name; present on `tool_use` blocks.
    pub name: Option<String>,
    /// Tool input as JSON text; present on `tool_use` blocks.
    pub input: Option<String>,
    /// Answered tool-use id; present on `tool_result` blocks.
    pub tool_use_id: Option<String>,
    /// Tool output or error message; present on `tool_result` blocks.
    pub content: Option<String>,
    /// Failure marker; present on failed `tool_result` blocks.
    pub is_error: Option<bool>,
    /// Opaque provider continuation token, carried through unchanged.
    pub thought_signature: Option<String>,
}

/// Spec-level model of a wire block: each string as its view.
#[verifier::ext_equal]
pub struct WireBlockView {
    pub block_type: Seq<char>,
    pub text: Option<Seq<char>>,
    pub id: Option<Seq<char>>,
    pub name: Option<Seq<char>>,
    pub input: Option<Seq<char>>,
    pub tool_use_id: Option<Seq<char>>,
    pub content: Option<Seq<char>>,
    pub is_error: Option<bool>,
    pub thought_signature: Option<Seq<char>>,
}

impl View for WireBlock {
    type V = WireBlockView;

    open spec fn view(&self) -> WireBlockView {
        WireBlockView {
            block_type: self.block_type@,
            text: self.text.deep_view(),
            id: self.id.deep_view(),
            name: self.name.deep_view(),
            input: self.input.deep_view(),
            tool_use_id: self.tool_use_id.deep_view(),
            content: self.content.deep_view(),
            is_error: self.is_error,
            thought_signature: self.thought_signature.deep_view(),
        }
    }
}

/// A whole conversation message in wire shape.
#[derive(Debug, Clone, PartialEq, Eq)]
pub struct WireMessage {
    pub role: String,
    pub blocks: Vec<WireBlock>,
}

/// The wire shape of one content block.
pub open spec fn spec_block_to_wire(b: BlockView) -> WireBlockView {
    match b {
        BlockView::Text { text } => WireBlockView {
            block_type: "text"@,
            text: Some(text),
            id: None,
            name: None,
            input: None,
            tool_use_id: None,
            content: None,
            is_error: None,
            thought_signature: None,
        },
        BlockView::ToolUse { id, name, input, thought_signature } => WireBlockView {
            block_type: "tool_use"@,
            text: None,
            id: Some(id),
            name: Some(name),
            input: Some(input),
            tool_use_id: None,
            content: None,
            is_error: None,
            thought_signature: thought_signature,
        },
    }
}

/// The wire shape of one tool result.
pub open spec fn spec_result_to_wire(r: ToolResultView) -> WireBlockView {
    WireBlockView {
        block_type: r.result_type,
        text: None,
        id: None,
        name: None,
        input: None,
        tool_use_id: Some(r.tool_use_id),
        content: Some(r.content),
        is_error: r.is_error,
        thought_signature: r.thought_signature,
    }
}

/// Parse one wire block of a model response back into a content block.
/// `None` stands for a malformed block: an unrecognized tag, or a
/// recognized tag with a required field absent.
pub open spec fn spec_wire_to_block(w: WireBlockView) -> Option<BlockView> {
    if w.block_type == "text"@ {
        match w.text {
            Some(text) => Some(BlockView::Text { text }),
            None => None,
        }
    } else if w.block_type == "tool_use"@ {
        match (w.id, w.name, w.input) {
            (Some(id), Some(name), Some(input)) => Some(
                BlockView::ToolUse { id, name, input, thought_signature: w.thought_signature },
            ),
            _ => None,
        }
    } else {
        None
    }
}

/// The wire shape of an ordered block sequence, order preserved.
pub open spec fn spec_blocks_to_wire(bs: Seq<BlockView>) -> Seq<WireBlockView> {
    bs.map_values(|b: BlockView| spec_block_to_wire(b))
}

/// Parse an ordered wire block sequence; `None` as soon as any block is
/// malformed (parsing a response is all or nothing).
pub open spec fn spec_parse_blocks(ws: Seq<WireBlockView>) -> Option<Seq<BlockView>>
    decreases ws.len(),
{
    if ws.len() == 0 {
        Some(Seq::empty())
    } else {
        match spec_parse_blocks(ws.drop_last()) {
            None => None,
            Some(bs) => match spec_wire_to_block(ws.last()) {
                None => None,
                Some(b) => Some(bs.push(b)),
            },
        }
    }
}

/// A malformed prefix keeps the whole sequence malformed.
proof fn lemma_parse_stays_malformed(ws: Seq<WireBlockView>, n: int)
    requires
        0 <= n <= ws.len(),
        spec_parse_blocks(ws.take(n)) is None,
    ensures
        spec_parse_blocks(ws) is None,
    decreases ws.len() - n,
{
    if n == ws.len() {
        assert(ws.take(n) =~= ws);
    } else {
        assert(ws.take(n + 1).drop_last() =~= ws.take(n));
        lemma_parse_stays_malformed(ws, n + 1);
    }
}

/// Law: one block survives the trip onto the wire and back unchanged.
pub proof fn lemma_block_round_trip(b: BlockView)
    ensures
        spec_wire_to_block(spec_block_to_wire(b)) == Some(b),
{
    reveal_strlit("text");
    reveal_strlit("tool_use");
    assert("text"@.len() == 4);
    assert("tool_use"@.len() == 8);
}

/// Law: serializing an ordered block sequence and parsing it back yields
/// the identical sequence, order preserved.
pub proof fn lemma_blocks_round_trip(bs: Seq<BlockView>)
    ensures
        spec_parse_blocks(spec_blocks_to_wire(bs)) == Some(bs),
    decreases bs.len(),
{
    let ws = spec_blocks_to_wire(bs);
    if bs.len() == 0 {
        assert(Seq::<BlockView>::empty() =~= bs);
    } else {
        lemma_blocks_round_trip(bs.drop_last());
        assert(ws.drop_last() =~= spec_blocks_to_wire(bs.drop_last()));
        lemma_block_round_trip(bs.last());
        assert(bs.drop_last().push(bs.last()) =~= bs);
    }
}

/// Serialize an ordered block sequence for the provider, preserving order
/// and every continuation token.
pub fn serialize_blocks(blocks: &Vec<ContentBlock>) -> (r: Vec<WireBlock>)
    ensures
        r@.map_values(|w: WireBlock| w@) == spec_blocks_to_wire(
            blocks@.map_values(|b: ContentBlock| b@),
        ),
{
    let mut out: Vec<WireBlock> = Vec::new();
    let mut i: usize = 0;
    while i < blocks.len()
        invariant
            i <= blocks.len(),
            out@.len() == i,
            forall|j: int| 0 <= j < i ==> out@[j]@ == spec_block_to_wire(blocks@[j]@),
        decreases blocks.len() - i,
    {
        let wb = match &blocks[i] {
            ContentBlock::Text { text } => WireBlock {
                block_type: "text".to_owned(),
                text: Some(text.clone()),
                id: None,
                name: None,
                input: None,
                tool_use_id: None,
                content: None,
                is_error: None,
                thought_signature: None,
            },
            ContentBlock::ToolUse { id, name, input, thought_signature } => WireBlock {
                block_type: "tool_use".to_owned(),
                text: None,
                id: Some(id.clone()),
                name: Some(name.clone()),
                input: Some(input.clone()),
                tool_use_id: None,
                content: None,
                is_error: None,
                thought_signature: clone_opt_str(thought_signature),
            },
        };
        out.push(wb);
        i = i + 1;
    }
    proof {
        assert(out@.map_values(|w: WireBlock| w@) =~= spec_blocks_to_wire(
            blocks@.map_values(|b: ContentBlock| b@),
        ));
    }
    out
}

/// A fresh malformed-response error with the given message.
fn malformed(message: &str) -> (e: AgentError)
    ensures
        e is MalformedResponse,
{
    AgentError::MalformedResponse { message: message.to_owned() }
}

/// Parse a provider response into an ordered content block sequence.
///
/// Succeeds exactly when every block carries a recognized tag with its
/// required fields present; otherwise the whole response is rejected as
/// malformed (non-retryable for that response).
pub fn parse_blocks(wire: &Vec<WireBlock>) -> (r: Result<Vec<ContentBlock>, AgentError>)
    ensures
        (match r {
            Ok(blocks) => spec_parse_blocks(wire@.map_values(|w: WireBlock| w@)) == Some(
                blocks@.map_values(|b: ContentBlock| b@),
            ),
            Err(e) => spec_parse_blocks(wire@.map_values(|w: WireBlock| w@)) is None
                && e is MalformedResponse,
        }),
{
    let ghost ws = wire@.map_values(|w: WireBlock| w@);
    let mut out: Vec<ContentBlock> = Vec::new();
    let mut i: usize = 0;
    while i < wire.len()
        invariant
            i <= wire.len(),
            ws == wire@.map_values(|w: WireBlock| w@),
            spec_parse_blocks(ws.take(i as int)) == Some(out@.map_values(|b: ContentBlock| b@)),
        decreases wire.len() - i,
    {
        let wb = &wire[i];
        proof {
            assert(ws.take(i + 1).drop_last() =~= ws.take(i as int));
            assert(ws.take(i + 1).last() == ws[i as int]);
        }
        let cb: ContentBlock = if str_eq(wb.block_type.as_str(), "text") {
            match &wb.text {
                Some(text) => ContentBlock::Text { text: text.clone() },
                None => {
                    proof {
                        lemma_parse_stays_malformed(ws, i + 1);
                    }
                    return Err(malformed("malformed model response: text block without text"));
                },
            }
        } else if str_eq(wb.block_type.as_str(), "tool_use") {
            match (&wb.id, &wb.name, &wb.input) {
                (Some(id), Some(name), Some(input)) => ContentBlock::ToolUse {
                    id: id.clone(),
                    name: name.clone(),
                    input: input.clone(),
                    thought_signature: clone_opt_str(&wb.thought_signature),
                },
                _ => {
                    proof {
                        lemma_parse_stays_malformed(ws, i + 1);
                    }
                    return Err(
                        malformed("malformed model response: tool_use block missing a field"),
                    );
                },
            }
        } else {
            proof {
                lemma_parse_stays_malformed(ws, i + 1);
            }
            return Err(malformed("malformed model response: unrecognized content block tag"));
        };
        proof {
            assert(spec_wire_to_block(ws[i as int]) == Some(cb@));
        }
        let ghost prev = out@.map_values(|b: ContentBlock| b@);
        out.push(cb);
        proof {
            assert(out@.map_values(|b: ContentBlock| b@) =~= prev.push(out@.last()@));
        }
        i = i + 1;
    }
    proof {
        assert(ws.take(wire.len() as int) =~= ws);
    }
    Ok(out)
}

/// The wire blocks of one message body.
pub open spec fn spec_content_to_wire(c: AgentContent) -> Seq<WireBlockView> {
    match c {
        AgentContent::Text(t) => seq![spec_block_to_wire(BlockView::Text { text: t@ })],
        AgentContent::Blocks(bs) => spec_blocks_to_wire(bs@.map_values(|b: ContentBlock| b@)),
        AgentContent::ToolResults(rs) => rs@.map_values(|tr: ToolResult| tr@).map_values(
            |trv: ToolResultView| spec_result_to_wire(trv),
        ),
    }
}

/// Serialize one conversation message for the provider: its role, and its
/// body as an ordered wire block sequence.
pub fn message_to_wire(m: &AgentMessage) -> (w: WireMessage)
    ensures
        w.role@ == m.role@,
        w.blocks@.map_values(|wb: WireBlock| wb@) == spec_content_to_wire(m.content),
{
    let role = m.role.clone();
    match &m.content {
        AgentContent::Text(t) => {
            let mut blocks: Vec<WireBlock> = Vec::new();
            blocks.push(
                WireBlock {
                    block_type: "text".to_owned(),
                    text: Some(t.clone()),
                    id: None,
                    name: None,
                    input: None,
                    tool_use_id: None,
                    content: None,
                    is_error: None,
                    thought_signature: None,
                },
            );
            proof {
                assert(blocks@.map_values(|wb: WireBlock| wb@) =~= spec_content_to_wire(
                    m.content,
                ));
            }
            WireMessage { role, blocks }
        },
        AgentContent::Blocks(bs) => WireMessage { role, blocks: serialize_blocks(bs) },
        AgentContent::ToolResults(rs) => {
            let mut blocks: Vec<WireBlock> = Vec::new();
            let mut i: usize = 0;
            while i < rs.len()
                invariant
                    i <= rs.len(),
                    blocks@.len() == i,
                    forall|j: int| 0 <= j < i ==> blocks@[j]@ == spec_result_to_wire(rs@[j]@),
                decreases rs.len() - i,
            {
                let tr = &rs[i];
                blocks.push(
                    WireBlock {
                        block_type: tr.result_type.clone(),
                        text: None,
                        id: None,
                        name: None,
                        input: None,
                        tool_use_id: Some(tr.tool_use_id.clone()),
                        content: Some(tr.content.clone()),
                        is_error: tr.is_error,
                        thought_signature: clone_opt_str(&tr.thought_signature),
                    },
                );
                i = i + 1;
            }
            proof {
                assert(blocks@.map_values(|wb: WireBlock| wb@) =~= spec_content_to_wire(
                    m.content,
                ));
            }
            WireMessage { role, blocks }
        },
    }
}

} // verus!
