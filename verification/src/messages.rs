//! The agent's messages and streaming events, as the client reads them.

use vstd::prelude::*;

use crate::json::Json;

verus! {

/// A block of tool-result or user content.
pub enum ContentBlock {
    Text { text: String },
    Image,
}

/// The content of a user message.
pub enum UserContent {
    Text(String),
    Blocks(Vec<ContentBlock>),
}

/// A block of assistant content.
pub enum AssistantBlock {
    Thinking { thinking: String },
    Text { text: String },
    ToolCall { id: String, name: String, arguments: Json },
}

/// Why the assistant stopped.
#[derive(Clone, Copy, Debug, PartialEq, Eq)]
pub enum StopReason {
    Error,
    /// Any non-error stop.
    Other,
}

/// A message of the conversation.
#[allow(inconsistent_fields)]
pub enum AgentMessage {
    User { content: UserContent },
    Assistant {
        content: Vec<AssistantBlock>,
        stop_reason: Option<StopReason>,
        error_message: Option<String>,
    },
    ToolResult { tool_call_id: String, content: Vec<ContentBlock>, is_error: bool },
    BashExecution {
        command: String,
        /// The command output.
        output: String,
        exit_code: i32,
        cancelled: bool,
        truncated: bool,
        full_output_path: Option<String>,
    },
}

/// A streaming update to the assistant message being produced.
pub enum AssistantEvent {
    TextDelta { delta: String },
    ThinkingDelta { delta: String },
    /// The stream failed; `reason` is the failure reason as shown to the
    /// user, `error` the failed message payload.
    Error { reason: String, error: Json },
    /// Any update the client does not act on.
    Other,
}

/// An event from the agent process.
pub enum Incoming {
    AgentStart,
    AgentEnd { messages: Vec<AgentMessage> },
    TurnStart,
    /// A turn ended.
    TurnEnd,
    MessageUpdate { event: AssistantEvent },
    ToolExecutionStart { tool_call_id: String, tool_name: String, args: Json },
    ToolExecutionUpdate { tool_call_id: String, partial_result: Vec<ContentBlock> },
    ToolExecutionEnd { tool_call_id: String, result: Vec<ContentBlock>, is_error: bool },
    AutoRetryStart { attempt: u32, max_attempts: u32, delay_ms: u64, error_message: Option<String> },
    AutoRetryEnd { success: bool, attempt: u32, final_error: Option<String> },
    /// `reason` as shown to the user.
    CompactionStart { reason: String },
    CompactionEnd {
        reason: String,
        summary: Option<String>,
        aborted: bool,
        error_message: Option<String>,
    },
    ExtensionError { error: Option<String> },
    CommandError { command: String, message: String },
    QueueUpdate { steering: Vec<String>, follow_up: Vec<String> },
    /// Any event the client does not act on.
    Other,
}

} // verus!

verus! {

/// `parts` joined with a newline between consecutive parts.
pub open spec fn join_lines(parts: Seq<Seq<char>>) -> Seq<char>
    decreases parts.len(),
{
    if parts.len() == 0 {
        Seq::empty()
    } else if parts.len() == 1 {
        parts[0]
    } else {
        join_lines(parts.drop_last()) + seq!['\n'] + parts.last()
    }
}

/// Append `text` to `acc`, with a newline in between unless `acc` is
/// still empty.
pub open spec fn push_line(acc: Seq<char>, text: Seq<char>) -> Seq<char> {
    if acc.len() == 0 {
        text
    } else {
        acc + seq!['\n'] + text
    }
}

/// How a content block reads as text: its text, or `[image]`.
pub open spec fn block_display(b: ContentBlock) -> Seq<char> {
    match b {
        ContentBlock::Text { text } => text@,
        ContentBlock::Image => "[image]"@,
    }
}

/// The text of a user message: the text itself, or its blocks one per line.
pub open spec fn user_text(c: UserContent) -> Seq<char> {
    match c {
        UserContent::Text(s) => s@,
        UserContent::Blocks(bs) => join_lines(bs@.map_values(|b: ContentBlock| block_display(b))),
    }
}

/// The text blocks of a tool result, skipping images.
pub open spec fn text_blocks(bs: Seq<ContentBlock>) -> Seq<Seq<char>>
    decreases bs.len(),
{
    if bs.len() == 0 {
        Seq::empty()
    } else {
        let rest = text_blocks(bs.drop_last());
        match bs.last() {
            ContentBlock::Text { text } => rest.push(text@),
            ContentBlock::Image => rest,
        }
    }
}

/// The first text block of a tool result, or nothing.
pub open spec fn first_text(bs: Seq<ContentBlock>) -> Seq<char> {
    let ts = text_blocks(bs);
    if ts.len() > 0 {
        ts[0]
    } else {
        Seq::empty()
    }
}

/// The text of a user message as shown in the transcript.
pub fn user_content_text(c: &UserContent) -> (r: String)
    ensures
        r@ == user_text(*c),
{
    match c {
        UserContent::Text(s) => s.clone(),
        UserContent::Blocks(bs) => {
            let ghost parts = bs@.map_values(|b: ContentBlock| block_display(b));
            let mut out = String::new();
            let mut i: usize = 0;
            proof {
                reveal_strlit("[image]");
            }
            while i < bs.len()
                invariant
                    parts == bs@.map_values(|b: ContentBlock| block_display(b)),
                    i <= bs@.len(),
                    out@ == join_lines(parts.take(i as int)),
                decreases bs@.len() - i,
            {
                let shown: &str = match &bs[i] {
                    ContentBlock::Text { text } => text.as_str(),
                    ContentBlock::Image => "[image]",
                };
                proof {
                    assert(parts.take(i + 1).drop_last() =~= parts.take(i as int));
                    assert(parts.take(i + 1).last() == block_display(bs@[i as int]));
                }
                if i == 0 {
                    assert(parts.take(0) =~= Seq::<Seq<char>>::empty());
                    out = String::from_str(shown);
                } else {
                    out = crate::helpers::concat3(out.as_str(), "\n", shown);
                    proof {
                        reveal_strlit("\n");
                    }
                }
                i += 1;
            }
            proof {
                assert(parts.take(bs@.len() as int) =~= parts);
            }
            out
        },
    }
}

/// The text blocks of a tool result, one per line; images are skipped.
pub fn result_text(bs: &Vec<ContentBlock>) -> (r: String)
    ensures
        r@ == join_lines(text_blocks(bs@)),
{
    let mut out = String::new();
    let mut any = false;
    let mut i: usize = 0;
    while i < bs.len()
        invariant
            i <= bs@.len(),
            any == (text_blocks(bs@.take(i as int)).len() > 0),
            out@ == join_lines(text_blocks(bs@.take(i as int))),
        decreases bs@.len() - i,
    {
        proof {
            assert(bs@.take(i + 1).drop_last() =~= bs@.take(i as int));
        }
        match &bs[i] {
            ContentBlock::Text { text } => {
                if any {
                    out = crate::helpers::concat3(out.as_str(), "\n", text.as_str());
                    proof {
                        reveal_strlit("\n");
                        let ts = text_blocks(bs@.take(i + 1));
                        assert(ts.drop_last() == text_blocks(bs@.take(i as int)));
                    }
                } else {
                    out = text.clone();
                    proof {
                        let ts = text_blocks(bs@.take(i + 1));
                        assert(ts =~= seq![text@]);
                    }
                }
                any = true;
            },
            ContentBlock::Image => {},
        }
        i += 1;
    }
    proof {
        assert(bs@.take(bs@.len() as int) =~= bs@);
    }
    out
}

/// The first text block of a tool result, or the empty string.
pub fn first_text_block(bs: &Vec<ContentBlock>) -> (r: &str)
    ensures
        r@ == first_text(bs@),
{
    let mut i: usize = 0;
    while i < bs.len()
        invariant
            i <= bs@.len(),
            text_blocks(bs@.take(i as int)).len() == 0,
        decreases bs@.len() - i,
    {
        proof {
            assert(bs@.take(i + 1).drop_last() =~= bs@.take(i as int));
        }
        match &bs[i] {
            ContentBlock::Text { text } => {
                proof {
                    lemma_text_blocks_prefix(bs@, i + 1);
                    assert(text_blocks(bs@.take(i + 1)) =~= seq![text@]);
                }
                return text.as_str();
            },
            ContentBlock::Image => {},
        }
        i += 1;
    }
    proof {
        assert(bs@.take(bs@.len() as int) =~= bs@);
        reveal_strlit("");
    }
    ""
}

/// The text blocks of a prefix are a prefix of the text blocks.
pub proof fn lemma_text_blocks_prefix(bs: Seq<ContentBlock>, k: int)
    requires
        0 <= k <= bs.len(),
    ensures
        text_blocks(bs.take(k)).len() <= text_blocks(bs).len(),
        forall|j: int| 0 <= j < text_blocks(bs.take(k)).len() ==> #[trigger] text_blocks(bs)[j]
            == text_blocks(bs.take(k))[j],
    decreases bs.len() - k,
{
    if k < bs.len() {
        lemma_text_blocks_prefix(bs, k + 1);
        assert(bs.take(k + 1).drop_last() =~= bs.take(k));
    } else {
        assert(bs.take(k) =~= bs);
    }
}

/// All assistant text in a message list, the blocks one per line; a text
/// block that comes while nothing has been gathered starts the result
/// without a newline.
pub open spec fn assistant_text(ms: Seq<AgentMessage>) -> Seq<char>
    decreases ms.len(),
{
    if ms.len() == 0 {
        Seq::empty()
    } else {
        let acc = assistant_text(ms.drop_last());
        match ms.last() {
            AgentMessage::Assistant { content, .. } => assistant_blocks_text(acc, content@),
            _ => acc,
        }
    }
}

/// `acc` extended by the text blocks of `bs`.
pub open spec fn assistant_blocks_text(acc: Seq<char>, bs: Seq<AssistantBlock>) -> Seq<char>
    decreases bs.len(),
{
    if bs.len() == 0 {
        acc
    } else {
        let a = assistant_blocks_text(acc, bs.drop_last());
        match bs.last() {
            AssistantBlock::Text { text } => push_line(a, text@),
            _ => a,
        }
    }
}

/// Flatten every assistant text block of a message list into one string,
/// one block per line.
pub fn collect_assistant_text(messages: &Vec<AgentMessage>) -> (r: String)
    ensures
        r@ == assistant_text(messages@),
{
    let mut out = String::new();
    let mut i: usize = 0;
    while i < messages.len()
        invariant
            i <= messages@.len(),
            out@ == assistant_text(messages@.take(i as int)),
        decreases messages@.len() - i,
    {
        proof {
            assert(messages@.take(i + 1).drop_last() =~= messages@.take(i as int));
        }
        match &messages[i] {
            AgentMessage::Assistant { content, .. } => {
                let ghost acc = out@;
                let mut j: usize = 0;
                while j < content.len()
                    invariant
                        j <= content@.len(),
                        out@ == assistant_blocks_text(acc, content@.take(j as int)),
                    decreases content@.len() - j,
                {
                    proof {
                        assert(content@.take(j + 1).drop_last() =~= content@.take(j as int));
                    }
                    match &content[j] {
                        AssistantBlock::Text { text } => {
                            if crate::text::byte_len(out.as_str()) > 0 {
                                out = crate::helpers::concat3(out.as_str(), "\n", text.as_str());
                                proof {
                                    reveal_strlit("\n");
                                }
                            } else {
                                out = text.clone();
                            }
                        },
                        _ => {},
                    }
                    j += 1;
                }
                proof {
                    assert(content@.take(content@.len() as int) =~= content@);
                }
            },
            _ => {},
        }
        i += 1;
    }
    proof {
        assert(messages@.take(messages@.len() as int) =~= messages@);
    }
    out
}

} // verus!
