//! Rebuilding the transcript from the message history the agent reports
//! at start-up.

use vstd::prelude::*;

use crate::json::Json;
use crate::messages::{
    AgentMessage, AssistantBlock, assistant_blocks_text, join_lines, push_line, result_text,
    text_blocks, user_content_text, user_text,
};
use crate::transcript::{
    BashExec, Entry, ToolStatus, Transcript, appended, bumped, tool_finished, tool_started,
};

verus! {

/// The thinking blocks of `bs` added to `acc`, one per line.
pub open spec fn thinking_blocks_text(acc: Seq<char>, bs: Seq<AssistantBlock>) -> Seq<char>
    decreases bs.len(),
{
    if bs.len() == 0 {
        acc
    } else {
        let a = thinking_blocks_text(acc, bs.drop_last());
        match bs.last() {
            AssistantBlock::Thinking { thinking } => push_line(a, thinking@),
            _ => a,
        }
    }
}

/// The tool calls among `bs`, in order, as id, name and arguments.
pub open spec fn tool_calls_of(bs: Seq<AssistantBlock>) -> Seq<(String, String, Json)>
    decreases bs.len(),
{
    if bs.len() == 0 {
        Seq::empty()
    } else {
        let rest = tool_calls_of(bs.drop_last());
        match bs.last() {
            AssistantBlock::ToolCall { id, name, arguments } => rest.push((id, name, arguments)),
            _ => rest,
        }
    }
}

/// The mutation counter after `k` more mutations.
pub open spec fn epoch_after(e: u64, k: nat) -> u64
    decreases k,
{
    if k == 0 {
        e
    } else {
        epoch_after(e, (k - 1) as nat).wrapping_add(1)
    }
}

/// Entry `e` is a fresh card for tool call `c`: running, no output,
/// collapsed.
pub open spec fn fresh_tool(e: Entry, c: (String, String, Json)) -> bool {
    e matches Entry::ToolCall(tc) && tc.id@ == c.0@ && tc.name@ == c.1@ && tc.args == c.2
        && tc.output@ == Seq::<char>::empty() && tc.status == ToolStatus::Running && !tc.is_error
        && !tc.expanded
}

/// `b` is `a` with an assistant message of blocks `bs` appended: its
/// thinking (one entry, when there is any), its text (one entry, when
/// there is any), then a fresh card for each tool call.
pub open spec fn assistant_imported(a: Transcript, bs: Seq<AssistantBlock>, b: Transcript) -> bool {
    let th = thinking_blocks_text(Seq::empty(), bs);
    let tx = assistant_blocks_text(Seq::empty(), bs);
    let calls = tool_calls_of(bs);
    let n = a@.len() as int;
    let t = if th.len() > 0 {
        1int
    } else {
        0int
    };
    let o = t + if tx.len() > 0 {
        1int
    } else {
        0int
    };
    &&& b@.len() == n + o + calls.len()
    &&& b@.take(n) == a@
    &&& th.len() > 0 ==> (b@[n] matches Entry::Thinking(s) && s@ == th)
    &&& tx.len() > 0 ==> (b@[n + t] matches Entry::Assistant(s) && s@ == tx)
    &&& forall|j: int| 0 <= j < calls.len() ==> fresh_tool(#[trigger] b@[n + o + j], calls[j])
    &&& b.epoch_spec() == epoch_after(a.epoch_spec(), (o + calls.len()) as nat)
}

/// What importing one message does to transcript `a`: user text and
/// shell runs are appended, an assistant message as above, and a tool
/// result finishes its tool card.
pub open spec fn message_imported(a: Transcript, m: AgentMessage, b: Transcript) -> bool {
    match m {
        AgentMessage::User { content } => {
            &&& bumped(a, b)
            &&& appended(a@, b@)
            &&& b@.last() matches Entry::User(s) && s@ == user_text(content)
        },
        AgentMessage::Assistant { content, .. } => assistant_imported(a, content@, b),
        AgentMessage::ToolResult { tool_call_id, content, is_error } => tool_finished(
            a,
            b,
            tool_call_id@,
            join_lines(text_blocks(content@)),
            is_error,
        ),
        AgentMessage::BashExecution {
            command,
            output,
            exit_code,
            cancelled,
            truncated,
            full_output_path,
        } => {
            &&& bumped(a, b)
            &&& b@ == a@.push(
                Entry::BashExec(
                    BashExec { command, output, exit_code, cancelled, truncated, full_output_path },
                ),
            )
        },
    }
}

/// Importing messages `ms` in order takes transcript `a` to `b`.
pub open spec fn imported(a: Transcript, ms: Seq<AgentMessage>, b: Transcript) -> bool
    decreases ms.len(),
{
    if ms.len() == 0 {
        b == a
    } else {
        exists|mid: Transcript| imported(a, ms.drop_last(), mid) && #[trigger] message_imported(mid, ms.last(), b)
    }
}

fn import_assistant(t: &mut Transcript, content: Vec<AssistantBlock>)
    ensures
        assistant_imported(*old(t), content@, *final(t)),
{
    let ghost bs = content@;
    let mut content = content;
    let mut thinking = String::new();
    let mut text = String::new();
    let mut calls: Vec<(String, String, Json)> = Vec::new();
    let total = content.len();
    let mut i: usize = 0;
    while content.len() > 0
        invariant
            i <= bs.len(),
            bs.len() == total,
            content@ == bs.skip(i as int),
            thinking@ == thinking_blocks_text(Seq::empty(), bs.take(i as int)),
            text@ == assistant_blocks_text(Seq::empty(), bs.take(i as int)),
            calls@ == tool_calls_of(bs.take(i as int)),
            *t == *old(t),
        decreases content@.len(),
    {
        proof {
            assert(bs.take(i + 1).drop_last() =~= bs.take(i as int));
            assert(bs.skip(i as int)[0] == bs[i as int]);
        }
        let b = content.remove(0);
        proof {
            assert(content@ =~= bs.skip(i + 1));
        }
        match b {
            AssistantBlock::Thinking { thinking: s } => {
                if crate::text::byte_len(thinking.as_str()) > 0 {
                    thinking.append("\n");
                    proof {
                        reveal_strlit("\n");
                    }
                }
                thinking.append(s.as_str());
            },
            AssistantBlock::Text { text: s } => {
                if crate::text::byte_len(text.as_str()) > 0 {
                    text.append("\n");
                    proof {
                        reveal_strlit("\n");
                    }
                }
                text.append(s.as_str());
            },
            AssistantBlock::ToolCall { id, name, arguments } => {
                calls.push((id, name, arguments));
            },
        }
        i += 1;
    }
    proof {
        assert(bs.take(bs.len() as int) =~= bs);
    }
    let ghost n = old(t)@.len() as int;
    let ghost e0 = old(t).epoch_spec();
    let ghost th = thinking@;
    let ghost tx = text@;
    let th_any = crate::text::byte_len(thinking.as_str()) > 0;
    if th_any {
        t.push(Entry::Thinking(thinking));
    }
    let ghost t1 = *t;
    let tx_any = crate::text::byte_len(text.as_str()) > 0;
    if tx_any {
        t.push(Entry::Assistant(text));
    }
    let ghost tpos: int = if th_any { 1int } else { 0int };
    let ghost o: int = tpos + (if tx_any { 1int } else { 0int });
    proof {
        reveal_with_fuel(epoch_after, 3);
        assert(t1@.len() == n + tpos);
        assert(t1.epoch_spec() == epoch_after(e0, tpos as nat));
        if th_any {
            assert(t1@[n] matches Entry::Thinking(s) && s@ == th);
            assert(th.len() > 0);
        } else {
            assert(th.len() == 0) by {
                crate::text::lemma_encode_empty(th);
            }
        }
        if tx_any {
            if th_any {
                assert(t@[n] == t1@[n]);
            }
            assert(tx.len() > 0);
        } else {
            assert(tx.len() == 0) by {
                crate::text::lemma_encode_empty(tx);
            }
        }
    }
    let ghost all = calls@;
    let ncalls = calls.len();
    proof {
        assert(t@.take(n) =~= old(t)@);
    }
    let mut k: usize = 0;
    while calls.len() > 0
        invariant
            k <= all.len(),
            all.len() == ncalls,
            n == old(t)@.len(),
            0 <= tpos <= o <= 2,
            tpos == (if th_any { 1int } else { 0int }),
            o == tpos + (if tx_any { 1int } else { 0int }),
            calls@ == all.skip(k as int),
            t@.len() == n + o + k,
            t@.take(n) == old(t)@,
            th_any ==> (t@[n] matches Entry::Thinking(s) && s@ == thinking_blocks_text(Seq::empty(), bs)),
            tx_any ==> (t@[n + tpos] matches Entry::Assistant(s) && s@ == assistant_blocks_text(
                Seq::empty(),
                bs,
            )),
            forall|j: int| 0 <= j < k ==> fresh_tool(#[trigger] t@[n + o + j], all[j]),
            t.epoch_spec() == epoch_after(e0, (o + k) as nat),
            n + o <= t@.len(),
        decreases calls@.len(),
    {
        proof {
            assert(all.skip(k as int)[0] == all[k as int]);
        }
        let (id, name, args) = calls.remove(0);
        proof {
            assert(calls@ =~= all.skip(k + 1));
        }
        let ghost c = (id, name, args);
        assert(c == all[k as int]);
        let ghost before = *t;
        assert(before@.len() == n + o + k);
        assert(before@.take(n) == old(t)@);
        t.start_tool(id, name, args);
        proof {
            assert(t@.drop_last() == before@);
            assert(t@.len() == n + o + k + 1);
            assert forall|j: int| 0 <= j < n + o + k implies #[trigger] t@[j] == before@[j] by {
                assert(t@.drop_last()[j] == before@[j]);
            }
            assert(t@.take(n) =~= before@.take(n));
            assert forall|j: int| 0 <= j < k + 1 implies fresh_tool(#[trigger] t@[n + o + j], all[j]) by {
                if j < k {
                    assert(t@[n + o + j] == before@[n + o + j]);
                } else {
                    assert(t@[n + o + j] == t@.last());
                }
            }
        }
        k += 1;
    }
}

fn import_message(t: &mut Transcript, m: AgentMessage)
    ensures
        message_imported(*old(t), m, *final(t)),
{
    match m {
        AgentMessage::User { content } => {
            let text = user_content_text(&content);
            t.push(Entry::User(text));
            assert(t@.drop_last() =~= old(t)@);
        },
        AgentMessage::Assistant { content, .. } => import_assistant(t, content),
        AgentMessage::ToolResult { tool_call_id, content, is_error } => {
            let output = result_text(&content);
            t.finish_tool(tool_call_id.as_str(), output.as_str(), is_error);
        },
        AgentMessage::BashExecution {
            command,
            output,
            exit_code,
            cancelled,
            truncated,
            full_output_path,
        } => {
            t.push(
                Entry::BashExec(
                    BashExec { command, output, exit_code, cancelled, truncated, full_output_path },
                ),
            );
        },
    }
}

/// Rebuild the transcript from the agent's message history, oldest first.
pub fn import_messages(t: &mut Transcript, messages: Vec<AgentMessage>)
    ensures
        imported(*old(t), messages@, *final(t)),
{
    let ghost ms = messages@;
    let mut messages = messages;
    let total = messages.len();
    let mut i: usize = 0;
    proof {
        assert(ms.take(0) =~= Seq::<AgentMessage>::empty());
    }
    while messages.len() > 0
        invariant
            i <= ms.len(),
            ms.len() == total,
            messages@ == ms.skip(i as int),
            imported(*old(t), ms.take(i as int), *t),
        decreases messages@.len(),
    {
        proof {
            assert(ms.skip(i as int)[0] == ms[i as int]);
        }
        let m = messages.remove(0);
        proof {
            assert(messages@ =~= ms.skip(i + 1));
        }
        let ghost mid = *t;
        import_message(t, m);
        proof {
            assert(ms.take(i + 1).drop_last() =~= ms.take(i as int));
            assert(ms.take(i + 1).last() == m);
            assert(message_imported(mid, ms.take(i + 1).last(), *t));
        }
        i += 1;
    }
    proof {
        assert(ms.take(ms.len() as int) =~= ms);
    }
}

} // verus!
