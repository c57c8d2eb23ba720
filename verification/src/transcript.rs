//! The conversation transcript: the entries shown in the chat body, in
//! order, with a mutation counter that render caches key on.

use vstd::prelude::*;

use vstd::string::*;

use crate::json::Json;

verus! {

/// Lifecycle of a tool call card.
#[derive(Clone, Copy, Debug, PartialEq, Eq)]
pub enum ToolStatus {
    Running,
    /// Finished without error.
    Succeeded,
    /// Finished with an error.
    Failed,
}

/// A tool call the agent made, with its streamed output.
pub struct ToolCall {
    pub id: String,
    pub name: String,
    pub args: Json,
    pub output: String,
    pub status: ToolStatus,
    pub is_error: bool,
    pub expanded: bool,
}

/// A shell command run by the user through the agent.
pub struct BashExec {
    pub command: String,
    pub output: String,
    pub exit_code: i32,
    pub cancelled: bool,
    pub truncated: bool,
    pub full_output_path: Option<String>,
}

/// Progress of a context compaction.
pub enum CompactionState {
    Running,
    Done { summary: Option<String> },
    Aborted,
    Failed(String),
}

/// A context compaction and its outcome.
pub struct Compaction {
    pub reason: String,
    pub state: CompactionState,
}

/// Progress of an automatic retry.
pub enum RetryState {
    Waiting { delay_ms: u64, error: String },
    Succeeded,
    Exhausted(String),
}

/// An automatic retry after a transient error.
pub struct Retry {
    pub attempt: u32,
    pub max_attempts: u32,
    pub state: RetryState,
}

/// One item of the transcript.
pub enum Entry {
    User(String),
    Thinking(String),
    Assistant(String),
    ToolCall(ToolCall),
    BashExec(BashExec),
    Info(String),
    Warn(String),
    Error(String),
    Compaction(Compaction),
    Retry(Retry),
    TurnMarker { number: u32 },
}

/// The ordered list of entries, with a counter bumped on every mutation.
pub struct Transcript {
    entries: Vec<Entry>,
    epoch: u64,
}

impl View for Transcript {
    type V = Seq<Entry>;

    closed spec fn view(&self) -> Seq<Entry> {
        self.entries@
    }
}

impl Default for Transcript {
    /// An empty transcript.
    fn default() -> (t: Transcript)
        ensures
            t@ == Seq::<Entry>::empty(),
            t.epoch_spec() == 0,
    {
        Transcript::new()
    }
}

impl Transcript {
    /// The mutation counter.
    pub closed spec fn epoch_spec(&self) -> u64 {
        self.epoch
    }

    /// An empty transcript.
    pub fn new() -> (t: Transcript)
        ensures
            t@ == Seq::<Entry>::empty(),
            t.epoch_spec() == 0,
    {
        Transcript { entries: Vec::new(), epoch: 0 }
    }

    /// The entries, oldest first.
    pub fn entries(&self) -> (r: &Vec<Entry>)
        ensures
            r@ == self@,
    {
        &self.entries
    }

    /// The mutation counter: it changes on every mutation.
    pub fn mutation_epoch(&self) -> (r: u64)
        ensures
            r == self.epoch_spec(),
    {
        self.epoch
    }

    /// Append an entry.
    pub fn push(&mut self, e: Entry)
        ensures
            final(self)@ == old(self)@.push(e),
            final(self).epoch_spec() == old(self).epoch_spec().wrapping_add(1),
    {
        self.entries.push(e);
        self.epoch = self.epoch.wrapping_add(1);
    }
}

} // verus!

verus! {

/// The FNV-1a offset basis, where every fingerprint starts.
pub const FP_OFFSET: u64 = 0xcbf2_9ce4_8422_2325;

/// The FNV-1a prime.
pub const FP_PRIME: u64 = 0x0100_0000_01b3;

/// One mixing step: fold word `w` into the running fingerprint `h`.
pub open spec fn fp_mix(h: u64, w: u64) -> u64 {
    (h ^ w).wrapping_mul(FP_PRIME)
}

/// Fold the words `ws`, in order, into the running fingerprint `h`.
pub open spec fn fp_fold(h: u64, ws: Seq<u64>) -> u64
    decreases ws.len(),
{
    if ws.len() == 0 {
        h
    } else {
        fp_fold(fp_mix(h, ws[0]), ws.drop_first())
    }
}

/// Byte length of a text, as a fingerprint word.
pub open spec fn len_word(s: Seq<char>) -> u64 {
    crate::text::blen(s) as u64
}

/// The words an entry's fingerprint is made of: its variant, then the
/// fields that can change after it is created (text lengths, statuses,
/// flags), and for thinking the `show_thinking` setting.
pub open spec fn fingerprint_words(e: Entry, show_thinking: bool) -> Seq<u64> {
    match e {
        Entry::User(s) => seq![0u64, len_word(s@)],
        Entry::Thinking(s) => seq![1u64, len_word(s@), if show_thinking { 1u64 } else { 0u64 }],
        Entry::Assistant(s) => seq![2u64, len_word(s@)],
        Entry::ToolCall(tc) => seq![
            3u64,
            len_word(tc.name@),
            len_word(tc.output@),
            status_word(tc.status),
            bool_word(tc.is_error),
            bool_word(tc.expanded),
        ],
        Entry::BashExec(bx) => seq![
            4u64,
            len_word(bx.command@),
            len_word(bx.output@),
            bx.exit_code as u64,
            bool_word(bx.cancelled),
            bool_word(bx.truncated),
        ],
        Entry::Info(s) => seq![5u64, len_word(s@)],
        Entry::Warn(s) => seq![6u64, len_word(s@)],
        Entry::Error(s) => seq![7u64, len_word(s@)],
        Entry::Compaction(c) => seq![8u64, len_word(c.reason@)] + match c.state {
            CompactionState::Running => seq![0u64],
            CompactionState::Done { summary } => seq![
                1u64,
                match summary {
                    Some(s) => len_word(s@),
                    None => 0u64,
                },
            ],
            CompactionState::Aborted => seq![2u64],
            CompactionState::Failed(e) => seq![3u64, len_word(e@)],
        },
        Entry::Retry(r) => seq![9u64, r.attempt as u64, r.max_attempts as u64] + match r.state {
            RetryState::Waiting { delay_ms, error } => seq![0u64, delay_ms, len_word(error@)],
            RetryState::Succeeded => seq![1u64],
            RetryState::Exhausted(e) => seq![2u64, len_word(e@)],
        },
        Entry::TurnMarker { number } => seq![10u64, number as u64],
    }
}

pub open spec fn bool_word(b: bool) -> u64 {
    if b {
        1
    } else {
        0
    }
}

pub open spec fn status_word(s: ToolStatus) -> u64 {
    match s {
        ToolStatus::Running => 0,
        ToolStatus::Succeeded => 1,
        ToolStatus::Failed => 2,
    }
}

/// The render-cache key of an entry.
pub open spec fn fingerprint(e: Entry, show_thinking: bool) -> u64 {
    fp_fold(FP_OFFSET, fingerprint_words(e, show_thinking))
}

fn text_word(s: &String) -> (w: u64)
    ensures
        w == len_word(s@),
{
    crate::text::byte_len(s.as_str()) as u64
}

fn flag_word(b: bool) -> (w: u64)
    ensures
        w == bool_word(b),
{
    if b {
        1
    } else {
        0
    }
}

fn words_of(entry: &Entry, show_thinking: bool) -> (ws: Vec<u64>)
    ensures
        ws@ == fingerprint_words(*entry, show_thinking),
{
    match entry {
        Entry::User(s) => vec![0, text_word(s)],
        Entry::Thinking(s) => vec![1, text_word(s), flag_word(show_thinking)],
        Entry::Assistant(s) => vec![2, text_word(s)],
        Entry::ToolCall(tc) => {
            let st: u64 = match tc.status {
                ToolStatus::Running => 0,
                ToolStatus::Succeeded => 1,
                ToolStatus::Failed => 2,
            };
            vec![
                3,
                text_word(&tc.name),
                text_word(&tc.output),
                st,
                flag_word(tc.is_error),
                flag_word(tc.expanded),
            ]
        },
        Entry::BashExec(bx) => vec![
            4,
            text_word(&bx.command),
            text_word(&bx.output),
            bx.exit_code as u64,
            flag_word(bx.cancelled),
            flag_word(bx.truncated),
        ],
        Entry::Info(s) => vec![5, text_word(s)],
        Entry::Warn(s) => vec![6, text_word(s)],
        Entry::Error(s) => vec![7, text_word(s)],
        Entry::Compaction(c) => {
            let mut ws = vec![8, text_word(&c.reason)];
            match &c.state {
                CompactionState::Running => ws.push(0),
                CompactionState::Done { summary } => {
                    ws.push(1);
                    match summary {
                        Some(s) => ws.push(text_word(s)),
                        None => ws.push(0),
                    }
                },
                CompactionState::Aborted => ws.push(2),
                CompactionState::Failed(e) => {
                    ws.push(3);
                    ws.push(text_word(e));
                },
            }
            ws
        },
        Entry::Retry(r) => {
            let mut ws = vec![9, r.attempt as u64, r.max_attempts as u64];
            match &r.state {
                RetryState::Waiting { delay_ms, error } => {
                    ws.push(0);
                    ws.push(*delay_ms);
                    ws.push(text_word(error));
                },
                RetryState::Succeeded => ws.push(1),
                RetryState::Exhausted(e) => {
                    ws.push(2);
                    ws.push(text_word(e));
                },
            }
            ws
        },
        Entry::TurnMarker { number } => vec![10, *number as u64],
    }
}

/// Mixing loses nothing: different xors of state and word give different
/// results.
proof fn lemma_mix_distinct(h1: u64, w1: u64, h2: u64, w2: u64)
    requires
        h1 ^ w1 != h2 ^ w2,
    ensures
        fp_mix(h1, w1) != fp_mix(h2, w2),
{
    let x1 = h1 ^ w1;
    let x2 = h2 ^ w2;
    // The prime is odd, so multiplying by it is undone by its inverse.
    let inv: u64 = 0xce96_5057_aff6_957b;
    assert(((x1 as nat * FP_PRIME as nat) % 0x1_0000_0000_0000_0000) * inv as nat % 0x1_0000_0000_0000_0000
        == x1) by (nonlinear_arith)
        requires
            inv == 0xce96_5057_aff6_957b,
            FP_PRIME == 0x0100_0000_01b3,
    ;
    assert(((x2 as nat * FP_PRIME as nat) % 0x1_0000_0000_0000_0000) * inv as nat % 0x1_0000_0000_0000_0000
        == x2) by (nonlinear_arith)
        requires
            inv == 0xce96_5057_aff6_957b,
            FP_PRIME == 0x0100_0000_01b3,
    ;
}

/// Folding the same words into different states keeps them different.
proof fn lemma_fold_injective(h1: u64, h2: u64, ws: Seq<u64>)
    requires
        h1 != h2,
    ensures
        fp_fold(h1, ws) != fp_fold(h2, ws),
    decreases ws.len(),
{
    if ws.len() > 0 {
        let w = ws[0];
        assert(h1 ^ w != h2 ^ w) by (bit_vector)
            requires
                h1 != h2,
        ;
        lemma_mix_distinct(h1, w, h2, w);
        lemma_fold_injective(fp_mix(h1, w), fp_mix(h2, w), ws.drop_first());
    }
}

/// Word sequences of one length that differ at exactly one place fold to
/// different fingerprints.
pub proof fn lemma_fold_one_difference(h: u64, ws1: Seq<u64>, ws2: Seq<u64>, k: int)
    requires
        ws1.len() == ws2.len(),
        0 <= k < ws1.len(),
        ws1[k] != ws2[k],
        forall|i: int| 0 <= i < ws1.len() && i != k ==> ws1[i] == ws2[i],
    ensures
        fp_fold(h, ws1) != fp_fold(h, ws2),
    decreases k,
{
    let w1 = ws1[0];
    let w2 = ws2[0];
    if k == 0 {
        assert(h ^ w1 != h ^ w2) by (bit_vector)
            requires
                w1 != w2,
        ;
        lemma_mix_distinct(h, w1, h, w2);
        assert(ws1.drop_first() =~= ws2.drop_first());
        lemma_fold_injective(fp_mix(h, w1), fp_mix(h, w2), ws1.drop_first());
    } else {
        assert(w1 == w2);
        lemma_fold_one_difference(fp_mix(h, w1), ws1.drop_first(), ws2.drop_first(), k - 1);
    }
}

/// The render key sees the `show_thinking` setting on thinking entries:
/// flipping it changes the fingerprint, so the cached rendering is
/// rebuilt.
pub proof fn lemma_fingerprint_sees_show_thinking(s: String)
    ensures
        fingerprint(Entry::Thinking(s), false) != fingerprint(Entry::Thinking(s), true),
{
    lemma_fold_one_difference(
        FP_OFFSET,
        fingerprint_words(Entry::Thinking(s), false),
        fingerprint_words(Entry::Thinking(s), true),
        2,
    );
}

/// A user entry and an assistant entry whose texts have the same byte
/// length never share a fingerprint: the variant is part of the key.
pub proof fn lemma_fingerprint_sees_variant(s: String, t: String, show_thinking: bool)
    requires
        crate::text::blen(s@) == crate::text::blen(t@),
    ensures
        fingerprint(Entry::User(s), show_thinking) != fingerprint(Entry::Assistant(t), show_thinking),
{
    lemma_fold_one_difference(
        FP_OFFSET,
        fingerprint_words(Entry::User(s), show_thinking),
        fingerprint_words(Entry::Assistant(t), show_thinking),
        0,
    );
}

/// Assistant text that changes length changes the fingerprint, so a
/// streamed answer is rendered anew as it grows.
pub proof fn lemma_fingerprint_sees_growth(s: String, t: String, show_thinking: bool)
    requires
        crate::text::blen(s@) != crate::text::blen(t@),
        crate::text::blen(s@) <= u64::MAX,
        crate::text::blen(t@) <= u64::MAX,
    ensures
        fingerprint(Entry::Assistant(s), show_thinking) != fingerprint(Entry::Assistant(t), show_thinking),
{
    lemma_fold_one_difference(
        FP_OFFSET,
        fingerprint_words(Entry::Assistant(s), show_thinking),
        fingerprint_words(Entry::Assistant(t), show_thinking),
        1,
    );
}

/// A tool card's status change alone changes its fingerprint: running,
/// succeeded and failed cards are rendered apart.
pub proof fn lemma_fingerprint_sees_tool_status(tc: ToolCall, status: ToolStatus, show_thinking: bool)
    requires
        status != tc.status,
    ensures
        fingerprint(Entry::ToolCall(tc), show_thinking) != fingerprint(
            Entry::ToolCall(ToolCall { status, ..tc }),
            show_thinking,
        ),
{
    lemma_fold_one_difference(
        FP_OFFSET,
        fingerprint_words(Entry::ToolCall(tc), show_thinking),
        fingerprint_words(Entry::ToolCall(ToolCall { status, ..tc }), show_thinking),
        3,
    );
}

/// Expanding or collapsing a tool card alone changes its fingerprint.
pub proof fn lemma_fingerprint_sees_expansion(tc: ToolCall, show_thinking: bool)
    ensures
        fingerprint(Entry::ToolCall(tc), show_thinking) != fingerprint(
            Entry::ToolCall(ToolCall { expanded: !tc.expanded, ..tc }),
            show_thinking,
        ),
{
    lemma_fold_one_difference(
        FP_OFFSET,
        fingerprint_words(Entry::ToolCall(tc), show_thinking),
        fingerprint_words(Entry::ToolCall(ToolCall { expanded: !tc.expanded, ..tc }), show_thinking),
        5,
    );
}

/// Fingerprint the mutable bits of an entry. Entries with equal
/// fingerprints render alike under the same theme and `show_thinking`
/// setting, so cached render slots can be reused.
pub fn fingerprint_entry(entry: &Entry, show_thinking: bool) -> (r: u64)
    ensures
        r == fingerprint(*entry, show_thinking),
{
    let ws = words_of(entry, show_thinking);
    let mut h: u64 = FP_OFFSET;
    let mut i: usize = 0;
    assert(ws@.skip(0) =~= ws@);
    while i < ws.len()
        invariant
            i <= ws@.len(),
            fp_fold(h, ws@.skip(i as int)) == fp_fold(FP_OFFSET, ws@),
        decreases ws@.len() - i,
    {
        proof {
            assert(ws@.skip(i as int).drop_first() =~= ws@.skip(i + 1));
        }
        h = (h ^ ws[i]).wrapping_mul(FP_PRIME);
        i += 1;
    }
    proof {
        assert(ws@.skip(i as int) =~= Seq::<u64>::empty());
        assert(ws@.skip(0) =~= ws@);
    }
    h
}

} // verus!

verus! {

/// The Unicode lowercase mapping of a text, as `str::to_lowercase`
/// computes it.
pub uninterp spec fn lowercase(s: Seq<char>) -> Seq<char>;

/// Calls `str::to_lowercase`; the result is the name `lowercase` of the
/// argument. Unicode case mapping is left unstated.
#[verifier::external_body]
pub(crate) fn to_lowercase(s: &str) -> (r: String)
    ensures
        r@ == lowercase(s@),
{
    s.to_lowercase()
}

/// `needle` occurs somewhere in `hay`.
pub open spec fn contains_text(hay: Seq<char>, needle: Seq<char>) -> bool {
    exists|j: int| crate::text::occurs_at(vstd::utf8::encode_utf8(hay), vstd::utf8::encode_utf8(needle), j)
}

/// The text of an entry that transcript search looks at: the body of
/// text entries, the output of tool calls and shell commands.
pub open spec fn searchable(e: Entry) -> Option<Seq<char>> {
    match e {
        Entry::User(s) => Some(s@),
        Entry::Assistant(s) => Some(s@),
        Entry::Thinking(s) => Some(s@),
        Entry::Info(s) => Some(s@),
        Entry::Warn(s) => Some(s@),
        Entry::Error(s) => Some(s@),
        Entry::ToolCall(tc) => Some(tc.output@),
        Entry::BashExec(bx) => Some(bx.output@),
        _ => None,
    }
}

/// Entry `e` matches the lowercased query `lq`, ignoring case.
pub open spec fn is_hit(e: Entry, lq: Seq<char>) -> bool {
    match searchable(e) {
        Some(h) => contains_text(lowercase(h), lq),
        None => false,
    }
}

/// The indices below `n` of the entries that match `lq`, in order.
pub open spec fn hits_upto(es: Seq<Entry>, lq: Seq<char>, n: int) -> Seq<usize>
    decreases n,
{
    if n <= 0 {
        Seq::empty()
    } else if is_hit(es[n - 1], lq) {
        hits_upto(es, lq, n - 1).push((n - 1) as usize)
    } else {
        hits_upto(es, lq, n - 1)
    }
}

fn searchable_text(e: &Entry) -> (r: Option<&String>)
    ensures
        match r {
            Some(s) => searchable(*e) == Some(s@),
            None => searchable(*e) is None,
        },
{
    match e {
        Entry::User(s) => Some(s),
        Entry::Assistant(s) => Some(s),
        Entry::Thinking(s) => Some(s),
        Entry::Info(s) => Some(s),
        Entry::Warn(s) => Some(s),
        Entry::Error(s) => Some(s),
        Entry::ToolCall(tc) => Some(&tc.output),
        Entry::BashExec(bx) => Some(&bx.output),
        _ => None,
    }
}

/// The entries of `es` matching `query` without regard to case, in
/// order; none for an empty query.
pub open spec fn search_hits(es: Seq<Entry>, query: Seq<char>) -> Seq<usize> {
    if query.len() == 0 {
        Seq::empty()
    } else {
        hits_upto(es, lowercase(query), es.len() as int)
    }
}

/// The matches below `n` come in increasing order, each below `n`, and
/// an index below `n` is among them exactly when its entry matches.
pub proof fn lemma_hits_upto(es: Seq<Entry>, lq: Seq<char>, n: int)
    requires
        0 <= n <= es.len(),
        es.len() <= usize::MAX,
    ensures
        forall|i: int| 0 <= i < hits_upto(es, lq, n).len() ==> #[trigger] hits_upto(es, lq, n)[i] < n,
        forall|i: int, j: int|
            0 <= i < j < hits_upto(es, lq, n).len() ==> #[trigger] hits_upto(es, lq, n)[i]
                < #[trigger] hits_upto(es, lq, n)[j],
        forall|k: usize| k < n ==> (#[trigger] hits_upto(es, lq, n).contains(k) <==> is_hit(es[k as int], lq)),
    decreases n,
{
    if n > 0 {
        lemma_hits_upto(es, lq, n - 1);
        let h = hits_upto(es, lq, n - 1);
        let hh = hits_upto(es, lq, n);
        if is_hit(es[n - 1], lq) {
            assert((n - 1) as usize == n - 1);
            assert(hh == h.push((n - 1) as usize));
            assert forall|i: int, j: int| 0 <= i < j < hh.len() implies #[trigger] hh[i] < #[trigger] hh[j] by {
                if j < h.len() {
                    assert(h[i] < h[j]);
                } else {
                    assert(h[i] < n - 1);
                }
            }
            assert forall|k: usize| k < n implies (#[trigger] hh.contains(k) <==> is_hit(es[k as int], lq)) by {
                if k == n - 1 {
                    assert(hh[h.len() as int] == k);
                } else {
                    if hh.contains(k) {
                        let i = choose|i: int| 0 <= i < hh.len() && hh[i] == k;
                        assert(i < h.len());
                        assert(h[i] == k);
                    }
                    if h.contains(k) {
                        let i = choose|i: int| 0 <= i < h.len() && h[i] == k;
                        assert(hh[i] == k);
                    }
                }
            }
        } else {
            assert(hh == h);
            assert forall|k: usize| k < n implies (#[trigger] hh.contains(k) <==> is_hit(es[k as int], lq)) by {
                if k == n - 1 && hh.contains(k) {
                    let i = choose|i: int| 0 <= i < hh.len() && hh[i] == k;
                    assert(h[i] < n - 1);
                }
            }
        }
    }
}

/// The search law: an empty query finds nothing; else the matches come
/// in increasing order, each an index of the transcript, and an index is
/// a match exactly when its entry's text holds the query, ignoring case.
pub proof fn lemma_search_hits(es: Seq<Entry>, query: Seq<char>)
    requires
        es.len() <= usize::MAX,
    ensures
        query.len() == 0 ==> search_hits(es, query).len() == 0,
        forall|i: int| 0 <= i < search_hits(es, query).len() ==> #[trigger] search_hits(es, query)[i] < es.len(),
        forall|i: int, j: int|
            0 <= i < j < search_hits(es, query).len() ==> #[trigger] search_hits(es, query)[i]
                < #[trigger] search_hits(es, query)[j],
        forall|k: usize|
            k < es.len() ==> (#[trigger] search_hits(es, query).contains(k) <==> query.len() > 0 && is_hit(
                es[k as int],
                lowercase(query),
            )),
{
    if query.len() > 0 {
        lemma_hits_upto(es, lowercase(query), es.len() as int);
    }
}

/// What search reads of each entry: an entry written by the user, the
/// agent or the client (its text), a tool call (its output) or a shell
/// command (its output) is a match exactly when that text, lowercased,
/// holds the lowercased query; compactions, retries and turn markers are
/// never matches.
pub proof fn lemma_search_reads_every_text(es: Seq<Entry>, query: Seq<char>, k: usize)
    requires
        es.len() <= usize::MAX,
        k < es.len(),
        query.len() > 0,
    ensures
        es[k as int] matches Entry::User(s) ==> (search_hits(es, query).contains(k) <==> contains_text(
            lowercase(s@),
            lowercase(query),
        )),
        es[k as int] matches Entry::Assistant(s) ==> (search_hits(es, query).contains(k) <==> contains_text(
            lowercase(s@),
            lowercase(query),
        )),
        es[k as int] matches Entry::Thinking(s) ==> (search_hits(es, query).contains(k) <==> contains_text(
            lowercase(s@),
            lowercase(query),
        )),
        es[k as int] matches Entry::Info(s) ==> (search_hits(es, query).contains(k) <==> contains_text(
            lowercase(s@),
            lowercase(query),
        )),
        es[k as int] matches Entry::Warn(s) ==> (search_hits(es, query).contains(k) <==> contains_text(
            lowercase(s@),
            lowercase(query),
        )),
        es[k as int] matches Entry::Error(s) ==> (search_hits(es, query).contains(k) <==> contains_text(
            lowercase(s@),
            lowercase(query),
        )),
        es[k as int] matches Entry::ToolCall(tc) ==> (search_hits(es, query).contains(k) <==> contains_text(
            lowercase(tc.output@),
            lowercase(query),
        )),
        es[k as int] matches Entry::BashExec(bx) ==> (search_hits(es, query).contains(k) <==> contains_text(
            lowercase(bx.output@),
            lowercase(query),
        )),
        (es[k as int] is Compaction || es[k as int] is Retry || es[k as int] is TurnMarker) ==> !search_hits(
            es,
            query,
        ).contains(k),
{
    lemma_search_hits(es, query);
}

/// Scan the transcript for a case-insensitive substring: the indices of
/// the matching entries, in order; none for an empty query.
pub fn transcript_hits(transcript: &Transcript, query: &str) -> (r: Vec<usize>)
    ensures
        r@ == search_hits(transcript@, query@),
        query@.len() == 0 ==> r@ == Seq::<usize>::empty(),
        query@.len() > 0 ==> r@ == hits_upto(transcript@, lowercase(query@), transcript@.len() as int),
{
    let mut hits: Vec<usize> = Vec::new();
    if query.unicode_len() == 0 {
        return hits;
    }
    let needle = to_lowercase(query);
    let es = transcript.entries();
    let mut i: usize = 0;
    while i < es.len()
        invariant
            es@ == transcript@,
            needle@ == lowercase(query@),
            i <= es@.len(),
            hits@ == hits_upto(es@, needle@, i as int),
        decreases es@.len() - i,
    {
        match searchable_text(&es[i]) {
            Some(h) => {
                let hay = to_lowercase(h.as_str());
                if crate::text::find(hay.as_str(), needle.as_str()).is_some() {
                    hits.push(i);
                }
            },
            None => {},
        }
        i += 1;
    }
    hits
}

/// The id of the most recent tool call.
pub open spec fn last_tool_id_spec(es: Seq<Entry>) -> Option<Seq<char>>
    decreases es.len(),
{
    if es.len() == 0 {
        None
    } else {
        match es.last() {
            Entry::ToolCall(tc) => Some(tc.id@),
            _ => last_tool_id_spec(es.drop_last()),
        }
    }
}

/// The id of the most recent tool call in the transcript, if any.
pub fn last_tool_id(transcript: &Transcript) -> (r: Option<String>)
    ensures
        match r {
            Some(s) => last_tool_id_spec(transcript@) == Some(s@),
            None => last_tool_id_spec(transcript@) is None,
        },
{
    let es = transcript.entries();
    let mut i = es.len();
    assert(es@.take(i as int) =~= es@);
    while i > 0
        invariant
            i <= es@.len(),
            es@ == transcript@,
            last_tool_id_spec(es@) == last_tool_id_spec(es@.take(i as int)),
        decreases i,
    {
        proof {
            assert(es@.take(i as int).drop_last() =~= es@.take(i - 1));
        }
        match &es[i - 1] {
            Entry::ToolCall(tc) => {
                return Some(tc.id.clone());
            },
            _ => {},
        }
        i -= 1;
    }
    proof {
        assert(es@.take(0) =~= Seq::<Entry>::empty());
    }
    None
}

} // verus!

verus! {

/// The text of a plain-text entry (empty for the others).
pub open spec fn text_of(e: Entry) -> Seq<char> {
    match e {
        Entry::User(s) => s@,
        Entry::Thinking(s) => s@,
        Entry::Assistant(s) => s@,
        Entry::Info(s) => s@,
        Entry::Warn(s) => s@,
        Entry::Error(s) => s@,
        _ => Seq::empty(),
    }
}

/// `b` is `a` with only entry `i` possibly replaced.
pub open spec fn same_except(a: Seq<Entry>, b: Seq<Entry>, i: int) -> bool {
    a.len() == b.len() && 0 <= i < a.len() && forall|j: int|
        0 <= j < a.len() && j != i ==> #[trigger] b[j] == a[j]
}

/// The index of the last assistant entry, if any.
pub open spec fn last_assistant_at(es: Seq<Entry>) -> Option<int>
    decreases es.len(),
{
    if es.len() == 0 {
        None
    } else if es.last() is Assistant {
        Some(es.len() - 1)
    } else {
        last_assistant_at(es.drop_last())
    }
}

/// The last assistant entry found is one.
pub proof fn lemma_last_assistant_at(es: Seq<Entry>)
    ensures
        last_assistant_at(es) matches Some(i) ==> 0 <= i < es.len() && es[i] is Assistant,
    decreases es.len(),
{
    if es.len() > 0 && !(es.last() is Assistant) {
        lemma_last_assistant_at(es.drop_last());
    }
}

/// `b` is `a` with assistant entry `i` now reading `text`, one mutation
/// counted.
pub open spec fn rewritten(a: Transcript, b: Transcript, i: int, text: Seq<char>) -> bool {
    &&& bumped(a, b)
    &&& same_except(a@, b@, i)
    &&& b@[i] matches Entry::Assistant(s) && s@ == text
}

/// `b` is `a` with one entry appended.
pub open spec fn appended(a: Seq<Entry>, b: Seq<Entry>) -> bool {
    b.len() == a.len() + 1 && b.drop_last() == a
}

/// Entry `i` is the last tool call with id `id`.
pub open spec fn is_last_tool(es: Seq<Entry>, id: Seq<char>, i: int) -> bool {
    &&& 0 <= i < es.len()
    &&& es[i] matches Entry::ToolCall(tc) && tc.id@ == id
    &&& forall|j: int| i < j < es.len() ==> !(#[trigger] es[j] matches Entry::ToolCall(tc) && tc.id@ == id)
}

/// Entry `i` is the last retry entry for attempt `attempt`.
pub open spec fn is_last_retry(es: Seq<Entry>, attempt: u32, i: int) -> bool {
    &&& 0 <= i < es.len()
    &&& es[i] matches Entry::Retry(r) && r.attempt == attempt
    &&& forall|j: int| i < j < es.len() ==> !(#[trigger] es[j] matches Entry::Retry(r) && r.attempt == attempt)
}

/// Entry `i` is the last compaction still running.
pub open spec fn is_last_running_compaction(es: Seq<Entry>, i: int) -> bool {
    &&& 0 <= i < es.len()
    &&& es[i] matches Entry::Compaction(c) && c.state is Running
    &&& forall|j: int| i < j < es.len() ==> !(#[trigger] es[j] matches Entry::Compaction(c) && c.state is Running)
}

/// `b` counted one mutation more than `a`.
pub open spec fn bumped(a: Transcript, b: Transcript) -> bool {
    b.epoch_spec() == a.epoch_spec().wrapping_add(1)
}

/// `b` is `a`, entries and counter alike.
pub open spec fn untouched(a: Transcript, b: Transcript) -> bool {
    b@ == a@ && b.epoch_spec() == a.epoch_spec()
}

/// `b` is `a` with assistant text `delta` streamed in: the last entry
/// grows when it is assistant text, else a new assistant entry starts.
pub open spec fn streamed_assistant(a: Transcript, b: Transcript, delta: Seq<char>) -> bool {
    &&& bumped(a, b)
    &&& if a@.len() > 0 && a@.last() is Assistant {
        &&& same_except(a@, b@, a@.len() - 1)
        &&& b@.last() is Assistant
        &&& text_of(b@.last()) == text_of(a@.last()) + delta
    } else {
        &&& appended(a@, b@)
        &&& b@.last() is Assistant
        &&& text_of(b@.last()) == delta
    }
}

/// `b` is `a` with thinking text `delta` streamed in: the last entry
/// grows when it is thinking, else a new thinking entry starts.
pub open spec fn streamed_thinking(a: Transcript, b: Transcript, delta: Seq<char>) -> bool {
    &&& bumped(a, b)
    &&& if a@.len() > 0 && a@.last() is Thinking {
        &&& same_except(a@, b@, a@.len() - 1)
        &&& b@.last() is Thinking
        &&& text_of(b@.last()) == text_of(a@.last()) + delta
    } else {
        &&& appended(a@, b@)
        &&& b@.last() is Thinking
        &&& text_of(b@.last()) == delta
    }
}

impl Transcript {
    /// Take entry `i` out, leaving the others.
    fn take_at(&mut self, i: usize) -> (e: Entry)
        requires
            i < old(self)@.len(),
        ensures
            e == old(self)@[i as int],
            final(self)@ == old(self)@.remove(i as int),
            final(self).epoch_spec() == old(self).epoch_spec(),
    {
        self.entries.remove(i)
    }

    /// Put `e` back at `i` and count one mutation.
    fn put_at(&mut self, i: usize, e: Entry)
        requires
            i <= old(self)@.len(),
        ensures
            final(self)@ == old(self)@.insert(i as int, e),
            final(self).epoch_spec() == old(self).epoch_spec().wrapping_add(1),
    {
        self.entries.insert(i, e);
        self.epoch = self.epoch.wrapping_add(1);
    }

    /// The index of the last assistant entry, if any.
    pub fn last_assistant_index(&self) -> (r: Option<usize>)
        ensures
            match r {
                Some(i) => last_assistant_at(self@) == Some(i as int),
                None => last_assistant_at(self@) is None,
            },
    {
        let mut i = self.entries.len();
        proof {
            assert(self@.take(i as int) =~= self@);
        }
        while i > 0
            invariant
                i <= self@.len(),
                self.entries@ == self@,
                last_assistant_at(self@) == last_assistant_at(self@.take(i as int)),
            decreases i,
        {
            proof {
                assert(self@.take(i as int).drop_last() =~= self@.take(i - 1));
            }
            if let Entry::Assistant(_) = &self.entries[i - 1] {
                return Some(i - 1);
            }
            i -= 1;
        }
        proof {
            assert(self@.take(0) =~= Seq::<Entry>::empty());
        }
        None
    }

    /// Replace the text of assistant entry `i` by `text`, counting one
    /// mutation.
    pub fn rewrite_assistant(&mut self, i: usize, text: String)
        requires
            i < old(self)@.len(),
            old(self)@[i as int] is Assistant,
        ensures
            rewritten(*old(self), *final(self), i as int, text@),
    {
        let _ = self.take_at(i);
        self.put_at(i, Entry::Assistant(text));
        proof {
            assert(old(self)@.remove(i as int).insert(i as int, final(self)@[i as int]) =~= final(self)@);
        }
    }

    /// Stream assistant text: extend the last entry when it is assistant
    /// text, else start a new assistant entry.
    pub fn append_assistant(&mut self, delta: &str)
        ensures
            streamed_assistant(*old(self), *final(self), delta@),
    {
        let n = self.entries.len();
        if n > 0 {
            if let Entry::Assistant(_) = &self.entries[n - 1] {
                let e = self.take_at(n - 1);
                if let Entry::Assistant(mut s) = e {
                    s.append(delta);
                    self.put_at(n - 1, Entry::Assistant(s));
                    proof {
                        assert(old(self)@.remove(n - 1).insert(n - 1, final(self)@[n - 1])
                            =~= final(self)@);
                    }
                }
                return;
            }
        }
        self.push(Entry::Assistant(String::from_str(delta)));
        assert(self@.drop_last() =~= old(self)@);
    }

    /// Stream thinking text: extend the last entry when it is thinking,
    /// else start a new thinking entry.
    pub fn append_thinking(&mut self, delta: &str)
        ensures
            streamed_thinking(*old(self), *final(self), delta@),
    {
        let n = self.entries.len();
        if n > 0 {
            if let Entry::Thinking(_) = &self.entries[n - 1] {
                let e = self.take_at(n - 1);
                if let Entry::Thinking(mut s) = e {
                    s.append(delta);
                    self.put_at(n - 1, Entry::Thinking(s));
                }
                return;
            }
        }
        self.push(Entry::Thinking(String::from_str(delta)));
        assert(self@.drop_last() =~= old(self)@);
    }
}

} // verus!

verus! {

/// Entry `e` is a tool call with id `id`.
pub open spec fn is_tool_with_id(e: Entry, id: Seq<char>) -> bool {
    e matches Entry::ToolCall(tc) && tc.id@ == id
}

/// `b` is tool call `a` with new output, and possibly a new status and
/// error flag; everything else is kept.
pub open spec fn tool_updated(a: ToolCall, b: ToolCall, output: Seq<char>) -> bool {
    &&& b.id == a.id
    &&& b.name == a.name
    &&& b.args == a.args
    &&& b.output@ == output
    &&& b.expanded == a.expanded
}

/// `b` is `a` with a new running tool call appended: id `id`, tool
/// `name`, arguments `args`, no output yet, collapsed.
pub open spec fn tool_started(a: Transcript, b: Transcript, id: Seq<char>, name: Seq<char>, args: Json) -> bool {
    &&& bumped(a, b)
    &&& appended(a@, b@)
    &&& b@.last() matches Entry::ToolCall(tc) && tc.id@ == id && tc.name@ == name && tc.args == args
        && tc.output@ == Seq::<char>::empty() && tc.status == ToolStatus::Running && !tc.is_error
        && !tc.expanded
}

/// `b` is `a` with the output of the last tool call with id `id` replaced
/// by `output`, its status and error flag kept; with no such call, `b` is
/// `a`.
pub open spec fn tool_output_updated(a: Transcript, b: Transcript, id: Seq<char>, output: Seq<char>) -> bool {
    if exists|i: int| is_last_tool(a@, id, i) {
        let i = choose|i: int| is_last_tool(a@, id, i);
        let t = a@[i]->ToolCall_0;
        &&& bumped(a, b)
        &&& same_except(a@, b@, i)
        &&& b@[i] matches Entry::ToolCall(u) && tool_updated(t, u, output) && u.status == t.status
            && u.is_error == t.is_error
    } else {
        untouched(a, b)
    }
}

/// `b` is `a` with the last tool call with id `id` finished: its final
/// `output`, and its status and error flag from `is_error`; with no such
/// call, `b` is `a`.
pub open spec fn tool_finished(a: Transcript, b: Transcript, id: Seq<char>, output: Seq<char>, is_error: bool) -> bool {
    if exists|i: int| is_last_tool(a@, id, i) {
        let i = choose|i: int| is_last_tool(a@, id, i);
        let t = a@[i]->ToolCall_0;
        &&& bumped(a, b)
        &&& same_except(a@, b@, i)
        &&& b@[i] matches Entry::ToolCall(u) && tool_updated(t, u, output) && u.status == (if is_error {
            ToolStatus::Failed
        } else {
            ToolStatus::Succeeded
        }) && u.is_error == is_error
    } else {
        untouched(a, b)
    }
}

/// `b` is `a` with the expanded flag of the last tool call with id `id`
/// flipped; with no such call, `b` is `a`.
pub open spec fn tool_toggled(a: Transcript, b: Transcript, id: Seq<char>) -> bool {
    if exists|i: int| is_last_tool(a@, id, i) {
        let i = choose|i: int| is_last_tool(a@, id, i);
        let t = a@[i]->ToolCall_0;
        &&& bumped(a, b)
        &&& same_except(a@, b@, i)
        &&& b@[i] matches Entry::ToolCall(u) && u.id == t.id && u.name == t.name && u.args == t.args
            && u.output == t.output && u.status == t.status && u.is_error == t.is_error && u.expanded
            == !t.expanded
    } else {
        untouched(a, b)
    }
}

impl Transcript {
    /// The index of the last tool call with id `id`.
    fn find_last_tool(&self, id: &str) -> (r: Option<usize>)
        ensures
            match r {
                Some(i) => is_last_tool(self@, id@, i as int),
                None => forall|j: int| 0 <= j < self@.len() ==> !is_tool_with_id(#[trigger] self@[j], id@),
            },
    {
        let mut i = self.entries.len();
        while i > 0
            invariant
                i <= self@.len(),
                forall|j: int| i <= j < self@.len() ==> !is_tool_with_id(#[trigger] self@[j], id@),
            decreases i,
        {
            if let Entry::ToolCall(tc) = &self.entries[i - 1] {
                if crate::text::str_eq(tc.id.as_str(), id) {
                    return Some(i - 1);
                }
            }
            i -= 1;
        }
        None
    }

    /// A tool call started: append it, running, with no output yet.
    pub fn start_tool(&mut self, id: String, name: String, args: Json)
        ensures
            tool_started(*old(self), *final(self), id@, name@, args),
    {
        self.push(
            Entry::ToolCall(
                ToolCall {
                    id,
                    name,
                    args,
                    output: String::new(),
                    status: ToolStatus::Running,
                    is_error: false,
                    expanded: false,
                },
            ),
        );
        assert(self@.drop_last() =~= old(self)@);
    }

    /// Streamed partial output of a running tool: it replaces the output
    /// shown on the last tool call with that id.
    pub fn update_tool_output(&mut self, id: &str, output: &str)
        ensures
            tool_output_updated(*old(self), *final(self), id@, output@),
    {
        match self.find_last_tool(id) {
            Some(i) => {
                proof {
                    lemma_last_tool_unique(self@, id@, i as int);
                }
                let e = self.take_at(i);
                if let Entry::ToolCall(mut tc) = e {
                    tc.output = String::from_str(output);
                    self.put_at(i, Entry::ToolCall(tc));
                    proof {
                        assert forall|j: int| 0 <= j < old(self)@.len() && j != i implies #[trigger] self@[j] == old(self)@[j] by {
                            if j < i {
                            } else {
                            }
                        }
                    }
                }
            },
            None => {
                proof {
                    assert forall|i: int| !is_last_tool(old(self)@, id@, i) by {
                        if 0 <= i < old(self)@.len() {
                            assert(!is_tool_with_id(old(self)@[i], id@));
                        }
                    }
                }
            },
        }
    }

    /// A tool call ended: the last tool call with that id gets its final
    /// output, and its status and error flag from `is_error`.
    pub fn finish_tool(&mut self, id: &str, output: &str, is_error: bool)
        ensures
            tool_finished(*old(self), *final(self), id@, output@, is_error),
    {
        match self.find_last_tool(id) {
            Some(i) => {
                proof {
                    lemma_last_tool_unique(self@, id@, i as int);
                }
                let e = self.take_at(i);
                if let Entry::ToolCall(mut tc) = e {
                    tc.output = String::from_str(output);
                    tc.status = if is_error {
                        ToolStatus::Failed
                    } else {
                        ToolStatus::Succeeded
                    };
                    tc.is_error = is_error;
                    self.put_at(i, Entry::ToolCall(tc));
                    proof {
                        assert forall|j: int| 0 <= j < old(self)@.len() && j != i implies #[trigger] self@[j] == old(self)@[j] by {
                            if j < i {
                            } else {
                            }
                        }
                    }
                }
            },
            None => {
                proof {
                    assert forall|i: int| !is_last_tool(old(self)@, id@, i) by {
                        if 0 <= i < old(self)@.len() {
                            assert(!is_tool_with_id(old(self)@[i], id@));
                        }
                    }
                }
            },
        }
    }

    /// Flip the expanded flag of the last tool call with id `id`.
    pub fn toggle_tool_expanded(&mut self, id: &str)
        ensures
            tool_toggled(*old(self), *final(self), id@),
    {
        match self.find_last_tool(id) {
            Some(i) => {
                proof {
                    lemma_last_tool_unique(self@, id@, i as int);
                }
                let e = self.take_at(i);
                if let Entry::ToolCall(mut tc) = e {
                    tc.expanded = !tc.expanded;
                    self.put_at(i, Entry::ToolCall(tc));
                    proof {
                        assert forall|j: int| 0 <= j < old(self)@.len() && j != i implies #[trigger] self@[j] == old(self)@[j] by {
                            if j < i {
                            } else {
                            }
                        }
                    }
                }
            },
            None => {
                proof {
                    assert forall|i: int| !is_last_tool(old(self)@, id@, i) by {
                        if 0 <= i < old(self)@.len() {
                            assert(!is_tool_with_id(old(self)@[i], id@));
                        }
                    }
                }
            },
        }
    }
}

/// The last tool call with an id is unique, so `choose` finds it.
pub proof fn lemma_last_tool_unique(es: Seq<Entry>, id: Seq<char>, i: int)
    requires
        is_last_tool(es, id, i),
    ensures
        (choose|k: int| is_last_tool(es, id, k)) == i,
{
    let k = choose|k: int| is_last_tool(es, id, k);
    assert(is_last_tool(es, id, k));
    if k < i {
        assert(!(es[i] matches Entry::ToolCall(tc) && tc.id@ == id));
    } else if k > i {
        assert(!(es[k] matches Entry::ToolCall(tc) && tc.id@ == id));
    }
}

} // verus!

verus! {

impl Transcript {
    /// An automatic retry is waiting: append its entry.
    pub fn push_retry_waiting(&mut self, attempt: u32, max_attempts: u32, delay_ms: u64, error: String)
        ensures
            appended(old(self)@, final(self)@),
            final(self)@.last() matches Entry::Retry(r) && r.attempt == attempt && r.max_attempts
                == max_attempts && r.state == (RetryState::Waiting { delay_ms, error }),
            final(self).epoch_spec() == old(self).epoch_spec().wrapping_add(1),
    {
        self.push(Entry::Retry(Retry { attempt, max_attempts, state: RetryState::Waiting { delay_ms, error } }));
        assert(self@.drop_last() =~= old(self)@);
    }

    /// An automatic retry ended: the last retry entry for `attempt` takes
    /// the outcome `state`.
    pub fn resolve_retry(&mut self, attempt: u32, state: RetryState)
        ensures
            (exists|i: int| is_last_retry(old(self)@, attempt, i)) ==> ({
                let i = choose|i: int| is_last_retry(old(self)@, attempt, i);
                let a = old(self)@[i]->Retry_0;
                &&& same_except(old(self)@, final(self)@, i)
                &&& final(self)@[i] matches Entry::Retry(b) && b.attempt == a.attempt
                    && b.max_attempts == a.max_attempts && b.state == state
                &&& final(self).epoch_spec() == old(self).epoch_spec().wrapping_add(1)
            }),
            !(exists|i: int| is_last_retry(old(self)@, attempt, i)) ==> final(self)@ == old(self)@
                && final(self).epoch_spec() == old(self).epoch_spec(),
    {
        let mut i = self.entries.len();
        while i > 0
            invariant
                i <= self@.len(),
                self@ == old(self)@,
                self.epoch_spec() == old(self).epoch_spec(),
                forall|j: int| i <= j < self@.len() ==> !(#[trigger] self@[j] matches Entry::Retry(r) && r.attempt == attempt),
            decreases i,
        {
            let hit = match &self.entries[i - 1] {
                Entry::Retry(r) => r.attempt == attempt,
                _ => false,
            };
            if hit {
                let k = i - 1;
                proof {
                    assert(is_last_retry(self@, attempt, k as int));
                    let c = choose|c: int| is_last_retry(old(self)@, attempt, c);
                    assert(is_last_retry(old(self)@, attempt, c));
                    if c < k {
                        assert(!(old(self)@[k as int] matches Entry::Retry(r) && r.attempt == attempt));
                    } else if c > k {
                        assert(!(old(self)@[c] matches Entry::Retry(r) && r.attempt == attempt));
                    }
                }
                let e = self.take_at(k);
                if let Entry::Retry(mut r) = e {
                    r.state = state;
                    self.put_at(k, Entry::Retry(r));
                    proof {
                        assert forall|j: int| 0 <= j < old(self)@.len() && j != k implies #[trigger] self@[j] == old(self)@[j] by {
                            if j < k {
                            } else {
                            }
                        }
                    }
                }
                return;
            }
            i -= 1;
        }
        proof {
            assert forall|c: int| !is_last_retry(old(self)@, attempt, c) by {
                if 0 <= c < old(self)@.len() {
                    assert(!(old(self)@[c] matches Entry::Retry(r) && r.attempt == attempt));
                }
            }
        }
    }

    /// A context compaction started: append its entry, running.
    pub fn push_compaction_start(&mut self, reason: String)
        ensures
            appended(old(self)@, final(self)@),
            final(self)@.last() matches Entry::Compaction(c) && c.reason == reason && c.state is Running,
            final(self).epoch_spec() == old(self).epoch_spec().wrapping_add(1),
    {
        self.push(Entry::Compaction(Compaction { reason, state: CompactionState::Running }));
        assert(self@.drop_last() =~= old(self)@);
    }

    /// A context compaction ended: the last running compaction takes the
    /// reason and outcome; with none running, a finished entry is appended.
    pub fn finish_compaction(&mut self, reason: String, state: CompactionState)
        ensures
            final(self).epoch_spec() == old(self).epoch_spec().wrapping_add(1),
            (exists|i: int| is_last_running_compaction(old(self)@, i)) ==> ({
                let i = choose|i: int| is_last_running_compaction(old(self)@, i);
                &&& same_except(old(self)@, final(self)@, i)
                &&& final(self)@[i] == Entry::Compaction(Compaction { reason, state })
            }),
            !(exists|i: int| is_last_running_compaction(old(self)@, i)) ==> appended(
                old(self)@,
                final(self)@,
            ) && final(self)@.last() == Entry::Compaction(Compaction { reason, state }),
    {
        let mut i = self.entries.len();
        while i > 0
            invariant
                i <= self@.len(),
                self@ == old(self)@,
                self.epoch_spec() == old(self).epoch_spec(),
                forall|j: int| i <= j < self@.len() ==> !(#[trigger] self@[j] matches Entry::Compaction(c) && c.state is Running),
            decreases i,
        {
            let hit = match &self.entries[i - 1] {
                Entry::Compaction(c) => match c.state {
                    CompactionState::Running => true,
                    _ => false,
                },
                _ => false,
            };
            if hit {
                let k = i - 1;
                proof {
                    assert(is_last_running_compaction(self@, k as int));
                    let c = choose|c: int| is_last_running_compaction(old(self)@, c);
                    assert(is_last_running_compaction(old(self)@, c));
                    if c < k {
                        assert(!(old(self)@[k as int] matches Entry::Compaction(x) && x.state is Running));
                    } else if c > k {
                        assert(!(old(self)@[c] matches Entry::Compaction(x) && x.state is Running));
                    }
                }
                let _ = self.take_at(k);
                self.put_at(k, Entry::Compaction(Compaction { reason, state }));
                proof {
                    assert forall|j: int| 0 <= j < old(self)@.len() && j != k implies #[trigger] self@[j] == old(self)@[j] by {
                        if j < k {
                        } else {
                        }
                    }
                }
                return;
            }
            i -= 1;
        }
        proof {
            assert forall|c: int| !is_last_running_compaction(old(self)@, c) by {
                if 0 <= c < old(self)@.len() {
                    assert(!(old(self)@[c] matches Entry::Compaction(x) && x.state is Running));
                }
            }
        }
        self.push(Entry::Compaction(Compaction { reason, state }));
        assert(self@.drop_last() =~= old(self)@);
    }
}

} // verus!
