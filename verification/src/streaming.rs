//! The streaming aggregator: folding an ordered sequence of partial response
//! fragments into one complete response.
//!
//! The first fragment establishes the set of choice indices and each
//! choice's starting role and text; every later fragment appends incremental
//! text to the entry with the same index and overwrites its finish reason
//! (last write wins). A choice never announced by the first fragment is
//! ignored. The fold is pure: the caller hands in the already-received
//! fragments and the clock reading to stamp the response with.

use vstd::pervasive::unreached;
use vstd::prelude::*;
use vstd::string::StringExecFns;

use crate::llm::LlmError;
use crate::models::{
    ChatCompletionChoice, ChatCompletionResponse, ChatMessage, TextCompletionChoice,
    TextCompletionResponse,
};

verus! {

/// A chunk of a streaming chat completion response.
#[derive(Debug)]
pub struct ChatCompletionChunk {
    /// The ID of the completion.
    pub id: String,
    /// The type of object (always "chat.completion.chunk").
    pub object: String,
    /// The timestamp of the chunk (Unix timestamp in seconds).
    pub created: u64,
    /// The model used for the completion.
    pub model: String,
    /// The generated choices.
    pub choices: Vec<ChatCompletionStreamChoice>,
}

/// A choice in a streaming chat completion response.
#[derive(Debug)]
pub struct ChatCompletionStreamChoice {
    /// The index of this choice.
    pub index: usize,
    /// The delta content for this chunk.
    pub delta: ChatMessageDelta,
    /// The reason the generation stopped, if applicable.
    pub finish_reason: Option<String>,
}

/// A delta for a chat message in a streaming response.
#[derive(Debug)]
pub struct ChatMessageDelta {
    /// The role of the message sender, if this is the first chunk.
    pub role: Option<String>,
    /// The content delta for this chunk.
    pub content: Option<String>,
}

/// A chunk of a streaming text completion response.
#[derive(Debug)]
pub struct TextCompletionChunk {
    /// The ID of the completion.
    pub id: String,
    /// The type of object (always "text_completion.chunk").
    pub object: String,
    /// The timestamp of the chunk (Unix timestamp in seconds).
    pub created: u64,
    /// The model used for the completion.
    pub model: String,
    /// The generated choices.
    pub choices: Vec<TextCompletionStreamChoice>,
}

/// A choice in a streaming text completion response.
#[derive(Debug)]
pub struct TextCompletionStreamChoice {
    /// The index of this choice.
    pub index: usize,
    /// The text delta for this chunk.
    pub text: String,
    /// The reason the generation stopped, if applicable.
    pub finish_reason: Option<String>,
}

/// The position of the first `Err` item, or the length when every item is
/// `Ok`.
pub open spec fn first_err_idx<T>(items: Seq<Result<T, LlmError>>) -> int
    decreases items.len(),
{
    if items.len() == 0 {
        0
    } else if items[0] is Err {
        0
    } else {
        1 + first_err_idx(items.drop_first())
    }
}

/// `first_err_idx` points at the first `Err`, after only `Ok` items, and at
/// the length exactly when there is no `Err`.
pub proof fn lemma_first_err_idx<T>(items: Seq<Result<T, LlmError>>)
    ensures
        0 <= first_err_idx(items) <= items.len(),
        forall|k: int| 0 <= k < first_err_idx(items) ==> !(#[trigger] items[k] is Err),
        first_err_idx(items) < items.len() ==> items[first_err_idx(items)] is Err,
    decreases items.len(),
{
    if items.len() > 0 && !(items[0] is Err) {
        lemma_first_err_idx(items.drop_first());
        let j = first_err_idx(items);
        assert forall|k: int| 0 <= k < j implies !(#[trigger] items[k] is Err) by {
            if k > 0 {
                assert(items.drop_first()[k - 1] == items[k]);
            }
        }
        if j < items.len() {
            assert(items.drop_first()[j - 1] == items[j]);
        }
    }
}

/// One accumulating choice of a chat stream: its index, role, concatenated
/// content, and last recorded finish reason.
pub ghost struct ChatAcc {
    pub index: int,
    pub role: Seq<char>,
    pub content: Seq<char>,
    pub finish: Option<Seq<char>>,
}

/// The accumulator entry that the first fragment establishes for one choice:
/// the role defaults to "assistant", content and finish reason come from the
/// fragment.
pub open spec fn chat_init_entry(c: ChatCompletionStreamChoice) -> ChatAcc {
    ChatAcc {
        index: c.index as int,
        role: match c.delta.role {
            Some(r) => r@,
            None => "assistant"@,
        },
        content: match c.delta.content {
            Some(t) => t@,
            None => Seq::empty(),
        },
        finish: match c.finish_reason {
            Some(f) => Some(f@),
            None => None,
        },
    }
}

/// The accumulator established by the first fragment, in choice order.
pub open spec fn chat_init(choices: Seq<ChatCompletionStreamChoice>) -> Seq<ChatAcc> {
    choices.map_values(|c: ChatCompletionStreamChoice| chat_init_entry(c))
}

/// The position of the first accumulator entry with index `idx`, or -1.
pub open spec fn acc_find(acc: Seq<ChatAcc>, idx: int) -> int
    decreases acc.len(),
{
    if acc.len() == 0 {
        -1
    } else if acc[0].index == idx {
        0
    } else {
        let r = acc_find(acc.drop_first(), idx);
        if r < 0 {
            -1
        } else {
            r + 1
        }
    }
}

/// `acc_find` returns exactly the first matching position, or -1 when no
/// entry matches.
pub proof fn lemma_acc_find(acc: Seq<ChatAcc>, idx: int)
    ensures
        acc_find(acc, idx) == -1 <==> (forall|k: int|
            0 <= k < acc.len() ==> (#[trigger] acc[k]).index != idx),
        acc_find(acc, idx) != -1 ==> {
            let j = acc_find(acc, idx);
            &&& 0 <= j < acc.len()
            &&& acc[j].index == idx
            &&& forall|k: int| 0 <= k < j ==> (#[trigger] acc[k]).index != idx
        },
    decreases acc.len(),
{
    if acc.len() > 0 && acc[0].index != idx {
        lemma_acc_find(acc.drop_first(), idx);
        assert forall|k: int|
            0 <= k < acc.drop_first().len() implies acc.drop_first()[k] == acc[k + 1] by {}
        if acc_find(acc.drop_first(), idx) == -1 {
            assert forall|k: int| 0 <= k < acc.len() implies (#[trigger] acc[k]).index != idx by {
                if k > 0 {
                    assert(acc.drop_first()[k - 1] == acc[k]);
                }
            }
        } else {
            let jp = acc_find(acc.drop_first(), idx);
            assert(acc.drop_first()[jp] == acc[jp + 1]);
            assert forall|k: int| 0 <= k < jp + 1 implies (#[trigger] acc[k]).index != idx by {
                if k > 0 {
                    assert(acc.drop_first()[k - 1] == acc[k]);
                }
            }
        }
    }
}

/// The accumulator after one later-fragment choice: locate the entry with
/// the same index; append the content delta, if any; record a non-absent
/// finish reason, overwriting any previous value. An unknown index changes
/// nothing.
pub open spec fn chat_apply_choice(acc: Seq<ChatAcc>, c: ChatCompletionStreamChoice) -> Seq<
    ChatAcc,
> {
    let j = acc_find(acc, c.index as int);
    if j < 0 {
        acc
    } else {
        let with_content = if c.delta.content is Some {
            acc.update(j, ChatAcc { content: acc[j].content + c.delta.content->0@, ..acc[j] })
        } else {
            acc
        };
        if c.finish_reason is Some {
            with_content.update(
                j,
                ChatAcc { finish: Some(c.finish_reason->0@), ..with_content[j] },
            )
        } else {
            with_content
        }
    }
}

/// The accumulator after the choices of one fragment, from position `i` on.
pub open spec fn chat_apply_choices(
    acc: Seq<ChatAcc>,
    cs: Seq<ChatCompletionStreamChoice>,
    i: int,
) -> Seq<ChatAcc>
    decreases cs.len() - i,
{
    if i < 0 || i >= cs.len() {
        acc
    } else {
        chat_apply_choices(chat_apply_choice(acc, cs[i]), cs, i + 1)
    }
}

/// The accumulator after the fragments from position `i` on.
pub open spec fn chat_fold_chunks(
    acc: Seq<ChatAcc>,
    chunks: Seq<ChatCompletionChunk>,
    i: int,
) -> Seq<ChatAcc>
    decreases chunks.len() - i,
{
    if i < 0 || i >= chunks.len() {
        acc
    } else {
        chat_fold_chunks(chat_apply_choices(acc, chunks[i].choices@, 0), chunks, i + 1)
    }
}

/// The fully folded accumulator of a chat stream: the first fragment
/// establishes the entries, the rest are applied in order.
pub open spec fn chat_collected(chunks: Seq<ChatCompletionChunk>) -> Seq<ChatAcc> {
    chat_fold_chunks(chat_init(chunks[0].choices@), chunks, 1)
}

/// One accumulating entry of a chat stream, as carried by the fold.
struct ChatAccEntry {
    index: usize,
    role: String,
    content: String,
    finish: Option<String>,
}

impl ChatAccEntry {
    spec fn view(&self) -> ChatAcc {
        ChatAcc {
            index: self.index as int,
            role: self.role@,
            content: self.content@,
            finish: match self.finish {
                Some(f) => Some(f@),
                None => None,
            },
        }
    }
}

/// The images of a sequence of accumulator entries.
spec fn acc_views(s: Seq<ChatAccEntry>) -> Seq<ChatAcc> {
    s.map_values(|t: ChatAccEntry| t.view())
}

/// Collect a chat completion stream into a single response.
///
/// The items are the received fragments in order; `now_unix` stamps the
/// response. An empty stream is a backend contract violation and fails with
/// `RequestFailed`; a stream carrying an error fails with the first such
/// error; otherwise the choices are folded as [`chat_collected`] says, and
/// token usage is reported absent.
#[verifier::loop_isolation(false)]
pub fn collect_chat_completion_stream(
    items: Vec<Result<ChatCompletionChunk, LlmError>>,
    now_unix: u64,
) -> (r: Result<ChatCompletionResponse, LlmError>)
    ensures
        items@.len() == 0 ==> (r matches Err(e) && e matches LlmError::RequestFailed(m) && m@
            == "Empty stream"@),
        items@.len() > 0 && first_err_idx(items@) < items@.len() ==> (r matches Err(e) && e
            == items@[first_err_idx(items@)]->Err_0),
        items@.len() > 0 && first_err_idx(items@) == items@.len() ==> ({
            let chunks = items@.map_values(|it: Result<ChatCompletionChunk, LlmError>| it->Ok_0);
            let acc = chat_collected(chunks);
            r matches Ok(resp) && {
                &&& resp.id@ == "stream-collected"@
                &&& resp.object@ == "chat.completion"@
                &&& resp.created == now_unix
                &&& resp.model@ == "unknown"@
                &&& resp.usage is None
                &&& resp.choices@.len() == acc.len()
                &&& forall|p: int|
                    0 <= p < acc.len() ==> {
                        let c = #[trigger] resp.choices@[p];
                        &&& c.index as int == acc[p].index
                        &&& c.message.role@ == acc[p].role
                        &&& c.message.content@ == acc[p].content
                        &&& c.message.name is None
                        &&& (c.finish_reason is Some <==> acc[p].finish is Some)
                        &&& (c.finish_reason matches Some(f) ==> acc[p].finish matches Some(g)
                            && f@ == g)
                    }
            }
        }),
{
    let mut buf = items;
    if buf.len() == 0 {
        return Err(LlmError::RequestFailed("Empty stream".to_owned()));
    }
    proof {
        lemma_first_err_idx(buf@);
    }
    let ghost items0 = buf@;
    let ghost chunks = buf@.map_values(|it: Result<ChatCompletionChunk, LlmError>| it->Ok_0);
    let n = buf.len();
    let mut e: usize = 0;
    while e < n
        invariant
            buf@ == items0,
            n == buf@.len(),
            e <= n,
            forall|k: int| 0 <= k < e ==> !(#[trigger] buf@[k] is Err),
        decreases n - e,
    {
        let found = match &buf[e] {
            Result::Err(_) => true,
            Result::Ok(_) => false,
        };
        if found {
            proof {
                lemma_first_err_idx(items0);
                assert(first_err_idx(items0) == e);
            }
            match buf.remove(e) {
                Result::Err(err) => {
                    return Err(err);
                },
                Result::Ok(_) => {
                    return unreached();
                },
            }
        }
        e += 1;
    }
    proof {
        lemma_first_err_idx(items0);
        assert(first_err_idx(items0) == items0.len());
    }
    // Every item is Ok: establish the accumulator from the first fragment.
    let mut acc: Vec<ChatAccEntry> = Vec::new();
    let first = match &buf[0] {
        Result::Ok(c) => c,
        Result::Err(_) => unreached(),
    };
    let mut ci: usize = 0;
    while ci < first.choices.len()
        invariant
            buf@ == items0,
            items0.len() > 0,
            items0[0] is Ok,
            first == items0[0]->Ok_0,
            ci <= first.choices@.len(),
            acc_views(acc@) == chat_init(first.choices@.take(ci as int)),
        decreases first.choices@.len() - ci,
    {
        let c = &first.choices[ci];
        let role = match &c.delta.role {
            Some(r) => r.clone(),
            None => "assistant".to_owned(),
        };
        let content = match &c.delta.content {
            Some(t) => t.clone(),
            None => String::new(),
        };
        let finish = match &c.finish_reason {
            Some(f) => Some(f.clone()),
            None => None,
        };
        acc.push(ChatAccEntry { index: c.index, role, content, finish });
        proof {
            assert(acc@.last().view() == chat_init_entry(first.choices@[ci as int]));
            assert forall|p: int| 0 <= p < acc@.len() implies acc_views(acc@)[p] == chat_init(
                first.choices@.take(ci + 1),
            )[p] by {
                assert(acc_views(acc@)[p] == acc@[p].view());
                assert(chat_init(first.choices@.take(ci + 1))[p] == chat_init_entry(
                    first.choices@.take(ci + 1)[p],
                ));
                if p < ci {
                    assert(acc_views(acc@.drop_last())[p] == acc@[p].view());
                    assert(chat_init(first.choices@.take(ci as int))[p] == chat_init_entry(
                        first.choices@.take(ci as int)[p],
                    ));
                }
            }
            assert(acc_views(acc@) =~= chat_init(first.choices@.take(ci + 1)));
        }
        ci += 1;
    }
    proof {
        assert(first.choices@.take(first.choices@.len() as int) =~= first.choices@);
        assert(chunks[0] == items0[0]->Ok_0);
    }
    // Apply the remaining fragments in order.
    let mut i: usize = 1;
    while i < buf.len()
        invariant
            buf@ == items0,
            items0.len() > 0,
            first_err_idx(items0) == items0.len(),
            chunks == items0.map_values(|it: Result<ChatCompletionChunk, LlmError>| it->Ok_0),
            1 <= i <= items0.len(),
            chat_fold_chunks(acc_views(acc@), chunks, i as int) == chat_collected(chunks),
        decreases items0.len() - i,
    {
        proof {
            lemma_first_err_idx(items0);
        }
        let chunk = match &buf[i] {
            Result::Ok(c) => c,
            Result::Err(_) => unreached(),
        };
        let ghost acc_at_chunk_start = acc_views(acc@);
        let mut k: usize = 0;
        while k < chunk.choices.len()
            invariant
                buf@ == items0,
                0 <= i < items0.len(),
                items0[i as int] is Ok,
                chunk == items0[i as int]->Ok_0,
                k <= chunk.choices@.len(),
                chat_apply_choices(acc_views(acc@), chunk.choices@, k as int)
                    == chat_apply_choices(acc_at_chunk_start, chunk.choices@, 0),
            decreases chunk.choices@.len() - k,
        {
            let c = &chunk.choices[k];
            proof {
                lemma_acc_find(acc_views(acc@), c.index as int);
            }
            let ghost acc_before = acc_views(acc@);
            // Locate the accumulator entry with this choice's index.
            let mut j: usize = 0;
            let mut found: bool = false;
            while j < acc.len() && !found
                invariant
                    0 <= j <= acc@.len(),
                    !found ==> forall|q: int|
                        0 <= q < j ==> (#[trigger] acc@[q]).index != c.index,
                    found ==> j < acc@.len() && acc@[j as int].index == c.index && forall|q: int|
                        0 <= q < j ==> (#[trigger] acc@[q]).index != c.index,
                decreases acc@.len() - j + (if found {
                    0int
                } else {
                    1int
                }),
            {
                if acc[j].index == c.index {
                    found = true;
                } else {
                    j += 1;
                }
            }
            if found {
                proof {
                    assert(acc_views(acc@)[j as int].index == c.index as int);
                    assert(acc_find(acc_before, c.index as int) == j);
                }
                let mut entry = acc.remove(j);
                if let Some(content) = &c.delta.content {
                    entry.content.append(content.as_str());
                }
                if c.finish_reason.is_some() {
                    entry.finish = match &c.finish_reason {
                        Some(f) => Some(f.clone()),
                        None => None,
                    };
                }
                acc.insert(j, entry);
                proof {
                    assert(acc_views(acc@) =~= chat_apply_choice(acc_before, *c));
                }
            } else {
                proof {
                    assert(acc_find(acc_before, c.index as int) == -1);
                    assert(acc_views(acc@) == chat_apply_choice(acc_before, *c));
                }
            }
            k += 1;
        }
        proof {
            assert(chunk.choices@.take(chunk.choices@.len() as int) =~= chunk.choices@);
        }
        i += 1;
    }
    // Emit the response: choices ordered by first-seen index, usage absent.
    let mut response_choices: Vec<ChatCompletionChoice> = Vec::new();
    let ghost final_acc = acc_views(acc@);
    while acc.len() > 0
        invariant
            response_choices@.len() + acc@.len() == final_acc.len(),
            acc_views(acc@) =~= final_acc.skip(response_choices@.len() as int),
            forall|p: int|
                0 <= p < response_choices@.len() ==> {
                    let c = #[trigger] response_choices@[p];
                    &&& c.index as int == final_acc[p].index
                    &&& c.message.role@ == final_acc[p].role
                    &&& c.message.content@ == final_acc[p].content
                    &&& c.message.name is None
                    &&& (c.finish_reason is Some <==> final_acc[p].finish is Some)
                    &&& (c.finish_reason matches Some(f) ==> final_acc[p].finish matches Some(g)
                        && f@ == g)
                },
        decreases acc@.len(),
    {
        let ghost k0 = response_choices@.len() as int;
        let ghost old_acc = acc@;
        let entry = acc.remove(0);
        proof {
            assert(acc_views(old_acc)[0] == old_acc[0].view());
            assert(entry.view() == final_acc[k0]);
        }
        response_choices.push(
            ChatCompletionChoice {
                index: entry.index,
                message: ChatMessage { role: entry.role, content: entry.content, name: None },
                finish_reason: entry.finish,
            },
        );
        proof {
            assert forall|p: int| 0 <= p < acc@.len() implies acc_views(acc@)[p] == final_acc.skip(
                k0 + 1,
            )[p] by {
                assert(acc_views(acc@)[p] == acc@[p].view());
                assert(acc@[p] == old_acc[p + 1]);
                assert(acc_views(old_acc)[p + 1] == old_acc[p + 1].view());
                assert(acc_views(old_acc)[p + 1] == final_acc.skip(k0)[p + 1]);
            }
            assert(acc_views(acc@) =~= final_acc.skip(response_choices@.len() as int));
        }
    }
    Ok(
        ChatCompletionResponse {
            id: "stream-collected".to_owned(),
            object: "chat.completion".to_owned(),
            created: now_unix,
            model: "unknown".to_owned(),
            choices: response_choices,
            usage: None,
        },
    )
}

/// One accumulating choice of a text stream: its index, concatenated text,
/// and last recorded finish reason.
pub ghost struct TextAcc {
    pub index: int,
    pub text: Seq<char>,
    pub finish: Option<Seq<char>>,
}

/// The accumulator entry that the first fragment establishes for one choice.
pub open spec fn text_init_entry(c: TextCompletionStreamChoice) -> TextAcc {
    TextAcc {
        index: c.index as int,
        text: c.text@,
        finish: match c.finish_reason {
            Some(f) => Some(f@),
            None => None,
        },
    }
}

/// The accumulator established by the first fragment, in choice order.
pub open spec fn text_init(choices: Seq<TextCompletionStreamChoice>) -> Seq<TextAcc> {
    choices.map_values(|c: TextCompletionStreamChoice| text_init_entry(c))
}

/// The position of the first accumulator entry with index `idx`, or -1.
pub open spec fn text_acc_find(acc: Seq<TextAcc>, idx: int) -> int
    decreases acc.len(),
{
    if acc.len() == 0 {
        -1
    } else if acc[0].index == idx {
        0
    } else {
        let r = text_acc_find(acc.drop_first(), idx);
        if r < 0 {
            -1
        } else {
            r + 1
        }
    }
}

/// `text_acc_find` returns exactly the first matching position, or -1 when
/// no entry matches.
pub proof fn lemma_text_acc_find(acc: Seq<TextAcc>, idx: int)
    ensures
        text_acc_find(acc, idx) == -1 <==> (forall|k: int|
            0 <= k < acc.len() ==> (#[trigger] acc[k]).index != idx),
        text_acc_find(acc, idx) != -1 ==> {
            let j = text_acc_find(acc, idx);
            &&& 0 <= j < acc.len()
            &&& acc[j].index == idx
            &&& forall|k: int| 0 <= k < j ==> (#[trigger] acc[k]).index != idx
        },
    decreases acc.len(),
{
    if acc.len() > 0 && acc[0].index != idx {
        lemma_text_acc_find(acc.drop_first(), idx);
        if text_acc_find(acc.drop_first(), idx) == -1 {
            assert forall|k: int| 0 <= k < acc.len() implies (#[trigger] acc[k]).index != idx by {
                if k > 0 {
                    assert(acc.drop_first()[k - 1] == acc[k]);
                }
            }
        } else {
            let jp = text_acc_find(acc.drop_first(), idx);
            assert(acc.drop_first()[jp] == acc[jp + 1]);
            assert forall|k: int| 0 <= k < jp + 1 implies (#[trigger] acc[k]).index != idx by {
                if k > 0 {
                    assert(acc.drop_first()[k - 1] == acc[k]);
                }
            }
        }
    }
}

/// The accumulator after one later-fragment choice: locate the entry with
/// the same index, append the text delta, and record a non-absent finish
/// reason, overwriting any previous value. An unknown index changes nothing.
pub open spec fn text_apply_choice(acc: Seq<TextAcc>, c: TextCompletionStreamChoice) -> Seq<
    TextAcc,
> {
    let j = text_acc_find(acc, c.index as int);
    if j < 0 {
        acc
    } else {
        let with_text = acc.update(j, TextAcc { text: acc[j].text + c.text@, ..acc[j] });
        if c.finish_reason is Some {
            with_text.update(j, TextAcc { finish: Some(c.finish_reason->0@), ..with_text[j] })
        } else {
            with_text
        }
    }
}

/// The accumulator after the choices of one fragment, from position `i` on.
pub open spec fn text_apply_choices(
    acc: Seq<TextAcc>,
    cs: Seq<TextCompletionStreamChoice>,
    i: int,
) -> Seq<TextAcc>
    decreases cs.len() - i,
{
    if i < 0 || i >= cs.len() {
        acc
    } else {
        text_apply_choices(text_apply_choice(acc, cs[i]), cs, i + 1)
    }
}

/// The accumulator after the fragments from position `i` on.
pub open spec fn text_fold_chunks(
    acc: Seq<TextAcc>,
    chunks: Seq<TextCompletionChunk>,
    i: int,
) -> Seq<TextAcc>
    decreases chunks.len() - i,
{
    if i < 0 || i >= chunks.len() {
        acc
    } else {
        text_fold_chunks(text_apply_choices(acc, chunks[i].choices@, 0), chunks, i + 1)
    }
}

/// The fully folded accumulator of a text stream.
pub open spec fn text_collected(chunks: Seq<TextCompletionChunk>) -> Seq<TextAcc> {
    text_fold_chunks(text_init(chunks[0].choices@), chunks, 1)
}

/// One accumulating entry of a text stream, as carried by the fold.
struct TextAccEntry {
    index: usize,
    text: String,
    finish: Option<String>,
}

impl TextAccEntry {
    spec fn view(&self) -> TextAcc {
        TextAcc {
            index: self.index as int,
            text: self.text@,
            finish: match self.finish {
                Some(f) => Some(f@),
                None => None,
            },
        }
    }
}

/// The images of a sequence of accumulator entries.
spec fn text_acc_views(s: Seq<TextAccEntry>) -> Seq<TextAcc> {
    s.map_values(|t: TextAccEntry| t.view())
}

/// Collect a text completion stream into a single response.
///
/// Same shape as the chat variant: an empty stream fails with
/// `RequestFailed`, a stream carrying an error fails with the first such
/// error, and otherwise the choices are folded as [`text_collected`] says,
/// with token usage reported absent.
#[verifier::loop_isolation(false)]
pub fn collect_text_completion_stream(
    items: Vec<Result<TextCompletionChunk, LlmError>>,
    now_unix: u64,
) -> (r: Result<TextCompletionResponse, LlmError>)
    ensures
        items@.len() == 0 ==> (r matches Err(e) && e matches LlmError::RequestFailed(m) && m@
            == "Empty stream"@),
        items@.len() > 0 && first_err_idx(items@) < items@.len() ==> (r matches Err(e) && e
            == items@[first_err_idx(items@)]->Err_0),
        items@.len() > 0 && first_err_idx(items@) == items@.len() ==> ({
            let chunks = items@.map_values(|it: Result<TextCompletionChunk, LlmError>| it->Ok_0);
            let acc = text_collected(chunks);
            r matches Ok(resp) && {
                &&& resp.id@ == "stream-collected"@
                &&& resp.object@ == "text_completion"@
                &&& resp.created == now_unix
                &&& resp.model@ == "unknown"@
                &&& resp.usage is None
                &&& resp.choices@.len() == acc.len()
                &&& forall|p: int|
                    0 <= p < acc.len() ==> {
                        let c = #[trigger] resp.choices@[p];
                        &&& c.index as int == acc[p].index
                        &&& c.text@ == acc[p].text
                        &&& (c.finish_reason is Some <==> acc[p].finish is Some)
                        &&& (c.finish_reason matches Some(f) ==> acc[p].finish matches Some(g)
                            && f@ == g)
                    }
            }
        }),
{
    let mut buf = items;
    if buf.len() == 0 {
        return Err(LlmError::RequestFailed("Empty stream".to_owned()));
    }
    proof {
        lemma_first_err_idx(buf@);
    }
    let ghost items0 = buf@;
    let ghost chunks = buf@.map_values(|it: Result<TextCompletionChunk, LlmError>| it->Ok_0);
    let n = buf.len();
    let mut e: usize = 0;
    while e < n
        invariant
            buf@ == items0,
            e <= n,
            forall|k: int| 0 <= k < e ==> !(#[trigger] buf@[k] is Err),
        decreases n - e,
    {
        let found = match &buf[e] {
            Result::Err(_) => true,
            Result::Ok(_) => false,
        };
        if found {
            proof {
                lemma_first_err_idx(items0);
                assert(first_err_idx(items0) == e);
            }
            match buf.remove(e) {
                Result::Err(err) => {
                    return Err(err);
                },
                Result::Ok(_) => {
                    return unreached();
                },
            }
        }
        e += 1;
    }
    proof {
        lemma_first_err_idx(items0);
        assert(first_err_idx(items0) == items0.len());
    }
    // Every item is Ok: establish the accumulator from the first fragment.
    let mut acc: Vec<TextAccEntry> = Vec::new();
    let first = match &buf[0] {
        Result::Ok(c) => c,
        Result::Err(_) => unreached(),
    };
    let mut ci: usize = 0;
    while ci < first.choices.len()
        invariant
            buf@ == items0,
            first == items0[0]->Ok_0,
            ci <= first.choices@.len(),
            text_acc_views(acc@) == text_init(first.choices@.take(ci as int)),
        decreases first.choices@.len() - ci,
    {
        let c = &first.choices[ci];
        let text = c.text.clone();
        let finish = match &c.finish_reason {
            Some(f) => Some(f.clone()),
            None => None,
        };
        acc.push(TextAccEntry { index: c.index, text, finish });
        proof {
            assert(acc@.last().view() == text_init_entry(first.choices@[ci as int]));
            assert forall|p: int| 0 <= p < acc@.len() implies text_acc_views(acc@)[p] == text_init(
                first.choices@.take(ci + 1),
            )[p] by {
                assert(text_acc_views(acc@)[p] == acc@[p].view());
                assert(text_init(first.choices@.take(ci + 1))[p] == text_init_entry(
                    first.choices@.take(ci + 1)[p],
                ));
                if p < ci {
                    assert(text_acc_views(acc@.drop_last())[p] == acc@[p].view());
                    assert(text_init(first.choices@.take(ci as int))[p] == text_init_entry(
                        first.choices@.take(ci as int)[p],
                    ));
                }
            }
            assert(text_acc_views(acc@) =~= text_init(first.choices@.take(ci + 1)));
        }
        ci += 1;
    }
    proof {
        assert(first.choices@.take(first.choices@.len() as int) =~= first.choices@);
        assert(chunks[0] == items0[0]->Ok_0);
    }
    // Apply the remaining fragments in order.
    let mut i: usize = 1;
    while i < buf.len()
        invariant
            buf@ == items0,
            1 <= i <= items0.len(),
            text_fold_chunks(text_acc_views(acc@), chunks, i as int) == text_collected(chunks),
        decreases items0.len() - i,
    {
        let chunk = match &buf[i] {
            Result::Ok(c) => c,
            Result::Err(_) => unreached(),
        };
        let ghost acc_at_chunk_start = text_acc_views(acc@);
        let mut k: usize = 0;
        while k < chunk.choices.len()
            invariant
                buf@ == items0,
                0 <= i < items0.len(),
                chunk == items0[i as int]->Ok_0,
                k <= chunk.choices@.len(),
                text_apply_choices(text_acc_views(acc@), chunk.choices@, k as int)
                    == text_apply_choices(acc_at_chunk_start, chunk.choices@, 0),
            decreases chunk.choices@.len() - k,
        {
            let c = &chunk.choices[k];
            proof {
                lemma_text_acc_find(text_acc_views(acc@), c.index as int);
            }
            let ghost acc_before = text_acc_views(acc@);
            // Locate the accumulator entry with this choice's index.
            let mut j: usize = 0;
            let mut found: bool = false;
            while j < acc.len() && !found
                invariant
                    0 <= j <= acc@.len(),
                    !found ==> forall|q: int|
                        0 <= q < j ==> (#[trigger] acc@[q]).index != c.index,
                    found ==> j < acc@.len() && acc@[j as int].index == c.index && forall|q: int|
                        0 <= q < j ==> (#[trigger] acc@[q]).index != c.index,
                decreases acc@.len() - j + (if found {
                    0int
                } else {
                    1int
                }),
            {
                if acc[j].index == c.index {
                    found = true;
                } else {
                    j += 1;
                }
            }
            if found {
                proof {
                    assert(text_acc_views(acc@)[j as int].index == c.index as int);
                    assert(text_acc_find(acc_before, c.index as int) == j);
                }
                let mut entry = acc.remove(j);
                entry.text.append(c.text.as_str());
                if c.finish_reason.is_some() {
                    entry.finish = match &c.finish_reason {
                        Some(f) => Some(f.clone()),
                        None => None,
                    };
                }
                acc.insert(j, entry);
                proof {
                    assert(text_acc_views(acc@) =~= text_apply_choice(acc_before, *c));
                }
            } else {
                proof {
                    assert(text_acc_find(acc_before, c.index as int) == -1);
                    assert(text_acc_views(acc@) == text_apply_choice(acc_before, *c));
                }
            }
            k += 1;
        }
        proof {
            assert(chunk.choices@.take(chunk.choices@.len() as int) =~= chunk.choices@);
        }
        i += 1;
    }
    // Emit the response: choices ordered by first-seen index, usage absent.
    let mut response_choices: Vec<TextCompletionChoice> = Vec::new();
    let ghost final_acc = text_acc_views(acc@);
    while acc.len() > 0
        invariant
            response_choices@.len() + acc@.len() == final_acc.len(),
            text_acc_views(acc@) =~= final_acc.skip(response_choices@.len() as int),
            forall|p: int|
                0 <= p < response_choices@.len() ==> {
                    let c = #[trigger] response_choices@[p];
                    &&& c.index as int == final_acc[p].index
                    &&& c.text@ == final_acc[p].text
                    &&& (c.finish_reason is Some <==> final_acc[p].finish is Some)
                    &&& (c.finish_reason matches Some(f) ==> final_acc[p].finish matches Some(g)
                        && f@ == g)
                },
        decreases acc@.len(),
    {
        let ghost k0 = response_choices@.len() as int;
        let ghost old_acc = acc@;
        let entry = acc.remove(0);
        proof {
            assert(text_acc_views(old_acc)[0] == old_acc[0].view());
            assert(entry.view() == final_acc[k0]);
        }
        response_choices.push(
            TextCompletionChoice {
                index: entry.index,
                text: entry.text,
                finish_reason: entry.finish,
            },
        );
        proof {
            assert forall|p: int|
                0 <= p < acc@.len() implies text_acc_views(acc@)[p] == final_acc.skip(k0 + 1)[p] by {
                assert(text_acc_views(acc@)[p] == acc@[p].view());
                assert(acc@[p] == old_acc[p + 1]);
                assert(text_acc_views(old_acc)[p + 1] == old_acc[p + 1].view());
                assert(text_acc_views(old_acc)[p + 1] == final_acc.skip(k0)[p + 1]);
            }
            assert(text_acc_views(acc@) =~= final_acc.skip(response_choices@.len() as int));
        }
    }
    Ok(
        TextCompletionResponse {
            id: "stream-collected".to_owned(),
            object: "text_completion".to_owned(),
            created: now_unix,
            model: "unknown".to_owned(),
            choices: response_choices,
            usage: None,
        },
    )
}

} // verus!
