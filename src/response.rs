use vstd::prelude::*;

verus! {

/// What the engine returns for one input sequence: its output vector (of
/// whatever element type the backend produces) and its prompt token count.
pub struct InferResult<E> {
    pub results: E,
    pub prompt_tokens: usize,
}

/// The plain response: one output vector per input sequence, in input order.
pub struct EmbedResponse<E>(pub Vec<E>);

/// One entry of the OpenAI-compatible response.
pub struct OpenAICompatEmbedding<E> {
    pub object: &'static str,
    pub embedding: E,
    pub index: usize,
}

/// The token usage of an OpenAI-compatible response.
#[derive(Clone, Copy, Debug, PartialEq, Eq, Structural)]
pub struct OpenAICompatUsage {
    pub prompt_tokens: usize,
    pub total_tokens: usize,
}

/// The OpenAI-compatible response.
pub struct OpenAICompatResponse<E> {
    pub object: &'static str,
    pub data: Vec<OpenAICompatEmbedding<E>>,
    pub model: String,
    pub usage: OpenAICompatUsage,
}

/// The prompt tokens of all results.
pub open spec fn total_prompt_tokens<E>(rs: Seq<InferResult<E>>) -> nat
    decreases rs.len(),
{
    if rs.len() == 0 {
        0
    } else {
        total_prompt_tokens(rs.drop_last()) + rs.last().prompt_tokens as nat
    }
}

/// Moves the results out, last first: `r[j]` is the output of input
/// `n - 1 - j`.
fn take_reversed<E>(results: Vec<InferResult<E>>) -> (r: (Vec<E>, usize))
    requires
        total_prompt_tokens(results@) <= usize::MAX,
    ensures
        r.0@.len() == results@.len(),
        forall|j: int|
            0 <= j < results@.len() ==> r.0@[j] == #[trigger] results@[results@.len() - 1 - j].results,
        r.1 == total_prompt_tokens(results@),
{
    let ghost orig = results@;
    let mut rest = results;
    let mut rev: Vec<E> = Vec::new();
    let mut total: usize = 0;
    while rest.len() > 0
        invariant
            rest@ == orig.subrange(0, rest@.len() as int),
            rev@.len() + rest@.len() == orig.len(),
            forall|j: int| 0 <= j < rev@.len() ==> rev@[j] == #[trigger] orig[orig.len() - 1 - j].results,
            total + total_prompt_tokens(rest@) == total_prompt_tokens(orig),
            total_prompt_tokens(orig) <= usize::MAX,
        decreases rest@.len(),
    {
        let ghost before = rest@;
        match rest.pop() {
            Some(item) => {
                proof {
                    assert(before.drop_last() =~= rest@);
                }
                total = total + item.prompt_tokens;
                rev.push(item.results);
            },
            None => {},
        }
    }
    (rev, total)
}

/// The plain response: the output vectors in input order, one per input.
pub fn plain_response<E>(results: Vec<InferResult<E>>) -> (r: EmbedResponse<E>)
    ensures
        r.0@.len() == results@.len(),
        forall|i: int| 0 <= i < results@.len() ==> r.0@[i] == #[trigger] results@[i].results,
{
    let ghost orig = results@;
    let mut rest = results;
    let mut out: Vec<E> = Vec::new();
    while rest.len() > 0
        invariant
            rest@ == orig.subrange(0, rest@.len() as int),
            out@.len() + rest@.len() == orig.len(),
            forall|j: int| 0 <= j < out@.len() ==> out@[j] == #[trigger] orig[orig.len() - 1 - j].results,
        decreases rest@.len(),
    {
        match rest.pop() {
            Some(item) => out.push(item.results),
            None => {},
        }
    }
    let n = out.len();
    let mut ordered: Vec<E> = Vec::new();
    while out.len() > 0
        invariant
            n == orig.len(),
            ordered@.len() + out@.len() == n,
            forall|j: int| 0 <= j < out@.len() ==> out@[j] == #[trigger] orig[n - 1 - j].results,
            forall|i: int| 0 <= i < ordered@.len() ==> ordered@[i] == #[trigger] orig[i].results,
        decreases out@.len(),
    {
        let ghost k = ordered@.len();
        assert(out@[out@.len() - 1] == orig[n - 1 - (out@.len() - 1)].results);
        match out.pop() {
            Some(e) => {
                assert(e == orig[k as int].results);
                ordered.push(e);
            },
            None => {},
        }
    }
    EmbedResponse(ordered)
}

/// The OpenAI-compatible response: entry `i` holds the output of input `i`
/// with index `i`, and both token counts are the sum of the prompt tokens.
pub fn openai_response<E>(results: Vec<InferResult<E>>, model: String) -> (r: OpenAICompatResponse<E>)
    requires
        total_prompt_tokens(results@) <= usize::MAX,
    ensures
        r.object@ == "list"@,
        r.model@ == model@,
        r.data@.len() == results@.len(),
        forall|i: int|
            0 <= i < results@.len() ==> (#[trigger] r.data@[i]).index == i && r.data@[i].embedding
                == results@[i].results && r.data@[i].object@ == "embedding"@,
        r.usage.prompt_tokens == total_prompt_tokens(results@),
        r.usage.total_tokens == total_prompt_tokens(results@),
{
    let ghost orig = results@;
    let (mut rev, total) = take_reversed(results);
    let n = rev.len();
    let mut data: Vec<OpenAICompatEmbedding<E>> = Vec::new();
    while rev.len() > 0
        invariant
            n == orig.len(),
            data@.len() + rev@.len() == n,
            forall|j: int| 0 <= j < rev@.len() ==> rev@[j] == #[trigger] orig[n - 1 - j].results,
            forall|i: int|
                0 <= i < data@.len() ==> (#[trigger] data@[i]).index == i && data@[i].embedding
                    == orig[i].results && data@[i].object@ == "embedding"@,
        decreases rev@.len(),
    {
        let index = data.len();
        assert(rev@[rev@.len() - 1] == orig[n - 1 - (rev@.len() - 1)].results);
        match rev.pop() {
            Some(e) => {
                assert(e == orig[index as int].results);
                data.push(OpenAICompatEmbedding { object: "embedding", embedding: e, index });
            },
            None => {},
        }
    }
    OpenAICompatResponse {
        object: "list",
        data,
        model,
        usage: OpenAICompatUsage { prompt_tokens: total, total_tokens: total },
    }
}

} // verus!
