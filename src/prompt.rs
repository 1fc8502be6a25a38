use vstd::prelude::*;

verus! {

/// The instructions that precede the transcript in a summarization prompt.
pub open spec fn prompt_head() -> Seq<char> {
    "\nYou are an AI assistant that summarizes meeting transcriptions. Your task is to:\n\n1. Extract the key topics and decisions discussed\n2. Identify action items and their owners (if mentioned)\n3. Note any important technical details or specifications\n4. Highlight any unresolved questions or issues\n5. Keep the summary concise but comprehensive\n\nPlease provide a well-structured summary of the following meeting transcript:\n            "@
}

/// What follows the transcript in a summarization prompt.
pub open spec fn prompt_tail() -> Seq<char> {
    "\n            "@
}

/// The prompt for `transcript`: the transcript verbatim, inside the fixed
/// instructions.
pub open spec fn prompt_of(transcript: Seq<char>) -> Seq<char> {
    prompt_head() + transcript + prompt_tail()
}

/// `outer` holds `inner` as a contiguous run of characters.
pub open spec fn contains(outer: Seq<char>, inner: Seq<char>) -> bool {
    exists|i: int| 0 <= i && i + inner.len() <= outer.len() && #[trigger] outer.subrange(i, i + inner.len()) == inner
}

/// Wraps a transcript in the fixed summarization instructions. The
/// transcript is taken as it is, with no escaping.
pub fn build_prompt(transcript: &str) -> (r: String)
    ensures
        r@ == prompt_of(transcript@),
{
    let mut prompt = String::from_str(
        "\nYou are an AI assistant that summarizes meeting transcriptions. Your task is to:\n\n1. Extract the key topics and decisions discussed\n2. Identify action items and their owners (if mentioned)\n3. Note any important technical details or specifications\n4. Highlight any unresolved questions or issues\n5. Keep the summary concise but comprehensive\n\nPlease provide a well-structured summary of the following meeting transcript:\n            ",
    );
    prompt.append(transcript);
    prompt.append("\n            ");
    prompt
}

/// Every prompt holds its transcript verbatim as a contiguous substring.
pub proof fn lemma_prompt_contains_transcript(transcript: Seq<char>)
    ensures
        contains(prompt_of(transcript), transcript),
{
    let p = prompt_of(transcript);
    let i = prompt_head().len() as int;
    assert(p.subrange(i, i + transcript.len()) =~= transcript);
}

} // verus!
