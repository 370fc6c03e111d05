use vstd::prelude::*;

verus! {

/// The fixed, ordered list of chunk values the streaming response emits.
pub open spec fn stream_chunks_spec() -> Seq<Seq<char>> {
    seq!["This"@, "is"@, "a"@, "just an stream data"@]
}

/// The configured chunk values, in their original order.
pub fn stream_chunks() -> (r: Vec<String>)
    ensures
        r@.len() == stream_chunks_spec().len(),
        forall|i: int| 0 <= i < r@.len() ==> r@[i]@ == stream_chunks_spec()[i],
{
    let mut v: Vec<String> = Vec::new();
    v.push("This".to_owned());
    v.push("is".to_owned());
    v.push("a".to_owned());
    v.push("just an stream data".to_owned());
    v
}

/// One step of the lazy body generator: the chunk at `idx` together with the
/// advanced index, or nothing once every chunk was emitted. The generator has
/// no error state.
pub fn next_chunk(chunks: &Vec<String>, idx: usize) -> (r: Option<(String, usize)>)
    ensures
        idx < chunks@.len() ==> (r matches Some((c, j)) && c@ == chunks@[idx as int]@ && j == idx
            + 1),
        idx >= chunks@.len() ==> r is None,
{
    if idx < chunks.len() {
        let c = chunks[idx].clone();
        Some((c, idx + 1))
    } else {
        None
    }
}

/// Everything the generator emits when started at `idx` and stepped until it
/// stops.
pub open spec fn emitted_from(chunks: Seq<Seq<char>>, idx: int) -> Seq<Seq<char>>
    decreases chunks.len() - idx when 0 <= idx <= chunks.len()
{
    if idx < 0 || idx >= chunks.len() {
        Seq::empty()
    } else {
        seq![chunks[idx]] + emitted_from(chunks, idx + 1)
    }
}

proof fn lemma_emitted_from_skip(chunks: Seq<Seq<char>>, idx: int)
    requires
        0 <= idx <= chunks.len(),
    ensures
        emitted_from(chunks, idx) == chunks.skip(idx),
    decreases chunks.len() - idx,
{
    if idx == chunks.len() {
        assert(emitted_from(chunks, idx) =~= chunks.skip(idx));
    } else {
        lemma_emitted_from_skip(chunks, idx + 1);
        assert(seq![chunks[idx]] + chunks.skip(idx + 1) =~= chunks.skip(idx));
    }
}

/// Law: started at the beginning, the generator emits exactly the configured
/// chunks, in their original order, one per step, and then stops.
pub proof fn lemma_stream_emits_all(chunks: Seq<Seq<char>>)
    ensures
        emitted_from(chunks, 0) == chunks,
{
    lemma_emitted_from_skip(chunks, 0);
    assert(chunks.skip(0) =~= chunks);
}

} // verus!
