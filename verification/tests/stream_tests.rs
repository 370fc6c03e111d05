use frontdoor::stream::{next_chunk, stream_chunks};

#[test]
fn chunk_list_is_the_configured_one() {
    let chunks = stream_chunks();
    assert_eq!(chunks, vec!["This", "is", "a", "just an stream data"]);
}

#[test]
fn generator_emits_every_chunk_in_order_then_stops() {
    let chunks = stream_chunks();
    let mut emitted: Vec<String> = Vec::new();
    let mut idx: usize = 0;
    while let Some((chunk, next)) = next_chunk(&chunks, idx) {
        emitted.push(chunk);
        idx = next;
    }
    assert_eq!(emitted, chunks);
    assert_eq!(emitted.len(), 4);
    assert!(next_chunk(&chunks, idx).is_none());
}

#[test]
fn generator_stops_past_the_end() {
    let chunks = stream_chunks();
    assert!(next_chunk(&chunks, 4).is_none());
    assert!(next_chunk(&chunks, 100).is_none());
}
