use resvg::text_chunks::{convert_chunks, ChunkStart, TextChunk, TspanLayout};

fn tspan(has_text: bool, has_position: bool) -> TspanLayout {
    TspanLayout { has_text, has_position }
}

fn shape(chunks: &[TextChunk]) -> Vec<(ChunkStart, Vec<usize>)> {
    chunks.iter().map(|c| (c.start, c.spans.clone())).collect()
}

#[test]
fn no_tspans_give_one_empty_chunk() {
    let chunks = convert_chunks(&[]).unwrap();
    assert_eq!(chunks.len(), 1);
    assert!(chunks[0].start == ChunkStart::Text);
    assert!(chunks[0].spans.is_empty());
}

#[test]
fn unpositioned_tspans_share_the_text_chunk() {
    let chunks = convert_chunks(&[tspan(true, false), tspan(true, false)]).unwrap();
    let s = shape(&chunks);
    assert_eq!(s.len(), 1);
    assert!(s[0].0 == ChunkStart::Text);
    assert_eq!(s[0].1, vec![0, 1]);
}

#[test]
fn positioned_tspans_open_chunks() {
    let chunks = convert_chunks(&[
        tspan(true, false),
        tspan(true, true),
        tspan(true, false),
        tspan(true, true),
    ])
    .unwrap();
    let s = shape(&chunks);
    assert_eq!(s.len(), 3);
    assert!(s[0].0 == ChunkStart::Text);
    assert_eq!(s[0].1, vec![0]);
    assert!(s[1].0 == ChunkStart::Tspan(1));
    assert_eq!(s[1].1, vec![1, 2]);
    assert!(s[2].0 == ChunkStart::Tspan(3));
    assert_eq!(s[2].1, vec![3]);
}

#[test]
fn tspans_without_text_are_skipped() {
    // A positioned tspan without text opens no chunk.
    let chunks = convert_chunks(&[tspan(false, true), tspan(true, false), tspan(false, false)])
        .unwrap();
    let s = shape(&chunks);
    assert_eq!(s.len(), 1);
    assert!(s[0].0 == ChunkStart::Text);
    assert_eq!(s[0].1, vec![1]);
}

#[test]
fn first_tspan_positioned_leaves_text_chunk_empty() {
    let chunks = convert_chunks(&[tspan(true, true)]).unwrap();
    let s = shape(&chunks);
    assert_eq!(s.len(), 2);
    assert!(s[0].0 == ChunkStart::Text);
    assert!(s[0].1.is_empty());
    assert!(s[1].0 == ChunkStart::Tspan(0));
    assert_eq!(s[1].1, vec![0]);
}
