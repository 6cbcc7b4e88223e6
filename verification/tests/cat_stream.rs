use std::collections::HashMap;

use cid::Cid;
use ipfs_unixfs::file::adder::{Chunker, FileAdder};
use unixfs_cat::cat::{ByteRange, CatStreamDriver, StepOutcome, TraversalFailed};

/// Builds a UnixFS file DAG out of `content`, cut into `chunk_size`-byte
/// leaves, and returns the root identifier and a block store holding every
/// block of the DAG.
fn build_file(content: &[u8], chunk_size: usize) -> (Cid, HashMap<Cid, Vec<u8>>) {
    let mut adder = FileAdder::builder()
        .with_chunker(Chunker::Size(chunk_size))
        .build();
    let mut blocks = HashMap::new();
    let mut root = None;
    let mut consumed = 0;
    while consumed < content.len() {
        let (newly, n) = adder.push(&content[consumed..]);
        for (cid, data) in newly {
            root = Some(cid.clone());
            blocks.insert(cid, data);
        }
        consumed += n;
    }
    for (cid, data) in adder.finish() {
        root = Some(cid.clone());
        blocks.insert(cid, data);
    }
    (root.expect("a file yields at least one block"), blocks)
}

/// Deterministic test content.
fn content(len: usize) -> Vec<u8> {
    (0..len).map(|i| (i * 31 + i / 257) as u8).collect()
}

/// Pulls the traversal to its end against an in-memory block store. Returns
/// the emitted chunks, the terminal failure if one was emitted, and the
/// identifiers that were fetched, in fetch order.
fn run_cat(
    blocks: &HashMap<Cid, Vec<u8>>,
    root: Cid,
    range: Option<ByteRange>,
) -> (Vec<Vec<u8>>, Option<TraversalFailed>, Vec<Cid>) {
    let mut driver = CatStreamDriver::new(root, range);
    let mut chunks = Vec::new();
    let mut fetched = Vec::new();
    loop {
        let next = match driver.next_fetch() {
            Some(c) => c,
            None => return (chunks, None, fetched),
        };
        fetched.push(next.clone());
        let data = match blocks.get(&next) {
            Some(d) => d.clone(),
            None => {
                let e = driver.on_fetch_failure(String::from("block not found"));
                return (chunks, Some(e), fetched);
            }
        };
        match driver.on_block(next, &data) {
            StepOutcome::Advanced(Some(c)) => chunks.push(c),
            StepOutcome::Advanced(None) => {}
            StepOutcome::Finished(Some(c)) => {
                chunks.push(c);
                return (chunks, None, fetched);
            }
            StepOutcome::Finished(None) => return (chunks, None, fetched),
            StepOutcome::Failed(e) => return (chunks, Some(e), fetched),
        }
    }
}

fn concat(chunks: &[Vec<u8>]) -> Vec<u8> {
    let mut out = Vec::new();
    for c in chunks {
        out.extend_from_slice(c);
    }
    out
}

#[test]
fn single_block_yields_exact_payload() {
    let data = content(100);
    let (root, blocks) = build_file(&data, 1000);
    assert_eq!(blocks.len(), 1, "one small chunk makes a single-block file");
    let (chunks, err, _) = run_cat(&blocks, root.clone(), None);
    assert!(err.is_none());
    assert_eq!(chunks.len(), 1);
    assert_eq!(chunks[0], data);
    // the payload is decoded out of the block, not the raw block itself
    assert_ne!(chunks[0], blocks[&root]);
}

#[test]
fn multi_block_concatenation_is_whole_file() {
    let data = content(10_000);
    let (root, blocks) = build_file(&data, 256);
    assert!(blocks.len() > 2, "expected a multi-block file");
    let (chunks, err, _) = run_cat(&blocks, root, None);
    assert!(err.is_none());
    assert!(chunks.len() > 1);
    assert_eq!(concat(&chunks), data);
}

#[test]
fn range_output_is_the_subslice() {
    let data = content(10_000);
    let (root, blocks) = build_file(&data, 256);
    let (a, b) = (100u64, 5000u64);
    let (full, err_full, _) = run_cat(&blocks, root.clone(), None);
    assert!(err_full.is_none());
    let (ranged, err, _) = run_cat(&blocks, root, Some(ByteRange { start: a, end: b }));
    assert!(err.is_none());
    let out = concat(&ranged);
    assert_eq!(out.len() as u64, b - a);
    assert_eq!(out, &data[a as usize..b as usize]);
    assert_eq!(out, &concat(&full)[a as usize..b as usize]);
}

#[test]
fn whole_range_equals_unranged_output() {
    let data = content(3000);
    let (root, blocks) = build_file(&data, 256);
    let len = data.len() as u64;
    let (ranged, err, _) = run_cat(&blocks, root, Some(ByteRange { start: 0, end: len }));
    assert!(err.is_none());
    assert_eq!(concat(&ranged), data);
}

#[test]
fn no_successful_item_is_empty() {
    let data = content(4000);
    let (root, blocks) = build_file(&data, 256);
    let runs = [
        run_cat(&blocks, root.clone(), None),
        run_cat(&blocks, root.clone(), Some(ByteRange { start: 7, end: 8 })),
        run_cat(&blocks, root.clone(), Some(ByteRange { start: 100, end: 100 })),
        run_cat(&blocks, root, Some(ByteRange { start: 500, end: 3999 })),
    ];
    for (chunks, _, _) in runs.iter() {
        for c in chunks {
            assert!(!c.is_empty());
        }
    }
}

#[test]
fn empty_range_yields_nothing() {
    let data = content(4000);
    let (root, blocks) = build_file(&data, 256);
    let (chunks, err, _) = run_cat(&blocks, root, Some(ByteRange { start: 100, end: 100 }));
    assert!(err.is_none());
    assert_eq!(chunks.len(), 0);
}

#[test]
fn inverted_range_yields_nothing() {
    let data = content(4000);
    let (root, blocks) = build_file(&data, 256);
    let (chunks, err, _) = run_cat(&blocks, root, Some(ByteRange { start: 9, end: 3 }));
    assert!(err.is_none());
    assert_eq!(chunks.len(), 0);
}

#[test]
fn range_past_the_end_yields_nothing() {
    let data = content(10);
    let (root, blocks) = build_file(&data, 1000);
    let (chunks, err, _) = run_cat(&blocks, root, Some(ByteRange { start: 20, end: 30 }));
    assert!(err.is_none());
    assert_eq!(chunks.len(), 0);
}

#[test]
fn empty_file_yields_nothing() {
    let (root, blocks) = build_file(b"", 256);
    let (chunks, err, _) = run_cat(&blocks, root, None);
    assert!(err.is_none());
    assert_eq!(chunks.len(), 0);
}

#[test]
fn root_fetch_failure_is_one_loading_item() {
    let data = content(100);
    let (root, _blocks) = build_file(&data, 1000);
    let empty = HashMap::new();
    let (chunks, err, fetched) = run_cat(&empty, root.clone(), None);
    assert_eq!(chunks.len(), 0);
    assert_eq!(fetched.len(), 1);
    match err {
        Some(TraversalFailed::Loading(id, cause)) => {
            assert_eq!(id, root);
            assert_eq!(cause, "block not found");
        }
        other => panic!("expected a loading failure, got {:?}", other),
    }
}

#[test]
fn child_fetch_failure_names_the_child() {
    let data = content(10_000);
    let (root, mut blocks) = build_file(&data, 256);
    let (_, _, fetched) = run_cat(&blocks, root.clone(), None);
    assert!(fetched.len() > 2);
    let victim = fetched[2].clone();
    blocks.remove(&victim);
    let (chunks, err, _) = run_cat(&blocks, root, None);
    assert_eq!(chunks.len(), 1, "the block before the missing one got out");
    match err {
        Some(TraversalFailed::Loading(id, _)) => assert_eq!(id, victim),
        other => panic!("expected a loading failure, got {:?}", other),
    }
}

#[test]
fn parse_failure_keeps_prior_chunks_and_names_the_block() {
    let data = content(10_000);
    let (root, mut blocks) = build_file(&data, 256);
    let (clean, _, fetched) = run_cat(&blocks, root.clone(), None);
    assert!(fetched.len() > 2);
    let victim = fetched[2].clone();
    blocks.insert(victim.clone(), vec![0xff, 0xff, 0xff, 0xff]);
    let (chunks, err, _) = run_cat(&blocks, root, None);
    assert_eq!(chunks.len(), 1);
    assert_eq!(chunks[0], clean[0]);
    match err {
        Some(TraversalFailed::Walking(id, _)) => assert_eq!(id, victim),
        other => panic!("expected a walking failure, got {:?}", other),
    }
}

#[test]
fn root_parse_failure_is_one_walking_item() {
    let data = content(100);
    let (root, mut blocks) = build_file(&data, 1000);
    blocks.insert(root.clone(), vec![0xff, 0xff, 0xff, 0xff]);
    let (chunks, err, fetched) = run_cat(&blocks, root.clone(), None);
    assert_eq!(chunks.len(), 0);
    assert_eq!(fetched.len(), 1);
    match err {
        Some(TraversalFailed::Walking(id, _)) => assert_eq!(id, root),
        other => panic!("expected a walking failure, got {:?}", other),
    }
}

#[test]
fn identical_invocations_are_byte_identical() {
    let data = content(10_000);
    let (root, blocks) = build_file(&data, 256);
    let range = Some(ByteRange { start: 33, end: 7777 });
    let (first, err_a, fetched_a) = run_cat(&blocks, root.clone(), range);
    let (second, err_b, fetched_b) = run_cat(&blocks, root, range);
    assert!(err_a.is_none() && err_b.is_none());
    assert_eq!(first, second);
    assert_eq!(fetched_a, fetched_b);
}

#[test]
fn abandoning_the_traversal_fetches_nothing_more() {
    let data = content(10_000);
    let (root, blocks) = build_file(&data, 256);
    let mut driver = CatStreamDriver::new(root, None);
    let mut fetches = 0usize;
    let mut chunks_seen = 0usize;
    while chunks_seen < 2 {
        let next = driver.next_fetch().expect("file has more than two chunks");
        fetches += 1;
        let data = blocks[&next].clone();
        match driver.on_block(next, &data) {
            StepOutcome::Advanced(Some(_)) => chunks_seen += 1,
            StepOutcome::Advanced(None) => {}
            other => panic!("expected the traversal to still be under way, got {:?}", other),
        }
    }
    // one fetch per pull and nothing beyond them: the root and two leaves
    assert_eq!(fetches, 3);
    drop(driver);
    assert_eq!(fetches, 3);
}

#[test]
fn failure_messages_embed_identifier_and_cause() {
    let data = content(100);
    let (root, mut blocks) = build_file(&data, 1000);
    let empty = HashMap::new();
    let (_, err, _) = run_cat(&empty, root.clone(), None);
    let loading = err.expect("fetch must fail");
    assert_eq!(
        loading.message(),
        format!("loading of {} failed: block not found", root)
    );
    assert_eq!(loading.block_id(), &root);
    assert_eq!(loading.loading_cause(), Some(&String::from("block not found")));
    assert!(loading.walking_cause().is_none());

    blocks.insert(root.clone(), vec![0xff, 0xff]);
    let (_, err, _) = run_cat(&blocks, root.clone(), None);
    let walking = err.expect("decode must fail");
    assert_eq!(walking.block_id(), &root);
    assert!(walking.loading_cause().is_none());
    let cause = walking.walking_cause().expect("walking exposes its cause");
    assert_eq!(
        walking.message(),
        format!("failed to walk {}: {}", root, cause)
    );
}
