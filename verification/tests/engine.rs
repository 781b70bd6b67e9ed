use rshred::{EngineStep, OverwriteEngine, ShredConfiguration, Shredder, BATCH_SIZE};

const PLAIN_FILE_CONTENT: &str = "some sensitive data";

#[test]
fn single_batch_passes() {
    // A 5-byte file fits in one batch, so each pass is one write followed
    // by the sync barrier.
    let mut engine = OverwriteEngine::new(5, 2);
    for _ in 0..2 {
        match engine.step() {
            EngineStep::Write(data) => assert_eq!(data.len(), 5),
            _ => panic!("expected a write"),
        }
        assert!(matches!(engine.step(), EngineStep::SyncAndRewind));
    }
    assert!(matches!(engine.step(), EngineStep::Done));
    assert!(matches!(engine.step(), EngineStep::Done));
}

#[test]
fn batches_cover_the_length_exactly() {
    // 20000 bytes = two full batches and a 3616-byte tail, per pass.
    let mut engine = OverwriteEngine::new(20000, 1);
    let mut written: u64 = 0;
    loop {
        match engine.step() {
            EngineStep::Write(data) => {
                assert!(data.len() <= BATCH_SIZE);
                written += data.len() as u64;
            }
            EngineStep::SyncAndRewind => {
                assert_eq!(written, 20000);
            }
            EngineStep::Done => break,
        }
    }
    assert_eq!(written, 20000);
    assert_eq!(engine.passes_done, 1);
}

#[test]
fn empty_file_writes_nothing() {
    let mut engine = OverwriteEngine::new(0, 3);
    assert!(matches!(engine.step(), EngineStep::SyncAndRewind));
    assert!(matches!(engine.step(), EngineStep::SyncAndRewind));
    assert!(matches!(engine.step(), EngineStep::SyncAndRewind));
    assert!(matches!(engine.step(), EngineStep::Done));
}

#[test]
fn zero_passes_are_done_at_once() {
    let mut engine = OverwriteEngine::new(4096, 0);
    assert!(matches!(engine.step(), EngineStep::Done));
}

#[test]
fn engine_for_file_takes_the_configured_passes() {
    let configuration = ShredConfiguration::new("whatever")
        .set_rewrite_iterations(7)
        .build();
    let shredder = Shredder::with_options(configuration);
    let engine = shredder.engine_for_file(123);
    assert_eq!(engine.file_length, 123);
    assert_eq!(engine.passes_total, 7);
    assert_eq!(engine.passes_done, 0);
    assert_eq!(engine.cursor, 0);
}

#[test]
fn shredded_buffer_keeps_its_length() {
    let original: Vec<u8> = PLAIN_FILE_CONTENT.as_bytes().to_vec();
    let mut content = original.clone();
    rshred::shred_buffer(&mut content, 3);
    assert_eq!(content.len(), original.len());
}

#[test]
fn shredded_buffer_content_is_rewritten() {
    // With 64 freshly drawn random bytes the chance of reproducing the
    // original content is negligible.
    let original: Vec<u8> = (0u8..64).collect();
    let mut content = original.clone();
    rshred::shred_buffer(&mut content, 1);
    assert_eq!(content.len(), original.len());
    assert_ne!(content, original);
}

#[test]
fn zero_passes_leave_the_buffer_untouched() {
    let original: Vec<u8> = PLAIN_FILE_CONTENT.as_bytes().to_vec();
    let mut content = original.clone();
    rshred::shred_buffer(&mut content, 0);
    assert_eq!(content, original);
}

#[test]
fn many_passes_still_preserve_the_length() {
    let original: Vec<u8> = PLAIN_FILE_CONTENT.as_bytes().to_vec();
    let mut content = original.clone();
    rshred::shred_buffer(&mut content, 255);
    assert_eq!(content.len(), original.len());
}

#[test]
fn random_batch_has_the_asked_length() {
    assert_eq!(rshred::random_batch(0).len(), 0);
    assert_eq!(rshred::random_batch(17).len(), 17);
    assert_eq!(rshred::random_batch(BATCH_SIZE).len(), BATCH_SIZE);
}

#[test]
fn whole_file_variant_matches_the_batched_one() {
    let original: Vec<u8> = PLAIN_FILE_CONTENT.as_bytes().to_vec();

    let mut kept = original.clone();
    rshred::shred::overwrite_buffer(&mut kept, 2);
    assert_eq!(kept.len(), original.len());

    let mut untouched = original.clone();
    rshred::shred::overwrite_buffer(&mut untouched, 0);
    assert_eq!(untouched, original);
}
