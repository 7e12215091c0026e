use blake2::Digest;
use tkey_luks::loader::{AppLoader, LoadAppError, LoaderStep};

fn ack(status: u8) -> [u8; 5] {
    [0x12, 0x04, status, 0, 0]
}

fn digest_reply(bin: &[u8]) -> [u8; 129] {
    let d = blake2::Blake2s256::digest(bin);
    let mut r = [0u8; 129];
    r[3..35].copy_from_slice(&d);
    r
}

fn expect_exchange(step: LoaderStep) -> (Vec<u8>, usize) {
    match step {
        LoaderStep::Exchange { frame, reply_len } => (frame, reply_len),
        LoaderStep::Done(r) => panic!("finished early: {:?}", r),
    }
}

#[test]
fn command_frame_carries_the_length() {
    let bin: Vec<u8> = (0..300u32).map(|i| (i % 251) as u8).collect();
    let loader = AppLoader::new(bin);
    let f = loader.command_frame();
    assert_eq!(f.len(), 129);
    assert_eq!(&f[..7], &[0x13, 0x03, 44, 1, 0, 0, 0]);
    assert!(f[7..].iter().all(|b| *b == 0));
}

#[test]
fn binary_goes_out_in_chunks_and_digest_is_checked() {
    let bin: Vec<u8> = (0..300u32).map(|i| (i % 251) as u8 + 1).collect();
    let mut loader = AppLoader::new(bin.clone());
    let (f0, n0) = expect_exchange(loader.on_reply(&ack(0)));
    assert_eq!(n0, 5);
    assert_eq!(f0.len(), 129);
    assert_eq!(&f0[..2], &[0x13, 0x05]);
    assert_eq!(&f0[2..], &bin[..127]);
    let (f1, n1) = expect_exchange(loader.on_reply(&ack(0)));
    assert_eq!(n1, 5);
    assert_eq!(&f1[2..], &bin[127..254]);
    let (f2, n2) = expect_exchange(loader.on_reply(&ack(0)));
    assert_eq!(n2, 129);
    assert_eq!(&f2[2..48], &bin[254..]);
    assert!(f2[48..].iter().all(|b| *b == 0));
    let mut sent = Vec::new();
    for f in [&f0, &f1, &f2] {
        sent.extend_from_slice(&f[2..]);
    }
    assert_eq!(&sent[..300], &bin[..]);
    match loader.on_reply(&digest_reply(&bin)) {
        LoaderStep::Done(Ok(())) => {}
        other => panic!("unexpected {:?}", other),
    }
}

#[test]
fn wrong_digest_is_refused() {
    let bin = vec![5u8; 10];
    let mut loader = AppLoader::new(bin.clone());
    let (_, n) = expect_exchange(loader.on_reply(&ack(0)));
    assert_eq!(n, 129);
    let mut reply = digest_reply(&bin);
    reply[10] ^= 1;
    match loader.on_reply(&reply) {
        LoaderStep::Done(Err(LoadAppError::DigestMismatch)) => {}
        other => panic!("unexpected {:?}", other),
    }
}

#[test]
fn a_digest_of_the_input_itself_is_refused() {
    // A digest function that handed back its input would not match.
    let bin = vec![9u8; 40];
    let mut loader = AppLoader::new(bin.clone());
    expect_exchange(loader.on_reply(&ack(0)));
    let mut reply = [0u8; 129];
    reply[3..35].copy_from_slice(&bin[..32]);
    assert!(matches!(loader.on_reply(&reply), LoaderStep::Done(Err(LoadAppError::DigestMismatch))));
}

#[test]
fn rejected_command_and_chunk() {
    let mut loader = AppLoader::new(vec![1u8; 200]);
    assert!(matches!(loader.on_reply(&ack(1)), LoaderStep::Done(Err(LoadAppError::Rejected))));
    let mut loader = AppLoader::new(vec![1u8; 200]);
    expect_exchange(loader.on_reply(&ack(0)));
    assert!(matches!(loader.on_reply(&ack(3)), LoaderStep::Done(Err(LoadAppError::ChunkRejected))));
}

#[test]
fn empty_binary_needs_only_the_command() {
    let mut loader = AppLoader::new(Vec::new());
    assert!(matches!(loader.on_reply(&ack(0)), LoaderStep::Done(Ok(()))));
}

#[test]
fn exact_chunk_multiple() {
    let bin = vec![3u8; 254];
    let mut loader = AppLoader::new(bin.clone());
    let (_, n0) = expect_exchange(loader.on_reply(&ack(0)));
    assert_eq!(n0, 5);
    let (f1, n1) = expect_exchange(loader.on_reply(&ack(0)));
    assert_eq!(n1, 129);
    assert_eq!(&f1[2..], &bin[127..]);
    assert!(matches!(loader.on_reply(&digest_reply(&bin)), LoaderStep::Done(Ok(()))));
}

#[test]
fn error_texts() {
    assert_eq!(LoadAppError::Rejected.message(), "tkey rejected load_app request..");
    assert_eq!(LoadAppError::ChunkRejected.message(), "TKey rejected a chunk (STATUS_BAD)");
    assert_eq!(LoadAppError::DigestMismatch.message(), "binary digests do not match, must restart app");
}
