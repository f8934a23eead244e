use kernelstats::archive::verify_archive;
use kernelstats::error::Error;

fn valid_archive() -> Vec<u8> {
    let encoder =
        flate2::write::GzEncoder::new(Vec::new(), flate2::Compression::default());
    let mut builder = tar::Builder::new(encoder);
    let data: &[u8] = b"obligatory kernel source\n";
    let mut header = tar::Header::new_gnu();
    header.set_size(data.len() as u64);
    header.set_mode(0o644);
    header.set_cksum();
    builder.append_data(&mut header, "linux-1.0/README", data).unwrap();
    let encoder = builder.into_inner().unwrap();
    encoder.finish().unwrap()
}

#[test]
fn valid_archive_passes() {
    let bytes = valid_archive();
    assert!(verify_archive(&bytes).is_ok());
}

#[test]
fn truncated_stream_fails_with_reason() {
    // A deliberately truncated gzip stream is a verification failure whose
    // reason names the entry listing; it never panics.
    let bytes = valid_archive();
    let truncated = &bytes[..bytes.len() / 2];
    let err = verify_archive(truncated).unwrap_err();
    match err {
        Error::Custom(reason) => {
            assert!(
                reason.contains("failed to list tar entries") || reason.contains("bad entry"),
                "unexpected reason: {}",
                reason
            );
        }
        other => panic!("expected a custom verification error, got {:?}", other),
    }
}

#[test]
fn garbage_bytes_fail() {
    let garbage = vec![0x13u8, 0x37, 0x00, 0xff, 0x42, 0x99, 0x01];
    assert!(verify_archive(&garbage).is_err());
}

#[test]
fn empty_input_fails() {
    assert!(verify_archive(&[]).is_err());
}

#[test]
fn uncompressed_tar_fails() {
    // A bare tar stream without the gzip layer is refused.
    let mut builder = tar::Builder::new(Vec::new());
    let data: &[u8] = b"plain\n";
    let mut header = tar::Header::new_gnu();
    header.set_size(data.len() as u64);
    header.set_cksum();
    builder.append_data(&mut header, "linux-1.0/file", data).unwrap();
    let bytes = builder.into_inner().unwrap();
    assert!(verify_archive(&bytes).is_err());
}

#[test]
fn verification_error_message_renders() {
    let err = verify_archive(&[0u8; 4]).unwrap_err();
    let message = err.message();
    assert!(message.starts_with("error: "));
}
