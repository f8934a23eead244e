use kernelstats::acquire::{
    AcquireAction, AcquireEvent, AcquireState, Acquisition, FetchResponse, Scheduler,
};
use kernelstats::archive::verify_archive;
use kernelstats::error::Error;
use kernelstats::kernels::KernelRelease;

fn release(version: &str, important: bool) -> KernelRelease {
    KernelRelease { important, version: version.to_string(), path: None }
}

fn valid_archive() -> Vec<u8> {
    let encoder =
        flate2::write::GzEncoder::new(Vec::new(), flate2::Compression::default());
    let mut builder = tar::Builder::new(encoder);
    let data: &[u8] = b"obligatory kernel source\n";
    let mut header = tar::Header::new_gnu();
    header.set_size(data.len() as u64);
    header.set_mode(0o644);
    header.set_cksum();
    builder.append_data(&mut header, "linux-1.0/README", data).unwrap();
    let encoder = builder.into_inner().unwrap();
    encoder.finish().unwrap()
}

#[test]
fn new_acquisition_derives_path_and_url() {
    let a = Acquisition::new(release("2.6.11", true), "cache", true);
    assert_eq!(a.cache_path, "cache/linux-2.6.11.tar.gz");
    assert_eq!(a.url, "https://mirrors.kernel.org/pub/linux/kernel/v2.6/linux-2.6.11.tar.gz");
    assert!(matches!(a.state, AcquireState::CheckCache));
    assert!(matches!(a.action(), AcquireAction::StatFile { .. }));
}

#[test]
fn cache_file_name_is_canonical_for_the_exception_too() {
    // The cache name ignores the mirror's historical naming exception.
    let a = Acquisition::new(release("1.1.0", false), "cache", false);
    assert_eq!(a.cache_path, "cache/linux-1.1.0.tar.gz");
}

#[test]
fn warm_cache_without_verification_is_accepted_at_once() {
    let mut a = Acquisition::new(release("1.0", true), "cache", false);
    a.step(AcquireEvent::CacheChecked(true));
    assert!(matches!(a.state, AcquireState::Done));
    let cached = a.result();
    assert_eq!(cached.path, "cache/linux-1.0.tar.gz");
    assert_eq!(cached.version.version, "1.0");
}

#[test]
fn warm_valid_cache_performs_zero_network_requests() {
    // Idempotence: a run over a cache the previous run left valid makes
    // no HTTP request, with or without verification.
    let bytes = valid_archive();
    for verify in [false, true] {
        let mut a = Acquisition::new(release("1.0", true), "cache", verify);
        let mut fetches = 0;
        loop {
            match a.action() {
                AcquireAction::StatFile { .. } => a.step(AcquireEvent::CacheChecked(true)),
                AcquireAction::ReadFile { .. } => {
                    a.step(AcquireEvent::CacheLoaded(Ok(bytes.clone())))
                }
                AcquireAction::HttpGet { .. } => {
                    fetches += 1;
                    panic!("a warm, valid cache must not be fetched");
                }
                AcquireAction::Settled => break,
                other => panic!("unexpected action: {:?}", other),
            }
        }
        assert_eq!(fetches, 0);
        assert!(matches!(a.state, AcquireState::Done));
    }
}

#[test]
fn missing_cache_file_is_downloaded_verified_and_stored() {
    let body = valid_archive();
    let mut a = Acquisition::new(release("1.0", true), "cache", false);
    a.step(AcquireEvent::CacheChecked(false));
    assert!(matches!(a.state, AcquireState::Fetch));
    match a.action() {
        AcquireAction::HttpGet { url } => {
            assert_eq!(url, "https://mirrors.kernel.org/pub/linux/kernel/v1.0/linux-1.0.tar.gz");
        }
        other => panic!("expected a fetch, got {:?}", other),
    }
    a.step(AcquireEvent::Fetched(Ok(FetchResponse {
        success: true,
        status: "200 OK".to_string(),
        body: body.clone(),
    })));
    match a.action() {
        AcquireAction::WriteFile { path, bytes } => {
            assert_eq!(path, "cache/linux-1.0.tar.gz");
            assert_eq!(bytes, body);
        }
        other => panic!("expected a store, got {:?}", other),
    }
    a.step(AcquireEvent::Stored(Ok(())));
    assert!(matches!(a.state, AcquireState::Done));
}

#[test]
fn self_healing_removes_bad_cache_and_redownloads() {
    // A cached file that fails verification is deleted, the release is
    // re-downloaded, and the stored file passes verification.
    let garbage = vec![1u8, 2, 3, 4, 5];
    let body = valid_archive();
    let mut a = Acquisition::new(release("1.0", true), "cache", true);
    a.step(AcquireEvent::CacheChecked(true));
    assert!(matches!(a.state, AcquireState::VerifyCache));
    a.step(AcquireEvent::CacheLoaded(Ok(garbage)));
    assert!(matches!(a.state, AcquireState::RemoveCache));
    match a.action() {
        AcquireAction::RemoveFile { path } => assert_eq!(path, "cache/linux-1.0.tar.gz"),
        other => panic!("expected a removal, got {:?}", other),
    }
    a.step(AcquireEvent::CacheRemoved(Ok(())));
    assert!(matches!(a.state, AcquireState::Fetch));
    a.step(AcquireEvent::Fetched(Ok(FetchResponse {
        success: true,
        status: "200 OK".to_string(),
        body,
    })));
    match a.action() {
        AcquireAction::WriteFile { bytes, .. } => {
            assert!(verify_archive(&bytes).is_ok());
        }
        other => panic!("expected a store, got {:?}", other),
    }
    a.step(AcquireEvent::Stored(Ok(())));
    assert!(matches!(a.state, AcquireState::Done));
}

#[test]
fn unreadable_cache_file_is_treated_as_bad() {
    let mut a = Acquisition::new(release("1.0", true), "cache", true);
    a.step(AcquireEvent::CacheChecked(true));
    a.step(AcquireEvent::CacheLoaded(Err("permission denied".to_string())));
    assert!(matches!(a.state, AcquireState::RemoveCache));
}

#[test]
fn failed_removal_fails_the_release() {
    let mut a = Acquisition::new(release("1.0", true), "cache", true);
    a.step(AcquireEvent::CacheChecked(true));
    a.step(AcquireEvent::CacheLoaded(Ok(vec![0u8])));
    a.step(AcquireEvent::CacheRemoved(Err("busy".to_string())));
    match &a.state {
        AcquireState::Failed { error: Error::Custom(m) } => {
            assert_eq!(m, "failed to remove: cache/linux-1.0.tar.gz: busy");
        }
        other => panic!("expected failure, got {:?}", other),
    }
}

#[test]
fn non_success_status_is_a_hard_failure() {
    let mut a = Acquisition::new(release("1.0", true), "cache", false);
    a.step(AcquireEvent::CacheChecked(false));
    a.step(AcquireEvent::Fetched(Ok(FetchResponse {
        success: false,
        status: "404 Not Found".to_string(),
        body: Vec::new(),
    })));
    match &a.state {
        AcquireState::Failed { error: Error::Custom(m) } => {
            assert_eq!(
                m,
                "failed to download: https://mirrors.kernel.org/pub/linux/kernel/v1.0/linux-1.0.tar.gz: 404 Not Found"
            );
        }
        other => panic!("expected failure, got {:?}", other),
    }
}

#[test]
fn connection_failure_is_a_hard_failure() {
    let mut a = Acquisition::new(release("1.0", true), "cache", false);
    a.step(AcquireEvent::CacheChecked(false));
    a.step(AcquireEvent::Fetched(Err("connection refused".to_string())));
    match &a.state {
        AcquireState::Failed { error: Error::Custom(m) } => {
            assert!(m.starts_with("failed to get url: "));
            assert!(m.ends_with(": connection refused"));
        }
        other => panic!("expected failure, got {:?}", other),
    }
}

#[test]
fn bad_downloaded_archive_is_never_stored() {
    // Verification of a fresh download is unconditional, even when cache
    // verification was not requested.
    let mut a = Acquisition::new(release("1.0", true), "cache", false);
    a.step(AcquireEvent::CacheChecked(false));
    a.step(AcquireEvent::Fetched(Ok(FetchResponse {
        success: true,
        status: "200 OK".to_string(),
        body: vec![9u8, 9, 9],
    })));
    match &a.state {
        AcquireState::Failed { error: Error::Custom(m) } => {
            assert_eq!(m, "test on downloaded archive failed: cache/linux-1.0.tar.gz");
        }
        other => panic!("expected failure, got {:?}", other),
    }
}

#[test]
fn failed_write_fails_the_release() {
    let body = valid_archive();
    let mut a = Acquisition::new(release("1.0", true), "cache", false);
    a.step(AcquireEvent::CacheChecked(false));
    a.step(AcquireEvent::Fetched(Ok(FetchResponse {
        success: true,
        status: "200 OK".to_string(),
        body,
    })));
    a.step(AcquireEvent::Stored(Err("disk full".to_string())));
    match &a.state {
        AcquireState::Failed { error: Error::Custom(m) } => {
            assert_eq!(m, "failed to write file: cache/linux-1.0.tar.gz: disk full");
        }
        other => panic!("expected failure, got {:?}", other),
    }
}

#[test]
fn scheduler_never_exceeds_the_parallelism_bound() {
    // Concurrency bound: with parallelism 2 over 5 releases, no schedule
    // ever has more than 2 acquisitions in flight.
    let mut s = Scheduler::new(5, 2);
    let mut max_in_flight = 0usize;
    let mut handed_out = Vec::new();
    while !s.finished() {
        while s.can_start() {
            handed_out.push(s.start());
            max_in_flight = max_in_flight.max(s.started - s.completed);
        }
        assert!(s.started - s.completed <= 2);
        s.complete();
    }
    assert_eq!(max_in_flight, 2);
    assert_eq!(handed_out, vec![0, 1, 2, 3, 4]);
    assert!(s.idle());
}

#[test]
fn scheduler_with_bound_one_is_sequential() {
    let mut s = Scheduler::new(3, 1);
    let mut order = Vec::new();
    while !s.finished() {
        assert!(s.can_start() || s.started - s.completed > 0);
        if s.can_start() {
            order.push(s.start());
            assert_eq!(s.started - s.completed, 1);
        }
        s.complete();
    }
    assert_eq!(order, vec![0, 1, 2]);
}
