use kernelstats::kernels::{filter_important, KernelRelease, Kernels, URL_BASE};

fn release(version: &str, important: bool) -> KernelRelease {
    KernelRelease { important, version: version.to_string(), path: None }
}

#[test]
fn url_for_two_component_version() {
    let r = release("2.6.11", true);
    let url = r.tar_gz_url().unwrap();
    assert_eq!(url, "https://mirrors.kernel.org/pub/linux/kernel/v2.6/linux-2.6.11.tar.gz");
}

#[test]
fn url_for_historical_exception() {
    let r = release("1.1.0", false);
    let url = r.tar_gz_url().unwrap();
    assert_eq!(url, "https://mirrors.kernel.org/pub/linux/kernel/v1.1/v1.1.0.tar.gz");
}

#[test]
fn url_for_single_component_version() {
    let r = release("3", false);
    let url = r.tar_gz_url().unwrap();
    assert_eq!(url, "https://mirrors.kernel.org/pub/linux/kernel/v3.x/linux-3.tar.gz");
}

#[test]
fn url_for_three_component_version() {
    let r = release("4.19.1", false);
    let url = r.tar_gz_url().unwrap();
    assert_eq!(url, "https://mirrors.kernel.org/pub/linux/kernel/v4.19/linux-4.19.1.tar.gz");
}

#[test]
fn url_uses_override_path_verbatim() {
    let r = KernelRelease {
        important: false,
        version: "2.0".to_string(),
        path: Some("historic/v2.0/linux-2.0.tar.gz".to_string()),
    };
    let url = r.tar_gz_url().unwrap();
    assert_eq!(
        url,
        "https://mirrors.kernel.org/pub/linux/kernel/historic/v2.0/linux-2.0.tar.gz"
    );
}

#[test]
fn url_base_is_the_mirror() {
    assert_eq!(URL_BASE, "https://mirrors.kernel.org/pub/linux/kernel");
}

#[test]
fn filter_important_keeps_exactly_the_important() {
    let catalog = vec![
        release("1.0", true),
        release("1.1.0", false),
        release("2.6.11", true),
        release("3", false),
    ];
    let kept = filter_important(&catalog);
    assert_eq!(kept.len(), 2);
    assert_eq!(kept[0].version, "1.0");
    assert_eq!(kept[1].version, "2.6.11");
    assert!(kept.iter().all(|k| k.important));
}

#[test]
fn filter_important_is_idempotent() {
    let catalog = vec![release("1.0", true), release("1.1.0", false), release("5.4", true)];
    let once = filter_important(&catalog);
    let twice = filter_important(&once);
    assert_eq!(once.len(), twice.len());
    for (a, b) in once.iter().zip(twice.iter()) {
        assert_eq!(a.version, b.version);
        assert_eq!(a.important, b.important);
    }
}

#[test]
fn filter_important_of_empty_catalog_is_empty() {
    let kernels = Kernels { releases: Vec::new() };
    assert!(filter_important(&kernels.releases).is_empty());
}

#[test]
fn end_to_end_selection_yields_one_target() {
    // A catalog of an important 1.0 and an unimportant 1.1.0, with the
    // restriction to important releases on, selects exactly 1.0.
    let catalog = vec![release("1.0", true), release("1.1.0", false)];
    let selected = filter_important(&catalog);
    assert_eq!(selected.len(), 1);
    assert_eq!(selected[0].version, "1.0");
}
