use ferry::algorithm::Algorithm;
use ferry::performance::{CompressionLevel, Performance};

#[test]
fn algorithm_test_mime() {
    let first = mime_guess::from_path("test.py").first().unwrap();
    println!("{:?}", first.essence_str().starts_with("text/plain"));
    assert_eq!(Algorithm::from_path("test.py"), Algorithm::Brotli);
}

#[test]
fn parting_info_test_mime() {
    println!("{:?}", mime_guess::from_path("test.csv"));
    assert_eq!(Algorithm::from_path("test.csv"), Algorithm::Brotli);
}

#[test]
fn selection_text_file() {
    let a = Algorithm::from_info(&10_000, "text/plain", Some("txt"), &Performance::Fast);
    assert_eq!(a, Algorithm::Brotli);
}

#[test]
fn selection_small_binary() {
    let a = Algorithm::from_info(
        &50_000_000,
        "application/octet-stream",
        Some("bin"),
        &Performance::Average,
    );
    assert_eq!(a, Algorithm::Zstd);
}

#[test]
fn selection_huge_binary_fast() {
    let a = Algorithm::from_info(&2_000_000_000, "video/mp4", Some("mp4"), &Performance::Fast);
    assert_eq!(a, Algorithm::Xz);
}

#[test]
fn selection_huge_binary_slow() {
    let a = Algorithm::from_info(&2_000_000_000, "video/mp4", Some("mp4"), &Performance::Slow);
    assert_eq!(a, Algorithm::Bzip2);
}

#[test]
fn selection_edges() {
    // an iso image by extension, whatever its media type
    let a = Algorithm::from_info(&5, "application/octet-stream", Some("iso"), &Performance::Slow);
    assert_eq!(a, Algorithm::Brotli);
    // exactly the Xz threshold falls to Bzip2
    let a = Algorithm::from_info(&1_500_000_000, "video/mp4", None, &Performance::Fast);
    assert_eq!(a, Algorithm::Bzip2);
    let a = Algorithm::from_info(&1_500_000_001, "video/mp4", None, &Performance::Fast);
    assert_eq!(a, Algorithm::Xz);
    // exactly the Zstd threshold is no longer Zstd
    let a = Algorithm::from_info(&100_000_000, "image/png", None, &Performance::Average);
    assert_eq!(a, Algorithm::Bzip2);
    let a = Algorithm::from_info(&99_999_999, "image/png", None, &Performance::Average);
    assert_eq!(a, Algorithm::Zstd);
    for m in [
        "text/html",
        "application/vnd.ms-excel",
        "application/pdf",
        "application/x-tar",
        "application/x-iso9660-image",
        "image/svg+xml",
        "application/javascript",
        "application/json",
        "application/xml",
    ] {
        let a = Algorithm::from_info(&3_000_000_000, m, None, &Performance::Fast);
        assert_eq!(a, Algorithm::Brotli, "{}", m);
    }
}

#[test]
fn selection_from_size() {
    assert_eq!(Algorithm::from_size(&10), Algorithm::Zstd);
    assert_eq!(Algorithm::from_size(&200_000_000), Algorithm::Bzip2);
    assert_eq!(Algorithm::from_size(&2_000_000_000), Algorithm::Xz);
}

#[test]
fn selection_from_path_and_size() {
    assert_eq!(
        Algorithm::from_path_and_size("movie.mp4", &2_000_000_000, &Performance::Fast),
        Algorithm::Xz
    );
    assert_eq!(
        Algorithm::from_path_and_size("notes.txt", &2_000_000_000, &Performance::Slow),
        Algorithm::Brotli
    );
    // no extension: no media type, so by size alone
    assert_eq!(
        Algorithm::from_path_and_size("README", &2_000_000_000, &Performance::Slow),
        Algorithm::Xz
    );
    assert_eq!(Algorithm::from_path("archive.bin"), Algorithm::Zstd);
}

#[test]
fn extensions() {
    assert_eq!(Algorithm::from_ext("bz"), Some(Algorithm::Bzip2));
    assert_eq!(Algorithm::from_ext("bz0"), Some(Algorithm::Bzip2));
    assert_eq!(Algorithm::from_ext("xz0"), Some(Algorithm::Xz));
    assert_eq!(Algorithm::from_ext("zst"), Some(Algorithm::Zstd));
    assert_eq!(Algorithm::from_ext("br0"), Some(Algorithm::Brotli));
    assert_eq!(Algorithm::from_ext("0"), Some(Algorithm::Plain));
    assert_eq!(Algorithm::from_ext("zip"), None);
    assert_eq!(Algorithm::Zstd.get_ext(), Some("zst"));
    assert_eq!(Algorithm::Plain.get_ext(), None);
    assert!(!Algorithm::Plain.is_enabled());
    assert!(Algorithm::Xz.is_enabled());
    assert_eq!(Algorithm::default(), Algorithm::Plain);
    assert_eq!(Algorithm::from_mime("text/csv"), Some(Algorithm::Brotli));
    assert_eq!(Algorithm::from_mime("image/png"), None);
}

#[test]
fn performance_limits() {
    assert_eq!(Performance::Fast.max_workers(), 4);
    assert_eq!(Performance::Average.max_workers(), 3);
    assert_eq!(Performance::Slow.max_workers(), 2);
    assert_eq!(Performance::Fast.max_parts(), 256);
    assert_eq!(Performance::Average.max_parts(), 170);
    assert_eq!(Performance::Slow.max_parts(), 128);
    assert_eq!(Performance::Fast.level(), CompressionLevel::Best);
    assert_eq!(Performance::Slow.level(), CompressionLevel::Fastest);
    let s = ferry::performance::Settings::new(Performance::Average);
    assert_eq!(s.worker_threads(), 3);
    assert_eq!(ferry::performance::Settings::new(Performance::Fast).worker_threads(), 4);
    assert_eq!(ferry::performance::Settings::new(Performance::Slow).worker_threads(), 2);
    assert_eq!(*s.perf(), Performance::Average);
    assert!(s.splitter().is_none());
}
