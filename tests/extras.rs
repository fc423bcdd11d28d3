use ferry::algorithm::{Algorithm, Compression};
use ferry::copier::Tracker;
use ferry::file_info::{EntryKind, FileInfo};
use ferry::paths::StringUtils;
use ferry::performance::Performance;
use ferry::progress::{Progress, ProgressUpdater};

#[test]
fn file_info_parts_of_path() {
    let mut f = FileInfo::new("/a/b.tar.gz".to_string(), 42, EntryKind::File);
    assert_eq!(f.ext(), Some("gz"));
    assert_eq!(f.name(), "b.tar.gz");
    assert_eq!(f.src(), "/a/b.tar.gz");
    assert_eq!(*f.size(), 42);
    assert_eq!(*f.file_type(), EntryKind::File);
    assert!(f.compression().is_none());
    f.detect_compression(false, &Performance::Fast);
    assert_eq!(f.compression(), Some(&Algorithm::Plain));
    // chosen once: a later detection keeps it
    f.detect_compression(true, &Performance::Fast);
    assert_eq!(f.compression(), Some(&Algorithm::Plain));
    assert_eq!(f.append_part_num(&0), "b.tar.gz.0");
    let root = FileInfo::new("/".to_string(), 0, EntryKind::Dir);
    assert_eq!(root.name(), "[unknown_path]");
    assert_eq!(root.ext(), None);
}

#[test]
fn compression_choice() {
    let c = Compression::new("/x/report.pdf", true, Some(5_000_000_000), &Performance::Fast);
    assert_eq!(c.algorithm(), Algorithm::Brotli);
    let c = Compression::new("/x/clip.mp4", true, None, &Performance::Fast);
    assert_eq!(c.algorithm(), Algorithm::Zstd);
    let c = Compression::new("/x/blob", true, Some(300_000_000), &Performance::Fast);
    assert_eq!(c.algorithm(), Algorithm::Bzip2);
    let c = Compression::new("/x/blob", true, None, &Performance::Slow);
    assert_eq!(c.algorithm(), Algorithm::Zstd);
    let c = Compression::new("/x/clip.mp4", false, Some(10), &Performance::Slow);
    assert_eq!(c.algorithm(), Algorithm::Plain);
    assert!(!c.is_enabled());
    assert_eq!(*c.perf(), Performance::Slow);
    let c = Compression::from_algorithm(&Algorithm::Xz, &Performance::Average);
    assert!(c.is_enabled());
}

#[test]
fn tracker_positions() {
    let mut t = Tracker::new("s".to_string(), "d".to_string()).set_start(5).set_end(10);
    t.update(7, 3);
    assert_eq!(t.read_pos(), 7);
    assert_eq!(t.write_pos(), 3);
}

#[test]
fn random_text_and_default_progress() {
    let r = <String as StringUtils>::random(12);
    assert_eq!(r.chars().count(), 12);
    assert!(r.chars().all(|c| c.is_ascii_alphanumeric()));
    let mut p = Progress::default();
    assert_eq!(p.total(), None);
    assert_eq!(p.update(3), None);
    assert_eq!(p.current(), 3);
    let mut q = Progress::new(4);
    let u: &mut dyn ProgressUpdater = &mut q;
    assert_eq!(u.update(1), Some(25));
}
