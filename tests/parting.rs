use ferry::file_info::{EntryKind, FileInfo};
use ferry::header::Header;
use ferry::part::plan_split;
use ferry::parting::{plan_parts, PartingInfo, MIN_CHUNK_SIZE, MIN_SPLIT_SIZE};
use ferry::performance::{Performance, MAX_SLOW_PARTS};
use ferry::splitter::FileSplitter;
use ferry::worker::WorkAction;

#[test]
fn calculate_test() {
    let parting_info = PartingInfo::calculate(MIN_CHUNK_SIZE as u64 * 2, Performance::Fast);
    assert_eq!(*parting_info.size(), 8192);
    assert_eq!(*parting_info.count(), 2);
    let parting_info = PartingInfo::calculate(17 * 1024, Performance::Average);
    assert_eq!(*parting_info.size(), 8192);
    assert_eq!(*parting_info.count(), 3);
    let parting_info =
        PartingInfo::calculate(8 * 1024 * (MAX_SLOW_PARTS + 1) as u64, Performance::Slow);
    assert_eq!(*parting_info.size(), 8256);
    assert_eq!(*parting_info.count(), MAX_SLOW_PARTS as u64);
}

#[test]
fn parting_covers_file() {
    for (size, perf) in [
        (0u64, Performance::Fast),
        (1, Performance::Fast),
        (16_384, Performance::Slow),
        (17_408, Performance::Average),
        (1 << 30, Performance::Fast),
        (1 << 30, Performance::Slow),
        (8192 * 170, Performance::Average),
    ] {
        let info = PartingInfo::calculate(size, perf);
        assert!(info.count() * info.size() >= size, "{}", size);
        assert!(*info.count() <= perf.max_parts() as u64);
        if size >= MIN_SPLIT_SIZE as u64 {
            assert!(*info.size() >= 8192);
        }
    }
}

#[test]
fn parting_clamped_remainder() {
    // clamped and not a multiple of the count: the part size is rounded up
    let size = 8256 * 128 + 1;
    let info = PartingInfo::calculate(size, Performance::Slow);
    assert_eq!(*info.count(), 128);
    assert_eq!(*info.size(), 8257);
    assert!(info.count() * info.size() >= size);
    let size = 2_097_153;
    let info = PartingInfo::calculate(size, Performance::Fast);
    assert_eq!(*info.count(), 256);
    assert_eq!(*info.size(), 8193);
    let ranges = plan_parts(&info, size);
    assert_eq!(ranges[0], (0, 8193));
    assert_eq!(ranges[255].1, size);
    for w in ranges.windows(2) {
        assert_eq!(w[0].1, w[1].0);
    }
}

#[test]
fn part_ranges() {
    let info = PartingInfo::calculate(17_408, Performance::Average);
    let ranges = plan_parts(&info, 17_408);
    assert_eq!(ranges, vec![(0, 8192), (8192, 16_384), (16_384, 17_408)]);
}

#[test]
fn part_names_and_headers() {
    let file = FileInfo::from_path_and_detect(
        "/data/movie.mp4".to_string(),
        17_408,
        EntryKind::File,
        true,
        &Performance::Fast,
    );
    let info = PartingInfo::calculate(17_408, Performance::Fast);
    let parts = plan_split(&file, &info).ok().unwrap();
    assert_eq!(parts.len(), 3);
    assert_eq!(parts[0].dst_name(), "movie.mp4.zst0");
    assert_eq!(parts[2].dst_name(), "movie.mp4.zst2");
    let h = parts[0].get_header().unwrap();
    assert_eq!(h.bytes(), &[0, 0, 0, 0, 0, 0, 0x20, 0, 0, 3]);
    assert!(parts[1].get_header().is_none());
    let chunk = parts[0].make_chunk(vec![7u8; 5]);
    assert_eq!(chunk.size(), 15);
    assert_eq!(*chunk.start(), 0);
    assert_eq!(*chunk.end(), 5);
    assert_eq!(&chunk.data()[10..], &[7u8; 5]);
    let chunk = parts[1].make_chunk(vec![1u8, 2]);
    assert_eq!(chunk.data(), &vec![1u8, 2]);
    assert_eq!(*chunk.start(), 8192);
    assert_eq!(parts[2].next_read_len(), 1024);
    let plain = FileInfo::from_path_and_detect(
        "/data/movie.mp4".to_string(),
        10,
        EntryKind::File,
        false,
        &Performance::Fast,
    );
    assert_eq!(plain.append_part_num(&12), "movie.mp4.12");
}

#[test]
fn part_progress() {
    let mut part = ferry::part::Part::new("f.zst1".to_string(), None, 100, 9000).ok().unwrap();
    assert_eq!(part.size(), 8900);
    assert_eq!(part.next_read_len(), 8192);
    let chunk = part.make_chunk(vec![0u8; 8192]);
    part.advance(&chunk);
    assert_eq!(*part.next_offset(), 8292);
    assert_eq!(part.next_read_len(), 708);
    assert!(!part.is_complete());
    let chunk = part.make_chunk(vec![0u8; 708]);
    part.advance(&chunk);
    assert!(part.is_complete());
}

#[test]
fn header_roundtrip_through_part_plan() {
    let info = PartingInfo::calculate(1 << 30, Performance::Fast);
    let h = info.header().unwrap();
    let back = Header::from_bytes(h.bytes());
    assert_eq!(back.part_size() as u64, *info.size());
    assert_eq!(back.part_count() as u64, *info.count());
}

#[test]
fn abort_mid_split() {
    let file = FileInfo::from_path_and_detect(
        "/data/big.bin".to_string(),
        1 << 30,
        EntryKind::File,
        true,
        &Performance::Fast,
    );
    let mut splitter = FileSplitter::new(2, &file, Performance::Fast).ok().unwrap();
    assert_eq!(splitter.parts().len(), 256);
    let parts = splitter.take_parts();
    assert_eq!(parts.len(), 256);
    assert_eq!(*parts[255].end_offset(), 1 << 30);
    assert!(splitter.parts().is_empty());
    assert!(!splitter.is_complete());
    splitter.part_done(0, true);
    splitter.part_done(1, true);
    assert!(!splitter.is_complete());
    assert!(splitter.on_action(WorkAction::Abort(2)));
    assert!(splitter.is_complete());
}
