use velopack_bins::compression::{NullProgressReporter, UnzipProgressReporter};
use velopack_bins::compression::total_compressed_bytes;
use velopack_bins::compression::{zip_entry_action, zip_entry_name, CompressionLevel, ZipEntryAction};

#[test]
fn compression_level_new_accepts_zero_to_nine() {
    for level in 0u8..=9 {
        let c = CompressionLevel::new(level).expect("level in range");
        assert_eq!(c.get(), level);
    }
}

#[test]
fn compression_level_new_rejects_above_nine() {
    assert!(CompressionLevel::new(10).is_none());
    assert!(CompressionLevel::new(255).is_none());
}

#[test]
fn compression_level_presets() {
    assert_eq!(CompressionLevel::none().get(), 0);
    assert_eq!(CompressionLevel::fast().get(), 1);
    assert_eq!(CompressionLevel::balanced().get(), 6);
    assert_eq!(CompressionLevel::best().get(), 9);
}

#[test]
fn compression_level_default_is_balanced() {
    assert_eq!(CompressionLevel::default(), CompressionLevel::balanced());
}

#[test]
fn compression_level_orders_by_level() {
    assert!(CompressionLevel::fast() < CompressionLevel::best());
    assert!(CompressionLevel::none() < CompressionLevel::fast());
    assert_eq!(CompressionLevel::new(6), Some(CompressionLevel::balanced()));
}

#[test]
fn zip_entry_name_uses_forward_slashes() {
    assert_eq!(zip_entry_name("lib\\net8\\app.dll"), "lib/net8/app.dll");
    assert_eq!(zip_entry_name("already/forward"), "already/forward");
    assert_eq!(zip_entry_name(""), "");
    assert_eq!(zip_entry_name("中文\\文件.txt"), "中文/文件.txt");
}

#[test]
fn zip_entry_action_skips_only_the_root_directory() {
    assert_eq!(zip_entry_action(true, ""), ZipEntryAction::Skip);
    assert_eq!(zip_entry_action(true, "sub"), ZipEntryAction::AddDirectory);
    assert_eq!(zip_entry_action(false, "file.txt"), ZipEntryAction::AddFile);
    assert_eq!(zip_entry_action(false, ""), ZipEntryAction::AddFile);
}

#[test]
fn total_compressed_bytes_sums_and_saturates() {
    assert_eq!(total_compressed_bytes(&[]), 0);
    assert_eq!(total_compressed_bytes(&[10, 20, 30]), 60);
    assert_eq!(total_compressed_bytes(&[u64::MAX - 1, 1]), u64::MAX);
    assert_eq!(total_compressed_bytes(&[u64::MAX, 5, 7]), u64::MAX);
}

#[test]
fn null_reporter_accepts_every_call() {
    let r = NullProgressReporter;
    r.total_bytes_expected(3);
    r.extraction_starting("a");
    r.bytes_extracted(3);
    r.extraction_finished("a");
}
