use api_gemini::error::Error;
use api_gemini::media::{ThumbnailConfig, ThumbnailFormat};
use api_gemini::media_cache::{MediaCache, MediaProcessingConfig};
use api_gemini::media_pipeline::{mime_type_for_extension, MediaProcessingPipeline};

const SECOND: u128 = 1_000_000_000;

fn config(max_cache: usize, ttl: u64) -> MediaProcessingConfig {
    MediaProcessingConfig {
        enable_compression: true,
        max_cache_size_bytes: max_cache,
        cache_ttl_seconds: ttl,
        max_memory_file_size: 1024,
        streaming_chunk_size: 3,
        max_concurrent_operations: 4,
        thumbnail_config: Some(ThumbnailConfig { enabled: true, format: ThumbnailFormat::Png, width: 10, height: 10 }),
    }
}

#[test]
fn read_after_write_gives_back_the_stored_bytes() {
    let mut cache = MediaCache::new(config(1000, 60));
    cache.put_at("k".to_string(), vec![1, 2, 3], "image/jpeg".to_string(), 5 * SECOND, 0);
    let (data, meta) = cache.get_at("k", 6 * SECOND).unwrap();
    assert_eq!(data, vec![1, 2, 3]);
    assert_eq!(meta.mime_type, "image/jpeg");
    assert_eq!(meta.original_size, 3);
    assert!(!meta.is_compressed);
    assert_eq!(cache.get_stats().hits, 1);
}

#[test]
fn repetitive_data_is_stored_run_length_encoded() {
    let mut cache = MediaCache::new(config(1000, 60));
    cache.put_at("text".to_string(), vec![b'a'; 10], "text/plain".to_string(), 0, 7);
    let (data, meta) = cache.get_at("text", 0).unwrap();
    assert_eq!(data, vec![0xFF, 9, b'a']);
    assert!(meta.is_compressed);
    assert_eq!(meta.original_size, 10);
    assert_eq!(meta.stored_size, 3);
    let stats = cache.get_stats();
    assert_eq!(stats.total_compressed_bytes, 3);
    assert_eq!(stats.avg_compression_time_us, 2);
    assert_eq!(stats.total_size_bytes, 3);
    // Already-compressed types and small savings are stored as given.
    cache.put_at("jpeg".to_string(), vec![b'a'; 10], "image/jpeg".to_string(), 0, 0);
    assert_eq!(cache.get_at("jpeg", 0).unwrap().0, vec![b'a'; 10]);
    cache.put_at("short".to_string(), vec![1, 1, 2], "text/plain".to_string(), 0, 0);
    assert_eq!(cache.get_at("short", 0).unwrap().0, vec![1, 1, 2]);
}

#[test]
fn entries_expire_after_their_time_to_live() {
    let mut cache = MediaCache::new(config(1000, 10));
    cache.put_at("k".to_string(), vec![9; 4], "image/png".to_string(), 0, 0);
    assert!(cache.get_at("k", 10 * SECOND + SECOND - 1).is_some());
    // The read renewed the entry; eleven whole seconds later it is gone.
    assert!(cache.get_at("k", 22 * SECOND).is_none());
    assert_eq!(cache.total_size_bytes, 0);
    assert!(cache.get_at("k", 22 * SECOND).is_none());
    let stats = cache.get_stats();
    assert_eq!(stats.hits, 1);
    assert_eq!(stats.misses, 2);
}

#[test]
fn least_recently_used_entries_are_evicted_first() {
    let mut cache = MediaCache::new(config(10, 1000));
    cache.put_at("a".to_string(), vec![1, 2, 3, 4], "image/png".to_string(), SECOND, 0);
    cache.put_at("b".to_string(), vec![5, 6, 7, 8], "image/png".to_string(), 2 * SECOND, 0);
    assert!(cache.get_at("a", 3 * SECOND).is_some());
    cache.put_at("c".to_string(), vec![9, 10, 11, 12], "image/png".to_string(), 4 * SECOND, 0);
    assert!(cache.get_at("b", 5 * SECOND).is_none());
    assert!(cache.get_at("a", 5 * SECOND).is_some());
    assert!(cache.get_at("c", 5 * SECOND).is_some());
    assert_eq!(cache.get_stats().evictions, 1);
    assert_eq!(cache.total_size_bytes, 8);
}

#[test]
fn replacing_a_key_keeps_one_entry() {
    let mut cache = MediaCache::new(config(1000, 1000));
    cache.put_at("k".to_string(), vec![1, 2], "image/png".to_string(), 0, 0);
    cache.put_at("k".to_string(), vec![3, 4, 5], "image/png".to_string(), 0, 0);
    assert_eq!(cache.entries.len(), 1);
    assert_eq!(cache.get_at("k", 0).unwrap().0, vec![3, 4, 5]);
    // Only the bytes of the entry held are counted.
    assert_eq!(cache.total_size_bytes, 3);
    cache.clear();
    assert!(cache.entries.is_empty());
    assert_eq!(cache.total_size_bytes, 0);
}

fn png(len: usize) -> Vec<u8> {
    let mut v = vec![0x89, 0x50, 0x4E, 0x47];
    v.resize(len, 0);
    v
}

#[test]
fn pipeline_processes_then_serves_from_cache() {
    let mut p = MediaProcessingPipeline::new(config(10_000, 3600));
    let first = p.process_upload_bytes(png(40), "image/png".to_string(), None).unwrap();
    assert!(!first.cache_hit);
    assert_eq!(first.processed_data, png(40));
    let thumb = first.metadata.thumbnail_data.unwrap();
    assert_eq!(thumb.len(), 30);
    assert_eq!(&thumb[..8], &[0x89, 0x50, 0x4E, 0x47, 0x0D, 0x0A, 0x1A, 0x0A]);
    let second = p.process_upload_bytes(png(40), "image/png".to_string(), None).unwrap();
    assert!(second.cache_hit);
    assert_eq!(second.metadata.processing_time_ms, 0);
    assert!(second.metadata.thumbnail_data.is_none());
    let m = p.get_metrics();
    assert_eq!(m.files_processed, 1);
    assert_eq!(m.bytes_processed, 40);
    assert_eq!(m.memory_high_watermark_bytes, 40);
    assert_eq!(m.cache_stats.hits, 1);
    assert_eq!(m.cache_stats.misses, 1);
}

#[test]
fn pipeline_checks_signatures_of_small_files_only() {
    let mut p = MediaProcessingPipeline::new(config(100_000, 3600));
    match p.process_upload_bytes(vec![1, 2, 3, 4], "image/png".to_string(), None) {
        Err(Error::ApiError(m)) => assert_eq!(m, "File signature doesn't match declared MIME type : image/png"),
        _ => panic!("a wrong signature is refused"),
    }
    let large = vec![7u8; 2000];
    let r = p.process_upload_bytes(large.clone(), "image/png".to_string(), None).unwrap();
    assert_eq!(r.processed_data, large);
    assert!(r.metadata.thumbnail_data.is_none());
    assert_eq!(p.get_metrics().files_processed, 1);
}

#[test]
fn extensions_map_to_mime_types() {
    assert_eq!(mime_type_for_extension(Some("jpg")), "image/jpeg");
    assert_eq!(mime_type_for_extension(Some("jpeg")), "image/jpeg");
    assert_eq!(mime_type_for_extension(Some("png")), "image/png");
    assert_eq!(mime_type_for_extension(Some("gif")), "image/gif");
    assert_eq!(mime_type_for_extension(Some("pdf")), "application/pdf");
    assert_eq!(mime_type_for_extension(Some("PNG")), "application/octet-stream");
    assert_eq!(mime_type_for_extension(None), "application/octet-stream");
}

#[test]
fn re_put_replaces_the_bytes_counted() {
    let mut cache = MediaCache::new(config(1000, 60));
    cache.put_at("k".to_string(), vec![1, 2, 3], "image/jpeg".to_string(), 5 * SECOND, 0);
    cache.put_at("k".to_string(), vec![4, 5, 6], "image/jpeg".to_string(), 6 * SECOND, 0);
    assert_eq!(cache.entries.len(), 1);
    assert_eq!(cache.get_stats().total_size_bytes, 3);
    cache.put_at("k".to_string(), vec![7], "image/jpeg".to_string(), 7 * SECOND, 0);
    assert_eq!(cache.get_stats().total_size_bytes, 1);
    let (data, _) = cache.get_at("k", 8 * SECOND).unwrap();
    assert_eq!(data, vec![7]);
}

#[test]
fn upload_cache_keys_are_hex_hashes_of_bytes_and_type() {
    let p = MediaProcessingPipeline::new(config(1000, 60));
    let a = p.generate_cache_key(&[1, 2, 3], "image/png");
    let b = p.generate_cache_key(&[1, 2, 3], "image/png");
    let c = p.generate_cache_key(&[1, 2, 3], "image/jpeg");
    assert_eq!(a, b);
    assert_ne!(a, c);
    assert!(a.starts_with("media_"));
    let digits = &a["media_".len()..];
    assert!(!digits.is_empty() && digits.len() <= 16);
    assert!(digits.chars().all(|ch| ch.is_ascii_digit() || ('a'..='f').contains(&ch)));
    assert!(digits == "0" || !digits.starts_with('0'));
}
