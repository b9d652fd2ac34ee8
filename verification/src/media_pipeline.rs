//! The media processing pipeline: each upload is looked up in the cache,
//! otherwise checked, given a thumbnail when it is an image, cached, and
//! counted. Waiting for a free processing slot happens outside.

use vstd::prelude::*;
use crate::clock::now_nanos;
use crate::error::Error;
use crate::text::{concat2, lower_hex, owned, text_eq, u64_to_lower_hex};
use crate::media::{
    MediaProcessingMetrics, ThumbnailConfig, ThumbnailGenerator, file_format_problem, is_image_type,
    placeholder_thumbnail, validate_file_format,
};
use crate::media_cache::{
    MediaCache, MediaCacheStatsReport, MediaCacheView, MediaProcessingConfig, cache_get, cache_put, copy_bytes, wrap_add,
    wrap_inc,
};

verus! {

/// What the pipeline knows of a processed upload.
#[derive(Debug)]
pub struct ProcessedMediaMetadata {
    /// Size as uploaded, in bytes.
    pub original_size: usize,
    /// Size after processing, in bytes.
    pub processed_size: usize,
    /// MIME type.
    pub mime_type: String,
    /// Whether the data is compressed.
    pub is_compressed: bool,
    /// Size as stored, in bytes (the compression ratio is this over the
    /// original size).
    pub stored_size: usize,
    /// Processing time, in milliseconds.
    pub processing_time_ms: u64,
    /// A thumbnail, for images.
    pub thumbnail_data: Option<Vec<u8>>,
}

/// A processed upload.
#[derive(Debug)]
pub struct ProcessedMediaResult {
    /// The processed bytes.
    pub processed_data: Vec<u8>,
    /// What is known of them.
    pub metadata: ProcessedMediaMetadata,
    /// Whether they came from the cache.
    pub cache_hit: bool,
}

/// A processed upload apart from its processing time.
pub struct UploadView {
    /// The processed bytes.
    pub data: Seq<u8>,
    /// Size as uploaded.
    pub original_size: usize,
    /// Size after processing.
    pub processed_size: usize,
    /// MIME type.
    pub mime_type: Seq<char>,
    /// Whether compressed.
    pub is_compressed: bool,
    /// Size as stored.
    pub stored_size: usize,
    /// The thumbnail.
    pub thumbnail: Option<Seq<u8>>,
    /// Whether it came from the cache.
    pub cache_hit: bool,
}

/// The view of an optional thumbnail.
pub open spec fn thumbnail_view(t: Option<Vec<u8>>) -> Option<Seq<u8>> {
    match t {
        Some(v) => Some(v@),
        None => None,
    }
}

/// The view of a result.
pub open spec fn upload_view(r: ProcessedMediaResult) -> UploadView {
    UploadView {
        data: r.processed_data@,
        original_size: r.metadata.original_size,
        processed_size: r.metadata.processed_size,
        mime_type: r.metadata.mime_type@,
        is_compressed: r.metadata.is_compressed,
        stored_size: r.metadata.stored_size,
        thumbnail: thumbnail_view(r.metadata.thumbnail_data),
        cache_hit: r.cache_hit,
    }
}

/// Whether a MIME type names an image.
pub open spec fn is_image(mime: Seq<char>) -> bool {
    mime.len() >= 6 && mime.subrange(0, 6) == "image/"@
}

/// What processing `data` of type `mime` yields when the cache does not hold
/// it: a file above the in-memory limit is taken as it is, without a
/// thumbnail; a smaller one is first checked against its type and, for an
/// image, given a thumbnail when thumbnails are enabled. Unprocessed data is
/// returned unchanged and uncompressed.
pub open spec fn fresh_upload(
    max_memory_file_size: usize,
    thumbnails: Option<ThumbnailConfig>,
    data: Seq<u8>,
    mime: Seq<char>,
) -> Result<UploadView, Seq<char>> {
    let n = data.len() as usize;
    let plain = UploadView {
        data,
        original_size: n,
        processed_size: n,
        mime_type: mime,
        is_compressed: false,
        stored_size: n,
        thumbnail: None,
        cache_hit: false,
    };
    if data.len() > max_memory_file_size {
        Ok(plain)
    } else {
        match file_format_problem(data, mime) {
            Some(msg) => Err(msg),
            None => Ok(UploadView {
                thumbnail: match thumbnails {
                    Some(t) => if is_image(mime) && t.enabled { Some(placeholder_thumbnail(t)) } else { None },
                    None => None,
                },
                ..plain
            }),
        }
    }
}

/// The metrics after an upload of `n` bytes was counted, apart from the
/// processing time.
pub open spec fn counted_upload(before: MediaProcessingMetrics, after: MediaProcessingMetrics, n: usize) -> bool {
    &&& after.files_processed == wrap_inc(before.files_processed)
    &&& after.bytes_processed == wrap_add(before.bytes_processed, n as u64)
    &&& after.failed_operations == before.failed_operations
    &&& after.retries_performed == before.retries_performed
    &&& after.memory_high_watermark_bytes == before.memory_high_watermark_bytes
}

/// The metrics with the memory high watermark raised to `n`.
pub open spec fn watermarked(m: MediaProcessingMetrics, n: usize) -> MediaProcessingMetrics {
    MediaProcessingMetrics {
        memory_high_watermark_bytes: if n > m.memory_high_watermark_bytes { n } else { m.memory_high_watermark_bytes },
        ..m
    }
}

/// One upload of `data` of type `mime` under cache key `key` looked up at
/// `now`, from cache `c0` and metrics `m0` to cache `c` and metrics `m`
/// with result `r`: a cache hit hands back the cached bytes and metadata;
/// otherwise the data is processed (see [`fresh_upload`]), and a processed
/// upload is cached and counted. The watermark always rises to the upload's
/// size.
pub open spec fn upload_step(
    cfg: MediaProcessingConfig,
    c0: MediaCacheView,
    m0: MediaProcessingMetrics,
    data: Seq<u8>,
    mime: Seq<char>,
    key: Seq<char>,
    now: u128,
    c: MediaCacheView,
    m: MediaProcessingMetrics,
    r: Result<ProcessedMediaResult, Error>,
) -> bool {
    let n = data.len() as usize;
    let m1 = watermarked(m0, n);
    let (c1, hit) = cache_get(c0, cfg.cache_ttl_seconds, key, now);
    match hit {
        Some((d, meta)) => {
            &&& r matches Ok(res) && upload_view(res) == (UploadView {
                data: d,
                original_size: meta.original_size,
                processed_size: d.len() as usize,
                mime_type: meta.mime_type,
                is_compressed: meta.is_compressed,
                stored_size: meta.stored_size,
                thumbnail: None,
                cache_hit: true,
            }) && res.metadata.processing_time_ms == 0
            &&& c == c1
            &&& m == m1
        },
        None => match fresh_upload(cfg.max_memory_file_size, cfg.thumbnail_config, data, mime) {
            Err(msg) => {
                &&& r matches Err(Error::ApiError(e)) && e@ == msg
                &&& c == c1
                &&& m == m1
            },
            Ok(u) => {
                &&& r matches Ok(res) && upload_view(res) == u
                &&& exists|t: u128, ct: u64| c == cache_put(c1, cfg.enable_compression, cfg.max_cache_size_bytes, key, u.data, mime, t, ct)
                &&& counted_upload(m1, m, n)
            },
        },
    }
}

/// The hash that std's `DefaultHasher`, freshly made by `new`, gives after
/// taking the length of `data` as eight little-endian bytes, the bytes of
/// `data`, the UTF-8 bytes of `mime_type` and a final `0xff` byte.
pub uninterp spec fn media_hash(data: Seq<u8>, mime_type: Seq<char>) -> u64;

/// Hashes an upload with a fresh `DefaultHasher` (std `DefaultHasher::new`,
/// `Hasher::write`, `Hasher::finish`): the length of the data as eight
/// little-endian bytes, the data, the bytes of the type and `0xff`. The
/// contract names the result: std documents that every hasher `new` makes
/// is the same and `write` takes the bytes alone, so the result is a
/// function of the data and the type (for a given build of std, whose
/// algorithm the documentation leaves open).
#[verifier::external_body]
fn hash_media(data: &[u8], mime_type: &str) -> (r: u64)
    ensures
        r == media_hash(data@, mime_type@),
{
    let mut hasher = std::collections::hash_map::DefaultHasher::new();
    std::hash::Hasher::write(&mut hasher, &(data.len() as u64).to_le_bytes());
    std::hash::Hasher::write(&mut hasher, data);
    std::hash::Hasher::write(&mut hasher, mime_type.as_bytes());
    std::hash::Hasher::write(&mut hasher, &[0xffu8]);
    std::hash::Hasher::finish(&hasher)
}

/// The cache key of an upload: `media_` and the lower-case hexadecimal
/// digits of the hash of its bytes and type (see [`media_hash`]).
pub open spec fn media_key(data: Seq<u8>, mime_type: Seq<char>) -> Seq<char> {
    "media_"@ + lower_hex(media_hash(data, mime_type) as nat)
}

fn elapsed_micros(start: u128) -> (r: u64) {
    let end = now_nanos();
    let us = if end >= start { (end - start) / 1000 } else { 0 };
    if us > u64::MAX as u128 { u64::MAX } else { us as u64 }
}

/// The processing pipeline.
#[derive(Debug)]
pub struct MediaProcessingPipeline {
    /// Settings.
    pub config: MediaProcessingConfig,
    /// The cache of processed uploads.
    pub cache: MediaCache,
    /// Counters.
    pub metrics: MediaProcessingMetrics,
    /// The thumbnail maker, when thumbnails are configured.
    pub thumbnail_generator: Option<ThumbnailGenerator>,
}

/// Whether a thumbnail configuration yields placeholders whose size fits
/// the arithmetic that computes it.
pub open spec fn thumbnail_size_fits(t: Option<ThumbnailConfig>) -> bool {
    t matches Some(c) ==> c.width * c.height * 3 <= u32::MAX
}

/// Counters of the pipeline as reported.
#[derive(Debug, Clone, Copy)]
pub struct MediaProcessingMetricsReport {
    /// Files processed.
    pub files_processed: u64,
    /// Bytes processed.
    pub bytes_processed: u64,
    /// Average processing time per file, in milliseconds (zero before the
    /// first file).
    pub avg_processing_time_ms: u64,
    /// Failed operations.
    pub failed_operations: u64,
    /// Retries performed.
    pub retries_performed: u64,
    /// Largest memory use seen, in bytes.
    pub memory_high_watermark_bytes: usize,
    /// The cache's counters.
    pub cache_stats: MediaCacheStatsReport,
}

impl MediaProcessingPipeline {
    /// Well-formedness: the cache and the thumbnail maker follow the
    /// pipeline's settings.
    pub open spec fn wf(&self) -> bool {
        &&& self.cache.wf()
        &&& self.cache.config == self.config
        &&& match self.config.thumbnail_config {
            Some(t) => self.thumbnail_generator == Some(ThumbnailGenerator { config: t }),
            None => self.thumbnail_generator is None,
        }
        &&& thumbnail_size_fits(self.config.thumbnail_config)
    }

    /// A pipeline with an empty cache and zero counters.
    pub fn new(config: MediaProcessingConfig) -> (r: Self)
        requires
            thumbnail_size_fits(config.thumbnail_config),
        ensures
            r.wf(),
            r.config == config,
            r.cache@.entries.len() == 0,
            r.cache@.total_size_bytes == 0,
            r.metrics == (MediaProcessingMetrics {
                files_processed: 0,
                bytes_processed: 0,
                total_processing_time_us: 0,
                failed_operations: 0,
                retries_performed: 0,
                memory_high_watermark_bytes: 0,
            }),
    {
        let thumbnail_generator = match config.thumbnail_config {
            Some(t) => Some(ThumbnailGenerator::new(t)),
            None => None,
        };
        let cache = MediaCache::new(config);
        MediaProcessingPipeline { config, cache, metrics: MediaProcessingMetrics::new(), thumbnail_generator }
    }

    /// Processes a file small enough to hold: checks it against its type
    /// and, for an image, makes a thumbnail when thumbnails are enabled.
    fn process_in_memory(&self, file_data: Vec<u8>, mime_type: String) -> (r: Result<ProcessedMediaResult, Error>)
        requires
            self.wf(),
            file_data@.len() <= self.config.max_memory_file_size,
        ensures
            match fresh_upload(self.config.max_memory_file_size, self.config.thumbnail_config, file_data@, mime_type@) {
                Err(msg) => r matches Err(Error::ApiError(e)) && e@ == msg,
                Ok(u) => r matches Ok(res) && upload_view(res) == u,
            },
    {
        let start = now_nanos();
        let original_size = file_data.len();
        match validate_file_format(file_data.as_slice(), mime_type.as_str()) {
            Err(e) => return Err(e),
            Ok(()) => {},
        }
        let thumbnail_data = match &self.thumbnail_generator {
            Some(generator) => {
                if is_image_type(mime_type.as_str()) {
                    match generator.generate_thumbnail(file_data.as_slice(), mime_type.as_str()) {
                        Ok(t) => Some(t),
                        Err(_) => None,
                    }
                } else {
                    None
                }
            },
            None => None,
        };
        let processing_time_ms = elapsed_micros(start) / 1000;
        Ok(ProcessedMediaResult {
            processed_data: file_data,
            metadata: ProcessedMediaMetadata {
                original_size,
                processed_size: original_size,
                mime_type,
                is_compressed: false,
                stored_size: original_size,
                processing_time_ms,
                thumbnail_data,
            },
            cache_hit: false,
        })
    }

    /// Processes a large file in chunks of the configured size; the chunks
    /// are put back together unchanged.
    fn process_large_file(&self, file_data: Vec<u8>, mime_type: String) -> (r: ProcessedMediaResult)
        requires
            self.config.streaming_chunk_size > 0,
        ensures
            upload_view(r) == (UploadView {
                data: file_data@,
                original_size: file_data@.len() as usize,
                processed_size: file_data@.len() as usize,
                mime_type: mime_type@,
                is_compressed: false,
                stored_size: file_data@.len() as usize,
                thumbnail: None,
                cache_hit: false,
            }),
    {
        let start = now_nanos();
        let original_size = file_data.len();
        let chunk_size = self.config.streaming_chunk_size;
        let mut combined: Vec<u8> = Vec::new();
        let mut pos: usize = 0;
        while pos < original_size
            invariant
                original_size == file_data@.len(),
                pos <= original_size,
                chunk_size > 0,
                combined@ == file_data@.take(pos as int),
            decreases original_size - pos,
        {
            let end = if original_size - pos > chunk_size { pos + chunk_size } else { original_size };
            let mut j = pos;
            while j < end
                invariant
                    original_size == file_data@.len(),
                    pos <= j <= end <= original_size,
                    combined@ == file_data@.take(j as int),
                decreases end - j,
            {
                combined.push(file_data[j]);
                proof { assert(file_data@.take(j + 1) =~= file_data@.take(j as int).push(file_data@[j as int])); }
                j = j + 1;
            }
            pos = end;
        }
        proof { assert(file_data@.take(original_size as int) =~= file_data@); }
        let processed_size = combined.len();
        let processing_time_ms = elapsed_micros(start) / 1000;
        ProcessedMediaResult {
            processed_data: combined,
            metadata: ProcessedMediaMetadata {
                original_size,
                processed_size,
                mime_type,
                is_compressed: false,
                stored_size: original_size,
                processing_time_ms,
                thumbnail_data: None,
            },
            cache_hit: false,
        }
    }

    /// The cache key of an upload: see [`media_key`].
    pub fn generate_cache_key(&self, file_data: &[u8], mime_type: &str) -> (r: String)
        ensures
            r@ == media_key(file_data@, mime_type@),
    {
        proof { reveal_strlit("media_"); }
        let h = hash_media(file_data, mime_type);
        let digits = u64_to_lower_hex(h);
        concat2("media_", digits.as_str())
    }

    /// Processes an upload: see [`upload_step`].
    pub fn process_upload_bytes(&mut self, file_data: Vec<u8>, mime_type: String, _display_name: Option<String>)
        -> (r: Result<ProcessedMediaResult, Error>)
        requires
            old(self).wf(),
            old(self).cache.total_size_bytes + file_data@.len() <= usize::MAX,
            file_data@.len() > old(self).config.max_memory_file_size ==> old(self).config.streaming_chunk_size > 0,
        ensures
            final(self).wf(),
            final(self).config == old(self).config,
            final(self).thumbnail_generator == old(self).thumbnail_generator,
            exists|now: u128| #[trigger] upload_step(
                old(self).config,
                old(self).cache@,
                old(self).metrics,
                file_data@,
                mime_type@,
                media_key(file_data@, mime_type@),
                now,
                final(self).cache@,
                final(self).metrics,
                r,
            ),
    {
        let ghost c0 = self.cache@;
        let ghost m0 = self.metrics;
        let ghost data0 = file_data@;
        let ghost mime0 = mime_type@;
        let start = now_nanos();
        let n = file_data.len();
        self.metrics.update_memory_watermark(n);
        let key = self.generate_cache_key(file_data.as_slice(), mime_type.as_str());
        let now = now_nanos();
        match self.cache.get_at(key.as_str(), now) {
            Some((cached_data, metadata)) => {
                let processed_size = cached_data.len();
                let res = ProcessedMediaResult {
                    processed_data: cached_data,
                    metadata: ProcessedMediaMetadata {
                        original_size: metadata.original_size,
                        processed_size,
                        mime_type: metadata.mime_type,
                        is_compressed: metadata.is_compressed,
                        stored_size: metadata.stored_size,
                        processing_time_ms: 0,
                        thumbnail_data: None,
                    },
                    cache_hit: true,
                };
                let r = Ok(res);
                assert(upload_step(self.config, c0, m0, data0, mime0, key@, now, self.cache@, self.metrics, r));
                return r;
            },
            None => {},
        }
        let ghost c1 = self.cache@;
        let processed = if n > self.config.max_memory_file_size {
            self.process_large_file(file_data, mime_type.clone())
        } else {
            match self.process_in_memory(file_data, mime_type.clone()) {
                Ok(p) => p,
                Err(e) => {
                    let r = Err(e);
                    assert(upload_step(self.config, c0, m0, data0, mime0, key@, now, self.cache@, self.metrics, r));
                    return r;
                },
            }
        };
        let stored = copy_bytes(&processed.processed_data);
        self.cache.put(key, stored, mime_type);
        self.metrics.files_processed = self.metrics.files_processed.wrapping_add(1);
        self.metrics.bytes_processed = self.metrics.bytes_processed.wrapping_add(n as u64);
        let elapsed = elapsed_micros(start);
        self.metrics.total_processing_time_us = self.metrics.total_processing_time_us.wrapping_add(elapsed);
        let r = Ok(processed);
        proof {
            let n0 = data0.len() as usize;
            assert(cache_get(c0, self.config.cache_ttl_seconds, key@, now).1 is None);
            assert(cache_get(c0, self.config.cache_ttl_seconds, key@, now).0 == c1);
            let u = fresh_upload(self.config.max_memory_file_size, self.config.thumbnail_config, data0, mime0);
            assert(u matches Ok(uv) && upload_view(processed) == uv && uv.data == data0);
            assert(exists|t: u128, ct: u64| self.cache@ == cache_put(c1, self.config.enable_compression, self.config.max_cache_size_bytes, key@, data0, mime0, t, ct));
            assert(counted_upload(watermarked(m0, n0), self.metrics, n0));
        }
        assert(upload_step(self.config, c0, m0, data0, mime0, key@, now, self.cache@, self.metrics, r));
        r
    }

    /// The counters, with the average processing time in milliseconds.
    pub fn get_metrics(&self) -> (r: MediaProcessingMetricsReport)
        ensures
            r.files_processed == self.metrics.files_processed,
            r.bytes_processed == self.metrics.bytes_processed,
            r.avg_processing_time_ms == if self.metrics.files_processed == 0 { 0 } else {
                self.metrics.total_processing_time_us / self.metrics.files_processed / 1000
            },
            r.failed_operations == self.metrics.failed_operations,
            r.retries_performed == self.metrics.retries_performed,
            r.memory_high_watermark_bytes == self.metrics.memory_high_watermark_bytes,
            r.cache_stats.hits == self.cache.stats.hits,
            r.cache_stats.misses == self.cache.stats.misses,
    {
        let avg = if self.metrics.files_processed == 0 {
            0
        } else {
            self.metrics.total_processing_time_us / self.metrics.files_processed / 1000
        };
        MediaProcessingMetricsReport {
            files_processed: self.metrics.files_processed,
            bytes_processed: self.metrics.bytes_processed,
            avg_processing_time_ms: avg,
            failed_operations: self.metrics.failed_operations,
            retries_performed: self.metrics.retries_performed,
            memory_high_watermark_bytes: self.metrics.memory_high_watermark_bytes,
            cache_stats: self.cache.get_stats(),
        }
    }

    /// Empties the cache.
    pub fn clear_cache(&mut self)
        requires
            old(self).wf(),
        ensures
            final(self).wf(),
            final(self).config == old(self).config,
            final(self).cache@.entries.len() == 0,
            final(self).metrics == old(self).metrics,
    {
        self.cache.clear();
    }

    /// The cache's counters.
    pub fn get_cache_stats(&self) -> (r: MediaCacheStatsReport)
        ensures
            r.hits == self.cache.stats.hits,
            r.misses == self.cache.stats.misses,
            r.evictions == self.cache.stats.evictions,
            r.total_size_bytes == self.cache.total_size_bytes,
    {
        self.cache.get_stats()
    }
}


/// The MIME type that a file extension stands for: JPEG, PNG, GIF and PDF
/// are recognised, anything else is generic binary data.
pub open spec fn mime_for_extension(ext: Option<Seq<char>>) -> Seq<char> {
    match ext {
        Some(e) => if e == "jpg"@ || e == "jpeg"@ {
            "image/jpeg"@
        } else if e == "png"@ {
            "image/png"@
        } else if e == "gif"@ {
            "image/gif"@
        } else if e == "pdf"@ {
            "application/pdf"@
        } else {
            "application/octet-stream"@
        },
        None => "application/octet-stream"@,
    }
}

/// The MIME type of a file by its extension: see [`mime_for_extension`].
pub fn mime_type_for_extension(ext: Option<&str>) -> (r: String)
    ensures
        r@ == mime_for_extension(match ext { Some(e) => Some(e@), None => None }),
{
    proof {
        reveal_strlit("jpg");
        reveal_strlit("jpeg");
        reveal_strlit("png");
        reveal_strlit("gif");
        reveal_strlit("pdf");
        reveal_strlit("image/jpeg");
        reveal_strlit("image/png");
        reveal_strlit("image/gif");
        reveal_strlit("application/pdf");
        reveal_strlit("application/octet-stream");
    }
    match ext {
        Some(e) => {
            if text_eq(e, "jpg") || text_eq(e, "jpeg") {
                owned("image/jpeg")
            } else if text_eq(e, "png") {
                owned("image/png")
            } else if text_eq(e, "gif") {
                owned("image/gif")
            } else if text_eq(e, "pdf") {
                owned("application/pdf")
            } else {
                owned("application/octet-stream")
            }
        },
        None => owned("application/octet-stream"),
    }
}

} // verus!
