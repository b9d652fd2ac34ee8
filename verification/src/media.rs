//! Media handling: file signature checks, which formats are worth
//! compressing, a run-length encoding of repeated bytes, and the counters of
//! the media cache and processing pipeline.

use vstd::prelude::*;
use crate::error::Error;
use crate::text::{owned, concat2, text_eq};

verus! {

/// Largest file accepted for formats without a known signature: 100 MiB.
pub const MAX_UNSIGNED_FILE_BYTES: usize = 104857600;

/// Counters of the media cache.
#[derive(Debug, Clone, Copy)]
pub struct MediaCacheStats {
    /// Cache hits.
    pub hits: u64,
    /// Cache misses.
    pub misses: u64,
    /// Entries evicted.
    pub evictions: u64,
    /// Bytes stored compressed.
    pub total_compressed_bytes: u64,
    /// Time spent compressing, in microseconds.
    pub total_compression_time_us: u64,
}

impl MediaCacheStats {
    /// Counters at zero.
    pub fn new() -> (r: Self)
        ensures
            r == (MediaCacheStats { hits: 0, misses: 0, evictions: 0, total_compressed_bytes: 0, total_compression_time_us: 0 }),
    {
        MediaCacheStats { hits: 0, misses: 0, evictions: 0, total_compressed_bytes: 0, total_compression_time_us: 0 }
    }
}

impl Default for MediaCacheStats {
    /// See [`MediaCacheStats::new`].
    fn default() -> (r: Self)
        ensures
            r == (MediaCacheStats { hits: 0, misses: 0, evictions: 0, total_compressed_bytes: 0, total_compression_time_us: 0 }),
    {
        MediaCacheStats::new()
    }
}

/// Counters of the media processing pipeline.
#[derive(Debug, Clone, Copy)]
pub struct MediaProcessingMetrics {
    /// Files processed.
    pub files_processed: u64,
    /// Bytes processed.
    pub bytes_processed: u64,
    /// Processing time, in microseconds.
    pub total_processing_time_us: u64,
    /// Failed operations.
    pub failed_operations: u64,
    /// Retries performed.
    pub retries_performed: u64,
    /// Largest memory use seen, in bytes.
    pub memory_high_watermark_bytes: usize,
}

impl MediaProcessingMetrics {
    /// Counters at zero.
    pub fn new() -> (r: Self)
        ensures
            r == (MediaProcessingMetrics {
                files_processed: 0,
                bytes_processed: 0,
                total_processing_time_us: 0,
                failed_operations: 0,
                retries_performed: 0,
                memory_high_watermark_bytes: 0,
            }),
    {
        MediaProcessingMetrics {
            files_processed: 0,
            bytes_processed: 0,
            total_processing_time_us: 0,
            failed_operations: 0,
            retries_performed: 0,
            memory_high_watermark_bytes: 0,
        }
    }

    /// Raises the memory high watermark to `current_usage` when that is
    /// higher.
    pub fn update_memory_watermark(&mut self, current_usage: usize)
        ensures
            *final(self) == (MediaProcessingMetrics {
                memory_high_watermark_bytes: if current_usage > old(self).memory_high_watermark_bytes {
                    current_usage
                } else {
                    old(self).memory_high_watermark_bytes
                },
                ..*old(self)
            }),
    {
        if current_usage > self.memory_high_watermark_bytes {
            self.memory_high_watermark_bytes = current_usage;
        }
    }
}

impl Default for MediaProcessingMetrics {
    /// See [`MediaProcessingMetrics::new`].
    fn default() -> (r: Self)
        ensures
            r == (MediaProcessingMetrics {
                files_processed: 0,
                bytes_processed: 0,
                total_processing_time_us: 0,
                failed_operations: 0,
                retries_performed: 0,
                memory_high_watermark_bytes: 0,
            }),
    {
        MediaProcessingMetrics::new()
    }
}

/// The signature that files of a MIME type start with, when one is known:
/// JPEG, PNG, GIF and PDF.
pub open spec fn known_signature(mime: Seq<char>) -> Option<Seq<u8>> {
    if mime == "image/jpeg"@ {
        Some(seq![0xFFu8, 0xD8u8, 0xFFu8, 0xE0u8])
    } else if mime == "image/png"@ {
        Some(seq![0x89u8, 0x50u8, 0x4Eu8, 0x47u8])
    } else if mime == "image/gif"@ {
        Some(seq![0x47u8, 0x49u8, 0x46u8, 0x38u8])
    } else if mime == "application/pdf"@ {
        Some(seq![0x25u8, 0x50u8, 0x44u8, 0x46u8])
    } else {
        None
    }
}

/// What is wrong with a file for its declared MIME type, if anything: it is
/// empty; or its type has a known signature that the file does not start
/// with; or, for other types, it is larger than 100 MiB.
pub open spec fn file_format_problem(data: Seq<u8>, mime: Seq<char>) -> Option<Seq<char>> {
    if data.len() == 0 {
        Some("Empty file data"@)
    } else if known_signature(mime) is Some {
        let sig = known_signature(mime).unwrap();
        if data.len() >= sig.len() && data.subrange(0, sig.len() as int) == sig {
            None
        } else {
            Some("File signature doesn't match declared MIME type : "@ + mime)
        }
    } else if data.len() > MAX_UNSIGNED_FILE_BYTES {
        Some("File too large"@)
    } else {
        None
    }
}

fn starts_with_bytes(data: &[u8], a: u8, b: u8, c: u8, d: u8) -> (r: bool)
    ensures
        r == (data@.len() >= 4 && data@.subrange(0, 4) == seq![a, b, c, d]),
{
    if data.len() < 4 {
        return false;
    }
    let same = data[0] == a && data[1] == b && data[2] == c && data[3] == d;
    proof {
        if same {
            assert(data@.subrange(0, 4) =~= seq![a, b, c, d]);
        } else {
            if data@.subrange(0, 4) == seq![a, b, c, d] {
                assert(data@.subrange(0, 4)[0] == a);
                assert(data@.subrange(0, 4)[1] == b);
                assert(data@.subrange(0, 4)[2] == c);
                assert(data@.subrange(0, 4)[3] == d);
            }
        }
    }
    same
}

/// Checks a file against its declared MIME type: see [`file_format_problem`].
pub fn validate_file_format(file_data: &[u8], declared_mime_type: &str) -> (r: Result<(), Error>)
    ensures
        file_format_problem(file_data@, declared_mime_type@) is None <==> r is Ok,
        file_format_problem(file_data@, declared_mime_type@) matches Some(msg)
            ==> (r matches Err(Error::ApiError(m)) && m@ == msg),
{
    proof {
        reveal_strlit("Empty file data");
        reveal_strlit("image/jpeg");
        reveal_strlit("image/png");
        reveal_strlit("image/gif");
        reveal_strlit("application/pdf");
        reveal_strlit("File signature doesn't match declared MIME type : ");
        reveal_strlit("File too large");
    }
    if file_data.len() == 0 {
        return Err(Error::ApiError(owned("Empty file data")));
    }
    let matched = if text_eq(declared_mime_type, "image/jpeg") {
        Some(starts_with_bytes(file_data, 0xFF, 0xD8, 0xFF, 0xE0))
    } else if text_eq(declared_mime_type, "image/png") {
        Some(starts_with_bytes(file_data, 0x89, 0x50, 0x4E, 0x47))
    } else if text_eq(declared_mime_type, "image/gif") {
        Some(starts_with_bytes(file_data, 0x47, 0x49, 0x46, 0x38))
    } else if text_eq(declared_mime_type, "application/pdf") {
        Some(starts_with_bytes(file_data, 0x25, 0x50, 0x44, 0x46))
    } else {
        None
    };
    match matched {
        Some(true) => Ok(()),
        Some(false) => Err(Error::ApiError(concat2("File signature doesn't match declared MIME type : ", declared_mime_type))),
        None => {
            if file_data.len() > MAX_UNSIGNED_FILE_BYTES {
                Err(Error::ApiError(owned("File too large")))
            } else {
                Ok(())
            }
        },
    }
}

/// The MIME types that are stored compressed already.
pub open spec fn already_compressed(mime: Seq<char>) -> bool {
    ||| mime == "image/jpeg"@
    ||| mime == "image/jpg"@
    ||| mime == "image/webp"@
    ||| mime == "video/mp4"@
    ||| mime == "video/webm"@
    ||| mime == "video/h264"@
    ||| mime == "audio/mp3"@
    ||| mime == "audio/aac"@
    ||| mime == "audio/ogg"@
    ||| mime == "application/zip"@
    ||| mime == "application/gzip"@
    ||| mime == "application/brotli"@
}

/// Whether content of this MIME type is worth compressing: every type but
/// those stored compressed already.
pub fn should_compress(mime_type: &str) -> (r: bool)
    ensures
        r == !already_compressed(mime_type@),
{
    proof {
        reveal_strlit("image/jpeg");
        reveal_strlit("image/jpg");
        reveal_strlit("image/webp");
        reveal_strlit("video/mp4");
        reveal_strlit("video/webm");
        reveal_strlit("video/h264");
        reveal_strlit("audio/mp3");
        reveal_strlit("audio/aac");
        reveal_strlit("audio/ogg");
        reveal_strlit("application/zip");
        reveal_strlit("application/gzip");
        reveal_strlit("application/brotli");
    }
    !(text_eq(mime_type, "image/jpeg") || text_eq(mime_type, "image/jpg") || text_eq(mime_type, "image/webp")
        || text_eq(mime_type, "video/mp4") || text_eq(mime_type, "video/webm") || text_eq(mime_type, "video/h264")
        || text_eq(mime_type, "audio/mp3") || text_eq(mime_type, "audio/aac") || text_eq(mime_type, "audio/ogg")
        || text_eq(mime_type, "application/zip") || text_eq(mime_type, "application/gzip")
        || text_eq(mime_type, "application/brotli"))
}

/// Whether a MIME type names an image: it starts with `image/`.
pub fn is_image_type(mime_type: &str) -> (r: bool)
    ensures
        r == (mime_type@.len() >= 6 && mime_type@.subrange(0, 6) == "image/"@),
{
    proof { reveal_strlit("image/"); }
    let prefix = "image/";
    let n = mime_type.unicode_len();
    if n < 6 {
        return false;
    }
    let mut i: usize = 0;
    while i < 6
        invariant
            n == mime_type@.len(),
            n >= 6,
            prefix@ == "image/"@,
            prefix@.len() == 6,
            i <= 6,
            forall|j: int| 0 <= j < i ==> mime_type@[j] == prefix@[j],
        decreases 6 - i,
    {
        if mime_type.get_char(i) != prefix.get_char(i) {
            proof {
                assert(mime_type@.subrange(0, 6)[i as int] != "image/"@[i as int]);
            }
            return false;
        }
        i = i + 1;
    }
    proof { assert(mime_type@.subrange(0, 6) =~= "image/"@); }
    true
}

/// The encoding of one run: a single byte stands for itself; a run of
/// `count + 1` equal bytes with `count` above zero becomes the marker 0xFF,
/// `count` and the byte.
pub open spec fn run_code(byte: u8, count: u8) -> Seq<u8> {
    if count > 0 { seq![0xFFu8, count, byte] } else { seq![byte] }
}

/// The state of the encoder after reading `data`: the byte of the current
/// run (if any), how many more equal bytes it has, and the output so far.
/// A run grows while the next byte equals it and it holds fewer than 256
/// bytes.
pub open spec fn rle_state(data: Seq<u8>) -> (Option<u8>, u8, Seq<u8>)
    decreases data.len(),
{
    if data.len() == 0 {
        (None, 0, Seq::empty())
    } else {
        let (last, count, out) = rle_state(data.drop_last());
        let byte = data.last();
        if last == Some(byte) && count < 255 {
            (last, (count + 1) as u8, out)
        } else {
            match last {
                Some(l) => (Some(byte), 0, out + run_code(l, count)),
                None => (Some(byte), 0, out),
            }
        }
    }
}

/// The run-length encoding of `data`: the output of the encoder with the
/// last run written out.
pub open spec fn rle_encoding(data: Seq<u8>) -> Seq<u8> {
    let (last, count, out) = rle_state(data);
    match last {
        Some(l) => out + run_code(l, count),
        None => out,
    }
}

/// Encodes runs of equal bytes: see [`rle_encoding`].
pub fn compress_data(data: &[u8]) -> (r: Vec<u8>)
    ensures
        r@ == rle_encoding(data@),
{
    let mut out: Vec<u8> = Vec::new();
    let mut last: Option<u8> = None;
    let mut count: u8 = 0;
    let mut i: usize = 0;
    while i < data.len()
        invariant
            i <= data@.len(),
            rle_state(data@.take(i as int)) == (last, count, out@),
        decreases data@.len() - i,
    {
        let byte = data[i];
        proof {
            assert(data@.take(i + 1).drop_last() =~= data@.take(i as int));
            assert(data@.take(i + 1).last() == byte);
        }
        if last == Some(byte) && count < 255 {
            count = count + 1;
        } else {
            if let Some(l) = last {
                if count > 0 {
                    out.push(0xFF);
                    out.push(count);
                    out.push(l);
                } else {
                    out.push(l);
                }
                proof {
                    assert(out@ =~= rle_state(data@.take(i as int)).2 + run_code(l, count));
                }
            }
            last = Some(byte);
            count = 0;
        }
        i = i + 1;
    }
    proof { assert(data@.take(data@.len() as int) =~= data@); }
    let ghost before = out@;
    if let Some(l) = last {
        if count > 0 {
            out.push(0xFF);
            out.push(count);
            out.push(l);
        } else {
            out.push(l);
        }
        proof { assert(out@ =~= before + run_code(l, count)); }
    }
    out
}

/// Image formats of thumbnails.
#[derive(Debug, Clone, Copy, PartialEq, Eq, Structural)]
pub enum ThumbnailFormat {
    /// JPEG.
    Jpeg,
    /// PNG.
    Png,
    /// WebP.
    WebP,
}

/// Thumbnail settings: whether thumbnails are made, their format and size
/// in pixels.
#[derive(Debug, Clone, Copy)]
pub struct ThumbnailConfig {
    /// Whether thumbnails are made.
    pub enabled: bool,
    /// Image format.
    pub format: ThumbnailFormat,
    /// Width in pixels.
    pub width: u32,
    /// Height in pixels.
    pub height: u32,
}

/// The header bytes of a thumbnail format.
pub open spec fn thumbnail_header(f: ThumbnailFormat) -> Seq<u8> {
    match f {
        ThumbnailFormat::Jpeg => seq![0xFFu8, 0xD8u8, 0xFFu8, 0xE0u8],
        ThumbnailFormat::Png => seq![0x89u8, 0x50u8, 0x4Eu8, 0x47u8, 0x0Du8, 0x0Au8, 0x1Au8, 0x0Au8],
        ThumbnailFormat::WebP => seq![0x52u8, 0x49u8, 0x46u8, 0x46u8, 0u8, 0u8, 0u8, 0u8, 0x57u8, 0x45u8, 0x42u8, 0x50u8],
    }
}

/// The size a placeholder thumbnail is given: three tenths of a byte per
/// pixel, rounded down.
pub open spec fn placeholder_size(c: ThumbnailConfig) -> int {
    (c.width * c.height * 3) / 10
}

/// A placeholder thumbnail: the format's header, cut or filled with gray
/// bytes (0x80) to the placeholder size.
pub open spec fn placeholder_thumbnail(c: ThumbnailConfig) -> Seq<u8> {
    let h = thumbnail_header(c.format);
    let n = placeholder_size(c);
    if n <= h.len() {
        h.take(n)
    } else {
        h + Seq::new((n - h.len()) as nat, |i: int| 0x80u8)
    }
}

/// Makes thumbnails of images.
#[derive(Debug, Clone, Copy)]
pub struct ThumbnailGenerator {
    /// Settings.
    pub config: ThumbnailConfig,
}

impl ThumbnailGenerator {
    /// A generator with the given settings.
    pub fn new(config: ThumbnailConfig) -> (r: Self)
        ensures
            r.config == config,
    {
        ThumbnailGenerator { config }
    }

    /// A thumbnail for an image; the image is not read, a placeholder of the
    /// configured format and size stands for it. Refused when thumbnails
    /// are disabled.
    pub fn generate_thumbnail(&self, _image_data: &[u8], mime_type: &str) -> (r: Result<Vec<u8>, Error>)
        requires
            self.config.width * self.config.height * 3 <= u32::MAX,
        ensures
            !self.config.enabled <==> r is Err,
            r matches Err(e) ==> (e matches Error::ApiError(m) && m@ == "Thumbnail generation disabled"@),
            r matches Ok(t) ==> t@ == placeholder_thumbnail(self.config),
    {
        if !self.config.enabled {
            proof { reveal_strlit("Thumbnail generation disabled"); }
            return Err(Error::ApiError(owned("Thumbnail generation disabled")));
        }
        Ok(self.create_placeholder_thumbnail(mime_type))
    }

    /// A placeholder thumbnail: see [`placeholder_thumbnail`].
    pub fn create_placeholder_thumbnail(&self, _mime_type: &str) -> (r: Vec<u8>)
        requires
            self.config.width * self.config.height * 3 <= u32::MAX,
        ensures
            r@ == placeholder_thumbnail(self.config),
    {
        let mut t: Vec<u8> = Vec::new();
        match self.config.format {
            ThumbnailFormat::Jpeg => {
                t.push(0xFF); t.push(0xD8); t.push(0xFF); t.push(0xE0);
            },
            ThumbnailFormat::Png => {
                t.push(0x89); t.push(0x50); t.push(0x4E); t.push(0x47);
                t.push(0x0D); t.push(0x0A); t.push(0x1A); t.push(0x0A);
            },
            ThumbnailFormat::WebP => {
                t.push(0x52); t.push(0x49); t.push(0x46); t.push(0x46);
                t.push(0); t.push(0); t.push(0); t.push(0);
                t.push(0x57); t.push(0x45); t.push(0x42); t.push(0x50);
            },
        }
        proof { assert(t@ =~= thumbnail_header(self.config.format)); }
        let w = self.config.width;
        let h = self.config.height;
        assert(w * h <= u32::MAX) by (nonlinear_arith)
            requires w * h * 3 <= u32::MAX;
        let size = (w * h * 3 / 10) as usize;
        let ghost header = t@;
        if size <= t.len() {
            t.truncate(size);
            proof { assert(t@ =~= header.take(size as int)); }
        } else {
            let mut k: usize = t.len();
            while k < size
                invariant
                    header.len() <= k <= size,
                    t@.len() == k,
                    t@.take(header.len() as int) == header,
                    forall|j: int| header.len() <= j < k ==> t@[j] == 0x80u8,
                decreases size - k,
            {
                t.push(0x80);
                proof { assert(t@.take(header.len() as int) =~= header); }
                k = k + 1;
            }
            proof {
                assert(t@ =~= header + Seq::new((size - header.len()) as nat, |i: int| 0x80u8));
            }
        }
        t
    }
}

} // verus!
