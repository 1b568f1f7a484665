//! The decisions of one conversion: encoder settings, where the result goes,
//! and which of the two candidate encodings is kept.
//!
//! Rate-control values are held in fixed point: quality and PSNR in
//! hundredths, the compression factor in thousandths.

use vstd::prelude::*;

use crate::paths::{destination_for, destination_of, output_dir_for, output_dir_of};

verus! {

/// Why one file could not be converted. The text is context for the log.
#[derive(Debug, Clone)]
pub enum ConvertError {
    /// The source could not be read as an image.
    Decode(String),
    /// The encoder failed.
    Encode(String),
    /// A file system operation failed, or a path has no file name.
    Io(String),
    /// The task that ran the encoder did not complete.
    WorkerFailure(String),
}

/// The log line for an error: its kind, then its context.
pub open spec fn error_message(e: ConvertError) -> Seq<char> {
    match e {
        ConvertError::Decode(m) => "Image Error: "@ + m@,
        ConvertError::Encode(m) => "WebP Encoding Error: "@ + m@,
        ConvertError::Io(m) => "IO Error: "@ + m@,
        ConvertError::WorkerFailure(m) => "Join Error: "@ + m@,
    }
}

impl ConvertError {
    /// The log line for this error; see `error_message`.
    pub fn message(&self) -> (r: String)
        ensures
            r@ == error_message(*self),
    {
        match self {
            ConvertError::Decode(m) => String::from_str("Image Error: ").concat(m.as_str()),
            ConvertError::Encode(m) => String::from_str("WebP Encoding Error: ").concat(m.as_str()),
            ConvertError::Io(m) => String::from_str("IO Error: ").concat(m.as_str()),
            ConvertError::WorkerFailure(m) => String::from_str("Join Error: ").concat(m.as_str()),
        }
    }
}

/// The user's settings for every conversion of a run.
#[derive(Debug, Clone, Copy, PartialEq, Eq, Structural)]
pub struct EncodeParams {
    /// Encoder quality, 0 to 100, in hundredths.
    pub quality_hundredths: u32,
    /// Lossless mode.
    pub lossless: bool,
    /// Divisor from source size to target size, in thousandths; 0: no target.
    pub compression_thousandths: u32,
    /// Whether a copy scaled down to at most 700 pixels competes with the original.
    pub should_resize: bool,
    /// Target PSNR, in hundredths.
    pub psnr_hundredths: u32,
}

/// Quality 100, in hundredths.
pub const FULL_QUALITY: u32 = 10000;

/// Lossless mode is kept only at full quality and without a target size.
pub open spec fn effective_lossless(requested: bool, quality_hundredths: u32, compression_thousandths: u32) -> bool {
    requested && compression_thousandths == 0 && quality_hundredths >= FULL_QUALITY
}

impl EncodeParams {
    /// Settings from the user's choices; lossless mode is dropped whenever a
    /// target size is set or the quality is below 100.
    pub fn new(
        quality_hundredths: u32,
        lossless: bool,
        compression_thousandths: u32,
        should_resize: bool,
        psnr_hundredths: u32,
    ) -> (r: EncodeParams)
        ensures
            r.quality_hundredths == quality_hundredths,
            r.lossless == effective_lossless(lossless, quality_hundredths, compression_thousandths),
            r.compression_thousandths == compression_thousandths,
            r.should_resize == should_resize,
            r.psnr_hundredths == psnr_hundredths,
    {
        let keep = lossless && compression_thousandths == 0 && quality_hundredths >= FULL_QUALITY;
        EncodeParams {
            quality_hundredths,
            lossless: keep,
            compression_thousandths,
            should_resize,
            psnr_hundredths,
        }
    }

    /// Settings from command-line flags, each absent one taking its default:
    /// quality 75, lossless requested, compression factor 2 for a directory
    /// and 0 for a single file, no resize, PSNR 40.
    pub fn from_flags(
        quality_hundredths: Option<u32>,
        lossless: Option<bool>,
        compression_thousandths: Option<u32>,
        should_resize: Option<bool>,
        psnr_hundredths: Option<u32>,
        whole_directory: bool,
    ) -> (r: EncodeParams)
        ensures
            r.quality_hundredths == unwrap_or(quality_hundredths, 7500),
            r.compression_thousandths == unwrap_or(
                compression_thousandths,
                if whole_directory {
                    2000
                } else {
                    0
                },
            ),
            r.lossless == effective_lossless(
                match lossless {
                    Some(b) => b,
                    None => true,
                },
                r.quality_hundredths,
                r.compression_thousandths,
            ),
            r.should_resize == (should_resize == Some(true)),
            r.psnr_hundredths == unwrap_or(psnr_hundredths, 4000),
    {
        let quality = match quality_hundredths {
            Some(q) => q,
            None => 7500,
        };
        let compression = match compression_thousandths {
            Some(c) => c,
            None => if whole_directory {
                2000
            } else {
                0
            },
        };
        let lossless_requested = match lossless {
            Some(b) => b,
            None => true,
        };
        let resize = match should_resize {
            Some(b) => b,
            None => false,
        };
        let psnr = match psnr_hundredths {
            Some(p) => p,
            None => 4000,
        };
        EncodeParams::new(quality, lossless_requested, compression, resize, psnr)
    }

    /// The fixed settings of a retry: quality 75, lossy, no target size, no
    /// resize, PSNR 40.
    pub fn fallback() -> (r: EncodeParams)
        ensures
            r == fallback_params(),
    {
        EncodeParams {
            quality_hundredths: 7500,
            lossless: false,
            compression_thousandths: 0,
            should_resize: false,
            psnr_hundredths: 4000,
        }
    }
}

/// The value held, or `default`.
pub open spec fn unwrap_or(o: Option<u32>, default: u32) -> u32 {
    match o {
        Some(v) => v,
        None => default,
    }
}

/// The settings of a retry.
pub open spec fn fallback_params() -> EncodeParams {
    EncodeParams {
        quality_hundredths: 7500,
        lossless: false,
        compression_thousandths: 0,
        should_resize: false,
        psnr_hundredths: 4000,
    }
}

/// The encoder's target size in bytes for a source of `source_len` bytes:
/// the source size divided by the compression factor, truncated, and at most
/// `i32::MAX`; 0 (no target) when the factor is 0.
pub open spec fn target_size_of(source_len: nat, compression_thousandths: nat) -> int {
    if compression_thousandths == 0 {
        0
    } else {
        let t = (source_len * 1000) / compression_thousandths;
        if t > i32::MAX {
            i32::MAX as int
        } else {
            t as int
        }
    }
}

/// Computes the target size of an encode; see `target_size_of`.
pub fn target_size(source_len: u64, compression_thousandths: u32) -> (r: i32)
    ensures
        r == target_size_of(source_len as nat, compression_thousandths as nat),
{
    if compression_thousandths == 0 {
        return 0;
    }
    let scaled: u128 = source_len as u128 * 1000;
    let t: u128 = scaled / (compression_thousandths as u128);
    if t > i32::MAX as u128 {
        i32::MAX
    } else {
        t as i32
    }
}

/// The encoder's fixed tuning: not set by the user, the same for every file.
#[derive(Debug, Clone, Copy, PartialEq, Eq, Structural)]
pub struct EncoderTuning {
    /// Speed and quality trade-off, 0 (fast) to 6 (slow, best).
    pub method: i32,
    /// Number of segments.
    pub segments: i32,
    /// Spatial noise shaping strength.
    pub sns_strength: i32,
    /// Deblocking filter strength.
    pub filter_strength: i32,
    /// Deblocking filter sharpness.
    pub filter_sharpness: i32,
    /// Deblocking filter type: 0 simple, 1 strong.
    pub filter_type: i32,
    /// Automatic filter strength.
    pub autofilter: i32,
    /// Alpha plane compression method.
    pub alpha_compression: i32,
    /// Alpha plane predictive filtering.
    pub alpha_filtering: i32,
    /// Alpha plane quality.
    pub alpha_quality: i32,
    /// Number of entropy analysis passes.
    pub pass: i32,
    /// Whether the compressed picture is exported.
    pub show_compressed: i32,
    /// Preprocessing filter.
    pub preprocessing: i32,
    /// log2 of the number of token partitions.
    pub partitions: i32,
    /// Quality degradation allowed to fit the partition limit.
    pub partition_limit: i32,
    /// Whether the output size mimics a JPEG of the same quality.
    pub emulate_jpeg_size: i32,
    /// Multi-threaded encoding.
    pub thread_level: i32,
    /// Memory reduction at the cost of speed.
    pub low_memory: i32,
    /// Near-lossless preprocessing level.
    pub near_lossless: i32,
    /// Whether the RGB values under transparent areas are kept.
    pub exact: i32,
    /// Delta palettization.
    pub use_delta_palette: i32,
    /// Sharp RGB to YUV conversion.
    pub use_sharp_yuv: i32,
    /// Lowest quantizer.
    pub qmin: i32,
    /// Highest quantizer.
    pub qmax: i32,
}

/// The tuning used for every encode.
pub open spec fn standard_tuning() -> EncoderTuning {
    EncoderTuning {
        method: 6,
        segments: 4,
        sns_strength: 75,
        filter_strength: 60,
        filter_sharpness: 0,
        filter_type: 1,
        autofilter: 0,
        alpha_compression: 1,
        alpha_filtering: 1,
        alpha_quality: 90,
        pass: 3,
        show_compressed: 0,
        preprocessing: 2,
        partitions: 0,
        partition_limit: 2,
        emulate_jpeg_size: 0,
        thread_level: 1,
        low_memory: 0,
        near_lossless: 75,
        exact: 0,
        use_delta_palette: 0,
        use_sharp_yuv: 0,
        qmin: 0,
        qmax: 0,
    }
}

impl EncoderTuning {
    /// The tuning used for every encode.
    pub fn standard() -> (r: EncoderTuning)
        ensures
            r == standard_tuning(),
    {
        EncoderTuning {
            method: 6,
            segments: 4,
            sns_strength: 75,
            filter_strength: 60,
            filter_sharpness: 0,
            filter_type: 1,
            autofilter: 0,
            alpha_compression: 1,
            alpha_filtering: 1,
            alpha_quality: 90,
            pass: 3,
            show_compressed: 0,
            preprocessing: 2,
            partitions: 0,
            partition_limit: 2,
            emulate_jpeg_size: 0,
            thread_level: 1,
            low_memory: 0,
            near_lossless: 75,
            exact: 0,
            use_delta_palette: 0,
            use_sharp_yuv: 0,
            qmin: 0,
            qmax: 0,
        }
    }
}

/// Everything the encoder is given for one file, but the pixels.
#[derive(Debug, Clone, Copy, PartialEq, Eq, Structural)]
pub struct EncoderSettings {
    /// Lossless mode.
    pub lossless: bool,
    /// Quality, in hundredths.
    pub quality_hundredths: u32,
    /// Target size in bytes; 0: none.
    pub target_size: i32,
    /// Target PSNR, in hundredths.
    pub psnr_hundredths: u32,
    /// The fixed tuning.
    pub tuning: EncoderTuning,
}

/// The encoder settings for a source of `source_len` bytes.
pub open spec fn settings_of(params: EncodeParams, source_len: nat) -> EncoderSettings {
    EncoderSettings {
        lossless: params.lossless,
        quality_hundredths: params.quality_hundredths,
        target_size: target_size_of(source_len, params.compression_thousandths as nat) as i32,
        psnr_hundredths: params.psnr_hundredths,
        tuning: standard_tuning(),
    }
}

/// Builds the encoder settings for a source of `source_len` bytes.
pub fn encoder_settings(params: &EncodeParams, source_len: u64) -> (r: EncoderSettings)
    ensures
        r == settings_of(*params, source_len as nat),
{
    EncoderSettings {
        lossless: params.lossless,
        quality_hundredths: params.quality_hundredths,
        target_size: target_size(source_len, params.compression_thousandths),
        psnr_hundredths: params.psnr_hundredths,
        tuning: EncoderTuning::standard(),
    }
}

/// What is done for one source file before its pixels are read.
#[derive(Debug, Clone)]
pub struct ConversionPlan {
    /// The output directory, created if missing.
    pub output_dir: String,
    /// The file that receives the encoding; an older file there is replaced.
    pub destination: String,
    /// Whether a scaled-down candidate is encoded too.
    pub resize: bool,
    /// The encoder settings.
    pub settings: EncoderSettings,
}

/// Plans the conversion of `source`, a file of `source_len` bytes. Fails
/// with an `Io` error exactly when the path has no file name.
pub fn plan_conversion(source: &str, source_len: u64, params: &EncodeParams) -> (r: Result<ConversionPlan, ConvertError>)
    ensures
        destination_of(source@) is None <==> r is Err,
        r is Err ==> r->Err_0 is Io,
        r matches Ok(plan) ==> {
            &&& Some(plan.destination@) == destination_of(source@)
            &&& plan.output_dir@ == output_dir_of(source@)
            &&& plan.resize == params.should_resize
            &&& plan.settings == settings_of(*params, source_len as nat)
        },
{
    match destination_for(source) {
        Some(destination) => Ok(
            ConversionPlan {
                output_dir: output_dir_for(source),
                destination,
                resize: params.should_resize,
                settings: encoder_settings(params, source_len),
            },
        ),
        None => Err(ConvertError::Io(String::from_str("the source path has no file name"))),
    }
}

/// The candidate that is kept: the scaled-down one only when its encoding is
/// strictly smaller; ties keep the original.
pub open spec fn smaller_encoding(original: Seq<u8>, resized: Option<Seq<u8>>) -> Seq<u8> {
    match resized {
        Some(small) => if small.len() < original.len() {
            small
        } else {
            original
        },
        None => original,
    }
}

/// Picks the encoding to write from the original's and, where one was made,
/// the scaled-down candidate's. `None`: the kept encoding is empty, and
/// nothing is written.
pub fn choose_output(original: Vec<u8>, resized: Option<Vec<u8>>) -> (r: Option<Vec<u8>>)
    ensures
        r is None <==> smaller_encoding(original@, opt_bytes(resized)).len() == 0,
        r matches Some(bytes) ==> bytes@ == smaller_encoding(original@, opt_bytes(resized)),
        r matches Some(bytes) ==> bytes@.len() <= original@.len(),
        r matches Some(bytes) ==> (resized matches Some(small) ==> bytes@.len() <= small@.len()),
{
    let kept = match resized {
        Some(small) => if small.len() < original.len() {
            small
        } else {
            original
        },
        None => original,
    };
    if kept.len() == 0 {
        None
    } else {
        Some(kept)
    }
}

/// The view of optional bytes.
pub open spec fn opt_bytes(o: Option<Vec<u8>>) -> Option<Seq<u8>> {
    match o {
        Some(v) => Some(v@),
        None => None,
    }
}

} // verus!
