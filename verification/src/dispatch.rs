use crate::error::ConvertError;
use crate::opts::{EndFrame, StartFrame};
use crate::types::{FileFormat, ReturnModeKind, VelodyneConfig, VelodyneModel};
use vstd::prelude::*;

verus! {

/// Where the transform comes from, if anywhere.
#[derive(Debug, Clone, Copy, PartialEq, Eq, Structural)]
pub enum TransformSource {
    /// No transform is configured; every point passes unchanged.
    Absent,
    /// The transform is described in a file.
    FromFile,
    /// The transform is described by inline text.
    Inline,
}

/// Pick the transform source from the two mutually exclusive options.
pub fn select_transform_source(has_file: bool, has_inline: bool) -> (r: Result<
    TransformSource,
    ConvertError,
>)
    ensures
        !has_file && !has_inline ==> r == Ok::<TransformSource, ConvertError>(
            TransformSource::Absent,
        ),
        has_file && !has_inline ==> r == Ok::<TransformSource, ConvertError>(
            TransformSource::FromFile,
        ),
        !has_file && has_inline ==> r == Ok::<TransformSource, ConvertError>(
            TransformSource::Inline,
        ),
        has_file && has_inline ==> r == Err::<TransformSource, ConvertError>(
            ConvertError::TransformSourceConflict,
        ),
{
    match (has_file, has_inline) {
        (false, false) => Ok(TransformSource::Absent),
        (true, false) => Ok(TransformSource::FromFile),
        (false, true) => Ok(TransformSource::Inline),
        (true, true) => Err(ConvertError::TransformSourceConflict),
    }
}

/// The conversion routine the front end must run for a supported format
/// pair.
#[derive(Debug, Clone, Copy, PartialEq, Eq, Structural)]
pub enum ConversionRoutine {
    /// Same format, nothing to change: copy the file byte for byte.
    CopyFile,
    /// Generic to generic with a transform: stream the points, overwrite
    /// x, y and z, and keep the original field layout.
    PcdTransformInPlace,
    /// Newslab to newslab with a transform: stream the points, transform
    /// x, y and z, and re-derive the spherical fields.
    NewslabTransformInPlace,
    /// Generic to newslab: project every point into spherical coordinates.
    PcdToNewslab,
    /// Newslab to generic: re-derive cartesian points from the stored
    /// x, y and z, discarding the spherical fields.
    NewslabToPcd,
    /// Sensor capture to generic files, one per frame in the window.
    PcapToPcd,
    /// Sensor capture to raw binary files, one per frame in the window.
    PcapToRawBin,
    /// One generic file to one raw binary file.
    PcdFileToRawBinFile,
    /// A directory of generic files to a directory of raw binary files.
    PcdDirToRawBinDir,
    /// One raw binary file to one generic file.
    RawBinFileToPcdFile,
    /// A directory of raw binary files to a directory of generic files.
    RawBinDirToPcdDir,
}

/// The requested window keeps the parsers' defaults: from the first frame
/// to the last one.
pub open spec fn default_window(start: StartFrame, end: EndFrame) -> bool {
    start == StartFrame::Forward(1) && end == EndFrame::Backward(1)
}

/// The conversion matrix. For each (from, to) pair: the routine to run, or
/// the error that rejects the request.
///
/// Copy-only edges (capture to capture, raw binary to raw binary) reject a
/// transform or an explicit window; capture sources need the sensor model
/// and return mode; the remaining unsupported pairs are rejected outright.
pub open spec fn spec_plan_conversion(
    from: FileFormat,
    to: FileFormat,
    has_transform: bool,
    start: StartFrame,
    end: EndFrame,
    has_model: bool,
    has_return_mode: bool,
    input_is_dir: bool,
) -> Result<ConversionRoutine, ConvertError> {
    match (from, to) {
        (FileFormat::LibpclPcd, FileFormat::NewslabPcd) => Ok(ConversionRoutine::PcdToNewslab),
        (FileFormat::NewslabPcd, FileFormat::LibpclPcd) => Ok(ConversionRoutine::NewslabToPcd),
        (FileFormat::VelodynePcap, FileFormat::LibpclPcd) => if has_model && has_return_mode {
            Ok(ConversionRoutine::PcapToPcd)
        } else {
            Err(ConvertError::MissingRequiredOption)
        },
        (FileFormat::VelodynePcap, FileFormat::NewslabPcd) => Err(
            ConvertError::UnsupportedConversion,
        ),
        (FileFormat::LibpclPcd, FileFormat::VelodynePcap) => Err(
            ConvertError::UnsupportedConversion,
        ),
        (FileFormat::NewslabPcd, FileFormat::VelodynePcap) => Err(
            ConvertError::UnsupportedConversion,
        ),
        (FileFormat::LibpclPcd, FileFormat::RawBin) => if input_is_dir {
            Ok(ConversionRoutine::PcdDirToRawBinDir)
        } else {
            Ok(ConversionRoutine::PcdFileToRawBinFile)
        },
        (FileFormat::NewslabPcd, FileFormat::RawBin) => if input_is_dir {
            Ok(ConversionRoutine::PcdDirToRawBinDir)
        } else {
            Ok(ConversionRoutine::PcdFileToRawBinFile)
        },
        (FileFormat::VelodynePcap, FileFormat::RawBin) => if has_model && has_return_mode {
            Ok(ConversionRoutine::PcapToRawBin)
        } else {
            Err(ConvertError::MissingRequiredOption)
        },
        (FileFormat::RawBin, FileFormat::LibpclPcd) => if input_is_dir {
            Ok(ConversionRoutine::RawBinDirToPcdDir)
        } else {
            Ok(ConversionRoutine::RawBinFileToPcdFile)
        },
        (FileFormat::RawBin, FileFormat::NewslabPcd) => Err(ConvertError::UnsupportedConversion),
        (FileFormat::RawBin, FileFormat::VelodynePcap) => Err(ConvertError::UnsupportedConversion),
        (FileFormat::LibpclPcd, FileFormat::LibpclPcd) => if has_transform {
            Ok(ConversionRoutine::PcdTransformInPlace)
        } else {
            Ok(ConversionRoutine::CopyFile)
        },
        (FileFormat::NewslabPcd, FileFormat::NewslabPcd) => if !default_window(start, end) {
            Err(ConvertError::UnsupportedConversion)
        } else if has_transform {
            Ok(ConversionRoutine::NewslabTransformInPlace)
        } else {
            Ok(ConversionRoutine::CopyFile)
        },
        (FileFormat::VelodynePcap, FileFormat::VelodynePcap) => if !default_window(start, end) {
            Err(ConvertError::UnsupportedConversion)
        } else if has_transform {
            Err(ConvertError::UnsupportedConversion)
        } else {
            Ok(ConversionRoutine::CopyFile)
        },
        (FileFormat::RawBin, FileFormat::RawBin) => if !default_window(start, end) {
            Err(ConvertError::UnsupportedConversion)
        } else if has_transform {
            Err(ConvertError::UnsupportedConversion)
        } else {
            Ok(ConversionRoutine::CopyFile)
        },
    }
}

/// Look the format pair up in the conversion matrix and decide the routine.
///
/// A conversion from a file to itself with no transform resolves to a plain
/// byte copy, so its output is byte-identical to the input.
pub fn plan_conversion(
    from: FileFormat,
    to: FileFormat,
    has_transform: bool,
    start: StartFrame,
    end: EndFrame,
    has_model: bool,
    has_return_mode: bool,
    input_is_dir: bool,
) -> (r: Result<ConversionRoutine, ConvertError>)
    ensures
        r == spec_plan_conversion(
            from,
            to,
            has_transform,
            start,
            end,
            has_model,
            has_return_mode,
            input_is_dir,
        ),
{
    let window_is_default = match (start, end) {
        (StartFrame::Forward(s), EndFrame::Backward(e)) => s == 1 && e == 1,
        _ => false,
    };
    match (from, to) {
        (FileFormat::LibpclPcd, FileFormat::NewslabPcd) => Ok(ConversionRoutine::PcdToNewslab),
        (FileFormat::NewslabPcd, FileFormat::LibpclPcd) => Ok(ConversionRoutine::NewslabToPcd),
        (FileFormat::VelodynePcap, FileFormat::LibpclPcd) => {
            if has_model && has_return_mode {
                Ok(ConversionRoutine::PcapToPcd)
            } else {
                Err(ConvertError::MissingRequiredOption)
            }
        },
        (FileFormat::VelodynePcap, FileFormat::NewslabPcd) => Err(
            ConvertError::UnsupportedConversion,
        ),
        (FileFormat::LibpclPcd, FileFormat::VelodynePcap)
        | (FileFormat::NewslabPcd, FileFormat::VelodynePcap) => Err(
            ConvertError::UnsupportedConversion,
        ),
        (FileFormat::LibpclPcd, FileFormat::RawBin)
        | (FileFormat::NewslabPcd, FileFormat::RawBin) => {
            if input_is_dir {
                Ok(ConversionRoutine::PcdDirToRawBinDir)
            } else {
                Ok(ConversionRoutine::PcdFileToRawBinFile)
            }
        },
        (FileFormat::VelodynePcap, FileFormat::RawBin) => {
            if has_model && has_return_mode {
                Ok(ConversionRoutine::PcapToRawBin)
            } else {
                Err(ConvertError::MissingRequiredOption)
            }
        },
        (FileFormat::RawBin, FileFormat::LibpclPcd) => {
            if input_is_dir {
                Ok(ConversionRoutine::RawBinDirToPcdDir)
            } else {
                Ok(ConversionRoutine::RawBinFileToPcdFile)
            }
        },
        (FileFormat::RawBin, FileFormat::NewslabPcd)
        | (FileFormat::RawBin, FileFormat::VelodynePcap) => Err(
            ConvertError::UnsupportedConversion,
        ),
        (FileFormat::LibpclPcd, FileFormat::LibpclPcd) => {
            if has_transform {
                Ok(ConversionRoutine::PcdTransformInPlace)
            } else {
                Ok(ConversionRoutine::CopyFile)
            }
        },
        (FileFormat::NewslabPcd, FileFormat::NewslabPcd) => {
            if !window_is_default {
                Err(ConvertError::UnsupportedConversion)
            } else if has_transform {
                Ok(ConversionRoutine::NewslabTransformInPlace)
            } else {
                Ok(ConversionRoutine::CopyFile)
            }
        },
        (FileFormat::VelodynePcap, FileFormat::VelodynePcap)
        | (FileFormat::RawBin, FileFormat::RawBin) => {
            if !window_is_default || has_transform {
                Err(ConvertError::UnsupportedConversion)
            } else {
                Ok(ConversionRoutine::CopyFile)
            }
        },
    }
}

/// Converting a file to its own format with no transform and the default
/// window is a plain byte copy, whatever the format and whatever else is
/// configured: the output is byte-identical to the input.
pub proof fn lemma_identity_conversion_is_copy(
    format: FileFormat,
    has_model: bool,
    has_return_mode: bool,
    input_is_dir: bool,
)
    ensures
        spec_plan_conversion(
            format,
            format,
            false,
            StartFrame::Forward(1),
            EndFrame::Backward(1),
            has_model,
            has_return_mode,
            input_is_dir,
        ) == Ok::<ConversionRoutine, ConvertError>(ConversionRoutine::CopyFile),
{
}

/// Which per-frame output directories a capture conversion creates: the
/// "strongest" and "last" subdirectories, each only when the configured
/// return mode produces that stream.
#[derive(Debug, Clone, Copy, PartialEq, Eq, Structural)]
pub struct OutputStreams {
    pub strongest: bool,
    pub last: bool,
}

/// The output streams of a return mode: single-return modes produce one
/// stream, the dual mode produces both in parallel.
pub fn return_mode_outputs(mode: ReturnModeKind) -> (r: OutputStreams)
    ensures
        r.strongest == (mode == ReturnModeKind::Strongest || mode == ReturnModeKind::Dual),
        r.last == (mode == ReturnModeKind::Last || mode == ReturnModeKind::Dual),
{
    match mode {
        ReturnModeKind::Strongest => OutputStreams { strongest: true, last: false },
        ReturnModeKind::Last => OutputStreams { strongest: false, last: true },
        ReturnModeKind::Dual => OutputStreams { strongest: true, last: true },
    }
}

/// Validate the decoder configuration: the capture decoder supports four
/// sensor models, each in every return mode.
pub fn build_velodyne_config(model: VelodyneModel, mode: ReturnModeKind) -> (r: Option<
    VelodyneConfig,
>)
    ensures
        match model {
            VelodyneModel::Vlp16
            | VelodyneModel::PuckLite
            | VelodyneModel::PuckHiRes
            | VelodyneModel::Vlp32C => r == Some(VelodyneConfig { model, return_mode: mode }),
            _ => r is None,
        },
{
    match model {
        VelodyneModel::Vlp16
        | VelodyneModel::PuckLite
        | VelodyneModel::PuckHiRes
        | VelodyneModel::Vlp32C => Some(VelodyneConfig { model, return_mode: mode }),
        _ => None,
    }
}

} // verus!
