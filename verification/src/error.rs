use vstd::prelude::*;

verus! {

/// An error of the conversion pipeline.
///
/// Each variant names one failure class; the front end attaches the offending
/// path and stage when it reports one.
#[derive(Debug, Clone, Copy, PartialEq, Eq, Structural)]
pub enum ConvertError {
    /// The file suffix is unrecognized and no explicit format was given.
    FormatAmbiguous,
    /// The (from, to) format pair is not supported, or a transform or frame
    /// window was requested on a copy-only same-format edge.
    UnsupportedConversion,
    /// A sensor-capture endpoint needs the sensor model and return mode set.
    MissingRequiredOption,
    /// A generic-format point lacks a required `x`, `y` or `z` field.
    MissingField,
    /// A resolved frame window is empty or runs past the capture.
    FrameRangeInvalid,
    /// The transform file or text does not parse.
    MalformedTransformSpec,
    /// A transform was given both as a file and as inline text.
    TransformSourceConflict,
    /// A raw-binary file ends inside a 16-byte record.
    TruncatedRecord,
    /// The destination directory of a batch already exists.
    DirectoryConflict,
}

impl ConvertError {
    /// A short description of the failure, for the front end's reports.
    pub fn message(&self) -> (r: &'static str)
        ensures
            r@ == self.spec_message(),
    {
        match self {
            ConvertError::FormatAmbiguous => "cannot guess the file format",
            ConvertError::UnsupportedConversion => "the conversion is not supported",
            ConvertError::MissingRequiredOption => {
                "--velodyne-model and --velodyne-return-mode must be set"
            },
            ConvertError::MissingField => "a required x, y or z field is missing",
            ConvertError::FrameRangeInvalid => "the requested frame range is invalid",
            ConvertError::MalformedTransformSpec => "the transform description does not parse",
            ConvertError::TransformSourceConflict => {
                "--transform and --transform-file cannot be both specified"
            },
            ConvertError::TruncatedRecord => "the raw binary file ends inside a record",
            ConvertError::DirectoryConflict => "the output directory already exists",
        }
    }

    /// The text that `message` returns for each variant.
    pub open spec fn spec_message(&self) -> Seq<char> {
        match self {
            ConvertError::FormatAmbiguous => "cannot guess the file format"@,
            ConvertError::UnsupportedConversion => "the conversion is not supported"@,
            ConvertError::MissingRequiredOption => {
                "--velodyne-model and --velodyne-return-mode must be set"@
            },
            ConvertError::MissingField => "a required x, y or z field is missing"@,
            ConvertError::FrameRangeInvalid => "the requested frame range is invalid"@,
            ConvertError::MalformedTransformSpec => "the transform description does not parse"@,
            ConvertError::TransformSourceConflict => {
                "--transform and --transform-file cannot be both specified"@
            },
            ConvertError::TruncatedRecord => "the raw binary file ends inside a record"@,
            ConvertError::DirectoryConflict => "the output directory already exists"@,
        }
    }
}

/// An error of the frame-range argument parsers.
#[derive(Debug, Clone, Copy, PartialEq, Eq, Structural)]
pub enum FrameArgError {
    /// The argument is not a well-formed frame number.
    NotANumber,
    /// The argument is zero; frame numbers and counts start at one.
    Zero,
}

impl FrameArgError {
    /// A short description of the failure, for the front end's reports.
    pub fn message(&self) -> (r: &'static str)
        ensures
            self is NotANumber ==> r@ == "the value must be a frame number"@,
            self is Zero ==> r@ == "the value must be non-zero"@,
    {
        match self {
            FrameArgError::NotANumber => "the value must be a frame number",
            FrameArgError::Zero => "the value must be non-zero",
        }
    }
}

} // verus!
