use crate::error::ConvertError;
use crate::text::{ends_with, str_ends_with};
use crate::types::FileFormat;
use vstd::prelude::*;

verus! {

/// The suffix that marks the spherical-coordinate variant.
pub open spec fn newslab_suffix() -> Seq<char> {
    seq!['.', 'n', 'e', 'w', 's', 'l', 'a', 'b', '.', 'p', 'c', 'd']
}

/// The suffix that marks a generic tabular point-cloud file.
pub open spec fn pcd_suffix() -> Seq<char> {
    seq!['.', 'p', 'c', 'd']
}

/// The suffix that marks a sensor capture.
pub open spec fn pcap_suffix() -> Seq<char> {
    seq!['.', 'p', 'c', 'a', 'p']
}

/// The format a file name denotes, by its suffix. Raw binary dumps have no
/// recognized suffix and are never guessed.
pub open spec fn spec_guess_file_format(name: Seq<char>) -> Option<FileFormat> {
    if ends_with(name, newslab_suffix()) {
        Some(FileFormat::NewslabPcd)
    } else if ends_with(name, pcd_suffix()) {
        Some(FileFormat::LibpclPcd)
    } else if ends_with(name, pcap_suffix()) {
        Some(FileFormat::VelodynePcap)
    } else {
        None
    }
}

/// Guess the logical format of a file from its name (the final path
/// component), by suffix alone.
pub fn guess_file_format(file_name: &str) -> (r: Option<FileFormat>)
    ensures
        r == spec_guess_file_format(file_name@),
{
    proof {
        reveal_strlit(".newslab.pcd");
        reveal_strlit(".pcd");
        reveal_strlit(".pcap");
        assert(".newslab.pcd"@ =~= newslab_suffix());
        assert(".pcd"@ =~= pcd_suffix());
        assert(".pcap"@ =~= pcap_suffix());
    }
    if str_ends_with(file_name, ".newslab.pcd") {
        Some(FileFormat::NewslabPcd)
    } else if str_ends_with(file_name, ".pcd") {
        Some(FileFormat::LibpclPcd)
    } else if str_ends_with(file_name, ".pcap") {
        Some(FileFormat::VelodynePcap)
    } else {
        None
    }
}

/// The format of an endpoint: the explicit override when one is given, else
/// the format its file name suggests, else an ambiguity error.
pub open spec fn spec_resolve_format(
    explicit: Option<FileFormat>,
    name: Seq<char>,
) -> Result<FileFormat, ConvertError> {
    match explicit {
        Some(format) => Ok(format),
        None => match spec_guess_file_format(name) {
            Some(format) => Ok(format),
            None => Err(ConvertError::FormatAmbiguous),
        },
    }
}

/// Resolve the logical format of one endpoint of a conversion.
pub fn resolve_format(explicit: Option<FileFormat>, file_name: &str) -> (r: Result<
    FileFormat,
    ConvertError,
>)
    ensures
        r == spec_resolve_format(explicit, file_name@),
{
    match explicit {
        Some(format) => Ok(format),
        None => match guess_file_format(file_name) {
            Some(format) => Ok(format),
            None => Err(ConvertError::FormatAmbiguous),
        },
    }
}

} // verus!
