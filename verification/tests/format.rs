use pcd_tool::error::ConvertError;
use pcd_tool::format::{guess_file_format, resolve_format};
use pcd_tool::types::FileFormat;

#[test]
fn guess_newslab_suffix() {
    assert_eq!(
        guess_file_format("cloud.newslab.pcd"),
        Some(FileFormat::NewslabPcd)
    );
}

#[test]
fn guess_plain_pcd_suffix() {
    assert_eq!(guess_file_format("cloud.pcd"), Some(FileFormat::LibpclPcd));
}

#[test]
fn guess_pcap_suffix() {
    assert_eq!(
        guess_file_format("capture.pcap"),
        Some(FileFormat::VelodynePcap)
    );
}

#[test]
fn guess_unknown_suffix_is_none() {
    assert_eq!(guess_file_format("dump.bin"), None);
    assert_eq!(guess_file_format("dump"), None);
    assert_eq!(guess_file_format(""), None);
}

#[test]
fn guess_prefers_newslab_over_plain_pcd() {
    // Every newslab name also ends with ".pcd"; the longer suffix wins.
    assert_eq!(
        guess_file_format("a.newslab.pcd"),
        Some(FileFormat::NewslabPcd)
    );
    assert_eq!(
        guess_file_format("newslab.pcd"),
        Some(FileFormat::LibpclPcd)
    );
}

#[test]
fn guess_bare_suffix_names() {
    // The check is a pure suffix match: a name that is nothing but the
    // suffix still resolves.
    assert_eq!(guess_file_format(".pcd"), Some(FileFormat::LibpclPcd));
    assert_eq!(
        guess_file_format(".newslab.pcd"),
        Some(FileFormat::NewslabPcd)
    );
}

#[test]
fn resolve_format_explicit_override_wins() {
    assert_eq!(
        resolve_format(Some(FileFormat::RawBin), "cloud.pcd"),
        Ok(FileFormat::RawBin)
    );
}

#[test]
fn resolve_format_falls_back_to_suffix() {
    assert_eq!(
        resolve_format(None, "capture.pcap"),
        Ok(FileFormat::VelodynePcap)
    );
}

#[test]
fn resolve_format_ambiguous_without_suffix() {
    assert_eq!(
        resolve_format(None, "dump.bin"),
        Err(ConvertError::FormatAmbiguous)
    );
}
