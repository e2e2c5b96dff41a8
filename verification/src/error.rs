//! The ways in which a download and a release lookup fail.
use crate::decimal::{decimal, decimal_chars};
use crate::foreign::{io_error_text, status_display, status_text};
use crate::text::string_of;
use vstd::prelude::*;
use vstd::string::StringExecFns;

verus! {

/// Why a download failed.
#[derive(Debug)]
#[allow(inconsistent_fields)]
pub enum DownloadError {
    /// The text given as URL is none.
    InvalidUrl { url: String, source: url::ParseError },
    /// The file system refused an operation.
    IoError(std::io::Error),
    /// The request could not be sent or answered.
    NetworkError { source: reqwest::Error },
    /// The server answered with a status that is no success.
    ResourceError { url: String, status: u16 },
    /// The answer could not be read as what was asked for.
    InvalidResponse,
    /// No layer of the manifest passed the filter.
    LayersNotFound,
    /// The body broke off while it was read.
    ChunkError,
    /// No file name could be derived.
    FileNameNotFound,
}

/// Why a release lookup failed.
#[derive(Debug)]
pub enum PlatformError {
    /// The API answered with this status.
    ApiError { status: u16 },
    /// The download of the chosen asset failed.
    DownloadError(DownloadError),
    /// The input is not of the expected form.
    InvalidInput(String),
    /// The API's answer could not be read.
    InvalidResponse,
    /// The release has no asset that passes the filter.
    NoMatchingAssets { available_assets: Vec<String> },
    /// There is no release, or none with the tag asked for.
    NoRelease { tag: Option<String> },
    /// The repository does not exist.
    RepositoryNotFound { owner: String, repo: String },
}

/// How a status code is written in a message: with its reason phrase where
/// it is a status code proper, else as the bare number.
pub open spec fn status_label(status: u16) -> Seq<char> {
    if 100 <= status < 1000 {
        status_display(status)
    } else {
        decimal(status as nat)
    }
}

/// Writes a status code for a message.
pub fn status_label_text(status: u16) -> (r: String)
    ensures
        r@ == status_label(status),
{
    if 100 <= status && status < 1000 {
        status_text(status)
    } else {
        string_of(&decimal_chars(status as u64))
    }
}

/// The message of a download error that does not wrap another error.
pub open spec fn download_message(error: DownloadError) -> Seq<char> {
    match error {
        DownloadError::InvalidUrl { url, .. } => "Invalid URL: "@ + url@,
        DownloadError::NetworkError { .. } => "Network Request failed"@,
        DownloadError::ResourceError { url, status } => "Failed to fetch resource from "@ + url@
            + " ["@ + status_label(status) + "]"@,
        DownloadError::LayersNotFound => "No downloadable layers found"@,
        DownloadError::InvalidResponse => "Failed to parse response"@,
        DownloadError::ChunkError => "Failed to read chunk"@,
        DownloadError::FileNameNotFound =>
            "Couldn't find filename. Please provide filename explicitly."@,
        DownloadError::IoError(_) => "IO error: "@,
    }
}

/// The message of a platform error that does not wrap a download error.
pub open spec fn platform_message(error: PlatformError) -> Seq<char> {
    match error {
        PlatformError::ApiError { status } => "API error ["@ + status_label(status) + "]"@,
        PlatformError::InvalidInput(input) => input@
            + " is invalid. Should be in format (owner/repo)"@,
        PlatformError::InvalidResponse => "Failed to parse response"@,
        PlatformError::NoRelease { tag } => match tag {
            Some(t) => "No tag "@ + t@ + " found."@,
            None => "No release found."@,
        },
        PlatformError::NoMatchingAssets { .. } => "No matching assets found"@,
        PlatformError::RepositoryNotFound { owner, repo } => "Repository not found: "@ + owner@
            + "/"@ + repo@,
        PlatformError::DownloadError(inner) => "Download error: "@ + download_message(inner),
    }
}

impl DownloadError {
    /// The message that describes the error. For an I/O error it begins
    /// with `IO error: `, and what follows is the system's own text.
    pub fn message(&self) -> (r: String)
        ensures
            !(self is IoError) ==> r@ == download_message(*self),
            self is IoError ==> download_message(*self).is_prefix_of(r@),
    {
        match self {
            DownloadError::IoError(err) => {
                let head = String::from_str("IO error: ");
                let tail = io_error_text(err);
                head.concat(tail.as_str())
            },
            DownloadError::InvalidUrl { url, .. } => String::from_str("Invalid URL: ").concat(
                url.as_str(),
            ),
            DownloadError::NetworkError { .. } => String::from_str("Network Request failed"),
            DownloadError::ResourceError { url, status } => {
                let label = status_label_text(*status);
                String::from_str("Failed to fetch resource from ").concat(url.as_str()).concat(
                    " [",
                ).concat(label.as_str()).concat("]")
            },
            DownloadError::LayersNotFound => String::from_str("No downloadable layers found"),
            DownloadError::InvalidResponse => String::from_str("Failed to parse response"),
            DownloadError::ChunkError => String::from_str("Failed to read chunk"),
            DownloadError::FileNameNotFound => String::from_str(
                "Couldn't find filename. Please provide filename explicitly.",
            ),
        }
    }

}

impl From<std::io::Error> for DownloadError {
    /// Wraps an I/O error.
    fn from(value: std::io::Error) -> (r: DownloadError) {
        DownloadError::IoError(value)
    }
}

impl vstd::std_specs::convert::FromSpecImpl<std::io::Error> for DownloadError {
    open spec fn obeys_from_spec() -> bool {
        true
    }

    open spec fn from_spec(value: std::io::Error) -> DownloadError {
        DownloadError::IoError(value)
    }
}

impl PlatformError {
    /// The message that describes the error.
    pub fn message(&self) -> (r: String)
        ensures
            !(self matches PlatformError::DownloadError(inner) && inner is IoError) ==> r@
                == platform_message(*self),
            platform_message(*self).is_prefix_of(r@),
    {
        match self {
            PlatformError::ApiError { status } => {
                let label = status_label_text(*status);
                String::from_str("API error [").concat(label.as_str()).concat("]")
            },
            PlatformError::DownloadError(inner) => {
                let text = inner.message();
                String::from_str("Download error: ").concat(text.as_str())
            },
            PlatformError::InvalidInput(input) => String::from_str(input.as_str()).concat(
                " is invalid. Should be in format (owner/repo)",
            ),
            PlatformError::InvalidResponse => String::from_str("Failed to parse response"),
            PlatformError::NoRelease { tag } => match tag {
                Some(t) => String::from_str("No tag ").concat(t.as_str()).concat(" found."),
                None => String::from_str("No release found."),
            },
            PlatformError::NoMatchingAssets { .. } => String::from_str("No matching assets found"),
            PlatformError::RepositoryNotFound { owner, repo } => String::from_str(
                "Repository not found: ",
            ).concat(owner.as_str()).concat("/").concat(repo.as_str()),
        }
    }

}

impl From<DownloadError> for PlatformError {
    /// Wraps a download error.
    fn from(value: DownloadError) -> (r: PlatformError) {
        PlatformError::DownloadError(value)
    }
}

impl vstd::std_specs::convert::FromSpecImpl<DownloadError> for PlatformError {
    open spec fn obeys_from_spec() -> bool {
        true
    }

    open spec fn from_spec(value: DownloadError) -> PlatformError {
        PlatformError::DownloadError(value)
    }
}

} // verus!
