//! The ways in which a download ends without a file.

use vstd::prelude::*;

use crate::number::decimal;
use crate::number::to_decimal;
use crate::text::join2;
use crate::text::join3;
use crate::text::join4;

verus! {

/// Why a download failed.
#[derive(Debug)]
pub enum TaskError {
    /// The URL is no HTTP URL.
    InvalidUrl { url: String },
    /// The request that finds the place of the file failed.
    GetFailed { url: String, cause: String },
    /// The request that asks for the file's name failed.
    HeadFailed { url: String, cause: String },
    /// The place of the file is no URL.
    UnparsableUrl { url: String, cause: String },
    /// The transfer failed.
    TransferFailed { name: String, cause: String },
    /// The transfer took too long, again and again.
    TimedOut { name: String, attempts: u8 },
    /// The size of the file could not be found out.
    NoMetadata { name: String, cause: String },
    /// The file is empty.
    EmptyFile { name: String },
    /// The file could not be given its name.
    RenameFailed { name: String, cause: String },
    /// There is no file.
    FileMissing { name: String },
}

/// The content of a [`TaskError`].
#[verifier::ext_equal]
pub enum TaskErrorView {
    InvalidUrl { url: Seq<char> },
    GetFailed { url: Seq<char>, cause: Seq<char> },
    HeadFailed { url: Seq<char>, cause: Seq<char> },
    UnparsableUrl { url: Seq<char>, cause: Seq<char> },
    TransferFailed { name: Seq<char>, cause: Seq<char> },
    TimedOut { name: Seq<char>, attempts: int },
    NoMetadata { name: Seq<char>, cause: Seq<char> },
    EmptyFile { name: Seq<char> },
    RenameFailed { name: Seq<char>, cause: Seq<char> },
    FileMissing { name: Seq<char> },
}

impl View for TaskError {
    type V = TaskErrorView;

    open spec fn view(&self) -> TaskErrorView {
        match self {
            TaskError::InvalidUrl { url } => TaskErrorView::InvalidUrl { url: url@ },
            TaskError::GetFailed { url, cause } => TaskErrorView::GetFailed {
                url: url@,
                cause: cause@,
            },
            TaskError::HeadFailed { url, cause } => TaskErrorView::HeadFailed {
                url: url@,
                cause: cause@,
            },
            TaskError::UnparsableUrl { url, cause } => TaskErrorView::UnparsableUrl {
                url: url@,
                cause: cause@,
            },
            TaskError::TransferFailed { name, cause } => TaskErrorView::TransferFailed {
                name: name@,
                cause: cause@,
            },
            TaskError::TimedOut { name, attempts } => TaskErrorView::TimedOut {
                name: name@,
                attempts: *attempts as int,
            },
            TaskError::NoMetadata { name, cause } => TaskErrorView::NoMetadata {
                name: name@,
                cause: cause@,
            },
            TaskError::EmptyFile { name } => TaskErrorView::EmptyFile { name: name@ },
            TaskError::RenameFailed { name, cause } => TaskErrorView::RenameFailed {
                name: name@,
                cause: cause@,
            },
            TaskError::FileMissing { name } => TaskErrorView::FileMissing { name: name@ },
        }
    }
}

impl TaskErrorView {
    /// The text of the error.
    pub open spec fn message(self) -> Seq<char> {
        match self {
            TaskErrorView::InvalidUrl { url } => "Invalid URL: "@ + url + ". Must be http/https."@,
            TaskErrorView::GetFailed { url, cause } => "Failed to send GET request for "@ + url
                + ": "@ + cause,
            TaskErrorView::HeadFailed { url, cause } => "Failed to send HEAD request for "@ + url
                + ": "@ + cause,
            TaskErrorView::UnparsableUrl { url, cause } => "Failed to parse URL "@ + url + ": "@
                + cause,
            TaskErrorView::TransferFailed { name, cause } => cause,
            TaskErrorView::TimedOut { name, attempts } => "Download timed out after "@ + decimal(
                attempts as nat,
            ) + " attempts"@,
            TaskErrorView::NoMetadata { name, cause } => "Failed to get metadata for "@ + name
                + ": "@ + cause,
            TaskErrorView::EmptyFile { name } => "Downloaded file "@ + name + " is empty"@,
            TaskErrorView::RenameFailed { name, cause } => "File rename failed for "@ + name
                + ": "@ + cause,
            TaskErrorView::FileMissing { name } => "Final file "@ + name
                + " not found after download."@,
        }
    }

    /// What the progress display calls the download: its URL, until the file has a name.
    pub open spec fn subject(self) -> Seq<char> {
        match self {
            TaskErrorView::InvalidUrl { url } => url,
            TaskErrorView::GetFailed { url, cause } => url,
            TaskErrorView::HeadFailed { url, cause } => url,
            TaskErrorView::UnparsableUrl { url, cause } => url,
            TaskErrorView::TransferFailed { name, cause } => name,
            TaskErrorView::TimedOut { name, attempts } => name,
            TaskErrorView::NoMetadata { name, cause } => name,
            TaskErrorView::EmptyFile { name } => name,
            TaskErrorView::RenameFailed { name, cause } => name,
            TaskErrorView::FileMissing { name } => name,
        }
    }

    /// What the progress display says of the failure.
    pub open spec fn reason(self) -> Seq<char> {
        match self {
            TaskErrorView::InvalidUrl { url } => "Invalid URL"@,
            TaskErrorView::GetFailed { url, cause } => "Network error: "@ + cause,
            TaskErrorView::HeadFailed { url, cause } => "HEAD request error: "@ + cause,
            TaskErrorView::UnparsableUrl { url, cause } => "URL parse error: "@ + cause,
            TaskErrorView::TransferFailed { name, cause } => cause,
            TaskErrorView::TimedOut { name, attempts } => "Timed out"@,
            TaskErrorView::NoMetadata { name, cause } => "Metadata error: "@ + cause,
            TaskErrorView::EmptyFile { name } => "Empty file"@,
            TaskErrorView::RenameFailed { name, cause } => "Rename error: "@ + cause,
            TaskErrorView::FileMissing { name } => "File not found"@,
        }
    }

    /// The last line of the progress display.
    pub open spec fn progress(self) -> Seq<char> {
        "Download of "@ + self.subject() + " failed: "@ + self.reason()
    }
}

impl TaskError {
    /// The text of the error.
    pub fn message(&self) -> (r: String)
        ensures
            r@ == self@.message(),
    {
        match self {
            TaskError::InvalidUrl { url } => join3(
                "Invalid URL: ",
                url.as_str(),
                ". Must be http/https.",
            ),
            TaskError::GetFailed { url, cause } => join4(
                "Failed to send GET request for ",
                url.as_str(),
                ": ",
                cause.as_str(),
            ),
            TaskError::HeadFailed { url, cause } => join4(
                "Failed to send HEAD request for ",
                url.as_str(),
                ": ",
                cause.as_str(),
            ),
            TaskError::UnparsableUrl { url, cause } => join4(
                "Failed to parse URL ",
                url.as_str(),
                ": ",
                cause.as_str(),
            ),
            TaskError::TransferFailed { name: _, cause } => cause.clone(),
            TaskError::TimedOut { name: _, attempts } => {
                let count = to_decimal(*attempts as usize);
                join3("Download timed out after ", count.as_str(), " attempts")
            },
            TaskError::NoMetadata { name, cause } => join4(
                "Failed to get metadata for ",
                name.as_str(),
                ": ",
                cause.as_str(),
            ),
            TaskError::EmptyFile { name } => join3("Downloaded file ", name.as_str(), " is empty"),
            TaskError::RenameFailed { name, cause } => join4(
                "File rename failed for ",
                name.as_str(),
                ": ",
                cause.as_str(),
            ),
            TaskError::FileMissing { name } => join3(
                "Final file ",
                name.as_str(),
                " not found after download.",
            ),
        }
    }

    /// The last line of the progress display.
    pub fn progress(&self) -> (r: String)
        ensures
            r@ == self@.progress(),
    {
        let subject = match self {
            TaskError::InvalidUrl { url } => url.as_str(),
            TaskError::GetFailed { url, .. } => url.as_str(),
            TaskError::HeadFailed { url, .. } => url.as_str(),
            TaskError::UnparsableUrl { url, .. } => url.as_str(),
            TaskError::TransferFailed { name, .. } => name.as_str(),
            TaskError::TimedOut { name, .. } => name.as_str(),
            TaskError::NoMetadata { name, .. } => name.as_str(),
            TaskError::EmptyFile { name } => name.as_str(),
            TaskError::RenameFailed { name, .. } => name.as_str(),
            TaskError::FileMissing { name } => name.as_str(),
        };
        let reason = match self {
            TaskError::InvalidUrl { .. } => "Invalid URL".to_owned(),
            TaskError::GetFailed { cause, .. } => join2("Network error: ", cause.as_str()),
            TaskError::HeadFailed { cause, .. } => join2("HEAD request error: ", cause.as_str()),
            TaskError::UnparsableUrl { cause, .. } => join2("URL parse error: ", cause.as_str()),
            TaskError::TransferFailed { cause, .. } => cause.clone(),
            TaskError::TimedOut { .. } => "Timed out".to_owned(),
            TaskError::NoMetadata { cause, .. } => join2("Metadata error: ", cause.as_str()),
            TaskError::EmptyFile { .. } => "Empty file".to_owned(),
            TaskError::RenameFailed { cause, .. } => join2("Rename error: ", cause.as_str()),
            TaskError::FileMissing { .. } => "File not found".to_owned(),
        };
        join4("Download of ", subject, " failed: ", reason.as_str())
    }
}

/// The text of an error says what failed, of which URL or file, and gives the cause where there is
/// one.
pub proof fn error_text_tells_what_failed(url: Seq<char>, name: Seq<char>, cause: Seq<char>, n: nat)
    ensures
        (TaskErrorView::InvalidUrl { url }).message() == "Invalid URL: "@ + url
            + ". Must be http/https."@,
        (TaskErrorView::GetFailed { url, cause }).message() == "Failed to send GET request for "@
            + url + ": "@ + cause,
        (TaskErrorView::HeadFailed { url, cause }).message() == "Failed to send HEAD request for "@
            + url + ": "@ + cause,
        (TaskErrorView::UnparsableUrl { url, cause }).message() == "Failed to parse URL "@ + url
            + ": "@ + cause,
        (TaskErrorView::TransferFailed { name, cause }).message() == cause,
        (TaskErrorView::TimedOut { name, attempts: n as int }).message()
            == "Download timed out after "@ + decimal(n) + " attempts"@,
        (TaskErrorView::NoMetadata { name, cause }).message() == "Failed to get metadata for "@
            + name + ": "@ + cause,
        (TaskErrorView::EmptyFile { name }).message() == "Downloaded file "@ + name + " is empty"@,
        (TaskErrorView::RenameFailed { name, cause }).message() == "File rename failed for "@ + name
            + ": "@ + cause,
        (TaskErrorView::FileMissing { name }).message() == "Final file "@ + name
            + " not found after download."@,
{
}

/// The progress display ends with the URL, or the file's name once there is one, and with the
/// reason of the failure.
pub proof fn progress_tells_what_failed(url: Seq<char>, name: Seq<char>, cause: Seq<char>, n: int)
    ensures
        (TaskErrorView::InvalidUrl { url }).progress() == "Download of "@ + url + " failed: "@
            + "Invalid URL"@,
        (TaskErrorView::GetFailed { url, cause }).progress() == "Download of "@ + url + " failed: "@
            + ("Network error: "@ + cause),
        (TaskErrorView::HeadFailed { url, cause }).progress() == "Download of "@ + url
            + " failed: "@ + ("HEAD request error: "@ + cause),
        (TaskErrorView::UnparsableUrl { url, cause }).progress() == "Download of "@ + url
            + " failed: "@ + ("URL parse error: "@ + cause),
        (TaskErrorView::TransferFailed { name, cause }).progress() == "Download of "@ + name
            + " failed: "@ + cause,
        (TaskErrorView::TimedOut { name, attempts: n }).progress() == "Download of "@ + name
            + " failed: "@ + "Timed out"@,
        (TaskErrorView::NoMetadata { name, cause }).progress() == "Download of "@ + name
            + " failed: "@ + ("Metadata error: "@ + cause),
        (TaskErrorView::EmptyFile { name }).progress() == "Download of "@ + name + " failed: "@
            + "Empty file"@,
        (TaskErrorView::RenameFailed { name, cause }).progress() == "Download of "@ + name
            + " failed: "@ + ("Rename error: "@ + cause),
        (TaskErrorView::FileMissing { name }).progress() == "Download of "@ + name + " failed: "@
            + "File not found"@,
{
}

/// What an error holds is told in full.
pub proof fn error_is_told_in_full(url: String, name: String, cause: String, n: u8)
    ensures
        (TaskError::InvalidUrl { url })@ == (TaskErrorView::InvalidUrl { url: url@ }),
        (TaskError::GetFailed { url, cause })@ == (TaskErrorView::GetFailed {
            url: url@,
            cause: cause@,
        }),
        (TaskError::HeadFailed { url, cause })@ == (TaskErrorView::HeadFailed {
            url: url@,
            cause: cause@,
        }),
        (TaskError::UnparsableUrl { url, cause })@ == (TaskErrorView::UnparsableUrl {
            url: url@,
            cause: cause@,
        }),
        (TaskError::TransferFailed { name, cause })@ == (TaskErrorView::TransferFailed {
            name: name@,
            cause: cause@,
        }),
        (TaskError::TimedOut { name, attempts: n })@ == (TaskErrorView::TimedOut {
            name: name@,
            attempts: n as int,
        }),
        (TaskError::NoMetadata { name, cause })@ == (TaskErrorView::NoMetadata {
            name: name@,
            cause: cause@,
        }),
        (TaskError::EmptyFile { name })@ == (TaskErrorView::EmptyFile { name: name@ }),
        (TaskError::RenameFailed { name, cause })@ == (TaskErrorView::RenameFailed {
            name: name@,
            cause: cause@,
        }),
        (TaskError::FileMissing { name })@ == (TaskErrorView::FileMissing { name: name@ }),
{
}

} // verus!
