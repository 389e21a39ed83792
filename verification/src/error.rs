//! The ways in which an installation ends without the binary in place.

use vstd::prelude::*;

verus! {

/// Why a run stopped. No failure is retried: the first one ends the run.
#[derive(Debug, PartialEq, Eq)]
pub enum InstallError {
    /// A request was answered with a status other than 200.
    HttpError { status: u16 },
    /// The release metadata could not be read; `reason` is the decoder's
    /// account of it.
    DecodeError { reason: String },
    /// The project publishes no asset for the host's operating system.
    UnsupportedPlatform,
    /// The release holds no asset under the name expected on this host.
    AssetNotFound { expected_name: String },
    /// The directory could not be created or the file not written; `reason`
    /// is the file system's account of it.
    IoError { reason: String },
}

/// What the contracts see of an `InstallError`.
pub enum InstallErrorView {
    HttpError { status: u16 },
    DecodeError { reason: Seq<char> },
    UnsupportedPlatform,
    AssetNotFound { expected_name: Seq<char> },
    IoError { reason: Seq<char> },
}

impl View for InstallError {
    type V = InstallErrorView;

    open spec fn view(&self) -> InstallErrorView {
        match self {
            InstallError::HttpError { status } => InstallErrorView::HttpError { status: *status },
            InstallError::DecodeError { reason } => InstallErrorView::DecodeError {
                reason: reason@,
            },
            InstallError::UnsupportedPlatform => InstallErrorView::UnsupportedPlatform,
            InstallError::AssetNotFound { expected_name } => InstallErrorView::AssetNotFound {
                expected_name: expected_name@,
            },
            InstallError::IoError { reason } => InstallErrorView::IoError { reason: reason@ },
        }
    }
}

/// The view of a step's result: the view of whichever side it holds.
pub open spec fn result_view<T: View>(
    result: Result<T, InstallError>,
) -> Result<T::V, InstallErrorView> {
    match result {
        Ok(value) => Ok(value@),
        Err(error) => Err(error@),
    }
}

/// The view of what was reported of work done outside the library: the view
/// of the value it produced, or the text of its complaint.
pub open spec fn report_view<T: View>(report: Result<T, String>) -> Result<T::V, Seq<char>> {
    match report {
        Ok(value) => Ok(value@),
        Err(reason) => Err(reason@),
    }
}

} // verus!
