//! One installation, from the first request to the written file.
//!
//! The library performs no input or output. It says what is to be done next
//! and decides, from what came of it, how the run goes on: a request for the
//! newest release, a request for the asset chosen from it, then the writing
//! of the file. Each stage is a value that only the stage before it can
//! make, so nothing is downloaded before an asset is chosen, and nothing is
//! written before the download has arrived. A stage that fails hands back
//! the error and no further stage.

use crate::error::{report_view, result_view, InstallError, InstallErrorView};
use crate::http::{spec_check_status, Request, RequestView, STATUS_OK};
use crate::info::{LSInfo, LSInfoView};
use crate::platform::Os;
use crate::release::{release_of_reply, GHReleaseRes, GHReleaseResView};
use crate::target::{InstallTarget, InstallTargetView};
use vstd::prelude::*;

verus! {

/// The run is waiting for the newest release.
#[derive(Debug, PartialEq, Eq)]
pub struct Resolving {
    info: LSInfo,
    os: Os,
}

/// The run has chosen an asset and is waiting for its bytes.
#[derive(Debug, PartialEq, Eq)]
pub struct Downloading {
    info: LSInfo,
    url: String,
}

/// The run holds the binary and is waiting for it to be written.
#[derive(Debug, PartialEq, Eq)]
pub struct Installing {
    target: InstallTarget,
    content: bytes::Bytes,
}

/// What the contracts see of a `Resolving`.
pub struct ResolvingView {
    pub info: LSInfoView,
    pub os: Os,
}

/// What the contracts see of a `Downloading`.
pub struct DownloadingView {
    pub info: LSInfoView,
    pub url: Seq<char>,
}

/// What the contracts see of an `Installing`.
pub struct InstallingView {
    pub target: InstallTargetView,
    pub content: bytes::Bytes,
}

impl View for Resolving {
    type V = ResolvingView;

    closed spec fn view(&self) -> ResolvingView {
        ResolvingView { info: self.info@, os: self.os }
    }
}

impl View for Downloading {
    type V = DownloadingView;

    closed spec fn view(&self) -> DownloadingView {
        DownloadingView { info: self.info@, url: self.url@ }
    }
}

impl View for Installing {
    type V = InstallingView;

    closed spec fn view(&self) -> InstallingView {
        InstallingView { target: self.target@, content: self.content }
    }
}

impl ResolvingView {
    /// What this stage asks for: the project's newest release.
    pub open spec fn request(self) -> RequestView {
        RequestView::get(self.info.latest_url())
    }

    /// What follows from the response. In this order: a status other than
    /// 200 ends the run, then a body that was not decoded, then a host for
    /// which the project names no asset, then a release without an asset of
    /// the expected name. Otherwise the first asset of that name is
    /// downloaded.
    pub open spec fn on_reply(
        self,
        status: u16,
        body: Result<GHReleaseResView, Seq<char>>,
    ) -> Result<DownloadingView, InstallErrorView> {
        match release_of_reply(status, body) {
            Err(error) => Err(error),
            Ok(release) => match self.info.download_url(release, self.os) {
                Err(error) => Err(error),
                Ok(url) => Ok(DownloadingView { info: self.info, url }),
            },
        }
    }
}

impl DownloadingView {
    /// What this stage asks for: the chosen asset.
    pub open spec fn request(self) -> RequestView {
        RequestView::get(self.url)
    }

    /// What follows from the response: with status 200 the body is the
    /// binary, to be written untouched to the project's install target; any
    /// other status ends the run.
    pub open spec fn on_reply(
        self,
        status: u16,
        body: bytes::Bytes,
    ) -> Result<InstallingView, InstallErrorView> {
        match spec_check_status(status) {
            Err(error) => Err(error),
            Ok(()) => Ok(InstallingView { target: self.info.install_target(), content: body }),
        }
    }
}

impl InstallingView {
    /// How the run ends: well if the file was written, and with the file
    /// system's complaint if it was not.
    pub open spec fn on_outcome(
        self,
        outcome: Result<(), Seq<char>>,
    ) -> Result<(), InstallErrorView> {
        match outcome {
            Ok(()) => Ok(()),
            Err(reason) => Err(InstallErrorView::IoError { reason }),
        }
    }
}

impl Resolving {
    /// Starts a run that installs `info`'s binary on a host running `os`.
    pub fn new(info: LSInfo, os: Os) -> (stage: Resolving)
        ensures
            stage@ == (ResolvingView { info: info@, os }),
    {
        Resolving { info, os }
    }

    /// The request to perform at this stage.
    pub fn request(&self) -> (request: Request)
        ensures
            request@ == self@.request(),
            request@.identifies_itself(),
    {
        self.info.latest_request()
    }

    /// Takes the response to `request`: `status` as received, `body` as the
    /// decoder left it.
    pub fn on_reply(
        self,
        status: u16,
        body: Result<GHReleaseRes, String>,
    ) -> (next: Result<Downloading, InstallError>)
        ensures
            result_view(next) == self@.on_reply(status, report_view(body)),
    {
        match self.info.get_release(status, body) {
            Err(error) => Err(error),
            Ok(release) => match self.info.get_download_url(&release, self.os) {
                Err(error) => Err(error),
                Ok(url) => Ok(Downloading { info: self.info, url }),
            },
        }
    }
}

impl Downloading {
    /// The request to perform at this stage.
    pub fn request(&self) -> (request: Request)
        ensures
            request@ == self@.request(),
            request@.identifies_itself(),
    {
        Request::get(self.url.clone())
    }

    /// Takes the response to `request`.
    pub fn on_reply(
        self,
        status: u16,
        body: bytes::Bytes,
    ) -> (next: Result<Installing, InstallError>)
        ensures
            result_view(next) == self@.on_reply(status, body),
    {
        match self.info.get_bin(status, body) {
            Err(error) => Err(error),
            Ok(content) => Ok(Installing { target: self.info.install_target(), content }),
        }
    }
}

impl Installing {
    /// Where to write: the directory to create, with its parents, if it is
    /// not there, and the file to create or overwrite in it.
    pub fn target(&self) -> (target: &InstallTarget)
        ensures
            target@ == self@.target,
    {
        &self.target
    }

    /// What to write, in full.
    pub fn content(&self) -> (content: &bytes::Bytes)
        ensures
            *content == self@.content,
    {
        &self.content
    }

    /// Takes the outcome of the writing: `Err` with the file system's
    /// complaint if the directory could not be created or the file not
    /// written.
    pub fn on_outcome(self, outcome: Result<(), String>) -> (end: Result<(), InstallError>)
        ensures
            result_view(end) == self@.on_outcome(report_view(outcome)),
    {
        match outcome {
            Ok(()) => Ok(()),
            Err(reason) => Err(InstallError::IoError { reason }),
        }
    }
}

/// A release that lists the asset expected on the host leads to the download
/// of that asset and of no other: where `i` is the first place at which the
/// expected name stands, the download goes to the address at place `i`.
pub proof fn lemma_expected_asset_is_downloaded(
    stage: ResolvingView,
    wire: GHReleaseResView,
    expected_name: Seq<char>,
    i: int,
)
    requires
        stage.info.gh_release.bin_name(stage.os) == Some(expected_name),
        wire.project().first_named_at(expected_name, i),
    ensures
        stage.on_reply(STATUS_OK, Ok(wire)) == Ok::<DownloadingView, InstallErrorView>(
            DownloadingView { info: stage.info, url: wire.assets[i].browser_download_url },
        ),
{
    wire.project().lemma_find_asset_first(expected_name, i);
}

/// A release that lists the expected asset anywhere leads to a download, and
/// the address downloaded from is that of an asset of the expected name.
pub proof fn lemma_listed_asset_is_downloaded(
    stage: ResolvingView,
    wire: GHReleaseResView,
    expected_name: Seq<char>,
)
    requires
        stage.info.gh_release.bin_name(stage.os) == Some(expected_name),
        wire.project().has_asset(expected_name),
    ensures
        stage.on_reply(STATUS_OK, Ok(wire)) matches Ok(next) && {
            &&& next.info == stage.info
            &&& exists|i: int|
                0 <= i < wire.assets.len() && (#[trigger] wire.assets[i]).name == expected_name
                    && wire.assets[i].browser_download_url == next.url
        },
{
    let release = wire.project();
    let k = choose|k: int|
        0 <= k < release.assets.len() && (#[trigger] release.assets[k]).name == expected_name;
    let i = release.lemma_first_named_exists(expected_name, k);
    lemma_expected_asset_is_downloaded(stage, wire, expected_name, i);
    assert(wire.assets[i].name == expected_name);
}

/// A release that does not list the expected asset ends the run with
/// `AssetNotFound`, which names the asset that was looked for. No stage
/// follows, so nothing is downloaded and nothing written.
pub proof fn lemma_missing_asset_ends_run(
    stage: ResolvingView,
    wire: GHReleaseResView,
    expected_name: Seq<char>,
)
    requires
        stage.info.gh_release.bin_name(stage.os) == Some(expected_name),
        !wire.project().has_asset(expected_name),
    ensures
        stage.on_reply(STATUS_OK, Ok(wire)) == Err::<DownloadingView, InstallErrorView>(
            InstallErrorView::AssetNotFound { expected_name },
        ),
{
    wire.project().lemma_find_asset_iff_has(expected_name);
}

/// On a host for which the project names no asset, a release that was
/// received and decoded ends the run with `UnsupportedPlatform`, whatever
/// the release lists: no asset is looked for. An unrecognised system is
/// such a host for every project.
pub proof fn lemma_unsupported_platform_ends_run(stage: ResolvingView, wire: GHReleaseResView)
    requires
        stage.os == Os::Other,
    ensures
        stage.on_reply(STATUS_OK, Ok(wire)) == Err::<DownloadingView, InstallErrorView>(
            InstallErrorView::UnsupportedPlatform,
        ),
{
}

/// A response with a status other than 200 ends the run with `HttpError`,
/// which names the status, whatever the body, the host and the project: the
/// release is not read and no asset is looked for.
pub proof fn lemma_refused_request_ends_run(
    stage: ResolvingView,
    status: u16,
    body: Result<GHReleaseResView, Seq<char>>,
)
    requires
        status != STATUS_OK,
    ensures
        stage.on_reply(status, body) == Err::<DownloadingView, InstallErrorView>(
            InstallErrorView::HttpError { status },
        ),
{
}

} // verus!
