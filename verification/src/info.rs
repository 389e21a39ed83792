//! The description of one installable project, and what follows from it:
//! where its releases are listed, and where its binary is kept.

use crate::error::{report_view, result_view, InstallError, InstallErrorView};
use crate::http::{check_status, spec_check_status, Request, RequestView};
use crate::platform::{GHRelease, GHReleaseView, Os};
use crate::release::{
    release_of_reply, releases_of_reply, GHReleaseRes, GHReleaseResView, Res, ResView,
};
use crate::target::{InstallTarget, InstallTargetView, ROOT_DIR};
use vstd::prelude::*;
use vstd::string::*;

verus! {

/// One project: fixed when the program starts, read by every step, changed
/// by none.
#[derive(Debug, PartialEq, Eq)]
pub struct LSInfo {
    /// The project's name, which is also the name of its directory.
    pub name: String,
    /// The address of the project's release list.
    pub url: String,
    /// The file name the binary is installed under.
    pub bin_name: String,
    /// The asset names to look for, per operating system.
    pub gh_release: GHRelease,
}

/// What the contracts see of an `LSInfo`.
pub struct LSInfoView {
    pub name: Seq<char>,
    pub url: Seq<char>,
    pub bin_name: Seq<char>,
    pub gh_release: GHReleaseView,
}

impl View for LSInfo {
    type V = LSInfoView;

    open spec fn view(&self) -> LSInfoView {
        LSInfoView {
            name: self.name@,
            url: self.url@,
            bin_name: self.bin_name@,
            gh_release: self.gh_release@,
        }
    }
}

impl LSInfoView {
    /// The project's directory: `.lsm`, then the project's name.
    pub open spec fn bin_dir(self) -> Seq<Seq<char>> {
        seq![ROOT_DIR@, self.name]
    }

    /// The binary's path: the project's directory, then the binary's name.
    pub open spec fn bin_path(self) -> Seq<Seq<char>> {
        self.bin_dir().push(self.bin_name)
    }

    /// The place the binary is installed at.
    pub open spec fn install_target(self) -> InstallTargetView {
        InstallTargetView { directory: self.bin_dir(), file_name: self.bin_name }
    }

    /// The address of the newest release: the release list's, then `/latest`.
    pub open spec fn latest_url(self) -> Seq<char> {
        self.url + "/latest"@
    }

    /// The address to download from, for a host running `os`: that of the
    /// first asset of `release` that bears the name the project publishes
    /// for `os`.
    pub open spec fn download_url(
        self,
        release: ResView,
        os: Os,
    ) -> Result<Seq<char>, InstallErrorView> {
        match self.gh_release.bin_name(os) {
            None => Err(InstallErrorView::UnsupportedPlatform),
            Some(expected_name) => match release.find_asset(expected_name) {
                Some(asset) => Ok(asset.url),
                None => Err(InstallErrorView::AssetNotFound { expected_name }),
            },
        }
    }
}

/// The view of a list of releases received: each release's view, in order.
pub open spec fn wire_releases_view(
    body: Result<Vec<GHReleaseRes>, String>,
) -> Result<Seq<GHReleaseResView>, Seq<char>> {
    match body {
        Ok(wire) => Ok(wire@.map_values(|release: GHReleaseRes| release@)),
        Err(reason) => Err(reason@),
    }
}

/// The view of a list of releases returned: each release's view, in order.
pub open spec fn releases_view(
    releases: Result<Vec<Res>, InstallError>,
) -> Result<Seq<ResView>, InstallErrorView> {
    match releases {
        Ok(list) => Ok(list@.map_values(|release: Res| release@)),
        Err(error) => Err(error@),
    }
}

impl LSInfo {
    /// The project this installer was made for.
    pub fn awesome_lsp() -> (info: LSInfo)
        ensures
            info@.name == "awesome-lsp"@,
            info@.url == "https://api.github.com/repos/h-michael/awesome-lsp/releases"@,
            info@.bin_name == "awesome-lsp"@,
            info@.gh_release.linux_bin_name == "awesome-lsp-linux"@,
            info@.gh_release.mac_bin_name == "awesome-lsp-mac"@,
            info@.gh_release.win_bin_name == "awesome-lsp-windows.exe"@,
    {
        LSInfo {
            name: "awesome-lsp".to_owned(),
            url: "https://api.github.com/repos/h-michael/awesome-lsp/releases".to_owned(),
            bin_name: "awesome-lsp".to_owned(),
            gh_release: GHRelease {
                linux_bin_name: "awesome-lsp-linux".to_owned(),
                mac_bin_name: "awesome-lsp-mac".to_owned(),
                win_bin_name: "awesome-lsp-windows.exe".to_owned(),
            },
        }
    }

    /// The components, below the home directory, of the directory that holds
    /// the project's binary.
    pub fn bin_dir(&self) -> (dir: Vec<String>)
        ensures
            dir.deep_view() == self@.bin_dir(),
    {
        let mut dir: Vec<String> = Vec::new();
        dir.push(ROOT_DIR.to_owned());
        dir.push(self.name.clone());
        assert(dir.deep_view() =~= self@.bin_dir());
        dir
    }

    /// The components, below the home directory, of the binary's path.
    pub fn bin_path(&self) -> (path: Vec<String>)
        ensures
            path.deep_view() == self@.bin_path(),
    {
        let mut path = self.bin_dir();
        path.push(self.bin_name.clone());
        assert(path.deep_view() =~= self@.bin_path());
        path
    }

    /// The place the binary is installed at. Its file is `bin_path`, its
    /// directory `bin_dir`.
    pub fn install_target(&self) -> (target: InstallTarget)
        ensures
            target@ == self@.install_target(),
            target@.directory == self@.bin_dir(),
            target@.file_path() == self@.bin_path(),
    {
        InstallTarget { directory: self.bin_dir(), file_name: self.bin_name.clone() }
    }

    /// The request for the project's newest release.
    pub fn latest_request(&self) -> (request: Request)
        ensures
            request@ == RequestView::get(self@.latest_url()),
            request@.identifies_itself(),
    {
        Request::get(self.url.clone().concat("/latest"))
    }

    /// The request for all of the project's releases.
    pub fn releases_request(&self) -> (request: Request)
        ensures
            request@ == RequestView::get(self@.url),
            request@.identifies_itself(),
    {
        Request::get(self.url.clone())
    }

    /// Reads the response to `latest_request`: `status` as received, `body`
    /// as the decoder left it.
    pub fn get_release(
        &self,
        status: u16,
        body: Result<GHReleaseRes, String>,
    ) -> (release: Result<Res, InstallError>)
        ensures
            result_view(release) == release_of_reply(status, report_view(body)),
    {
        match check_status(status) {
            Err(error) => Err(error),
            Ok(()) => match body {
                Ok(wire) => Ok(wire.project()),
                Err(reason) => Err(InstallError::DecodeError { reason }),
            },
        }
    }

    /// Reads the response to `releases_request`.
    pub fn get_releases(
        &self,
        status: u16,
        body: Result<Vec<GHReleaseRes>, String>,
    ) -> (releases: Result<Vec<Res>, InstallError>)
        ensures
            releases_view(releases) == releases_of_reply(status, wire_releases_view(body)),
    {
        match check_status(status) {
            Err(error) => Err(error),
            Ok(()) => match body {
                Ok(wire) => {
                    let mut list: Vec<Res> = Vec::new();
                    let mut i: usize = 0;
                    while i < wire.len()
                        invariant
                            i <= wire.len(),
                            list@.len() == i,
                            forall|k: int|
                                0 <= k < i ==> (#[trigger] list@[k])@ == wire@[k]@.project(),
                        decreases wire.len() - i,
                    {
                        list.push(wire[i].project());
                        i += 1;
                    }
                    assert(list@.map_values(|release: Res| release@) =~= wire@.map_values(
                        |release: GHReleaseRes| release@,
                    ).map_values(|release: GHReleaseResView| release.project()));
                    Ok(list)
                },
                Err(reason) => Err(InstallError::DecodeError { reason }),
            },
        }
    }

    /// Picks from `release` the asset for a host running `os` and gives its
    /// address.
    pub fn get_download_url(&self, release: &Res, os: Os) -> (url: Result<String, InstallError>)
        ensures
            result_view(url) == self@.download_url(release@, os),
    {
        match self.gh_release.bin_name(os) {
            None => Err(InstallError::UnsupportedPlatform),
            Some(expected_name) => match release.find_asset(&expected_name) {
                Some(asset) => Ok(asset.url.clone()),
                None => Err(InstallError::AssetNotFound { expected_name }),
            },
        }
    }

    /// Reads the response to the download request: with status 200 the body
    /// is the binary, as received; with any other there is none.
    pub fn get_bin(
        &self,
        status: u16,
        body: bytes::Bytes,
    ) -> (content: Result<bytes::Bytes, InstallError>)
        ensures
            match spec_check_status(status) {
                Ok(()) => content == Ok::<bytes::Bytes, InstallError>(body),
                Err(refusal) => content matches Err(error) && error@ == refusal,
            },
    {
        match check_status(status) {
            Err(error) => Err(error),
            Ok(()) => Ok(body),
        }
    }
}

} // verus!
