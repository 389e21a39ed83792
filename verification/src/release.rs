//! Releases as the API reports them, and the part of each that an
//! installation needs.

use crate::error::InstallErrorView;
use crate::http::spec_check_status;
use vstd::prelude::*;

verus! {

/// One asset as the release API describes it. Of the many fields the API
/// sends, only these two are read.
#[derive(Debug, PartialEq, Eq)]
pub struct GHAssetRes {
    pub name: String,
    pub browser_download_url: String,
}

/// One release as the release API describes it.
#[derive(Debug, PartialEq, Eq)]
pub struct GHReleaseRes {
    pub tag_name: String,
    pub assets: Vec<GHAssetRes>,
}

/// A downloadable file of a release.
#[derive(Debug, PartialEq, Eq)]
pub struct ResAsset {
    pub name: String,
    pub url: String,
}

/// A release: its tag and its assets, in the order the API listed them.
#[derive(Debug, PartialEq, Eq)]
pub struct Res {
    pub name: String,
    pub assets: Vec<ResAsset>,
}

/// What the contracts see of a `GHAssetRes`.
pub struct GHAssetResView {
    pub name: Seq<char>,
    pub browser_download_url: Seq<char>,
}

/// What the contracts see of a `GHReleaseRes`.
pub struct GHReleaseResView {
    pub tag_name: Seq<char>,
    pub assets: Seq<GHAssetResView>,
}

/// What the contracts see of a `ResAsset`.
pub struct ResAssetView {
    pub name: Seq<char>,
    pub url: Seq<char>,
}

/// What the contracts see of a `Res`.
pub struct ResView {
    pub name: Seq<char>,
    pub assets: Seq<ResAssetView>,
}

impl View for GHAssetRes {
    type V = GHAssetResView;

    open spec fn view(&self) -> GHAssetResView {
        GHAssetResView { name: self.name@, browser_download_url: self.browser_download_url@ }
    }
}

impl View for GHReleaseRes {
    type V = GHReleaseResView;

    open spec fn view(&self) -> GHReleaseResView {
        GHReleaseResView {
            tag_name: self.tag_name@,
            assets: self.assets@.map_values(|asset: GHAssetRes| asset@),
        }
    }
}

impl View for ResAsset {
    type V = ResAssetView;

    open spec fn view(&self) -> ResAssetView {
        ResAssetView { name: self.name@, url: self.url@ }
    }
}

impl View for Res {
    type V = ResView;

    open spec fn view(&self) -> ResView {
        ResView { name: self.name@, assets: self.assets@.map_values(|asset: ResAsset| asset@) }
    }
}

impl GHAssetResView {
    /// The asset with its name and its download address, nothing else.
    pub open spec fn project(self) -> ResAssetView {
        ResAssetView { name: self.name, url: self.browser_download_url }
    }
}

impl GHReleaseResView {
    /// The release under its tag, with every asset projected, in order.
    pub open spec fn project(self) -> ResView {
        ResView {
            name: self.tag_name,
            assets: self.assets.map_values(|asset: GHAssetResView| asset.project()),
        }
    }
}

impl GHAssetRes {
    /// Keeps of the asset what an installation needs.
    pub fn project(&self) -> (asset: ResAsset)
        ensures
            asset@ == self@.project(),
    {
        ResAsset { name: self.name.clone(), url: self.browser_download_url.clone() }
    }
}

impl GHReleaseRes {
    /// Keeps of the release what an installation needs.
    pub fn project(&self) -> (release: Res)
        ensures
            release@ == self@.project(),
    {
        let mut assets: Vec<ResAsset> = Vec::new();
        let mut i: usize = 0;
        while i < self.assets.len()
            invariant
                i <= self.assets.len(),
                assets@.len() == i,
                forall|k: int|
                    0 <= k < i ==> (#[trigger] assets@[k])@ == self.assets@[k]@.project(),
            decreases self.assets.len() - i,
        {
            assets.push(self.assets[i].project());
            i += 1;
        }
        let release = Res { name: self.tag_name.clone(), assets };
        assert(release@.assets =~= self@.project().assets);
        release
    }
}

/// The release that a response to a request for one release stands for.
/// The status is judged first; only a body that came with status 200 and
/// was decoded yields a release.
pub open spec fn release_of_reply(
    status: u16,
    body: Result<GHReleaseResView, Seq<char>>,
) -> Result<ResView, InstallErrorView> {
    match spec_check_status(status) {
        Err(error) => Err(error),
        Ok(()) => match body {
            Ok(wire) => Ok(wire.project()),
            Err(reason) => Err(InstallErrorView::DecodeError { reason }),
        },
    }
}

/// The releases that a response to a request for the release list stands
/// for: each one projected as a single release is, in the order received.
pub open spec fn releases_of_reply(
    status: u16,
    body: Result<Seq<GHReleaseResView>, Seq<char>>,
) -> Result<Seq<ResView>, InstallErrorView> {
    match spec_check_status(status) {
        Err(error) => Err(error),
        Ok(()) => match body {
            Ok(wire) => Ok(wire.map_values(|release: GHReleaseResView| release.project())),
            Err(reason) => Err(InstallErrorView::DecodeError { reason }),
        },
    }
}

impl ResView {
    /// Whether `i` is the place of the first asset called `name`.
    pub open spec fn first_named_at(self, name: Seq<char>, i: int) -> bool {
        &&& 0 <= i < self.assets.len()
        &&& self.assets[i].name == name
        &&& forall|j: int| 0 <= j < i ==> (#[trigger] self.assets[j]).name != name
    }

    /// Whether some asset is called `name`.
    pub open spec fn has_asset(self, name: Seq<char>) -> bool {
        exists|i: int| 0 <= i < self.assets.len() && (#[trigger] self.assets[i]).name == name
    }

    /// The first asset called `name`, exactly and with case; `None` where
    /// no asset has that name.
    pub open spec fn find_asset(self, name: Seq<char>) -> Option<ResAssetView> {
        if exists|i: int| self.first_named_at(name, i) {
            Some(self.assets[choose|i: int| self.first_named_at(name, i)])
        } else {
            None
        }
    }

    /// An asset's name has only one first place.
    pub proof fn lemma_first_named_unique(self, name: Seq<char>, i: int, j: int)
        requires
            self.first_named_at(name, i),
            self.first_named_at(name, j),
        ensures
            i == j,
    {
        if i < j {
            assert(self.assets[i].name != name);
        } else if j < i {
            assert(self.assets[j].name != name);
        }
    }

    /// The asset found under a name is the one at that name's first place.
    pub proof fn lemma_find_asset_first(self, name: Seq<char>, i: int)
        requires
            self.first_named_at(name, i),
        ensures
            self.find_asset(name) == Some(self.assets[i]),
    {
        let chosen = choose|k: int| self.first_named_at(name, k);
        self.lemma_first_named_unique(name, i, chosen);
    }

    /// A name that some asset bears has a first place, at or before that
    /// asset.
    pub proof fn lemma_first_named_exists(self, name: Seq<char>, k: int) -> (i: int)
        requires
            0 <= k < self.assets.len(),
            self.assets[k].name == name,
        ensures
            0 <= i <= k,
            self.first_named_at(name, i),
        decreases k,
    {
        if forall|j: int| 0 <= j < k ==> (#[trigger] self.assets[j]).name != name {
            k
        } else {
            let j = choose|j: int| 0 <= j < k && (#[trigger] self.assets[j]).name == name;
            self.lemma_first_named_exists(name, j)
        }
    }

    /// An asset is found under a name exactly when some asset bears it.
    pub proof fn lemma_find_asset_iff_has(self, name: Seq<char>)
        ensures
            self.find_asset(name).is_some() <==> self.has_asset(name),
            self.find_asset(name) matches Some(asset) ==> asset.name == name,
    {
        if self.has_asset(name) {
            let k = choose|k: int|
                0 <= k < self.assets.len() && (#[trigger] self.assets[k]).name == name;
            let i = self.lemma_first_named_exists(name, k);
            self.lemma_find_asset_first(name, i);
        }
        if self.find_asset(name).is_some() {
            let i = choose|i: int| self.first_named_at(name, i);
            assert(self.assets[i].name == name);
        }
    }
}

impl Res {
    /// Scans the assets in order for the first one called `name`.
    pub fn find_asset(&self, name: &String) -> (found: Option<&ResAsset>)
        ensures
            found.is_some() == self@.find_asset(name@).is_some(),
            found matches Some(asset) ==> Some(asset@) == self@.find_asset(name@),
    {
        let mut i: usize = 0;
        while i < self.assets.len()
            invariant
                i <= self.assets.len(),
                forall|j: int| 0 <= j < i ==> (#[trigger] self@.assets[j]).name != name@,
            decreases self.assets.len() - i,
        {
            if self.assets[i].name == *name {
                proof {
                    assert(self@.assets[i as int] == self.assets@[i as int]@);
                    self@.lemma_find_asset_first(name@, i as int);
                }
                return Some(&self.assets[i]);
            }
            assert(self@.assets[i as int] == self.assets@[i as int]@);
            i += 1;
        }
        proof {
            self@.lemma_find_asset_iff_has(name@);
        }
        None
    }
}

} // verus!
