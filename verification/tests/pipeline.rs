use bytes::Bytes;
use lsm::error::InstallError;
use lsm::http::Request;
use lsm::info::LSInfo;
use lsm::pipeline::Resolving;
use lsm::platform::Os;
use lsm::release::{GHAssetRes, GHReleaseRes};
use lsm::target::InstallTarget;

fn mocked_release() -> GHReleaseRes {
    GHReleaseRes {
        tag_name: "v1.2.3".to_string(),
        assets: vec![GHAssetRes {
            name: "awesome-lsp-linux".to_string(),
            browser_download_url: "https://example/x".to_string(),
        }],
    }
}

fn get(url: &str) -> Request {
    Request { url: url.to_string(), user_agent: "rust".to_string() }
}

#[test]
fn run_starts_by_asking_for_the_latest_release() {
    let stage = Resolving::new(LSInfo::awesome_lsp(), Os::Linux);
    assert_eq!(
        stage.request(),
        get("https://api.github.com/repos/h-michael/awesome-lsp/releases/latest")
    );
}

#[test]
fn end_to_end_on_linux_the_listed_asset_is_installed() {
    let stage = Resolving::new(LSInfo::awesome_lsp(), Os::Linux);
    let stage = stage.on_reply(200, Ok(mocked_release())).unwrap();
    assert_eq!(stage.request(), get("https://example/x"));

    let payload = Bytes::from_static(b"\x7fELF\x02\x01\x01\x00\x00\x00\x00\x00");
    let stage = stage.on_reply(200, payload.clone()).unwrap();
    assert_eq!(stage.content(), &payload);
    assert_eq!(&stage.content()[..4], b"\x7fELF");
    assert_eq!(
        stage.target(),
        &InstallTarget {
            directory: vec![".lsm".to_string(), "awesome-lsp".to_string()],
            file_name: "awesome-lsp".to_string(),
        }
    );
    assert_eq!(
        stage.target().file_path(),
        vec![".lsm".to_string(), "awesome-lsp".to_string(), "awesome-lsp".to_string()]
    );
    assert_eq!(stage.on_outcome(Ok(())), Ok(()));
}

#[test]
fn end_to_end_on_windows_the_missing_asset_ends_the_run() {
    let stage = Resolving::new(LSInfo::awesome_lsp(), Os::Windows);
    let next = stage.on_reply(200, Ok(mocked_release()));
    assert_eq!(
        next,
        Err(InstallError::AssetNotFound { expected_name: "awesome-lsp-windows.exe".to_string() })
    );
}

#[test]
fn end_to_end_a_404_from_the_release_api_ends_the_run() {
    let stage = Resolving::new(LSInfo::awesome_lsp(), Os::Linux);
    let next = stage.on_reply(404, Err("missing field `tag_name`".to_string()));
    assert_eq!(next, Err(InstallError::HttpError { status: 404 }));

    let stage = Resolving::new(LSInfo::awesome_lsp(), Os::Linux);
    let next = stage.on_reply(404, Ok(mocked_release()));
    assert_eq!(next, Err(InstallError::HttpError { status: 404 }));
}

#[test]
fn on_mac_the_run_looks_for_the_mac_asset() {
    let stage = Resolving::new(LSInfo::awesome_lsp(), Os::MacOs);
    let release = GHReleaseRes {
        tag_name: "v1.2.4".to_string(),
        assets: vec![
            GHAssetRes {
                name: "awesome-lsp-linux".to_string(),
                browser_download_url: "https://example/linux".to_string(),
            },
            GHAssetRes {
                name: "awesome-lsp-mac".to_string(),
                browser_download_url: "https://example/mac".to_string(),
            },
        ],
    };
    let stage = stage.on_reply(200, Ok(release)).unwrap();
    assert_eq!(stage.request(), get("https://example/mac"));
}

#[test]
fn an_unrecognised_system_ends_the_run_once_the_release_is_read() {
    let stage = Resolving::new(LSInfo::awesome_lsp(), Os::Other);
    assert_eq!(
        stage.request(),
        get("https://api.github.com/repos/h-michael/awesome-lsp/releases/latest")
    );
    assert_eq!(stage.on_reply(200, Ok(mocked_release())), Err(InstallError::UnsupportedPlatform));
}

#[test]
fn an_unrecognised_system_does_not_hide_a_refused_request() {
    let stage = Resolving::new(LSInfo::awesome_lsp(), Os::Other);
    assert_eq!(
        stage.on_reply(500, Ok(mocked_release())),
        Err(InstallError::HttpError { status: 500 })
    );
}

#[test]
fn a_release_without_assets_ends_the_run() {
    let stage = Resolving::new(LSInfo::awesome_lsp(), Os::Linux);
    let release = GHReleaseRes { tag_name: "v0.1.0".to_string(), assets: vec![] };
    assert_eq!(
        stage.on_reply(200, Ok(release)),
        Err(InstallError::AssetNotFound { expected_name: "awesome-lsp-linux".to_string() })
    );
}

#[test]
fn a_body_that_was_not_decoded_ends_the_run() {
    let stage = Resolving::new(LSInfo::awesome_lsp(), Os::Linux);
    assert_eq!(
        stage.on_reply(200, Err("EOF while parsing a value".to_string())),
        Err(InstallError::DecodeError { reason: "EOF while parsing a value".to_string() })
    );
}

#[test]
fn a_refused_download_ends_the_run() {
    let stage = Resolving::new(LSInfo::awesome_lsp(), Os::Linux);
    let stage = stage.on_reply(200, Ok(mocked_release())).unwrap();
    let next = stage.on_reply(503, Bytes::from_static(b"try again later"));
    assert_eq!(next, Err(InstallError::HttpError { status: 503 }));
}

#[test]
fn an_empty_download_is_still_installed_as_it_came() {
    let stage = Resolving::new(LSInfo::awesome_lsp(), Os::Linux);
    let stage = stage.on_reply(200, Ok(mocked_release())).unwrap();
    let stage = stage.on_reply(200, Bytes::new()).unwrap();
    assert!(stage.content().is_empty());
}

#[test]
fn a_failed_write_ends_the_run_with_its_reason() {
    let stage = Resolving::new(LSInfo::awesome_lsp(), Os::Linux);
    let stage = stage.on_reply(200, Ok(mocked_release())).unwrap();
    let stage = stage.on_reply(200, Bytes::from_static(b"\x7fELF")).unwrap();
    assert_eq!(
        stage.on_outcome(Err("Permission denied (os error 13)".to_string())),
        Err(InstallError::IoError { reason: "Permission denied (os error 13)".to_string() })
    );
}
