use lsm::error::InstallError;
use lsm::info::LSInfo;
use lsm::release::{GHAssetRes, GHReleaseRes, Res, ResAsset};

fn wire_asset(name: &str, url: &str) -> GHAssetRes {
    GHAssetRes { name: name.to_string(), browser_download_url: url.to_string() }
}

fn asset(name: &str, url: &str) -> ResAsset {
    ResAsset { name: name.to_string(), url: url.to_string() }
}

fn release(assets: Vec<ResAsset>) -> Res {
    Res { name: "v1.0.0".to_string(), assets }
}

#[test]
fn project_keeps_an_assets_name_and_address() {
    let projected = wire_asset("tool-linux", "https://example/linux").project();
    assert_eq!(projected, asset("tool-linux", "https://example/linux"));
}

#[test]
fn project_keeps_the_tag_and_the_order_of_the_assets() {
    let wire = GHReleaseRes {
        tag_name: "v2.0.1".to_string(),
        assets: vec![
            wire_asset("tool-mac", "https://example/mac"),
            wire_asset("tool-linux", "https://example/linux"),
            wire_asset("tool-windows.exe", "https://example/windows"),
        ],
    };
    let projected = wire.project();
    assert_eq!(projected.name, "v2.0.1");
    assert_eq!(
        projected.assets,
        vec![
            asset("tool-mac", "https://example/mac"),
            asset("tool-linux", "https://example/linux"),
            asset("tool-windows.exe", "https://example/windows"),
        ]
    );
}

#[test]
fn project_of_a_release_without_assets_has_none() {
    let wire = GHReleaseRes { tag_name: "v0.0.1".to_string(), assets: vec![] };
    assert_eq!(wire.project(), Res { name: "v0.0.1".to_string(), assets: vec![] });
}

#[test]
fn find_asset_returns_the_asset_of_that_name() {
    let release = release(vec![
        asset("tool-mac", "https://example/mac"),
        asset("tool-linux", "https://example/linux"),
    ]);
    let found = release.find_asset(&"tool-linux".to_string());
    assert_eq!(found, Some(&asset("tool-linux", "https://example/linux")));
}

#[test]
fn find_asset_takes_the_first_of_two_with_one_name() {
    let release = release(vec![
        asset("tool-mac", "https://example/mac"),
        asset("tool-linux", "https://example/first"),
        asset("tool-linux", "https://example/second"),
    ]);
    let found = release.find_asset(&"tool-linux".to_string());
    assert_eq!(found, Some(&asset("tool-linux", "https://example/first")));
}

#[test]
fn find_asset_matches_the_whole_name_with_case() {
    let release = release(vec![
        asset("Tool-Linux", "https://example/a"),
        asset("tool-linux-v2", "https://example/b"),
        asset("tool-linu", "https://example/c"),
        asset(" tool-linux", "https://example/d"),
    ]);
    assert_eq!(release.find_asset(&"tool-linux".to_string()), None);
}

#[test]
fn find_asset_finds_nothing_in_an_empty_list() {
    assert_eq!(release(vec![]).find_asset(&"tool-linux".to_string()), None);
}

#[test]
fn get_release_projects_a_decoded_body_that_came_with_200() {
    let info = LSInfo::awesome_lsp();
    let wire = GHReleaseRes {
        tag_name: "v1.2.3".to_string(),
        assets: vec![wire_asset("awesome-lsp-linux", "https://example/x")],
    };
    let release = info.get_release(200, Ok(wire));
    assert_eq!(
        release,
        Ok(Res {
            name: "v1.2.3".to_string(),
            assets: vec![asset("awesome-lsp-linux", "https://example/x")],
        })
    );
}

#[test]
fn get_release_refuses_every_status_but_200() {
    let info = LSInfo::awesome_lsp();
    for status in [0u16, 100, 199, 201, 204, 301, 404, 500, 65535] {
        let wire = GHReleaseRes { tag_name: "v1".to_string(), assets: vec![] };
        assert_eq!(info.get_release(status, Ok(wire)), Err(InstallError::HttpError { status }));
    }
}

#[test]
fn get_release_reports_a_body_that_was_not_decoded() {
    let info = LSInfo::awesome_lsp();
    let release = info.get_release(200, Err("expected value at line 1 column 1".to_string()));
    assert_eq!(
        release,
        Err(InstallError::DecodeError { reason: "expected value at line 1 column 1".to_string() })
    );
}

#[test]
fn get_release_judges_the_status_before_the_body() {
    let info = LSInfo::awesome_lsp();
    let release = info.get_release(404, Err("missing field `tag_name`".to_string()));
    assert_eq!(release, Err(InstallError::HttpError { status: 404 }));
}

#[test]
fn get_releases_projects_each_release_in_order() {
    let info = LSInfo::awesome_lsp();
    let wire = vec![
        GHReleaseRes {
            tag_name: "v2".to_string(),
            assets: vec![
                wire_asset("awesome-lsp-linux", "https://example/v2/linux"),
                wire_asset("awesome-lsp-mac", "https://example/v2/mac"),
            ],
        },
        GHReleaseRes { tag_name: "v1".to_string(), assets: vec![] },
    ];
    let releases = info.get_releases(200, Ok(wire));
    assert_eq!(
        releases,
        Ok(vec![
            Res {
                name: "v2".to_string(),
                assets: vec![
                    asset("awesome-lsp-linux", "https://example/v2/linux"),
                    asset("awesome-lsp-mac", "https://example/v2/mac"),
                ],
            },
            Res { name: "v1".to_string(), assets: vec![] },
        ])
    );
}

#[test]
fn get_releases_of_an_empty_list_is_empty() {
    let info = LSInfo::awesome_lsp();
    assert_eq!(info.get_releases(200, Ok(vec![])), Ok(vec![]));
}

#[test]
fn get_releases_refuses_a_status_other_than_200() {
    let info = LSInfo::awesome_lsp();
    assert_eq!(info.get_releases(403, Ok(vec![])), Err(InstallError::HttpError { status: 403 }));
}

#[test]
fn get_releases_reports_a_body_that_was_not_decoded() {
    let info = LSInfo::awesome_lsp();
    assert_eq!(
        info.get_releases(200, Err("invalid type: map, expected a sequence".to_string())),
        Err(InstallError::DecodeError {
            reason: "invalid type: map, expected a sequence".to_string()
        })
    );
}
