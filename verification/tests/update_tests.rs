use updater::decision::decide;
use updater::engine::{Action, Engine, Event};
use updater::model::find_asset_index;
use updater::planner::{plan_update, PatchPlan};
use updater::{Asset, Release};

fn asset(id: u64, name: &str, digest: Option<&str>) -> Asset {
    Asset {
        id,
        name: name.to_string(),
        download_url: format!("https://releases.example/{}", name),
        size: 64,
        digest: digest.map(|d| d.to_string()),
    }
}

fn release(id: u64, tag: &str, assets: Vec<Asset>) -> Release {
    Release {
        id,
        body: format!("notes for {}", tag),
        tag: tag.to_string(),
        assets,
    }
}

/// Catalog `[R2(patch P2), R1(patch P1), R0]`, newest first.
fn three_release_catalog() -> Vec<Release> {
    vec![
        release(
            2,
            "0.3.0",
            vec![
                asset(20, "game.exe", Some("sha256:d2")),
                asset(21, "p2.patch", None),
            ],
        ),
        release(
            1,
            "0.2.0",
            vec![
                asset(10, "game.exe", Some("sha256:d1")),
                asset(11, "p1.patch", None),
            ],
        ),
        release(0, "0.1.0", vec![asset(0, "game.exe", Some("sha256:d0"))]),
    ]
}

#[test]
fn plan_from_oldest_release_lists_patches_oldest_first() {
    let releases = three_release_catalog();
    let plan = plan_update(&releases, &Some("sha256:d0".to_string()));
    match plan {
        PatchPlan::Patches(steps) => {
            assert_eq!(steps.len(), 2);
            assert_eq!(steps[0].name, "p1.patch");
            assert_eq!(steps[0].id, 11);
            assert_eq!(steps[1].name, "p2.patch");
            assert_eq!(steps[1].id, 21);
        }
        PatchPlan::Reinstall => panic!("expected a patch chain"),
    }
}

#[test]
fn plan_for_latest_release_is_empty() {
    let releases = three_release_catalog();
    let plan = plan_update(&releases, &Some("sha256:d2".to_string()));
    match plan {
        PatchPlan::Patches(steps) => assert_eq!(steps.len(), 0),
        PatchPlan::Reinstall => panic!("expected an empty chain"),
    }
}

#[test]
fn plan_from_middle_release_lists_only_newer_patches() {
    let releases = three_release_catalog();
    let plan = plan_update(&releases, &Some("sha256:d1".to_string()));
    match plan {
        PatchPlan::Patches(steps) => {
            assert_eq!(steps.len(), 1);
            assert_eq!(steps[0].name, "p2.patch");
            assert_eq!(steps[0].id, 21);
        }
        PatchPlan::Reinstall => panic!("expected a one-step chain"),
    }
}

#[test]
fn newest_matching_release_wins() {
    // Two releases carry the installed digest; the plan starts from the
    // newest of them.
    let releases = vec![
        release(
            2,
            "0.3.0",
            vec![
                asset(20, "game.exe", Some("sha256:d2")),
                asset(21, "p2.patch", None),
            ],
        ),
        release(
            1,
            "0.2.0",
            vec![
                asset(10, "game.exe", Some("sha256:same")),
                asset(11, "p1.patch", None),
            ],
        ),
        release(0, "0.1.0", vec![asset(0, "game.exe", Some("sha256:same"))]),
    ];
    let plan = plan_update(&releases, &Some("sha256:same".to_string()));
    match plan {
        PatchPlan::Patches(steps) => {
            assert_eq!(steps.len(), 1);
            assert_eq!(steps[0].name, "p2.patch");
        }
        PatchPlan::Reinstall => panic!("expected a one-step chain"),
    }
}

#[test]
fn unknown_identity_plans_reinstall() {
    let releases = three_release_catalog();
    let plan = plan_update(&releases, &Some("sha256:elsewhere".to_string()));
    assert!(matches!(plan, PatchPlan::Reinstall));
}

#[test]
fn missing_patch_asset_plans_reinstall() {
    // Installed matches R1, but R2 offers no patch asset.
    let releases = vec![
        release(2, "0.3.0", vec![asset(20, "game.exe", Some("sha256:d2"))]),
        release(
            1,
            "0.2.0",
            vec![
                asset(10, "game.exe", Some("sha256:d1")),
                asset(11, "p1.patch", None),
            ],
        ),
    ];
    let plan = plan_update(&releases, &Some("sha256:d1".to_string()));
    assert!(matches!(plan, PatchPlan::Reinstall));
}

#[test]
fn absent_identity_plans_reinstall() {
    // An absent installed identity — a first install or an unreadable
    // file — matches no release, even one whose full artifact also lacks
    // a digest; the only safe plan is a reinstall.
    let releases = vec![release(0, "0.1.0", vec![asset(0, "game.exe", None)])];
    assert!(matches!(plan_update(&releases, &None), PatchPlan::Reinstall));
    let digested = three_release_catalog();
    assert!(matches!(plan_update(&digested, &None), PatchPlan::Reinstall));
}

#[test]
fn game_up_to_date_iff_digests_present_and_equal() {
    let releases = three_release_catalog();
    assert!(decide(&releases, false, &Some("sha256:d2".to_string())));
    assert!(!decide(&releases, false, &Some("sha256:d0".to_string())));
    // Absent installed identity: never up to date.
    assert!(!decide(&releases, false, &None));
    // Absent asset digest: never up to date, even against an absent identity.
    let undigested = vec![release(0, "0.1.0", vec![asset(0, "game.exe", None)])];
    assert!(!decide(&undigested, false, &None));
    assert!(!decide(&undigested, false, &Some("sha256:d0".to_string())));
}

#[test]
fn empty_catalog_counts_as_up_to_date() {
    let releases: Vec<Release> = Vec::new();
    assert!(decide(&releases, true, &Some("1.2.0".to_string())));
    assert!(decide(&releases, false, &Some("sha256:d0".to_string())));
}

#[test]
fn launcher_up_to_date_by_exact_tag() {
    let releases = vec![release(7, "1.2.0", vec![asset(70, "launcher.exe", None)])];
    assert!(decide(&releases, true, &Some("1.2.0".to_string())));
    assert!(!decide(&releases, true, &Some("1.1.9".to_string())));
}

#[test]
fn matching_tag_skips_self_update() {
    let (engine, first) = Engine::start(true, true, "1.2.0".to_string());
    assert!(matches!(first, Action::FetchSelfCatalog));
    let releases = vec![release(7, "1.2.0", vec![asset(70, "launcher.exe", None)])];
    let (_, act) = engine.step(Event::SelfCatalog {
        releases: Some(releases),
    });
    assert!(matches!(act, Some(Action::FetchGameCatalog)));
}

#[test]
fn newer_tag_triggers_self_update_and_restart() {
    let (engine, _) = Engine::start(true, true, "1.2.0".to_string());
    let releases = vec![release(
        8,
        "1.3.0",
        vec![asset(80, "launcher.exe", Some("sha256:l3"))],
    )];
    let (engine, act) = engine.step(Event::SelfCatalog {
        releases: Some(releases),
    });
    match act {
        Some(Action::ReplaceSelf { asset }) => assert_eq!(asset.id, 80),
        other => panic!("expected a self-replacement, got {:?}", action_name(&other)),
    }
    let (_, act) = engine.step(Event::SelfReplaceFinished { ok: true });
    assert!(matches!(act, Some(Action::RestartSkippingSelfUpdate)));
}

#[test]
fn failed_self_update_continues_with_old_launcher() {
    let (engine, _) = Engine::start(true, true, "1.2.0".to_string());
    let releases = vec![release(
        8,
        "1.3.0",
        vec![asset(80, "launcher.exe", Some("sha256:l3"))],
    )];
    let (engine, _) = engine.step(Event::SelfCatalog {
        releases: Some(releases),
    });
    let (_, act) = engine.step(Event::SelfReplaceFinished { ok: false });
    assert!(matches!(act, Some(Action::FetchGameCatalog)));
}

#[test]
fn catalog_failure_still_launches() {
    // A failed launcher catalog fetch moves on; a failed game catalog
    // fetch launches the installed executable at once.
    let (engine, _) = Engine::start(true, true, "1.2.0".to_string());
    let (engine, act) = engine.step(Event::SelfCatalog { releases: None });
    assert!(matches!(act, Some(Action::FetchGameCatalog)));
    let (_, act) = engine.step(Event::GameCatalog {
        releases: None,
        installed: Some("sha256:d0".to_string()),
    });
    assert!(matches!(act, Some(Action::Launch)));
}

#[test]
fn patch_chain_runs_in_order_then_launches() {
    let (engine, first) = Engine::start(false, true, "1.2.0".to_string());
    assert!(matches!(first, Action::FetchGameCatalog));
    let (engine, act) = engine.step(Event::GameCatalog {
        releases: Some(three_release_catalog()),
        installed: Some("sha256:d0".to_string()),
    });
    match &act {
        Some(Action::ApplyPatchStep {
            asset,
            index,
            total,
        }) => {
            assert_eq!(asset.name, "p1.patch");
            assert_eq!(*index, 1);
            assert_eq!(*total, 2);
        }
        other => panic!("expected the first patch step, got {:?}", action_name(other)),
    }
    let (engine, act) = engine.step(Event::PatchStepFinished { ok: true });
    match &act {
        Some(Action::ApplyPatchStep {
            asset,
            index,
            total,
        }) => {
            assert_eq!(asset.name, "p2.patch");
            assert_eq!(*index, 2);
            assert_eq!(*total, 2);
        }
        other => panic!("expected the second patch step, got {:?}", action_name(other)),
    }
    // After the last successful step the engine launches at once: the
    // resulting file's digest is deliberately not re-verified against the
    // release's expected digest, so a structurally valid but wrong result
    // would only surface on the next run's identity check.
    let (_, act) = engine.step(Event::PatchStepFinished { ok: true });
    assert!(matches!(act, Some(Action::Launch)));
}

#[test]
fn failed_patch_step_falls_back_to_reinstall() {
    let (engine, _) = Engine::start(false, true, "1.2.0".to_string());
    let (engine, _) = engine.step(Event::GameCatalog {
        releases: Some(three_release_catalog()),
        installed: Some("sha256:d0".to_string()),
    });
    // The first step's decompression failed: remaining steps are dropped
    // and the newest full artifact is downloaded instead.
    let (engine, act) = engine.step(Event::PatchStepFinished { ok: false });
    match act {
        Some(Action::Reinstall { asset }) => {
            assert_eq!(asset.id, 20);
            assert_eq!(asset.name, "game.exe");
        }
        other => panic!("expected a reinstall, got {:?}", action_name(&other)),
    }
    let (_, act) = engine.step(Event::ReinstallFinished { ok: true });
    assert!(matches!(act, Some(Action::Launch)));
}

#[test]
fn missing_patch_asset_reinstalls_latest_full_artifact() {
    // Installed matches R1, R2 lacks a patch asset: the engine goes
    // straight to downloading R2's full artifact.
    let releases = vec![
        release(2, "0.3.0", vec![asset(20, "game.exe", Some("sha256:d2"))]),
        release(
            1,
            "0.2.0",
            vec![
                asset(10, "game.exe", Some("sha256:d1")),
                asset(11, "p1.patch", None),
            ],
        ),
    ];
    let (engine, _) = Engine::start(false, true, "1.2.0".to_string());
    let (_, act) = engine.step(Event::GameCatalog {
        releases: Some(releases),
        installed: Some("sha256:d1".to_string()),
    });
    match act {
        Some(Action::Reinstall { asset }) => assert_eq!(asset.id, 20),
        other => panic!("expected a reinstall, got {:?}", action_name(&other)),
    }
}

#[test]
fn finds_first_asset_with_suffix() {
    let assets = vec![
        asset(1, "readme.txt", None),
        asset(2, "game.exe", None),
        asset(3, "other.exe", None),
    ];
    assert_eq!(find_asset_index(&assets, ".exe"), Some(1));
    assert_eq!(find_asset_index(&assets, ".patch"), None);
    assert_eq!(find_asset_index(&assets, ".txt"), Some(0));
}

#[test]
fn first_install_reinstalls_latest_full_artifact() {
    // No installed file at all: the engine downloads the newest release's
    // full artifact directly.
    let (engine, _) = Engine::start(false, true, "1.2.0".to_string());
    let (_, act) = engine.step(Event::GameCatalog {
        releases: Some(three_release_catalog()),
        installed: None,
    });
    match act {
        Some(Action::Reinstall { asset }) => assert_eq!(asset.id, 20),
        other => panic!("expected a reinstall, got {:?}", action_name(&other)),
    }
}

fn action_name(act: &Option<Action>) -> &'static str {
    match act {
        None => "none",
        Some(Action::FetchSelfCatalog) => "fetch self catalog",
        Some(Action::ReplaceSelf { .. }) => "replace self",
        Some(Action::RestartSkippingSelfUpdate) => "restart",
        Some(Action::FetchGameCatalog) => "fetch game catalog",
        Some(Action::ApplyPatchStep { .. }) => "apply patch step",
        Some(Action::Reinstall { .. }) => "reinstall",
        Some(Action::Launch) => "launch",
    }
}
