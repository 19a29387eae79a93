use release_notifier::download::{asset_dir, download_result, manifest, planned_paths};
use release_notifier::pipeline::{asset_outcome, exit_status, next_step, plan_delivery, DeliveryOutcome, Step};
use release_notifier::record::VersionRecord;
use release_notifier::release::{fetch_outcome, Asset, FetchError, Release};
use release_notifier::routing::{classify, classify_probe, Route, SIZE_THRESHOLD};
use release_notifier::text::{
    decimal_string, escape_markdown, latest_release_url, link_entry, link_message, send_document_url, send_message_url,
    size_in_hundredths_of_mib, upload_caption,
};

fn asset(name: &str, url: &str) -> Asset {
    Asset { name: name.to_string(), browser_download_url: url.to_string() }
}

fn release(tag: &str, assets: Vec<Asset>) -> Release {
    Release { tag_name: tag.to_string(), name: None, body: None, assets }
}

const CURL_A: &str = "curl -L --http1.1 -A \"Mozilla/5.0\" -o ";

#[test]
fn unrecorded_repository_has_changed() {
    let record = VersionRecord::new();
    assert!(record.has_changed("a/b", "v1"));
    assert!(record.has_changed("a/b", ""));
}

#[test]
fn recorded_tag_compares_exactly() {
    let mut record = VersionRecord::new();
    record.insert("a/b", "v1");
    assert!(!record.has_changed("a/b", "v1"));
    assert!(record.has_changed("a/b", "v1.0"));
    assert!(record.has_changed("a/b", "V1"));
    assert!(record.has_changed("c/d", "v1"));
}

#[test]
fn insert_overwrites_previous_tag() {
    let mut record = VersionRecord::new();
    record.insert("a/b", "v1");
    record.insert("c/d", "x");
    record.insert("a/b", "v2");
    assert_eq!(record.get("a/b"), Some("v2".to_string()));
    assert_eq!(record.get("c/d"), Some("x".to_string()));
    assert_eq!(record.get("e/f"), None);
    assert_eq!(record.to_pairs().len(), 2);
}

#[test]
fn saved_tag_loads_back() {
    let mut record = VersionRecord::new();
    record.insert("a/b", "v1");
    record.insert("c/d", "2024.05");
    let loaded = VersionRecord::from_pairs(record.to_pairs());
    assert_eq!(loaded.get("a/b"), Some("v1".to_string()));
    assert_eq!(loaded.get("c/d"), Some("2024.05".to_string()));
    assert!(!loaded.has_changed("a/b", "v1"));
}

#[test]
fn loading_duplicate_pairs_keeps_the_later() {
    let pairs = vec![
        ("a/b".to_string(), "v1".to_string()),
        ("a/b".to_string(), "v3".to_string()),
    ];
    let loaded = VersionRecord::from_pairs(pairs);
    assert_eq!(loaded.get("a/b"), Some("v3".to_string()));
    assert_eq!(loaded.to_pairs().len(), 1);
}

#[test]
fn empty_state_loads_empty() {
    let loaded = VersionRecord::from_pairs(Vec::new());
    assert_eq!(loaded.get("a/b"), None);
    assert!(loaded.to_pairs().is_empty());
}

#[test]
fn size_threshold_boundaries() {
    assert_eq!(SIZE_THRESHOLD, 52_428_800);
    assert_eq!(classify(52_428_800), Route::Upload);
    assert_eq!(classify(52_428_801), Route::Link);
    assert_eq!(classify(1), Route::Upload);
    assert_eq!(classify(0), Route::Link);
    assert_eq!(classify(u64::MAX), Route::Link);
}

#[test]
fn failed_probe_routes_to_link() {
    assert_eq!(classify_probe(None), Route::Link);
    assert_eq!(classify_probe(Some(0)), Route::Link);
    assert_eq!(classify_probe(Some(10)), Route::Upload);
}

#[test]
fn unchanged_release_is_skipped() {
    let mut record = VersionRecord::new();
    record.insert("a/b", "v1");
    let step = next_step(&record, "a/b", Ok(release("v1", vec![asset("x.apk", "https://h/x.apk")])));
    assert!(matches!(step, Step::Unchanged));
    assert_eq!(exit_status(0, false), 0);
}

#[test]
fn new_release_with_upload_and_link() {
    let mut record = VersionRecord::new();
    record.insert("a/b", "v1");
    let rel = release(
        "v2",
        vec![asset("small.apk", "https://h/small.apk"), asset("big.apk", "https://h/big.apk")],
    );
    let rel = match next_step(&record, "a/b", Ok(rel)) {
        Step::Deliver(r) => r,
        other => panic!("expected delivery, got {:?}", other),
    };
    let plan = plan_delivery("a/b", &rel, &vec![Some(10 * 1024 * 1024), Some(80 * 1024 * 1024)]);
    assert_eq!(plan.routes, vec![Route::Upload, Route::Link]);
    assert_eq!(plan.captions, vec![Some("small.apk (10.00 MB)".to_string()), None]);
    let msg = plan.message.expect("one aggregated message");
    assert!(msg.starts_with("\u{1f680} New Release from *a/b*: *v2*\n\n"));
    assert!(msg.contains("[big.apk](https://h/big.apk)"));
    assert!(msg.contains(&format!("{}big.apk https://h/big.apk", CURL_A)));
    assert!(!msg.contains("small.apk"));
    record.insert("a/b", &rel.tag_name);
    assert_eq!(record.get("a/b"), Some("v2".to_string()));
    let saved = record.to_pairs();
    assert_eq!(saved, vec![("a/b".to_string(), "v2".to_string())]);
}

#[test]
fn missing_size_header_is_linked() {
    let rel = release("v9", vec![asset("app.apk", "https://h/app.apk")]);
    let plan = plan_delivery("o/r", &rel, &vec![Some(0)]);
    assert_eq!(plan.routes, vec![Route::Link]);
    assert_eq!(plan.captions, vec![None]);
    let msg = plan.message.expect("the asset is listed");
    assert!(msg.contains("[app.apk](https://h/app.apk)"));
}

#[test]
fn all_uploaded_sends_no_text() {
    let rel = release("v1", vec![asset("a.bin", "u1"), asset("b.bin", "u2")]);
    let plan = plan_delivery("o/r", &rel, &vec![Some(5), Some(6)]);
    assert!(plan.message.is_none());
    let empty = release("v1", Vec::new());
    let plan = plan_delivery("o/r", &empty, &Vec::new());
    assert!(plan.message.is_none());
    assert!(plan.routes.is_empty());
}

#[test]
fn fetch_errors_are_reported() {
    let record = VersionRecord::new();
    let step = next_step(&record, "a/b", Err(FetchError::NotFound));
    assert!(matches!(step, Step::Report(FetchError::NotFound)));
    assert_eq!(exit_status(1, false), 1);
    assert_eq!(exit_status(0, true), 1);
}

#[test]
fn fetch_outcome_variants() {
    let rel = release("v1", Vec::new());
    assert!(matches!(fetch_outcome(false, 200, Some(rel.clone())), Err(FetchError::Transport)));
    assert!(matches!(fetch_outcome(true, 404, Some(rel.clone())), Err(FetchError::NotFound)));
    assert!(matches!(fetch_outcome(true, 200, None), Err(FetchError::Decode)));
    match fetch_outcome(true, 200, Some(rel)) {
        Ok(r) => assert_eq!(r.tag_name, "v1"),
        Err(e) => panic!("unexpected {:?}", e),
    }
}

#[test]
fn two_of_five_downloads_fail() {
    let assets = vec![
        asset("a1", "u1"),
        asset("a2", "u2"),
        asset("a3", "u3"),
        asset("a4", "u4"),
        asset("a5", "u5"),
    ];
    let ok = vec![true, false, true, false, true];
    match download_result("o/r", &assets, &ok) {
        Ok(p) => panic!("truncated success {:?}", p),
        Err(e) => {
            assert_eq!(e.failed, vec!["a2".to_string(), "a4".to_string()]);
            assert_eq!(
                e.succeeded,
                vec![
                    "assets/o_r/a1".to_string(),
                    "assets/o_r/a3".to_string(),
                    "assets/o_r/a5".to_string()
                ]
            );
        }
    }
}

#[test]
fn all_downloads_succeed() {
    let assets = vec![asset("x.zip", "u1"), asset("y.zip", "u2")];
    let paths = download_result("me/tool", &assets, &vec![true, true]).expect("all written");
    assert_eq!(paths, vec!["assets/me_tool/x.zip".to_string(), "assets/me_tool/y.zip".to_string()]);
    assert_eq!(manifest(&paths), "assets/me_tool/x.zip\nassets/me_tool/y.zip\n");
    assert_eq!(manifest(&Vec::new()), "");
}

#[test]
fn asset_directory_flattens_slashes() {
    assert_eq!(asset_dir("a/b"), "assets/a_b");
    assert_eq!(asset_dir("a/b/c"), "assets/a_b_c");
    assert_eq!(asset_dir(""), "assets/");
    assert_eq!(planned_paths("a/b", &vec![asset("f", "u")]), vec!["assets/a_b/f".to_string()]);
}

#[test]
fn endpoint_urls() {
    assert_eq!(latest_release_url("a/b"), "https://api.github.com/repos/a/b/releases/latest");
    assert_eq!(send_message_url("T0K"), "https://api.telegram.org/botT0K/sendMessage");
    assert_eq!(send_document_url("T0K"), "https://api.telegram.org/botT0K/sendDocument");
}

#[test]
fn caption_sizes() {
    assert_eq!(upload_caption("x.apk", 10 * 1024 * 1024), "x.apk (10.00 MB)");
    assert_eq!(upload_caption("y", 10_000_000), "y (9.54 MB)");
    assert_eq!(upload_caption("z", 52_428_800), "z (50.00 MB)");
    assert_eq!(upload_caption("t", 131_072), "t (0.12 MB)");
    assert_eq!(upload_caption("u", 393_216), "u (0.38 MB)");
    assert_eq!(upload_caption("v", 1), "v (0.00 MB)");
    assert_eq!(size_in_hundredths_of_mib(1_048_576), 100);
    assert_eq!(size_in_hundredths_of_mib(u64::MAX), 1_759_218_604_441_600);
}

#[test]
fn decimal_rendering() {
    assert_eq!(decimal_string(0), "0");
    assert_eq!(decimal_string(7), "7");
    assert_eq!(decimal_string(1050), "1050");
    assert_eq!(decimal_string(u64::MAX), "18446744073709551615");
}

#[test]
fn link_entry_layout() {
    assert_eq!(
        link_entry("n.apk", "https://h/n.apk"),
        format!(
            "\u{1f517} [n.apk](https://h/n.apk)\n\n\u{1f9f2} curl command:\n```\n{}n.apk https://h/n.apk\n```\n",
            CURL_A
        )
    );
}

#[test]
fn link_message_keeps_release_order() {
    let assets = vec![asset("a", "ua"), asset("b", "ub"), asset("c", "uc")];
    let routes = vec![Route::Link, Route::Upload, Route::Link];
    let msg = link_message("o/r", "t", &assets, &routes).expect("two linked");
    let expected = format!(
        "\u{1f680} New Release from *o/r*: *t*\n\n{}{}",
        link_entry("a", "ua"),
        link_entry("c", "uc")
    );
    assert_eq!(msg, expected);
}

#[test]
fn asset_outcomes() {
    assert!(matches!(asset_outcome(Route::Upload, None, None), DeliveryOutcome::Uploaded));
    assert!(matches!(
        asset_outcome(Route::Upload, None, Some("503".to_string())),
        DeliveryOutcome::DownloadFailed(ref e) if e == "503"
    ));
    assert!(matches!(asset_outcome(Route::Link, None, None), DeliveryOutcome::Linked));
    assert!(matches!(
        asset_outcome(Route::Link, Some("reset".to_string()), None),
        DeliveryOutcome::ProbeFailed(ref e) if e == "reset"
    ));
}

#[test]
fn markup_is_escaped() {
    assert_eq!(escape_markdown("my_app*v[1]`x"), "my\\_app\\*v\\[1]\\`x");
    assert_eq!(escape_markdown("plain-name.apk"), "plain-name.apk");
    assert_eq!(escape_markdown(""), "");
}

#[test]
fn linked_name_escaped_outside_code_block() {
    let entry = link_entry("a_b.apk", "https://h/a_b.apk");
    assert!(entry.starts_with("\u{1f517} [a\\_b.apk](https://h/a_b.apk)\n"));
    assert!(entry.contains(&format!("{}a_b.apk https://h/a_b.apk\n", CURL_A)));
    let assets = vec![asset("a_b.apk", "https://h/a_b.apk")];
    let msg = link_message("x_y/z", "v_1", &assets, &vec![Route::Link]).expect("linked");
    assert!(msg.starts_with("\u{1f680} New Release from *x\\_y/z*: *v\\_1*\n\n"));
}
