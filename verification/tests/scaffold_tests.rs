use sui_scaffold::manifest::{render_manifest, AddressBinding, DependencyEntry};
use sui_scaffold::names::is_valid_package_name;
use sui_scaffold::scaffold::{plan_scaffold, GenerationError, ScaffoldRequest};
use sui_scaffold::sui::{plan_sui_scaffold, sui_scaffold_request};

const SUI_SOURCE: &str = "{ git = \"https://github.com/MystenLabs/sui.git\", subdir = \"crates/sui-framework\", rev = \"main\" }";

fn coin_manifest() -> String {
    format!(
        "[package]\nname = \"coin\"\nversion = \"0.0.1\"\n\n[dependencies]\nSui = {}\n\n[addresses]\ncoin = \"0x0\"\n",
        SUI_SOURCE
    )
}

#[test]
fn sui_plan_coin_default() {
    let plan = plan_sui_scaffold("Coin", None, false).unwrap();
    assert_eq!(plan.root_dir, "coin");
    assert_eq!(plan.manifest_file_name, "Move.toml");
    assert_eq!(plan.sources_dir_name, "sources");
    assert_eq!(plan.manifest_contents, coin_manifest());
    assert!(plan.source_file.is_none());
}

#[test]
fn sui_plan_existing_target() {
    let r = plan_sui_scaffold("Coin", Some(String::from("/tmp/existing_nonempty")), true);
    assert_eq!(r.unwrap_err(), GenerationError::AlreadyExists);
}

#[test]
fn empty_name_rejected() {
    let r = plan_sui_scaffold("", None, false);
    assert_eq!(r.unwrap_err(), GenerationError::InvalidName);
}

#[test]
fn second_generation_rejected() {
    let first = plan_sui_scaffold("Coin", None, false);
    assert!(first.is_ok());
    let second = plan_sui_scaffold("Coin", None, true);
    assert_eq!(second.unwrap_err(), GenerationError::AlreadyExists);
}

#[test]
fn invalid_names_rejected() {
    for name in ["", "my pkg", "9coin", "coin-flip", "na\u{ef}ve", "coin!", " coin"] {
        assert!(!is_valid_package_name(name), "accepted: {name:?}");
        let r = plan_sui_scaffold(name, None, false);
        assert_eq!(r.unwrap_err(), GenerationError::InvalidName, "planned: {name:?}");
    }
}

#[test]
fn valid_names_accepted() {
    for name in ["Coin", "_tmp", "a1", "CamelCase9", "x", "under_score"] {
        assert!(is_valid_package_name(name), "rejected: {name:?}");
        assert!(plan_sui_scaffold(name, None, false).is_ok(), "refused: {name:?}");
    }
}

#[test]
fn sui_request_fields() {
    let req = sui_scaffold_request("Coin", None);
    assert!(req.target_path.is_none());
    assert_eq!(req.package_name, "Coin");
    assert_eq!(req.version, "0.0.1");
    assert_eq!(req.dependencies.len(), 1);
    assert_eq!(req.dependencies[0].name, "Sui");
    assert_eq!(req.dependencies[0].source, SUI_SOURCE);
    assert_eq!(req.address_bindings.len(), 1);
    assert_eq!(req.address_bindings[0].name, "coin");
    assert_eq!(req.address_bindings[0].value, "0x0");
    assert_eq!(req.seed_content, "");
}

#[test]
fn lowercasing_reaches_plan() {
    let plan = plan_sui_scaffold("MiXeD_99", None, false).unwrap();
    assert_eq!(plan.root_dir, "mixed_99");
    let req = sui_scaffold_request("COIN", None);
    assert_eq!(req.address_bindings[0].name, "coin");
}

#[test]
fn explicit_target_path_kept() {
    let plan = plan_sui_scaffold("Coin", Some(String::from("/tmp/fresh_dir")), false).unwrap();
    assert_eq!(plan.root_dir, "/tmp/fresh_dir");
    assert_eq!(plan.manifest_contents, coin_manifest());
}

#[test]
fn render_manifest_multiple_entries() {
    let deps = vec![
        DependencyEntry { name: String::from("Sui"), source: String::from("{ local = \"../sui\" }") },
        DependencyEntry { name: String::from("Std"), source: String::from("{ local = \"../std\" }") },
    ];
    let addrs = vec![
        AddressBinding { name: String::from("coin"), value: String::from("0x0") },
        AddressBinding { name: String::from("owner"), value: String::from("0xA1") },
    ];
    let text = render_manifest("coin", "1.2.3", &deps, &addrs);
    assert_eq!(
        text,
        "[package]\nname = \"coin\"\nversion = \"1.2.3\"\n\n[dependencies]\nSui = { local = \"../sui\" }\nStd = { local = \"../std\" }\n\n[addresses]\ncoin = \"0x0\"\nowner = \"0xA1\"\n"
    );
}

#[test]
fn render_manifest_no_entries() {
    let text = render_manifest("bare", "0.0.1", &Vec::new(), &Vec::new());
    assert_eq!(
        text,
        "[package]\nname = \"bare\"\nversion = \"0.0.1\"\n\n[dependencies]\n\n[addresses]\n"
    );
}

#[test]
fn seed_content_makes_source_file() {
    let req = ScaffoldRequest {
        target_path: None,
        package_name: String::from("Coin"),
        version: String::from("0.0.1"),
        dependencies: Vec::new(),
        address_bindings: Vec::new(),
        seed_content: String::from("module coin::coin {}\n"),
    };
    let plan = plan_scaffold(&req, false).unwrap();
    let file = plan.source_file.expect("seed content should yield a source file");
    assert_eq!(file.name, "coin.move");
    assert_eq!(file.contents, "module coin::coin {}\n");
}

#[test]
fn empty_seed_content_makes_no_source_file() {
    let req = ScaffoldRequest {
        target_path: None,
        package_name: String::from("Coin"),
        version: String::from("0.0.1"),
        dependencies: Vec::new(),
        address_bindings: Vec::new(),
        seed_content: String::new(),
    };
    let plan = plan_scaffold(&req, false).unwrap();
    assert!(plan.source_file.is_none());
}

#[test]
fn custom_version_reaches_manifest() {
    let req = ScaffoldRequest {
        target_path: None,
        package_name: String::from("pkg"),
        version: String::from("9.8.7"),
        dependencies: Vec::new(),
        address_bindings: Vec::new(),
        seed_content: String::new(),
    };
    let plan = plan_scaffold(&req, false).unwrap();
    assert!(plan.manifest_contents.contains("version = \"9.8.7\"\n"));
    assert!(plan.manifest_contents.starts_with("[package]\nname = \"pkg\"\n"));
}

#[test]
fn manifests_differ_for_different_names() {
    let coin = plan_sui_scaffold("coin", None, false).unwrap();
    let coins = plan_sui_scaffold("coins", None, false).unwrap();
    assert_ne!(coin.manifest_contents, coins.manifest_contents);
}

#[test]
fn manifests_agree_for_same_lowered_name() {
    let upper = plan_sui_scaffold("COIN", None, false).unwrap();
    let lower = plan_sui_scaffold("coin", None, false).unwrap();
    assert_eq!(upper.manifest_contents, lower.manifest_contents);
    assert_eq!(upper.root_dir, lower.root_dir);
}

#[test]
fn invalid_name_takes_precedence_over_existing_target() {
    let r = plan_sui_scaffold("", None, true);
    assert_eq!(r.unwrap_err(), GenerationError::InvalidName);
}
