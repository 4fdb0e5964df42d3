use adelie::error::AdelieError;
use adelie::helm::HelmIndex;
use adelie::helm::HelmIndexVersion;
use adelie::inventory::Inventory;
use adelie::inventory::PackageReference;
use adelie::pipeline::candidate_for;
use adelie::pipeline::reconcile;
use adelie::pipeline::resolve;
use adelie::pipeline::Completion;

const REDIS: &str = "[redis]\nhelm = \"https://charts.example.com\"\nversion = \"17.0.0\"\n";

const THREE: &str = r#"[redis]
helm = "https://charts.example.com"
version = "17.0.0"

[cache]
chart = "memcached"
helm = "https://charts.example.com"
version = "6.0.0"

[nginx]
helm = "https://charts.example.org"
version = "1.0.0"
"#;

fn index_of(entries: &[(&str, &[&str])]) -> HelmIndex {
    let mut index = HelmIndex::new("v1".to_string());
    for (name, versions) in entries {
        let records = versions
            .iter()
            .map(|version| HelmIndexVersion { version: version.to_string(), app_version: None })
            .collect();
        index.insert(name.to_string(), records);
    }
    index
}

fn completion(reference: &PackageReference, fetched: Result<HelmIndex, AdelieError>) -> Completion {
    Completion { reference: reference.clone(), fetched }
}

#[test]
fn resolve_skips_prereleases_and_strips_the_v() {
    let inventory = Inventory::parse(REDIS).unwrap();
    let references = inventory.references();
    let fetched = Ok(index_of(&[("redis", &["17.1.0-rc1", "v17.0.5"])]));
    assert_eq!(resolve(&references[0], &fetched), Ok("17.0.5".to_string()));
}

#[test]
fn resolve_reports_prereleases_only_as_not_found() {
    let inventory = Inventory::parse(REDIS).unwrap();
    let references = inventory.references();
    let fetched = Ok(index_of(&[("redis", &["18.0.0-rc1", "18.0.0-rc2", "v18.0.0-beta"])]));
    assert_eq!(resolve(&references[0], &fetched), Err(AdelieError::NotFound));
}

#[test]
fn resolve_reports_a_missing_entry_as_not_found() {
    let inventory = Inventory::parse(REDIS).unwrap();
    let references = inventory.references();
    let fetched = Ok(index_of(&[("nginx", &["1.0.0"])]));
    assert_eq!(resolve(&references[0], &fetched), Err(AdelieError::NotFound));
}

#[test]
fn resolve_never_orders_by_number() {
    let inventory = Inventory::parse(REDIS).unwrap();
    let references = inventory.references();
    let fetched = Ok(index_of(&[("redis", &["99.0.0-rc1", "1.0.0", "50.0.0"])]));
    assert_eq!(resolve(&references[0], &fetched), Ok("1.0.0".to_string()));
}

#[test]
fn resolve_hands_on_a_failed_retrieval() {
    let inventory = Inventory::parse(REDIS).unwrap();
    let references = inventory.references();
    assert_eq!(resolve(&references[0], &Err(AdelieError::Fetch)), Err(AdelieError::Fetch));
    assert_eq!(resolve(&references[0], &Err(AdelieError::Decode)), Err(AdelieError::Decode));
}

#[test]
fn resolve_looks_the_chart_up_by_its_own_name() {
    let inventory = Inventory::parse(THREE).unwrap();
    let references = inventory.references();
    let fetched = Ok(index_of(&[("cache", &["9.9.9"]), ("memcached", &["6.1.0"])]));
    assert_eq!(resolve(&references[1], &fetched), Ok("6.1.0".to_string()));
}

#[test]
fn newer_stable_version_gives_a_candidate() {
    let inventory = Inventory::parse(REDIS).unwrap();
    let references = inventory.references();
    let completions =
        vec![completion(&references[0], Ok(index_of(&[("redis", &["17.1.0-rc1", "v17.0.5"])])))];
    let candidates = reconcile(&inventory, &completions);
    assert_eq!(candidates.len(), 1);
    assert_eq!(candidates[0].package_name, "redis");
    assert_eq!(candidates[0].old_version, "17.0.0");
    assert_eq!(candidates[0].new_version, "17.0.5");
    assert_eq!(
        candidates[0].patched_document,
        "[redis]\nhelm = \"https://charts.example.com\"\nversion = \"17.0.5\"\n"
    );
}

#[test]
fn equal_version_gives_no_candidate() {
    let inventory = Inventory::parse(REDIS).unwrap();
    let references = inventory.references();
    let completions = vec![completion(&references[0], Ok(index_of(&[("redis", &["17.0.0"])])))];
    assert!(reconcile(&inventory, &completions).is_empty());
}

#[test]
fn equal_version_behind_a_v_gives_no_candidate() {
    let inventory = Inventory::parse(REDIS).unwrap();
    let references = inventory.references();
    let completions = vec![completion(&references[0], Ok(index_of(&[("redis", &["v17.0.0"])])))];
    assert!(reconcile(&inventory, &completions).is_empty());
}

#[test]
fn up_to_date_inventory_gives_no_candidates() {
    let inventory = Inventory::parse(THREE).unwrap();
    let references = inventory.references();
    let completions = vec![
        completion(&references[2], Ok(index_of(&[("nginx", &["1.0.0"])]))),
        completion(&references[0], Ok(index_of(&[("redis", &["17.0.1-rc1", "17.0.0"])]))),
        completion(&references[1], Ok(index_of(&[("memcached", &["v6.0.0"])]))),
    ];
    assert!(reconcile(&inventory, &completions).is_empty());
}

#[test]
fn one_failure_leaves_the_others_alone() {
    let inventory = Inventory::parse(THREE).unwrap();
    let references = inventory.references();
    let completions = vec![
        completion(&references[0], Ok(index_of(&[("redis", &["17.0.5"])]))),
        completion(&references[1], Err(AdelieError::Fetch)),
        completion(&references[2], Ok(index_of(&[("nginx", &["1.1.0"])]))),
    ];
    let candidates = reconcile(&inventory, &completions);
    assert_eq!(candidates.len(), 2);
    assert_eq!(candidates[0].package_name, "redis");
    assert_eq!(candidates[0].new_version, "17.0.5");
    assert_eq!(candidates[1].package_name, "nginx");
    assert_eq!(candidates[1].new_version, "1.1.0");
}

#[test]
fn failures_of_every_kind_are_dropped() {
    let inventory = Inventory::parse(THREE).unwrap();
    let references = inventory.references();
    let completions = vec![
        completion(&references[0], Err(AdelieError::Decode)),
        completion(&references[1], Ok(index_of(&[("memcached", &["6.1.0-rc1"])]))),
        completion(&references[2], Ok(index_of(&[("redis", &["1.1.0"])]))),
    ];
    assert!(reconcile(&inventory, &completions).is_empty());
}

#[test]
fn candidates_come_in_the_order_of_arrival() {
    let inventory = Inventory::parse(THREE).unwrap();
    let references = inventory.references();
    let completions = vec![
        completion(&references[2], Ok(index_of(&[("nginx", &["1.1.0"])]))),
        completion(&references[0], Ok(index_of(&[("redis", &["17.0.5"])]))),
    ];
    let candidates = reconcile(&inventory, &completions);
    assert_eq!(candidates.len(), 2);
    assert_eq!(candidates[0].package_name, "nginx");
    assert_eq!(candidates[1].package_name, "redis");
}

#[test]
fn each_candidate_patches_the_base_document_alone() {
    let inventory = Inventory::parse(THREE).unwrap();
    let references = inventory.references();
    let completions = vec![
        completion(&references[0], Ok(index_of(&[("redis", &["17.0.5"])]))),
        completion(&references[1], Ok(index_of(&[("memcached", &["6.1.0"])]))),
    ];
    let candidates = reconcile(&inventory, &completions);
    assert_eq!(candidates.len(), 2);
    assert_eq!(candidates[0].patched_document, THREE.replace("\"17.0.0\"", "\"17.0.5\""));
    assert_eq!(candidates[1].package_name, "cache");
    assert_eq!(candidates[1].old_version, "6.0.0");
    assert_eq!(candidates[1].patched_document, THREE.replace("\"6.0.0\"", "\"6.1.0\""));
}

#[test]
fn a_reference_from_elsewhere_gives_no_candidate() {
    let inventory = Inventory::parse(REDIS).unwrap();
    let stranger = PackageReference {
        key: "nginx".to_string(),
        chart: "nginx".to_string(),
        repo: "https://charts.example.org".to_string(),
        version: "1.0.0".to_string(),
        app_version: None,
    };
    let outcome = completion(&stranger, Ok(index_of(&[("nginx", &["1.1.0"])])));
    assert!(candidate_for(&inventory, &outcome).is_none());
}

#[test]
fn no_outcomes_give_no_candidates() {
    let inventory = Inventory::parse(THREE).unwrap();
    assert!(reconcile(&inventory, &Vec::new()).is_empty());
}
