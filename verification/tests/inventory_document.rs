use adelie::error::AdelieError;
use adelie::inventory::reference_from_fields;
use adelie::inventory::Inventory;

const SAMPLE: &str = r#"# charts of the cluster
[redis]
helm = "https://charts.example.com"
version = "17.0.0"   # pinned by hand

[ingress]
chart = "ingress-nginx"
helm = "https://kubernetes.github.io/ingress-nginx"
version = "4.7.1"
appVersion = "1.8.1"

[broken]
helm = "https://charts.example.com"
version = 3

[notes]
text = "not a chart"
"#;

fn text(s: &str) -> Option<Option<String>> {
    Some(Some(s.to_string()))
}

#[test]
fn parse_rejects_malformed_text() {
    assert_eq!(Inventory::parse("[redis").err(), Some(AdelieError::Decode));
    assert_eq!(Inventory::parse("a = = 1").err(), Some(AdelieError::Decode));
}

#[test]
fn parse_accepts_an_empty_document() {
    let inventory = Inventory::parse("").unwrap();
    assert!(inventory.references().is_empty());
    assert_eq!(inventory.render(), "");
}

#[test]
fn render_gives_back_the_text_that_was_read() {
    let inventory = Inventory::parse(SAMPLE).unwrap();
    assert_eq!(inventory.render(), SAMPLE);
}

#[test]
fn field_reads_strings() {
    let inventory = Inventory::parse(SAMPLE).unwrap();
    assert_eq!(inventory.field("redis", "version"), text("17.0.0"));
    assert_eq!(inventory.field("ingress", "chart"), text("ingress-nginx"));
}

#[test]
fn field_tells_missing_from_not_a_string() {
    let inventory = Inventory::parse(SAMPLE).unwrap();
    assert_eq!(inventory.field("redis", "chart"), None);
    assert_eq!(inventory.field("postgres", "version"), None);
    assert_eq!(inventory.field("broken", "version"), Some(None));
}

#[test]
fn references_lists_the_entries_in_document_order() {
    let inventory = Inventory::parse(SAMPLE).unwrap();
    let references = inventory.references();
    assert_eq!(references.len(), 2);
    assert_eq!(references[0].key, "redis");
    assert_eq!(references[0].chart, "redis");
    assert_eq!(references[0].repo, "https://charts.example.com");
    assert_eq!(references[0].version, "17.0.0");
    assert_eq!(references[0].app_version, None);
    assert_eq!(references[1].key, "ingress");
    assert_eq!(references[1].chart, "ingress-nginx");
    assert_eq!(references[1].repo, "https://kubernetes.github.io/ingress-nginx");
    assert_eq!(references[1].version, "4.7.1");
    assert_eq!(references[1].app_version.as_deref(), Some("1.8.1"));
}

#[test]
fn references_reads_inline_tables() {
    let inventory =
        Inventory::parse("redis = { helm = \"https://charts.example.com\", version = \"17.0.0\" }\n")
            .unwrap();
    let references = inventory.references();
    assert_eq!(references.len(), 1);
    assert_eq!(references[0].key, "redis");
    assert_eq!(references[0].version, "17.0.0");
}

#[test]
fn references_skips_entries_that_are_no_tables() {
    let inventory = Inventory::parse("title = \"charts\"\ncount = 3\n").unwrap();
    assert!(inventory.references().is_empty());
}

#[test]
fn reference_defaults_the_chart_to_the_key() {
    let reference =
        reference_from_fields("redis".to_string(), None, text("https://r"), text("1.0.0"), None)
            .unwrap();
    assert_eq!(reference.key, "redis");
    assert_eq!(reference.chart, "redis");
    assert_eq!(reference.repo, "https://r");
    assert_eq!(reference.version, "1.0.0");
    assert_eq!(reference.app_version, None);
}

#[test]
fn reference_takes_the_chart_override() {
    let reference = reference_from_fields(
        "cache".to_string(),
        text("redis"),
        text("https://r"),
        text("1.0.0"),
        text("7.0"),
    )
    .unwrap();
    assert_eq!(reference.key, "cache");
    assert_eq!(reference.chart, "redis");
    assert_eq!(reference.app_version.as_deref(), Some("7.0"));
}

#[test]
fn reference_needs_repository_and_version() {
    assert!(reference_from_fields("a".to_string(), None, None, text("1"), None).is_none());
    assert!(reference_from_fields("a".to_string(), None, text("r"), None, None).is_none());
    assert!(reference_from_fields("a".to_string(), None, Some(None), text("1"), None).is_none());
    assert!(reference_from_fields("a".to_string(), None, text("r"), Some(None), None).is_none());
}

#[test]
fn reference_rejects_a_chart_name_that_is_no_string() {
    assert!(reference_from_fields("a".to_string(), Some(None), text("r"), text("1"), None).is_none());
}

#[test]
fn reference_ignores_an_app_version_that_is_no_string() {
    let reference =
        reference_from_fields("a".to_string(), None, text("r"), text("1"), Some(None)).unwrap();
    assert_eq!(reference.app_version, None);
}

#[test]
fn with_version_changes_one_field_only() {
    let inventory = Inventory::parse(SAMPLE).unwrap();
    let patched = inventory.with_version("redis", "17.0.5").unwrap();
    assert_eq!(patched.field("redis", "version"), text("17.0.5"));
    assert_eq!(patched.field("redis", "helm"), inventory.field("redis", "helm"));
    assert_eq!(patched.field("redis", "chart"), inventory.field("redis", "chart"));
    for key in ["ingress", "broken", "notes"] {
        for name in ["chart", "helm", "version", "appVersion", "text"] {
            assert_eq!(patched.field(key, name), inventory.field(key, name));
        }
    }
    assert_eq!(inventory.field("redis", "version"), text("17.0.0"));
}

#[test]
fn with_version_keeps_the_other_references() {
    let inventory = Inventory::parse(SAMPLE).unwrap();
    let patched = inventory.with_version("redis", "17.0.5").unwrap();
    let before = inventory.references();
    let after = patched.references();
    assert_eq!(after.len(), before.len());
    assert_eq!(after[0].key, "redis");
    assert_eq!(after[0].version, "17.0.5");
    assert_eq!(after[0].repo, before[0].repo);
    assert_eq!(after[1].key, before[1].key);
    assert_eq!(after[1].chart, before[1].chart);
    assert_eq!(after[1].repo, before[1].repo);
    assert_eq!(after[1].version, before[1].version);
    assert_eq!(after[1].app_version, before[1].app_version);
}

#[test]
fn with_version_keeps_the_rest_of_the_text() {
    let inventory = Inventory::parse(SAMPLE).unwrap();
    let patched = inventory.with_version("ingress", "4.8.0").unwrap();
    assert_eq!(patched.render(), SAMPLE.replace("\"4.7.1\"", "\"4.8.0\""));
}

#[test]
fn with_version_replaces_a_field_of_another_kind() {
    let inventory = Inventory::parse(SAMPLE).unwrap();
    let patched = inventory.with_version("broken", "1.0.0").unwrap();
    assert_eq!(patched.field("broken", "version"), text("1.0.0"));
}

#[test]
fn with_version_needs_an_entry_with_a_version() {
    let inventory = Inventory::parse(SAMPLE).unwrap();
    assert!(inventory.with_version("postgres", "1.0.0").is_none());
    assert!(inventory.with_version("notes", "1.0.0").is_none());
    let plain = Inventory::parse("redis = \"17.0.0\"\n").unwrap();
    assert!(plain.with_version("redis", "17.0.5").is_none());
}

#[test]
fn with_version_pins_an_inline_table() {
    let inventory =
        Inventory::parse("redis = { helm = \"https://charts.example.com\", version = \"17.0.0\" }\n")
            .unwrap();
    let patched = inventory.with_version("redis", "17.0.5").unwrap();
    assert_eq!(patched.field("redis", "version"), text("17.0.5"));
    assert_eq!(patched.field("redis", "helm"), text("https://charts.example.com"));
}

#[test]
fn pinned_chart_carries_the_reference() {
    let inventory = Inventory::parse(SAMPLE).unwrap();
    let references = inventory.references();
    let chart = references[1].pinned_chart();
    assert_eq!(chart.name, "ingress-nginx");
    assert_eq!(chart.repo, "https://kubernetes.github.io/ingress-nginx");
    assert_eq!(chart.version.as_deref(), Some("4.7.1"));
    assert_eq!(chart.app_version.as_deref(), Some("1.8.1"));
}
