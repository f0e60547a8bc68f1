use pkgscan::analyser::analyze_install_scripts;
use pkgscan::analyser::finding::Severity;
use pkgscan::analyser::risk_score::RiskScore;
use pkgscan::parser::package_json::PackageJson;
use pkgscan::parser::{extract_install_scripts, script_complexity};

fn manifest(scripts: Option<Vec<(&str, &str)>>) -> PackageJson {
    PackageJson {
        name: Some("demo".to_string()),
        version: Some("1.0.0".to_string()),
        scripts: scripts.map(|entries| {
            entries
                .into_iter()
                .map(|(k, v)| (k.to_string(), v.to_string()))
                .collect()
        }),
        dependencies: None,
        dev_dependencies: None,
    }
}

#[test]
fn test_no_scripts_entry() {
    let pkg = manifest(None);
    assert!(extract_install_scripts(&pkg).is_empty());
    assert!(analyze_install_scripts(&pkg).is_empty());
    // Nothing to scan means zero indicators and a zero score.
    let score = RiskScore::calculate(&Vec::new());
    assert_eq!(score.total, 0);
    assert_eq!(score.threat_count, 0);
}

#[test]
fn test_extract_filters_lifecycle_hooks() {
    let pkg = manifest(Some(vec![
        ("preinstall", "echo pre"),
        ("build", "make all"),
        ("install", "echo in"),
        ("test", "cargo test"),
        ("postinstall", "echo post"),
    ]));
    let hooks = extract_install_scripts(&pkg);
    assert_eq!(
        hooks,
        vec![
            ("preinstall".to_string(), "echo pre".to_string()),
            ("install".to_string(), "echo in".to_string()),
            ("postinstall".to_string(), "echo post".to_string()),
        ]
    );
}

#[test]
fn test_script_complexity_counts_tokens() {
    assert_eq!(script_complexity(""), 0);
    assert_eq!(script_complexity("   "), 0);
    assert_eq!(script_complexity("echo"), 1);
    assert_eq!(script_complexity("echo  hi   there"), 3);
    assert_eq!(script_complexity("  a b\tc\nd  "), 4);
    // An em space is whitespace too.
    assert_eq!(script_complexity("a\u{2003}b"), 2);
}

#[test]
fn test_simple_script_low_finding() {
    let pkg = manifest(Some(vec![("install", "echo hi")]));
    let findings = analyze_install_scripts(&pkg);
    assert_eq!(findings.len(), 1);
    assert_eq!(findings[0].severity, Severity::Low);
    assert_eq!(findings[0].message, "install script present: echo hi");
}

#[test]
fn test_complex_script_medium_finding() {
    // 21 tokens: one over the limit.
    let script = "a b c d e f g h i j k l m n o p q r s t u";
    assert_eq!(script_complexity(script), 21);
    let pkg = manifest(Some(vec![("preinstall", script)]));
    let findings = analyze_install_scripts(&pkg);
    assert_eq!(findings.len(), 1);
    assert_eq!(findings[0].severity, Severity::Medium);
    assert_eq!(
        findings[0].message,
        format!("Complex preinstall script (21 tokens): {}", script)
    );
}

#[test]
fn test_twenty_tokens_is_still_low() {
    let script = "a b c d e f g h i j k l m n o p q r s t";
    assert_eq!(script_complexity(script), 20);
    let pkg = manifest(Some(vec![("postinstall", script)]));
    let findings = analyze_install_scripts(&pkg);
    assert_eq!(findings.len(), 1);
    assert_eq!(findings[0].severity, Severity::Low);
    assert_eq!(
        findings[0].message,
        format!("postinstall script present: {}", script)
    );
}

#[test]
fn test_non_lifecycle_scripts_ignored() {
    let pkg = manifest(Some(vec![("build", "make -j"), ("lint", "clippy")]));
    assert!(analyze_install_scripts(&pkg).is_empty());
}

#[test]
fn test_findings_keep_script_order() {
    let pkg = manifest(Some(vec![
        ("postinstall", "echo one"),
        ("preinstall", "echo two"),
    ]));
    let findings = analyze_install_scripts(&pkg);
    assert_eq!(findings.len(), 2);
    assert_eq!(findings[0].message, "postinstall script present: echo one");
    assert_eq!(findings[1].message, "preinstall script present: echo two");
}
