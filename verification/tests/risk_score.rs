use pkgscan::analyser::risk_score::{RiskScore, Severity};
use pkgscan::analyser::threat::{
    ExecutionContext, ExfiltrationVector, NetworkPattern, ThreatIndicator,
};

fn network(weight: u8) -> ThreatIndicator {
    ThreatIndicator::NetworkActivity(NetworkPattern {
        pattern_type: "HTTP client".to_string(),
        evidence: "require('https')".to_string(),
        risk_weight: weight,
    })
}

fn exfiltration(weight: u8) -> ThreatIndicator {
    ThreatIndicator::DataExfiltration(ExfiltrationVector {
        target: "Env vars".to_string(),
        evidence: "process.env".to_string(),
        risk_weight: weight,
    })
}

fn execution(weight: u8) -> ThreatIndicator {
    ThreatIndicator::ProcessExecution(ExecutionContext {
        method: "eval() usage".to_string(),
        evidence: "eval(".to_string(),
        risk_weight: weight,
    })
}

#[test]
fn test_severity_classification() {
    assert_eq!(Severity::from_score(10), Severity::Low);
    assert_eq!(Severity::from_score(35), Severity::Medium);
    assert_eq!(Severity::from_score(60), Severity::High);
    assert_eq!(Severity::from_score(90), Severity::Critical);
}

#[test]
fn test_risk_calculation() {
    let threats = vec![
        ThreatIndicator::NetworkActivity(NetworkPattern {
            pattern_type: "HTTP client".to_string(),
            evidence: "require('https')".to_string(),
            risk_weight: 15,
        }),
        ThreatIndicator::DataExfiltration(ExfiltrationVector {
            target: "Env vars".to_string(),
            evidence: "process.env".to_string(),
            risk_weight: 10,
        }),
    ];

    let score = RiskScore::calculate(&threats);
    assert_eq!(score.total, 25);
    assert_eq!(score.threat_count, 2);
    assert_eq!(score.severity, Severity::Medium);
}

#[test]
fn test_severity_boundaries() {
    assert_eq!(Severity::from_score(0), Severity::Low);
    assert_eq!(Severity::from_score(20), Severity::Low);
    assert_eq!(Severity::from_score(21), Severity::Medium);
    assert_eq!(Severity::from_score(50), Severity::Medium);
    assert_eq!(Severity::from_score(51), Severity::High);
    assert_eq!(Severity::from_score(75), Severity::High);
    assert_eq!(Severity::from_score(76), Severity::Critical);
    assert_eq!(Severity::from_score(100), Severity::Critical);
}

#[test]
fn test_severity_labels() {
    assert_eq!(Severity::Low.as_str(), "LOW");
    assert_eq!(Severity::Medium.as_str(), "MEDIUM");
    assert_eq!(Severity::High.as_str(), "HIGH");
    assert_eq!(Severity::Critical.as_str(), "CRITICAL");
}

#[test]
fn test_empty_indicator_set() {
    let threats: Vec<ThreatIndicator> = Vec::new();
    let score = RiskScore::calculate(&threats);
    assert_eq!(score.total, 0);
    assert_eq!(score.confidence, 0);
    assert_eq!(score.severity, Severity::Low);
    assert_eq!(score.threat_count, 0);
    assert_eq!(score.indicator_breakdown.network_activity, 0);
    assert_eq!(score.indicator_breakdown.data_exfiltration, 0);
    assert_eq!(score.indicator_breakdown.process_execution, 0);
    assert_eq!(score.indicator_breakdown.file_system_tampering, 0);
    assert_eq!(score.indicator_breakdown.obfuscation, 0);
    assert!(!score.is_suspicious());
    assert!(!score.should_block());
}

#[test]
fn test_confidence_formula() {
    // Two indicators in two categories: 2 * 8 + 2 * 6 hundredths.
    let threats = vec![network(15), exfiltration(10)];
    let score = RiskScore::calculate(&threats);
    assert_eq!(score.confidence, 28);

    // One indicator in one category: 8 + 6 hundredths.
    let threats = vec![network(15)];
    let score = RiskScore::calculate(&threats);
    assert_eq!(score.confidence, 14);
}

#[test]
fn test_confidence_count_cap() {
    // Twelve indicators in one category: the volume part caps at ten.
    let threats: Vec<ThreatIndicator> = (0..12).map(|_| network(5)).collect();
    let score = RiskScore::calculate(&threats);
    assert_eq!(score.threat_count, 12);
    assert_eq!(score.confidence, 8 + 60);
    assert_eq!(score.total, 60);
}

#[test]
fn test_total_saturates_at_100() {
    let threats: Vec<ThreatIndicator> = (0..7).map(|_| network(35)).collect();
    let score = RiskScore::calculate(&threats);
    assert_eq!(score.total, 100);
    assert_eq!(score.severity, Severity::Critical);
}

#[test]
fn test_suspicious_by_total_alone() {
    // A single heavy indicator: total 60, confidence 14.
    let threats = vec![network(60)];
    let score = RiskScore::calculate(&threats);
    assert_eq!(score.severity, Severity::High);
    assert!(score.is_suspicious());
    // High severity but low confidence: no block.
    assert!(!score.should_block());
}

#[test]
fn test_suspicious_by_confidence() {
    // Ten indicators over three categories, total 35: confidence
    // 3 * 8 + 10 * 6 = 84 exceeds 70, so the diverse clause fires.
    let mut threats = Vec::new();
    for _ in 0..4 {
        threats.push(network(5));
    }
    for _ in 0..3 {
        threats.push(exfiltration(4));
    }
    for _ in 0..3 {
        threats.push(execution(1));
    }
    let score = RiskScore::calculate(&threats);
    assert_eq!(score.total, 35);
    assert_eq!(score.confidence, 84);
    assert_eq!(score.severity, Severity::Medium);
    assert!(score.is_suspicious());
    assert!(!score.should_block());
}

#[test]
fn test_block_critical() {
    let threats = vec![network(50), exfiltration(40)];
    let score = RiskScore::calculate(&threats);
    assert_eq!(score.total, 90);
    assert_eq!(score.severity, Severity::Critical);
    assert!(score.should_block());
    assert!(score.is_suspicious());
}

#[test]
fn test_block_high_with_confidence() {
    // Ten indicators over two categories, total 60: severity High,
    // confidence 2 * 8 + 10 * 6 = 76 exceeds 60, so it blocks.
    let mut threats = Vec::new();
    for _ in 0..5 {
        threats.push(network(7));
    }
    for _ in 0..5 {
        threats.push(exfiltration(5));
    }
    let score = RiskScore::calculate(&threats);
    assert_eq!(score.total, 60);
    assert_eq!(score.confidence, 76);
    assert_eq!(score.severity, Severity::High);
    assert!(score.should_block());
    assert!(score.is_suspicious());
}

#[test]
fn test_breakdown_counts() {
    let threats = vec![network(5), network(5), exfiltration(5), execution(5)];
    let score = RiskScore::calculate(&threats);
    assert_eq!(score.indicator_breakdown.network_activity, 2);
    assert_eq!(score.indicator_breakdown.data_exfiltration, 1);
    assert_eq!(score.indicator_breakdown.process_execution, 1);
    assert_eq!(score.indicator_breakdown.file_system_tampering, 0);
    assert_eq!(score.indicator_breakdown.obfuscation, 0);
}
