//! Aggregation of threat indicators into a capped, confidence-weighted risk
//! score with a four-level severity classification and decision predicates.
//!
//! Confidence is kept in hundredths: the value `c` stands for the real
//! confidence `c / 100`, so the whole scale `[0, 100]` stands for `[0, 1]`.

use vstd::prelude::*;
use crate::analyser::threat::ThreatIndicator;
use crate::analyser::threat::ThreatCategory;
use crate::analyser::threat::indicator_weight;
use crate::analyser::threat::indicator_category;

verus! {

/// Highest total still classified `Low`.
pub const LOW_SEVERITY_MAX: u8 = 20;

/// Highest total still classified `Medium`.
pub const MEDIUM_SEVERITY_MAX: u8 = 50;

/// Highest total still classified `High`; anything above is `Critical`.
pub const HIGH_SEVERITY_MAX: u8 = 75;

/// The total risk score saturates here.
pub const MAX_RISK_SCORE: u8 = 100;

/// A total above this is suspicious on its own.
pub const SUSPICIOUS_SCORE_FLOOR: u8 = 50;

/// A total above this is suspicious when confidence is also high.
pub const SUSPICIOUS_DIVERSE_FLOOR: u8 = 30;

/// Confidence (in hundredths) that must be exceeded for the second
/// suspicion clause.
pub const SUSPICIOUS_CONFIDENCE_FLOOR: u8 = 70;

/// Confidence (in hundredths) that must be exceeded for a `High` severity
/// score to block.
pub const BLOCK_CONFIDENCE_FLOOR: u8 = 60;

/// Confidence contribution (in hundredths) of each distinct category
/// present: five categories spread over a weight of 0.40.
pub const CONFIDENCE_DIVERSITY_STEP: u8 = 8;

/// Confidence contribution (in hundredths) of each indicator up to the cap:
/// ten indicators spread over a weight of 0.60.
pub const CONFIDENCE_COUNT_STEP: u8 = 6;

/// Indicators beyond this many add no further confidence.
pub const CONFIDENCE_COUNT_CAP: usize = 10;

/// Four-level severity tier of a risk score.
#[derive(Debug, Clone, Copy, PartialEq, Eq, PartialOrd, Ord, Structural)]
pub enum Severity {
    Low,
    Medium,
    High,
    Critical,
}

/// The severity tier that a capped total falls in.
pub open spec fn severity_of(score: u8) -> Severity {
    if score <= LOW_SEVERITY_MAX {
        Severity::Low
    } else if score <= MEDIUM_SEVERITY_MAX {
        Severity::Medium
    } else if score <= HIGH_SEVERITY_MAX {
        Severity::High
    } else {
        Severity::Critical
    }
}

/// The fixed label of a severity tier.
pub open spec fn severity_label(s: Severity) -> Seq<char> {
    match s {
        Severity::Low => "LOW"@,
        Severity::Medium => "MEDIUM"@,
        Severity::High => "HIGH"@,
        Severity::Critical => "CRITICAL"@,
    }
}

impl Severity {
    /// Classifies a total score into its severity tier.
    pub fn from_score(score: u8) -> (result: Self)
        ensures
            result == severity_of(score),
    {
        if score <= LOW_SEVERITY_MAX {
            Severity::Low
        } else if score <= MEDIUM_SEVERITY_MAX {
            Severity::Medium
        } else if score <= HIGH_SEVERITY_MAX {
            Severity::High
        } else {
            Severity::Critical
        }
    }

    /// The display label of this tier.
    pub fn as_str(&self) -> (result: &'static str)
        ensures
            result@ == severity_label(*self),
    {
        match self {
            Severity::Low => "LOW",
            Severity::Medium => "MEDIUM",
            Severity::High => "HIGH",
            Severity::Critical => "CRITICAL",
        }
    }
}

/// The severity boundaries, stated as an if-and-only-if classification of
/// the capped total: `Critical` iff the total is 76 or more, `High` iff it
/// lies in 51..=75, `Medium` iff it lies in 21..=50, `Low` iff it is at
/// most 20.
pub proof fn lemma_severity_thresholds(score: u8)
    ensures
        (severity_of(score) == Severity::Critical) <==> score >= 76,
        (severity_of(score) == Severity::High) <==> (51 <= score && score <= 75),
        (severity_of(score) == Severity::Medium) <==> (21 <= score && score <= 50),
        (severity_of(score) == Severity::Low) <==> score <= 20,
{
}

/// Sum of the weights of a sequence of indicators.
pub open spec fn sum_weights(s: Seq<ThreatIndicator>) -> int
    decreases s.len(),
{
    if s.len() == 0 {
        0
    } else {
        sum_weights(s.drop_last()) + indicator_weight(s.last())
    }
}

/// The weight sum, saturated at [`MAX_RISK_SCORE`].
pub open spec fn capped_total(s: Seq<ThreatIndicator>) -> int {
    if sum_weights(s) > MAX_RISK_SCORE {
        MAX_RISK_SCORE as int
    } else {
        sum_weights(s)
    }
}

/// How many indicators of `s` fall in category `c`.
pub open spec fn count_category(s: Seq<ThreatIndicator>, c: ThreatCategory) -> int
    decreases s.len(),
{
    if s.len() == 0 {
        0
    } else {
        count_category(s.drop_last(), c) + (if indicator_category(s.last()) == c {
            1int
        } else {
            0int
        })
    }
}

/// How many of the five categories have at least one indicator in `s`.
pub open spec fn categories_present(s: Seq<ThreatIndicator>) -> int {
    (if count_category(s, ThreatCategory::NetworkActivity) > 0 {
        1int
    } else {
        0int
    }) + (if count_category(s, ThreatCategory::DataExfiltration) > 0 {
        1int
    } else {
        0int
    }) + (if count_category(s, ThreatCategory::ProcessExecution) > 0 {
        1int
    } else {
        0int
    }) + (if count_category(s, ThreatCategory::FileSystemTampering) > 0 {
        1int
    } else {
        0int
    }) + (if count_category(s, ThreatCategory::Obfuscation) > 0 {
        1int
    } else {
        0int
    })
}

/// Confidence, in hundredths, of an indicator set: zero for an empty set,
/// otherwise a diversity part plus a capped volume part.
pub open spec fn confidence_of(s: Seq<ThreatIndicator>) -> int {
    if s.len() == 0 {
        0
    } else {
        categories_present(s) * CONFIDENCE_DIVERSITY_STEP + (if s.len() > CONFIDENCE_COUNT_CAP {
            CONFIDENCE_COUNT_CAP as int
        } else {
            s.len() as int
        }) * CONFIDENCE_COUNT_STEP
    }
}

/// Per-category indicator counts over one indicator set.
#[derive(Debug, Clone, Copy, PartialEq, Eq, Structural)]
pub struct IndicatorBreakdown {
    pub network_activity: usize,
    pub data_exfiltration: usize,
    pub process_execution: usize,
    pub file_system_tampering: usize,
    pub obfuscation: usize,
}

impl IndicatorBreakdown {
    /// The breakdown holds exactly the per-category counts of `s`.
    pub open spec fn counts(self, s: Seq<ThreatIndicator>) -> bool {
        &&& self.network_activity as int == count_category(s, ThreatCategory::NetworkActivity)
        &&& self.data_exfiltration as int == count_category(s, ThreatCategory::DataExfiltration)
        &&& self.process_execution as int == count_category(s, ThreatCategory::ProcessExecution)
        &&& self.file_system_tampering as int == count_category(
            s,
            ThreatCategory::FileSystemTampering,
        )
        &&& self.obfuscation as int == count_category(s, ThreatCategory::Obfuscation)
    }
}

/// The aggregate risk of one indicator set: saturated total, confidence in
/// hundredths, severity tier, indicator count, and per-category breakdown.
#[derive(Debug, Clone)]
pub struct RiskScore {
    pub total: u8,
    pub confidence: u8,
    pub severity: Severity,
    pub threat_count: usize,
    pub indicator_breakdown: IndicatorBreakdown,
}

impl RiskScore {
    /// Internal consistency: the severity tier is the classification of the
    /// total, and both bounded fields are in range.
    pub open spec fn wf(self) -> bool {
        &&& self.severity == severity_of(self.total)
        &&& self.total <= MAX_RISK_SCORE
        &&& self.confidence <= 100
    }

    /// The score is suspicious: either a high total on its own, or a
    /// moderate total backed by high confidence.
    pub open spec fn is_suspicious_spec(self) -> bool {
        self.total > SUSPICIOUS_SCORE_FLOOR || (self.total > SUSPICIOUS_DIVERSE_FLOOR
            && self.confidence > SUSPICIOUS_CONFIDENCE_FLOOR)
    }

    /// The score warrants blocking: critical severity, or high severity
    /// backed by high confidence.
    pub open spec fn should_block_spec(self) -> bool {
        self.severity == Severity::Critical || (self.severity == Severity::High
            && self.confidence > BLOCK_CONFIDENCE_FLOOR)
    }

    /// Aggregates an indicator set into a risk score.
    pub fn calculate(threats: &Vec<ThreatIndicator>) -> (result: RiskScore)
        ensures
            result.total as int == capped_total(threats@),
            result.threat_count == threats@.len(),
            result.indicator_breakdown.counts(threats@),
            result.confidence as int == confidence_of(threats@),
            (result.confidence == 0) <==> (threats@.len() == 0),
            result.severity == severity_of(result.total),
            result.wf(),
    {
        let mut total: u32 = 0;
        let mut network_activity: usize = 0;
        let mut data_exfiltration: usize = 0;
        let mut process_execution: usize = 0;
        let mut file_system_tampering: usize = 0;
        let mut obfuscation: usize = 0;

        let n = threats.len();
        let mut i: usize = 0;
        while i < n
            invariant
                i <= n,
                n == threats@.len(),
                total as int == capped_total(threats@.subrange(0, i as int)),
                total <= MAX_RISK_SCORE,
                network_activity as int == count_category(
                    threats@.subrange(0, i as int),
                    ThreatCategory::NetworkActivity,
                ),
                data_exfiltration as int == count_category(
                    threats@.subrange(0, i as int),
                    ThreatCategory::DataExfiltration,
                ),
                process_execution as int == count_category(
                    threats@.subrange(0, i as int),
                    ThreatCategory::ProcessExecution,
                ),
                file_system_tampering as int == count_category(
                    threats@.subrange(0, i as int),
                    ThreatCategory::FileSystemTampering,
                ),
                obfuscation as int == count_category(
                    threats@.subrange(0, i as int),
                    ThreatCategory::Obfuscation,
                ),
                network_activity <= i,
                data_exfiltration <= i,
                process_execution <= i,
                file_system_tampering <= i,
                obfuscation <= i,
            decreases n - i,
        {
            let weight: u8 = match &threats[i] {
                ThreatIndicator::NetworkActivity(p) => {
                    network_activity = network_activity + 1;
                    p.risk_weight
                },
                ThreatIndicator::DataExfiltration(e) => {
                    data_exfiltration = data_exfiltration + 1;
                    e.risk_weight
                },
                ThreatIndicator::ProcessExecution(p) => {
                    process_execution = process_execution + 1;
                    p.risk_weight
                },
                ThreatIndicator::FileSystemTampering(f) => {
                    file_system_tampering = file_system_tampering + 1;
                    f.risk_weight
                },
                ThreatIndicator::Obfuscation(o) => {
                    obfuscation = obfuscation + 1;
                    o.risk_weight
                },
            };
            total = if total + weight as u32 > MAX_RISK_SCORE as u32 {
                MAX_RISK_SCORE as u32
            } else {
                total + weight as u32
            };
            proof {
                assert(threats@.subrange(0, i + 1).drop_last() =~= threats@.subrange(0, i as int));
                assert(threats@.subrange(0, i + 1).last() == threats@[i as int]);
            }
            i = i + 1;
        }
        proof {
            assert(threats@.subrange(0, n as int) =~= threats@);
        }

        let breakdown = IndicatorBreakdown {
            network_activity,
            data_exfiltration,
            process_execution,
            file_system_tampering,
            obfuscation,
        };

        let mut cats: u8 = 0;
        if network_activity > 0 {
            cats = cats + 1;
        }
        if data_exfiltration > 0 {
            cats = cats + 1;
        }
        if process_execution > 0 {
            cats = cats + 1;
        }
        if file_system_tampering > 0 {
            cats = cats + 1;
        }
        if obfuscation > 0 {
            cats = cats + 1;
        }

        let confidence: u8 = if n == 0 {
            0
        } else {
            let capped_count: u8 = if n > CONFIDENCE_COUNT_CAP {
                CONFIDENCE_COUNT_CAP as u8
            } else {
                n as u8
            };
            proof {
                if n > 0 {
                    lemma_categories_present_pos(threats@);
                }
            }
            cats * CONFIDENCE_DIVERSITY_STEP + capped_count * CONFIDENCE_COUNT_STEP
        };

        let total_u8: u8 = total as u8;
        RiskScore {
            total: total_u8,
            confidence,
            severity: Severity::from_score(total_u8),
            threat_count: n,
            indicator_breakdown: breakdown,
        }
    }

    /// Decision predicate: see [`RiskScore::is_suspicious_spec`].
    pub fn is_suspicious(&self) -> (result: bool)
        ensures
            result == self.is_suspicious_spec(),
    {
        self.total > SUSPICIOUS_SCORE_FLOOR || (self.total > SUSPICIOUS_DIVERSE_FLOOR
            && self.confidence > SUSPICIOUS_CONFIDENCE_FLOOR)
    }

    /// Decision predicate: see [`RiskScore::should_block_spec`].
    pub fn should_block(&self) -> (result: bool)
        ensures
            result == self.should_block_spec(),
    {
        self.severity == Severity::Critical || (self.severity == Severity::High
            && self.confidence > BLOCK_CONFIDENCE_FLOOR)
    }
}

/// The per-category counts of a sequence are never negative.
proof fn lemma_count_category_nonneg(s: Seq<ThreatIndicator>, c: ThreatCategory)
    ensures
        count_category(s, c) >= 0,
    decreases s.len(),
{
    if s.len() > 0 {
        lemma_count_category_nonneg(s.drop_last(), c);
    }
}

/// A non-empty indicator set has at least one category present.
proof fn lemma_categories_present_pos(s: Seq<ThreatIndicator>)
    requires
        s.len() > 0,
    ensures
        categories_present(s) >= 1,
{
    lemma_count_category_nonneg(s.drop_last(), ThreatCategory::NetworkActivity);
    lemma_count_category_nonneg(s.drop_last(), ThreatCategory::DataExfiltration);
    lemma_count_category_nonneg(s.drop_last(), ThreatCategory::ProcessExecution);
    lemma_count_category_nonneg(s.drop_last(), ThreatCategory::FileSystemTampering);
    lemma_count_category_nonneg(s.drop_last(), ThreatCategory::Obfuscation);
}

/// Blocking is strictly more conservative than suspicion: every
/// well-formed score that blocks is also suspicious, never the converse.
pub proof fn lemma_block_implies_suspicious(score: RiskScore)
    requires
        score.wf(),
    ensures
        score.should_block_spec() ==> score.is_suspicious_spec(),
{
}

} // verus!
