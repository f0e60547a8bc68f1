//! Threat indicator types, the behavioral signature catalog, and the
//! detector that scans script text against the catalog.

use vstd::prelude::*;
use vstd::string::StringExecFns;

verus! {

/// The five fixed behavioral categories of the signature catalog.
#[derive(Debug, Clone, Copy, PartialEq, Eq, Structural)]
pub enum ThreatCategory {
    NetworkActivity,
    DataExfiltration,
    ProcessExecution,
    FileSystemTampering,
    Obfuscation,
}

/// A network-access match: signature label, matched substring, risk weight.
#[derive(Debug, Clone, PartialEq)]
pub struct NetworkPattern {
    pub pattern_type: String,
    pub evidence: String,
    pub risk_weight: u8,
}

/// A data-exfiltration match.
#[derive(Debug, Clone, PartialEq)]
pub struct ExfiltrationVector {
    pub target: String,
    pub evidence: String,
    pub risk_weight: u8,
}

/// A process-execution match.
#[derive(Debug, Clone, PartialEq)]
pub struct ExecutionContext {
    pub method: String,
    pub evidence: String,
    pub risk_weight: u8,
}

/// A filesystem-tampering match.
#[derive(Debug, Clone, PartialEq)]
pub struct FSOperation {
    pub operation: String,
    pub evidence: String,
    pub risk_weight: u8,
}

/// An obfuscation match.
#[derive(Debug, Clone, PartialEq)]
pub struct ObfuscationTechnique {
    pub technique: String,
    pub evidence: String,
    pub risk_weight: u8,
}

/// One matched occurrence of a signature: category, signature label, the
/// exact matched substring, and the signature's weight.
#[derive(Debug, Clone, PartialEq)]
pub enum ThreatIndicator {
    NetworkActivity(NetworkPattern),
    DataExfiltration(ExfiltrationVector),
    ProcessExecution(ExecutionContext),
    FileSystemTampering(FSOperation),
    Obfuscation(ObfuscationTechnique),
}

/// The risk weight carried by an indicator.
pub open spec fn indicator_weight(t: ThreatIndicator) -> u8 {
    match t {
        ThreatIndicator::NetworkActivity(n) => n.risk_weight,
        ThreatIndicator::DataExfiltration(e) => e.risk_weight,
        ThreatIndicator::ProcessExecution(p) => p.risk_weight,
        ThreatIndicator::FileSystemTampering(f) => f.risk_weight,
        ThreatIndicator::Obfuscation(o) => o.risk_weight,
    }
}

/// The category an indicator belongs to.
pub open spec fn indicator_category(t: ThreatIndicator) -> ThreatCategory {
    match t {
        ThreatIndicator::NetworkActivity(_) => ThreatCategory::NetworkActivity,
        ThreatIndicator::DataExfiltration(_) => ThreatCategory::DataExfiltration,
        ThreatIndicator::ProcessExecution(_) => ThreatCategory::ProcessExecution,
        ThreatIndicator::FileSystemTampering(_) => ThreatCategory::FileSystemTampering,
        ThreatIndicator::Obfuscation(_) => ThreatCategory::Obfuscation,
    }
}

/// The indicator's signature label.
pub open spec fn indicator_label(t: ThreatIndicator) -> Seq<char> {
    match t {
        ThreatIndicator::NetworkActivity(n) => n.pattern_type@,
        ThreatIndicator::DataExfiltration(e) => e.target@,
        ThreatIndicator::ProcessExecution(p) => p.method@,
        ThreatIndicator::FileSystemTampering(f) => f.operation@,
        ThreatIndicator::Obfuscation(o) => o.technique@,
    }
}

/// The indicator's matched evidence substring.
pub open spec fn indicator_evidence(t: ThreatIndicator) -> Seq<char> {
    match t {
        ThreatIndicator::NetworkActivity(n) => n.evidence@,
        ThreatIndicator::DataExfiltration(e) => e.evidence@,
        ThreatIndicator::ProcessExecution(p) => p.evidence@,
        ThreatIndicator::FileSystemTampering(f) => f.evidence@,
        ThreatIndicator::Obfuscation(o) => o.evidence@,
    }
}

/// The sequence of substrings of `text` matched by the regular expression
/// `pattern`: the successive leftmost non-overlapping matches, left to
/// right, or the empty sequence when `pattern` is not a valid expression.
/// A pure function of its two arguments.
pub uninterp spec fn regex_found(pattern: Seq<char>, text: Seq<char>) -> Seq<Seq<char>>;

/// Relies on regex::Regex::find_iter, which yields the successive
/// non-overlapping matches of the pattern in the text, leftmost first, and
/// on regex::Match::as_str, which returns exactly the matched substring;
/// matching is a pure function of pattern and text.
#[verifier::external_body]
fn regex_find_all(pattern: &str, text: &str) -> (found: Vec<String>)
    ensures
        found@.len() == regex_found(pattern@, text@).len(),
        forall|i: int| 0 <= i < found@.len() ==> found@[i]@ == regex_found(pattern@, text@)[i],
{
    match regex::Regex::new(pattern) {
        Ok(re) => re.find_iter(text).map(|m| m.as_str().to_string()).collect(),
        Err(_) => Vec::new(),
    }
}

/// One behavioral signature: a regular-expression matcher, a stable
/// human-readable label, and its risk weight.
#[derive(Debug, Clone)]
pub struct Signature {
    pub pattern: String,
    pub label: String,
    pub weight: u8,
}

impl Signature {
    /// Catalog invariant: the weight is positive and the label non-empty.
    pub open spec fn wf(self) -> bool {
        self.weight > 0 && self.label@.len() > 0
    }
}

/// The signature catalog: an ordered list of signatures per category. The
/// catalog is the single source of detection policy; scanning consults it
/// and nothing else.
#[derive(Debug, Clone)]
pub struct PatternCatalog {
    pub network: Vec<Signature>,
    pub exfiltration: Vec<Signature>,
    pub execution: Vec<Signature>,
    pub filesystem: Vec<Signature>,
    pub obfuscation: Vec<Signature>,
}

/// The ghost shape of one catalog line: category, pattern, label, weight.
pub open spec fn sig_entry(cat: ThreatCategory, s: Signature) -> (
    ThreatCategory,
    Seq<char>,
    Seq<char>,
    u8,
) {
    (cat, s.pattern@, s.label@, s.weight)
}

/// The catalog lines of one category's signature list, in order.
pub open spec fn entries_of(cat: ThreatCategory, sigs: Seq<Signature>) -> Seq<
    (ThreatCategory, Seq<char>, Seq<char>, u8),
> {
    sigs.map(|i: int, s: Signature| sig_entry(cat, s))
}

impl PatternCatalog {
    /// All catalog lines in scan order: the five categories in their fixed
    /// order, each category's signatures in list order.
    pub open spec fn entries(self) -> Seq<(ThreatCategory, Seq<char>, Seq<char>, u8)> {
        entries_of(ThreatCategory::NetworkActivity, self.network@) + entries_of(
            ThreatCategory::DataExfiltration,
            self.exfiltration@,
        ) + entries_of(ThreatCategory::ProcessExecution, self.execution@) + entries_of(
            ThreatCategory::FileSystemTampering,
            self.filesystem@,
        ) + entries_of(ThreatCategory::Obfuscation, self.obfuscation@)
    }

    /// Every signature in the catalog satisfies the signature invariant.
    pub open spec fn wf(self) -> bool {
        &&& forall|i: int| 0 <= i < self.network@.len() ==> (#[trigger] self.network@[i]).wf()
        &&& forall|i: int|
            0 <= i < self.exfiltration@.len() ==> (#[trigger] self.exfiltration@[i]).wf()
        &&& forall|i: int| 0 <= i < self.execution@.len() ==> (#[trigger] self.execution@[i]).wf()
        &&& forall|i: int| 0 <= i < self.filesystem@.len() ==> (#[trigger] self.filesystem@[i]).wf()
        &&& forall|i: int| 0 <= i < self.obfuscation@.len() ==> (#[trigger] self.obfuscation@[i]).wf()
    }
}

/// The network-activity lines of the standard catalog.
pub open spec fn standard_network_entries() -> Seq<(ThreatCategory, Seq<char>, Seq<char>, u8)> {
    seq![
        (
            ThreatCategory::NetworkActivity,
            "\\brequire\\s*\\(\\s*['\"](https?|net|axios|node-fetch|got|request)['\"]\\s*\\)"@,
            "HTTP client import"@,
            15u8,
        ),
        (ThreatCategory::NetworkActivity, "\\bfetch\\s*\\("@, "fetch() call"@, 15u8),
        (ThreatCategory::NetworkActivity, "https?://[^\\s'\"]+"@, "Hardcoded URL"@, 20u8),
        (
            ThreatCategory::NetworkActivity,
            "\\b(XMLHttpRequest|WebSocket)\\b"@,
            "Network API usage"@,
            15u8,
        ),
        (ThreatCategory::NetworkActivity, "\\bdns\\.(lookup|resolve)"@, "DNS query"@, 10u8),
    ]
}

/// The data-exfiltration lines of the standard catalog.
pub open spec fn standard_exfiltration_entries() -> Seq<
    (ThreatCategory, Seq<char>, Seq<char>, u8),
> {
    seq![
        (
            ThreatCategory::DataExfiltration,
            "\\bprocess\\.env\\b"@,
            "Environment variable access"@,
            10u8,
        ),
        (
            ThreatCategory::DataExfiltration,
            "\\b(AWS_|GITHUB_|NPM_|DOCKER_|CI_|GITLAB_)[A-Z_]+"@,
            "Sensitive env var"@,
            25u8,
        ),
        (
            ThreatCategory::DataExfiltration,
            "(\\.ssh|\\.aws|\\.npmrc|\\.docker|\\.kube)"@,
            "Sensitive file path"@,
            30u8,
        ),
        (
            ThreatCategory::DataExfiltration,
            "\\bfs\\.readFile.*?(token|secret|key|password|credential)"@,
            "Reading secrets"@,
            35u8,
        ),
        (
            ThreatCategory::DataExfiltration,
            "\\bos\\.(homedir|userInfo|hostname)"@,
            "System info collection"@,
            10u8,
        ),
    ]
}

/// The process-execution lines of the standard catalog.
pub open spec fn standard_execution_entries() -> Seq<(ThreatCategory, Seq<char>, Seq<char>, u8)> {
    seq![
        (
            ThreatCategory::ProcessExecution,
            "\\bchild_process\\.(exec|execSync|spawn|fork)"@,
            "Child process execution"@,
            20u8,
        ),
        (
            ThreatCategory::ProcessExecution,
            "\\brequire\\s*\\(\\s*['\"]child_process['\"]\\s*\\)"@,
            "Child process import"@,
            15u8,
        ),
        (
            ThreatCategory::ProcessExecution,
            "\\b(sh|bash|cmd|powershell|/bin/)"@,
            "Shell execution"@,
            25u8,
        ),
        (ThreatCategory::ProcessExecution, "\\beval\\s*\\("@, "eval() usage"@, 30u8),
        (ThreatCategory::ProcessExecution, "\\bFunction\\s*\\("@, "Function constructor"@, 25u8),
    ]
}

/// The filesystem-tampering lines of the standard catalog.
pub open spec fn standard_filesystem_entries() -> Seq<(ThreatCategory, Seq<char>, Seq<char>, u8)> {
    seq![
        (
            ThreatCategory::FileSystemTampering,
            "\\bfs\\.(writeFile|appendFile|mkdir|rmdir|unlink)"@,
            "File system write"@,
            15u8,
        ),
        (ThreatCategory::FileSystemTampering, "\\.\\./"@, "Directory traversal"@, 20u8),
        (
            ThreatCategory::FileSystemTampering,
            "\\b(package\\.json|package-lock\\.json|yarn\\.lock)"@,
            "Lockfile modification"@,
            30u8,
        ),
        (ThreatCategory::FileSystemTampering, "\\.git/"@, "Git directory access"@, 25u8),
        (
            ThreatCategory::FileSystemTampering,
            "/etc/|/usr/|/var/|C:\\\\Windows"@,
            "System directory access"@,
            35u8,
        ),
    ]
}

/// The obfuscation lines of the standard catalog.
pub open spec fn standard_obfuscation_entries() -> Seq<(ThreatCategory, Seq<char>, Seq<char>, u8)> {
    seq![
        (ThreatCategory::Obfuscation, "\\batob\\s*\\("@, "Base64 decode"@, 20u8),
        (
            ThreatCategory::Obfuscation,
            "String\\.fromCharCode"@,
            "Character code obfuscation"@,
            25u8,
        ),
        (ThreatCategory::Obfuscation, "\\\\x[0-9a-fA-F]{2}"@, "Hex encoding"@, 15u8),
        (ThreatCategory::Obfuscation, "\\\\u[0-9a-fA-F]{4}"@, "Unicode escape"@, 10u8),
        (
            ThreatCategory::Obfuscation,
            "\\[(0x[0-9a-fA-F]+,?\\s*){10,}\\]"@,
            "Hex array obfuscation"@,
            30u8,
        ),
        (
            ThreatCategory::Obfuscation,
            "['\"]\\s*\\+\\s*['\"]"@,
            "String concatenation obfuscation"@,
            5u8,
        ),
    ]
}

/// Every line of the standard catalog, in scan order.
pub open spec fn standard_catalog_spec() -> Seq<(ThreatCategory, Seq<char>, Seq<char>, u8)> {
    standard_network_entries() + standard_exfiltration_entries() + standard_execution_entries()
        + standard_filesystem_entries() + standard_obfuscation_entries()
}

/// Builds one signature from its parts.
fn sig(pattern: &str, label: &str, weight: u8) -> (s: Signature)
    ensures
        s.pattern@ == pattern@,
        s.label@ == label@,
        s.weight == weight,
{
    Signature { pattern: String::from_str(pattern), label: String::from_str(label), weight }
}

impl PatternCatalog {
    /// The standard signature catalog: the fixed detection policy, with the
    /// recommended weight for each behavioral signature.
    pub fn standard() -> (catalog: PatternCatalog)
        ensures
            catalog.entries() == standard_catalog_spec(),
            catalog.wf(),
    {
        let mut network: Vec<Signature> = Vec::new();
        network.push(
            sig(
                "\\brequire\\s*\\(\\s*['\"](https?|net|axios|node-fetch|got|request)['\"]\\s*\\)",
                "HTTP client import",
                15,
            ),
        );
        network.push(sig("\\bfetch\\s*\\(", "fetch() call", 15));
        network.push(sig("https?://[^\\s'\"]+", "Hardcoded URL", 20));
        network.push(sig("\\b(XMLHttpRequest|WebSocket)\\b", "Network API usage", 15));
        network.push(sig("\\bdns\\.(lookup|resolve)", "DNS query", 10));

        let mut exfiltration: Vec<Signature> = Vec::new();
        exfiltration.push(sig("\\bprocess\\.env\\b", "Environment variable access", 10));
        exfiltration.push(
            sig("\\b(AWS_|GITHUB_|NPM_|DOCKER_|CI_|GITLAB_)[A-Z_]+", "Sensitive env var", 25),
        );
        exfiltration.push(
            sig("(\\.ssh|\\.aws|\\.npmrc|\\.docker|\\.kube)", "Sensitive file path", 30),
        );
        exfiltration.push(
            sig("\\bfs\\.readFile.*?(token|secret|key|password|credential)", "Reading secrets", 35),
        );
        exfiltration.push(sig("\\bos\\.(homedir|userInfo|hostname)", "System info collection", 10));

        let mut execution: Vec<Signature> = Vec::new();
        execution.push(
            sig("\\bchild_process\\.(exec|execSync|spawn|fork)", "Child process execution", 20),
        );
        execution.push(
            sig("\\brequire\\s*\\(\\s*['\"]child_process['\"]\\s*\\)", "Child process import", 15),
        );
        execution.push(sig("\\b(sh|bash|cmd|powershell|/bin/)", "Shell execution", 25));
        execution.push(sig("\\beval\\s*\\(", "eval() usage", 30));
        execution.push(sig("\\bFunction\\s*\\(", "Function constructor", 25));

        let mut filesystem: Vec<Signature> = Vec::new();
        filesystem.push(
            sig("\\bfs\\.(writeFile|appendFile|mkdir|rmdir|unlink)", "File system write", 15),
        );
        filesystem.push(sig("\\.\\./", "Directory traversal", 20));
        filesystem.push(
            sig("\\b(package\\.json|package-lock\\.json|yarn\\.lock)", "Lockfile modification", 30),
        );
        filesystem.push(sig("\\.git/", "Git directory access", 25));
        filesystem.push(sig("/etc/|/usr/|/var/|C:\\\\Windows", "System directory access", 35));

        let mut obfuscation: Vec<Signature> = Vec::new();
        obfuscation.push(sig("\\batob\\s*\\(", "Base64 decode", 20));
        obfuscation.push(sig("String\\.fromCharCode", "Character code obfuscation", 25));
        obfuscation.push(sig("\\\\x[0-9a-fA-F]{2}", "Hex encoding", 15));
        obfuscation.push(sig("\\\\u[0-9a-fA-F]{4}", "Unicode escape", 10));
        obfuscation.push(sig("\\[(0x[0-9a-fA-F]+,?\\s*){10,}\\]", "Hex array obfuscation", 30));
        obfuscation.push(sig("['\"]\\s*\\+\\s*['\"]", "String concatenation obfuscation", 5));

        let catalog = PatternCatalog { network, exfiltration, execution, filesystem, obfuscation };
        proof {
            reveal_strlit("HTTP client import");
            reveal_strlit("fetch() call");
            reveal_strlit("Hardcoded URL");
            reveal_strlit("Network API usage");
            reveal_strlit("DNS query");
            reveal_strlit("Environment variable access");
            reveal_strlit("Sensitive env var");
            reveal_strlit("Sensitive file path");
            reveal_strlit("Reading secrets");
            reveal_strlit("System info collection");
            reveal_strlit("Child process execution");
            reveal_strlit("Child process import");
            reveal_strlit("Shell execution");
            reveal_strlit("eval() usage");
            reveal_strlit("Function constructor");
            reveal_strlit("File system write");
            reveal_strlit("Directory traversal");
            reveal_strlit("Lockfile modification");
            reveal_strlit("Git directory access");
            reveal_strlit("System directory access");
            reveal_strlit("Base64 decode");
            reveal_strlit("Character code obfuscation");
            reveal_strlit("Hex encoding");
            reveal_strlit("Unicode escape");
            reveal_strlit("Hex array obfuscation");
            reveal_strlit("String concatenation obfuscation");
            assert(entries_of(ThreatCategory::NetworkActivity, catalog.network@)
                =~= standard_network_entries());
            assert(entries_of(ThreatCategory::DataExfiltration, catalog.exfiltration@)
                =~= standard_exfiltration_entries());
            assert(entries_of(ThreatCategory::ProcessExecution, catalog.execution@)
                =~= standard_execution_entries());
            assert(entries_of(ThreatCategory::FileSystemTampering, catalog.filesystem@)
                =~= standard_filesystem_entries());
            assert(entries_of(ThreatCategory::Obfuscation, catalog.obfuscation@)
                =~= standard_obfuscation_entries());
        }
        catalog
    }
}

/// The matches one catalog line contributes on `text`, each as (category,
/// label, evidence, weight).
pub open spec fn entry_matches(
    e: (ThreatCategory, Seq<char>, Seq<char>, u8),
    text: Seq<char>,
) -> Seq<(ThreatCategory, Seq<char>, Seq<char>, u8)> {
    regex_found(e.1, text).map(|i: int, ev: Seq<char>| (e.0, e.2, ev, e.3))
}

/// The matches a list of catalog lines contributes on `text`, in line
/// order and, within a line, in match order.
pub open spec fn scan_spec(
    entries: Seq<(ThreatCategory, Seq<char>, Seq<char>, u8)>,
    text: Seq<char>,
) -> Seq<(ThreatCategory, Seq<char>, Seq<char>, u8)>
    decreases entries.len(),
{
    if entries.len() == 0 {
        Seq::empty()
    } else {
        entry_matches(entries.first(), text) + scan_spec(entries.drop_first(), text)
    }
}

/// An indicator carries exactly the category, label, evidence and weight
/// of one scan match.
pub open spec fn indicator_fits(
    t: ThreatIndicator,
    m: (ThreatCategory, Seq<char>, Seq<char>, u8),
) -> bool {
    &&& indicator_category(t) == m.0
    &&& indicator_label(t) == m.1
    &&& indicator_evidence(t) == m.2
    &&& indicator_weight(t) == m.3
}

/// A detector result reports exactly a given sequence of scan matches, in
/// order.
pub open spec fn indicators_match(
    ts: Seq<ThreatIndicator>,
    ms: Seq<(ThreatCategory, Seq<char>, Seq<char>, u8)>,
) -> bool {
    &&& ts.len() == ms.len()
    &&& forall|i: int| 0 <= i < ts.len() ==> #[trigger] indicator_fits(ts[i], ms[i])
}

proof fn lemma_scan_spec_concat(
    a: Seq<(ThreatCategory, Seq<char>, Seq<char>, u8)>,
    b: Seq<(ThreatCategory, Seq<char>, Seq<char>, u8)>,
    text: Seq<char>,
)
    ensures
        scan_spec(a + b, text) == scan_spec(a, text) + scan_spec(b, text),
    decreases a.len(),
{
    if a.len() == 0 {
        assert(a + b =~= b);
        assert(scan_spec(a, text) + scan_spec(b, text) =~= scan_spec(b, text));
    } else {
        assert((a + b).first() == a.first());
        assert((a + b).drop_first() =~= a.drop_first() + b);
        lemma_scan_spec_concat(a.drop_first(), b, text);
        assert(scan_spec(a + b, text) =~= scan_spec(a, text) + scan_spec(b, text));
    }
}

proof fn lemma_indicators_match_push(
    ts: Seq<ThreatIndicator>,
    ms: Seq<(ThreatCategory, Seq<char>, Seq<char>, u8)>,
    t: ThreatIndicator,
    m: (ThreatCategory, Seq<char>, Seq<char>, u8),
)
    requires
        indicators_match(ts, ms),
        indicator_fits(t, m),
    ensures
        indicators_match(ts.push(t), ms.push(m)),
{
    assert forall|i: int| 0 <= i < ts.push(t).len() implies #[trigger] indicator_fits(
        ts.push(t)[i],
        ms.push(m)[i],
    ) by {
        if i < ts.len() {
            assert(ts.push(t)[i] == ts[i]);
            assert(ms.push(m)[i] == ms[i]);
        } else {
            assert(ts.push(t)[i] == t);
            assert(ms.push(m)[i] == m);
        }
    }
}

proof fn lemma_indicators_match_concat(
    ts1: Seq<ThreatIndicator>,
    ts2: Seq<ThreatIndicator>,
    ms1: Seq<(ThreatCategory, Seq<char>, Seq<char>, u8)>,
    ms2: Seq<(ThreatCategory, Seq<char>, Seq<char>, u8)>,
)
    requires
        indicators_match(ts1, ms1),
        indicators_match(ts2, ms2),
    ensures
        indicators_match(ts1 + ts2, ms1 + ms2),
{
    assert forall|i: int| 0 <= i < (ts1 + ts2).len() implies #[trigger] indicator_fits(
        (ts1 + ts2)[i],
        (ms1 + ms2)[i],
    ) by {
        if i < ts1.len() {
            assert((ts1 + ts2)[i] == ts1[i]);
            assert((ms1 + ms2)[i] == ms1[i]);
        } else {
            assert((ts1 + ts2)[i] == ts2[i - ts1.len()]);
            assert((ms1 + ms2)[i] == ms2[i - ms1.len()]);
        }
    }
}

/// Wraps one scan match in the indicator variant of its category.
fn make_indicator(cat: ThreatCategory, label: String, evidence: String, weight: u8) -> (t:
    ThreatIndicator)
    ensures
        indicator_category(t) == cat,
        indicator_label(t) == label@,
        indicator_evidence(t) == evidence@,
        indicator_weight(t) == weight,
{
    match cat {
        ThreatCategory::NetworkActivity => ThreatIndicator::NetworkActivity(
            NetworkPattern { pattern_type: label, evidence, risk_weight: weight },
        ),
        ThreatCategory::DataExfiltration => ThreatIndicator::DataExfiltration(
            ExfiltrationVector { target: label, evidence, risk_weight: weight },
        ),
        ThreatCategory::ProcessExecution => ThreatIndicator::ProcessExecution(
            ExecutionContext { method: label, evidence, risk_weight: weight },
        ),
        ThreatCategory::FileSystemTampering => ThreatIndicator::FileSystemTampering(
            FSOperation { operation: label, evidence, risk_weight: weight },
        ),
        ThreatCategory::Obfuscation => ThreatIndicator::Obfuscation(
            ObfuscationTechnique { technique: label, evidence, risk_weight: weight },
        ),
    }
}

/// Scans `script` with every signature of one category, in order, and
/// returns one indicator per match occurrence.
fn scan_signatures(cat: ThreatCategory, sigs: &Vec<Signature>, script: &str) -> (result: Vec<
    ThreatIndicator,
>)
    ensures
        indicators_match(result@, scan_spec(entries_of(cat, sigs@), script@)),
{
    let mut result: Vec<ThreatIndicator> = Vec::new();
    let n = sigs.len();
    let mut i: usize = 0;
    while i < n
        invariant
            i <= n,
            n == sigs@.len(),
            indicators_match(result@, scan_spec(entries_of(cat, sigs@.subrange(0, i as int)), script@)),
        decreases n - i,
    {
        let found = regex_find_all(sigs[i].pattern.as_str(), script);
        let ghost prefix = scan_spec(entries_of(cat, sigs@.subrange(0, i as int)), script@);
        let ghost line = sig_entry(cat, sigs@[i as int]);
        let ghost cur = entry_matches(line, script@);

        let m = found.len();
        let mut j: usize = 0;
        while j < m
            invariant
                j <= m,
                m == found@.len(),
                m == cur.len(),
                forall|k: int| 0 <= k < m ==> cur[k] == (line.0, line.2, found@[k]@, line.3),
                indicators_match(result@, prefix + cur.subrange(0, j as int)),
                i < n,
                n == sigs@.len(),
                line == sig_entry(cat, sigs@[i as int]),
            decreases m - j,
        {
            let evidence = found[j].clone();
            let label = sigs[i].label.clone();
            let indicator = make_indicator(cat, label, evidence, sigs[i].weight);
            proof {
                lemma_indicators_match_push(result@, prefix + cur.subrange(0, j as int), indicator, cur[j as int]);
                assert(prefix + cur.subrange(0, j + 1) =~= (prefix + cur.subrange(0, j as int)).push(cur[j as int]));
            }
            result.push(indicator);
            j = j + 1;
        }
        proof {
            assert(cur.subrange(0, m as int) =~= cur);
            assert(entries_of(cat, sigs@.subrange(0, i + 1)) =~= entries_of(
                cat,
                sigs@.subrange(0, i as int),
            ) + seq![line]);
            lemma_scan_spec_concat(entries_of(cat, sigs@.subrange(0, i as int)), seq![line], script@);
            let ghost single = seq![line];
            assert(single.first() == line);
            assert(single.drop_first() =~= Seq::<(ThreatCategory, Seq<char>, Seq<char>, u8)>::empty());
            assert(scan_spec(single.drop_first(), script@) =~= Seq::<(
                ThreatCategory,
                Seq<char>,
                Seq<char>,
                u8,
            )>::empty());
            assert(scan_spec(single, script@) =~= cur);
            assert(scan_spec(entries_of(cat, sigs@.subrange(0, i + 1)), script@) =~= prefix + cur);
        }
        i = i + 1;
    }
    proof {
        assert(sigs@.subrange(0, n as int) =~= sigs@);
    }
    result
}

/// Scans one script against a whole catalog: indicators are grouped by
/// category in catalog order, by signature within a category, and by
/// occurrence within a signature.
pub fn detect_with_catalog(catalog: &PatternCatalog, script: &str) -> (result: Vec<ThreatIndicator>)
    ensures
        indicators_match(result@, scan_spec(catalog.entries(), script@)),
{
    let ghost t = script@;
    let ghost e1 = entries_of(ThreatCategory::NetworkActivity, catalog.network@);
    let ghost e2 = entries_of(ThreatCategory::DataExfiltration, catalog.exfiltration@);
    let ghost e3 = entries_of(ThreatCategory::ProcessExecution, catalog.execution@);
    let ghost e4 = entries_of(ThreatCategory::FileSystemTampering, catalog.filesystem@);
    let ghost e5 = entries_of(ThreatCategory::Obfuscation, catalog.obfuscation@);

    let mut result = scan_signatures(ThreatCategory::NetworkActivity, &catalog.network, script);
    let mut part = scan_signatures(ThreatCategory::DataExfiltration, &catalog.exfiltration, script);
    proof {
        lemma_indicators_match_concat(result@, part@, scan_spec(e1, t), scan_spec(e2, t));
        lemma_scan_spec_concat(e1, e2, t);
    }
    result.append(&mut part);

    let mut part = scan_signatures(ThreatCategory::ProcessExecution, &catalog.execution, script);
    proof {
        lemma_indicators_match_concat(result@, part@, scan_spec(e1 + e2, t), scan_spec(e3, t));
        lemma_scan_spec_concat(e1 + e2, e3, t);
    }
    result.append(&mut part);

    let mut part = scan_signatures(
        ThreatCategory::FileSystemTampering,
        &catalog.filesystem,
        script,
    );
    proof {
        lemma_indicators_match_concat(result@, part@, scan_spec(e1 + e2 + e3, t), scan_spec(e4, t));
        lemma_scan_spec_concat(e1 + e2 + e3, e4, t);
    }
    result.append(&mut part);

    let mut part = scan_signatures(ThreatCategory::Obfuscation, &catalog.obfuscation, script);
    proof {
        lemma_indicators_match_concat(
            result@,
            part@,
            scan_spec(e1 + e2 + e3 + e4, t),
            scan_spec(e5, t),
        );
        lemma_scan_spec_concat(e1 + e2 + e3 + e4, e5, t);
    }
    result.append(&mut part);

    result
}

/// The threat detector: a pure scan of one script's text against the
/// standard catalog.
pub struct ThreatDetector;

impl ThreatDetector {
    /// Scans `script` against the standard catalog and returns one
    /// indicator per match occurrence, grouped by category in catalog
    /// order, by signature within a category, and by occurrence within a
    /// signature. A script with no matches yields the empty sequence.
    pub fn detect_threats(script: &str) -> (result: Vec<ThreatIndicator>)
        ensures
            indicators_match(result@, scan_spec(standard_catalog_spec(), script@)),
    {
        let catalog = PatternCatalog::standard();
        detect_with_catalog(&catalog, script)
    }
}

/// Detector determinism: two detector results for the same script text
/// have the same length and agree at every position in category, label,
/// evidence and weight.
pub proof fn lemma_detect_deterministic(
    a: Seq<ThreatIndicator>,
    b: Seq<ThreatIndicator>,
    script: Seq<char>,
)
    requires
        indicators_match(a, scan_spec(standard_catalog_spec(), script)),
        indicators_match(b, scan_spec(standard_catalog_spec(), script)),
    ensures
        a.len() == b.len(),
        forall|i: int|
            0 <= i < a.len() ==> #[trigger] indicator_category(a[i]) == indicator_category(b[i])
                && indicator_label(a[i]) == indicator_label(b[i]) && indicator_evidence(a[i])
                == indicator_evidence(b[i]) && indicator_weight(a[i]) == indicator_weight(b[i]),
{
    let ms = scan_spec(standard_catalog_spec(), script);
    assert forall|i: int|
        0 <= i < a.len() implies #[trigger] indicator_category(a[i]) == indicator_category(b[i])
        && indicator_label(a[i]) == indicator_label(b[i]) && indicator_evidence(a[i])
        == indicator_evidence(b[i]) && indicator_weight(a[i]) == indicator_weight(b[i]) by {
        assert(indicator_fits(a[i], ms[i]));
        assert(indicator_fits(b[i], ms[i]));
    }
}

} // verus!
