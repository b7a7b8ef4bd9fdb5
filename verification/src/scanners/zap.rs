//! What the ZAP scanner decides on its own: which API key and base URL to
//! use, the URLs of its requests, and how a ZAP alert becomes a finding.
use vstd::prelude::*;

use crate::text::str_eq;

verus! {

/// Seconds between two status polls of a spider run.
pub const SPIDER_POLL_SECS: u64 = 2;

/// Seconds between two status polls of an active scan.
pub const ASCAN_POLL_SECS: u64 = 3;

/// Ceiling on status polls of a spider run (about five minutes).
pub const SPIDER_MAX_POLLS: u32 = 150;

/// Ceiling on status polls of an active scan (about twenty minutes).
pub const ASCAN_MAX_POLLS: u32 = 400;

/// One alert as ZAP reports it: each field is the alert's JSON member of that
/// name when it is a string, and `None` otherwise.
pub struct ZapAlert {
    pub risk: Option<String>,
    pub cweid: Option<String>,
    pub alert: Option<String>,
    pub description: Option<String>,
    pub url: Option<String>,
    pub solution: Option<String>,
}

/// The JSON members of a ZAP reply that the scanner reads.
pub struct ZapBody {
    /// `body["scan"]` when it is a string: the id of a started run.
    pub scan: Option<String>,
    /// `body["status"]` when it is a string: a run's progress in percent.
    pub status: Option<String>,
    /// `body["alerts"]` when it is an array: the alerts raised.
    pub alerts: Option<Vec<ZapAlert>>,
    /// The whole body, written back as compact JSON.
    pub text: String,
}

/// How one request to ZAP ended.
pub enum ZapReply {
    /// The request itself failed; the error as text.
    RequestFailed(String),
    /// The response was not JSON; the decoding error as text.
    Unparseable(String),
    /// The response was JSON.
    Parsed(ZapBody),
}

/// A finding reported by a scanner tool.
pub struct ToolFinding {
    pub tool: String,
    pub severity: String,
    pub title: String,
    pub description: Option<String>,
    pub file_path: Option<String>,
    pub line_number: Option<i64>,
    pub cwe_id: Option<String>,
    pub recommendation: Option<String>,
    pub issue_type: Option<String>,
}

pub open spec fn opt_str(o: Option<String>) -> Option<Seq<char>> {
    match o {
        Some(s) => Some(s@),
        None => None,
    }
}

/// The API key a scan uses: the stored setting, or `changeme` when it is empty.
pub open spec fn api_key_for(stored: Seq<char>) -> Seq<char> {
    if stored.len() == 0 {
        "changeme"@
    } else {
        stored
    }
}

/// The ZAP base URL: the `ZAP_URL` environment value, or `http://zap:8080`.
pub open spec fn base_url_for(env: Option<Seq<char>>) -> Seq<char> {
    match env {
        Some(u) => u,
        None => "http://zap:8080"@,
    }
}

/// Severity of a finding from ZAP's risk word (a missing risk counts as
/// informational).
pub open spec fn zap_severity(risk: Option<Seq<char>>) -> Seq<char> {
    match risk {
        Some(r) => if r == "High"@ {
            "high"@
        } else if r == "Medium"@ {
            "medium"@
        } else if r == "Low"@ {
            "low"@
        } else {
            "info"@
        },
        None => "info"@,
    }
}

/// The CWE id of a finding: `CWE-<id>` when ZAP gives a non-empty id other
/// than `-1`.
pub open spec fn zap_cwe(cweid: Option<Seq<char>>) -> Option<Seq<char>> {
    match cweid {
        Some(c) => if c.len() > 0 && c != "-1"@ {
            Some("CWE-"@ + c)
        } else {
            None
        },
        None => None,
    }
}

/// The title of a finding: the alert's name, or `ZAP Alert`.
pub open spec fn zap_title(alert: Option<Seq<char>>) -> Seq<char> {
    match alert {
        Some(t) => t,
        None => "ZAP Alert"@,
    }
}

/// `f` is the finding that the alert `a` gives.
pub open spec fn is_finding_of(f: ToolFinding, a: ZapAlert) -> bool {
    &&& f.tool@ == "zap"@
    &&& f.severity@ == zap_severity(opt_str(a.risk))
    &&& f.title@ == zap_title(opt_str(a.alert))
    &&& opt_str(f.description) == opt_str(a.description)
    &&& opt_str(f.file_path) == opt_str(a.url)
    &&& f.line_number is None
    &&& opt_str(f.cwe_id) == zap_cwe(opt_str(a.cweid))
    &&& opt_str(f.recommendation) == opt_str(a.solution)
    &&& f.issue_type is None
}

/// `findings` are the findings of `alerts`, one each, in order.
pub open spec fn findings_of(findings: Seq<ToolFinding>, alerts: Seq<ZapAlert>) -> bool {
    &&& findings.len() == alerts.len()
    &&& forall|i: int| 0 <= i < alerts.len() ==> is_finding_of(#[trigger] findings[i], alerts[i])
}

pub open spec fn spider_url_for(zap_url: Seq<char>, api_key: Seq<char>, target: Seq<char>) -> Seq<char> {
    zap_url + "/JSON/spider/action/scan/?apikey="@ + api_key + "&url="@ + target
        + "&maxChildren=10&recurse=true"@
}

pub open spec fn ascan_url_for(zap_url: Seq<char>, api_key: Seq<char>, target: Seq<char>) -> Seq<char> {
    zap_url + "/JSON/ascan/action/scan/?apikey="@ + api_key + "&url="@ + target
        + "&recurse=true"@
}

pub open spec fn alerts_url_for(zap_url: Seq<char>, api_key: Seq<char>, target: Seq<char>) -> Seq<char> {
    zap_url + "/JSON/alert/view/alerts/?apikey="@ + api_key + "&baseurl="@ + target
        + "&start=0&count=500"@
}

pub open spec fn status_url_for(
    zap_url: Seq<char>,
    module: Seq<char>,
    api_key: Seq<char>,
    scan_id: Seq<char>,
) -> Seq<char> {
    zap_url + "/JSON/"@ + module + "/view/status/?apikey="@ + api_key + "&scanId="@ + scan_id
}

fn clone_opt_string(o: &Option<String>) -> (r: Option<String>)
    ensures
        opt_str(r) == opt_str(*o),
{
    match o {
        Some(s) => Some(s.clone()),
        None => None,
    }
}

/// The API key to send to ZAP, from the stored `zap_api_key` setting.
pub fn effective_api_key(stored: String) -> (key: String)
    ensures
        key@ == api_key_for(stored@),
{
    if stored.as_str().is_empty() {
        "changeme".to_owned()
    } else {
        stored
    }
}

/// The ZAP base URL, from the `ZAP_URL` environment variable (`None` when it
/// is unset or not Unicode).
pub fn zap_base_url(env: Option<String>) -> (url: String)
    ensures
        url@ == base_url_for(opt_str(env)),
{
    match env {
        Some(u) => u,
        None => "http://zap:8080".to_owned(),
    }
}

/// The finding's severity from ZAP's risk word.
pub fn severity_from_risk(risk: &Option<String>) -> (severity: String)
    ensures
        severity@ == zap_severity(opt_str(*risk)),
        (severity@ == "high"@) == (opt_str(*risk) == Some("High"@)),
        (severity@ == "medium"@) == (opt_str(*risk) == Some("Medium"@)),
        (severity@ == "low"@) == (opt_str(*risk) == Some("Low"@)),
        (severity@ == "info"@) == !(opt_str(*risk) == Some("High"@) || opt_str(*risk) == Some("Medium"@)
            || opt_str(*risk) == Some("Low"@)),
{
    proof {
        lemma_severity_words_distinct();
    }
    match risk {
        Some(r) => {
            if str_eq(r.as_str(), "High") {
                "high".to_owned()
            } else if str_eq(r.as_str(), "Medium") {
                "medium".to_owned()
            } else if str_eq(r.as_str(), "Low") {
                "low".to_owned()
            } else {
                "info".to_owned()
            }
        },
        None => "info".to_owned(),
    }
}

/// The finding's CWE id from ZAP's `cweid`.
pub fn cwe_from_id(cweid: &Option<String>) -> (cwe: Option<String>)
    ensures
        opt_str(cwe) == zap_cwe(opt_str(*cweid)),
        match *cweid {
            Some(c) => if c@.len() > 0 && c@ != "-1"@ {
                opt_str(cwe) == Some("CWE-"@ + c@)
            } else {
                cwe is None
            },
            None => cwe is None,
        },
{
    match cweid {
        Some(c) => {
            if !c.as_str().is_empty() && !str_eq(c.as_str(), "-1") {
                let mut s = "CWE-".to_owned();
                s.append(c.as_str());
                Some(s)
            } else {
                None
            }
        },
        None => None,
    }
}

/// The finding that one ZAP alert gives.
pub fn finding_from_alert(alert: &ZapAlert) -> (finding: ToolFinding)
    ensures
        is_finding_of(finding, *alert),
{
    let title = match &alert.alert {
        Some(t) => t.clone(),
        None => "ZAP Alert".to_owned(),
    };
    ToolFinding {
        tool: "zap".to_owned(),
        severity: severity_from_risk(&alert.risk),
        title,
        description: clone_opt_string(&alert.description),
        file_path: clone_opt_string(&alert.url),
        line_number: None,
        cwe_id: cwe_from_id(&alert.cweid),
        recommendation: clone_opt_string(&alert.solution),
        issue_type: None,
    }
}

/// The findings of a list of alerts, one each, in order.
pub fn findings_from_alerts(alerts: &Vec<ZapAlert>) -> (findings: Vec<ToolFinding>)
    ensures
        findings_of(findings@, alerts@),
{
    let mut findings: Vec<ToolFinding> = Vec::new();
    let mut i: usize = 0;
    while i < alerts.len()
        invariant
            i <= alerts.len(),
            findings.len() == i,
            forall|j: int| 0 <= j < i ==> is_finding_of(#[trigger] findings@[j], alerts@[j]),
        decreases alerts.len() - i,
    {
        findings.push(finding_from_alert(&alerts[i]));
        i = i + 1;
    }
    findings
}

/// URL that starts a spider run on `target`.
pub fn spider_url(zap_url: &str, api_key: &str, target: &str) -> (url: String)
    ensures
        url@ == spider_url_for(zap_url@, api_key@, target@),
{
    let mut url = zap_url.to_owned();
    url.append("/JSON/spider/action/scan/?apikey=");
    url.append(api_key);
    url.append("&url=");
    url.append(target);
    url.append("&maxChildren=10&recurse=true");
    url
}

/// URL that starts an active scan on `target`.
pub fn ascan_url(zap_url: &str, api_key: &str, target: &str) -> (url: String)
    ensures
        url@ == ascan_url_for(zap_url@, api_key@, target@),
{
    let mut url = zap_url.to_owned();
    url.append("/JSON/ascan/action/scan/?apikey=");
    url.append(api_key);
    url.append("&url=");
    url.append(target);
    url.append("&recurse=true");
    url
}

/// URL that lists the alerts raised for `target`.
pub fn alerts_url(zap_url: &str, api_key: &str, target: &str) -> (url: String)
    ensures
        url@ == alerts_url_for(zap_url@, api_key@, target@),
{
    let mut url = zap_url.to_owned();
    url.append("/JSON/alert/view/alerts/?apikey=");
    url.append(api_key);
    url.append("&baseurl=");
    url.append(target);
    url.append("&start=0&count=500");
    url
}

/// URL of the progress of run `scan_id` of ZAP module `module`.
pub fn status_url(zap_url: &str, module: &str, api_key: &str, scan_id: &str) -> (url: String)
    ensures
        url@ == status_url_for(zap_url@, module@, api_key@, scan_id@),
{
    let mut url = zap_url.to_owned();
    url.append("/JSON/");
    url.append(module);
    url.append("/view/status/?apikey=");
    url.append(api_key);
    url.append("&scanId=");
    url.append(scan_id);
    url
}

/// Every ZAP finding has one of the four severities `high`, `medium`, `low`,
/// `info`, and a CWE id, when present, of the form `CWE-<id>` with a
/// non-empty id other than `-1`.
pub proof fn lemma_finding_fields_well_formed(risk: Option<Seq<char>>, cweid: Option<Seq<char>>)
    ensures
        zap_severity(risk) == "high"@ || zap_severity(risk) == "medium"@ || zap_severity(risk) == "low"@
            || zap_severity(risk) == "info"@,
        zap_cwe(cweid) matches Some(c) ==> (cweid matches Some(id) && id.len() > 0 && id != "-1"@
            && c == "CWE-"@ + id),
{
}

/// Every id ZAP gives that is non-empty and not `-1` is kept, as
/// `CWE-<id>`; the finding has no CWE id otherwise.
pub proof fn lemma_cwe_kept_when_given(cweid: Option<Seq<char>>)
    ensures
        match cweid {
            Some(id) => if id.len() > 0 && id != "-1"@ {
                zap_cwe(cweid) == Some("CWE-"@ + id)
            } else {
                zap_cwe(cweid) is None
            },
            None => zap_cwe(cweid) is None,
        },
{
}

/// The severity is `high`, `medium` or `low` exactly for ZAP's risk words
/// `High`, `Medium` and `Low`, and `info` for every other risk or none.
pub proof fn lemma_severity_by_risk(risk: Option<Seq<char>>)
    ensures
        (zap_severity(risk) == "high"@) == (risk == Some("High"@)),
        (zap_severity(risk) == "medium"@) == (risk == Some("Medium"@)),
        (zap_severity(risk) == "low"@) == (risk == Some("Low"@)),
        (zap_severity(risk) == "info"@) == !(risk == Some("High"@) || risk == Some("Medium"@) || risk == Some(
            "Low"@,
        )),
{
    lemma_severity_words_distinct();
}

/// The four severity words are different from one another.
pub proof fn lemma_severity_words_distinct()
    ensures
        "high"@ != "medium"@,
        "high"@ != "low"@,
        "high"@ != "info"@,
        "medium"@ != "low"@,
        "medium"@ != "info"@,
        "low"@ != "info"@,
        "High"@ != "Medium"@,
        "High"@ != "Low"@,
        "Medium"@ != "Low"@,
{
    reveal_strlit("high");
    reveal_strlit("medium");
    reveal_strlit("low");
    reveal_strlit("info");
    assert("high"@.len() != "medium"@.len());
    assert("high"@.len() != "low"@.len());
    assert("high"@[0] != "info"@[0]);
    assert("medium"@.len() != "low"@.len());
    assert("medium"@.len() != "info"@.len());
    assert("low"@.len() != "info"@.len());
    reveal_strlit("High");
    reveal_strlit("Medium");
    reveal_strlit("Low");
    assert("High"@.len() != "Medium"@.len());
    assert("High"@.len() != "Low"@.len());
    assert("Medium"@.len() != "Low"@.len());
}

/// Each finding takes its fields from its own alert: tool `zap`, the
/// alert's name as title (`ZAP Alert` when unnamed), its description, its
/// URL as location, its solution as recommendation, no line or issue type;
/// and a list of findings follows its alerts one for one, in order.
pub proof fn lemma_finding_fields_from_alert(fs: Seq<ToolFinding>, alerts: Seq<ZapAlert>, i: int)
    requires
        findings_of(fs, alerts),
        0 <= i < alerts.len(),
    ensures
        fs.len() == alerts.len(),
        fs[i].tool@ == "zap"@,
        fs[i].title@ == (match alerts[i].alert {
            Some(t) => t@,
            None => "ZAP Alert"@,
        }),
        opt_str(fs[i].description) == opt_str(alerts[i].description),
        opt_str(fs[i].file_path) == opt_str(alerts[i].url),
        opt_str(fs[i].recommendation) == opt_str(alerts[i].solution),
        fs[i].line_number is None,
        fs[i].issue_type is None,
        fs[i].severity@ == zap_severity(opt_str(alerts[i].risk)),
        opt_str(fs[i].cwe_id) == zap_cwe(opt_str(alerts[i].cweid)),
{
    assert(is_finding_of(fs[i], alerts[i]));
}

/// The API key is the stored one unless that is empty, then `changeme`; the
/// base URL is `ZAP_URL` when set, else `http://zap:8080`.
pub proof fn lemma_key_and_base_url(stored: Seq<char>, env: Option<Seq<char>>)
    ensures
        stored.len() > 0 ==> api_key_for(stored) == stored,
        stored.len() == 0 ==> api_key_for(stored) == "changeme"@,
        match env {
            Some(u) => base_url_for(env) == u,
            None => base_url_for(env) == "http://zap:8080"@,
        },
{
}

/// The request URLs, spelled out: ZAP's JSON API under the base URL, with
/// the API key, and the target (or run id) as the last variable part.
pub proof fn lemma_request_urls(zap_url: Seq<char>, api_key: Seq<char>, target: Seq<char>, module: Seq<char>, id: Seq<char>)
    ensures
        spider_url_for(zap_url, api_key, target) == zap_url + "/JSON/spider/action/scan/?apikey="@ + api_key
            + "&url="@ + target + "&maxChildren=10&recurse=true"@,
        ascan_url_for(zap_url, api_key, target) == zap_url + "/JSON/ascan/action/scan/?apikey="@ + api_key
            + "&url="@ + target + "&recurse=true"@,
        alerts_url_for(zap_url, api_key, target) == zap_url + "/JSON/alert/view/alerts/?apikey="@ + api_key
            + "&baseurl="@ + target + "&start=0&count=500"@,
        status_url_for(zap_url, module, api_key, id) == zap_url + "/JSON/"@ + module + "/view/status/?apikey="@
            + api_key + "&scanId="@ + id,
{
}

} // verus!
