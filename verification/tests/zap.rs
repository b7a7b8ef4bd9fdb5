use watchtower::scanners::zap::{
    alerts_url, ascan_url, cwe_from_id, effective_api_key, finding_from_alert, findings_from_alerts,
    severity_from_risk, spider_url, status_url, zap_base_url, ZapAlert,
};

fn s(x: &str) -> Option<String> {
    Some(x.to_string())
}

#[test]
fn api_key_falls_back_to_changeme() {
    assert_eq!(effective_api_key(String::new()), "changeme");
    assert_eq!(effective_api_key("k3y".to_string()), "k3y");
}

#[test]
fn base_url_falls_back_to_zap_service() {
    assert_eq!(zap_base_url(None), "http://zap:8080");
    assert_eq!(zap_base_url(s("http://localhost:9090")), "http://localhost:9090");
}

#[test]
fn severity_follows_risk() {
    assert_eq!(severity_from_risk(&s("High")), "high");
    assert_eq!(severity_from_risk(&s("Medium")), "medium");
    assert_eq!(severity_from_risk(&s("Low")), "low");
    assert_eq!(severity_from_risk(&s("Informational")), "info");
    assert_eq!(severity_from_risk(&s("high")), "info");
    assert_eq!(severity_from_risk(&None), "info");
}

#[test]
fn cwe_is_prefixed_and_filtered() {
    assert_eq!(cwe_from_id(&s("79")), s("CWE-79"));
    assert_eq!(cwe_from_id(&s("-1")), None);
    assert_eq!(cwe_from_id(&s("")), None);
    assert_eq!(cwe_from_id(&None), None);
    assert_eq!(cwe_from_id(&s("-12")), s("CWE--12"));
}

#[test]
fn alert_becomes_finding() {
    let alert = ZapAlert {
        risk: s("Medium"),
        cweid: s("693"),
        alert: s("Content Security Policy (CSP) Header Not Set"),
        description: s("CSP is an added layer of security"),
        url: s("https://example.com/"),
        solution: s("Set the header"),
    };
    let f = finding_from_alert(&alert);
    assert_eq!(f.tool, "zap");
    assert_eq!(f.severity, "medium");
    assert_eq!(f.title, "Content Security Policy (CSP) Header Not Set");
    assert_eq!(f.description, s("CSP is an added layer of security"));
    assert_eq!(f.file_path, s("https://example.com/"));
    assert_eq!(f.line_number, None);
    assert_eq!(f.cwe_id, s("CWE-693"));
    assert_eq!(f.recommendation, s("Set the header"));
    assert_eq!(f.issue_type, None);
}

#[test]
fn bare_alert_gets_defaults() {
    let alert = ZapAlert { risk: None, cweid: s("-1"), alert: None, description: None, url: None, solution: None };
    let f = finding_from_alert(&alert);
    assert_eq!(f.severity, "info");
    assert_eq!(f.title, "ZAP Alert");
    assert_eq!(f.cwe_id, None);
    assert_eq!(f.file_path, None);
}

#[test]
fn findings_keep_alert_order() {
    let alerts = vec![
        ZapAlert { risk: s("High"), cweid: None, alert: s("A"), description: None, url: None, solution: None },
        ZapAlert { risk: s("Low"), cweid: None, alert: s("B"), description: None, url: None, solution: None },
    ];
    let fs = findings_from_alerts(&alerts);
    assert_eq!(fs.len(), 2);
    assert_eq!((fs[0].title.as_str(), fs[0].severity.as_str()), ("A", "high"));
    assert_eq!((fs[1].title.as_str(), fs[1].severity.as_str()), ("B", "low"));
    assert!(findings_from_alerts(&Vec::new()).is_empty());
}

#[test]
fn request_urls() {
    assert_eq!(
        spider_url("http://zap:8080", "changeme", "https://t.test"),
        "http://zap:8080/JSON/spider/action/scan/?apikey=changeme&url=https://t.test&maxChildren=10&recurse=true"
    );
    assert_eq!(
        ascan_url("http://zap:8080", "k", "https://t.test"),
        "http://zap:8080/JSON/ascan/action/scan/?apikey=k&url=https://t.test&recurse=true"
    );
    assert_eq!(
        alerts_url("http://zap:8080", "k", "https://t.test"),
        "http://zap:8080/JSON/alert/view/alerts/?apikey=k&baseurl=https://t.test&start=0&count=500"
    );
    assert_eq!(
        status_url("http://zap:8080", "spider", "k", "3"),
        "http://zap:8080/JSON/spider/view/status/?apikey=k&scanId=3"
    );
}
