use watchtower::scanners::progress::{ProgressWait, WaitStep};
use watchtower::scanners::scan::{LogLevel, ZapEvent, ZapNext, ZapScan, ZapStep};
use watchtower::scanners::zap::{ZapAlert, ZapBody, ZapReply};

fn body(scan: Option<&str>, status: Option<&str>, alerts: Option<Vec<ZapAlert>>, text: &str) -> ZapReply {
    ZapReply::Parsed(ZapBody {
        scan: scan.map(|s| s.to_string()),
        status: status.map(|s| s.to_string()),
        alerts,
        text: text.to_string(),
    })
}

fn status(s: &str) -> ZapReply {
    body(None, Some(s), None, &format!("{{\"status\":\"{}\"}}", s))
}

fn logs(step: &ZapStep) -> Vec<(LogLevel, String)> {
    step.logs.iter().map(|l| (l.level, l.message.clone())).collect()
}

fn get_url(step: &ZapStep) -> String {
    match &step.next {
        ZapNext::Get(u) => u.clone(),
        _ => panic!("expected a request"),
    }
}

#[test]
fn wait_stops_when_complete() {
    let mut w = ProgressWait::new("spider", "4", 2, 150);
    match w.on_reply(&status("100")) {
        WaitStep::Done(None) => {}
        _ => panic!("a finished run ends the wait silently"),
    }
}

#[test]
fn wait_sleeps_then_gives_up_at_ceiling() {
    let mut w = ProgressWait::new("ascan", "9", 3, 3);
    assert!(matches!(w.on_reply(&status("10")), WaitStep::Sleep(3)));
    assert!(matches!(w.on_reply(&status("20")), WaitStep::Sleep(3)));
    match w.on_reply(&status("30")) {
        WaitStep::Done(Some(m)) => assert_eq!(
            m,
            "ZAP ascan did not finish within the time budget — moving on with partial results"
        ),
        _ => panic!("the third poll is the last"),
    }
}

#[test]
fn wait_with_zero_ceiling_polls_once() {
    let mut w = ProgressWait::new("spider", "1", 2, 0);
    assert!(matches!(w.on_reply(&status("5")), WaitStep::Done(Some(_))));
}

#[test]
fn wait_ends_on_errors_with_warnings() {
    let mut w = ProgressWait::new("spider", "1", 2, 150);
    match w.on_reply(&ZapReply::RequestFailed("connection refused".to_string())) {
        WaitStep::Done(Some(m)) => {
            assert_eq!(m, "ZAP spider status request failed (connection refused) — treating as finished")
        }
        _ => panic!(),
    }
    match w.on_reply(&ZapReply::Unparseable("expected value".to_string())) {
        WaitStep::Done(Some(m)) => {
            assert_eq!(m, "ZAP spider status response unparseable (expected value) — treating as finished")
        }
        _ => panic!(),
    }
    match w.on_reply(&body(None, None, None, "{\"code\":\"bad_scan_id\"}")) {
        WaitStep::Done(Some(m)) => assert_eq!(
            m,
            "ZAP spider status came back without a progress field ({\"code\":\"bad_scan_id\"}) — treating as finished"
        ),
        _ => panic!(),
    }
}

#[test]
fn wait_url() {
    let w = ProgressWait::new("ascan", "12", 3, 400);
    assert_eq!(w.status_url("http://z", "k"), "http://z/JSON/ascan/view/status/?apikey=k&scanId=12");
}

#[test]
fn scan_happy_path() {
    let (mut scan, step) = ZapScan::start("https://t.test", String::new(), None);
    assert_eq!(logs(&step), vec![(LogLevel::Info, "Starting ZAP spider on https://t.test".to_string())]);
    assert_eq!(
        get_url(&step),
        "http://zap:8080/JSON/spider/action/scan/?apikey=changeme&url=https://t.test&maxChildren=10&recurse=true"
    );

    let step = scan.step(ZapEvent::Reply(body(Some("0"), None, None, "{\"scan\":\"0\"}")));
    assert!(step.logs.is_empty());
    assert_eq!(get_url(&step), "http://zap:8080/JSON/spider/view/status/?apikey=changeme&scanId=0");

    let step = scan.step(ZapEvent::Reply(status("40")));
    assert!(matches!(step.next, ZapNext::Sleep(2)));
    assert!(scan.accepts(&ZapEvent::Slept));
    assert!(!scan.accepts(&ZapEvent::Reply(status("40"))));

    let step = scan.step(ZapEvent::Slept);
    assert_eq!(get_url(&step), "http://zap:8080/JSON/spider/view/status/?apikey=changeme&scanId=0");

    let step = scan.step(ZapEvent::Reply(status("100")));
    assert_eq!(logs(&step), vec![(LogLevel::Info, "Spider complete, starting active scan".to_string())]);
    assert_eq!(
        get_url(&step),
        "http://zap:8080/JSON/ascan/action/scan/?apikey=changeme&url=https://t.test&recurse=true"
    );

    let step = scan.step(ZapEvent::Reply(body(Some("7"), None, None, "{\"scan\":\"7\"}")));
    assert_eq!(get_url(&step), "http://zap:8080/JSON/ascan/view/status/?apikey=changeme&scanId=7");

    let step = scan.step(ZapEvent::Reply(status("100")));
    assert!(step.logs.is_empty());
    assert_eq!(
        get_url(&step),
        "http://zap:8080/JSON/alert/view/alerts/?apikey=changeme&baseurl=https://t.test&start=0&count=500"
    );

    let alerts = vec![ZapAlert {
        risk: Some("High".to_string()),
        cweid: Some("89".to_string()),
        alert: Some("SQL Injection".to_string()),
        description: None,
        url: Some("https://t.test/login".to_string()),
        solution: None,
    }];
    let step = scan.step(ZapEvent::Reply(body(None, None, Some(alerts), "{}")));
    assert!(scan.is_finished());
    match step.next {
        ZapNext::Finish(fs) => {
            assert_eq!(fs.len(), 1);
            assert_eq!(fs[0].severity, "high");
            assert_eq!(fs[0].cwe_id.as_deref(), Some("CWE-89"));
            assert_eq!(fs[0].file_path.as_deref(), Some("https://t.test/login"));
        }
        _ => panic!("the alerts end the scan"),
    }
}

#[test]
fn spider_failure_returns_no_findings() {
    let (mut scan, _) = ZapScan::start("t", "key".to_string(), Some("http://z".to_string()));
    let step = scan.step(ZapEvent::Reply(ZapReply::RequestFailed("dns error".to_string())));
    assert_eq!(logs(&step), vec![(LogLevel::Error, "ZAP spider failed: dns error".to_string())]);
    assert!(matches!(step.next, ZapNext::Finish(ref fs) if fs.is_empty()));
    assert!(scan.is_finished());
}

#[test]
fn missing_ids_skip_to_results() {
    let (mut scan, _) = ZapScan::start("t", "key".to_string(), Some("http://z".to_string()));
    let step = scan.step(ZapEvent::Reply(ZapReply::Unparseable("eof".to_string())));
    assert_eq!(
        logs(&step),
        vec![
            (LogLevel::Error, "ZAP spider returned an unparseable response: eof".to_string()),
            (
                LogLevel::Warn,
                "ZAP did not return a spider scan ID — nothing to crawl, skipping to active scan".to_string()
            ),
            (LogLevel::Info, "Spider complete, starting active scan".to_string()),
        ]
    );
    assert_eq!(get_url(&step), "http://z/JSON/ascan/action/scan/?apikey=key&url=t&recurse=true");
    let step = scan.step(ZapEvent::Reply(ZapReply::RequestFailed("timeout".to_string())));
    assert_eq!(
        logs(&step),
        vec![
            (LogLevel::Warn, "ZAP active scan request failed: timeout".to_string()),
            (
                LogLevel::Warn,
                "ZAP did not start an active scan (nothing crawlable/parameterized found) — skipping to results"
                    .to_string()
            ),
        ]
    );
    let step = scan.step(ZapEvent::Reply(ZapReply::Unparseable("bad json".to_string())));
    assert_eq!(logs(&step), vec![(LogLevel::Warn, "Failed to parse ZAP alerts: bad json".to_string())]);
    assert!(matches!(step.next, ZapNext::Finish(ref fs) if fs.is_empty()));
}

#[test]
fn scan_never_hangs() {
    // ZAP answers every status poll with 1%: the scan still ends, within its budget.
    let (mut scan, mut step) = ZapScan::start("t", String::new(), None);
    let mut steps = 0;
    loop {
        let ev = match &step.next {
            ZapNext::Finish(_) => break,
            ZapNext::Sleep(_) => ZapEvent::Slept,
            ZapNext::Get(url) if url.contains("/action/scan/") => {
                ZapEvent::Reply(body(Some("1"), None, None, "{\"scan\":\"1\"}"))
            }
            ZapNext::Get(url) if url.contains("/view/status/") => ZapEvent::Reply(status("1")),
            ZapNext::Get(_) => ZapEvent::Reply(body(None, None, None, "{}")),
        };
        assert!(scan.accepts(&ev));
        step = scan.step(ev);
        steps += 1;
    }
    assert!(steps <= 1105);
    assert!(scan.is_finished());
    assert_eq!(LogLevel::Warn.name(), "warn");
}
