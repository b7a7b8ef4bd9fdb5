//! A ZAP scan of one target, as a state machine. The caller performs what a
//! step asks for (write its log lines, fetch a URL, sleep) and hands back
//! what happened; the machine decides what comes next. A scan crawls the
//! target with the spider, then runs an active scan, then turns ZAP's alerts
//! into findings. Spider and active scan are waited for with bounded polls.
use vstd::prelude::*;

use crate::scanners::progress::{ProgressWait, WaitModel, WaitOutcome, WaitStep, wait_after, wait_outcome};
use crate::scanners::zap::{
    alerts_url, alerts_url_for, ascan_url, ascan_url_for, effective_api_key, api_key_for,
    findings_from_alerts, findings_of, is_finding_of, spider_url, spider_url_for, status_url_for, zap_base_url,
    base_url_for, opt_str, ToolFinding, ZapAlert, ZapReply, ASCAN_MAX_POLLS, ASCAN_POLL_SECS,
    SPIDER_MAX_POLLS, SPIDER_POLL_SECS,
};

verus! {

/// Level of a scan log line.
#[derive(Clone, Copy, Debug, PartialEq, Eq, Structural)]
pub enum LogLevel {
    Info,
    Warn,
    Error,
}

impl LogLevel {
    /// The level as the scan log stores it.
    pub fn name(&self) -> (name: &'static str)
        ensures
            name@ == (match *self {
                LogLevel::Info => "info"@,
                LogLevel::Warn => "warn"@,
                LogLevel::Error => "error"@,
            }),
    {
        match self {
            LogLevel::Info => "info",
            LogLevel::Warn => "warn",
            LogLevel::Error => "error",
        }
    }
}

/// A line for the scan log, attributed to the `zap` tool.
pub struct LogLine {
    pub level: LogLevel,
    pub message: String,
}

/// The outside work a step asks for.
pub enum ZapNext {
    /// Fetch this URL from ZAP and hand back the reply.
    Get(String),
    /// Sleep this many seconds, then hand back `Slept`.
    Sleep(u64),
    /// The scan is over; these are its findings.
    Finish(Vec<ToolFinding>),
}

/// One step of a scan: log these lines, in order, then do `next`.
pub struct ZapStep {
    pub logs: Vec<LogLine>,
    pub next: ZapNext,
}

/// What happened to the work that the last step asked for.
pub enum ZapEvent {
    Reply(ZapReply),
    Slept,
}

pub enum StageModel {
    SpiderStart,
    SpiderWait(WaitModel),
    AscanStart,
    AscanWait(WaitModel),
    Alerts,
    Finished,
}

/// A scan as plain values.
pub struct ScanModel {
    pub target: Seq<char>,
    pub api_key: Seq<char>,
    pub zap_url: Seq<char>,
    pub stage: StageModel,
    /// Waiting for the end of a sleep between two status polls.
    pub sleeping: bool,
}

pub enum NextModel {
    Get(Seq<char>),
    Sleep(u64),
    /// Finish with the findings of these alerts.
    Finish(Seq<ZapAlert>),
}

pub struct StepModel {
    pub logs: Seq<(LogLevel, Seq<char>)>,
    pub next: NextModel,
}

pub open spec fn log_view(l: LogLine) -> (LogLevel, Seq<char>) {
    (l.level, l.message@)
}

pub open spec fn logs_view(logs: Seq<LogLine>) -> Seq<(LogLevel, Seq<char>)> {
    logs.map_values(|l: LogLine| log_view(l))
}

/// `step` is the step that `m` describes.
pub open spec fn step_matches(step: ZapStep, m: StepModel) -> bool {
    &&& logs_view(step.logs@) == m.logs
    &&& match (step.next, m.next) {
        (ZapNext::Get(u), NextModel::Get(v)) => u@ == v,
        (ZapNext::Sleep(a), NextModel::Sleep(b)) => a == b,
        (ZapNext::Finish(fs), NextModel::Finish(alerts)) => findings_of(fs@, alerts),
        _ => false,
    }
}

pub open spec fn no_spider_id_warning() -> Seq<char> {
    "ZAP did not return a spider scan ID — nothing to crawl, skipping to active scan"@
}

pub open spec fn spider_complete_note() -> Seq<char> {
    "Spider complete, starting active scan"@
}

pub open spec fn no_ascan_warning() -> Seq<char> {
    "ZAP did not start an active scan (nothing crawlable/parameterized found) — skipping to results"@
}

pub open spec fn warn_opt(msg: Option<Seq<char>>) -> Seq<(LogLevel, Seq<char>)> {
    match msg {
        Some(m) => seq![(LogLevel::Warn, m)],
        None => Seq::empty(),
    }
}

pub open spec fn spider_wait_for(id: Seq<char>) -> WaitModel {
    WaitModel {
        module: "spider"@,
        scan_id: id,
        poll_secs: SPIDER_POLL_SECS,
        max_polls: SPIDER_MAX_POLLS,
        polls: 0,
    }
}

pub open spec fn ascan_wait_for(id: Seq<char>) -> WaitModel {
    WaitModel {
        module: "ascan"@,
        scan_id: id,
        poll_secs: ASCAN_POLL_SECS,
        max_polls: ASCAN_MAX_POLLS,
        polls: 0,
    }
}

/// The scan a call of `start` begins, and its first step.
pub open spec fn scan_start(target: Seq<char>, stored_key: Seq<char>, zap_url_env: Option<Seq<char>>) -> (ScanModel, StepModel) {
    let m = ScanModel {
        target,
        api_key: api_key_for(stored_key),
        zap_url: base_url_for(zap_url_env),
        stage: StageModel::SpiderStart,
        sleeping: false,
    };
    (m, StepModel {
        logs: seq![(LogLevel::Info, "Starting ZAP spider on "@ + target)],
        next: NextModel::Get(spider_url_for(m.zap_url, m.api_key, target)),
    })
}

pub open spec fn to_ascan(m: ScanModel, logs: Seq<(LogLevel, Seq<char>)>) -> (ScanModel, StepModel) {
    (ScanModel { stage: StageModel::AscanStart, sleeping: false, ..m }, StepModel {
        logs,
        next: NextModel::Get(ascan_url_for(m.zap_url, m.api_key, m.target)),
    })
}

pub open spec fn to_alerts(m: ScanModel, logs: Seq<(LogLevel, Seq<char>)>) -> (ScanModel, StepModel) {
    (ScanModel { stage: StageModel::Alerts, sleeping: false, ..m }, StepModel {
        logs,
        next: NextModel::Get(alerts_url_for(m.zap_url, m.api_key, m.target)),
    })
}

pub open spec fn to_finish(m: ScanModel, logs: Seq<(LogLevel, Seq<char>)>, alerts: Seq<ZapAlert>) -> (ScanModel, StepModel) {
    (ScanModel { stage: StageModel::Finished, sleeping: false, ..m }, StepModel {
        logs,
        next: NextModel::Finish(alerts),
    })
}

pub open spec fn to_wait(m: ScanModel, spider: bool, w: WaitModel) -> (ScanModel, StepModel) {
    (ScanModel {
        stage: if spider { StageModel::SpiderWait(w) } else { StageModel::AscanWait(w) },
        sleeping: false,
        ..m
    }, StepModel {
        logs: Seq::empty(),
        next: NextModel::Get(status_url_for(m.zap_url, w.module, m.api_key, w.scan_id)),
    })
}

/// A status reply during a wait: sleep and poll again, or leave the wait
/// (after the spider: to the active scan; after the active scan: to the
/// alerts).
pub open spec fn on_status(m: ScanModel, spider: bool, w: WaitModel, r: ZapReply) -> (ScanModel, StepModel) {
    match wait_outcome(w, r) {
        WaitOutcome::Sleep(s) => (ScanModel {
            stage: if spider { StageModel::SpiderWait(wait_after(w, r)) } else { StageModel::AscanWait(wait_after(w, r)) },
            sleeping: true,
            ..m
        }, StepModel { logs: Seq::empty(), next: NextModel::Sleep(s) }),
        WaitOutcome::Done(msg) => if spider {
            to_ascan(m, warn_opt(msg) + seq![(LogLevel::Info, spider_complete_note())])
        } else {
            to_alerts(m, warn_opt(msg))
        },
    }
}

/// `m` can take `ev`: a reply when a request is out, `Slept` after a sleep.
pub open spec fn accepts(m: ScanModel, ev: ZapEvent) -> bool {
    match m.stage {
        StageModel::SpiderStart | StageModel::AscanStart | StageModel::Alerts => ev is Reply,
        StageModel::SpiderWait(_) | StageModel::AscanWait(_) => if m.sleeping {
            ev is Slept
        } else {
            ev is Reply
        },
        StageModel::Finished => false,
    }
}

/// What a scan in state `m` does on `ev`: its next state and step.
pub open spec fn scan_transition(m: ScanModel, ev: ZapEvent) -> (ScanModel, StepModel) {
    match (m.stage, ev) {
        (StageModel::SpiderStart, ZapEvent::Reply(r)) => match r {
            ZapReply::RequestFailed(e) => to_finish(
                m,
                seq![(LogLevel::Error, "ZAP spider failed: "@ + e@)],
                Seq::empty(),
            ),
            ZapReply::Unparseable(e) => to_ascan(
                m,
                seq![
                    (LogLevel::Error, "ZAP spider returned an unparseable response: "@ + e@),
                    (LogLevel::Warn, no_spider_id_warning()),
                    (LogLevel::Info, spider_complete_note()),
                ],
            ),
            ZapReply::Parsed(body) => match body.scan {
                Some(id) => to_wait(m, true, spider_wait_for(id@)),
                None => to_ascan(
                    m,
                    seq![
                        (LogLevel::Warn, no_spider_id_warning()),
                        (LogLevel::Info, spider_complete_note()),
                    ],
                ),
            },
        },
        (StageModel::SpiderWait(w), ZapEvent::Reply(r)) => on_status(m, true, w, r),
        (StageModel::SpiderWait(w), ZapEvent::Slept) => to_wait(m, true, w),
        (StageModel::AscanStart, ZapEvent::Reply(r)) => match r {
            ZapReply::RequestFailed(e) => to_alerts(
                m,
                seq![
                    (LogLevel::Warn, "ZAP active scan request failed: "@ + e@),
                    (LogLevel::Warn, no_ascan_warning()),
                ],
            ),
            ZapReply::Unparseable(e) => to_alerts(
                m,
                seq![
                    (LogLevel::Warn, "ZAP active scan returned an unparseable response: "@ + e@),
                    (LogLevel::Warn, no_ascan_warning()),
                ],
            ),
            ZapReply::Parsed(body) => match body.scan {
                Some(id) => to_wait(m, false, ascan_wait_for(id@)),
                None => to_alerts(m, seq![(LogLevel::Warn, no_ascan_warning())]),
            },
        },
        (StageModel::AscanWait(w), ZapEvent::Reply(r)) => on_status(m, false, w, r),
        (StageModel::AscanWait(w), ZapEvent::Slept) => to_wait(m, false, w),
        (StageModel::Alerts, ZapEvent::Reply(r)) => match r {
            ZapReply::RequestFailed(e) => to_finish(
                m,
                seq![(LogLevel::Warn, "Failed to fetch ZAP alerts: "@ + e@)],
                Seq::empty(),
            ),
            ZapReply::Unparseable(e) => to_finish(
                m,
                seq![(LogLevel::Warn, "Failed to parse ZAP alerts: "@ + e@)],
                Seq::empty(),
            ),
            ZapReply::Parsed(body) => match body.alerts {
                Some(alerts) => to_finish(m, Seq::empty(), alerts@),
                None => to_finish(m, Seq::empty(), Seq::empty()),
            },
        },
        _ => (m, StepModel { logs: Seq::empty(), next: NextModel::Finish(Seq::empty()) }),
    }
}

enum Stage {
    SpiderStart,
    SpiderWait(ProgressWait),
    AscanStart,
    AscanWait(ProgressWait),
    Alerts,
    Finished,
}

/// A ZAP scan of one target.
pub struct ZapScan {
    target: String,
    api_key: String,
    zap_url: String,
    stage: Stage,
    sleeping: bool,
}

impl View for ZapScan {
    type V = ScanModel;

    closed spec fn view(&self) -> ScanModel {
        ScanModel {
            target: self.target@,
            api_key: self.api_key@,
            zap_url: self.zap_url@,
            stage: match self.stage {
                Stage::SpiderStart => StageModel::SpiderStart,
                Stage::SpiderWait(w) => StageModel::SpiderWait(w@),
                Stage::AscanStart => StageModel::AscanStart,
                Stage::AscanWait(w) => StageModel::AscanWait(w@),
                Stage::Alerts => StageModel::Alerts,
                Stage::Finished => StageModel::Finished,
            },
            sleeping: self.sleeping,
        }
    }
}

fn log_line(level: LogLevel, text: &str, detail: &str) -> (l: LogLine)
    ensures
        l.level == level,
        l.message@ == text@ + detail@,
{
    let mut message = text.to_owned();
    message.append(detail);
    LogLine { level, message }
}

fn log_text(level: LogLevel, text: &str) -> (l: LogLine)
    ensures
        l.level == level,
        l.message@ == text@,
{
    LogLine { level, message: text.to_owned() }
}

fn logs1(a: LogLine) -> (v: Vec<LogLine>)
    ensures
        logs_view(v@) == seq![log_view(a)],
{
    let ghost va = log_view(a);
    let v = vec![a];
    assert(logs_view(v@) =~= seq![va]);
    v
}

fn logs2(a: LogLine, b: LogLine) -> (v: Vec<LogLine>)
    ensures
        logs_view(v@) == seq![log_view(a), log_view(b)],
{
    let ghost (va, vb) = (log_view(a), log_view(b));
    let v = vec![a, b];
    assert(logs_view(v@) =~= seq![va, vb]);
    v
}

fn logs3(a: LogLine, b: LogLine, c: LogLine) -> (v: Vec<LogLine>)
    ensures
        logs_view(v@) == seq![log_view(a), log_view(b), log_view(c)],
{
    let ghost (va, vb, vc) = (log_view(a), log_view(b), log_view(c));
    let v = vec![a, b, c];
    assert(logs_view(v@) =~= seq![va, vb, vc]);
    v
}

/// The warning a finished wait leaves, if any, followed by `then`.
fn wait_logs(msg: Option<String>, then: Vec<LogLine>) -> (v: Vec<LogLine>)
    ensures
        logs_view(v@) == warn_opt(opt_str(msg)) + logs_view(then@),
{
    match msg {
        Some(m) => {
            let first = LogLine { level: LogLevel::Warn, message: m };
            let ghost vf = log_view(first);
            let mut v = vec![first];
            let mut rest = then;
            v.append(&mut rest);
            assert(logs_view(v@) =~= seq![vf] + logs_view(then@));
            v
        },
        None => {
            assert(warn_opt(None) + logs_view(then@) =~= logs_view(then@));
            then
        },
    }
}

impl ZapScan {
    /// Begins a scan of `target`, with the stored `zap_api_key` setting and
    /// the `ZAP_URL` environment value; the first step starts the spider.
    pub fn start(target: &str, stored_api_key: String, zap_url_env: Option<String>) -> (res: (
        ZapScan,
        ZapStep,
    ))
        ensures
            res.0@ == scan_start(target@, stored_api_key@, opt_str(zap_url_env)).0,
            step_matches(res.1, scan_start(target@, stored_api_key@, opt_str(zap_url_env)).1),
    {
        let api_key = effective_api_key(stored_api_key);
        let zap_url = zap_base_url(zap_url_env);
        let url = spider_url(zap_url.as_str(), api_key.as_str(), target);
        let first = log_line(LogLevel::Info, "Starting ZAP spider on ", target);
        let ghost first_view = log_view(first);
        let logs = vec![first];
        proof {
            assert(logs_view(logs@) =~= seq![first_view]);
        }
        let scan = ZapScan {
            target: target.to_owned(),
            api_key,
            zap_url,
            stage: Stage::SpiderStart,
            sleeping: false,
        };
        (scan, ZapStep { logs, next: ZapNext::Get(url) })
    }

    fn go_ascan(&mut self, logs: Vec<LogLine>) -> (step: ZapStep)
        ensures
            final(self)@ == to_ascan(old(self)@, logs_view(logs@)).0,
            step_matches(step, to_ascan(old(self)@, logs_view(logs@)).1),
    {
        let url = ascan_url(self.zap_url.as_str(), self.api_key.as_str(), self.target.as_str());
        self.stage = Stage::AscanStart;
        self.sleeping = false;
        ZapStep { logs, next: ZapNext::Get(url) }
    }

    fn go_alerts(&mut self, logs: Vec<LogLine>) -> (step: ZapStep)
        ensures
            final(self)@ == to_alerts(old(self)@, logs_view(logs@)).0,
            step_matches(step, to_alerts(old(self)@, logs_view(logs@)).1),
    {
        let url = alerts_url(self.zap_url.as_str(), self.api_key.as_str(), self.target.as_str());
        self.stage = Stage::Alerts;
        self.sleeping = false;
        ZapStep { logs, next: ZapNext::Get(url) }
    }

    fn go_finish(&mut self, logs: Vec<LogLine>, findings: Vec<ToolFinding>, Ghost(alerts): Ghost<Seq<ZapAlert>>) -> (step: ZapStep)
        requires
            findings_of(findings@, alerts),
        ensures
            final(self)@ == to_finish(old(self)@, logs_view(logs@), alerts).0,
            step_matches(step, to_finish(old(self)@, logs_view(logs@), alerts).1),
    {
        self.stage = Stage::Finished;
        self.sleeping = false;
        ZapStep { logs, next: ZapNext::Finish(findings) }
    }

    fn go_wait(&mut self, spider: bool, w: ProgressWait) -> (step: ZapStep)
        ensures
            final(self)@ == to_wait(old(self)@, spider, w@).0,
            step_matches(step, to_wait(old(self)@, spider, w@).1),
    {
        let url = w.status_url(self.zap_url.as_str(), self.api_key.as_str());
        self.stage = if spider { Stage::SpiderWait(w) } else { Stage::AscanWait(w) };
        self.sleeping = false;
        let logs: Vec<LogLine> = Vec::new();
        assert(logs_view(logs@) =~= Seq::empty());
        ZapStep { logs, next: ZapNext::Get(url) }
    }

    /// A status reply during a wait.
    fn status_reply(&mut self, spider: bool, w: ProgressWait, r: &ZapReply) -> (step: ZapStep)
        ensures
            final(self)@ == on_status(old(self)@, spider, w@, *r).0,
            step_matches(step, on_status(old(self)@, spider, w@, *r).1),
    {
        let mut w = w;
        match w.on_reply(r) {
            WaitStep::Sleep(secs) => {
                self.stage = if spider { Stage::SpiderWait(w) } else { Stage::AscanWait(w) };
                self.sleeping = true;
                let logs: Vec<LogLine> = Vec::new();
                assert(logs_view(logs@) =~= Seq::empty());
                ZapStep { logs, next: ZapNext::Sleep(secs) }
            },
            WaitStep::Done(msg) => {
                if spider {
                    let note = logs1(log_text(LogLevel::Info, "Spider complete, starting active scan"));
                    let logs = wait_logs(msg, note);
                    self.go_ascan(logs)
                } else {
                    let logs = wait_logs(msg, Vec::new());
                    assert(logs_view(Seq::<LogLine>::empty()) =~= Seq::empty());
                    assert(warn_opt(opt_str(msg)) + Seq::empty() =~= warn_opt(opt_str(msg)));
                    self.go_alerts(logs)
                }
            },
        }
    }

    /// Takes what happened to the last step's work and decides the next step.
    pub fn step(&mut self, ev: ZapEvent) -> (step: ZapStep)
        requires
            accepts(old(self)@, ev),
        ensures
            final(self)@ == scan_transition(old(self)@, ev).0,
            step_matches(step, scan_transition(old(self)@, ev).1),
    {
        let mut stage = Stage::Finished;
        std::mem::swap(&mut stage, &mut self.stage);
        match stage {
            Stage::SpiderStart => match ev {
                ZapEvent::Reply(ZapReply::RequestFailed(e)) => {
                    let logs = logs1(log_line(LogLevel::Error, "ZAP spider failed: ", e.as_str()));
                    let none: Vec<ToolFinding> = Vec::new();
                    self.go_finish(logs, none, Ghost(Seq::empty()))
                },
                ZapEvent::Reply(ZapReply::Unparseable(e)) => {
                    let logs = logs3(
                        log_line(LogLevel::Error, "ZAP spider returned an unparseable response: ", e.as_str()),
                        log_text(LogLevel::Warn, "ZAP did not return a spider scan ID — nothing to crawl, skipping to active scan"),
                        log_text(LogLevel::Info, "Spider complete, starting active scan"),
                    );
                    self.go_ascan(logs)
                },
                ZapEvent::Reply(ZapReply::Parsed(body)) => match body.scan {
                    Some(id) => {
                        let w = ProgressWait::new("spider", id.as_str(), SPIDER_POLL_SECS, SPIDER_MAX_POLLS);
                        self.go_wait(true, w)
                    },
                    None => {
                        let logs = logs2(
                            log_text(LogLevel::Warn, "ZAP did not return a spider scan ID — nothing to crawl, skipping to active scan"),
                            log_text(LogLevel::Info, "Spider complete, starting active scan"),
                        );
                        self.go_ascan(logs)
                    },
                },
                // Not accepted here (see `accepts`).
                ZapEvent::Slept => {
                    self.stage = Stage::SpiderStart;
                    ZapStep { logs: Vec::new(), next: ZapNext::Finish(Vec::new()) }
                },
            },
            Stage::SpiderWait(w) => match ev {
                ZapEvent::Reply(r) => self.status_reply(true, w, &r),
                ZapEvent::Slept => self.go_wait(true, w),
            },
            Stage::AscanStart => match ev {
                ZapEvent::Reply(ZapReply::RequestFailed(e)) => {
                    let logs = logs2(
                        log_line(LogLevel::Warn, "ZAP active scan request failed: ", e.as_str()),
                        log_text(LogLevel::Warn, "ZAP did not start an active scan (nothing crawlable/parameterized found) — skipping to results"),
                    );
                    self.go_alerts(logs)
                },
                ZapEvent::Reply(ZapReply::Unparseable(e)) => {
                    let logs = logs2(
                        log_line(LogLevel::Warn, "ZAP active scan returned an unparseable response: ", e.as_str()),
                        log_text(LogLevel::Warn, "ZAP did not start an active scan (nothing crawlable/parameterized found) — skipping to results"),
                    );
                    self.go_alerts(logs)
                },
                ZapEvent::Reply(ZapReply::Parsed(body)) => match body.scan {
                    Some(id) => {
                        let w = ProgressWait::new("ascan", id.as_str(), ASCAN_POLL_SECS, ASCAN_MAX_POLLS);
                        self.go_wait(false, w)
                    },
                    None => {
                        let logs = logs1(log_text(LogLevel::Warn, "ZAP did not start an active scan (nothing crawlable/parameterized found) — skipping to results"));
                        self.go_alerts(logs)
                    },
                },
                // Not accepted here (see `accepts`).
                ZapEvent::Slept => {
                    self.stage = Stage::AscanStart;
                    ZapStep { logs: Vec::new(), next: ZapNext::Finish(Vec::new()) }
                },
            },
            Stage::AscanWait(w) => match ev {
                ZapEvent::Reply(r) => self.status_reply(false, w, &r),
                ZapEvent::Slept => self.go_wait(false, w),
            },
            Stage::Alerts => match ev {
                ZapEvent::Reply(ZapReply::RequestFailed(e)) => {
                    let logs = logs1(log_line(LogLevel::Warn, "Failed to fetch ZAP alerts: ", e.as_str()));
                    self.go_finish(logs, Vec::new(), Ghost(Seq::empty()))
                },
                ZapEvent::Reply(ZapReply::Unparseable(e)) => {
                    let logs = logs1(log_line(LogLevel::Warn, "Failed to parse ZAP alerts: ", e.as_str()));
                    self.go_finish(logs, Vec::new(), Ghost(Seq::empty()))
                },
                ZapEvent::Reply(ZapReply::Parsed(body)) => {
                    let logs: Vec<LogLine> = Vec::new();
                    assert(logs_view(logs@) =~= Seq::empty());
                    match body.alerts {
                        Some(alerts) => {
                            let findings = findings_from_alerts(&alerts);
                            self.go_finish(logs, findings, Ghost(alerts@))
                        },
                        None => self.go_finish(logs, Vec::new(), Ghost(Seq::empty())),
                    }
                },
                // Not accepted here (see `accepts`).
                ZapEvent::Slept => {
                    self.stage = Stage::Alerts;
                    ZapStep { logs: Vec::new(), next: ZapNext::Finish(Vec::new()) }
                },
            },
            // A finished scan accepts nothing.
            Stage::Finished => ZapStep { logs: Vec::new(), next: ZapNext::Finish(Vec::new()) },
        }
    }

    /// `true` when `ev` is what the scan waits for (see `accepts`).
    pub fn accepts(&self, ev: &ZapEvent) -> (ok: bool)
        ensures
            ok == accepts(self@, *ev),
    {
        match (&self.stage, ev) {
            (Stage::SpiderStart, ZapEvent::Reply(_)) => true,
            (Stage::AscanStart, ZapEvent::Reply(_)) => true,
            (Stage::Alerts, ZapEvent::Reply(_)) => true,
            (Stage::SpiderWait(_), ZapEvent::Reply(_)) => !self.sleeping,
            (Stage::AscanWait(_), ZapEvent::Reply(_)) => !self.sleeping,
            (Stage::SpiderWait(_), ZapEvent::Slept) => self.sleeping,
            (Stage::AscanWait(_), ZapEvent::Slept) => self.sleeping,
            _ => false,
        }
    }

    /// `true` once the scan has handed out its findings.
    pub fn is_finished(&self) -> (done: bool)
        ensures
            done == (self@.stage is Finished),
    {
        match self.stage {
            Stage::Finished => true,
            _ => false,
        }
    }
}

} // verus!

verus! {

/// A wait's remaining budget: two units per poll left, one more while asleep.
pub open spec fn wait_budget(w: WaitModel, sleeping: bool) -> int {
    let ceiling: int = if w.max_polls == 0 { 1 } else { w.max_polls as int };
    2 * (ceiling - w.polls) + if sleeping { 1int } else { 0int }
}

/// An upper bound on the steps a scan in state `m` may still take.
pub open spec fn scan_budget(m: ScanModel) -> int {
    match m.stage {
        StageModel::Finished => 0,
        StageModel::Alerts => 1,
        StageModel::AscanWait(w) => 2 + wait_budget(w, m.sleeping),
        StageModel::AscanStart => 3 + 2 * ASCAN_MAX_POLLS,
        StageModel::SpiderWait(w) => 4 + 2 * ASCAN_MAX_POLLS + wait_budget(w, m.sleeping),
        StageModel::SpiderStart => 5 + 2 * ASCAN_MAX_POLLS + 2 * SPIDER_MAX_POLLS,
    }
}

/// The states a scan can be in: a wait has polls left, and only a wait
/// sleeps, after at least one poll.
pub open spec fn scan_wf(m: ScanModel) -> bool {
    match m.stage {
        StageModel::SpiderWait(w) | StageModel::AscanWait(w) => {
            &&& w.running()
            &&& m.sleeping ==> 0 < w.polls < w.max_polls
        },
        _ => !m.sleeping,
    }
}

/// `evs` can be handed to a scan in state `m`, one after the other.
pub open spec fn accepted_run(m: ScanModel, evs: Seq<ZapEvent>) -> bool
    decreases evs.len(),
{
    evs.len() == 0 || (accepts(m, evs[0]) && accepted_run(scan_transition(m, evs[0]).0, evs.drop_first()))
}

/// A scan starts in a proper state with a budget of 1105 steps.
pub proof fn lemma_scan_start(target: Seq<char>, stored_key: Seq<char>, zap_url_env: Option<Seq<char>>)
    ensures
        scan_wf(scan_start(target, stored_key, zap_url_env).0),
        scan_budget(scan_start(target, stored_key, zap_url_env).0) == 1105,
{
}

/// Every step keeps the scan in a proper state and either finishes it or
/// uses up budget: the scan cannot hang, whatever ZAP answers. A step asks to
/// finish exactly when it moves the scan to its end.
pub proof fn lemma_scan_step_progress(m: ScanModel, ev: ZapEvent)
    requires
        scan_wf(m),
        accepts(m, ev),
    ensures
        scan_wf(scan_transition(m, ev).0),
        0 <= scan_budget(scan_transition(m, ev).0) < scan_budget(m),
        (scan_transition(m, ev).1.next is Finish) == (scan_transition(m, ev).0.stage is Finished),
{
}

/// No scan takes more steps than its budget: after `start`, at most 1105
/// events are ever accepted, after which the scan has finished.
pub proof fn lemma_scan_terminates(m: ScanModel, evs: Seq<ZapEvent>)
    requires
        scan_wf(m),
        accepted_run(m, evs),
    ensures
        evs.len() <= scan_budget(m),
    decreases evs.len(),
{
    if evs.len() > 0 {
        lemma_scan_step_progress(m, evs[0]);
        lemma_scan_terminates(scan_transition(m, evs[0]).0, evs.drop_first());
    }
}

/// A scan whose spider request fails ends at once, with that error logged
/// and no findings.
pub proof fn lemma_spider_failure_ends_scan(m: ScanModel, e: String)
    requires
        m.stage is SpiderStart,
    ensures
        scan_transition(m, ZapEvent::Reply(ZapReply::RequestFailed(e))).0.stage is Finished,
        scan_transition(m, ZapEvent::Reply(ZapReply::RequestFailed(e))).1 == (StepModel {
            logs: seq![(LogLevel::Error, "ZAP spider failed: "@ + e@)],
            next: NextModel::Finish(Seq::empty()),
        }),
{
}

/// Findings come only from ZAP's alert listing: a step that hands out
/// findings answers the alerts request, one finding per listed alert, in
/// order.
pub proof fn lemma_findings_come_from_alerts(m: ScanModel, ev: ZapEvent)
    requires
        accepts(m, ev),
        scan_transition(m, ev).1.next matches NextModel::Finish(alerts) && alerts.len() > 0,
    ensures
        m.stage is Alerts,
        ev matches ZapEvent::Reply(ZapReply::Parsed(body)) && body.alerts matches Some(listed)
            && scan_transition(m, ev).1.next == NextModel::Finish(listed@),
{
}

/// A scan never changes its target, API key or base URL.
pub proof fn lemma_scan_keeps_its_settings(m: ScanModel, ev: ZapEvent)
    requires
        accepts(m, ev),
    ensures
        scan_transition(m, ev).0.target == m.target,
        scan_transition(m, ev).0.api_key == m.api_key,
        scan_transition(m, ev).0.zap_url == m.zap_url,
{
}

/// The answer to the spider request: an id starts polling that spider run
/// (every 2 s, at most 150 times); a failed request ends the scan with no
/// findings; anything else (no id, unparseable) goes on to the active scan,
/// the last line logged being the spider-complete note.
pub proof fn lemma_spider_start_reply(m: ScanModel, r: ZapReply)
    requires
        m.stage is SpiderStart,
    ensures
        ({
            let (m2, st) = scan_transition(m, ZapEvent::Reply(r));
            let to_ascan_ok = {
                &&& st.next == NextModel::Get(ascan_url_for(m.zap_url, m.api_key, m.target))
                &&& m2.stage is AscanStart
                &&& st.logs.len() > 0
                &&& st.logs.last() == (LogLevel::Info, "Spider complete, starting active scan"@)
            };
            match r {
                ZapReply::RequestFailed(_) => m2.stage is Finished && st.next == NextModel::Finish(Seq::empty()),
                ZapReply::Unparseable(_) => to_ascan_ok,
                ZapReply::Parsed(b) => match b.scan {
                    Some(id) => {
                        &&& st.next == NextModel::Get(status_url_for(m.zap_url, "spider"@, m.api_key, id@))
                        &&& m2.stage == StageModel::SpiderWait(WaitModel {
                            module: "spider"@,
                            scan_id: id@,
                            poll_secs: 2,
                            max_polls: 150,
                            polls: 0,
                        })
                        &&& !m2.sleeping
                        &&& st.logs.len() == 0
                    },
                    None => to_ascan_ok,
                },
            }
        }),
{
}

/// The answer to the active-scan request: an id starts polling that run
/// (every 3 s, at most 400 times); anything else goes on to the alerts.
pub proof fn lemma_ascan_start_reply(m: ScanModel, r: ZapReply)
    requires
        m.stage is AscanStart,
    ensures
        ({
            let (m2, st) = scan_transition(m, ZapEvent::Reply(r));
            let to_alerts_ok = {
                &&& st.next == NextModel::Get(alerts_url_for(m.zap_url, m.api_key, m.target))
                &&& m2.stage is Alerts
            };
            match r {
                ZapReply::Parsed(b) => match b.scan {
                    Some(id) => {
                        &&& st.next == NextModel::Get(status_url_for(m.zap_url, "ascan"@, m.api_key, id@))
                        &&& m2.stage == StageModel::AscanWait(WaitModel {
                            module: "ascan"@,
                            scan_id: id@,
                            poll_secs: 3,
                            max_polls: 400,
                            polls: 0,
                        })
                        &&& !m2.sleeping
                    },
                    None => to_alerts_ok,
                },
                _ => to_alerts_ok,
            }
        }),
{
}

/// A status reply while waiting for the spider: a run below 100% with polls
/// left means sleeping the poll interval and counting one more poll, in the
/// same run; 100%, an error, a missing status or the last allowed poll ends
/// the wait, and then the active scan is always started, after the
/// spider-complete note.
pub proof fn lemma_spider_status_reply(m: ScanModel, r: ZapReply)
    requires
        m.stage is SpiderWait,
        !m.sleeping,
    ensures
        ({
            let w = m.stage->SpiderWait_0;
            let (m2, st) = scan_transition(m, ZapEvent::Reply(r));
            let polls_on = r matches ZapReply::Parsed(b) && b.status matches Some(s) && s@ != "100"@
                && w.polls + 1 < w.max_polls;
            &&& polls_on ==> {
                &&& st.next == NextModel::Sleep(w.poll_secs)
                &&& st.logs.len() == 0
                &&& m2.sleeping
                &&& m2.stage == StageModel::SpiderWait(WaitModel { polls: (w.polls + 1) as u32, ..w })
            }
            &&& !polls_on ==> {
                &&& st.next == NextModel::Get(ascan_url_for(m.zap_url, m.api_key, m.target))
                &&& m2.stage is AscanStart
                &&& !m2.sleeping
                &&& st.logs.len() > 0
                &&& st.logs.last() == (LogLevel::Info, "Spider complete, starting active scan"@)
            }
        }),
{
}

/// A status reply while waiting for the active scan: a run below 100% with
/// polls left means sleeping the poll interval and counting one more poll, in
/// the same run; only 100%, an error, a missing status or the last allowed
/// poll ends the wait, and then the alerts are requested.
pub proof fn lemma_ascan_status_reply(m: ScanModel, r: ZapReply)
    requires
        m.stage is AscanWait,
        !m.sleeping,
    ensures
        ({
            let w = m.stage->AscanWait_0;
            let (m2, st) = scan_transition(m, ZapEvent::Reply(r));
            let polls_on = r matches ZapReply::Parsed(b) && b.status matches Some(s) && s@ != "100"@
                && w.polls + 1 < w.max_polls;
            &&& polls_on ==> {
                &&& st.next == NextModel::Sleep(w.poll_secs)
                &&& st.logs.len() == 0
                &&& m2.sleeping
                &&& m2.stage == StageModel::AscanWait(WaitModel { polls: (w.polls + 1) as u32, ..w })
            }
            &&& !polls_on ==> {
                &&& st.next == NextModel::Get(alerts_url_for(m.zap_url, m.api_key, m.target))
                &&& m2.stage is Alerts
                &&& !m2.sleeping
            }
        }),
{
}

/// After a sleep in either wait, the next request polls the same run again:
/// its module's status URL with its id, the wait unchanged.
pub proof fn lemma_wake_polls_same_run(m: ScanModel)
    requires
        m.stage is SpiderWait || m.stage is AscanWait,
        m.sleeping,
    ensures
        ({
            let w = if m.stage is SpiderWait { m.stage->SpiderWait_0 } else { m.stage->AscanWait_0 };
            let (m2, st) = scan_transition(m, ZapEvent::Slept);
            &&& st.next == NextModel::Get(status_url_for(m.zap_url, w.module, m.api_key, w.scan_id))
            &&& st.logs.len() == 0
            &&& m2.stage == m.stage
            &&& !m2.sleeping
        }),
{
}

/// The alerts are requested only at the end of the active-scan stage: out
/// of a wait for the active scan, the alerts URL follows only a reply that
/// ends the wait, never a sleep or a run still below 100% with polls left.
pub proof fn lemma_alerts_only_after_ascan_wait_ends(m: ScanModel, ev: ZapEvent)
    requires
        m.stage is AscanWait,
        m.stage->AscanWait_0.module == "ascan"@,
        accepts(m, ev),
        scan_transition(m, ev).1.next == NextModel::Get(alerts_url_for(m.zap_url, m.api_key, m.target)),
    ensures
        ({
            let w = m.stage->AscanWait_0;
            ev matches ZapEvent::Reply(r) && !(r matches ZapReply::Parsed(b) && b.status matches Some(s)
                && s@ != "100"@ && w.polls + 1 < w.max_polls)
        }),
{
    let w = m.stage->AscanWait_0;
    if ev is Slept {
        assert(m.sleeping);
        lemma_status_url_is_not_alerts_url(m.zap_url, w.module, m.api_key, w.scan_id, m.target);
    }
}

/// The status URL of an active scan is never an alerts URL.
pub proof fn lemma_status_url_is_not_alerts_url(
    zap_url: Seq<char>,
    module: Seq<char>,
    api_key: Seq<char>,
    scan_id: Seq<char>,
    target: Seq<char>,
)
    requires
        module == "ascan"@,
    ensures
        status_url_for(zap_url, module, api_key, scan_id) != alerts_url_for(zap_url, api_key, target),
{
    let su = status_url_for(zap_url, module, api_key, scan_id);
    let au = alerts_url_for(zap_url, api_key, target);
    reveal_strlit("/JSON/");
    reveal_strlit("ascan");
    reveal_strlit("/JSON/alert/view/alerts/?apikey=");
    let k: int = zap_url.len() as int + 7;
    assert(su[k] == 's');
    assert(au[k] == 'l');
}

/// The answer to the alerts request ends the scan: the findings are those
/// of the alerts listed, none when the listing failed or is missing.
pub proof fn lemma_alerts_reply_ends_scan(m: ScanModel, r: ZapReply)
    requires
        m.stage is Alerts,
    ensures
        ({
            let (m2, st) = scan_transition(m, ZapEvent::Reply(r));
            &&& m2.stage is Finished
            &&& st.next == NextModel::Finish(match r {
                ZapReply::Parsed(b) => match b.alerts {
                    Some(listed) => listed@,
                    None => Seq::empty(),
                },
                _ => Seq::empty(),
            })
        }),
{
}

/// What a step asks for, read off its description: the same log lines (level
/// and text) in the same order, and the same request, sleep, or findings
/// (one per alert, in order).
pub proof fn lemma_step_matches_means(step: ZapStep, sm: StepModel)
    requires
        step_matches(step, sm),
    ensures
        step.logs.len() == sm.logs.len(),
        forall|i: int| 0 <= i < sm.logs.len() ==> #[trigger] step.logs@[i].level == sm.logs[i].0
            && step.logs@[i].message@ == sm.logs[i].1,
        match sm.next {
            NextModel::Get(u) => step.next matches ZapNext::Get(x) && x@ == u,
            NextModel::Sleep(t) => step.next matches ZapNext::Sleep(x) && x == t,
            NextModel::Finish(alerts) => step.next matches ZapNext::Finish(fs) && fs.len() == alerts.len()
                && forall|i: int| 0 <= i < alerts.len() ==> is_finding_of(#[trigger] fs@[i], alerts[i]),
        },
{
    assert forall|i: int| 0 <= i < sm.logs.len() implies #[trigger] step.logs@[i].level == sm.logs[i].0
        && step.logs@[i].message@ == sm.logs[i].1 by {
        assert(logs_view(step.logs@)[i] == log_view(step.logs@[i]));
    }
}

/// A scan starts with the stored API key (`changeme` when empty) and the
/// `ZAP_URL` base (`http://zap:8080` when unset): it logs that the spider
/// starts on the target and requests the spider run.
pub proof fn lemma_scan_start_step(target: Seq<char>, stored_key: Seq<char>, zap_url_env: Option<Seq<char>>)
    ensures
        ({
            let (m, st) = scan_start(target, stored_key, zap_url_env);
            let key = if stored_key.len() == 0 { "changeme"@ } else { stored_key };
            let base = match zap_url_env {
                Some(u) => u,
                None => "http://zap:8080"@,
            };
            &&& m.target == target
            &&& m.api_key == key
            &&& m.zap_url == base
            &&& m.stage is SpiderStart
            &&& !m.sleeping
            &&& st.logs == seq![(LogLevel::Info, "Starting ZAP spider on "@ + target)]
            &&& st.next == NextModel::Get(spider_url_for(base, key, target))
        }),
{
}

/// The lines a step logs, case by case.
pub proof fn lemma_scan_logs(m: ScanModel, r: ZapReply)
    requires
        !m.sleeping,
    ensures
        ({
            let logs = scan_transition(m, ZapEvent::Reply(r)).1.logs;
            let spider_note = (LogLevel::Info, "Spider complete, starting active scan"@);
            let no_spider_id = (
                LogLevel::Warn,
                "ZAP did not return a spider scan ID — nothing to crawl, skipping to active scan"@,
            );
            let no_ascan = (
                LogLevel::Warn,
                "ZAP did not start an active scan (nothing crawlable/parameterized found) — skipping to results"@,
            );
            match m.stage {
                StageModel::SpiderStart => match r {
                    ZapReply::RequestFailed(e) => logs == seq![(LogLevel::Error, "ZAP spider failed: "@ + e@)],
                    ZapReply::Unparseable(e) => logs == seq![
                        (LogLevel::Error, "ZAP spider returned an unparseable response: "@ + e@),
                        no_spider_id,
                        spider_note,
                    ],
                    ZapReply::Parsed(b) => match b.scan {
                        Some(_) => logs.len() == 0,
                        None => logs == seq![no_spider_id, spider_note],
                    },
                },
                StageModel::SpiderWait(w) => match wait_outcome(w, r) {
                    WaitOutcome::Sleep(_) => logs.len() == 0,
                    WaitOutcome::Done(None) => logs == seq![spider_note],
                    WaitOutcome::Done(Some(msg)) => logs == seq![(LogLevel::Warn, msg), spider_note],
                },
                StageModel::AscanStart => match r {
                    ZapReply::RequestFailed(e) => logs == seq![
                        (LogLevel::Warn, "ZAP active scan request failed: "@ + e@),
                        no_ascan,
                    ],
                    ZapReply::Unparseable(e) => logs == seq![
                        (LogLevel::Warn, "ZAP active scan returned an unparseable response: "@ + e@),
                        no_ascan,
                    ],
                    ZapReply::Parsed(b) => match b.scan {
                        Some(_) => logs.len() == 0,
                        None => logs == seq![no_ascan],
                    },
                },
                StageModel::AscanWait(w) => match wait_outcome(w, r) {
                    WaitOutcome::Done(Some(msg)) => logs == seq![(LogLevel::Warn, msg)],
                    _ => logs.len() == 0,
                },
                StageModel::Alerts => match r {
                    ZapReply::RequestFailed(e) => logs == seq![(LogLevel::Warn, "Failed to fetch ZAP alerts: "@ + e@)],
                    ZapReply::Unparseable(e) => logs == seq![(LogLevel::Warn, "Failed to parse ZAP alerts: "@ + e@)],
                    ZapReply::Parsed(_) => logs.len() == 0,
                },
                StageModel::Finished => true,
            }
        }),
{
    match m.stage {
        StageModel::SpiderWait(w) => {
            assert(warn_opt(None) + seq![(LogLevel::Info, spider_complete_note())] =~= seq![(LogLevel::Info, spider_complete_note())]);
            if let WaitOutcome::Done(Some(msg)) = wait_outcome(w, r) {
                assert(warn_opt(Some(msg)) + seq![(LogLevel::Info, spider_complete_note())] =~= seq![(LogLevel::Warn, msg), (LogLevel::Info, spider_complete_note())]);
            }
        },
        _ => {},
    }
}

} // verus!
