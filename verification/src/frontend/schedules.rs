//! The schedules page: the "new schedule" form and the text of the rows of
//! the schedule table.
use vstd::prelude::*;

use crate::frontend::api::error_notice;
use crate::number::{parse_i64, parsed_i64};
use crate::text::{push_signed_decimal, signed_decimal, str_eq};
use crate::scanners::zap::opt_str;

verus! {

/// A request to create a recurring scan.
pub struct CreateScheduleRequest {
    pub scan_type: String,
    pub target: String,
    pub target_source: String,
    pub tools: Option<Vec<String>>,
    pub interval_hours: i64,
}

/// A recurring scan as the API lists it.
pub struct ScheduledScan {
    pub id: i64,
    pub scan_type: String,
    pub target: String,
    pub target_source: String,
    pub interval_hours: i64,
    pub enabled: bool,
    pub last_run_at: Option<String>,
    pub next_run_at: String,
}

/// The form, as plain values.
pub struct FormModel {
    pub scan_type: Seq<char>,
    pub target: Seq<char>,
    pub target_source: Seq<char>,
    pub interval_hours: i64,
    pub create_msg: Option<Seq<char>>,
    pub refresh_counter: u32,
}

pub open spec fn bump(counter: u32) -> u32 {
    if counter == u32::MAX {
        0
    } else {
        (counter + 1) as u32
    }
}

/// The interval a typed text sets: the number, raised to at least one hour;
/// nothing when the text is not a number.
pub open spec fn interval_from_text(text: Seq<char>) -> Option<i64> {
    match parsed_i64(text) {
        Some(v) => Some(if v < 1 { 1 } else { v }),
        None => None,
    }
}

/// The state of the "new schedule" form. Its interval is always at least
/// one hour.
pub struct ScheduleForm {
    scan_type: String,
    target: String,
    target_source: String,
    interval_hours: i64,
    create_msg: Option<String>,
    refresh_counter: u32,
}

impl View for ScheduleForm {
    type V = FormModel;

    closed spec fn view(&self) -> FormModel {
        FormModel {
            scan_type: self.scan_type@,
            target: self.target@,
            target_source: self.target_source@,
            interval_hours: self.interval_hours,
            create_msg: opt_str(self.create_msg),
            refresh_counter: self.refresh_counter,
        }
    }
}

impl ScheduleForm {
    #[verifier::type_invariant]
    spec fn inv(self) -> bool {
        self.interval_hours >= 1
    }

    /// A fresh form: a full scan of a URL every 24 hours, no target yet.
    pub fn new() -> (form: ScheduleForm)
        ensures
            form@ == (FormModel {
                scan_type: "full"@,
                target: Seq::empty(),
                target_source: "url"@,
                interval_hours: 24,
                create_msg: None,
                refresh_counter: 0,
            }),
    {
        ScheduleForm {
            scan_type: "full".to_owned(),
            target: String::new(),
            target_source: "url".to_owned(),
            interval_hours: 24,
            create_msg: None,
            refresh_counter: 0,
        }
    }

    pub fn scan_type(&self) -> (s: &str)
        ensures
            s@ == self@.scan_type,
    {
        self.scan_type.as_str()
    }

    pub fn target(&self) -> (s: &str)
        ensures
            s@ == self@.target,
    {
        self.target.as_str()
    }

    pub fn target_source(&self) -> (s: &str)
        ensures
            s@ == self@.target_source,
    {
        self.target_source.as_str()
    }

    /// The interval in hours; never less than one.
    pub fn interval_hours(&self) -> (h: i64)
        ensures
            h == self@.interval_hours,
            h >= 1,
    {
        proof {
            use_type_invariant(self);
        }
        self.interval_hours
    }

    /// The notice under the form, if any.
    pub fn create_msg(&self) -> (m: Option<String>)
        ensures
            opt_str(m) == self@.create_msg,
    {
        match &self.create_msg {
            Some(m) => Some(m.clone()),
            None => None,
        }
    }

    /// Bumped whenever the schedule list must be fetched again.
    pub fn refresh_counter(&self) -> (c: u32)
        ensures
            c == self@.refresh_counter,
    {
        self.refresh_counter
    }

    pub fn set_scan_type(&mut self, scan_type: String)
        ensures
            final(self)@ == (FormModel { scan_type: scan_type@, ..old(self)@ }),
    {
        proof {
            use_type_invariant(&*self);
        }
        self.scan_type = scan_type;
    }

    pub fn set_target(&mut self, target: String)
        ensures
            final(self)@ == (FormModel { target: target@, ..old(self)@ }),
    {
        proof {
            use_type_invariant(&*self);
        }
        self.target = target;
    }

    pub fn set_target_source(&mut self, source: String)
        ensures
            final(self)@ == (FormModel { target_source: source@, ..old(self)@ }),
    {
        proof {
            use_type_invariant(&*self);
        }
        self.target_source = source;
    }

    /// Text typed into the interval field: a number sets the interval (at
    /// least one hour); anything else leaves it as it was.
    pub fn input_interval(&mut self, text: &str)
        ensures
            final(self)@ == (match interval_from_text(text@) {
                Some(h) => FormModel { interval_hours: h, ..old(self)@ },
                None => old(self)@,
            }),
    {
        proof {
            use_type_invariant(&*self);
        }
        match parse_i64(text) {
            Some(v) => {
                self.interval_hours = if v < 1 { 1 } else { v };
            },
            None => {},
        }
    }

    /// The create button is enabled once a target is given.
    pub fn can_create(&self) -> (ok: bool)
        ensures
            ok == (self@.target.len() > 0),
    {
        !self.target.as_str().is_empty()
    }

    /// The hint shown in the empty target field.
    pub fn target_placeholder(&self) -> (hint: &'static str)
        ensures
            hint@ == (if self@.target_source == "url"@ {
                "https://example.com"@
            } else {
                "/projects/my-app"@
            }),
    {
        if str_eq(self.target_source.as_str(), "url") {
            "https://example.com"
        } else {
            "/projects/my-app"
        }
    }

    /// The request the create button sends.
    pub fn create_request(&self) -> (req: CreateScheduleRequest)
        ensures
            req.scan_type@ == self@.scan_type,
            req.target@ == self@.target,
            req.target_source@ == self@.target_source,
            req.tools is None,
            req.interval_hours == self@.interval_hours,
    {
        CreateScheduleRequest {
            scan_type: self.scan_type.clone(),
            target: self.target.clone(),
            target_source: self.target_source.clone(),
            tools: None,
            interval_hours: self.interval_hours,
        }
    }

    /// The answer to a create request: on success the form says so, clears
    /// the target and has the list fetched again; on failure it shows the
    /// error.
    pub fn on_create_result(&mut self, result: Result<(), String>)
        ensures
            final(self)@ == (match result {
                Ok(()) => FormModel {
                    create_msg: Some("Schedule created"@),
                    target: Seq::empty(),
                    refresh_counter: bump(old(self)@.refresh_counter),
                    ..old(self)@
                },
                Err(e) => FormModel { create_msg: Some("Error: "@ + e@), ..old(self)@ },
            }),
    {
        proof {
            use_type_invariant(&*self);
        }
        match result {
            Ok(()) => {
                self.create_msg = Some("Schedule created".to_owned());
                self.target = String::new();
                self.refresh();
            },
            Err(e) => {
                self.create_msg = Some(error_notice(e.as_str()));
            },
        }
    }

    /// Has the list fetched again (after a schedule is paused, resumed or
    /// deleted).
    pub fn refresh(&mut self)
        ensures
            final(self)@ == (FormModel { refresh_counter: bump(old(self)@.refresh_counter), ..old(self)@ }),
    {
        proof {
            use_type_invariant(&*self);
        }
        self.refresh_counter = if self.refresh_counter == u32::MAX {
            0
        } else {
            self.refresh_counter + 1
        };
    }
}

/// The text of one row of the schedule table.
pub struct ScheduleRowText {
    /// `<hours>h`.
    pub every: String,
    /// When it last ran, or `never`.
    pub last_run: String,
    pub badge_class: &'static str,
    pub status: &'static str,
    pub toggle_label: &'static str,
}

pub open spec fn row_text_of(s: ScheduledScan, row: ScheduleRowText) -> bool {
    &&& row.every@ == signed_decimal(s.interval_hours as int) + "h"@
    &&& row.last_run@ == (match s.last_run_at {
        Some(t) => t@,
        None => "never"@,
    })
    &&& row.badge_class@ == (if s.enabled {
        "badge badge-status-completed"@
    } else {
        "badge badge-category"@
    })
    &&& row.status@ == (if s.enabled { "enabled"@ } else { "paused"@ })
    &&& row.toggle_label@ == (if s.enabled { "⏸ Pause"@ } else { "▶ Resume"@ })
}

/// The text the table shows for a schedule.
pub fn schedule_row_text(s: &ScheduledScan) -> (row: ScheduleRowText)
    ensures
        row_text_of(*s, row),
{
    let mut every = String::new();
    push_signed_decimal(&mut every, s.interval_hours);
    every.append("h");
    let last_run = match &s.last_run_at {
        Some(t) => t.clone(),
        None => "never".to_owned(),
    };
    if s.enabled {
        ScheduleRowText {
            every,
            last_run,
            badge_class: "badge badge-status-completed",
            status: "enabled",
            toggle_label: "⏸ Pause",
        }
    } else {
        ScheduleRowText {
            every,
            last_run,
            badge_class: "badge badge-category",
            status: "paused",
            toggle_label: "▶ Resume",
        }
    }
}

/// Path that pauses or resumes schedule `id`.
pub fn toggle_path(id: i64) -> (path: String)
    ensures
        path@ == "/api/schedules/"@ + signed_decimal(id as int) + "/toggle"@,
{
    let mut path = "/api/schedules/".to_owned();
    push_signed_decimal(&mut path, id);
    path.append("/toggle");
    path
}

/// Path that deletes schedule `id`.
pub fn delete_path(id: i64) -> (path: String)
    ensures
        path@ == "/api/schedules/"@ + signed_decimal(id as int),
{
    let mut path = "/api/schedules/".to_owned();
    push_signed_decimal(&mut path, id);
    path
}

/// The form's interval never drops below one hour: a fresh form has 24, and
/// a typed number below one is raised to one.
pub proof fn lemma_interval_at_least_one_hour(text: Seq<char>)
    ensures
        interval_from_text(text) matches Some(h) ==> h >= 1,
        forall|v: i64| parsed_i64(text) == Some(v) && v >= 1 ==> interval_from_text(text) == Some(v),
        (parsed_i64(text) is Some && parsed_i64(text)->Some_0 < 1) ==> interval_from_text(text) == Some(1i64),
        parsed_i64(text) is None ==> interval_from_text(text) is None,
{
}

/// Each reload bumps the counter by one, wrapping around at `u32::MAX`.
pub proof fn lemma_refresh_counts_up(c: u32)
    ensures
        bump(c) as int == (c as int + 1) % 0x1_0000_0000,
{
}

/// A table row shows the interval as `<hours>h`, the last run or `never`,
/// and, by the schedule's state, the completed-status badge, `enabled` and
/// a pause button, or the category badge, `paused` and a resume button.
pub proof fn lemma_row_text(s: ScheduledScan, row: ScheduleRowText)
    requires
        row_text_of(s, row),
    ensures
        row.every@ == signed_decimal(s.interval_hours as int) + seq!['h'],
        match s.last_run_at {
            Some(t) => row.last_run@ == t@,
            None => row.last_run@ == "never"@,
        },
        s.enabled ==> row.badge_class@ == "badge badge-status-completed"@ && row.status@ == "enabled"@
            && row.toggle_label@ == "⏸ Pause"@,
        !s.enabled ==> row.badge_class@ == "badge badge-category"@ && row.status@ == "paused"@
            && row.toggle_label@ == "▶ Resume"@,
{
    reveal_strlit("h");
}

} // verus!
