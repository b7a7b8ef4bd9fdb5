//! Waiting for a ZAP spider run or active scan to finish: after each status
//! reply, either wait and poll again, or stop (with the warning to log, if
//! any). Every way out is bounded: an error, a missing status or the poll
//! ceiling ends the wait.
use vstd::prelude::*;

use crate::text::str_eq;
use crate::scanners::zap::{status_url, status_url_for, ZapReply};

verus! {

/// The state of a wait, as plain values.
pub struct WaitModel {
    pub module: Seq<char>,
    pub scan_id: Seq<char>,
    pub poll_secs: u64,
    pub max_polls: u32,
    pub polls: u32,
}

impl WaitModel {
    /// A wait that may still poll: nothing polled yet, or fewer polls than
    /// the ceiling.
    pub open spec fn running(self) -> bool {
        self.polls == 0 || self.polls < self.max_polls
    }
}

/// What to do after a status reply.
pub enum WaitStep {
    /// Sleep this many seconds, then poll again.
    Sleep(u64),
    /// Stop waiting; log this warning first, if there is one.
    Done(Option<String>),
}

pub enum WaitOutcome {
    Sleep(u64),
    Done(Option<Seq<char>>),
}

impl WaitStep {
    pub open spec fn outcome(self) -> WaitOutcome {
        match self {
            WaitStep::Sleep(s) => WaitOutcome::Sleep(s),
            WaitStep::Done(None) => WaitOutcome::Done(None),
            WaitStep::Done(Some(m)) => WaitOutcome::Done(Some(m@)),
        }
    }
}

pub open spec fn request_failed_warning(module: Seq<char>, err: Seq<char>) -> Seq<char> {
    "ZAP "@ + module + " status request failed ("@ + err + ") — treating as finished"@
}

pub open spec fn unparseable_warning(module: Seq<char>, err: Seq<char>) -> Seq<char> {
    "ZAP "@ + module + " status response unparseable ("@ + err + ") — treating as finished"@
}

pub open spec fn no_status_warning(module: Seq<char>, body: Seq<char>) -> Seq<char> {
    "ZAP "@ + module + " status came back without a progress field ("@ + body
        + ") — treating as finished"@
}

pub open spec fn budget_warning(module: Seq<char>) -> Seq<char> {
    "ZAP "@ + module + " did not finish within the time budget — moving on with partial results"@
}

/// What a wait in state `w` does with `reply`.
pub open spec fn wait_outcome(w: WaitModel, reply: ZapReply) -> WaitOutcome {
    match reply {
        ZapReply::RequestFailed(e) => WaitOutcome::Done(
            Some(request_failed_warning(w.module, e@)),
        ),
        ZapReply::Unparseable(e) => WaitOutcome::Done(Some(unparseable_warning(w.module, e@))),
        ZapReply::Parsed(body) => match body.status {
            None => WaitOutcome::Done(Some(no_status_warning(w.module, body.text@))),
            Some(s) => if s@ == "100"@ {
                WaitOutcome::Done(None)
            } else if w.polls + 1 >= w.max_polls {
                WaitOutcome::Done(Some(budget_warning(w.module)))
            } else {
                WaitOutcome::Sleep(w.poll_secs)
            },
        },
    }
}

/// The state of the wait after `reply`: one more poll counted when it goes on.
pub open spec fn wait_after(w: WaitModel, reply: ZapReply) -> WaitModel {
    match wait_outcome(w, reply) {
        WaitOutcome::Sleep(_) => WaitModel { polls: (w.polls + 1) as u32, ..w },
        WaitOutcome::Done(_) => w,
    }
}

/// Polling the progress of one ZAP run.
pub struct ProgressWait {
    module: String,
    scan_id: String,
    poll_secs: u64,
    max_polls: u32,
    polls: u32,
}

impl View for ProgressWait {
    type V = WaitModel;

    closed spec fn view(&self) -> WaitModel {
        WaitModel {
            module: self.module@,
            scan_id: self.scan_id@,
            poll_secs: self.poll_secs,
            max_polls: self.max_polls,
            polls: self.polls,
        }
    }
}

impl ProgressWait {
    #[verifier::type_invariant]
    spec fn inv(self) -> bool {
        self.polls == 0 || self.polls < self.max_polls
    }

    /// A wait for run `scan_id` of module `module` (`spider` or `ascan`),
    /// polling every `poll_secs` seconds at most `max_polls` times.
    pub fn new(module: &str, scan_id: &str, poll_secs: u64, max_polls: u32) -> (w: ProgressWait)
        ensures
            w@ == (WaitModel { module: module@, scan_id: scan_id@, poll_secs, max_polls, polls: 0 }),
    {
        ProgressWait {
            module: module.to_owned(),
            scan_id: scan_id.to_owned(),
            poll_secs,
            max_polls,
            polls: 0,
        }
    }

    /// The URL to poll next.
    pub fn status_url(&self, zap_url: &str, api_key: &str) -> (url: String)
        ensures
            url@ == status_url_for(zap_url@, self@.module, api_key@, self@.scan_id),
    {
        status_url(zap_url, self.module.as_str(), api_key, self.scan_id.as_str())
    }

    /// Decides what follows a status reply.
    pub fn on_reply(&mut self, reply: &ZapReply) -> (step: WaitStep)
        ensures
            step.outcome() == wait_outcome(old(self)@, *reply),
            final(self)@ == wait_after(old(self)@, *reply),
            final(self)@.running(),
            // A run below 100% with polls left: sleep, and count one more poll.
            (reply matches ZapReply::Parsed(b) && b.status matches Some(s) && s@ != "100"@
                && old(self)@.polls + 1 < old(self)@.max_polls) ==> (step matches WaitStep::Sleep(secs)
                && secs == old(self)@.poll_secs && final(self)@.polls == old(self)@.polls + 1),
            // Only 100% ends the wait silently.
            (step matches WaitStep::Done(None)) == (reply matches ZapReply::Parsed(b)
                && b.status matches Some(s) && s@ == "100"@),
    {
        proof {
            use_type_invariant(&*self);
        }
        match reply {
            ZapReply::RequestFailed(e) => {
                let msg = self.warning(" status request failed (", e.as_str(), ") — treating as finished");
                assert(msg@ =~= request_failed_warning(self@.module, e@));
                WaitStep::Done(Some(msg))
            },
            ZapReply::Unparseable(e) => {
                let msg = self.warning(" status response unparseable (", e.as_str(), ") — treating as finished");
                assert(msg@ =~= unparseable_warning(self@.module, e@));
                WaitStep::Done(Some(msg))
            },
            ZapReply::Parsed(body) => match &body.status {
                None => {
                    let msg = self.warning(
                        " status came back without a progress field (",
                        body.text.as_str(),
                        ") — treating as finished",
                    );
                    assert(msg@ =~= no_status_warning(self@.module, body.text@));
                    WaitStep::Done(Some(msg))
                },
                Some(s) => {
                    if str_eq(s.as_str(), "100") {
                        WaitStep::Done(None)
                    } else {
                        let polls = self.polls + 1;
                        if polls >= self.max_polls {
                            proof {
                                reveal_strlit("");
                            }
                            let msg = self.warning(
                                " did not finish within the time budget — moving on with partial results",
                                "",
                                "",
                            );
                            assert(msg@ =~= budget_warning(self@.module));
                            WaitStep::Done(Some(msg))
                        } else {
                            *self = ProgressWait {
                                module: self.module.clone(),
                                scan_id: self.scan_id.clone(),
                                poll_secs: self.poll_secs,
                                max_polls: self.max_polls,
                                polls,
                            };
                            WaitStep::Sleep(self.poll_secs)
                        }
                    }
                },
            },
        }
    }

    /// `ZAP <module><before><detail><after>`.
    fn warning(&self, before: &str, detail: &str, after: &str) -> (msg: String)
        ensures
            msg@ == "ZAP "@ + self@.module + before@ + detail@ + after@,
    {
        let mut msg = "ZAP ".to_owned();
        msg.append(self.module.as_str());
        msg.append(before);
        msg.append(detail);
        msg.append(after);
        msg
    }
}

} // verus!

verus! {

/// The wait after each of `replies` in turn, or `None` once one of them
/// has ended it.
pub open spec fn wait_through(w: WaitModel, replies: Seq<ZapReply>) -> Option<WaitModel>
    decreases replies.len(),
{
    if replies.len() == 0 {
        Some(w)
    } else {
        match wait_outcome(w, replies[0]) {
            WaitOutcome::Done(_) => None,
            WaitOutcome::Sleep(_) => wait_through(wait_after(w, replies[0]), replies.drop_first()),
        }
    }
}

/// A wait never outlasts its ceiling: whatever ZAP replies, a wait that has
/// polled `polls` times ends after at most `max(max_polls, 1) - polls`
/// more replies, and a fresh wait after at most `max(max_polls, 1)`.
pub proof fn lemma_wait_is_bounded(w: WaitModel, replies: Seq<ZapReply>)
    requires
        w.running(),
        replies.len() >= 1,
        replies.len() + w.polls >= w.max_polls,
    ensures
        wait_through(w, replies) is None,
    decreases replies.len(),
{
    match wait_outcome(w, replies[0]) {
        WaitOutcome::Done(_) => {},
        WaitOutcome::Sleep(_) => {
            let next = wait_after(w, replies[0]);
            assert(next.polls == w.polls + 1 && next.polls < next.max_polls);
            lemma_wait_is_bounded(next, replies.drop_first());
        },
    }
}

/// A status of `100` ends the wait without a warning; an error, or a reply
/// without a status, ends it with one.
pub proof fn lemma_wait_ends_on_completion_or_error(w: WaitModel, r: ZapReply)
    ensures
        (r matches ZapReply::Parsed(b) && b.status matches Some(s) && s@ == "100"@)
            ==> wait_outcome(w, r) == WaitOutcome::Done(None),
        (r is RequestFailed || r is Unparseable || (r matches ZapReply::Parsed(b) && b.status is None))
            ==> wait_outcome(w, r) matches WaitOutcome::Done(Some(_)),
{
}

/// What one status reply does to a wait, case by case: 100% ends it
/// silently; a failed request, an unparseable body or a body without a
/// status ends it with a warning naming the module and the cause; any other
/// status sleeps the poll interval and counts a poll, unless that poll was
/// the last one allowed, which ends the wait with the budget warning.
pub proof fn lemma_wait_reply_cases(w: WaitModel, r: ZapReply)
    ensures
        match r {
            ZapReply::RequestFailed(e) => wait_outcome(w, r) == WaitOutcome::Done(
                Some("ZAP "@ + w.module + " status request failed ("@ + e@ + ") — treating as finished"@),
            ),
            ZapReply::Unparseable(e) => wait_outcome(w, r) == WaitOutcome::Done(
                Some("ZAP "@ + w.module + " status response unparseable ("@ + e@ + ") — treating as finished"@),
            ),
            ZapReply::Parsed(b) => match b.status {
                None => wait_outcome(w, r) == WaitOutcome::Done(
                    Some(
                        "ZAP "@ + w.module + " status came back without a progress field ("@ + b.text@
                            + ") — treating as finished"@,
                    ),
                ),
                Some(s) => if s@ == "100"@ {
                    wait_outcome(w, r) == WaitOutcome::Done(None)
                } else if w.polls + 1 < w.max_polls {
                    &&& wait_outcome(w, r) == WaitOutcome::Sleep(w.poll_secs)
                    &&& wait_after(w, r) == WaitModel { polls: (w.polls + 1) as u32, ..w }
                } else {
                    wait_outcome(w, r) == WaitOutcome::Done(
                        Some(
                            "ZAP "@ + w.module
                                + " did not finish within the time budget — moving on with partial results"@,
                        ),
                    )
                },
            },
        },
{
}

} // verus!
