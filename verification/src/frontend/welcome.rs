//! The first-run welcome wizard: an introduction, an optional e-mail
//! notification setup, and a closing screen. It only ever moves forward.
use vstd::prelude::*;

use crate::frontend::api::error_notice;
use crate::scanners::zap::opt_str;

verus! {

/// One setting to store: key and value.
pub struct SettingPair {
    pub key: String,
    pub value: String,
}

/// What the e-mail setup screen holds.
pub struct EmailSetup {
    pub smtp_server: String,
    pub smtp_port: String,
    pub smtp_username: String,
    pub smtp_password: String,
    pub email_from: String,
    pub email_to: String,
}

/// The screens of the wizard.
#[derive(Clone, Copy, Debug, PartialEq, Eq, Structural)]
pub enum WelcomeScreen {
    Intro,
    Email,
    Done,
}

pub open spec fn screen_of(step: u8) -> WelcomeScreen {
    if step == 1 {
        WelcomeScreen::Intro
    } else if step == 2 {
        WelcomeScreen::Email
    } else {
        WelcomeScreen::Done
    }
}

/// The pages a finishing button of a screen can lead to.
pub open spec fn finish_targets(screen: WelcomeScreen) -> Seq<Seq<char>> {
    match screen {
        WelcomeScreen::Intro => seq!["/scan"@],
        WelcomeScreen::Email => Seq::empty(),
        WelcomeScreen::Done => seq!["/scan"@, "/schedules"@, "/"@],
    }
}

pub open spec fn pair_view(p: SettingPair) -> (Seq<char>, Seq<char>) {
    (p.key@, p.value@)
}

/// The settings the e-mail screen saves, in order.
pub open spec fn email_settings(e: EmailSetup) -> Seq<(Seq<char>, Seq<char>)> {
    seq![
        ("smtp_server"@, e.smtp_server@),
        ("smtp_port"@, e.smtp_port@),
        ("smtp_username"@, e.smtp_username@),
        ("smtp_password"@, e.smtp_password@),
        ("email_from"@, e.email_from@),
        ("email_to"@, e.email_to@),
    ]
}

/// An empty e-mail setup, with the usual submission port 587.
pub fn default_email_setup() -> (e: EmailSetup)
    ensures
        e.smtp_server@ == Seq::<char>::empty(),
        e.smtp_port@ == "587"@,
        e.smtp_username@ == Seq::<char>::empty(),
        e.smtp_password@ == Seq::<char>::empty(),
        e.email_from@ == Seq::<char>::empty(),
        e.email_to@ == Seq::<char>::empty(),
{
    EmailSetup {
        smtp_server: String::new(),
        smtp_port: "587".to_owned(),
        smtp_username: String::new(),
        smtp_password: String::new(),
        email_from: String::new(),
        email_to: String::new(),
    }
}

/// Saving is offered once an SMTP server is given.
pub fn can_save_email(e: &EmailSetup) -> (ok: bool)
    ensures
        ok == (e.smtp_server@.len() > 0),
{
    !e.smtp_server.as_str().is_empty()
}

fn pair(key: &str, value: &String) -> (p: SettingPair)
    ensures
        pair_view(p) == (key@, value@),
{
    SettingPair { key: key.to_owned(), value: value.clone() }
}

/// The settings that "Save & Continue" stores.
pub fn email_setting_pairs(e: &EmailSetup) -> (pairs: Vec<SettingPair>)
    ensures
        pairs@.map_values(|p: SettingPair| pair_view(p)) == email_settings(*e),
{
    let pairs = vec![
        pair("smtp_server", &e.smtp_server),
        pair("smtp_port", &e.smtp_port),
        pair("smtp_username", &e.smtp_username),
        pair("smtp_password", &e.smtp_password),
        pair("email_from", &e.email_from),
        pair("email_to", &e.email_to),
    ];
    assert(pairs@.map_values(|p: SettingPair| pair_view(p)) =~= email_settings(*e));
    pairs
}

/// The wizard as plain values.
pub struct WizardModel {
    pub step: u8,
    pub save_msg: Option<Seq<char>>,
}

/// The moves the wizard's buttons make.
pub enum WizardMove {
    /// "Continue" on the introduction.
    Continue,
    /// "Skip" on the e-mail setup.
    SkipEmail,
    /// The answer to "Save & Continue": `Ok`, or the error text.
    Saved(Result<(), Seq<char>>),
}

/// The wizard after a move.
pub open spec fn wizard_after(m: WizardModel, mv: WizardMove) -> WizardModel {
    match mv {
        WizardMove::Continue => WizardModel { step: 2, ..m },
        WizardMove::SkipEmail => WizardModel { step: 3, ..m },
        WizardMove::Saved(Ok(())) => WizardModel { step: 3, save_msg: Some("Saved"@) },
        WizardMove::Saved(Err(e)) => WizardModel { save_msg: Some("Error: "@ + e), ..m },
    }
}

/// The moves a screen offers.
pub open spec fn offers(screen: WelcomeScreen, mv: WizardMove) -> bool {
    match screen {
        WelcomeScreen::Intro => mv is Continue,
        WelcomeScreen::Email => mv is SkipEmail || mv is Saved,
        WelcomeScreen::Done => false,
    }
}

pub open spec fn screen_rank(screen: WelcomeScreen) -> int {
    match screen {
        WelcomeScreen::Intro => 0,
        WelcomeScreen::Email => 1,
        WelcomeScreen::Done => 2,
    }
}

/// Where the wizard is, and the notice of the last save.
pub struct WelcomeWizard {
    step: u8,
    save_msg: Option<String>,
}

impl View for WelcomeWizard {
    type V = WizardModel;

    closed spec fn view(&self) -> WizardModel {
        WizardModel { step: self.step, save_msg: opt_str(self.save_msg) }
    }
}

impl WelcomeWizard {
    /// The wizard opens on the introduction.
    pub fn new() -> (w: WelcomeWizard)
        ensures
            w@ == (WizardModel { step: 1, save_msg: None }),
    {
        WelcomeWizard { step: 1, save_msg: None }
    }

    /// The screen shown.
    pub fn screen(&self) -> (s: WelcomeScreen)
        ensures
            s == screen_of(self@.step),
    {
        if self.step == 1 {
            WelcomeScreen::Intro
        } else if self.step == 2 {
            WelcomeScreen::Email
        } else {
            WelcomeScreen::Done
        }
    }

    /// The notice of the last save, if any.
    pub fn save_msg(&self) -> (m: Option<String>)
        ensures
            opt_str(m) == self@.save_msg,
    {
        match &self.save_msg {
            Some(m) => Some(m.clone()),
            None => None,
        }
    }

    /// "Continue" on the introduction: on to the e-mail setup.
    pub fn continue_to_email(&mut self)
        ensures
            final(self)@ == wizard_after(old(self)@, WizardMove::Continue),
    {
        self.step = 2;
    }

    /// "Skip" on the e-mail setup: on to the closing screen.
    pub fn skip_email(&mut self)
        ensures
            final(self)@ == wizard_after(old(self)@, WizardMove::SkipEmail),
    {
        self.step = 3;
    }

    /// The answer to saving the e-mail settings: on success, `Saved` and the
    /// closing screen; on failure, the error, staying on the screen.
    pub fn on_save_result(&mut self, result: Result<(), String>)
        ensures
            final(self)@ == wizard_after(old(self)@, WizardMove::Saved(match result {
                Ok(()) => Ok(()),
                Err(e) => Err(e@),
            })),
    {
        match result {
            Ok(()) => {
                self.save_msg = Some("Saved".to_owned());
                self.step = 3;
            },
            Err(e) => {
                self.save_msg = Some(error_notice(e.as_str()));
            },
        }
    }
}

/// The pages the finishing buttons of `screen` lead to, in the order shown.
pub fn finish_destinations(screen: &WelcomeScreen) -> (dests: Vec<&'static str>)
    ensures
        dests@.map_values(|d: &'static str| d@) == finish_targets(*screen),
{
    let dests: Vec<&'static str> = match screen {
        WelcomeScreen::Intro => vec!["/scan"],
        WelcomeScreen::Email => Vec::new(),
        WelcomeScreen::Done => vec!["/scan", "/schedules", "/"],
    };
    assert(dests@.map_values(|d: &'static str| d@) =~= finish_targets(*screen));
    dests
}

/// The wizard never goes back: every move a screen offers leads to the
/// same or a later screen, and a successful save always reaches the end.
pub proof fn lemma_wizard_moves_forward(m: WizardModel, mv: WizardMove)
    requires
        offers(screen_of(m.step), mv),
    ensures
        screen_rank(screen_of(wizard_after(m, mv).step)) >= screen_rank(screen_of(m.step)),
        mv == WizardMove::Saved(Ok(())) ==> screen_of(wizard_after(m, mv).step) == WelcomeScreen::Done,
{
}

/// The wizard shows the introduction at step 1, the e-mail setup at step 2
/// and the closing screen at any later step; the finishing buttons lead to
/// New Scan from the introduction, and to New Scan, Schedules and the
/// dashboard from the closing screen.
pub proof fn lemma_screens(step: u8)
    ensures
        (screen_of(step) == WelcomeScreen::Intro) == (step == 1),
        (screen_of(step) == WelcomeScreen::Email) == (step == 2),
        (screen_of(step) == WelcomeScreen::Done) == (step != 1 && step != 2),
        finish_targets(WelcomeScreen::Intro) == seq!["/scan"@],
        finish_targets(WelcomeScreen::Email).len() == 0,
        finish_targets(WelcomeScreen::Done) == seq!["/scan"@, "/schedules"@, "/"@],
{
}

/// The wizard's moves: Continue goes to step 2 and Skip to step 3, keeping
/// the notice; a save that succeeded goes to step 3 saying `Saved`; a failed
/// one stays, showing `Error: <reason>`.
pub proof fn lemma_wizard_moves(m: WizardModel, e: Seq<char>)
    ensures
        wizard_after(m, WizardMove::Continue) == (WizardModel { step: 2, save_msg: m.save_msg }),
        wizard_after(m, WizardMove::SkipEmail) == (WizardModel { step: 3, save_msg: m.save_msg }),
        wizard_after(m, WizardMove::Saved(Ok(()))) == (WizardModel { step: 3, save_msg: Some("Saved"@) }),
        wizard_after(m, WizardMove::Saved(Err(e))) == (WizardModel { step: m.step, save_msg: Some("Error: "@ + e) }),
{
}

/// "Save & Continue" stores the six e-mail settings, each under its own
/// key, in the order the form shows them.
pub proof fn lemma_email_settings(e: EmailSetup)
    ensures
        email_settings(e).len() == 6,
        email_settings(e)[0] == ("smtp_server"@, e.smtp_server@),
        email_settings(e)[1] == ("smtp_port"@, e.smtp_port@),
        email_settings(e)[2] == ("smtp_username"@, e.smtp_username@),
        email_settings(e)[3] == ("smtp_password"@, e.smtp_password@),
        email_settings(e)[4] == ("email_from"@, e.email_from@),
        email_settings(e)[5] == ("email_to"@, e.email_to@),
{
}

} // verus!
