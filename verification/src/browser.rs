//! The login through a browser that a driver automates: what the driver is told to do,
//! and what the exchange reads of the browser after each command.

use crate::cookie::{cookie_token, token_of_cookie_value, tokens_cookie, tokens_cookie_of, Cookie};
use crate::endpoints::{CONSOLE_ENTRY_URL, LOGIN_URL};
use crate::failure::{text_outcome_view, Failure, FailureView};
use crate::login::{Credentials, CredentialsView};
use crate::text::{has_prefix, starts_with};
use vstd::prelude::*;
use vstd::utf8::encode_utf8;

verus! {

/// How the driver starts the browser. The exchange hands these on and reads none of them.
#[derive(Clone, Debug)]
pub struct BrowserOptions {
    pub executable: Option<String>,
    pub sandbox: bool,
}

/// An input of the login form.
#[derive(Clone, Copy, Debug, PartialEq, Eq, Structural)]
pub enum Input {
    Username,
    Password,
}

/// A command for the driver. Each one waits, for a bounded time, until the page is ready
/// for it or shows what it waits for.
#[derive(Clone, Debug)]
pub enum BrowserCommand {
    /// Open `url` and wait until the navigation is complete.
    Navigate { url: String },
    /// Type `text` into an input of the login form.
    Fill { input: Input, text: String },
    /// Click the control that submits the login form.
    Submit,
    /// Wait for the element that the console shows to a user who is logged in.
    AwaitLogin,
    /// Read the cookies of the session.
    ReadCookies,
}

/// The mathematical content of a [`BrowserCommand`].
pub ghost enum BrowserCommandView {
    Navigate { url: Seq<char> },
    Fill { input: Input, text: Seq<char> },
    Submit,
    AwaitLogin,
    ReadCookies,
}

impl View for BrowserCommand {
    type V = BrowserCommandView;

    open spec fn view(&self) -> BrowserCommandView {
        match self {
            BrowserCommand::Navigate { url } => BrowserCommandView::Navigate { url: url@ },
            BrowserCommand::Fill { input, text } => BrowserCommandView::Fill {
                input: *input,
                text: text@,
            },
            BrowserCommand::Submit => BrowserCommandView::Submit,
            BrowserCommand::AwaitLogin => BrowserCommandView::AwaitLogin,
            BrowserCommand::ReadCookies => BrowserCommandView::ReadCookies,
        }
    }
}

/// The browser after a command: whether the command ran out of time, the address of the
/// page, and the cookies of the session.
#[derive(Clone, Debug)]
pub struct BrowserReport {
    pub timed_out: bool,
    pub url: String,
    pub cookies: Vec<Cookie>,
}

/// The mathematical content of a [`BrowserReport`].
pub ghost struct BrowserReportView {
    pub timed_out: bool,
    pub url: Seq<char>,
    pub cookies: Seq<Cookie>,
}

impl View for BrowserReport {
    type V = BrowserReportView;

    open spec fn view(&self) -> BrowserReportView {
        BrowserReportView { timed_out: self.timed_out, url: self.url@, cookies: self.cookies@ }
    }
}

/// Which command the exchange waits for.
#[derive(Clone, Copy, Debug, PartialEq, Eq, Structural)]
pub enum BrowserStage {
    /// The navigation to the console, which leads to the login page.
    Landing,
    /// The typing of the user name.
    Username,
    /// The typing of the password.
    Password,
    /// The click that submits the form.
    Submission,
    /// The wait for the console to show the user.
    Completion,
    /// The reading of the cookies.
    Cookies,
}

/// What the exchange does next.
#[derive(Debug)]
pub enum BrowserStep {
    /// Run `command` and hand the report back for `stage`.
    Run { command: BrowserCommand, stage: BrowserStage },
    /// The exchange is over.
    Done(Result<String, Failure>),
}

/// The mathematical content of a [`BrowserStep`].
pub ghost enum BrowserStepView {
    Run { command: BrowserCommandView, stage: BrowserStage },
    Done(Result<Seq<char>, FailureView>),
}

impl View for BrowserStep {
    type V = BrowserStepView;

    open spec fn view(&self) -> BrowserStepView {
        match self {
            BrowserStep::Run { command, stage } => BrowserStepView::Run {
                command: command@,
                stage: *stage,
            },
            BrowserStep::Done(outcome) => BrowserStepView::Done(text_outcome_view(*outcome)),
        }
    }
}

/// The first step of an exchange: the navigation to the console.
pub fn begin() -> (step: BrowserStep)
    ensures
        step@ == (BrowserStepView::Run {
            command: BrowserCommandView::Navigate { url: CONSOLE_ENTRY_URL@ },
            stage: BrowserStage::Landing,
        }),
{
    BrowserStep::Run {
        command: BrowserCommand::Navigate { url: CONSOLE_ENTRY_URL.to_owned() },
        stage: BrowserStage::Landing,
    }
}

/// What the cookies of a session yield: the token in the cookie `tokens` of the console.
pub open spec fn cookies_outcome(cookies: Seq<Cookie>) -> Result<Seq<char>, FailureView> {
    match tokens_cookie_of(cookies) {
        Ok(value) => token_of_cookie_value(encode_utf8(value)),
        Err(failure) => Err(failure),
    }
}

/// Reads the bearer token from the cookies of a session.
pub fn read_cookies(cookies: &Vec<Cookie>) -> (outcome: Result<String, Failure>)
    ensures
        text_outcome_view(outcome) == cookies_outcome(cookies@),
{
    match tokens_cookie(cookies) {
        Ok(value) => cookie_token(value.as_str()),
        Err(failure) => Err(failure),
    }
}

/// The step that follows the report `report` at `stage`. A command that ran out of time
/// ends the exchange with `LoginTimeout`, and a navigation that did not lead to the login
/// page with `UnexpectedPage`.
pub open spec fn next(
    stage: BrowserStage,
    credentials: CredentialsView,
    report: BrowserReportView,
) -> BrowserStepView {
    if report.timed_out {
        BrowserStepView::Done(Err(FailureView::LoginTimeout))
    } else {
        match stage {
            BrowserStage::Landing => if has_prefix(report.url, LOGIN_URL@) {
                BrowserStepView::Run {
                    command: BrowserCommandView::Fill {
                        input: Input::Username,
                        text: credentials.username,
                    },
                    stage: BrowserStage::Username,
                }
            } else {
                BrowserStepView::Done(
                    Err(FailureView::UnexpectedPage { expected: LOGIN_URL@, observed: report.url }),
                )
            },
            BrowserStage::Username => BrowserStepView::Run {
                command: BrowserCommandView::Fill {
                    input: Input::Password,
                    text: credentials.password,
                },
                stage: BrowserStage::Password,
            },
            BrowserStage::Password => BrowserStepView::Run {
                command: BrowserCommandView::Submit,
                stage: BrowserStage::Submission,
            },
            BrowserStage::Submission => BrowserStepView::Run {
                command: BrowserCommandView::AwaitLogin,
                stage: BrowserStage::Completion,
            },
            BrowserStage::Completion => BrowserStepView::Run {
                command: BrowserCommandView::ReadCookies,
                stage: BrowserStage::Cookies,
            },
            BrowserStage::Cookies => BrowserStepView::Done(cookies_outcome(report.cookies)),
        }
    }
}

/// Reads the report that came in at `stage` and decides what follows.
pub fn advance(stage: BrowserStage, credentials: &Credentials, report: &BrowserReport) -> (step:
    BrowserStep)
    ensures
        step@ == next(stage, credentials@, report@),
{
    if report.timed_out {
        return BrowserStep::Done(Err(Failure::LoginTimeout));
    }
    match stage {
        BrowserStage::Landing => {
            if starts_with(report.url.as_str(), LOGIN_URL) {
                BrowserStep::Run {
                    command: BrowserCommand::Fill {
                        input: Input::Username,
                        text: credentials.username.clone(),
                    },
                    stage: BrowserStage::Username,
                }
            } else {
                BrowserStep::Done(
                    Err(
                        Failure::UnexpectedPage {
                            expected: LOGIN_URL.to_owned(),
                            observed: report.url.clone(),
                        },
                    ),
                )
            }
        },
        BrowserStage::Username => BrowserStep::Run {
            command: BrowserCommand::Fill {
                input: Input::Password,
                text: credentials.password.clone(),
            },
            stage: BrowserStage::Password,
        },
        BrowserStage::Password => BrowserStep::Run {
            command: BrowserCommand::Submit,
            stage: BrowserStage::Submission,
        },
        BrowserStage::Submission => BrowserStep::Run {
            command: BrowserCommand::AwaitLogin,
            stage: BrowserStage::Completion,
        },
        BrowserStage::Completion => BrowserStep::Run {
            command: BrowserCommand::ReadCookies,
            stage: BrowserStage::Cookies,
        },
        BrowserStage::Cookies => BrowserStep::Done(read_cookies(&report.cookies)),
    }
}

} // verus!
