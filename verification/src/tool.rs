//! What tools share: errors, the caller's entitlements, and what a tool hands back.
use vstd::prelude::*;

use crate::http::{HttpRequest, RequestView};
use crate::json::{no_fields, Fields, Json, JsonView};
use crate::text::{opt_str, opt_text, owned, owned_opt};

verus! {

/// Why a tool call failed.
#[derive(Debug, PartialEq, Eq)]
pub enum ToolError {
    InvalidArgument(String),
    NotConfigured(String),
    NotFound(String),
    Http(String),
    Execution(String),
}

/// The content of a [`ToolError`].
pub enum ErrorView {
    InvalidArgument(Seq<char>),
    NotConfigured(Seq<char>),
    NotFound(Seq<char>),
    Http(Seq<char>),
    Execution(Seq<char>),
}

impl View for ToolError {
    type V = ErrorView;

    open spec fn view(&self) -> ErrorView {
        match *self {
            ToolError::InvalidArgument(m) => ErrorView::InvalidArgument(m@),
            ToolError::NotConfigured(m) => ErrorView::NotConfigured(m@),
            ToolError::NotFound(m) => ErrorView::NotFound(m@),
            ToolError::Http(m) => ErrorView::Http(m@),
            ToolError::Execution(m) => ErrorView::Execution(m@),
        }
    }
}

impl ToolError {
    /// An `InvalidArgument` with this message.
    pub fn invalid(message: &str) -> (r: ToolError)
        ensures
            r@ == ErrorView::InvalidArgument(message@),
    {
        ToolError::InvalidArgument(owned(message))
    }

    /// A `NotConfigured` with this message.
    pub fn not_configured(message: &str) -> (r: ToolError)
        ensures
            r@ == ErrorView::NotConfigured(message@),
    {
        ToolError::NotConfigured(owned(message))
    }

    /// The message.
    pub fn message(&self) -> (r: &str)
        ensures
            r@ == self@.message(),
    {
        match self {
            ToolError::InvalidArgument(m) => m.as_str(),
            ToolError::NotConfigured(m) => m.as_str(),
            ToolError::NotFound(m) => m.as_str(),
            ToolError::Http(m) => m.as_str(),
            ToolError::Execution(m) => m.as_str(),
        }
    }
}

impl ErrorView {
    /// The message.
    pub open spec fn message(self) -> Seq<char> {
        match self {
            ErrorView::InvalidArgument(m) => m,
            ErrorView::NotConfigured(m) => m,
            ErrorView::NotFound(m) => m,
            ErrorView::Http(m) => m,
            ErrorView::Execution(m) => m,
        }
    }
}

/// The content of a result with a JSON answer.
pub open spec fn answer(r: Result<Json, ToolError>) -> Result<JsonView, ErrorView> {
    match r {
        Ok(v) => Ok(v@),
        Err(e) => Err(e@),
    }
}

/// Who is asking, as the gateway established it. A caller that nobody vouched for is
/// [`CallerContext::untrusted`], which is entitled to nothing. A caller that claimed to be someone
/// and could not be believed stands below even that: it is [`CallerContext::unidentified`].
#[derive(Debug)]
pub struct CallerContext {
    identified: bool,
    calendar: bool,
    routine: bool,
    media_account: Option<String>,
}

impl CallerContext {
    /// Whether nothing that the caller claimed about itself is left unbelieved.
    pub closed spec fn identified(&self) -> bool {
        self.identified
    }

    /// Whether calendar knowledge may be used for this caller.
    pub closed spec fn calendar(&self) -> bool {
        self.calendar
    }

    /// Whether knowledge of daily routine may be used for this caller.
    pub closed spec fn routine(&self) -> bool {
        self.routine
    }

    /// The media account this caller is mapped to.
    pub closed spec fn account(&self) -> Option<Seq<char>> {
        opt_text(self.media_account)
    }

    /// A caller with the given entitlements.
    pub fn minted(calendar: bool, routine: bool, media_account: Option<&str>) -> (r: CallerContext)
        ensures
            r.identified(),
            r.calendar() == calendar,
            r.routine() == routine,
            r.account() == opt_str(media_account),
    {
        CallerContext {
            identified: true,
            calendar,
            routine,
            media_account: owned_opt(media_account),
        }
    }

    /// A caller entitled to nothing.
    pub fn untrusted() -> (r: CallerContext)
        ensures
            r.identified(),
            !r.calendar(),
            !r.routine(),
            r.account() is None,
    {
        CallerContext { identified: true, calendar: false, routine: false, media_account: None }
    }

    /// A caller entitled to nothing, whose claim about itself could not be believed.
    pub fn unidentified() -> (r: CallerContext)
        ensures
            !r.identified(),
            !r.calendar(),
            !r.routine(),
            r.account() is None,
    {
        CallerContext { identified: false, calendar: false, routine: false, media_account: None }
    }

    /// The same caller once more.
    pub fn copy(&self) -> (r: CallerContext)
        ensures
            r.identified() == self.identified(),
            r.calendar() == self.calendar(),
            r.routine() == self.routine(),
            r.account() == self.account(),
    {
        CallerContext {
            identified: self.identified,
            calendar: self.calendar,
            routine: self.routine,
            media_account: owned_opt(self.media_account()),
        }
    }

    /// Whether nothing that the caller claimed about itself is left unbelieved.
    pub fn is_identified(&self) -> (r: bool)
        ensures
            r == self.identified(),
    {
        self.identified
    }

    /// Whether calendar knowledge may be used for this caller.
    pub fn may_infer_from_calendar(&self) -> (r: bool)
        ensures
            r == self.calendar(),
    {
        self.calendar
    }

    /// Whether knowledge of daily routine may be used for this caller.
    pub fn may_infer_from_routine(&self) -> (r: bool)
        ensures
            r == self.routine(),
    {
        self.routine
    }

    /// The media account this caller is mapped to.
    pub fn media_account(&self) -> (r: Option<&str>)
        ensures
            opt_str(r) == self.account(),
    {
        match &self.media_account {
            Some(a) => Some(a.as_str()),
            None => None,
        }
    }
}

impl Default for CallerContext {
    /// A caller entitled to nothing.
    fn default() -> (r: CallerContext)
        ensures
            r.identified(),
            !r.calendar(),
            !r.routine(),
            r.account() is None,
    {
        CallerContext::untrusted()
    }
}

/// What a tool call hands back: a text to show and, for some tools, structured content.
#[derive(Debug, PartialEq, Eq)]
pub struct ToolOutput {
    pub text: String,
    pub structured: Option<Json>,
}

/// A record of something that was changed, or of an attempt that failed.
#[derive(Debug, PartialEq, Eq)]
pub struct Audit {
    pub tool: String,
    pub success: bool,
    pub detail: String,
}

/// The content of an [`Audit`] record.
pub struct AuditView {
    pub tool: Seq<char>,
    pub success: bool,
    pub detail: Seq<char>,
}

impl View for Audit {
    type V = AuditView;

    open spec fn view(&self) -> AuditView {
        AuditView { tool: self.tool@, success: self.success, detail: self.detail@ }
    }
}

/// The content of an optional record.
pub open spec fn opt_audit(a: Option<Audit>) -> Option<AuditView> {
    match a {
        Some(x) => Some(x@),
        None => None,
    }
}

/// What a tool that talks to services does next.
#[derive(Debug, PartialEq, Eq)]
pub enum Step {
    /// The answer is ready; the record, if any, is to be written.
    Done(Json, Option<Audit>),
    /// Send this request and come back with the reply.
    Send(HttpRequest),
    /// The call failed; the record, if any, is to be written.
    Failed(ToolError, Option<Audit>),
}

/// The content of a [`Step`].
pub enum StepView {
    Done(JsonView, Option<AuditView>),
    Send(RequestView),
    Failed(ErrorView, Option<AuditView>),
}

impl View for Step {
    type V = StepView;

    open spec fn view(&self) -> StepView {
        match *self {
            Step::Done(answer, audit) => StepView::Done(answer@, opt_audit(audit)),
            Step::Send(request) => StepView::Send(request@),
            Step::Failed(error, audit) => StepView::Failed(error@, opt_audit(audit)),
        }
    }
}

impl Step {
    /// Whether a request is to be sent.
    pub fn is_send(&self) -> (r: bool)
        ensures
            r == (self@ is Send),
    {
        match self {
            Step::Send(_) => true,
            _ => false,
        }
    }
}

/// A two-part answer: a sentence to say, and the structured content behind it.
pub open spec fn spoken(summary: Seq<char>, structured: JsonView) -> JsonView {
    JsonView::Object(
        no_fields().push(("summary"@, JsonView::Str(summary))).push(("structured"@, structured)),
    )
}

/// Builds a two-part answer.
pub fn speak(summary: &str, structured: Json) -> (r: Json)
    ensures
        r@ == spoken(summary@, structured@),
{
    let mut f = Fields::new();
    f.put("summary", Json::text(summary));
    f.put("structured", structured);
    f.object()
}

} // verus!
