use vstd::prelude::*;

verus! {

/// The kind of a status message.
#[derive(Clone, Copy, Debug, PartialEq, Eq, Structural)]
pub enum StatusType {
    Success,
    Warn,
    Error,
    Plain,
}

impl Default for StatusType {
    fn default() -> (r: Self)
        ensures
            r == StatusType::Plain,
    {
        StatusType::Plain
    }
}

/// A message shown in the status bar, such as an error or a success.
#[derive(Debug)]
pub struct StatusMessage {
    pub message: Option<String>,
    pub status: StatusType,
}

/// A status message as plain values.
pub struct StatusMessageView {
    pub message: Option<Seq<char>>,
    pub status: StatusType,
}

impl View for StatusMessage {
    type V = StatusMessageView;

    open spec fn view(&self) -> StatusMessageView {
        StatusMessageView { message: self.message.deep_view(), status: self.status }
    }
}

impl DeepView for StatusMessage {
    type V = StatusMessageView;

    open spec fn deep_view(&self) -> StatusMessageView {
        self@
    }
}

/// Copies an optional text.
pub fn clone_opt_string(s: &Option<String>) -> (r: Option<String>)
    ensures
        r.deep_view() == s.deep_view(),
{
    match s {
        Some(t) => Some(t.clone()),
        None => None,
    }
}

impl Clone for StatusMessage {
    fn clone(&self) -> (r: Self)
        ensures
            r@ == self@,
    {
        StatusMessage { message: clone_opt_string(&self.message), status: self.status }
    }
}

/// The empty status: no message, of no kind.
pub open spec fn no_status() -> StatusMessageView {
    StatusMessageView { message: None, status: StatusType::Plain }
}

impl Default for StatusMessage {
    fn default() -> (r: Self)
        ensures
            r@ == no_status(),
    {
        StatusMessage { message: None, status: StatusType::Plain }
    }
}

impl StatusMessage {
    pub fn new(message: Option<String>, status: StatusType) -> (r: Self)
        ensures
            r.message == message,
            r.status == status,
    {
        Self { message, status }
    }
}

/// The colour of the palette in which something is drawn.
#[derive(Clone, Copy, Debug, PartialEq, Eq, Structural)]
pub enum Accent {
    Primary,
    Success,
    Warning,
    Danger,
}

/// The accent of each kind of status message.
pub open spec fn status_accent(status: StatusType) -> Accent {
    match status {
        StatusType::Success => Accent::Success,
        StatusType::Warn => Accent::Warning,
        StatusType::Error => Accent::Danger,
        StatusType::Plain => Accent::Primary,
    }
}

/// Success shows in the success colour, a warning in the warning colour, an
/// error in the danger colour and no status in the primary colour.
pub fn accent_color(status: &StatusType) -> (r: Accent)
    ensures
        r == status_accent(*status),
{
    match status {
        StatusType::Success => Accent::Success,
        StatusType::Warn => Accent::Warning,
        StatusType::Error => Accent::Danger,
        StatusType::Plain => Accent::Primary,
    }
}

} // verus!
