//! Toasts: what a notification of the runtime shows.
use vstd::prelude::*;

verus! {

/// Identifies a toast while it is on screen.
pub type ToastId = u64;

#[derive(Debug, Clone, Copy, PartialEq, Eq, Structural)]
pub enum ToastKind {
    Success,
    Info,
    Warning,
    Error,
    Loading,
}

/// The family of notifications that the runtime raises.
#[derive(Debug, Clone, Copy, PartialEq, Eq, Structural)]
pub struct RuntimeToastNotification;

/// The severity a notification is drawn with.
#[derive(Debug, Clone, Copy, PartialEq, Eq, Structural)]
pub enum NotificationType {
    Success,
    Info,
    Warning,
    Error,
}

/// The label of the control that folds a toast's details.
#[derive(Debug, Clone, Copy, PartialEq, Eq, Structural)]
pub enum DetailToggle {
    Show,
    Hide,
}

/// What of a toast is drawn. A toast never hides by itself.
#[derive(Debug, Clone, Copy, PartialEq, Eq, Structural)]
pub struct ToastPlan {
    pub severity: Option<NotificationType>,
    /// The title stands as the notification's message.
    pub title_as_message: bool,
    /// The title stands beside a spinner in the content.
    pub title_with_spinner: bool,
    /// Content below the message is set off from it.
    pub content_margin: bool,
    pub has_content: bool,
    pub toggle: Option<DetailToggle>,
    pub detail: bool,
    pub copy_button: bool,
}

/// What of a toast is drawn, given whether it has details and whether they are
/// unfolded.
pub fn notification(kind: ToastKind, has_detail: bool, expanded: bool) -> (plan: ToastPlan)
    ensures
        plan.severity == (match kind {
            ToastKind::Success => Some(NotificationType::Success),
            ToastKind::Info => Some(NotificationType::Info),
            ToastKind::Warning => Some(NotificationType::Warning),
            ToastKind::Error => Some(NotificationType::Error),
            ToastKind::Loading => None,
        }),
        plan.title_as_message == (kind != ToastKind::Loading),
        plan.title_with_spinner == (kind == ToastKind::Loading),
        plan.has_content == (kind == ToastKind::Loading || has_detail),
        plan.content_margin == (has_detail && kind != ToastKind::Loading),
        plan.toggle == (if !has_detail {
            None
        } else if expanded {
            Some(DetailToggle::Hide)
        } else {
            Some(DetailToggle::Show)
        }),
        plan.detail == (has_detail && expanded),
        plan.copy_button == (has_detail && kind == ToastKind::Error),
{
    let loading = kind == ToastKind::Loading;
    ToastPlan {
        severity: match kind {
            ToastKind::Success => Some(NotificationType::Success),
            ToastKind::Info => Some(NotificationType::Info),
            ToastKind::Warning => Some(NotificationType::Warning),
            ToastKind::Error => Some(NotificationType::Error),
            ToastKind::Loading => None,
        },
        title_as_message: !loading,
        title_with_spinner: loading,
        has_content: loading || has_detail,
        content_margin: has_detail && !loading,
        toggle: if !has_detail {
            None
        } else if expanded {
            Some(DetailToggle::Hide)
        } else {
            Some(DetailToggle::Show)
        },
        detail: has_detail && expanded,
        copy_button: has_detail && kind == ToastKind::Error,
    }
}

} // verus!
