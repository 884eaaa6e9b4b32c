//! The decisions of a session, one stream message at a time.
//!
//! Whoever runs the session reads a message from the stream, asks
//! [`on_stream_event`] what to do with it, and does that before reading the
//! next one. The session ends on the first `Stop`, or after the one
//! notification that is marked as the last.

use vstd::prelude::*;
use crate::json::{json_text_at, json_u64_at};
use crate::notification::{
    notification_of,
    parse_notification,
    signature_path,
    slot_path,
    Notification,
    NotificationView,
};
use crate::window::{SessionWindow, WindowSignal};

verus! {

/// What the transport delivered.
#[derive(Clone, Debug, PartialEq, Eq)]
pub enum StreamEvent {
    /// A text message, with its text.
    Text(String),
    /// The transport reported an error.
    Failed,
    /// Any other kind of message.
    Other,
}

/// What to do with a message of the stream.
#[derive(Clone, Debug, PartialEq, Eq)]
pub enum Step {
    /// Nothing: read the next message.
    Ignore,
    /// Fetch and decode the transaction of this notification. If `last` is
    /// set, end the session afterwards.
    Process { notification: Notification, last: bool },
    /// End the session now.
    Stop,
}

/// The mathematical value of a [`Step`].
pub enum StepView {
    Ignore,
    Process { notification: NotificationView, last: bool },
    Stop,
}

impl View for Step {
    type V = StepView;

    open spec fn view(&self) -> StepView {
        match self {
            Step::Ignore => StepView::Ignore,
            Step::Process { notification, last } => StepView::Process {
                notification: notification@,
                last: *last,
            },
            Step::Stop => StepView::Stop,
        }
    }
}

/// The step that a text message calls for, given the notification read
/// from it: none was read, and the message is ignored; or one was, and it
/// is processed, as the last one if its slot closes the window.
pub open spec fn step_of(window: SessionWindow, notification: Option<NotificationView>) -> StepView {
    match notification {
        None => StepView::Ignore,
        Some(n) => StepView::Process { notification: n, last: window.closes_at(n.slot) },
    }
}

/// The window after a text message, given the notification read from it.
pub open spec fn window_after(
    window: SessionWindow,
    notification: Option<NotificationView>,
) -> SessionWindow {
    match notification {
        None => window,
        Some(n) => SessionWindow { initial_slot: Some(window.origin(n.slot)), limit: window.limit },
    }
}

/// Decides what to do with a text message from the notification read out
/// of it, and moves the window on.
///
/// A message that held no notification is ignored and leaves the window
/// untouched. A notification is always processed; the window takes note of
/// its slot, and the notification is marked as the last one exactly when
/// that slot closes the window.
pub fn on_notification(window: &mut SessionWindow, notification: Option<Notification>) -> (step:
    Step)
    ensures
        step@ == step_of(
            *old(window),
            match notification {
                Some(n) => Some(n@),
                None => None,
            },
        ),
        *final(window) == window_after(
            *old(window),
            match notification {
                Some(n) => Some(n@),
                None => None,
            },
        ),
{
    match notification {
        None => Step::Ignore,
        Some(notification) => {
            let signal = window.observe(notification.slot);
            let last: bool = match signal {
                WindowSignal::Terminal => true,
                WindowSignal::Continue => false,
            };
            Step::Process { notification, last }
        },
    }
}

/// The notification that the text `raw` holds, if any.
pub open spec fn notification_in(raw: Seq<char>) -> Option<NotificationView> {
    notification_of(json_u64_at(raw, slot_path()), json_text_at(raw, signature_path()))
}

/// Decides what to do with a message of the stream, and moves the window
/// on.
///
/// An error of the transport ends the session. A message that is no text,
/// or a text without a slot, is ignored. Neither touches the window. Any
/// other text is a notification and is handled as [`on_notification`]
/// says.
pub fn on_stream_event(window: &mut SessionWindow, event: &StreamEvent) -> (step: Step)
    ensures
        match *event {
            StreamEvent::Failed => step@ == StepView::Stop && *final(window) == *old(window),
            StreamEvent::Other => step@ == StepView::Ignore && *final(window) == *old(window),
            StreamEvent::Text(raw) => step@ == step_of(*old(window), notification_in(raw@))
                && *final(window) == window_after(*old(window), notification_in(raw@)),
        },
{
    match event {
        StreamEvent::Failed => Step::Stop,
        StreamEvent::Other => Step::Ignore,
        StreamEvent::Text(raw) => {
            let notification = parse_notification(raw.as_str());
            on_notification(window, notification)
        },
    }
}

} // verus!
