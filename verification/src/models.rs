//! The records that the application keeps, and the kinds of message.

use vstd::prelude::*;
use crate::message::{Message, MessageView, Plan};

verus! {

/// A note that was written and not sent yet.
#[derive(Debug, Clone, PartialEq, Eq)]
pub struct MessageDraft {
    pub title: String,
    pub body: String,
}

/// The drafts of notes that are shown once.
#[derive(Debug, Clone, PartialEq, Eq)]
pub struct DisposableDrafts {
    pub drafts: Vec<MessageDraft>,
}

/// A moment that was kept, and when.
#[derive(Debug, Clone, PartialEq, Eq)]
pub struct Instance {
    pub instance: String,
    pub time: String,
}

/// The moments that were kept.
#[derive(Debug, Clone, PartialEq, Eq)]
pub struct SealedInstances {
    pub instances: Vec<Instance>,
}

/// A plan that was carried out, and when.
#[derive(Debug, Clone, PartialEq, Eq)]
pub struct FinishedPlan {
    pub plan: Plan,
    pub time: String,
}

/// The plans that were carried out.
#[derive(Debug, Clone, PartialEq, Eq)]
pub struct FinishedPlanList {
    pub list: Vec<FinishedPlan>,
}

/// What is written inside a letter.
#[derive(Debug, Clone, PartialEq, Eq)]
pub struct MailInner {
    pub title: String,
    pub body: String,
}

/// A letter: its cover and what is inside.
#[derive(Debug, Clone, PartialEq, Eq)]
pub struct Mail {
    pub cover: String,
    pub inner: MailInner,
}

/// The kind of a message, without what it carries.
#[derive(Debug, Clone, Copy, PartialEq, Eq, Structural)]
pub enum MessageType {
    Disposable,
    BackToBack,
    Seal,
    PlanSync,
    Empty,
}

/// The kind of `message`.
pub open spec fn kind_of(message: MessageView) -> MessageType {
    match message {
        MessageView::Disposable(_) => MessageType::Disposable,
        MessageView::BackToBack(_) => MessageType::BackToBack,
        MessageView::Seal(_) => MessageType::Seal,
        MessageView::PlanSync(_) => MessageType::PlanSync,
        MessageView::Empty => MessageType::Empty,
    }
}

impl MessageType {
    /// The kind of `val`.
    pub fn from(val: &Message) -> (r: MessageType)
        ensures
            r == kind_of(val@),
    {
        match val {
            Message::Disposable(_) => MessageType::Disposable,
            Message::BackToBack(_) => MessageType::BackToBack,
            Message::Seal(_) => MessageType::Seal,
            Message::PlanSync(_) => MessageType::PlanSync,
            Message::Empty => MessageType::Empty,
        }
    }
}

impl Default for DisposableDrafts {
    fn default() -> (r: DisposableDrafts)
        ensures
            r.drafts@.len() == 0,
    {
        DisposableDrafts { drafts: Vec::new() }
    }
}

impl Default for SealedInstances {
    fn default() -> (r: SealedInstances)
        ensures
            r.instances@.len() == 0,
    {
        SealedInstances { instances: Vec::new() }
    }
}

impl Default for FinishedPlanList {
    fn default() -> (r: FinishedPlanList)
        ensures
            r.list@.len() == 0,
    {
        FinishedPlanList { list: Vec::new() }
    }
}

impl Default for MailInner {
    fn default() -> (r: MailInner)
        ensures
            r.title@.len() == 0,
            r.body@.len() == 0,
    {
        MailInner { title: String::new(), body: String::new() }
    }
}

impl Default for Mail {
    fn default() -> (r: Mail)
        ensures
            r.cover@.len() == 0,
            r.inner.title@.len() == 0,
            r.inner.body@.len() == 0,
    {
        Mail { cover: String::new(), inner: MailInner::default() }
    }
}

} // verus!
