//! The data model of a small chat service, and the dispatch that decides
//! what each incoming event means; announcing the outcome is the caller's
//! business.

use vstd::prelude::*;

verus! {

/// A member's gender.
#[derive(Debug)]
pub enum Gender {
    Female,
    Male,
}

/// A member's identifier.
#[derive(Debug, Copy, Clone, PartialEq, Eq, Structural)]
pub struct UserId(pub u64);

/// A topic's identifier.
#[derive(Debug, Copy, Clone, PartialEq, Eq, Structural)]
pub struct TopicId(pub u64);

/// A member of the chat service.
#[derive(Debug)]
pub struct User {
    pub id: UserId,
    pub name: String,
    pub gender: Gender,
}

/// A topic under discussion.
#[derive(Debug)]
pub struct Topic {
    pub id: TopicId,
    pub name: String,
    pub owner: UserId,
}

/// An event of the chat service.
#[derive(Debug)]
pub enum ChatEvent {
    Join((UserId, TopicId)),
    Leave((UserId, TopicId)),
    Message((UserId, TopicId, String)),
}

/// What an event calls for: announce who joined, announce who left what,
/// or broadcast a message's text.
#[derive(Debug)]
pub enum EventAction {
    AnnounceJoin(UserId),
    AnnounceLeave(UserId, TopicId),
    Broadcast(String),
}

/// Decides what `event` calls for: a join is announced by the member alone,
/// a leave by member and topic, and a message has its text broadcast.
pub fn process_event(event: &ChatEvent) -> (r: EventAction)
    ensures
        match *event {
            ChatEvent::Join((uid, _tid)) => r == EventAction::AnnounceJoin(uid),
            ChatEvent::Leave((uid, tid)) => r == EventAction::AnnounceLeave(uid, tid),
            ChatEvent::Message((_uid, _tid, ref msg)) => r matches EventAction::Broadcast(out)
                && out@ == msg@,
        },
{
    match event {
        ChatEvent::Join((uid, _tid)) => EventAction::AnnounceJoin(*uid),
        ChatEvent::Leave((uid, tid)) => EventAction::AnnounceLeave(*uid, *tid),
        ChatEvent::Message((_uid, _tid, msg)) => EventAction::Broadcast(msg.clone()),
    }
}

} // verus!
