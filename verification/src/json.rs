//! The records of a process and of the messages in its log.

use vstd::prelude::*;

verus! {

/// One entry of a process's log.
#[derive(Debug, PartialEq, Eq)]
pub struct Message {
    pub message_id: String,
    pub process_id: String,
    pub epoch: i32,
    pub nonce: i32,
    pub timestamp: i64,
    pub hash_chain: String,
}

/// What a `Message` holds.
pub struct MessageView {
    pub message_id: Seq<char>,
    pub process_id: Seq<char>,
    pub epoch: i32,
    pub nonce: i32,
    pub timestamp: i64,
    pub hash_chain: Seq<char>,
}

impl View for Message {
    type V = MessageView;

    open spec fn view(&self) -> MessageView {
        MessageView {
            message_id: self.message_id@,
            process_id: self.process_id@,
            epoch: self.epoch,
            nonce: self.nonce,
            timestamp: self.timestamp,
            hash_chain: self.hash_chain@,
        }
    }
}

impl Clone for Message {
    fn clone(&self) -> (copy: Self)
        ensures
            copy == *self,
    {
        Message {
            message_id: self.message_id.clone(),
            process_id: self.process_id.clone(),
            epoch: self.epoch,
            nonce: self.nonce,
            timestamp: self.timestamp,
            hash_chain: self.hash_chain.clone(),
        }
    }
}

/// A process, created once by the first item of type `Process` that names it.
#[derive(Debug, PartialEq, Eq)]
pub struct Process {
    pub process_id: String,
    pub timestamp: i64,
}

/// What a `Process` holds.
pub struct ProcessView {
    pub process_id: Seq<char>,
    pub timestamp: i64,
}

impl View for Process {
    type V = ProcessView;

    open spec fn view(&self) -> ProcessView {
        ProcessView { process_id: self.process_id@, timestamp: self.timestamp }
    }
}

impl Clone for Process {
    fn clone(&self) -> (copy: Self)
        ensures
            copy == *self,
    {
        Process { process_id: self.process_id.clone(), timestamp: self.timestamp }
    }
}

} // verus!
