//! What comes out of an inference, piece by piece.
use vstd::prelude::*;

use crate::external::llm::UsageInfo;
use crate::inference::action::Action;

verus! {

/// A piece of what comes out of an inference.
#[derive(Debug)]
pub enum StreamItem {
    Action(Action),
    /// The inference is over: all that was said, and what was used.
    Done(String, Option<UsageInfo>),
    Error(String),
}

/// What a wait for the next piece gave.
#[derive(Debug)]
pub enum RecvResult {
    Item(StreamItem),
    /// Nothing came in time.
    Timeout,
    /// Nothing will come any more.
    Disconnected,
}

/// What comes out of an inference, in the order in which it came.
#[derive(Debug)]
pub struct InferenceStream {
    /// What came and was not taken yet.
    pub items: Vec<StreamItem>,
    /// Whether more can come.
    pub open: bool,
    pub log_path: String,
}

impl InferenceStream {
    /// An inference that begins.
    pub fn new(log_path: String) -> (r: Self)
        ensures
            r.items@.len() == 0,
            r.open,
            r.log_path@ == log_path@,
    {
        InferenceStream { items: Vec::new(), open: true, log_path }
    }

    /// An inference of which all is known.
    pub fn mock(items: Vec<StreamItem>) -> (r: Self)
        ensures
            r.items@ == items@,
            !r.open,
            r.log_path@ == "/tmp/mock_inference.log"@,
    {
        InferenceStream { items, open: false, log_path: "/tmp/mock_inference.log".to_string() }
    }

    /// Takes in a piece, unless nothing is expected any more.
    pub fn push(&mut self, item: StreamItem) -> (r: bool)
        ensures
            r == old(self).open,
            final(self).items@ == (if r {
                old(self).items@.push(item)
            } else {
                old(self).items@
            }),
            final(self).open == old(self).open,
            final(self).log_path == old(self).log_path,
    {
        if self.open {
            self.items.push(item);
            true
        } else {
            false
        }
    }

    /// Nothing will come any more.
    pub fn close(&mut self)
        ensures
            final(self).items == old(self).items,
            !final(self).open,
            final(self).log_path == old(self).log_path,
    {
        self.open = false;
    }

    /// The next piece, of an inference that is over or has something to give; none
    /// where it is over.
    pub fn next(&mut self) -> (r: Option<StreamItem>)
        requires
            old(self).items@.len() > 0 || !old(self).open,
        ensures
            match r {
                Some(item) => old(self).items@.len() > 0 && item == old(self).items@[0]
                    && final(self).items@ == old(self).items@.skip(1),
                None => old(self).items@.len() == 0 && final(self).items@ == old(self).items@,
            },
            final(self).open == old(self).open,
            final(self).log_path == old(self).log_path,
    {
        if self.items.len() > 0 {
            let item = self.items.remove(0);
            assert(self.items@ =~= old(self).items@.skip(1));
            Some(item)
        } else {
            None
        }
    }

    /// The next piece, or why there is none after a wait.
    pub fn next_or_timeout(&mut self) -> (r: RecvResult)
        ensures
            match r {
                RecvResult::Item(item) => old(self).items@.len() > 0 && item
                    == old(self).items@[0] && final(self).items@ == old(self).items@.skip(1),
                RecvResult::Timeout => old(self).items@.len() == 0 && old(self).open
                    && final(self).items@ == old(self).items@,
                RecvResult::Disconnected => old(self).items@.len() == 0 && !old(self).open
                    && final(self).items@ == old(self).items@,
            },
            final(self).open == old(self).open,
            final(self).log_path == old(self).log_path,
    {
        if self.items.len() > 0 {
            let item = self.items.remove(0);
            assert(self.items@ =~= old(self).items@.skip(1));
            RecvResult::Item(item)
        } else if self.open {
            RecvResult::Timeout
        } else {
            RecvResult::Disconnected
        }
    }
}

} // verus!
