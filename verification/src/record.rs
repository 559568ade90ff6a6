//! An in-memory driver that records every call made on it.
//!
//! It backs no real hypervisor: each operation simply appends to a list of
//! recorded calls. That makes it the reference implementation of the
//! [`Driver`] contract, and the way a caller can observe exactly what an
//! orchestrator pass did.

use vstd::prelude::*;

use crate::Driver;
use crate::Event;
use crate::Resource;

verus! {

/// One call recorded by a [`RecordingDriver`], in executable form.
#[derive(Debug, PartialEq, Eq)]
pub enum RecordedCall {
    Open,
    Close,
    Create(Resource),
    Clean(Resource),
}

impl View for RecordedCall {
    type V = Event;

    open spec fn view(&self) -> Event {
        match self {
            RecordedCall::Open => Event::Open,
            RecordedCall::Close => Event::Close,
            RecordedCall::Create(r) => Event::Create(r@),
            RecordedCall::Clean(r) => Event::Clean(r@),
        }
    }
}

/// A driver that connects to nothing and remembers every call, in order.
pub struct RecordingDriver {
    pub calls: Vec<RecordedCall>,
}

impl RecordingDriver {
    /// A fresh driver with an empty call record.
    pub fn new() -> (r: RecordingDriver)
        ensures
            r.events() == Seq::<Event>::empty(),
            r.calls@ == Seq::<RecordedCall>::empty(),
    {
        let r = RecordingDriver { calls: Vec::new() };
        proof {
            assert(r.events() =~= Seq::<Event>::empty());
        }
        r
    }
}

impl Driver for RecordingDriver {
    open spec fn events(&self) -> Seq<Event> {
        self.calls@.map_values(|c: RecordedCall| c@)
    }

    fn open(&mut self) {
        self.calls.push(RecordedCall::Open);
        proof {
            assert(self.events() =~= old(self).events().push(Event::Open));
        }
    }

    fn close(&mut self) {
        self.calls.push(RecordedCall::Close);
        proof {
            assert(self.events() =~= old(self).events().push(Event::Close));
        }
    }

    fn create(&mut self, resource: &Resource) {
        self.calls.push(RecordedCall::Create(resource.clone()));
        proof {
            assert(self.events() =~= old(self).events().push(Event::Create(resource@)));
        }
    }

    fn clean(&mut self, resource: &Resource) {
        self.calls.push(RecordedCall::Clean(resource.clone()));
        proof {
            assert(self.events() =~= old(self).events().push(Event::Clean(resource@)));
        }
    }
}

} // verus!
