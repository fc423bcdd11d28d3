use vstd::prelude::*;

verus! {

/// A message to a running transfer.
#[derive(Debug, Clone, Copy, PartialEq, Eq, Structural)]
pub enum WorkAction {
    /// Stop the worker with this id.
    Abort(u8),
}

/// Where a transfer stands.
#[derive(Debug, Clone, Copy, PartialEq, Eq, Structural)]
pub enum State {
    Paused,
    Pausing,
    InProgress,
    Resuming,
    Failed,
    Completed,
}

/// Messages a control channel holds at once; more are dropped.
pub const CHANNEL_CAPACITY: usize = 3;

/// A message in a control channel, with the side that sent it.
pub struct Message<T> {
    pub sent_by_first: bool,
    pub data: T,
}

/// Whether the message at `i` is one that the given side may take: it was
/// sent by the other side.
pub open spec fn takeable<T>(msgs: Seq<Message<T>>, i: int, for_first: bool) -> bool {
    0 <= i < msgs.len() && msgs[i].sent_by_first != for_first
}

/// The shared state of a bounded two-party channel: each side sends to the
/// other, and a message is taken only by the side that did not send it.
pub struct TwoWayStream<T> {
    data: Vec<Message<T>>,
    is_finished: bool,
}

impl<T> TwoWayStream<T> {
    pub closed spec fn spec_messages(&self) -> Seq<Message<T>> {
        self.data@
    }

    pub closed spec fn spec_finished(&self) -> bool {
        self.is_finished
    }

    pub open spec fn wf(&self) -> bool {
        self.spec_messages().len() <= CHANNEL_CAPACITY
    }

    pub fn new() -> (r: TwoWayStream<T>)
        ensures
            r.wf(),
            r.spec_messages().len() == 0,
            !r.spec_finished(),
    {
        TwoWayStream::with_capacity()
    }

    pub fn with_capacity() -> (r: TwoWayStream<T>)
        ensures
            r.wf(),
            r.spec_messages().len() == 0,
            !r.spec_finished(),
    {
        TwoWayStream { data: Vec::new(), is_finished: false }
    }

    pub fn capacity(&self) -> (r: usize)
        ensures
            r == CHANNEL_CAPACITY,
    {
        CHANNEL_CAPACITY
    }

    /// Room left for messages.
    pub fn remaining(&self) -> (r: usize)
        requires
            self.wf(),
        ensures
            r == CHANNEL_CAPACITY - self.spec_messages().len(),
    {
        CHANNEL_CAPACITY - self.data.len()
    }

    /// Sends from one side; a full channel drops the message. Returns whether
    /// it was queued.
    pub fn send(&mut self, from_first: bool, data: T) -> (r: bool)
        requires
            old(self).wf(),
        ensures
            final(self).wf(),
            r == (old(self).spec_messages().len() < CHANNEL_CAPACITY),
            r ==> final(self).spec_messages() == old(self).spec_messages().push(
                Message { sent_by_first: from_first, data },
            ),
            !r ==> final(self).spec_messages() == old(self).spec_messages(),
            final(self).spec_finished() == old(self).spec_finished(),
    {
        if self.data.len() == CHANNEL_CAPACITY {
            return false;
        }
        self.data.push(Message { sent_by_first: from_first, data });
        true
    }

    /// Takes for one side the first message the other side sent, if any; the
    /// last message takes its place.
    pub fn take(&mut self, for_first: bool) -> (r: Option<T>)
        requires
            old(self).wf(),
        ensures
            final(self).wf(),
            final(self).spec_finished() == old(self).spec_finished(),
            match r {
                Some(d) => exists|i: int|
                    takeable(old(self).spec_messages(), i, for_first) && (forall|j: int|
                        0 <= j < i ==> !#[trigger] takeable(old(self).spec_messages(), j, for_first))
                        && d == old(self).spec_messages()[i].data && final(self).spec_messages()
                        == old(self).spec_messages().update(i, old(self).spec_messages().last()).drop_last(),
                None => (forall|i: int|
                    0 <= i < old(self).spec_messages().len() ==> !takeable(old(self).spec_messages(), i, for_first)) && final(self).spec_messages() == old(self).spec_messages(),
            },
    {
        let mut i: usize = 0;
        while i < self.data.len()
            invariant
                i <= self.data@.len(),
                self.data@ == old(self).spec_messages(),
                self.is_finished == old(self).spec_finished(),
                self.data@.len() <= CHANNEL_CAPACITY,
                forall|j: int| 0 <= j < i ==> !#[trigger] takeable(self.data@, j, for_first),
            decreases self.data@.len() - i,
        {
            if self.data[i].sent_by_first != for_first {
                assert(takeable(old(self).spec_messages(), i as int, for_first));
                let m = self.data.swap_remove(i);
                return Some(m.data);
            }
            i = i + 1;
        }
        None
    }

    /// Marks the channel closed by one of its sides.
    pub fn finish(&mut self)
        ensures
            final(self).spec_finished(),
            final(self).spec_messages() == old(self).spec_messages(),
    {
        self.is_finished = true;
    }

    pub fn is_finished(&self) -> (r: bool)
        ensures
            r == self.spec_finished(),
    {
        self.is_finished
    }
}

/// Holds a task back until it is woken: the task waits once it has polled
/// without being woken, and is released by the first wake while it waits.
#[derive(Debug, Clone, Default)]
pub struct Behold {
    waiting: bool,
    woken: bool,
}

impl Behold {
    pub closed spec fn spec_waiting(&self) -> bool {
        self.waiting
    }

    pub closed spec fn spec_woken(&self) -> bool {
        self.woken
    }

    pub fn new() -> (r: Behold)
        ensures
            !r.spec_waiting(),
            !r.spec_woken(),
    {
        Behold { waiting: false, woken: false }
    }

    /// Wakes a waiting task. Returns whether there was one (whose waker the
    /// caller then wakes).
    pub fn wake(&mut self) -> (r: bool)
        ensures
            r == old(self).spec_waiting(),
            !final(self).spec_waiting(),
            final(self).spec_woken() == (old(self).spec_woken() || old(self).spec_waiting()),
    {
        if self.waiting {
            self.waiting = false;
            self.woken = true;
            true
        } else {
            false
        }
    }

    pub fn woken(&self) -> (r: bool)
        ensures
            r == self.spec_woken(),
    {
        self.woken
    }

    /// Polls: ready once woken; otherwise the task now waits (the caller
    /// keeps its waker).
    pub fn poll(&mut self) -> (r: bool)
        ensures
            r == old(self).spec_woken(),
            final(self).spec_woken() == old(self).spec_woken(),
            final(self).spec_waiting() == (old(self).spec_waiting() || !old(self).spec_woken()),
    {
        if self.woken {
            true
        } else {
            self.waiting = true;
            false
        }
    }
}

} // verus!
