//! The dispatcher: the sole producer of the download pool's input queue. It
//! sends every video identifier in order and then closes the queue, which is the
//! only termination signal the downstream stages observe.
use vstd::prelude::*;

verus! {

/// What the driver must do next with the queue.
#[derive(Debug)]
pub enum DispatchAction {
    /// Send this identifier, suspending while the queue is full.
    Send(String),
    /// Every identifier has been sent: close the queue.
    Close,
    /// The queue is closed; nothing is left to do.
    Done,
}

/// `ids[..next]` have been sent; `closed` once the queue has been closed.
#[derive(Clone, Debug)]
pub struct Dispatcher {
    pub ids: Vec<String>,
    pub next: usize,
    pub closed: bool,
}

impl Dispatcher {
    pub open spec fn wf(&self) -> bool {
        &&& self.ids@.len() <= usize::MAX
        &&& self.next <= self.ids@.len()
        &&& self.closed ==> self.next == self.ids@.len()
    }

    /// The state after one more action, and that action.
    pub open spec fn spec_next(&self) -> (Dispatcher, DispatchAction) {
        if self.next < self.ids@.len() {
            (
                Dispatcher { ids: self.ids, next: (self.next + 1) as usize, closed: self.closed },
                DispatchAction::Send(self.ids@[self.next as int]),
            )
        } else if !self.closed {
            (Dispatcher { ids: self.ids, next: self.next, closed: true }, DispatchAction::Close)
        } else {
            (*self, DispatchAction::Done)
        }
    }

    /// A dispatcher that has sent nothing yet.
    pub fn new(ids: Vec<String>) -> (d: Dispatcher)
        ensures
            d.ids == ids,
            d.next == 0,
            !d.closed,
            d.wf(),
    {
        // a vector's length fits in a usize
        let _len = ids.len();
        Dispatcher { ids, next: 0, closed: false }
    }

    /// Returns the next thing to do: each identifier in order, then one close,
    /// then nothing.
    pub fn next_action(&mut self) -> (a: DispatchAction)
        requires
            old(self).wf(),
        ensures
            (*final(self), a) == old(self).spec_next(),
            final(self).wf(),
    {
        if self.next < self.ids.len() {
            let id = self.ids[self.next].clone();
            self.next = self.next + 1;
            DispatchAction::Send(id)
        } else if !self.closed {
            self.closed = true;
            DispatchAction::Close
        } else {
            DispatchAction::Done
        }
    }
}

/// The `k` actions returned by `k` successive calls from state `d`.
pub open spec fn dispatch_actions(d: Dispatcher, k: nat) -> Seq<DispatchAction>
    decreases k,
{
    if k == 0 {
        Seq::empty()
    } else {
        seq![d.spec_next().1] + dispatch_actions(d.spec_next().0, (k - 1) as nat)
    }
}

/// The action that the `i`-th call from state `d` is owed.
pub open spec fn expected_action(d: Dispatcher, i: nat) -> DispatchAction {
    if d.next + i < d.ids@.len() {
        DispatchAction::Send(d.ids@[d.next + i])
    } else if d.next + i == d.ids@.len() && !d.closed {
        DispatchAction::Close
    } else {
        DispatchAction::Done
    }
}

/// For any list of N identifiers, a fresh dispatcher sends exactly the N
/// identifiers in input order, then closes the queue once, right after the Nth
/// send and never before, and does nothing further however often it is asked.
pub proof fn lemma_dispatch_in_order(ids: Vec<String>, k: nat)
    requires
        ids@.len() <= usize::MAX,
    ensures
        dispatch_actions(Dispatcher { ids, next: 0, closed: false }, k).len() == k,
        forall|i: int|
            0 <= i < k ==> #[trigger] dispatch_actions(Dispatcher { ids, next: 0, closed: false }, k)[i]
                == (if i < ids@.len() {
                DispatchAction::Send(ids@[i])
            } else if i == ids@.len() {
                DispatchAction::Close
            } else {
                DispatchAction::Done
            }),
{
    let d = Dispatcher { ids, next: 0, closed: false };
    lemma_dispatch_actions(d, k);
}

proof fn lemma_dispatch_actions(d: Dispatcher, k: nat)
    requires
        d.wf(),
    ensures
        dispatch_actions(d, k).len() == k,
        forall|i: int| 0 <= i < k ==> #[trigger] dispatch_actions(d, k)[i] == expected_action(d, i as nat),
    decreases k,
{
    if k > 0 {
        let d2 = d.spec_next().0;
        lemma_dispatch_actions(d2, (k - 1) as nat);
        assert forall|i: int| 0 <= i < k implies #[trigger] dispatch_actions(d, k)[i] == expected_action(
            d,
            i as nat,
        ) by {
            assert(d2.ids == d.ids);
            if i > 0 {
                assert(dispatch_actions(d, k)[i] == dispatch_actions(d2, (k - 1) as nat)[i - 1]);
                assert(expected_action(d2, (i - 1) as nat) == expected_action(d, i as nat));
            } else {
                assert(dispatch_actions(d, k)[0] == d.spec_next().1);
            }
        }
    }
}

} // verus!
