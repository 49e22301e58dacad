use vstd::prelude::*;

verus! {

/// The window that results from appending `v` to `w` with room for `cap` values:
/// the oldest value is evicted once the length would exceed `cap`.
pub open spec fn pushed<T>(w: Seq<T>, v: T, cap: nat) -> Seq<T> {
    if w.len() + 1 > cap {
        w.push(v).drop_first()
    } else {
        w.push(v)
    }
}

/// The window reached from an empty one by pushing every value of `pushes` in order.
pub open spec fn window_after<T>(pushes: Seq<T>, cap: nat) -> Seq<T>
    decreases pushes.len(),
{
    if pushes.len() == 0 {
        Seq::empty()
    } else {
        pushed(window_after(pushes.drop_last(), cap), pushes.last(), cap)
    }
}

/// After any sequence of pushes into an empty window, the window holds exactly the
/// last `min(count, cap)` values pushed, in arrival order: its length is
/// `min(count, cap)`, and once more than `cap` values were pushed the older ones are
/// gone.
pub proof fn lemma_window_keeps_most_recent<T>(pushes: Seq<T>, cap: nat)
    requires
        cap > 0,
    ensures
        window_after(pushes, cap).len() == if pushes.len() <= cap { pushes.len() } else { cap },
        pushes.len() <= cap ==> window_after(pushes, cap) == pushes,
        pushes.len() > cap ==> window_after(pushes, cap) == pushes.subrange(
            pushes.len() - cap,
            pushes.len() as int,
        ),
    decreases pushes.len(),
{
    if pushes.len() > 0 {
        let prev = pushes.drop_last();
        lemma_window_keeps_most_recent(prev, cap);
        let w = window_after(prev, cap);
        if pushes.len() <= cap {
            assert(w.push(pushes.last()) =~= pushes);
        } else if prev.len() <= cap {
            assert(w.push(pushes.last()).drop_first() =~= pushes.subrange(
                pushes.len() - cap,
                pushes.len() as int,
            ));
        } else {
            assert(w.push(pushes.last()).drop_first() =~= pushes.subrange(
                pushes.len() - cap,
                pushes.len() as int,
            ));
        }
    }
}

/// Fixed-capacity FIFO history of the most recent values, oldest first.
pub struct RollingWindow<T> {
    items: Vec<T>,
    capacity: usize,
}

/// Capacity used by every detector of this crate.
pub const DEFAULT_CAPACITY: usize = 5;

impl<T: Copy> RollingWindow<T> {
    pub closed spec fn view(&self) -> Seq<T> {
        self.items@
    }

    pub closed spec fn cap(&self) -> nat {
        self.capacity as nat
    }

    pub closed spec fn wf(&self) -> bool {
        self.capacity > 0 && self.items@.len() <= self.capacity
    }

    /// An empty window with the default capacity.
    pub fn new() -> (r: Self)
        ensures
            r.wf(),
            r@ == Seq::<T>::empty(),
            r.cap() == DEFAULT_CAPACITY,
    {
        RollingWindow { items: Vec::new(), capacity: DEFAULT_CAPACITY }
    }

    /// An empty window that keeps at most `capacity` values.
    pub fn with_capacity(capacity: usize) -> (r: Self)
        requires
            capacity > 0,
        ensures
            r.wf(),
            r@ == Seq::<T>::empty(),
            r.cap() == capacity,
    {
        RollingWindow { items: Vec::new(), capacity }
    }

    /// The maximum number of values kept.
    pub fn capacity(&self) -> (r: usize)
        ensures
            r == self.cap(),
    {
        self.capacity
    }

    /// The number of values currently held.
    pub fn len(&self) -> (r: usize)
        ensures
            r == self@.len(),
    {
        self.items.len()
    }

    /// The current contents, oldest first; the window is left as it is.
    pub fn snapshot(&self) -> (r: Vec<T>)
        ensures
            r@ == self@,
    {
        let mut out: Vec<T> = Vec::new();
        let mut i: usize = 0;
        while i < self.items.len()
            invariant
                i <= self.items@.len(),
                out@ == self.items@.subrange(0, i as int),
            decreases self.items@.len() - i,
        {
            out.push(self.items[i]);
            i = i + 1;
            assert(out@ =~= self.items@.subrange(0, i as int));
        }
        assert(out@ =~= self.items@);
        out
    }

    /// Appends `value`, evicting the oldest value when the window is full.
    pub fn push(&mut self, value: T)
        requires
            old(self).wf(),
        ensures
            final(self).wf(),
            final(self).cap() == old(self).cap(),
            final(self)@.len() <= final(self).cap(),
            final(self)@ == pushed(old(self)@, value, old(self).cap()),
    {
        self.items.push(value);
        if self.items.len() > self.capacity {
            self.items.remove(0);
        }
    }
}

} // verus!
