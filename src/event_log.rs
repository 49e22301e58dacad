use vstd::prelude::*;

verus! {

/// Append-only record of notable events, oldest first.
pub struct EventLog {
    entries: Vec<String>,
}

impl View for EventLog {
    type V = Seq<Seq<char>>;

    closed spec fn view(&self) -> Seq<Seq<char>> {
        self.entries@.map_values(|e: String| e@)
    }
}

/// The `limit` most recent entries of `log` (all of them where it holds fewer),
/// most recent first.
pub open spec fn recent_of(log: Seq<Seq<char>>, limit: nat) -> Seq<Seq<char>> {
    let n = if limit < log.len() { limit } else { log.len() };
    Seq::new(n, |i: int| log[log.len() - 1 - i])
}

impl EventLog {
    pub fn new() -> (r: Self)
        ensures
            r@ == Seq::<Seq<char>>::empty(),
    {
        let r = EventLog { entries: Vec::new() };
        assert(r@ =~= Seq::<Seq<char>>::empty());
        r
    }

    /// Appends one entry.
    pub fn push(&mut self, entry: String)
        ensures
            final(self)@ == old(self)@.push(entry@),
    {
        let ghost e = entry@;
        self.entries.push(entry);
        assert(final(self)@ =~= old(self)@.push(e));
    }

    /// The number of entries.
    pub fn len(&self) -> (r: usize)
        ensures
            r == self@.len(),
    {
        self.entries.len()
    }

    /// The `limit` most recent entries, most recent first.
    pub fn recent(&self, limit: usize) -> (r: Vec<String>)
        ensures
            r@.map_values(|e: String| e@) == recent_of(self@, limit as nat),
    {
        let n = self.entries.len();
        let take = if limit < n { limit } else { n };
        let mut out: Vec<String> = Vec::new();
        let mut i: usize = 0;
        while i < take
            invariant
                take <= n,
                n == self@.len(),
                take == (if limit < n { limit } else { n }),
                i <= take,
                out@.len() == i,
                forall|k: int| 0 <= k < i ==> #[trigger] out@[k]@ == self@[n - 1 - k],
            decreases take - i,
        {
            out.push(self.entries[n - 1 - i].clone());
            i = i + 1;
        }
        assert(out@.map_values(|e: String| e@) =~= recent_of(self@, limit as nat));
        out
    }
}

} // verus!
