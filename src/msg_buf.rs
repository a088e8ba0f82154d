use vstd::prelude::*;

verus! {

/// The entries `s` after pushing `m` through an enable flag that is `enabled`.
pub open spec fn gated_push<Msg>(s: Seq<Msg>, enabled: bool, m: Msg) -> Seq<Msg> {
    if enabled {
        s.push(m)
    } else {
        s
    }
}

/// The newest `max` entries of `s`, oldest first; all of `s` when it holds no more than `max`.
pub open spec fn keep_newest<Msg>(s: Seq<Msg>, max: nat) -> Seq<Msg> {
    if s.len() <= max {
        s
    } else {
        s.subrange(s.len() - max, s.len() as int)
    }
}

/// A message buffer with an enable flag.
///
/// Entries keep the order of their pushes. While its enable flag is off, a push does
/// nothing; reading, clearing and trimming still work.
pub struct MsgBuf<Msg> {
    msgs: Vec<Msg>,
    enabled: bool,
}

impl<Msg> View for MsgBuf<Msg> {
    type V = Seq<Msg>;

    /// The entries, oldest first.
    closed spec fn view(&self) -> Seq<Msg> {
        self.msgs@
    }
}

impl<Msg> MsgBuf<Msg> {
    /// Whether pushes are currently recorded.
    pub closed spec fn spec_enabled(&self) -> bool {
        self.enabled
    }

    /// Creates an empty buffer whose enable flag starts as `enabled`.
    pub fn new(enabled: bool) -> (r: Self)
        ensures
            r@ == Seq::<Msg>::empty(),
            r.spec_enabled() == enabled,
    {
        MsgBuf { msgs: Vec::new(), enabled }
    }

    /// Appends `msg` if the buffer is enabled; otherwise does nothing.
    pub fn push(&mut self, msg: Msg)
        ensures
            final(self)@ == gated_push(old(self)@, old(self).spec_enabled(), msg),
            final(self).spec_enabled() == old(self).spec_enabled(),
    {
        if self.enabled {
            self.msgs.push(msg);
        }
    }

    /// Flips whether the buffer is enabled.
    pub fn toggle(&mut self)
        ensures
            final(self).spec_enabled() == !old(self).spec_enabled(),
            final(self)@ == old(self)@,
    {
        let current = self.enabled;
        self.enabled = !current;
    }

    /// Removes every entry, whether or not the buffer is enabled.
    pub fn clear(&mut self)
        ensures
            final(self)@ == Seq::<Msg>::empty(),
            final(self).spec_enabled() == old(self).spec_enabled(),
    {
        self.msgs.clear();
    }

    /// Returns whether the buffer is enabled.
    #[verifier::when_used_as_spec(spec_enabled)]
    pub fn enabled(&self) -> (r: bool)
        ensures
            r == self.spec_enabled(),
    {
        self.enabled
    }

    /// Sets whether the buffer is enabled.
    pub fn set_enabled(&mut self, enabled: bool)
        ensures
            final(self).spec_enabled() == enabled,
            final(self)@ == old(self)@,
    {
        self.enabled = enabled;
    }

    /// Removes the oldest entries until at most `max` remain.
    pub fn trim_old(&mut self, max: usize)
        ensures
            final(self)@ == keep_newest(old(self)@, max as nat),
            final(self).spec_enabled() == old(self).spec_enabled(),
    {
        let ghost start = self.msgs@;
        while self.msgs.len() > max
            invariant
                self.enabled == old(self).enabled,
                start == old(self)@,
                self.msgs@.len() >= max ==> self.msgs@ == start.subrange(
                    start.len() - self.msgs@.len(),
                    start.len() as int,
                ),
                self.msgs@.len() < max ==> self.msgs@ == start,
                self.msgs@.len() <= start.len(),
            decreases self.msgs@.len(),
        {
            self.msgs.remove(0);
        }
    }

    /// Executes `f` on each message in the buffer, oldest first.
    pub fn for_each<F: FnMut(&Msg)>(&self, f: F)
        requires
            forall|m: &Msg| call_requires(f, (m,)),
        ensures
            forall|i: int| 0 <= i < self@.len() ==> call_ensures(f, (&self@[i],), ()),
    {
        let ghost f0 = f;
        let mut f = f;
        let n = self.msgs.len();
        let mut i: usize = 0;
        while i < n
            invariant
                n == self.msgs@.len(),
                i <= n,
                f == f0,
                forall|m: &Msg| call_requires(f, (m,)),
                forall|j: int| 0 <= j < i ==> call_ensures(f0, (&self.msgs@[j],), ()),
            decreases n - i,
        {
            f(&self.msgs[i]);
            i += 1;
        }
    }

    /// Returns the entry at position `i`, counting from the oldest.
    pub fn get(&self, i: usize) -> (r: &Msg)
        requires
            i < self@.len(),
        ensures
            *r == self@[i as int],
    {
        &self.msgs[i]
    }

    /// Returns the number of entries.
    pub fn len(&self) -> (r: usize)
        ensures
            r == self@.len(),
    {
        self.msgs.len()
    }

    /// Returns whether the buffer holds no entry.
    pub fn is_empty(&self) -> (r: bool)
        ensures
            r == (self@.len() == 0),
    {
        self.len() == 0
    }
}

} // verus!
