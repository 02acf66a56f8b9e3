//! The counting side of a reference-counted native object: one count per
//! live handle, and a tally of how often the object was destroyed.
use vstd::prelude::*;

verus! {

/// The abstract state of a counted object.
pub struct RefCountState {
    /// Live handles.
    pub count: nat,
    /// Times the object was destroyed.
    pub destructions: nat,
}

/// The state after a handle is cloned.
pub open spec fn after_ref(s: RefCountState) -> RefCountState {
    RefCountState { count: s.count + 1, destructions: s.destructions }
}

/// The state after a handle is dropped: the last drop destroys the object.
pub open spec fn after_unref(s: RefCountState) -> RefCountState {
    RefCountState {
        count: (s.count - 1) as nat,
        destructions: if s.count == 1 { s.destructions + 1 } else { s.destructions },
    }
}

/// The state after `n` clones.
pub open spec fn after_refs(s: RefCountState, n: nat) -> RefCountState
    decreases n,
{
    if n == 0 {
        s
    } else {
        after_ref(after_refs(s, (n - 1) as nat))
    }
}

/// The state after `n` drops.
pub open spec fn after_unrefs(s: RefCountState, n: nat) -> RefCountState
    decreases n,
{
    if n == 0 {
        s
    } else {
        after_unref(after_unrefs(s, (n - 1) as nat))
    }
}

/// The count of a native reference-counted object.
pub struct RefCount {
    count: u32,
    destructions: u32,
}

impl View for RefCount {
    type V = RefCountState;

    closed spec fn view(&self) -> RefCountState {
        RefCountState { count: self.count as nat, destructions: self.destructions as nat }
    }
}

impl RefCount {
    /// A freshly made object, held by one handle.
    pub fn new() -> (r: RefCount)
        ensures
            r@ == (RefCountState { count: 1, destructions: 0 }),
    {
        RefCount { count: 1, destructions: 0 }
    }

    /// Takes one more reference: what cloning a handle does.
    pub fn ref_cnt(&mut self)
        requires
            old(self)@.count >= 1,
            old(self)@.count < u32::MAX,
        ensures
            final(self)@ == after_ref(old(self)@),
    {
        self.count = self.count + 1;
    }

    /// Gives one reference back: what dropping a handle does. Returns whether
    /// this was the last one, upon which the object is destroyed.
    pub fn unref(&mut self) -> (destroyed: bool)
        requires
            old(self)@.count >= 1,
            old(self)@.destructions < u32::MAX,
        ensures
            final(self)@ == after_unref(old(self)@),
            destroyed == (old(self)@.count == 1),
    {
        self.count = self.count - 1;
        if self.count == 0 {
            self.destructions = self.destructions + 1;
            true
        } else {
            false
        }
    }

    /// Whether exactly one handle holds the object.
    pub fn unique(&self) -> (r: bool)
        ensures
            r == (self@.count == 1),
    {
        self.count == 1
    }

    pub fn count(&self) -> (r: u32)
        ensures
            r == self@.count,
    {
        self.count
    }

    pub fn destructions(&self) -> (r: u32)
        ensures
            r == self@.destructions,
    {
        self.destructions
    }
}

proof fn lemma_after_refs(s: RefCountState, n: nat)
    ensures
        after_refs(s, n) == (RefCountState { count: s.count + n, destructions: s.destructions }),
    decreases n,
{
    if n > 0 {
        lemma_after_refs(s, (n - 1) as nat);
    }
}

proof fn lemma_after_unrefs(s: RefCountState, n: nat)
    requires
        n <= s.count,
    ensures
        after_unrefs(s, n).count == s.count - n,
        after_unrefs(s, n).destructions == (if n == s.count && s.count > 0 {
            (s.destructions + 1) as int
        } else {
            s.destructions as int
        }),
    decreases n,
{
    if n > 0 {
        lemma_after_unrefs(s, (n - 1) as nat);
    }
}

/// Cloning never lowers the count; and once the original and its `n` clones
/// are all dropped, the count is zero and the object was destroyed exactly
/// once.
pub proof fn lemma_clone_then_drop_all(n: nat)
    ensures
        forall|s: RefCountState| #[trigger] after_ref(s).count >= s.count,
        ({
            let fresh = RefCountState { count: 1, destructions: 0 };
            let cloned = after_refs(fresh, n);
            &&& cloned.count == n + 1
            &&& after_unrefs(cloned, n + 1) == (RefCountState { count: 0, destructions: 1 })
        }),
{
    let fresh = RefCountState { count: 1, destructions: 0 };
    lemma_after_refs(fresh, n);
    lemma_after_unrefs(after_refs(fresh, n), n + 1);
}

} // verus!
