//! The per-component render cache: a memoized [`ViewNode`] guarded by an
//! invalidation flag, and the drift model shared by every component's
//! snapshot.

use vstd::prelude::*;
use crate::viewnode::ViewNode;
use crate::viewnode::spec_text;

verus! {

/// What one component memoizes: the one string field and the one counter it
/// displays, as mathematical values.
#[verifier::ext_equal]
pub ghost struct Snapshot {
    pub text: Seq<char>,
    pub counter: int,
}

/// The text a component with this snapshot shows.
pub open spec fn snapshot_text(s: Snapshot) -> Seq<char> {
    spec_text(s.text, s.counter)
}

/// What one reconciliation step promises: afterwards the snapshot equals the
/// fields currently displayed by the shared state, and drift is reported
/// exactly when the snapshot did not already equal them.
pub open spec fn reconcile_post(
    pre: Snapshot,
    post: Snapshot,
    current: Snapshot,
    changed: bool,
) -> bool {
    &&& post == current
    &&& changed == (pre != current)
}

/// Reconciliation is complete: a snapshot reconciled against state whose
/// displayed fields differ from it reports drift, and afterwards equals those
/// fields exactly.
pub proof fn lemma_reconcile_completeness(
    pre: Snapshot,
    post: Snapshot,
    current: Snapshot,
    changed: bool,
)
    requires
        pre != current,
        reconcile_post(pre, post, current, changed),
    ensures
        changed,
        post == current,
{
}

/// Reconciliation is idempotent: of two reconciliations in a row against the
/// same state, the first reports drift whenever there was any, and the second
/// reports none and leaves the snapshot as it was.
pub proof fn lemma_reconcile_idempotence(
    s0: Snapshot,
    s1: Snapshot,
    s2: Snapshot,
    current: Snapshot,
    changed1: bool,
    changed2: bool,
)
    requires
        reconcile_post(s0, s1, current, changed1),
        reconcile_post(s1, s2, current, changed2),
    ensures
        s0 != current ==> changed1,
        !changed2,
        s2 == s1,
{
}

/// A component that renders from its snapshot alone.
pub trait Render: Sized {
    /// The snapshot the component currently holds.
    spec fn snap(&self) -> Snapshot;

    /// Produces the component's visible node from its snapshot alone; the
    /// shared state is never read here, which is what justifies reusing the
    /// node while the snapshot is unchanged.
    fn render(&self) -> (n: ViewNode)
        ensures
            n@ == snapshot_text(self.snap()),
    ;
}

/// Rendering is pure: components holding equal snapshots show equal text,
/// whatever else the shared state holds.
pub proof fn lemma_render_pure<T: Render, U: Render>(a: &T, b: &U)
    requires
        a.snap() == b.snap(),
    ensures
        snapshot_text(a.snap()) == snapshot_text(b.snap()),
{
}

/// A component together with its memoized node. While `invalidated` is
/// false, `node` is the component's current output and may be reused
/// verbatim; painting an invalidated cache recomputes the node and clears
/// the flag.
pub struct Cached<T: Render> {
    pub component: T,
    pub node: ViewNode,
    pub invalidated: bool,
}

impl<T: Render> Cached<T> {
    /// The cache is usable: a node not marked invalid is the component's
    /// current output.
    pub open spec fn wf(&self) -> bool {
        !self.invalidated ==> self.node@ == snapshot_text(self.component.snap())
    }

    /// Wraps a freshly constructed component, rendering it once.
    pub fn new(component: T) -> (c: Cached<T>)
        ensures
            c.component == component,
            !c.invalidated,
            c.wf(),
    {
        let node = component.render();
        Cached { component, node, invalidated: false }
    }

    /// Marks the memoized node unusable, forcing recomputation on the next
    /// paint. The component and the node itself are untouched.
    pub fn invalidate(&mut self)
        ensures
            final(self).component == old(self).component,
            final(self).node == old(self).node,
            final(self).invalidated,
    {
        self.invalidated = true;
    }

    /// Paints this cache: reuses the memoized node when it is still valid,
    /// recomputes it otherwise, and leaves the cache clean either way.
    pub fn render(&mut self) -> (n: ViewNode)
        requires
            old(self).wf(),
        ensures
            final(self).component == old(self).component,
            !final(self).invalidated,
            final(self).wf(),
            n@ == snapshot_text(old(self).component.snap()),
    {
        if self.invalidated {
            self.node = self.component.render();
            self.invalidated = false;
        }
        self.node.duplicate()
    }
}

} // verus!
