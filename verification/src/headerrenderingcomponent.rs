//! The header component: displays `title` and `counter1`, and owns the
//! mutation of `counter2` in the shared state.

use vstd::prelude::*;
use crate::appdata::AppData;
use crate::appdata::AppView;
use crate::cached::Render;
use crate::cached::Snapshot;
use crate::cached::reconcile_post;
use crate::cached::snapshot_text;
use crate::viewnode::ViewNode;
use crate::viewnode::render_text;

verus! {

/// The delta this component adds to the counter it owns.
pub const HEADER_DELTA: i32 = 100;

/// The header's memo of the fields it displays, copied out of the shared
/// state only by reconciliation.
pub struct HeaderRenderingComponent {
    pub title: String,
    pub counter1: i32,
}

impl View for HeaderRenderingComponent {
    type V = Snapshot;

    open spec fn view(&self) -> Snapshot {
        Snapshot { text: self.title@, counter: self.counter1 as int }
    }
}

impl HeaderRenderingComponent {
    /// The fields of the shared state this component displays.
    pub open spec fn displayed(a: AppView) -> Snapshot {
        Snapshot { text: a.title, counter: a.counter1 }
    }

    /// Seeds the cache by copying the displayed fields out of the freshly
    /// constructed shared state.
    pub fn new(app_data: &AppData) -> (c: HeaderRenderingComponent)
        ensures
            c@ == HeaderRenderingComponent::displayed(app_data@),
    {
        let mut header = HeaderRenderingComponent { title: String::new(), counter1: 0 };
        header.update_cache_from_app_data(app_data);
        header
    }

    /// The one counter mutation this component owns: adds its fixed delta to
    /// `counter2` in the shared state, and touches nothing else there. The
    /// cache itself is never written here.
    pub fn update_counter2(&self, app_data: &mut AppData)
        requires
            old(app_data).counter2 + HEADER_DELTA <= i32::MAX,
        ensures
            final(app_data)@ == (AppView {
                counter2: old(app_data)@.counter2 + HEADER_DELTA,
                ..old(app_data)@
            }),
    {
        app_data.counter2 = app_data.counter2 + HEADER_DELTA;
        proof {
            assert(final(app_data)@ =~= (AppView {
                counter2: old(app_data)@.counter2 + HEADER_DELTA,
                ..old(app_data)@
            }));
        }
    }

    /// Reconciliation: compares every displayed field against the shared
    /// state, overwrites each mismatch, and reports whether anything
    /// drifted. Every field is compared even after the first mismatch, so
    /// one call leaves the snapshot fully up to date.
    pub fn update_cache_from_app_data(&mut self, app_data: &AppData) -> (changed: bool)
        ensures
            reconcile_post(
                old(self)@,
                final(self)@,
                HeaderRenderingComponent::displayed(app_data@),
                changed,
            ),
    {
        let mut changed = false;
        if !self.title.eq(&app_data.title) {
            self.title = app_data.title.clone();
            changed = true;
        }
        if self.counter1 != app_data.counter1 {
            self.counter1 = app_data.counter1;
            changed = true;
        }
        changed
    }
}

impl Render for HeaderRenderingComponent {
    open spec fn snap(&self) -> Snapshot {
        self@
    }

    fn render(&self) -> (n: ViewNode)
        ensures
            n@ == snapshot_text(self.snap()),
    {
        render_text(&self.title, self.counter1)
    }
}

} // verus!
