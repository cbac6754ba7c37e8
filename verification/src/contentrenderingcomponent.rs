//! The content component: displays `description` and `counter2`, and owns
//! the mutation of `counter3` in the shared state.

use vstd::prelude::*;
use crate::appdata::AppData;
use crate::appdata::AppView;
use crate::cached::Render;
use crate::cached::Snapshot;
use crate::cached::reconcile_post;
use crate::cached::snapshot_text;
use crate::viewnode::ViewNode;
use crate::viewnode::render_text;

verus! {

/// The delta this component adds to the counter it owns.
pub const CONTENT_DELTA: i32 = 10;

/// The content's memo of the fields it displays, copied out of the shared
/// state only by reconciliation.
pub struct ContentRenderingComponent {
    pub description: String,
    pub counter2: i32,
}

impl View for ContentRenderingComponent {
    type V = Snapshot;

    open spec fn view(&self) -> Snapshot {
        Snapshot { text: self.description@, counter: self.counter2 as int }
    }
}

impl ContentRenderingComponent {
    /// The fields of the shared state this component displays.
    pub open spec fn displayed(a: AppView) -> Snapshot {
        Snapshot { text: a.description, counter: a.counter2 }
    }

    /// Seeds the cache by copying the displayed fields out of the freshly
    /// constructed shared state.
    pub fn new(app_data: &AppData) -> (c: ContentRenderingComponent)
        ensures
            c@ == ContentRenderingComponent::displayed(app_data@),
    {
        let mut content = ContentRenderingComponent { description: String::new(), counter2: 0 };
        content.update_cache_from_app_data(app_data);
        content
    }

    /// The one counter mutation this component owns: adds its fixed delta to
    /// `counter3` in the shared state, and touches nothing else there. The
    /// cache itself is never written here.
    pub fn update_counter3(&self, app_data: &mut AppData)
        requires
            old(app_data).counter3 + CONTENT_DELTA <= i32::MAX,
        ensures
            final(app_data)@ == (AppView {
                counter3: old(app_data)@.counter3 + CONTENT_DELTA,
                ..old(app_data)@
            }),
    {
        app_data.counter3 = app_data.counter3 + CONTENT_DELTA;
        proof {
            assert(final(app_data)@ =~= (AppView {
                counter3: old(app_data)@.counter3 + CONTENT_DELTA,
                ..old(app_data)@
            }));
        }
    }

    /// Reconciliation: compares every displayed field against the shared
    /// state, overwrites each mismatch, and reports whether anything
    /// drifted. Every field is compared even after the first mismatch, so
    /// one call leaves the snapshot fully up to date.
    pub fn update_cache_from_app_data(&mut self, app_data: &AppData) -> (changed: bool)
        ensures
            reconcile_post(
                old(self)@,
                final(self)@,
                ContentRenderingComponent::displayed(app_data@),
                changed,
            ),
    {
        let mut changed = false;
        if !self.description.eq(&app_data.description) {
            self.description = app_data.description.clone();
            changed = true;
        }
        if self.counter2 != app_data.counter2 {
            self.counter2 = app_data.counter2;
            changed = true;
        }
        changed
    }

    /// The uncached alternative: renders straight from the shared state,
    /// bypassing the snapshot, for a host that does not cache this
    /// component's output at all.
    pub fn render_with_app_data(&self, app_data: &AppData) -> (n: ViewNode)
        ensures
            n@ == snapshot_text(ContentRenderingComponent::displayed(app_data@)),
    {
        render_text(&app_data.description, app_data.counter2)
    }
}

impl Render for ContentRenderingComponent {
    open spec fn snap(&self) -> Snapshot {
        self@
    }

    fn render(&self) -> (n: ViewNode)
        ensures
            n@ == snapshot_text(self.snap()),
    {
        render_text(&self.description, self.counter2)
    }
}

} // verus!
