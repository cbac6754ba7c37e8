//! The footer component: displays `author` and `counter3`, and owns the
//! mutation of `counter1` in the shared state.

use vstd::prelude::*;
use crate::appdata::AppData;
use crate::appdata::AppView;
use crate::cached::Render;
use crate::cached::Snapshot;
use crate::cached::reconcile_post;
use crate::cached::snapshot_text;
use crate::viewnode::ViewNode;
use crate::viewnode::render_text;

verus! {

/// The delta this component adds to the counter it owns.
pub const FOOTER_DELTA: i32 = 100;

/// The footer's memo of the fields it displays, copied out of the shared
/// state only by reconciliation.
pub struct FooterRenderingComponent {
    pub author: String,
    pub counter3: i32,
}

impl View for FooterRenderingComponent {
    type V = Snapshot;

    open spec fn view(&self) -> Snapshot {
        Snapshot { text: self.author@, counter: self.counter3 as int }
    }
}

impl FooterRenderingComponent {
    /// The fields of the shared state this component displays.
    pub open spec fn displayed(a: AppView) -> Snapshot {
        Snapshot { text: a.author, counter: a.counter3 }
    }

    /// Seeds the cache by copying the displayed fields out of the freshly
    /// constructed shared state.
    pub fn new(app_data: &AppData) -> (c: FooterRenderingComponent)
        ensures
            c@ == FooterRenderingComponent::displayed(app_data@),
    {
        let mut footer = FooterRenderingComponent { author: String::new(), counter3: 0 };
        footer.update_cache_from_app_data(app_data);
        footer
    }

    /// The one counter mutation this component owns: adds its fixed delta to
    /// `counter1` in the shared state, and touches nothing else there. The
    /// cache itself is never written here.
    pub fn update_counter1(&self, app_data: &mut AppData)
        requires
            old(app_data).counter1 + FOOTER_DELTA <= i32::MAX,
        ensures
            final(app_data)@ == (AppView {
                counter1: old(app_data)@.counter1 + FOOTER_DELTA,
                ..old(app_data)@
            }),
    {
        app_data.counter1 = app_data.counter1 + FOOTER_DELTA;
        proof {
            assert(final(app_data)@ =~= (AppView {
                counter1: old(app_data)@.counter1 + FOOTER_DELTA,
                ..old(app_data)@
            }));
        }
    }

    /// Reconciliation: compares every displayed field against the shared
    /// state, overwrites each mismatch, and reports whether anything
    /// drifted. Every field is compared even after the first mismatch, so
    /// one call leaves the snapshot fully up to date.
    pub fn update_cache_from_app_data(&mut self, app_data: &AppData) -> (changed: bool)
        ensures
            reconcile_post(
                old(self)@,
                final(self)@,
                FooterRenderingComponent::displayed(app_data@),
                changed,
            ),
    {
        let mut changed = false;
        if !self.author.eq(&app_data.author) {
            self.author = app_data.author.clone();
            changed = true;
        }
        if self.counter3 != app_data.counter3 {
            self.counter3 = app_data.counter3;
            changed = true;
        }
        changed
    }
}

impl Render for FooterRenderingComponent {
    open spec fn snap(&self) -> Snapshot {
        self@
    }

    fn render(&self) -> (n: ViewNode)
        ensures
            n@ == snapshot_text(self.snap()),
    {
        render_text(&self.author, self.counter3)
    }
}

} // verus!
