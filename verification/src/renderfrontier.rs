//! The boundary to the host's display loop: a repaint is requested, not
//! performed, and the host services the request on its own cadence by
//! calling [`RenderFrontier::paint`].

use vstd::prelude::*;
use crate::cached::snapshot_text;
use crate::contentrenderingcomponent::CONTENT_DELTA;
use crate::contentrenderingcomponent::ContentRenderingComponent;
use crate::footerrenderingcomponent::FOOTER_DELTA;
use crate::footerrenderingcomponent::FooterRenderingComponent;
use crate::headerrenderingcomponent::HEADER_DELTA;
use crate::headerrenderingcomponent::HeaderRenderingComponent;
use crate::rootrenderingcomponent::ComponentId;
use crate::rootrenderingcomponent::RootRenderingComponent;
use crate::rootrenderingcomponent::click_post;
use crate::viewnode::RootNode;

verus! {

/// The pending-repaint latch between the core and the host: interactions
/// set it, a paint clears it.
pub struct RenderFrontier {
    pub repaint_pending: bool,
}

impl RenderFrontier {
    /// A frontier with no repaint due yet.
    pub fn new() -> (f: RenderFrontier)
        ensures
            !f.repaint_pending,
    {
        RenderFrontier { repaint_pending: false }
    }

    /// Requests a repaint; the host performs it at its next tick.
    pub fn schedule_repaint(&mut self)
        ensures
            final(self).repaint_pending,
    {
        self.repaint_pending = true;
    }

    /// Paints the root's tree and clears the pending request. Afterwards
    /// every cache is clean and every painted text matches the fields the
    /// shared state displays.
    pub fn paint(&mut self, root: &mut RootRenderingComponent) -> (n: RootNode)
        requires
            old(root).wf(),
        ensures
            !final(self).repaint_pending,
            final(root).wf(),
            final(root).app_data == old(root).app_data,
            !final(root).any_invalidated(),
            n.header@ == snapshot_text(HeaderRenderingComponent::displayed(old(root).app_data@)),
            n.content@ == snapshot_text(ContentRenderingComponent::displayed(old(root).app_data@)),
            n.footer@ == snapshot_text(FooterRenderingComponent::displayed(old(root).app_data@)),
    {
        self.repaint_pending = false;
        root.render()
    }
}

/// The host's one entry for events: routes a click to the root's
/// interaction handler and schedules a repaint exactly when some cache was
/// invalidated — which, after any interaction, is always the case.
pub fn dispatch(
    root: &mut RootRenderingComponent,
    frontier: &mut RenderFrontier,
    source: ComponentId,
)
    requires
        old(root).wf(),
        source == ComponentId::Header ==> old(root).app_data@.counter2 + HEADER_DELTA <= i32::MAX,
        source == ComponentId::Content ==> old(root).app_data@.counter3 + CONTENT_DELTA
            <= i32::MAX,
        source == ComponentId::Footer ==> old(root).app_data@.counter1 + FOOTER_DELTA <= i32::MAX,
    ensures
        final(root).wf(),
        click_post(*old(root), *final(root), source),
        final(frontier).repaint_pending,
{
    let repaint = root.handle_interaction(source);
    if repaint {
        frontier.schedule_repaint();
    }
}

} // verus!
