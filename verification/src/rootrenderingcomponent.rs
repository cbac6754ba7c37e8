//! The root component: owns the shared state and the three render caches,
//! and is the only component that knows which interaction mutates which
//! fields and therefore which caches must reconcile and be invalidated.

use vstd::prelude::*;
use vstd::string::StringExecFns;
use crate::appdata::AppData;
use crate::appdata::AppView;
use crate::cached::Cached;
use crate::cached::snapshot_text;
use crate::contentrenderingcomponent::CONTENT_DELTA;
use crate::contentrenderingcomponent::ContentRenderingComponent;
use crate::footerrenderingcomponent::FOOTER_DELTA;
use crate::footerrenderingcomponent::FooterRenderingComponent;
use crate::headerrenderingcomponent::HEADER_DELTA;
use crate::headerrenderingcomponent::HeaderRenderingComponent;
use crate::viewnode::RootNode;

verus! {

/// Which sub-component produced a click. Events are addressed to the root
/// alone; the fixed triplet of identifiers is the whole space of legal
/// sources, so a dispatch outside it cannot even be written down.
#[derive(Clone, Copy, PartialEq, Eq, Structural, Debug)]
pub enum ComponentId {
    Header,
    Content,
    Footer,
}

/// What a header click does to the shared state: appends to `description`
/// and adds the header's delta to `counter2`; every other field is kept.
pub open spec fn header_step(pre: AppView, post: AppView) -> bool {
    post == (AppView {
        description: pre.description + "x"@,
        counter2: pre.counter2 + HEADER_DELTA,
        ..pre
    })
}

/// What a content click does to the shared state: appends to `author` and
/// adds the content's delta to `counter3`; every other field is kept.
pub open spec fn content_step(pre: AppView, post: AppView) -> bool {
    post == (AppView { author: pre.author + "y"@, counter3: pre.counter3 + CONTENT_DELTA, ..pre })
}

/// What a footer click does to the shared state: appends to `title` and
/// adds the footer's delta to `counter1`; every other field is kept.
pub open spec fn footer_step(pre: AppView, post: AppView) -> bool {
    post == (AppView { title: pre.title + "z"@, counter1: pre.counter1 + FOOTER_DELTA, ..pre })
}

/// A header click always drifts the content's displayed fields: the
/// description it shows grows by one character, so the caches that depend on
/// it must be invalidated even though the content's own counter was never
/// touched.
pub proof fn lemma_header_click_drifts_content(pre: AppView, post: AppView)
    requires
        header_step(pre, post),
    ensures
        ContentRenderingComponent::displayed(post).text == pre.description + "x"@,
        ContentRenderingComponent::displayed(post) != ContentRenderingComponent::displayed(pre),
        HeaderRenderingComponent::displayed(post) == HeaderRenderingComponent::displayed(pre),
        FooterRenderingComponent::displayed(post) == FooterRenderingComponent::displayed(pre),
{
    reveal_strlit("x");
    assert(post.description.len() == pre.description.len() + 1);
    assert(HeaderRenderingComponent::displayed(post)
        =~= HeaderRenderingComponent::displayed(pre));
    assert(FooterRenderingComponent::displayed(post)
        =~= FooterRenderingComponent::displayed(pre));
}

/// A content click always drifts the footer's displayed fields, and only
/// those.
pub proof fn lemma_content_click_drifts_footer(pre: AppView, post: AppView)
    requires
        content_step(pre, post),
    ensures
        FooterRenderingComponent::displayed(post).text == pre.author + "y"@,
        FooterRenderingComponent::displayed(post) != FooterRenderingComponent::displayed(pre),
        HeaderRenderingComponent::displayed(post) == HeaderRenderingComponent::displayed(pre),
        ContentRenderingComponent::displayed(post) == ContentRenderingComponent::displayed(pre),
{
    reveal_strlit("y");
    assert(post.author.len() == pre.author.len() + 1);
    assert(HeaderRenderingComponent::displayed(post)
        =~= HeaderRenderingComponent::displayed(pre));
    assert(ContentRenderingComponent::displayed(post)
        =~= ContentRenderingComponent::displayed(pre));
}

/// A footer click always drifts the header's displayed fields, and only
/// those.
pub proof fn lemma_footer_click_drifts_header(pre: AppView, post: AppView)
    requires
        footer_step(pre, post),
    ensures
        HeaderRenderingComponent::displayed(post).text == pre.title + "z"@,
        HeaderRenderingComponent::displayed(post) != HeaderRenderingComponent::displayed(pre),
        ContentRenderingComponent::displayed(post) == ContentRenderingComponent::displayed(pre),
        FooterRenderingComponent::displayed(post) == FooterRenderingComponent::displayed(pre),
{
    reveal_strlit("z");
    assert(post.title.len() == pre.title.len() + 1);
    assert(ContentRenderingComponent::displayed(post)
        =~= ContentRenderingComponent::displayed(pre));
    assert(FooterRenderingComponent::displayed(post)
        =~= FooterRenderingComponent::displayed(pre));
}

/// Everything one routed click guarantees, besides the root invariant: the
/// state step associated with the click's source, the invalidation of the
/// one cache whose displayed string field the click grew, and the other two
/// invalidation flags exactly as they were — their displayed fields did not
/// move, so reconciliation leaves them alone.
pub open spec fn click_post(
    pre: RootRenderingComponent,
    post: RootRenderingComponent,
    source: ComponentId,
) -> bool {
    match source {
        ComponentId::Header => {
            &&& header_step(pre.app_data@, post.app_data@)
            &&& post.content_rendering_component.invalidated
            &&& post.header_rendering_component.invalidated
                == pre.header_rendering_component.invalidated
            &&& post.footer_rendering_component.invalidated
                == pre.footer_rendering_component.invalidated
        },
        ComponentId::Content => {
            &&& content_step(pre.app_data@, post.app_data@)
            &&& post.footer_rendering_component.invalidated
            &&& post.header_rendering_component.invalidated
                == pre.header_rendering_component.invalidated
            &&& post.content_rendering_component.invalidated
                == pre.content_rendering_component.invalidated
        },
        ComponentId::Footer => {
            &&& footer_step(pre.app_data@, post.app_data@)
            &&& post.header_rendering_component.invalidated
            &&& post.content_rendering_component.invalidated
                == pre.content_rendering_component.invalidated
            &&& post.footer_rendering_component.invalidated
                == pre.footer_rendering_component.invalidated
        },
    }
}

/// The root: the single owner of the shared state and of the three cached
/// components, and the only addressable target of interactions.
pub struct RootRenderingComponent {
    pub app_data: AppData,
    pub header_rendering_component: Cached<HeaderRenderingComponent>,
    pub content_rendering_component: Cached<ContentRenderingComponent>,
    pub footer_rendering_component: Cached<FooterRenderingComponent>,
}

impl Default for RootRenderingComponent {
    /// The same freshly mounted root that [`RootRenderingComponent::new`]
    /// builds.
    fn default() -> (root: Self)
        ensures
            root.wf(),
            root.app_data@ == AppData::initial(),
            !root.any_invalidated(),
    {
        Self::new()
    }
}

impl RootRenderingComponent {
    /// Every render cache is usable: nodes not marked invalid are current.
    pub open spec fn caches_wf(&self) -> bool {
        &&& self.header_rendering_component.wf()
        &&& self.content_rendering_component.wf()
        &&& self.footer_rendering_component.wf()
    }

    /// Every snapshot equals the fields the shared state displays for it;
    /// interactions restore this before they return.
    pub open spec fn reconciled(&self) -> bool {
        &&& self.header_rendering_component.component@
            == HeaderRenderingComponent::displayed(self.app_data@)
        &&& self.content_rendering_component.component@
            == ContentRenderingComponent::displayed(self.app_data@)
        &&& self.footer_rendering_component.component@
            == FooterRenderingComponent::displayed(self.app_data@)
    }

    /// The root invariant, established by construction and preserved by
    /// every operation.
    pub open spec fn wf(&self) -> bool {
        &&& self.caches_wf()
        &&& self.reconciled()
    }

    /// Some cache was invalidated since the last paint, so a repaint is
    /// due.
    pub open spec fn any_invalidated(&self) -> bool {
        ||| self.header_rendering_component.invalidated
        ||| self.content_rendering_component.invalidated
        ||| self.footer_rendering_component.invalidated
    }

    /// Creates the shared state with its fixed initial values and seeds the
    /// three caches from it, each rendered once and clean.
    pub fn new() -> (root: RootRenderingComponent)
        ensures
            root.wf(),
            root.app_data@ == AppData::initial(),
            !root.any_invalidated(),
    {
        let app_data = AppData::new();
        let header_rendering_component = Cached::new(HeaderRenderingComponent::new(&app_data));
        let content_rendering_component = Cached::new(ContentRenderingComponent::new(&app_data));
        let footer_rendering_component = Cached::new(FooterRenderingComponent::new(&app_data));

        RootRenderingComponent {
            app_data,
            header_rendering_component,
            content_rendering_component,
            footer_rendering_component,
        }
    }

    /// Reconciles every cache against the shared state, in the fixed order
    /// header, content, footer, and invalidates exactly the caches that
    /// drifted. The shared state itself is untouched.
    fn invalidate_components(&mut self)
        requires
            old(self).caches_wf(),
        ensures
            final(self).wf(),
            final(self).app_data == old(self).app_data,
            final(self).header_rendering_component.invalidated
                == (old(self).header_rendering_component.invalidated
                    || old(self).header_rendering_component.component@
                        != HeaderRenderingComponent::displayed(old(self).app_data@)),
            final(self).content_rendering_component.invalidated
                == (old(self).content_rendering_component.invalidated
                    || old(self).content_rendering_component.component@
                        != ContentRenderingComponent::displayed(old(self).app_data@)),
            final(self).footer_rendering_component.invalidated
                == (old(self).footer_rendering_component.invalidated
                    || old(self).footer_rendering_component.component@
                        != FooterRenderingComponent::displayed(old(self).app_data@)),
    {
        if self.header_rendering_component.component.update_cache_from_app_data(&self.app_data) {
            self.header_rendering_component.invalidate();
        }
        if self.content_rendering_component.component.update_cache_from_app_data(&self.app_data) {
            self.content_rendering_component.invalidate();
        }
        if self.footer_rendering_component.component.update_cache_from_app_data(&self.app_data) {
            self.footer_rendering_component.invalidate();
        }
    }

    /// A header click: the root appends to `description`, delegates the
    /// counter mutation the header owns, then reconciles every cache. The
    /// content cache is always invalidated by the grown description; the
    /// header and footer caches are left as they were, since none of their
    /// displayed fields moved.
    pub fn update_from_header(&mut self)
        requires
            old(self).wf(),
            old(self).app_data@.counter2 + HEADER_DELTA <= i32::MAX,
        ensures
            final(self).wf(),
            click_post(*old(self), *final(self), ComponentId::Header),
    {
        self.app_data.description.append("x");
        self.header_rendering_component.component.update_counter2(&mut self.app_data);
        proof {
            assert(header_step(old(self).app_data@, self.app_data@));
            lemma_header_click_drifts_content(old(self).app_data@, self.app_data@);
        }
        self.invalidate_components();
    }

    /// A content click: the root appends to `author`, delegates the counter
    /// mutation the content owns, then reconciles every cache. The footer
    /// cache is always invalidated by the grown author; the header and
    /// content caches are left as they were.
    pub fn update_from_content(&mut self)
        requires
            old(self).wf(),
            old(self).app_data@.counter3 + CONTENT_DELTA <= i32::MAX,
        ensures
            final(self).wf(),
            click_post(*old(self), *final(self), ComponentId::Content),
    {
        self.app_data.author.append("y");
        self.content_rendering_component.component.update_counter3(&mut self.app_data);
        proof {
            assert(content_step(old(self).app_data@, self.app_data@));
            lemma_content_click_drifts_footer(old(self).app_data@, self.app_data@);
        }
        self.invalidate_components();
    }

    /// A footer click: the root appends to `title`, delegates the counter
    /// mutation the footer owns, then reconciles every cache. The header
    /// cache is always invalidated by the grown title; the content and
    /// footer caches are left as they were.
    pub fn update_from_footer(&mut self)
        requires
            old(self).wf(),
            old(self).app_data@.counter1 + FOOTER_DELTA <= i32::MAX,
        ensures
            final(self).wf(),
            click_post(*old(self), *final(self), ComponentId::Footer),
    {
        self.app_data.title.append("z");
        self.footer_rendering_component.component.update_counter1(&mut self.app_data);
        proof {
            assert(footer_step(old(self).app_data@, self.app_data@));
            lemma_footer_click_drifts_header(old(self).app_data@, self.app_data@);
        }
        self.invalidate_components();
    }

    /// Routes a click from the named sub-component through the one update
    /// the root associates with it, and reports whether a repaint is due —
    /// which, after any interaction, it always is, because each click grows
    /// a string field some cache displays.
    pub fn handle_interaction(&mut self, source: ComponentId) -> (repaint: bool)
        requires
            old(self).wf(),
            source == ComponentId::Header ==> old(self).app_data@.counter2 + HEADER_DELTA
                <= i32::MAX,
            source == ComponentId::Content ==> old(self).app_data@.counter3 + CONTENT_DELTA
                <= i32::MAX,
            source == ComponentId::Footer ==> old(self).app_data@.counter1 + FOOTER_DELTA
                <= i32::MAX,
        ensures
            final(self).wf(),
            click_post(*old(self), *final(self), source),
            repaint == final(self).any_invalidated(),
            repaint,
    {
        match source {
            ComponentId::Header => self.update_from_header(),
            ComponentId::Content => self.update_from_content(),
            ComponentId::Footer => self.update_from_footer(),
        }
        self.header_rendering_component.invalidated
            || self.content_rendering_component.invalidated
            || self.footer_rendering_component.invalidated
    }

    /// Paints the tree: composes the children in the fixed order header,
    /// content, footer, reusing every node whose cache was not invalidated
    /// and recomputing the rest. Afterwards every cache is clean, and every
    /// painted text matches the fields the shared state displays.
    pub fn render(&mut self) -> (n: RootNode)
        requires
            old(self).wf(),
        ensures
            final(self).wf(),
            final(self).app_data == old(self).app_data,
            !final(self).any_invalidated(),
            n.header@ == snapshot_text(HeaderRenderingComponent::displayed(old(self).app_data@)),
            n.content@ == snapshot_text(
                ContentRenderingComponent::displayed(old(self).app_data@),
            ),
            n.footer@ == snapshot_text(FooterRenderingComponent::displayed(old(self).app_data@)),
    {
        let header = self.header_rendering_component.render();
        let content = self.content_rendering_component.render();
        let footer = self.footer_rendering_component.render();
        RootNode { header, content, footer }
    }
}

} // verus!
