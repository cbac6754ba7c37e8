use cached_components::cached::Cached;
use cached_components::headerrenderingcomponent::HeaderRenderingComponent;
use cached_components::renderfrontier::{dispatch, RenderFrontier};
use cached_components::rootrenderingcomponent::{ComponentId, RootRenderingComponent};

#[test]
fn initial_state_and_first_paint() {
    let mut root = RootRenderingComponent::new();
    assert_eq!(root.app_data.title, "title");
    assert_eq!(root.app_data.description, "description");
    assert_eq!(root.app_data.author, "author");
    assert_eq!(root.app_data.counter1, 0);
    assert_eq!(root.app_data.counter2, 0);
    assert_eq!(root.app_data.counter3, 0);

    let tree = root.render();
    assert_eq!(tree.header.text, "click on me: title 0");
    assert_eq!(tree.content.text, "click on me: description 0");
    assert_eq!(tree.footer.text, "click on me: author 0");
}

#[test]
fn header_click_updates_state_and_propagates() {
    let mut root = RootRenderingComponent::new();
    let repaint = root.handle_interaction(ComponentId::Header);
    assert!(repaint);

    // the state after the click
    assert_eq!(root.app_data.title, "title");
    assert_eq!(root.app_data.description, "descriptionx");
    assert_eq!(root.app_data.author, "author");
    assert_eq!(root.app_data.counter1, 0);
    assert_eq!(root.app_data.counter2, 100);
    assert_eq!(root.app_data.counter3, 0);

    // the content cache reconciled to the grown description and was marked
    // invalid, though the content's own counter mutation never ran
    assert_eq!(
        root.content_rendering_component.component.description,
        "descriptionx"
    );
    assert!(root.content_rendering_component.invalidated);
    assert!(!root.header_rendering_component.invalidated);
    assert!(!root.footer_rendering_component.invalidated);

    let tree = root.render();
    assert_eq!(tree.header.text, "click on me: title 0");
    assert_eq!(tree.content.text, "click on me: descriptionx 100");
    assert_eq!(tree.footer.text, "click on me: author 0");
}

#[test]
fn chained_content_click() {
    let mut root = RootRenderingComponent::new();
    root.handle_interaction(ComponentId::Header);
    root.render();

    let repaint = root.handle_interaction(ComponentId::Content);
    assert!(repaint);
    assert_eq!(root.app_data.description, "descriptionx");
    assert_eq!(root.app_data.author, "authory");
    assert_eq!(root.app_data.counter3, 10);
    assert!(root.footer_rendering_component.invalidated);
    assert!(!root.header_rendering_component.invalidated);
    assert!(!root.content_rendering_component.invalidated);

    let tree = root.render();
    assert_eq!(tree.footer.text, "click on me: authory 10");
    assert_eq!(tree.content.text, "click on me: descriptionx 100");
    assert_eq!(tree.header.text, "click on me: title 0");
}

#[test]
fn footer_click_invalidates_header() {
    let mut root = RootRenderingComponent::new();
    root.handle_interaction(ComponentId::Footer);
    assert_eq!(root.app_data.title, "titlez");
    assert_eq!(root.app_data.counter1, 100);
    assert!(root.header_rendering_component.invalidated);
    assert!(!root.content_rendering_component.invalidated);
    assert!(!root.footer_rendering_component.invalidated);

    let tree = root.render();
    assert_eq!(tree.header.text, "click on me: titlez 100");
    assert_eq!(tree.footer.text, "click on me: author 0");
}

#[test]
fn paint_leaves_every_cache_clean() {
    let mut root = RootRenderingComponent::new();
    root.handle_interaction(ComponentId::Header);
    root.render();
    assert!(!root.header_rendering_component.invalidated);
    assert!(!root.content_rendering_component.invalidated);
    assert!(!root.footer_rendering_component.invalidated);

    // painting again without any interaction repeats the same tree
    let tree = root.render();
    assert_eq!(tree.content.text, "click on me: descriptionx 100");
}

#[test]
fn dispatch_schedules_and_paint_clears() {
    let mut root = RootRenderingComponent::new();
    let mut frontier = RenderFrontier::new();
    assert!(!frontier.repaint_pending);

    dispatch(&mut root, &mut frontier, ComponentId::Content);
    assert!(frontier.repaint_pending);
    assert_eq!(root.app_data.author, "authory");

    let tree = frontier.paint(&mut root);
    assert!(!frontier.repaint_pending);
    assert_eq!(tree.footer.text, "click on me: authory 10");
}

#[test]
fn invalidated_cache_recomputes_on_paint() {
    let header = HeaderRenderingComponent {
        title: "t".to_string(),
        counter1: 1,
    };
    let mut cached = Cached::new(header);
    assert!(!cached.invalidated);
    assert_eq!(cached.render().text, "click on me: t 1");

    // a snapshot edit followed by invalidation forces recomputation
    cached.component.counter1 = 2;
    cached.invalidate();
    assert!(cached.invalidated);
    assert_eq!(cached.render().text, "click on me: t 2");
    assert!(!cached.invalidated);
}

#[test]
fn every_interaction_requests_a_repaint() {
    let mut root = RootRenderingComponent::new();
    assert!(root.handle_interaction(ComponentId::Header));
    assert!(root.handle_interaction(ComponentId::Content));
    assert!(root.handle_interaction(ComponentId::Footer));
}
