use cached_components::appdata::AppData;
use cached_components::cached::Render;
use cached_components::contentrenderingcomponent::ContentRenderingComponent;
use cached_components::decimal::{i32_dec, u32_dec};
use cached_components::footerrenderingcomponent::FooterRenderingComponent;
use cached_components::headerrenderingcomponent::HeaderRenderingComponent;
use cached_components::viewnode::render_text;

fn sample_state() -> AppData {
    AppData {
        title: "title".to_string(),
        description: "description".to_string(),
        author: "author".to_string(),
        counter1: 0,
        counter2: 0,
        counter3: 0,
    }
}

#[test]
fn seed_copies_displayed_fields() {
    let state = sample_state();
    let header = HeaderRenderingComponent::new(&state);
    assert_eq!(header.title, "title");
    assert_eq!(header.counter1, 0);
    let content = ContentRenderingComponent::new(&state);
    assert_eq!(content.description, "description");
    assert_eq!(content.counter2, 0);
    let footer = FooterRenderingComponent::new(&state);
    assert_eq!(footer.author, "author");
    assert_eq!(footer.counter3, 0);
}

#[test]
fn reconcile_reports_drift_and_updates_fully() {
    let s1 = sample_state();
    let mut header = HeaderRenderingComponent::new(&s1);

    let mut s2 = sample_state();
    s2.title = "titlez".to_string();
    s2.counter1 = 100;
    // both displayed fields drifted: one call must repair both
    let changed = header.update_cache_from_app_data(&s2);
    assert!(changed);
    assert_eq!(header.title, "titlez");
    assert_eq!(header.counter1, 100);
}

#[test]
fn reconcile_reports_drift_on_single_field() {
    let s1 = sample_state();
    let mut content = ContentRenderingComponent::new(&s1);

    let mut s2 = sample_state();
    s2.description.push('x');
    let changed = content.update_cache_from_app_data(&s2);
    assert!(changed);
    assert_eq!(content.description, "descriptionx");
    assert_eq!(content.counter2, 0);

    let mut footer = FooterRenderingComponent::new(&s1);
    let mut s3 = sample_state();
    s3.counter3 = 10;
    let changed = footer.update_cache_from_app_data(&s3);
    assert!(changed);
    assert_eq!(footer.author, "author");
    assert_eq!(footer.counter3, 10);
}

#[test]
fn reconcile_is_idempotent() {
    let s1 = sample_state();
    let mut header = HeaderRenderingComponent::new(&s1);

    let mut s2 = sample_state();
    s2.title = "other".to_string();
    assert!(header.update_cache_from_app_data(&s2));
    // same state again: no drift may be reported the second time
    assert!(!header.update_cache_from_app_data(&s2));
    assert_eq!(header.title, "other");
}

#[test]
fn render_depends_on_snapshot_alone() {
    let a = HeaderRenderingComponent {
        title: "same".to_string(),
        counter1: 7,
    };
    let b = HeaderRenderingComponent {
        title: "same".to_string(),
        counter1: 7,
    };
    assert_eq!(a.render().text, b.render().text);
    assert_eq!(a.render().text, "click on me: same 7");
}

#[test]
fn render_with_app_data_reads_live_state() {
    let mut state = sample_state();
    let content = ContentRenderingComponent::new(&state);
    state.description.push('x');
    state.counter2 = 100;
    // the uncached render follows the state, not the stale snapshot
    let node = content.render_with_app_data(&state);
    assert_eq!(node.text, "click on me: descriptionx 100");
    assert_eq!(content.render().text, "click on me: description 0");
}

#[test]
fn counter_mutation_touches_only_the_owned_counter() {
    let state = sample_state();

    let mut s = sample_state();
    HeaderRenderingComponent::new(&state).update_counter2(&mut s);
    assert_eq!(s.counter2, 100);
    assert_eq!(s.title, "title");
    assert_eq!(s.description, "description");
    assert_eq!(s.author, "author");
    assert_eq!(s.counter1, 0);
    assert_eq!(s.counter3, 0);

    let mut s = sample_state();
    ContentRenderingComponent::new(&state).update_counter3(&mut s);
    assert_eq!(s.counter3, 10);
    assert_eq!(s.title, "title");
    assert_eq!(s.description, "description");
    assert_eq!(s.author, "author");
    assert_eq!(s.counter1, 0);
    assert_eq!(s.counter2, 0);

    let mut s = sample_state();
    FooterRenderingComponent::new(&state).update_counter1(&mut s);
    assert_eq!(s.counter1, 100);
    assert_eq!(s.title, "title");
    assert_eq!(s.description, "description");
    assert_eq!(s.author, "author");
    assert_eq!(s.counter2, 0);
    assert_eq!(s.counter3, 0);
}

#[test]
fn decimal_rendering_exact_values() {
    assert_eq!(u32_dec(0), "0");
    assert_eq!(u32_dec(7), "7");
    assert_eq!(u32_dec(10), "10");
    assert_eq!(u32_dec(12345), "12345");
    assert_eq!(u32_dec(u32::MAX), "4294967295");
    assert_eq!(i32_dec(0), "0");
    assert_eq!(i32_dec(-1), "-1");
    assert_eq!(i32_dec(2147483647), "2147483647");
    assert_eq!(i32_dec(i32::MIN), "-2147483648");
}

#[test]
fn text_node_has_the_fixed_shape() {
    let field = "author".to_string();
    assert_eq!(render_text(&field, 0).text, "click on me: author 0");
    assert_eq!(render_text(&field, -25).text, "click on me: author -25");
}
