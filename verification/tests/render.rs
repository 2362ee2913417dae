use mermaid_rs_renderer::{RenderOptions, Theme, render_with_options};
use mermaid_rs_remote_renderer::render::{
    RenderError, ThemeChoice, pick_theme, settle_render, theme_choice,
};

/// The debug text of a theme, which spells out every field.
fn theme_text(t: Theme) -> String {
    format!("{t:?}")
}

/// Render options with the theme that `pick_theme` selects.
fn options(name: Option<&str>) -> RenderOptions {
    RenderOptions { theme: pick_theme(name), layout: Default::default() }
}

#[test]
fn pick_theme_defaults_to_modern() {
    // Modern is the fallback for None and for unknown names.
    let _ = pick_theme(None);
    let _ = pick_theme(Some("does-not-exist"));
    assert_eq!(theme_text(pick_theme(None)), theme_text(Theme::modern()));
    assert_eq!(theme_text(pick_theme(Some("does-not-exist"))), theme_text(Theme::modern()));
    assert_ne!(theme_text(pick_theme(None)), theme_text(Theme::mermaid_default()));
    assert_eq!(theme_choice(None), ThemeChoice::Modern);
    assert_eq!(theme_choice(Some("does-not-exist")), ThemeChoice::Modern);
}

#[test]
fn pick_theme_recognizes_default_aliases() {
    let _ = pick_theme(Some("default"));
    let _ = pick_theme(Some("DEFAULT"));
    let _ = pick_theme(Some("neutral"));
    let _ = pick_theme(Some("base"));
    for name in ["default", "DEFAULT", "neutral", "base", "NeUtRaL", "Base"] {
        assert_eq!(theme_choice(Some(name)), ThemeChoice::MermaidDefault, "{name}");
        assert_eq!(
            theme_text(pick_theme(Some(name))),
            theme_text(Theme::mermaid_default()),
            "{name}"
        );
    }
}

#[test]
fn theme_names_near_aliases_are_modern() {
    for name in ["modern", "", "defaults", "bas", " base", "dark", "DÉFAULT"] {
        assert_eq!(theme_choice(Some(name)), ThemeChoice::Modern, "{name}");
        assert_eq!(theme_text(pick_theme(Some(name))), theme_text(Theme::modern()), "{name}");
    }
}

#[test]
fn renders_simple_flowchart_with_picked_theme() {
    let svg = render_with_options("flowchart LR; A-->B", options(None)).expect("render");
    assert!(svg.contains("<svg"));
    assert!(!svg.contains("NaN"));
}

#[test]
fn renders_with_default_theme_alias_picked() {
    let svg = render_with_options("flowchart LR; A-->B", options(Some("default"))).expect("render");
    assert!(svg.contains("<svg"));
}

#[test]
fn settle_render_maps_each_outcome() {
    assert_eq!(settle_render(None), Err(RenderError::Timeout));
    assert_eq!(
        settle_render(Some(Err("panicked".to_string()))),
        Err(RenderError::Join("panicked".to_string()))
    );
    assert_eq!(
        settle_render(Some(Ok(Err("bad".to_string())))),
        Err(RenderError::Upstream("bad".to_string()))
    );
    assert_eq!(
        settle_render(Some(Ok(Ok("<svg/>".to_string())))),
        Ok("<svg/>".to_string())
    );
}

#[test]
fn rendered_svg_begins_with_svg_element() {
    let svg = render_with_options("flowchart LR; A-->B", options(Some("modern"))).expect("render");
    assert!(svg.starts_with("<svg"));
}

#[test]
fn unparsable_source_fails_the_same_way_for_every_theme() {
    let a = render_with_options("this is not a mermaid diagram", options(None)).map_err(|e| format!("{e:#}"));
    let b = render_with_options("this is not a mermaid diagram", options(Some("default"))).map_err(|e| format!("{e:#}"));
    assert!(a.is_err());
    assert_eq!(a, b);
}
