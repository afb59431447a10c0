use gosub_html5::styles::{StylesOptions, StylesOutput};

#[test]
fn styles_output_parts() {
    let out = StylesOutput { errors: "e1".to_string(), render_tree: "tree".to_string() };
    assert_eq!(out.to_string(), "tree\ne1");
    assert_eq!(out.render_tree(), "tree");
    assert_eq!(out.errors(), "e1");
    let opts = StylesOptions::new("http://example.com".to_string());
    assert_eq!(opts.url, "http://example.com");
}
