use bluesky_rss_bot::ogp::get_ogp;

#[test]
fn test_get_ogp() {
    let body = r#"
        <html>
        <head>
        <meta property="og:title" content="Example Title" />
        <meta property="og:description" content="Example Description" />
        <meta property="og:url" content="https://example.com/" />
        <meta property="og:image" content="https://example.com/hero.png" />
        </head>
        <body>
        </body>
        </html>
        "#;

    let ogp = get_ogp(body.to_string());
    assert_eq!(ogp.og_title, Some("Example Title".to_string()));
    assert_eq!(ogp.og_description, Some("Example Description".to_string()));
    assert_eq!(ogp.og_url, Some("https://example.com/".to_string()));
    assert_eq!(ogp.og_image, Some("https://example.com/hero.png".to_string()));
}

#[test]
fn test_get_ogp_empty() {
    let body = r#"
        <html>
        <head>
        </head>
        <body>
        </body>
        </html>
        "#;

    let ogp = get_ogp(body.to_string());
    assert_eq!(ogp.og_title, None);
    assert_eq!(ogp.og_description, None);
    assert_eq!(ogp.og_url, None);
    assert_eq!(ogp.og_image, None);
}

#[test]
fn test_get_ogp_property_value_case_insensitive() {
    let body = r#"<META PROPERTY="OG:Title" content="T">"#;
    let ogp = get_ogp(body.to_string());
    assert_eq!(ogp.og_title, Some("T".to_string()));
}

#[test]
fn test_get_ogp_last_tag_wins() {
    let body = r#"<meta property="og:title" content="First"><meta property="og:title" content="Second">"#;
    let ogp = get_ogp(body.to_string());
    assert_eq!(ogp.og_title, Some("Second".to_string()));
}

#[test]
fn test_get_ogp_unknown_property_ignored() {
    let body = r#"<meta property="og:video" content="X"><meta name="viewport" content="width=1">"#;
    let ogp = get_ogp(body.to_string());
    assert_eq!(ogp.og_title, None);
    assert_eq!(ogp.og_description, None);
    assert_eq!(ogp.og_url, None);
    assert_eq!(ogp.og_image, None);
}

#[test]
fn test_get_ogp_content_without_property_ignored() {
    let body = r#"<meta content="lonely">"#;
    let ogp = get_ogp(body.to_string());
    assert_eq!(ogp.og_title, None);
}

#[test]
fn test_get_ogp_single_quotes_and_unquoted_values() {
    let body = "<meta property='og:title' content='Quoted'><meta property=og:url content=https://u/>";
    let ogp = get_ogp(body.to_string());
    assert_eq!(ogp.og_title, Some("Quoted".to_string()));
    assert_eq!(ogp.og_url, Some("https://u/".to_string()));
}

#[test]
fn test_get_ogp_malformed_markup() {
    // Broken closing tags, stray brackets and an unclosed trailing tag leave
    // the scan of the well-formed meta tag untouched.
    let body = r#"</p></><!doctype html><script>1 < 2</script><meta property="og:title" content="T"><div <<"#;
    let ogp = get_ogp(body.to_string());
    assert_eq!(ogp.og_title, Some("T".to_string()));
}

#[test]
fn test_get_ogp_meta_inside_script_ignored() {
    let body = r#"<script>document.write('<meta property="og:title" content="X">');</script><meta property="og:description" content="D">"#;
    let ogp = get_ogp(body.to_string());
    assert_eq!(ogp.og_title, None);
    assert_eq!(ogp.og_description, Some("D".to_string()));
}

#[test]
fn test_get_ogp_script_end_tag_case_insensitive() {
    let body = r#"<SCRIPT type="text/javascript">x</ScRiPt ><meta property="og:title" content="T">"#;
    let ogp = get_ogp(body.to_string());
    assert_eq!(ogp.og_title, Some("T".to_string()));
}

#[test]
fn test_get_ogp_meta_inside_comment_ignored() {
    // The comment holds a `>` before the meta tag, so only a scanner that
    // tracks `-->` skips the whole of it.
    let body = r#"<!-- a > b <meta property="og:title" content="X"> --><meta property="og:description" content="D">"#;
    let ogp = get_ogp(body.to_string());
    assert_eq!(ogp.og_title, None);
    assert_eq!(ogp.og_description, Some("D".to_string()));
}

#[test]
fn test_get_ogp_truncated_tag_contributes_nothing() {
    let body = r#"<meta property="og:title" content="T""#;
    let ogp = get_ogp(body.to_string());
    assert_eq!(ogp.og_title, None);
}

#[test]
fn test_get_ogp_attribute_order_irrelevant() {
    let body = r#"<meta content="C" property="og:description">"#;
    let ogp = get_ogp(body.to_string());
    assert_eq!(ogp.og_description, Some("C".to_string()));
}
