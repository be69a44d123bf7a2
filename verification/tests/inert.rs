//! What is inert, and what is not.
use akson::inert::check_inert;

#[test]
fn data_formats_are_inert() {
    assert!(check_inert("application/sarif+json", b"{\"runs\":[]}").is_ok());
    assert!(check_inert("text/plain", b"onclick= not really markup").is_ok());
    assert!(check_inert("application/json", b"{\"onload\":\"x\"}").is_ok());
}

#[test]
fn a_clean_svg_passes() {
    let svg = br#"<svg xmlns="http://www.w3.org/2000/svg"><rect width="10" height="10" fill="red"/><text>ok</text></svg>"#;
    assert!(check_inert("image/svg+xml", svg).is_ok());
}

#[test]
fn svg_with_a_script_is_rejected() {
    let svg = br#"<svg xmlns="http://www.w3.org/2000/svg"><script>alert(1)</script></svg>"#;
    assert!(check_inert("image/svg+xml", svg).is_err());
}

#[test]
fn svg_with_an_event_handler_is_rejected() {
    let svg = br#"<svg><rect onload="steal()" /></svg>"#;
    assert!(check_inert("image/svg+xml", svg).is_err());
    assert!(check_inert("image/svg+xml", b"<svg><rect ONCLICK=\"x\"/></svg>").is_err());
}

#[test]
fn svg_with_an_external_image_is_rejected() {
    let svg = br#"<svg><image href="https://evil.example/track.png"/></svg>"#;
    assert!(check_inert("image/svg+xml", svg).is_err());
    assert!(check_inert("image/svg+xml", b"<svg><image href=\"//evil/x\"/></svg>").is_err());
}

#[test]
fn markdown_with_a_javascript_link_or_script_is_rejected() {
    assert!(check_inert("text/markdown", b"[click](javascript:alert(1))").is_err());
    assert!(check_inert("text/markdown", b"# ok\n<script>x</script>\n").is_err());
}

#[test]
fn clean_markdown_passes() {
    let md = b"# Findings\n\n- line 1 looks correct\n- see [docs](/local/path)\n";
    assert!(check_inert("text/markdown", md).is_ok());
}

#[test]
fn a_doctype_or_entity_in_svg_is_rejected() {
    let xxe = br#"<?xml version="1.0"?><!DOCTYPE svg [<!ENTITY x "y">]><svg/>"#;
    assert!(check_inert("image/svg+xml", xxe).is_err());
}

#[test]
fn a_word_containing_on_is_not_a_false_positive() {
    let md = b"# Notes\nonly one concern on the frontend; done.\n";
    assert!(check_inert("text/markdown", md).is_ok());
}

#[test]
fn a_graphviz_url_attribute_to_an_external_link_is_rejected() {
    let dot = br#"digraph { a [label="x" URL="https://evil.example/track"]; }"#;
    assert!(check_inert("text/vnd.graphviz", dot).is_err());
    assert!(check_inert(
        "text/vnd.graphviz+dot",
        b"digraph{ n[url = \"http://evil/x\"] }"
    )
    .is_err());
}

#[test]
fn a_css_url_function_to_an_external_resource_is_rejected() {
    let svg = br#"<svg><rect style="fill:url(https://evil.example/p.png)"/></svg>"#;
    assert!(check_inert("image/svg+xml", svg).is_err());
}

#[test]
fn a_clean_graphviz_passes() {
    let dot =
        br##"digraph { a -> b; a [URL="#section" label="see https://docs.local later"]; }"##;
    assert!(check_inert("text/vnd.graphviz", dot).is_ok());
}

#[test]
fn a_case_variant_media_type_is_still_checked() {
    assert!(check_inert("Image/SVG+XML", b"<svg><script>x</script></svg>").is_err());
    assert!(check_inert("TEXT/HTML", b"<body onload=\"x\"></body>").is_err());
}

#[test]
fn an_event_handler_with_newline_whitespace_is_rejected() {
    assert!(check_inert("text/html", b"<body onload\n=alert(1)>").is_err());
    assert!(check_inert("text/html", b"<rect onclick\r\n = 'x'/>").is_err());
}

#[test]
fn utf16_or_nul_padded_content_is_rejected() {
    let utf16: Vec<u8> = "<script>"
        .encode_utf16()
        .flat_map(u16::to_le_bytes)
        .collect();
    assert!(check_inert("image/svg+xml", &utf16).is_err());
    assert!(check_inert("text/html", b"ok\0<script>").is_err());
    assert!(check_inert("text/markdown", "# ok\nrésumé\n".as_bytes()).is_ok());
}

#[test]
fn a_bare_url_word_in_prose_is_not_a_reference() {
    let md = b"# Notes\nthe url https://api.example was called; run curl https://x to repro.\n";
    assert!(check_inert("text/markdown", md).is_ok());
}

#[test]
fn a_script_uri_hidden_behind_numeric_char_references_is_rejected() {
    let hex = br#"<a href="java&#x73;cript:alert(1)">x</a>"#;
    assert!(check_inert("text/html", hex).is_err());
    let dec = br#"<a href="java&#115;cript:alert(1)">x</a>"#;
    assert!(check_inert("text/html", dec).is_err());
    let tag = "&#x3c;script&#x3e;alert(1)&#x3c;/script&#x3e;".as_bytes();
    assert!(check_inert("text/html", tag).is_err());
    assert!(check_inert("text/html", "<p>ok &#8212; done</p>".as_bytes()).is_ok());
}

#[test]
fn an_external_srcset_fetch_is_rejected() {
    let html = br#"<img srcset="https://attacker.example/pixel 1x">"#;
    assert!(check_inert("text/html", html).is_err());
}

#[test]
fn a_refusal_says_why() {
    let e = check_inert("text/html", b"<script>").unwrap_err();
    assert!(!e.reason.is_empty());
}

#[test]
fn parameters_of_a_media_type_do_not_matter() {
    assert!(check_inert("text/html; charset=utf-8", b"<script>").is_err());
    assert!(check_inert("application/json; charset=utf-8", b"<script>").is_ok());
}

#[test]
fn any_white_space_may_stand_before_a_target() {
    for blank in ["\n", "\r", "\x0c", "\t", " "] {
        let svg = format!("<svg><image href={blank}\"https://evil.example/x\"/></svg>");
        assert!(check_inert("image/svg+xml", svg.as_bytes()).is_err(), "{blank:?}");
    }
}

#[test]
fn a_form_feed_opens_an_attribute() {
    assert!(check_inert("image/svg+xml", b"<svg\x0conload=\"x()\"/>").is_err());
}

#[test]
fn a_signed_number_is_no_character_reference() {
    assert!(check_inert("text/markdown", b"&#+60;script>").is_ok());
    assert!(check_inert("text/markdown", b"&#60;script>").is_err());
    assert!(check_inert("text/markdown", b"&#x+3c;script>").is_ok());
}

#[test]
fn case_makes_no_difference() {
    for (media_type, artifact) in [
        ("text/markdown", &b"&#x6A;avascript:x"[..]),
        ("TEXT/Markdown", &b"&#X6a;AVAscript:x"[..]),
        ("text/markdown", &b"<ScRiPt>"[..]),
        ("text/MARKDOWN", &b"<sCrIpT>"[..]),
    ] {
        assert!(check_inert(media_type, artifact).is_err());
    }
}
