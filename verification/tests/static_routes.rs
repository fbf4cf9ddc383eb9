use domain_for_sale::handler::{asset_key, not_found, static_handler, StaticRoute};
use domain_for_sale::resp::Resp;

#[test]
fn unknown_path_with_extension_is_not_found() {
    let r = static_handler("/nonexistent.png", false, true);
    assert!(matches!(r, StaticRoute::NotFound));
    let (status, body) = not_found();
    assert_eq!(status, 404);
    assert_eq!(body, "404");
}

#[test]
fn root_serves_the_index_document() {
    assert!(matches!(static_handler("/", false, true), StaticRoute::Index));
}

#[test]
fn extensionless_unknown_path_falls_back_to_the_index_document() {
    assert!(matches!(static_handler("/about", false, true), StaticRoute::Index));
}

#[test]
fn index_html_serves_the_index_document() {
    assert!(matches!(static_handler("/index.html", true, true), StaticRoute::Index));
}

#[test]
fn missing_index_document_is_not_found() {
    assert!(matches!(static_handler("/", false, false), StaticRoute::NotFound));
    assert!(matches!(static_handler("/about", false, false), StaticRoute::NotFound));
}

#[test]
fn found_asset_is_served_under_its_guessed_content_type() {
    match static_handler("/app.css", true, true) {
        StaticRoute::Asset { content_type } => assert_eq!(content_type, "text/css"),
        _ => panic!("a found asset must be served"),
    }
    match static_handler("/logo.png", true, true) {
        StaticRoute::Asset { content_type } => assert_eq!(content_type, "image/png"),
        _ => panic!("a found asset must be served"),
    }
    match static_handler("/data.bin", true, true) {
        StaticRoute::Asset { content_type } => {
            assert_eq!(content_type, "application/octet-stream")
        }
        _ => panic!("a found asset must be served"),
    }
}

#[test]
fn asset_keys_drop_leading_slashes() {
    assert_eq!(asset_key("/foo/bar.js"), "foo/bar.js");
    assert_eq!(asset_key("//foo"), "foo");
    assert_eq!(asset_key("/"), "");
    assert_eq!(asset_key("plain"), "plain");
}

#[test]
fn envelopes_carry_code_message_and_data() {
    let ok = Resp::ok("payload".to_owned());
    assert_eq!(ok.code, 0);
    assert_eq!(ok.msg, "OK");
    assert_eq!(ok.data, "payload");

    let empty = Resp::ok_empty();
    assert_eq!(empty.code, 0);
    assert_eq!(empty.msg, "OK");

    let err = Resp::err(domain_for_sale::err::Error::new("boom".to_owned()));
    assert_eq!(err.code, -1);
    assert_eq!(err.msg, "boom");
}
