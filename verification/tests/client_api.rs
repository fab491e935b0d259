use gist::client::{default_api_url, Client, Method};
use gist::config::{Config, resolve_token};
use gist::gist::Gist;
use gist::gist_file::GistFile;
use gist::response::{decode, decode_create};
use gist::text::u16_decimal;

#[test]
fn create_request_target_and_body() {
    let client = Client::new("sekrit".to_string(), "https://api.github.com".to_string());
    let mut g = Gist::new(true, None);
    let mut f = GistFile::new("file.txt".to_string());
    f.content = "hello".to_string();
    g.add_file(f);

    let req = client.create_request(&g);
    assert_eq!(req.method, Method::Post);
    assert_eq!(req.url, "https://api.github.com/gists");
    assert!(req.query.is_empty());
    assert_eq!(
        req.body.as_deref(),
        Some("{\"public\":true,\"files\":{\"file.txt\":{\"content\":\"hello\"}}}"),
    );
    assert_eq!(req.headers.len(), 4);
    assert_eq!(req.headers[0].0, "Authorization");
    assert_eq!(req.headers[0].1, "bearer sekrit");
    assert_eq!(req.headers[1].0, "Accept");
    assert_eq!(req.headers[1].1, "application/json");
    assert_eq!(req.headers[2].0, "User-Agent");
    assert_eq!(req.headers[2].1, "oz/gist");
    assert_eq!(req.headers[3].0, "Content-Type");
    assert_eq!(req.headers[3].1, "application/vnd.github.v3+json");
}

#[test]
fn list_request_without_login_targets_public_gists() {
    let client = Client::new("sekrit".to_string(), "https://api.github.com".to_string());
    let req = client.list_request(&None);
    assert_eq!(req.method, Method::Get);
    assert_eq!(req.url, "https://api.github.com/gists/public");
    assert_eq!(req.query.len(), 1);
    assert_eq!(req.query[0].0, "per_page");
    assert_eq!(req.query[0].1, "10");
    assert!(req.body.is_none());
    assert_eq!(req.headers[0].1, "bearer sekrit");
}

#[test]
fn list_request_with_login_targets_the_user() {
    let client = Client::new("sekrit".to_string(), "https://api.github.com".to_string());
    let req = client.list_request(&Some("octocat".to_string()));
    assert_eq!(req.url, "https://api.github.com/users/octocat/gists");
    assert_eq!(req.query[0].0, "per_page");
    assert_eq!(req.query[0].1, "10");
}

#[test]
fn created_gist_url_is_extracted() {
    let r = Client::create_result(201, "{\"html_url\":\"https://gist.github.com/xyz\"}");
    assert_eq!(r.unwrap(), "https://gist.github.com/xyz");
}

#[test]
fn failed_create_reports_the_status() {
    let r = Client::create_result(422, "{\"message\":\"Validation Failed\"}");
    let e = r.unwrap_err();
    assert_eq!(e.message, "HTTP error while posting gist: 422");
}

#[test]
fn undecodable_create_body_is_an_error() {
    let r = Client::create_result(200, "not json at all");
    let e = r.unwrap_err();
    assert_eq!(e.message, "Could not decode the gist response.");

    let r = Client::create_result(200, "{\"no_url\":true}");
    assert!(r.is_err());
}

#[test]
fn list_result_decodes_the_items() {
    let body = "[{\"html_url\":\"https://gist.github.com/a\",\"created_at\":\"2024-01-01\"},\
                {\"html_url\":\"https://gist.github.com/b\",\"created_at\":\"2024-01-02\",\
                \"description\":\"notes\"}]";
    let items = Client::list_result(200, body).unwrap();
    assert_eq!(items.len(), 2);
    assert_eq!(items[0].html_url, "https://gist.github.com/a");
    assert_eq!(items[0].created_at, "2024-01-01");
    assert!(items[0].description.is_none());
    assert_eq!(items[1].html_url, "https://gist.github.com/b");
    assert_eq!(items[1].description.as_deref(), Some("notes"));
}

#[test]
fn failed_list_reports_the_status() {
    let e = Client::list_result(404, "").unwrap_err();
    assert_eq!(e.message, "HTTP error while listing gists: 404");
}

#[test]
fn undecodable_list_body_is_an_error() {
    let e = Client::list_result(200, "{\"not\":\"an array\"}").unwrap_err();
    assert_eq!(e.message, "Could not decode the gist list response.");

    let e = Client::list_result(200, "[{\"created_at\":\"2024-01-01\"}]").unwrap_err();
    assert_eq!(e.message, "Could not decode the gist list response.");
}

#[test]
fn decode_reads_one_gist_object() {
    let body = "{\"html_url\":\"https://gist.github.com/a\",\"created_at\":\"2024-01-01\",\
                \"description\":null}";
    let resp = decode(body).unwrap();
    assert_eq!(resp.html_url, "https://gist.github.com/a");
    assert_eq!(resp.created_at, "2024-01-01");
    assert!(resp.description.is_none());

    assert!(decode("{\"html_url\":\"u\"}").is_err());
    assert!(decode("garbage").is_err());
}

#[test]
fn decode_create_needs_only_the_url() {
    let r = decode_create("{\"html_url\":\"https://gist.github.com/xyz\"}");
    assert_eq!(r.unwrap(), "https://gist.github.com/xyz");
    assert!(decode_create("[]").is_err());
}

#[test]
fn token_resolution_order() {
    let r = resolve_token(
        Some("from-gist-var".to_string()),
        Some("from-var".to_string()),
        Some(Config { gist_token: "from-file".to_string() }),
    );
    assert_eq!(r.as_deref(), Some("from-gist-var"));

    let r = resolve_token(
        None,
        Some("from-var".to_string()),
        Some(Config { gist_token: "from-file".to_string() }),
    );
    assert_eq!(r.as_deref(), Some("from-var"));

    let r = resolve_token(None, None, Some(Config { gist_token: "from-file".to_string() }));
    assert_eq!(r.as_deref(), Some("from-file"));

    assert!(resolve_token(None, None, None).is_none());
}

#[test]
fn the_default_api_endpoint() {
    assert_eq!(default_api_url(), "https://api.github.com");
}

#[test]
fn status_codes_render_in_decimal() {
    assert_eq!(u16_decimal(0), "0");
    assert_eq!(u16_decimal(7), "7");
    assert_eq!(u16_decimal(10), "10");
    assert_eq!(u16_decimal(201), "201");
    assert_eq!(u16_decimal(65535), "65535");
}
