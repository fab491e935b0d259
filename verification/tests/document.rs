use gist::gist::Gist;
use gist::gist_file::GistFile;

fn fake_gist_file(name: &str, content: Option<&str>) -> GistFile {
    let mut f = GistFile::new(name.to_string());
    if let Some(c) = content {
        f.content = c.to_string();
    }
    f
}

fn parsed(text: &str) -> serde_json::Value {
    serde_json::from_str(text).unwrap()
}

#[test]
fn gist_add_files() {
    let mut g = Gist::new(true, None);
    g.add_file(fake_gist_file("/path/to/file.txt", None));
    g.add_file(fake_gist_file("/path/to/other_file.txt", None));
    assert_eq!(g.file_count(), 2);
}

#[test]
fn gist_emptyness() {
    let mut g = Gist::new(true, None);
    assert!(g.is_empty());

    g.add_file(fake_gist_file("file.txt", None));
    assert!(!g.is_empty());
}

#[test]
fn gist_public_json() {
    let mut public = Gist::new(true, None);
    public.add_file(fake_gist_file("file.txt", Some("public file contents")));

    let public_json = public.to_json();
    assert_eq!(
        parsed(&public_json),
        parsed("{\"files\":{\"file.txt\":{\"content\":\"public file contents\"}},\"public\":true}"),
    );
}

#[test]
fn gist_private_json() {
    let mut private = Gist::new(false, None);
    private.add_file(fake_gist_file("secret.txt", Some("private file contents")));

    let private_json = private.to_json();
    assert_eq!(
        parsed(&private_json),
        parsed(
            "{\"files\":{\"secret.txt\":{\"content\":\"private file contents\"}},\"public\":false}",
        ),
    );
}

#[test]
fn gist_gist_with_description() {
    let desc = Some("description".to_string());
    let mut private = Gist::new(false, desc);
    private.add_file(fake_gist_file("secret.txt", Some("private file contents")));

    let private_json = private.to_json();
    assert_eq!(
        parsed(&private_json),
        parsed(
            "{\"description\":\"description\",\"files\":{\"secret.txt\":{\"content\":\"private file contents\"}},\"public\":false}",
        ),
    );
}

#[test]
fn mod_add_files() {
    let mut g = Gist::new(true, None);
    g.add_file(fake_gist_file("/path/to/file.txt", None));
    g.add_file(fake_gist_file("/path/to/other_file.txt", None));
    assert_eq!(g.file_count(), 2);
}

#[test]
fn mod_emptyness() {
    let mut g = Gist::new(true, None);
    assert!(g.is_empty());

    g.add_file(fake_gist_file("file.txt", None));
    assert!(!g.is_empty());
}

#[test]
fn mod_public_json() {
    let mut public = Gist::new(true, None);
    public.add_file(fake_gist_file("file.txt", Some("public file contents")));

    let public_json = public.to_json();
    assert_eq!(
        public_json,
        "{\"public\":true,\"files\":{\"file.txt\":{\"content\":\"public file contents\"}}}",
    );
}

#[test]
fn mod_private_json() {
    let mut private = Gist::new(false, None);
    private.add_file(fake_gist_file("secret.txt", Some("private file contents")));

    let private_json = private.to_json();
    assert_eq!(
        private_json,
        "{\"public\":false,\"files\":{\"secret.txt\":{\"content\":\"private file contents\"}}}",
    );
}

#[test]
fn mod_gist_with_description() {
    let desc = Some("description".to_string());
    let mut private = Gist::new(false, desc);
    private.add_file(fake_gist_file("secret.txt", Some("private file contents")));

    let private_json = private.to_json();
    assert_eq!(
        private_json,
        "{\"public\":false,\"files\":{\"secret.txt\":{\"content\":\"private file contents\"}},\"description\":\"description\"}",
    );
}

#[test]
fn same_basename_collapses_to_one_entry() {
    let mut g = Gist::new(true, None);
    g.add_file(fake_gist_file("/a/x.txt", Some("first")));
    g.add_file(fake_gist_file("/b/x.txt", Some("second")));
    assert_eq!(g.file_count(), 1);
    assert_eq!(g.collisions(), 1);

    let v = parsed(&g.to_json());
    let files = v.get("files").unwrap().as_object().unwrap();
    assert_eq!(files.len(), 1);
    assert_eq!(
        files.get("x.txt").unwrap().get("content").unwrap().as_str(),
        Some("second"),
    );
}

#[test]
fn empty_document_serializes_to_public_files_object() {
    let g = Gist::new(true, None);
    assert!(g.is_empty());
    assert_eq!(g.to_json(), "{\"public\":true,\"files\":{}}");

    let h = Gist::new(false, None);
    assert_eq!(h.to_json(), "{\"public\":false,\"files\":{}}");
}

#[test]
fn no_description_key_without_description() {
    let mut g = Gist::new(true, None);
    g.add_file(fake_gist_file("file.txt", Some("text")));
    let v = parsed(&g.to_json());
    assert!(v.get("description").is_none());

    let mut h = Gist::new(true, Some("a note".to_string()));
    h.add_file(fake_gist_file("file.txt", Some("text")));
    let w = parsed(&h.to_json());
    assert_eq!(w.get("description").unwrap().as_str(), Some("a note"));
}

#[test]
fn round_trip_single_file() {
    let mut g = Gist::new(true, None);
    g.add_file(fake_gist_file("file.txt", Some("hello")));
    let text = g.to_json();
    assert_eq!(text, "{\"public\":true,\"files\":{\"file.txt\":{\"content\":\"hello\"}}}");
    assert_eq!(
        parsed(&text),
        parsed("{\"public\":true,\"files\":{\"file.txt\":{\"content\":\"hello\"}}}"),
    );
}

#[test]
fn content_escaping_round_trips() {
    let content = "he said \"hi\",\na\\path\ttab\r\u{0c}\u{08}and a control: \u{01}\u{1f}";
    let mut g = Gist::new(false, None);
    g.add_file(fake_gist_file("file.txt", Some(content)));
    let v = parsed(&g.to_json());
    assert_eq!(
        v.get("files").unwrap().get("file.txt").unwrap().get("content").unwrap().as_str(),
        Some(content),
    );
}

#[test]
fn gist_file_default_name() {
    assert_eq!(GistFile::default_name(), "content");
    let f = GistFile::new("notes.txt".to_string());
    assert_eq!(f.name, "notes.txt");
    assert_eq!(f.content, "");
}
