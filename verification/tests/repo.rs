use gist::gist_repo::GistRepo;

#[test]
fn find_url_with_url() {
    let res = GistRepo::find_url("https://gist.github.com/abcd");
    assert_eq!(res.is_some(), true);
    if let Some(url) = res {
        assert_eq!(url, "https://gist.github.com/abcd.git");
    }
}

#[test]
fn find_url_with_git_repo_url() {
    let res = GistRepo::find_url("https://gist.github.com/abcd.git");
    assert_eq!(res.is_some(), true);
    if let Some(url) = res {
        assert_eq!(url, "https://gist.github.com/abcd.git");
    }
}

#[test]
fn find_url_with_non_url() {
    let mut res = GistRepo::find_url("lalala");
    assert!(res.is_none());

    res = GistRepo::find_url("https://gist.github.com/");
    assert!(res.is_none());

    res = GistRepo::find_url("https://gist.github.com");
    assert!(res.is_none());
}

#[test]
fn find_url_uses_final_segment() {
    let res = GistRepo::find_url("https://gist.github.com/someuser/abcd");
    assert_eq!(res.as_deref(), Some("https://gist.github.com/abcd.git"));
}
