use tdc::error::Failure;
use tdc::github::{parse_github_repo_url, resolve_repo_input};

#[test]
fn resolves_repo_shorthand() {
    let spec = resolve_repo_input("cantina-forks", Some("protocol"), None).unwrap();
    assert_eq!(spec.org, "cantina-forks");
    assert_eq!(spec.repo, "protocol");
    assert_eq!(spec.clone_url, "git@github.com:cantina-forks/protocol.git");
}

#[test]
fn parses_supported_github_urls() {
    for url in [
        "https://github.com/cantina-forks/protocol",
        "https://github.com/cantina-forks/protocol.git",
        "https://github.com/cantina-forks/protocol.git?tab=readme",
        "git@github.com:cantina-forks/protocol.git",
        "ssh://git@github.com/cantina-forks/protocol.git",
    ] {
        let spec = parse_github_repo_url(url).unwrap();
        assert_eq!(spec.org, "cantina-forks");
        assert_eq!(spec.repo, "protocol");
        assert_eq!(spec.clone_url, "git@github.com:cantina-forks/protocol.git");
    }
}

#[test]
fn rejects_nested_or_non_github_urls() {
    assert!(parse_github_repo_url("https://gitlab.com/a/b").is_err());
    assert!(parse_github_repo_url("https://github.com/a/b/c").is_err());
    assert!(parse_github_repo_url("not-a-url").is_err());
}

#[test]
fn repo_flags_are_mutually_exclusive() {
    assert_eq!(
        resolve_repo_input("o", Some("r"), Some("https://github.com/o/r")),
        Err(Failure::RepoArgsConflict)
    );
    assert_eq!(resolve_repo_input("o", None, None), Err(Failure::MissingRepoInput));
}

#[test]
fn shorthand_validates_owner_and_repo() {
    assert_eq!(
        resolve_repo_input("bad owner", Some("r"), None),
        Err(Failure::InvalidOwner("bad owner".to_owned()))
    );
    assert_eq!(
        resolve_repo_input("o", Some("a/b"), None),
        Err(Failure::InvalidRepo("a/b".to_owned()))
    );
}

#[test]
fn url_refusals_name_their_reason() {
    assert_eq!(
        parse_github_repo_url("git@gitlab.com:a/b.git"),
        Err(Failure::UnsupportedSshUrl("git@gitlab.com:a/b.git".to_owned()))
    );
    assert_eq!(
        parse_github_repo_url("http://github.com/a/b"),
        Err(Failure::UnsupportedHttpsUrl("http://github.com/a/b".to_owned()))
    );
    assert_eq!(
        parse_github_repo_url("not-a-url"),
        Err(Failure::UnsupportedUrlFormat("not-a-url".to_owned()))
    );
    assert_eq!(
        parse_github_repo_url("https://github.com/onlyowner"),
        Err(Failure::UrlWithoutOwnerRepo("https://github.com/onlyowner".to_owned()))
    );
    assert_eq!(
        parse_github_repo_url("https://github.com/a/b/c"),
        Err(Failure::UrlNotSingleRepo("https://github.com/a/b/c".to_owned()))
    );
    assert_eq!(
        parse_github_repo_url("https://github.com/a b/c"),
        Err(Failure::UrlInvalidOwner("a b".to_owned()))
    );
    assert_eq!(
        parse_github_repo_url("https://github.com/a/"),
        Err(Failure::UrlWithoutOwnerRepo("https://github.com/a/".to_owned()))
    );
}

#[test]
fn url_cleanup_trims_fragment_query_and_slashes() {
    let spec = parse_github_repo_url("  https://github.com/o/r/#readme \n").unwrap();
    assert_eq!(spec.org, "o");
    assert_eq!(spec.repo, "r");
    let spec = parse_github_repo_url("https://github.com/o/r.git.git").unwrap();
    assert_eq!(spec.repo, "r.git");
}

#[test]
fn shorthand_clone_url_parses_back_to_the_same_repo() {
    let short = resolve_repo_input("exampleco", Some("proto.col"), None).unwrap();
    let parsed = parse_github_repo_url(&short.clone_url).unwrap();
    assert_eq!(short, parsed);
}

#[test]
fn url_decorations_do_not_change_the_parse() {
    for u in [
        "https://github.com/cantina-forks/protocol",
        "git@github.com:o/r.git",
        "ssh://git@github.com/o/r",
        "https://github.com/a/b/c",
        "https://gitlab.com/a/b",
        "",
    ] {
        let decorated = format!(" \t{u}/#readme\n");
        assert_eq!(
            parse_github_repo_url(&decorated).ok(),
            parse_github_repo_url(u).ok(),
            "{u:?}"
        );
    }
}
