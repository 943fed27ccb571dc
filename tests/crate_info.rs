use sensei::session::{Event, Session, Step};
use sensei::{banner, first_letter_to_upper, make_url, parse_args, Args, CrateInfo, CrateSource};

const BASE: &str = "/home/user/project";

fn args(name: &str, local: bool, version: Option<&str>, query: Option<&str>) -> Args {
    Args {
        local,
        manifest: false,
        name: name.to_string(),
        version: version.map(|v| v.to_string()),
        query: query.map(|q| q.to_string()),
    }
}

fn url(name: &str, local: bool, version: Option<&str>, query: Option<&str>) -> String {
    make_url(&parse_args(args(name, local, version, query), None), BASE)
}

fn source_name(info: &CrateInfo) -> Option<&str> {
    match &info.source {
        CrateSource::Std => None,
        CrateSource::Local(n) | CrateSource::DocsRs(n) => Some(n.as_str()),
    }
}

#[test]
fn test_first_letter_to_upper() {
    assert_eq!(first_letter_to_upper("crate"), "Crate");
    assert_eq!(first_letter_to_upper("c"), "C");
    assert_eq!(first_letter_to_upper(""), "");
}

#[test]
fn first_letter_to_upper_leaves_the_rest() {
    assert_eq!(first_letter_to_upper("serde_json"), "Serde_json");
    assert_eq!(first_letter_to_upper("éclair"), "Éclair");
}

#[test]
fn registry_urls() {
    assert_eq!(url("serde", false, None, None), "https://docs.rs/serde");
    assert_eq!(url("serde", false, Some("1.0.0"), None), "https://docs.rs/serde/1.0.0");
    assert_eq!(
        url("serde", false, None, Some("Serializer")),
        "https://docs.rs/serde?search=Serializer"
    );
    assert_eq!(
        url("serde", false, Some("1.0.0"), Some("Serializer")),
        "https://docs.rs/serde/1.0.0?search=Serializer"
    );
}

#[test]
fn std_urls() {
    assert_eq!(url("std", false, None, None), "https://doc.rust-lang.org/stable/std/");
    assert_eq!(url("std", false, Some("1.60.0"), None), "https://doc.rust-lang.org/1.60.0/std/");
    assert_eq!(
        url("std", false, None, Some("vec")),
        "https://doc.rust-lang.org/stable/std/?search=vec"
    );
    assert_eq!(
        url("std", false, Some("1.60.0"), Some("vec")),
        "https://doc.rust-lang.org/1.60.0/std/?search=vec"
    );
}

#[test]
fn std_wins_over_local() {
    let info = parse_args(args("STD", true, Some("1.60.0"), None), None);
    assert!(matches!(info.source, CrateSource::Std));
    assert!(info.warning.is_none());
    assert_eq!(make_url(&info, BASE), "https://doc.rust-lang.org/1.60.0/std/");
}

#[test]
fn local_urls_ignore_version_and_query() {
    let path = "/home/user/project/target/doc/serde/index.html";
    assert_eq!(url("serde", true, None, None), path);
    assert_eq!(url("serde", true, Some("1.0.0"), None), path);
    assert_eq!(url("serde", true, None, Some("Serializer")), path);
    assert_eq!(url("serde", true, Some("1.0.0"), Some("Serializer")), path);
}

#[test]
fn query_is_not_escaped() {
    assert_eq!(url("serde", false, None, Some("a b&c")), "https://docs.rs/serde?search=a b&c");
}

#[test]
fn local_warning_only_with_version_or_query() {
    let text = "Versioning and querying is not available with local crates.";
    let plain = parse_args(args("serde", true, None, None), None);
    assert!(plain.warning.is_none());
    let versioned = parse_args(args("serde", true, Some("1.0.0"), None), None);
    assert_eq!(versioned.warning.as_deref(), Some(text));
    let searched = parse_args(args("serde", true, None, Some("Serializer")), None);
    assert_eq!(searched.warning.as_deref(), Some(text));
    let both = parse_args(args("serde", true, Some("1.0.0"), Some("x")), None);
    assert_eq!(both.warning.as_deref(), Some(text));
    let remote = parse_args(args("serde", false, Some("1.0.0"), Some("x")), None);
    assert!(remote.warning.is_none());
}

#[test]
fn name_case_does_not_matter() {
    for local in [false, true] {
        let upper = parse_args(args("Serde", local, Some("1.0.0"), None), None);
        let lower = parse_args(args("serde", local, Some("1.0.0"), None), None);
        assert_eq!(source_name(&upper), Some("serde"));
        assert_eq!(source_name(&upper), source_name(&lower));
        assert_eq!(upper.source.is_local(), lower.source.is_local());
        assert_eq!(make_url(&upper, BASE), make_url(&lower, BASE));
    }
}

#[test]
fn manifest_version_replaces_the_given_one() {
    let mut a = args("Serde", false, Some("0.1.0"), None);
    a.manifest = true;
    let text = "[dependencies]\nserde = \"1.0.130\"\n";
    let info = parse_args(a, Some(text));
    assert_eq!(info.version.as_deref(), Some("1.0.130"));
    assert_eq!(make_url(&info, BASE), "https://docs.rs/serde/1.0.130");
}

#[test]
fn unreadable_or_silent_manifest_leaves_version_unset() {
    let mut a = args("serde", false, Some("0.1.0"), None);
    a.manifest = true;
    let unread = parse_args(a, None);
    assert!(unread.version.is_none());
    let mut b = args("serde", false, None, None);
    b.manifest = true;
    let silent = parse_args(b, Some("[dependencies]\nrand = \"0.8\"\n"));
    assert!(silent.version.is_none());
    assert_eq!(make_url(&silent, BASE), "https://docs.rs/serde");
}

#[test]
fn manifest_text_is_ignored_without_the_flag() {
    let info = parse_args(args("serde", false, None, None), Some("serde = \"1.0\""));
    assert!(info.version.is_none());
}

#[test]
fn tokio_end_to_end_url_and_banner() {
    let info = parse_args(args("tokio", false, None, None), None);
    assert_eq!(make_url(&info, BASE), "https://docs.rs/tokio");
    let mut session = Session::new(info.source.is_local());
    assert_eq!(session.advance(Event::Opened), Step::Succeed);
    assert!(session.is_done());
    assert_eq!(banner(&info), "||| The Book Of Tokio |||");
}

#[test]
fn banners() {
    let std_plain = parse_args(args("std", false, None, None), None);
    assert_eq!(banner(&std_plain), "||| The Standard Library ||| ");
    let std_versioned = parse_args(args("std", false, Some("1.60.0"), None), None);
    assert_eq!(banner(&std_versioned), "||| The Standard Library 1.60.0 ||| ");
    let versioned = parse_args(args("serde", false, Some("1.0.0"), None), None);
    assert_eq!(banner(&versioned), "||| The Book Of Serde 1.0.0|||");
    let local = parse_args(args("serde", true, Some("1.0.0"), None), None);
    assert_eq!(
        banner(&local),
        "||| The Book Of Serde 1.0.0|||Versioning and querying is not available with local crates."
    );
}

#[test]
fn source_names_the_kind() {
    let info = parse_args(args("Rand", true, None, None), None);
    assert!(info.source.is_local());
    assert_eq!(source_name(&info), Some("rand"));
    let remote = parse_args(args("rand", false, None, None), None);
    assert!(!remote.source.is_local());
}
