use mushroom_password_manager::api::client::ApiClient;

fn name_of(url: &str) -> String {
    ApiClient::new().extract_service_name(url)
}

#[test]
fn scheme_and_www_are_dropped() {
    assert_eq!(name_of("https://www.example.com/login"), "example.com");
    assert_eq!(name_of("http://www.example.com"), "example.com");
    assert_eq!(name_of("www.github.com"), "github.com");
}

#[test]
fn only_the_first_two_labels_are_kept() {
    assert_eq!(name_of("http://compte.auchan.fr/mon-compte"), "compte.auchan");
    assert_eq!(name_of("https://a.b.c.d"), "a.b");
    assert_eq!(name_of("mail.google.com"), "mail.google");
}

#[test]
fn a_domain_without_dot_is_kept_whole() {
    assert_eq!(name_of("localhost"), "localhost");
    assert_eq!(name_of("http://localhost/admin"), "localhost");
    assert_eq!(name_of("localhost:5000"), "localhost:5000");
}

#[test]
fn the_path_is_cut_at_the_first_slash() {
    assert_eq!(name_of("example.com/a.b/c.d"), "example.com");
    assert_eq!(name_of("/example.com"), "");
    assert_eq!(name_of("example/com.org"), "example");
}

#[test]
fn the_empty_url_has_the_empty_name() {
    assert_eq!(name_of(""), "");
    assert_eq!(name_of("https://"), "");
    assert_eq!(name_of("https://www."), "");
}

#[test]
fn empty_labels_count_as_labels() {
    assert_eq!(name_of(".com"), ".com");
    assert_eq!(name_of("example."), "example.");
    assert_eq!(name_of("example.com."), "example.com");
    assert_eq!(name_of("a..b"), "a.");
    assert_eq!(name_of("."), ".");
}

#[test]
fn prefixes_are_dropped_wherever_they_stand() {
    assert_eq!(name_of("awww.site.org"), "asite.org");
    assert_eq!(name_of("site.www.org"), "site.org");
    assert_eq!(name_of("example.com/https://"), "example.com");
    assert_eq!(name_of("https://https://x.y"), "x.y");
}

#[test]
fn each_prefix_is_dropped_in_one_pass_from_the_left() {
    // Taking `http://` out of the middle leaves a new `http://`, which stays.
    assert_eq!(name_of("hthttp://tp://a.b"), "http:");
    // `https://` goes first, so the `http://` that its removal uncovers goes next.
    assert_eq!(name_of("http://https://a.b"), "a.b");
    // `www.` is looked for last: what the first two passes uncover is dropped too.
    assert_eq!(name_of("wwhttp://w.a.b"), "a.b");
    // Occurrences never overlap: of `wwww.`, the last four characters go.
    assert_eq!(name_of("wwww.a.b"), "wa.b");
}

#[test]
fn characters_outside_ascii_are_kept() {
    assert_eq!(name_of("https://www.crédit-agricole.fr/accès"), "crédit-agricole.fr");
    assert_eq!(name_of("http://例え.テスト.jp"), "例え.テスト");
}

#[test]
fn distinct_urls_may_share_a_name() {
    let a = name_of("https://compte.auchan.fr");
    let b = name_of("http://www.compte.auchan.com/login");
    assert_eq!(a, "compte.auchan");
    assert_eq!(a, b);
}

#[test]
fn the_name_is_a_prefix_of_the_domain_with_one_dot_at_most() {
    for url in ["https://a.b.c/d", "x", "www.a.b", "http://one.two.three.four/five.six", ""] {
        let name = name_of(url);
        assert!(name.matches('.').count() <= 1);
        assert!(!name.contains('/'));
        let stripped = url.replace("https://", "").replace("http://", "").replace("www.", "");
        assert!(stripped.starts_with(&name));
    }
}
