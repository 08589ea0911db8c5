use gateway::host::{classify, classify_strict};
use gateway::text::{chars_of, has_char, same_text};
use gateway::RouteError;

#[test]
fn text_is_read_character_by_character() {
    assert_eq!(chars_of(""), Vec::<char>::new());
    assert_eq!(chars_of("a.b"), vec!['a', '.', 'b']);
    assert_eq!(chars_of("süß"), vec!['s', 'ü', 'ß']);
}

#[test]
fn same_text_compares_every_character() {
    assert!(same_text("", ""));
    assert!(same_text("GET", "GET"));
    assert!(!same_text("GET", "GEt"));
    assert!(!same_text("GET", "GE"));
    assert!(!same_text("", "a"));
}

#[test]
fn has_char_finds_a_character_anywhere() {
    assert!(has_char("a/b", '/'));
    assert!(has_char("/", '/'));
    assert!(has_char("ab/", '/'));
    assert!(!has_char("", '/'));
    assert!(!has_char("example.com", '/'));
}

#[test]
fn foreign_host_is_an_invalid_domain() {
    assert_eq!(classify("evil.com", "example.com"), Err(RouteError::InvalidDomain));
    assert_eq!(classify_strict("evil.com", "example.com"), Err(RouteError::InvalidDomain));
}

#[test]
fn base_domain_has_the_empty_label() {
    assert_eq!(classify("example.com", "example.com"), Ok(String::new()));
    assert_eq!(classify_strict("example.com", "example.com"), Ok(String::new()));
}

#[test]
fn subdomain_gives_its_label() {
    assert_eq!(classify("sub.example.com", "example.com"), Ok("sub".to_string()));
    assert_eq!(classify_strict("sub.example.com", "example.com"), Ok("sub".to_string()));
}

#[test]
fn base_domain_may_carry_a_port() {
    assert_eq!(classify("blog.localhost:6188", "localhost:6188"), Ok("blog".to_string()));
    assert_eq!(classify("localhost:6188", "localhost:6188"), Ok(String::new()));
    assert_eq!(classify("localhost", "localhost:6188"), Err(RouteError::InvalidDomain));
}

#[test]
fn nested_subdomain_keeps_inner_dots() {
    assert_eq!(classify("a.b.example.com", "example.com"), Ok("a.b".to_string()));
}

#[test]
fn only_one_trailing_dot_is_stripped() {
    assert_eq!(classify("a..example.com", "example.com"), Ok("a.".to_string()));
    assert_eq!(classify("..example.com", "example.com"), Ok(".".to_string()));
}

#[test]
fn base_domain_is_stripped_once() {
    assert_eq!(classify("example.comexample.com", "example.com"), Ok("example.com".to_string()));
    assert_eq!(classify("example.com.example.com", "example.com"), Ok("example.com".to_string()));
}

#[test]
fn suffix_without_a_dot_is_accepted_unless_strict() {
    assert_eq!(classify("evilexample.com", "example.com"), Ok("evil".to_string()));
    assert_eq!(classify_strict("evilexample.com", "example.com"), Err(RouteError::InvalidDomain));
}

#[test]
fn strict_accepts_a_lone_leading_dot() {
    assert_eq!(classify_strict(".example.com", "example.com"), Ok(String::new()));
    assert_eq!(classify(".example.com", "example.com"), Ok(String::new()));
}

#[test]
fn comparison_is_case_sensitive() {
    assert_eq!(classify("blog.Example.com", "example.com"), Err(RouteError::InvalidDomain));
    assert_eq!(classify("BLOG.example.com", "example.com"), Ok("BLOG".to_string()));
}

#[test]
fn host_shorter_than_base_is_rejected() {
    assert_eq!(classify("ample.com", "example.com"), Err(RouteError::InvalidDomain));
    assert_eq!(classify("", "example.com"), Err(RouteError::InvalidDomain));
}

#[test]
fn base_in_the_middle_is_rejected() {
    assert_eq!(classify("example.com.evil.org", "example.com"), Err(RouteError::InvalidDomain));
    assert_eq!(classify("example.com:80", "example.com"), Err(RouteError::InvalidDomain));
}

#[test]
fn labels_outside_ascii_are_kept_whole() {
    assert_eq!(classify("süß.example.com", "example.com"), Ok("süß".to_string()));
    assert_eq!(classify("日本.例え.jp", "例え.jp"), Ok("日本".to_string()));
}

#[test]
fn empty_base_accepts_every_host() {
    assert_eq!(classify("anything", ""), Ok("anything".to_string()));
    assert_eq!(classify("dotted.", ""), Ok("dotted".to_string()));
    assert_eq!(classify("", ""), Ok(String::new()));
}

#[test]
fn empty_base_is_strict_about_the_dot() {
    assert_eq!(classify_strict("anything", ""), Err(RouteError::InvalidDomain));
    assert_eq!(classify_strict("dotted.", ""), Ok("dotted".to_string()));
    assert_eq!(classify_strict("", ""), Ok(String::new()));
}
