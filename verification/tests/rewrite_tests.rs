//! Tests for the namespace rewriter, the descriptor validation rules and
//! the text utilities they are built on.

use rusty_java::config::{Config, ConfigError, Project, validate_config};
use rusty_java::rewrite::{rewrite_content, target_namespace};
use rusty_java::text::{
    contains_str, find_char, is_blank, join_strings, sort_strings, split_string, str_le_exec,
};

fn s(x: &str) -> String {
    x.to_string()
}

fn config_with(name: &str, main_class: &str) -> Config {
    Config {
        project: Project {
            name: s(name),
            version: s("1.0.0"),
            main_class: s(main_class),
            base_namespace: s("com.example"),
            root_path: None,
            gradle_version: None,
            shadow_plugin_version: None,
            use_shadow: None,
            use_wrapper: None,
        },
        dependencies: None,
    }
}

#[test]
fn target_namespace_joins_segments() {
    assert_eq!(target_namespace("com.example", &vec![]), "com.example");
    assert_eq!(
        target_namespace("com.example", &vec![s("classone")]),
        "com.example.classone"
    );
    assert_eq!(
        target_namespace("org.base", &vec![s("a"), s("b"), s("c")]),
        "org.base.a.b.c"
    );
}

#[test]
fn rewrite_prepends_when_no_declaration() {
    let out = rewrite_content("public class A {}\n", "com.example").unwrap();
    assert_eq!(out, "package com.example;public class A {}\n");
}

#[test]
fn rewrite_replaces_existing_declaration() {
    let out = rewrite_content("package a.b.c;\nclass X {}\n", "d.e").unwrap();
    assert_eq!(out, "package d.e;\nclass X {}\n");
}

#[test]
fn rewrite_keeps_everything_after_the_terminator() {
    let out = rewrite_content("package x; /* ; */ class Y { int n = 1; }", "p.q").unwrap();
    assert_eq!(out, "package p.q; /* ; */ class Y { int n = 1; }");
}

#[test]
fn rewrite_fails_when_terminator_is_missing() {
    assert!(rewrite_content("package a.b.c", "d.e").is_none());
    assert!(rewrite_content("text with package marker but no end", "d.e").is_none());
}

#[test]
fn validation_rejects_blank_name_first() {
    assert_eq!(validate_config(&config_with("", "Main")), Err(ConfigError::EmptyName));
    assert_eq!(validate_config(&config_with("   ", "Main")), Err(ConfigError::EmptyName));
    assert_eq!(validate_config(&config_with("  ", "")), Err(ConfigError::EmptyName));
    assert_eq!(validate_config(&config_with("ok", "\t\n")), Err(ConfigError::EmptyMainClass));
    assert_eq!(validate_config(&config_with("ok", "Main")), Ok(()));
}

#[test]
fn validation_error_messages() {
    assert_eq!(
        ConfigError::EmptyName.message(),
        "Project name cannot be empty in rsj.toml"
    );
    assert_eq!(
        ConfigError::EmptyMainClass.message(),
        "Main class name cannot be empty in rsj.toml"
    );
}

#[test]
fn split_string_on_separators() {
    assert_eq!(split_string("com.example.app", '.'), vec![s("com"), s("example"), s("app")]);
    assert_eq!(split_string("", '.'), vec![s("")]);
    assert_eq!(split_string("a::b", ':'), vec![s("a"), s(""), s("b")]);
    assert_eq!(split_string("g1:artifact1:1.0", ':'), vec![s("g1"), s("artifact1"), s("1.0")]);
    assert_eq!(split_string("noseparator", ':'), vec![s("noseparator")]);
}

#[test]
fn lexicographic_order_of_strings() {
    assert!(str_le_exec("abc", "abd"));
    assert!(!str_le_exec("abd", "abc"));
    assert!(str_le_exec("abc", "abc"));
    assert!(str_le_exec("ab", "abc"));
    assert!(!str_le_exec("abc", "ab"));
    assert!(str_le_exec("", "a"));
    assert!(str_le_exec("Zoo", "apple"));
}

#[test]
fn sorting_strings_is_stable_under_permutation() {
    let a = sort_strings(&vec![s("pear"), s("apple"), s("orange")]);
    let b = sort_strings(&vec![s("orange"), s("pear"), s("apple")]);
    assert_eq!(a, vec![s("apple"), s("orange"), s("pear")]);
    assert_eq!(a, b);
}

#[test]
fn joining_strings_with_separator() {
    assert_eq!(join_strings(&vec![], "\n"), "");
    assert_eq!(join_strings(&vec![s("one")], "\n"), "one");
    assert_eq!(join_strings(&vec![s("a"), s("b"), s("c")], ", "), "a, b, c");
}

#[test]
fn substring_search() {
    assert!(contains_str("has package inside", "package "));
    assert!(!contains_str("nothing here", "package "));
    assert!(contains_str("abc", ""));
    assert!(!contains_str("ab", "abc"));
}

#[test]
fn first_character_search() {
    assert_eq!(find_char("a;b;c", ';'), Some(1));
    assert_eq!(find_char("abc", ';'), None);
    assert_eq!(find_char(";", ';'), Some(0));
}

#[test]
fn blankness() {
    assert!(is_blank(""));
    assert!(is_blank(" \t\r\n"));
    assert!(!is_blank(" x "));
}
