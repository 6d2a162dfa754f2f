//! Tests for the whole materialization: idempotence, the namespace
//! invariant, wrapper provisioning and the fixed configuration files.

use rusty_java::config::{Config, Project};
use rusty_java::gradle::setup_gradle_project;
use rusty_java::plan::WorkspacePlan;
use rusty_java::rewrite::CompilationUnit;

fn s(x: &str) -> String {
    x.to_string()
}

fn config(name: &str, base: &str) -> Config {
    Config {
        project: Project {
            name: s(name),
            version: s("1.0.0"),
            main_class: s("Main"),
            base_namespace: s(base),
            root_path: None,
            gradle_version: None,
            shadow_plugin_version: None,
            use_shadow: None,
            use_wrapper: None,
        },
        dependencies: None,
    }
}

fn unit(dirs: &[&str], file: &str, content: &str) -> CompilationUnit {
    CompilationUnit {
        rel_dirs: dirs.iter().map(|d| s(d)).collect(),
        file_name: s(file),
        content: s(content),
    }
}

fn find_content(plan: &WorkspacePlan, path: &[&str]) -> String {
    let want: Vec<String> = path.iter().map(|p| s(p)).collect();
    for f in &plan.files {
        if f.path == want {
            return f.content.clone();
        }
    }
    panic!("file not in plan: {:?}", path);
}

fn plans_equal(a: &WorkspacePlan, b: &WorkspacePlan) -> bool {
    if a.dirs != b.dirs {
        return false;
    }
    if a.files.len() != b.files.len() {
        return false;
    }
    for (x, y) in a.files.iter().zip(b.files.iter()) {
        if x.path != y.path || x.content != y.content || x.executable != y.executable {
            return false;
        }
    }
    true
}

// Idempotence: materializing twice with unchanged descriptor and source
// tree plans byte-identical output.
#[test]
fn materializing_twice_gives_identical_plans() {
    let c = config("twice", "com.example");
    let units = vec![
        unit(&[], "Main.java", "package com.example;\nclass Main {}\n"),
        unit(&["util"], "Util.java", "class Util {}\n"),
    ];
    let first = setup_gradle_project(&c, &units).unwrap();
    let second = setup_gradle_project(&c, &units).unwrap();
    assert!(plans_equal(&first, &second));
}

// The concrete namespace scenario: a unit at classone/ClassOne.java with
// no declaration lands under com/example/classone and declares
// com.example.classone on its first non-blank line.
#[test]
fn unit_lands_at_namespace_path_with_declaration() {
    let c = config("nstest", "com.example");
    let units = vec![unit(&["classone"], "ClassOne.java", "\npublic class ClassOne {}\n")];
    let plan = setup_gradle_project(&c, &units).unwrap();

    let expected_path = ["gradle", "src", "main", "java", "com", "example", "classone", "ClassOne.java"];
    let content = find_content(&plan, &expected_path);
    assert_eq!(content, "package com.example.classone;\npublic class ClassOne {}\n");
    let first_non_blank = content.lines().find(|l| !l.trim().is_empty()).unwrap();
    assert_eq!(first_non_blank, "package com.example.classone;");

    let want_dir: Vec<String> =
        ["gradle", "src", "main", "java", "com", "example", "classone"].iter().map(|p| s(p)).collect();
    assert!(plan.dirs.contains(&want_dir));
}

#[test]
fn existing_declaration_is_replaced_and_rest_preserved() {
    let c = config("replace", "org.fresh");
    let units = vec![unit(
        &["inner"],
        "Thing.java",
        "package stale.old.name;\n\npublic class Thing { int x = 1; }\n",
    )];
    let plan = setup_gradle_project(&c, &units).unwrap();
    let content = find_content(
        &plan,
        &["gradle", "src", "main", "java", "org", "fresh", "inner", "Thing.java"],
    );
    assert_eq!(content, "package org.fresh.inner;\n\npublic class Thing { int x = 1; }\n");
}

#[test]
fn malformed_unit_aborts_and_names_the_file() {
    let c = config("broken", "com.example");
    let units = vec![
        unit(&[], "Fine.java", "class Fine {}\n"),
        unit(&["deep"], "Broken.java", "package missing.terminator"),
        unit(&[], "Never.java", "class Never {}\n"),
    ];
    let err = setup_gradle_project(&c, &units).unwrap_err();
    assert_eq!(err.file, "Broken.java");
    let maven_err = rusty_java::maven::setup_maven_project(&c, &units).unwrap_err();
    assert_eq!(maven_err.file, "Broken.java");
}

#[test]
fn test_gradle_wrapper() {
    let c = config("gradle_wrapper_test", "com.example");
    let plan = setup_gradle_project(&c, &vec![]).unwrap();

    let mut script = None;
    let mut bat = None;
    let mut props = None;
    for f in &plan.files {
        if f.path == vec![s("gradle"), s("gradlew")] {
            script = Some(f);
        }
        if f.path == vec![s("gradle"), s("gradlew.bat")] {
            bat = Some(f);
        }
        if f.path
            == vec![s("gradle"), s("gradle"), s("wrapper"), s("gradle-wrapper.properties")]
        {
            props = Some(f);
        }
    }
    let script = script.expect("Gradle wrapper script not found");
    let bat = bat.expect("Gradle wrapper batch file not found");
    let props = props.expect("Gradle wrapper properties not found");

    assert!(script.executable, "Gradle wrapper script must be executable");
    assert!(!bat.executable);
    assert!(script.content.starts_with("#!/bin/sh\n"));
    assert!(bat.content.starts_with("@rem"));
    assert_eq!(
        props.content,
        "distributionBase=GRADLE_USER_HOME\ndistributionPath=wrapper/dists\ndistributionUrl=https://services.gradle.org/distributions/gradle-8.4-bin.zip\nnetworkTimeout=10000\nzipStoreBase=GRADLE_USER_HOME\nzipStorePath=wrapper/dists"
    );
    let want_dir: Vec<String> = vec![s("gradle"), s("gradle"), s("wrapper")];
    assert!(plan.dirs.contains(&want_dir));
}

#[test]
fn test_gradle_performance_options() {
    let c = config("gradle_perf_test", "com.example");
    let plan = setup_gradle_project(&c, &vec![]).unwrap();
    let content = find_content(&plan, &["gradle", "gradle.properties"]);
    assert!(content.contains("org.gradle.parallel=true"), "Parallel execution not enabled");
    assert!(content.contains("org.gradle.caching=true"), "Build cache not enabled");
    assert!(content.contains("org.gradle.vfs.watch=true"), "File system watching not enabled");
}

#[test]
fn wrapper_flag_off_omits_wrapper_pieces() {
    let mut c = config("nowrapper", "com.example");
    c.project.use_wrapper = Some(false);
    let plan = setup_gradle_project(&c, &vec![]).unwrap();
    for f in &plan.files {
        assert_ne!(f.path, vec![s("gradle"), s("gradlew")]);
        assert_ne!(f.path, vec![s("gradle"), s("gradlew.bat")]);
    }
    let wrapper_dir: Vec<String> = vec![s("gradle"), s("gradle"), s("wrapper")];
    assert!(!plan.dirs.contains(&wrapper_dir));
    // the configuration files are untouched by the flag
    find_content(&plan, &["gradle", "settings.gradle"]);
    find_content(&plan, &["gradle", "gradle.properties"]);
    find_content(&plan, &["gradle", "build.gradle"]);
}

#[test]
fn pinned_gradle_version_reaches_wrapper_properties() {
    let mut c = config("pinned", "com.example");
    c.project.gradle_version = Some(s("8.7"));
    let plan = setup_gradle_project(&c, &vec![]).unwrap();
    let content = find_content(
        &plan,
        &["gradle", "gradle", "wrapper", "gradle-wrapper.properties"],
    );
    assert!(content.contains(
        "distributionUrl=https://services.gradle.org/distributions/gradle-8.7-bin.zip"
    ));
}

#[test]
fn settings_gradle_exact_text() {
    let c = config("my_project", "com.example");
    let plan = setup_gradle_project(&c, &vec![]).unwrap();
    let content = find_content(&plan, &["gradle", "settings.gradle"]);
    assert_eq!(
        content,
        "rootProject.name = 'my_project'\n\ndependencyResolutionManagement {\n    repositories {\n        mavenCentral()\n        google()\n        gradlePluginPortal()\n    }\n}"
    );
}

#[test]
fn base_directories_are_planned_in_order() {
    let c = config("layout", "com.example");
    let plan = setup_gradle_project(&c, &vec![]).unwrap();
    let as_vec = |segs: &[&str]| -> Vec<String> { segs.iter().map(|p| s(p)).collect() };
    assert_eq!(plan.dirs[0], as_vec(&["gradle", "src", "main", "java"]));
    assert_eq!(plan.dirs[1], as_vec(&["gradle", "src", "main", "resources"]));
    assert_eq!(
        plan.dirs[plan.dirs.len() - 1],
        as_vec(&["gradle", "gradle", "wrapper"])
    );
}

#[test]
fn maven_plan_has_no_wrapper_and_own_root() {
    let c = config("mvn", "com.example");
    let units = vec![unit(&["a"], "A.java", "class A {}\n")];
    let plan = rusty_java::maven::setup_maven_project(&c, &units).unwrap();
    let as_vec = |segs: &[&str]| -> Vec<String> { segs.iter().map(|p| s(p)).collect() };
    assert_eq!(plan.dirs[0], as_vec(&["maven", "src", "main", "java"]));
    for f in &plan.files {
        assert_eq!(f.path[0], "maven");
        assert!(!f.executable);
    }
    let content = find_content(&plan, &["maven", "src", "main", "java", "com", "example", "a", "A.java"]);
    assert_eq!(content, "package com.example.a;class A {}\n");
}

#[test]
fn jar_file_name_is_name_dash_version() {
    let c = config("demo", "com.example");
    assert_eq!(rusty_java::gradle::jar_file_name(&c), "demo-1.0.0.jar");
}
