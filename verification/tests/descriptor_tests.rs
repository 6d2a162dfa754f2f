//! Tests for the descriptor generators: dependency rendering, plugin
//! blocks, deterministic ordering and feature-flag orthogonality.

use rusty_java::config::{Config, Dependency, Project};
use rusty_java::gradle::{generate_gradle_dependencies, generate_plugins_block};
use rusty_java::maven::generate_maven_dependencies;

fn s(x: &str) -> String {
    x.to_string()
}

fn dep(name: &str, coordinate: &str) -> Dependency {
    Dependency { name: s(name), coordinate: s(coordinate) }
}

fn project(name: &str) -> Project {
    Project {
        name: s(name),
        version: s("0.1.0"),
        main_class: s("Main"),
        base_namespace: s("com.example"),
        root_path: None,
        gradle_version: None,
        shadow_plugin_version: None,
        use_shadow: None,
        use_wrapper: None,
    }
}

#[test]
fn gradle_dependency_lines_are_sorted() {
    let deps = Some(vec![
        dep("c", "org.zzz:late:1.0"),
        dep("a", "org.aaa:early:2.0"),
        dep("b", "org.mmm:middle:3.0"),
    ]);
    let text = generate_gradle_dependencies(&deps);
    assert_eq!(
        text,
        "    implementation 'org.aaa:early:2.0'\n    implementation 'org.mmm:middle:3.0'\n    implementation 'org.zzz:late:1.0'"
    );
}

#[test]
fn gradle_dependencies_empty_when_none_declared() {
    assert_eq!(generate_gradle_dependencies(&None), "");
    assert_eq!(generate_gradle_dependencies(&Some(vec![])), "");
}

// Deterministic descriptor ordering: the rendered dependency block is
// byte-identical however the dependency map hands its entries out.
#[test]
fn gradle_dependencies_independent_of_iteration_order() {
    let order_one = Some(vec![
        dep("x", "g1:artifact1:1.0"),
        dep("y", "g2:artifact2:2.0"),
        dep("z", "g0:artifact0:3.0"),
    ]);
    let order_two = Some(vec![
        dep("z", "g0:artifact0:3.0"),
        dep("y", "g2:artifact2:2.0"),
        dep("x", "g1:artifact1:1.0"),
    ]);
    assert_eq!(
        generate_gradle_dependencies(&order_one),
        generate_gradle_dependencies(&order_two)
    );
    assert_eq!(
        generate_maven_dependencies(&order_one),
        generate_maven_dependencies(&order_two)
    );
}

// Malformed coordinates are skipped, not errors: exactly one resolved
// entry comes out of {"a": "g1:artifact1:1.0", "b": "bad-coord"}.
#[test]
fn malformed_coordinate_is_silently_omitted() {
    let deps = Some(vec![dep("a", "g1:artifact1:1.0"), dep("b", "bad-coord")]);
    let gradle_text = generate_gradle_dependencies(&deps);
    assert_eq!(gradle_text, "    implementation 'g1:artifact1:1.0'");
    assert_eq!(gradle_text.matches("implementation").count(), 1);

    let maven_text = generate_maven_dependencies(&deps);
    assert_eq!(
        maven_text,
        "\n    <dependency>\n        <groupId>g1</groupId>\n        <artifactId>artifact1</artifactId>\n        <version>1.0</version>\n    </dependency>"
    );
    assert_eq!(maven_text.matches("<dependency>").count(), 1);
    assert!(!maven_text.contains("bad-coord"));
}

#[test]
fn coordinate_with_too_many_segments_is_omitted() {
    let deps = Some(vec![dep("a", "g:a:1.0:extra"), dep("b", "g:a:1.0")]);
    assert_eq!(
        generate_gradle_dependencies(&deps),
        "    implementation 'g:a:1.0'"
    );
}

#[test]
fn plugins_block_without_shadow() {
    assert_eq!(
        generate_plugins_block("7.1.2", false),
        "    id 'java'\n    id 'application'\n    id 'java-library'"
    );
}

#[test]
fn plugins_block_with_shadow() {
    assert_eq!(
        generate_plugins_block("8.1.1", true),
        "    id 'java'\n    id 'application'\n    id 'java-library'\n    id 'com.github.johnrengelman.shadow' version '8.1.1'"
    );
}

fn build_gradle_for(use_shadow: bool) -> String {
    let config = Config {
        project: Project { use_shadow: Some(use_shadow), ..project("demo") },
        dependencies: Some(vec![dep("junit", "org.junit.jupiter:junit-jupiter:5.9.1")]),
    };
    let plan = rusty_java::gradle::setup_gradle_project(&config, &vec![]).unwrap();
    let mut found = None;
    for f in &plan.files {
        if f.path == vec![s("gradle"), s("build.gradle")] {
            found = Some(f.content.clone());
        }
    }
    found.expect("build.gradle not planned")
}

#[test]
fn build_gradle_exact_text() {
    let text = build_gradle_for(true);
    let mut expected = String::new();
    expected.push_str("plugins {\n");
    expected.push_str("    id 'java'\n");
    expected.push_str("    id 'application'\n");
    expected.push_str("    id 'java-library'\n");
    expected.push_str("    id 'com.github.johnrengelman.shadow' version '7.1.2'\n");
    expected.push_str("}\n\n");
    expected.push_str("group = 'demo'\n");
    expected.push_str("version = '0.1.0'\n\n");
    expected.push_str("application {\n    mainClass = 'com.example.Main'\n}\n\n");
    expected.push_str("java {\n    withSourcesJar()\n    withJavadocJar()\n}\n\n");
    expected.push_str("repositories {\n    mavenCentral()\n    google()\n}\n\n");
    expected.push_str("dependencies {\n");
    expected.push_str("    implementation 'org.junit.jupiter:junit-jupiter:5.9.1'\n");
    expected.push_str("    testImplementation 'org.junit.jupiter:junit-jupiter-api:5.8.2'\n");
    expected.push_str("    testRuntimeOnly 'org.junit.jupiter:junit-jupiter-engine:5.8.2'\n");
    expected.push_str("}\n\n");
    expected.push_str("test {\n    useJUnitPlatform()\n    testLogging {\n        events \"passed\", \"skipped\", \"failed\"\n    }\n}\n\n");
    expected.push_str("tasks.named('jar') {\n    manifest {\n        attributes(\n            'Main-Class': 'com.example.Main'\n        )\n    }\n}\n");
    expected.push_str("shadowJar {\n    archiveClassifier.set('')\n    archiveVersion.set(version)\n    mergeServiceFiles()\n}\n");
    assert_eq!(text, expected);
}

// Feature-flag orthogonality: toggling the fat-archive flag only adds or
// removes the shadow plugin line and the shadowJar block; stripping those
// two pieces from the flag-on text gives exactly the flag-off text.
#[test]
fn shadow_flag_only_touches_its_own_blocks() {
    let with_shadow = build_gradle_for(true);
    let without_shadow = build_gradle_for(false);

    assert!(!without_shadow.contains("shadow"));
    assert!(with_shadow.contains("    id 'com.github.johnrengelman.shadow' version '7.1.2'"));
    assert!(with_shadow.contains("\nshadowJar {"));

    let stripped = with_shadow
        .replace("\n    id 'com.github.johnrengelman.shadow' version '7.1.2'", "")
        .replace(
            "\nshadowJar {\n    archiveClassifier.set('')\n    archiveVersion.set(version)\n    mergeServiceFiles()\n}\n",
            "",
        );
    assert_eq!(stripped, without_shadow);

    // The blocks the flag must not touch are identical in both texts.
    for block in [
        "application {\n    mainClass = 'com.example.Main'\n}",
        "dependencies {\n    implementation 'org.junit.jupiter:junit-jupiter:5.9.1'",
        "test {\n    useJUnitPlatform()",
    ] {
        assert!(with_shadow.contains(block));
        assert!(without_shadow.contains(block));
    }
}

#[test]
fn maven_pom_carries_entry_point_and_dependencies() {
    let config = Config {
        project: project("mvndemo"),
        dependencies: Some(vec![dep("a", "g1:artifact1:1.0")]),
    };
    let plan = rusty_java::maven::setup_maven_project(&config, &vec![]).unwrap();
    let mut pom = None;
    for f in &plan.files {
        if f.path == vec![s("maven"), s("pom.xml")] {
            pom = Some(f.content.clone());
        }
    }
    let pom = pom.expect("pom.xml not planned");
    assert!(pom.contains("<groupId>mvndemo</groupId>"));
    assert!(pom.contains("<artifactId>mvndemo</artifactId>"));
    assert!(pom.contains("<version>0.1.0</version>"));
    assert_eq!(pom.matches("<mainClass>com.example.Main</mainClass>").count(), 2);
    assert!(pom.contains(
        "\n    <dependency>\n        <groupId>g1</groupId>\n        <artifactId>artifact1</artifactId>\n        <version>1.0</version>\n    </dependency>"
    ));
    assert!(pom.ends_with("</project>\n"));
}
