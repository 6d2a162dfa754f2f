//! The Gradle backend: renders the build descriptors (settings.gradle,
//! gradle.properties, build.gradle), plans the workspace layout, places
//! the rewritten compilation units, and provisions the pinned-version
//! wrapper scripts. Every rendered text is an exact function of the
//! project descriptor.

use vstd::prelude::*;
use crate::config::{Config, Dependency};
use crate::deps::{sorted_coords, sorted_valid_coordinates, lemma_sorted_coords_deterministic, dep_coords};
use crate::plan::{FileAction, FileActionView, WorkspacePlan, WorkspacePlanView, MalformedSourceError};
use crate::rewrite::{namespace_of, declaration_of, CompilationUnit};
use crate::layout::{
    java_root_under, unit_dir_under, unit_action_under, unit_dirs_planned_under,
    unit_files_planned_under, any_malformed, first_malformed, place_source_files,
};
use crate::text::{join_with, join_strings, split_char};

verus! {

// ---------------------------------------------------------------------
// Rendered texts
// ---------------------------------------------------------------------

/// The settings.gradle text: the project name and the fixed repository
/// configuration.
pub open spec fn settings_gradle_text(name: Seq<char>) -> Seq<char> {
    "rootProject.name = '"@ + name
        + "'\n\ndependencyResolutionManagement {\n    repositories {\n        mavenCentral()\n        google()\n        gradlePluginPortal()\n    }\n}"@
}

/// The fixed gradle.properties text: performance options only, never
/// derived from user input.
pub open spec fn gradle_properties_text() -> Seq<char> {
    "# Gradle performance improvements\norg.gradle.jvmargs=-Xmx2g -XX:MaxMetaspaceSize=512m -XX:+HeapDumpOnOutOfMemoryError\norg.gradle.parallel=true\norg.gradle.caching=true\norg.gradle.configureondemand=true\n\n# Enable file system watching for faster incremental builds\norg.gradle.vfs.watch=true"@
}

/// The three plugin lines every project gets.
pub open spec fn plugins_base_text() -> Seq<char> {
    "    id 'java'\n    id 'application'\n    id 'java-library'"@
}

/// The shadow plugin line, pinned to the given plugin version.
pub open spec fn shadow_plugin_line(shadow_ver: Seq<char>) -> Seq<char> {
    "    id 'com.github.johnrengelman.shadow' version '"@ + shadow_ver + "'"@
}

/// The plugins block: the fixed lines, plus the shadow line when the
/// fat-archive flag is set.
pub open spec fn plugins_block_text(shadow_ver: Seq<char>, use_shadow: bool) -> Seq<char> {
    if use_shadow {
        plugins_base_text() + "\n"@ + shadow_plugin_line(shadow_ver)
    } else {
        plugins_base_text()
    }
}

/// One rendered dependency entry.
pub open spec fn gradle_dep_line(coord: Seq<char>) -> Seq<char> {
    "    implementation '"@ + coord + "'"@
}

/// The rendered dependency entries, in canonical order.
pub open spec fn gradle_dep_lines(deps: Seq<Dependency>) -> Seq<Seq<char>> {
    sorted_coords(deps).map_values(|c: Seq<char>| gradle_dep_line(c))
}

/// The dependencies block body: one line per well-formed coordinate,
/// sorted lexicographically, joined by newlines.
pub open spec fn gradle_dependencies_text(deps: Seq<Dependency>) -> Seq<char> {
    join_with(gradle_dep_lines(deps), "\n"@)
}

/// The declared dependencies, or none.
pub open spec fn dep_list(dependencies: Option<Vec<Dependency>>) -> Seq<Dependency> {
    match dependencies {
        Some(v) => v@,
        None => Seq::<Dependency>::empty(),
    }
}

/// Everything of build.gradle after the plugins block and before the
/// optional shadowJar block: group, version, entry point, dependencies
/// and the fixed test scaffolding.
pub open spec fn build_gradle_body(
    name: Seq<char>,
    version: Seq<char>,
    base_ns: Seq<char>,
    main_class: Seq<char>,
    deps: Seq<Dependency>,
) -> Seq<char> {
    "\n}\n\ngroup = '"@ + name + "'\nversion = '"@ + version + "'\n\napplication {\n    mainClass = '"@
        + base_ns + "."@ + main_class
        + "'\n}\n\njava {\n    withSourcesJar()\n    withJavadocJar()\n}\n\nrepositories {\n    mavenCentral()\n    google()\n}\n\ndependencies {\n"@
        + gradle_dependencies_text(deps)
        + "\n    testImplementation 'org.junit.jupiter:junit-jupiter-api:5.8.2'\n    testRuntimeOnly 'org.junit.jupiter:junit-jupiter-engine:5.8.2'\n}\n\ntest {\n    useJUnitPlatform()\n    testLogging {\n        events \"passed\", \"skipped\", \"failed\"\n    }\n}\n\ntasks.named('jar') {\n    manifest {\n        attributes(\n            'Main-Class': '"@
        + base_ns + "."@ + main_class + "'\n        )\n    }\n}"@
}

/// The shadowJar post-processing block: classifier reset, version pin and
/// service-file merge.
pub open spec fn shadow_jar_text() -> Seq<char> {
    "\nshadowJar {\n    archiveClassifier.set('')\n    archiveVersion.set(version)\n    mergeServiceFiles()\n}\n"@
}

/// The whole build.gradle text.
pub open spec fn build_gradle_text(
    name: Seq<char>,
    version: Seq<char>,
    base_ns: Seq<char>,
    main_class: Seq<char>,
    deps: Seq<Dependency>,
    shadow_ver: Seq<char>,
    use_shadow: bool,
) -> Seq<char> {
    "plugins {\n"@ + plugins_block_text(shadow_ver, use_shadow) + build_gradle_body(
        name,
        version,
        base_ns,
        main_class,
        deps,
    ) + if use_shadow {
        shadow_jar_text()
    } else {
        Seq::<char>::empty()
    }
}

/// The gradle-wrapper.properties text, pinning the distribution version.
pub open spec fn wrapper_properties_text(gradle_ver: Seq<char>) -> Seq<char> {
    "distributionBase=GRADLE_USER_HOME\ndistributionPath=wrapper/dists\ndistributionUrl=https://services.gradle.org/distributions/gradle-"@
        + gradle_ver
        + "-bin.zip\nnetworkTimeout=10000\nzipStoreBase=GRADLE_USER_HOME\nzipStorePath=wrapper/dists"@
}

/// The Unix launcher script.
pub open spec fn gradlew_text() -> Seq<char> {
    "#!/bin/sh\n# Gradle wrapper script for Unix-based systems\nexec \"$(dirname \"$0\")\"/gradle/wrapper/gradle-wrapper.jar \"$@\""@
}

/// The Windows launcher script.
pub open spec fn gradlew_bat_text() -> Seq<char> {
    "@rem Gradle wrapper script for Windows\n@echo off\njava -jar \"%~dp0/gradle/wrapper/gradle-wrapper.jar\" %*"@
}

/// The canonical build-output archive name: `name-version.jar`. The
/// fat-archive packaging resets its classifier and pins its version, so
/// both packagings produce this one name.
pub open spec fn jar_file_name_spec(name: Seq<char>, version: Seq<char>) -> Seq<char> {
    name + "-"@ + version + ".jar"@
}

/// Computes the archive name a build of this descriptor produces.
pub fn jar_file_name(config: &Config) -> (r: String)
    ensures
        r@ == jar_file_name_spec(config.project.name@, config.project.version@),
{
    let mut out = config.project.name.as_str().to_owned();
    out.append("-");
    out.append(config.project.version.as_str());
    out.append(".jar");
    out
}

// ---------------------------------------------------------------------
// Effective descriptor values
// ---------------------------------------------------------------------

/// The Gradle distribution version to pin: the declared one, or 8.4.
pub open spec fn effective_gradle_version(c: Config) -> Seq<char> {
    match c.project.gradle_version {
        Some(v) => v@,
        None => "8.4"@,
    }
}

/// The shadow plugin version to pin: the declared one, or 7.1.2.
pub open spec fn effective_shadow_version(c: Config) -> Seq<char> {
    match c.project.shadow_plugin_version {
        Some(v) => v@,
        None => "7.1.2"@,
    }
}

/// Whether fat-archive packaging is on: the declared flag, or on.
pub open spec fn effective_use_shadow(c: Config) -> bool {
    match c.project.use_shadow {
        Some(b) => b,
        None => true,
    }
}

/// Whether the wrapper is provisioned: the declared flag, or on.
pub open spec fn effective_use_wrapper(c: Config) -> bool {
    match c.project.use_wrapper {
        Some(b) => b,
        None => true,
    }
}

// ---------------------------------------------------------------------
// Renderers
// ---------------------------------------------------------------------

/// Renders the plugins block for build.gradle.
pub fn generate_plugins_block(shadow_ver: &str, use_shadow: bool) -> (r: String)
    ensures
        r@ == plugins_block_text(shadow_ver@, use_shadow),
{
    let mut out = String::from_str("    id 'java'\n    id 'application'\n    id 'java-library'");
    if use_shadow {
        out.append("\n");
        out.append("    id 'com.github.johnrengelman.shadow' version '");
        out.append(shadow_ver);
        out.append("'");
        proof {
            assert(out@ =~= plugins_block_text(shadow_ver@, use_shadow));
        }
    }
    out
}

/// Renders the dependencies block: one `implementation` line per
/// well-formed coordinate, sorted lexicographically.
pub fn generate_gradle_dependencies(dependencies: &Option<Vec<Dependency>>) -> (r: String)
    ensures
        r@ == gradle_dependencies_text(dep_list(*dependencies)),
{
    match dependencies {
        None => {
            proof {
                crate::deps::lemma_sorted_coords_empty();
                assert(gradle_dep_lines(dep_list(*dependencies)) =~= Seq::<Seq<char>>::empty());
            }
            String::new()
        },
        Some(v) => {
            let coords = sorted_valid_coordinates(v);
            let mut lines: Vec<String> = Vec::new();
            let n = coords.len();
            proof {
                assert(lines.deep_view() =~= sorted_coords(v@).take(0).map_values(
                    |c: Seq<char>| gradle_dep_line(c),
                ));
            }
            for i in 0..n
                invariant
                    n == coords.len(),
                    coords.deep_view() == sorted_coords(v@),
                    lines.deep_view() == sorted_coords(v@).take(i as int).map_values(
                        |c: Seq<char>| gradle_dep_line(c),
                    ),
            {
                let mut line = String::from_str("    implementation '");
                line.append(coords[i].as_str());
                line.append("'");
                let ghost before = lines.deep_view();
                proof {
                    assert(coords.deep_view()[i as int] == coords@[i as int]@);
                    assert(line@ == gradle_dep_line(sorted_coords(v@)[i as int]));
                }
                lines.push(line);
                proof {
                    assert(lines.deep_view() =~= before.push(line@));
                    assert(lines.deep_view() =~= sorted_coords(v@).take(i + 1).map_values(
                        |c: Seq<char>| gradle_dep_line(c),
                    ));
                }
            }
            proof {
                assert(sorted_coords(v@).take(n as int) =~= sorted_coords(v@));
                assert(lines.deep_view() =~= gradle_dep_lines(v@));
            }
            join_strings(&lines, "\n")
        },
    }
}

// ---------------------------------------------------------------------
// Planned paths and actions
// ---------------------------------------------------------------------

/// The directory skeleton every Gradle workspace gets: the Java source
/// root and the resources directory, which some builds expect present
/// even when no resource is copied.
pub open spec fn gradle_base_dirs() -> Seq<Seq<Seq<char>>> {
    seq![
        seq!["gradle"@, "src"@, "main"@, "java"@],
        seq!["gradle"@, "src"@, "main"@, "resources"@],
    ]
}

/// The Java source root of the planned Gradle workspace.
pub open spec fn java_root() -> Seq<Seq<char>> {
    java_root_under("gradle"@)
}

/// Where a unit's rewritten file lives: the Java source root, then the
/// base namespace's components, then the unit's own directory segments.
pub open spec fn unit_dir(base: Seq<char>, u: CompilationUnit) -> Seq<Seq<char>> {
    unit_dir_under("gradle"@, base, u)
}

/// The planned write of one rewritten unit.
pub open spec fn unit_action(base: Seq<char>, u: CompilationUnit) -> FileActionView {
    unit_action_under("gradle"@, base, u)
}

/// The per-unit directories, in unit order.
pub open spec fn unit_dirs_planned(base: Seq<char>, units: Seq<CompilationUnit>) -> Seq<
    Seq<Seq<char>>,
> {
    unit_dirs_planned_under("gradle"@, base, units)
}

/// The per-unit file writes, in unit order.
pub open spec fn unit_files_planned(base: Seq<char>, units: Seq<CompilationUnit>) -> Seq<
    FileActionView,
> {
    unit_files_planned_under("gradle"@, base, units)
}

pub open spec fn settings_action(c: Config) -> FileActionView {
    FileActionView {
        path: seq!["gradle"@, "settings.gradle"@],
        content: settings_gradle_text(c.project.name@),
        executable: false,
    }
}

pub open spec fn properties_action() -> FileActionView {
    FileActionView {
        path: seq!["gradle"@, "gradle.properties"@],
        content: gradle_properties_text(),
        executable: false,
    }
}

pub open spec fn build_action(c: Config) -> FileActionView {
    FileActionView {
        path: seq!["gradle"@, "build.gradle"@],
        content: build_gradle_text(
            c.project.name@,
            c.project.version@,
            c.project.base_namespace@,
            c.project.main_class@,
            dep_list(c.dependencies),
            effective_shadow_version(c),
            effective_use_shadow(c),
        ),
        executable: false,
    }
}

pub open spec fn wrapper_dir() -> Seq<Seq<char>> {
    seq!["gradle"@, "gradle"@, "wrapper"@]
}

pub open spec fn wrapper_properties_action(c: Config) -> FileActionView {
    FileActionView {
        path: seq!["gradle"@, "gradle"@, "wrapper"@, "gradle-wrapper.properties"@],
        content: wrapper_properties_text(effective_gradle_version(c)),
        executable: false,
    }
}

pub open spec fn gradlew_action() -> FileActionView {
    FileActionView { path: seq!["gradle"@, "gradlew"@], content: gradlew_text(), executable: true }
}

pub open spec fn gradlew_bat_action() -> FileActionView {
    FileActionView {
        path: seq!["gradle"@, "gradlew.bat"@],
        content: gradlew_bat_text(),
        executable: false,
    }
}

// ---------------------------------------------------------------------
// Plan builders
// ---------------------------------------------------------------------

/// Plans the Gradle directory skeleton.
pub fn setup_gradle_directories(plan: &mut WorkspacePlan)
    ensures
        final(plan)@.dirs == old(plan)@.dirs + gradle_base_dirs(),
        final(plan)@.files == old(plan)@.files,
{
    let mut d1: Vec<String> = Vec::new();
    d1.push(String::from_str("gradle"));
    d1.push(String::from_str("src"));
    d1.push(String::from_str("main"));
    d1.push(String::from_str("java"));
    proof {
        assert(d1.deep_view() =~= seq!["gradle"@, "src"@, "main"@, "java"@]);
    }
    plan.push_dir(d1);
    let mut d2: Vec<String> = Vec::new();
    d2.push(String::from_str("gradle"));
    d2.push(String::from_str("src"));
    d2.push(String::from_str("main"));
    d2.push(String::from_str("resources"));
    proof {
        assert(d2.deep_view() =~= seq!["gradle"@, "src"@, "main"@, "resources"@]);
    }
    plan.push_dir(d2);
    proof {
        assert(plan@.dirs =~= old(plan)@.dirs + gradle_base_dirs());
    }
}

/// Plans the settings.gradle write.
pub fn write_settings_gradle(config: &Config, plan: &mut WorkspacePlan)
    ensures
        final(plan)@.dirs == old(plan)@.dirs,
        final(plan)@.files == old(plan)@.files.push(settings_action(*config)),
{
    let mut s = String::from_str("rootProject.name = '");
    s.append(config.project.name.as_str());
    s.append(
        "'\n\ndependencyResolutionManagement {\n    repositories {\n        mavenCentral()\n        google()\n        gradlePluginPortal()\n    }\n}",
    );
    let mut path: Vec<String> = Vec::new();
    path.push(String::from_str("gradle"));
    path.push(String::from_str("settings.gradle"));
    let action = FileAction { path, content: s, executable: false };
    proof {
        assert(action@ =~= settings_action(*config));
    }
    plan.push_file(action);
}

/// Plans the gradle.properties write.
pub fn write_gradle_properties(plan: &mut WorkspacePlan)
    ensures
        final(plan)@.dirs == old(plan)@.dirs,
        final(plan)@.files == old(plan)@.files.push(properties_action()),
{
    let s = String::from_str(
        "# Gradle performance improvements\norg.gradle.jvmargs=-Xmx2g -XX:MaxMetaspaceSize=512m -XX:+HeapDumpOnOutOfMemoryError\norg.gradle.parallel=true\norg.gradle.caching=true\norg.gradle.configureondemand=true\n\n# Enable file system watching for faster incremental builds\norg.gradle.vfs.watch=true",
    );
    let mut path: Vec<String> = Vec::new();
    path.push(String::from_str("gradle"));
    path.push(String::from_str("gradle.properties"));
    let action = FileAction { path, content: s, executable: false };
    proof {
        assert(action@ =~= properties_action());
    }
    plan.push_file(action);
}

/// Plans the build.gradle write.
pub fn write_build_gradle(
    config: &Config,
    plan: &mut WorkspacePlan,
    shadow_ver: &str,
    use_shadow: bool,
)
    ensures
        final(plan)@.dirs == old(plan)@.dirs,
        final(plan)@.files == old(plan)@.files.push(
            FileActionView {
                path: seq!["gradle"@, "build.gradle"@],
                content: build_gradle_text(
                    config.project.name@,
                    config.project.version@,
                    config.project.base_namespace@,
                    config.project.main_class@,
                    dep_list(config.dependencies),
                    shadow_ver@,
                    use_shadow,
                ),
                executable: false,
            },
        ),
{
    let deps_text = generate_gradle_dependencies(&config.dependencies);
    let plugins = generate_plugins_block(shadow_ver, use_shadow);
    let mut b = String::from_str("plugins {\n");
    b.append(plugins.as_str());
    b.append("\n}\n\ngroup = '");
    b.append(config.project.name.as_str());
    b.append("'\nversion = '");
    b.append(config.project.version.as_str());
    b.append("'\n\napplication {\n    mainClass = '");
    b.append(config.project.base_namespace.as_str());
    b.append(".");
    b.append(config.project.main_class.as_str());
    b.append(
        "'\n}\n\njava {\n    withSourcesJar()\n    withJavadocJar()\n}\n\nrepositories {\n    mavenCentral()\n    google()\n}\n\ndependencies {\n",
    );
    b.append(deps_text.as_str());
    b.append(
        "\n    testImplementation 'org.junit.jupiter:junit-jupiter-api:5.8.2'\n    testRuntimeOnly 'org.junit.jupiter:junit-jupiter-engine:5.8.2'\n}\n\ntest {\n    useJUnitPlatform()\n    testLogging {\n        events \"passed\", \"skipped\", \"failed\"\n    }\n}\n\ntasks.named('jar') {\n    manifest {\n        attributes(\n            'Main-Class': '",
    );
    b.append(config.project.base_namespace.as_str());
    b.append(".");
    b.append(config.project.main_class.as_str());
    b.append("'\n        )\n    }\n}");
    if use_shadow {
        b.append(
            "\nshadowJar {\n    archiveClassifier.set('')\n    archiveVersion.set(version)\n    mergeServiceFiles()\n}\n",
        );
    }
    proof {
        assert(b@ =~= build_gradle_text(
            config.project.name@,
            config.project.version@,
            config.project.base_namespace@,
            config.project.main_class@,
            dep_list(config.dependencies),
            shadow_ver@,
            use_shadow,
        ));
    }
    let mut path: Vec<String> = Vec::new();
    path.push(String::from_str("gradle"));
    path.push(String::from_str("build.gradle"));
    let action = FileAction { path, content: b, executable: false };
    proof {
        assert(action@.path =~= seq!["gradle"@, "build.gradle"@]);
        assert(action@ =~= FileActionView {
            path: seq!["gradle"@, "build.gradle"@],
            content: build_gradle_text(
                config.project.name@,
                config.project.version@,
                config.project.base_namespace@,
                config.project.main_class@,
                dep_list(config.dependencies),
                shadow_ver@,
                use_shadow,
            ),
            executable: false,
        });
    }
    plan.push_file(action);
}

/// Plans the three Gradle configuration files, in the order the workspace
/// writes them.
pub fn write_gradle_config_files(
    config: &Config,
    plan: &mut WorkspacePlan,
    shadow_ver: &str,
    use_shadow: bool,
)
    ensures
        final(plan)@.dirs == old(plan)@.dirs,
        final(plan)@.files == old(plan)@.files + seq![
            settings_action(*config),
            properties_action(),
            FileActionView {
                path: seq!["gradle"@, "build.gradle"@],
                content: build_gradle_text(
                    config.project.name@,
                    config.project.version@,
                    config.project.base_namespace@,
                    config.project.main_class@,
                    dep_list(config.dependencies),
                    shadow_ver@,
                    use_shadow,
                ),
                executable: false,
            },
        ],
{
    write_settings_gradle(config, plan);
    write_gradle_properties(plan);
    write_build_gradle(config, plan, shadow_ver, use_shadow);
    proof {
        assert(plan@.files =~= old(plan)@.files + seq![
            settings_action(*config),
            properties_action(),
            FileActionView {
                path: seq!["gradle"@, "build.gradle"@],
                content: build_gradle_text(
                    config.project.name@,
                    config.project.version@,
                    config.project.base_namespace@,
                    config.project.main_class@,
                    dep_list(config.dependencies),
                    shadow_ver@,
                    use_shadow,
                ),
                executable: false,
            },
        ]);
    }
}

/// Plans the wrapper: its directory, the pinned-version properties, and
/// the two launcher scripts — the Unix one marked executable.
pub fn create_gradle_wrapper(plan: &mut WorkspacePlan, gradle_version: &str)
    ensures
        final(plan)@.dirs == old(plan)@.dirs.push(wrapper_dir()),
        final(plan)@.files == old(plan)@.files + seq![
            FileActionView {
                path: seq!["gradle"@, "gradle"@, "wrapper"@, "gradle-wrapper.properties"@],
                content: wrapper_properties_text(gradle_version@),
                executable: false,
            },
            gradlew_action(),
            gradlew_bat_action(),
        ],
{
    let mut d: Vec<String> = Vec::new();
    d.push(String::from_str("gradle"));
    d.push(String::from_str("gradle"));
    d.push(String::from_str("wrapper"));
    proof {
        assert(d.deep_view() =~= wrapper_dir());
    }
    plan.push_dir(d);

    let mut props = String::from_str(
        "distributionBase=GRADLE_USER_HOME\ndistributionPath=wrapper/dists\ndistributionUrl=https://services.gradle.org/distributions/gradle-",
    );
    props.append(gradle_version);
    props.append(
        "-bin.zip\nnetworkTimeout=10000\nzipStoreBase=GRADLE_USER_HOME\nzipStorePath=wrapper/dists",
    );
    let mut ppath: Vec<String> = Vec::new();
    ppath.push(String::from_str("gradle"));
    ppath.push(String::from_str("gradle"));
    ppath.push(String::from_str("wrapper"));
    ppath.push(String::from_str("gradle-wrapper.properties"));
    let paction = FileAction { path: ppath, content: props, executable: false };
    proof {
        assert(paction@ =~= FileActionView {
            path: seq!["gradle"@, "gradle"@, "wrapper"@, "gradle-wrapper.properties"@],
            content: wrapper_properties_text(gradle_version@),
            executable: false,
        });
    }
    plan.push_file(paction);

    let script = String::from_str(
        "#!/bin/sh\n# Gradle wrapper script for Unix-based systems\nexec \"$(dirname \"$0\")\"/gradle/wrapper/gradle-wrapper.jar \"$@\"",
    );
    let mut spath: Vec<String> = Vec::new();
    spath.push(String::from_str("gradle"));
    spath.push(String::from_str("gradlew"));
    let saction = FileAction { path: spath, content: script, executable: true };
    proof {
        assert(saction@ =~= gradlew_action());
    }
    plan.push_file(saction);

    let bat = String::from_str(
        "@rem Gradle wrapper script for Windows\n@echo off\njava -jar \"%~dp0/gradle/wrapper/gradle-wrapper.jar\" %*",
    );
    let mut bpath: Vec<String> = Vec::new();
    bpath.push(String::from_str("gradle"));
    bpath.push(String::from_str("gradlew.bat"));
    let baction = FileAction { path: bpath, content: bat, executable: false };
    proof {
        assert(baction@ =~= gradlew_bat_action());
    }
    plan.push_file(baction);
    proof {
        assert(plan@.files =~= old(plan)@.files + seq![
            FileActionView {
                path: seq!["gradle"@, "gradle"@, "wrapper"@, "gradle-wrapper.properties"@],
                content: wrapper_properties_text(gradle_version@),
                executable: false,
            },
            gradlew_action(),
            gradlew_bat_action(),
        ]);
    }
}

// ---------------------------------------------------------------------
// Source placement
// ---------------------------------------------------------------------

/// Plans the placement of every compilation unit: for each unit, in
/// order, its namespace-derived directory and its rewritten file. Stops
/// at the first malformed unit, naming it; the units before it stay
/// planned (their output would already be on disk), and the malformed
/// unit contributes its directory but no file.
pub fn setup_source_files(
    config: &Config,
    units: &Vec<CompilationUnit>,
    plan: &mut WorkspacePlan,
) -> (r: Result<(), MalformedSourceError>)
    ensures
        r is Ok <==> !any_malformed(units@),
        r is Ok ==> final(plan)@.dirs == old(plan)@.dirs + unit_dirs_planned(
            config.project.base_namespace@,
            units@,
        ) && final(plan)@.files == old(plan)@.files + unit_files_planned(
            config.project.base_namespace@,
            units@,
        ),
        r matches Err(e) ==> e.file@ == units@[first_malformed(units@)].file_name@ && final(
            plan
        )@.dirs == old(plan)@.dirs + unit_dirs_planned(
            config.project.base_namespace@,
            units@.take(first_malformed(units@) + 1),
        ) && final(plan)@.files == old(plan)@.files + unit_files_planned(
            config.project.base_namespace@,
            units@.take(first_malformed(units@)),
        ),
{
    place_source_files("gradle", config, units, plan)
}

// ---------------------------------------------------------------------
// The whole materialization
// ---------------------------------------------------------------------

/// Everything a Gradle materialization plans, in the order it is
/// produced: the directory skeleton, each unit's directory, the wrapper
/// directory; then each unit's rewritten file, the three configuration
/// files, and the three wrapper files. The wrapper pieces appear only
/// when the wrapper flag is on.
pub open spec fn gradle_plan(c: Config, units: Seq<CompilationUnit>) -> WorkspacePlanView {
    WorkspacePlanView {
        dirs: gradle_base_dirs() + unit_dirs_planned(c.project.base_namespace@, units) + if
        effective_use_wrapper(c) {
            seq![wrapper_dir()]
        } else {
            Seq::<Seq<Seq<char>>>::empty()
        },
        files: unit_files_planned(c.project.base_namespace@, units) + seq![
            settings_action(c),
            properties_action(),
            build_action(c),
        ] + if effective_use_wrapper(c) {
            seq![wrapper_properties_action(c), gradlew_action(), gradlew_bat_action()]
        } else {
            Seq::<FileActionView>::empty()
        },
    }
}

/// Plans the whole Gradle workspace for a descriptor and its source
/// units: layout, rewritten sources, configuration files, and — when its
/// flag is on — the wrapper. Fails exactly when some unit is malformed,
/// naming the first one.
pub fn setup_gradle_project(config: &Config, units: &Vec<CompilationUnit>) -> (r: Result<
    WorkspacePlan,
    MalformedSourceError,
>)
    ensures
        r is Ok <==> !any_malformed(units@),
        r matches Ok(p) ==> p@ == gradle_plan(*config, units@),
        r matches Err(e) ==> e.file@ == units@[first_malformed(units@)].file_name@,
{
    let gradle_ver = match &config.project.gradle_version {
        Some(v) => v.as_str(),
        None => "8.4",
    };
    let shadow_ver = match &config.project.shadow_plugin_version {
        Some(v) => v.as_str(),
        None => "7.1.2",
    };
    let use_shadow = match config.project.use_shadow {
        Some(b) => b,
        None => true,
    };
    let use_wrapper = match config.project.use_wrapper {
        Some(b) => b,
        None => true,
    };
    proof {
        assert(gradle_ver@ == effective_gradle_version(*config));
        assert(shadow_ver@ == effective_shadow_version(*config));
        assert(use_shadow == effective_use_shadow(*config));
        assert(use_wrapper == effective_use_wrapper(*config));
    }
    let mut plan = WorkspacePlan::new();
    setup_gradle_directories(&mut plan);
    match setup_source_files(config, units, &mut plan) {
        Ok(_) => {},
        Err(e) => {
            return Err(e);
        },
    }
    write_gradle_config_files(config, &mut plan, shadow_ver, use_shadow);
    if use_wrapper {
        create_gradle_wrapper(&mut plan, gradle_ver);
    }
    proof {
        assert(plan@.dirs =~= gradle_plan(*config, units@).dirs);
        assert(plan@.files =~= gradle_plan(*config, units@).files);
        assert(plan@ =~= gradle_plan(*config, units@));
    }
    Ok(plan)
}

// ---------------------------------------------------------------------
// Laws
// ---------------------------------------------------------------------

/// Idempotence: one descriptor and source tree admit exactly one planned
/// workspace, so materializing twice with unchanged inputs produces
/// byte-identical directories, paths and file contents.
pub proof fn lemma_materialize_idempotent(
    c: Config,
    units: Seq<CompilationUnit>,
    p1: WorkspacePlanView,
    p2: WorkspacePlanView,
)
    requires
        p1 == gradle_plan(c, units),
        p2 == gradle_plan(c, units),
    ensures
        p1 == p2,
{
}

/// The namespace invariant: a planned unit's file lives in the directory
/// whose segments under the Java source root read back as exactly its
/// target namespace's components, and its rewritten text begins with the
/// declaration of that same namespace.
pub proof fn lemma_namespace_invariant(base: Seq<char>, u: CompilationUnit)
    requires
        forall|i: int, j: int|
            0 <= i < u.rel_dirs.deep_view().len() && 0 <= j < u.rel_dirs.deep_view()[i].len()
                ==> #[trigger] u.rel_dirs.deep_view()[i][j] != '.',
    ensures
        unit_action(base, u).path == (java_root() + split_char(
            namespace_of(base, u.rel_dirs.deep_view()),
            '.',
        )).push(u.file_name@),
        unit_action(base, u).content.len() >= declaration_of(
            namespace_of(base, u.rel_dirs.deep_view()),
        ).len(),
        unit_action(base, u).content.take(
            declaration_of(namespace_of(base, u.rel_dirs.deep_view())).len() as int,
        ) == declaration_of(namespace_of(base, u.rel_dirs.deep_view())),
{
    let ns = namespace_of(base, u.rel_dirs.deep_view());
    crate::rewrite::lemma_namespace_components(base, u.rel_dirs.deep_view());
    assert(unit_dir(base, u) =~= java_root() + split_char(ns, '.'));
    assert(unit_action(base, u).path =~= (java_root() + split_char(ns, '.')).push(u.file_name@));
    crate::rewrite::lemma_rewritten_declares(u.content@, ns);
}

/// The namespace invariant holds of the plan itself: the file the plan
/// holds for the unit at position `i` is exactly that unit's planned
/// action, so its path and its leading declaration are the ones
/// `lemma_namespace_invariant` describes.
pub proof fn lemma_plan_holds_namespace_invariant(
    c: Config,
    units: Seq<CompilationUnit>,
    i: int,
)
    requires
        0 <= i < units.len(),
    ensures
        gradle_plan(c, units).files[i] == unit_action(c.project.base_namespace@, units[i]),
        gradle_plan(c, units).dirs[2 + i] == unit_dir(c.project.base_namespace@, units[i]),
{
    assert(gradle_plan(c, units).files[i] == unit_files_planned(c.project.base_namespace@, units)[i]);
    assert(gradle_plan(c, units).dirs[2 + i] == unit_dirs_planned(c.project.base_namespace@, units)[i]);
}

/// Deterministic descriptor ordering: dependency lists presenting the
/// same coordinates — whatever order a map hands them out in — render a
/// byte-identical dependencies block.
pub proof fn lemma_deterministic_dependency_order(d1: Seq<Dependency>, d2: Seq<Dependency>)
    requires
        dep_coords(d1).to_multiset() == dep_coords(d2).to_multiset(),
    ensures
        gradle_dependencies_text(d1) == gradle_dependencies_text(d2),
{
    lemma_sorted_coords_deterministic(d1, d2);
}

/// Feature-flag orthogonality: the build.gradle text with the fat-archive
/// flag off is head, plugins and body; with the flag on it is the same
/// head, plugins and body with exactly the shadow plugin line spliced
/// into the plugins block and the shadowJar block appended. Entry point,
/// dependencies and test scaffolding — all inside the shared body — are
/// untouched by the flag.
pub proof fn lemma_shadow_flag_orthogonal(
    name: Seq<char>,
    version: Seq<char>,
    base_ns: Seq<char>,
    main_class: Seq<char>,
    deps: Seq<Dependency>,
    shadow_ver: Seq<char>,
)
    ensures
        build_gradle_text(name, version, base_ns, main_class, deps, shadow_ver, false)
            == "plugins {\n"@ + plugins_base_text() + build_gradle_body(
            name,
            version,
            base_ns,
            main_class,
            deps,
        ),
        build_gradle_text(name, version, base_ns, main_class, deps, shadow_ver, true) == "plugins {\n"@
            + plugins_base_text() + "\n"@ + shadow_plugin_line(shadow_ver) + build_gradle_body(
            name,
            version,
            base_ns,
            main_class,
            deps,
        ) + shadow_jar_text(),
{
    let body = build_gradle_body(name, version, base_ns, main_class, deps);
    assert(build_gradle_text(name, version, base_ns, main_class, deps, shadow_ver, false)
        =~= "plugins {\n"@ + plugins_base_text() + body);
    assert(build_gradle_text(name, version, base_ns, main_class, deps, shadow_ver, true)
        =~= "plugins {\n"@ + plugins_base_text() + "\n"@ + shadow_plugin_line(shadow_ver) + body
        + shadow_jar_text());
}

} // verus!
