//! The Maven backend: renders pom.xml from the project descriptor and
//! plans the Maven workspace layout with the rewritten units. Dependency
//! entries follow the same canonical order as the Gradle backend.

use vstd::prelude::*;
use crate::config::{Config, Dependency};
use crate::deps::{
    sorted_coords, sorted_valid_coordinates, lemma_sorted_coords_deterministic,
    lemma_sorted_coords_empty, lemma_sorted_coords_valid, dep_coords, valid_coord,
};
use crate::gradle::dep_list;
use crate::plan::{FileAction, FileActionView, WorkspacePlan, WorkspacePlanView, MalformedSourceError};
use crate::rewrite::CompilationUnit;
use crate::layout::{
    java_root_under, unit_dirs_planned_under, unit_files_planned_under, any_malformed,
    first_malformed, place_source_files,
};
use crate::text::{join_with, join_strings, split_char, split_string};

verus! {

/// One rendered dependency block: the coordinate's three segments as
/// group, artifact and version.
pub open spec fn maven_dep_block(coord: Seq<char>) -> Seq<char> {
    let parts = split_char(coord, ':');
    "\n    <dependency>\n        <groupId>"@ + parts[0] + "</groupId>\n        <artifactId>"@
        + parts[1] + "</artifactId>\n        <version>"@ + parts[2]
        + "</version>\n    </dependency>"@
}

/// The rendered dependency blocks, in canonical order.
pub open spec fn maven_dep_blocks(deps: Seq<Dependency>) -> Seq<Seq<char>> {
    sorted_coords(deps).map_values(|c: Seq<char>| maven_dep_block(c))
}

/// The dependencies section body: one block per well-formed coordinate,
/// sorted lexicographically, joined by newlines.
pub open spec fn maven_dependencies_text(deps: Seq<Dependency>) -> Seq<char> {
    join_with(maven_dep_blocks(deps), "\n"@)
}

/// Renders the pom.xml dependencies section: a `<dependency>` block per
/// well-formed coordinate, sorted lexicographically; entries that do not
/// split into exactly group, artifact and version are skipped.
pub fn generate_maven_dependencies(dependencies: &Option<Vec<Dependency>>) -> (r: String)
    ensures
        r@ == maven_dependencies_text(dep_list(*dependencies)),
{
    match dependencies {
        None => {
            proof {
                lemma_sorted_coords_empty();
                assert(maven_dep_blocks(dep_list(*dependencies)) =~= Seq::<Seq<char>>::empty());
            }
            String::new()
        },
        Some(v) => {
            let coords = sorted_valid_coordinates(v);
            proof {
                lemma_sorted_coords_valid(v@);
            }
            let mut blocks: Vec<String> = Vec::new();
            let n = coords.len();
            proof {
                assert(blocks.deep_view() =~= sorted_coords(v@).take(0).map_values(
                    |c: Seq<char>| maven_dep_block(c),
                ));
            }
            for i in 0..n
                invariant
                    n == coords.len(),
                    coords.deep_view() == sorted_coords(v@),
                    forall|j: int|
                        0 <= j < sorted_coords(v@).len() ==> valid_coord(
                            #[trigger] sorted_coords(v@)[j],
                        ),
                    blocks.deep_view() == sorted_coords(v@).take(i as int).map_values(
                        |c: Seq<char>| maven_dep_block(c),
                    ),
            {
                let parts = split_string(coords[i].as_str(), ':');
                proof {
                    assert(coords.deep_view()[i as int] == coords@[i as int]@);
                    assert(parts.deep_view() == split_char(sorted_coords(v@)[i as int], ':'));
                    assert(valid_coord(sorted_coords(v@)[i as int]));
                    assert(parts.deep_view().len() == 3);
                }
                let mut b = String::from_str("\n    <dependency>\n        <groupId>");
                b.append(parts[0].as_str());
                b.append("</groupId>\n        <artifactId>");
                b.append(parts[1].as_str());
                b.append("</artifactId>\n        <version>");
                b.append(parts[2].as_str());
                b.append("</version>\n    </dependency>");
                let ghost before = blocks.deep_view();
                proof {
                    assert(parts.deep_view()[0] == parts@[0]@);
                    assert(parts.deep_view()[1] == parts@[1]@);
                    assert(parts.deep_view()[2] == parts@[2]@);
                    assert(b@ == maven_dep_block(sorted_coords(v@)[i as int]));
                }
                blocks.push(b);
                proof {
                    assert(blocks.deep_view() =~= before.push(b@));
                    assert(blocks.deep_view() =~= sorted_coords(v@).take(i + 1).map_values(
                        |c: Seq<char>| maven_dep_block(c),
                    ));
                }
            }
            proof {
                assert(sorted_coords(v@).take(n as int) =~= sorted_coords(v@));
                assert(blocks.deep_view() =~= maven_dep_blocks(v@));
            }
            join_strings(&blocks, "\n")
        },
    }
}

/// Deterministic descriptor ordering for the Maven backend: dependency
/// lists presenting the same coordinates — whatever order a map hands
/// them out in — render a byte-identical dependencies section.
pub proof fn lemma_deterministic_dependency_order(d1: Seq<Dependency>, d2: Seq<Dependency>)
    requires
        dep_coords(d1).to_multiset() == dep_coords(d2).to_multiset(),
    ensures
        maven_dependencies_text(d1) == maven_dependencies_text(d2),
{
    lemma_sorted_coords_deterministic(d1, d2);
}

/// The whole pom.xml text.
pub open spec fn pom_text(
    name: Seq<char>,
    version: Seq<char>,
    base_ns: Seq<char>,
    main_class: Seq<char>,
    deps: Seq<Dependency>,
) -> Seq<char> {
    "\n<project xmlns=\"http://maven.apache.org/POM/4.0.0\" xmlns:xsi=\"http://www.w3.org/2001/XMLSchema-instance\"\n    xsi:schemaLocation=\"http://maven.apache.org/POM/4.0.0 http://maven.apache.org/xsd/maven-4.0.0.xsd\">\n    <modelVersion>4.0.0</modelVersion>\n    <groupId>"@
        + name + "</groupId>\n    <artifactId>"@ + name + "</artifactId>\n    <version>"@ + version
        + "</version>\n    <dependencies>\n"@ + maven_dependencies_text(deps)
        + "\n    </dependencies>\n    <build>\n        <plugins>\n            <plugin>\n                <groupId>org.apache.maven.plugins</groupId>\n                <artifactId>maven-compiler-plugin</artifactId>\n                <version>3.8.1</version>\n                <configuration>\n                    <source>11</source>\n                    <target>11</target>\n                </configuration>\n            </plugin>\n            <plugin>\n                <groupId>org.apache.maven.plugins</groupId>\n                <artifactId>maven-jar-plugin</artifactId>\n                <version>3.2.0</version>\n                <configuration>\n                    <archive>\n                        <manifest>\n                            <mainClass>"@
        + base_ns + "."@ + main_class
        + "</mainClass>\n                        </manifest>\n                    </archive>\n                </configuration>\n            </plugin>\n            <plugin>\n                <groupId>org.apache.maven.plugins</groupId>\n                <artifactId>maven-shade-plugin</artifactId>\n                <version>3.2.4</version>\n                <executions>\n                    <execution>\n                        <phase>package</phase>\n                        <goals>\n                            <goal>shade</goal>\n                        </goals>\n                        <configuration>\n                            <createDependencyReducedPom>false</createDependencyReducedPom>\n                            <transformers>\n                                <transformer implementation=\"org.apache.maven.plugins.shade.resource.ManifestResourceTransformer\">\n                                    <mainClass>"@
        + base_ns + "."@ + main_class
        + "</mainClass>\n                                </transformer>\n                            </transformers>\n                        </configuration>\n                    </execution>\n                </executions>\n            </plugin>\n        </plugins>\n    </build>\n</project>\n"@
}

/// Idempotence for the Maven backend: one descriptor and source tree
/// admit exactly one planned workspace, so materializing twice with
/// unchanged inputs produces byte-identical output.
pub proof fn lemma_materialize_idempotent(
    c: Config,
    units: Seq<CompilationUnit>,
    p1: WorkspacePlanView,
    p2: WorkspacePlanView,
)
    requires
        p1 == maven_plan(c, units),
        p2 == maven_plan(c, units),
    ensures
        p1 == p2,
{
}

/// The planned pom.xml write.
pub open spec fn pom_action(c: Config) -> FileActionView {
    FileActionView {
        path: seq!["maven"@, "pom.xml"@],
        content: pom_text(
            c.project.name@,
            c.project.version@,
            c.project.base_namespace@,
            c.project.main_class@,
            dep_list(c.dependencies),
        ),
        executable: false,
    }
}

/// Everything a Maven materialization plans: the Java source root, each
/// unit's directory; then each unit's rewritten file and pom.xml.
pub open spec fn maven_plan(c: Config, units: Seq<CompilationUnit>) -> WorkspacePlanView {
    WorkspacePlanView {
        dirs: seq![java_root_under("maven"@)] + unit_dirs_planned_under(
            "maven"@,
            c.project.base_namespace@,
            units,
        ),
        files: unit_files_planned_under("maven"@, c.project.base_namespace@, units) + seq![
            pom_action(c),
        ],
    }
}

/// Plans the whole Maven workspace for a descriptor and its source
/// units: layout, rewritten sources and pom.xml. Fails exactly when some
/// unit is malformed, naming the first one.
pub fn setup_maven_project(config: &Config, units: &Vec<CompilationUnit>) -> (r: Result<
    WorkspacePlan,
    MalformedSourceError,
>)
    ensures
        r is Ok <==> !any_malformed(units@),
        r matches Ok(p) ==> p@ == maven_plan(*config, units@),
        r matches Err(e) ==> e.file@ == units@[first_malformed(units@)].file_name@,
{
    let mut plan = WorkspacePlan::new();
    let mut d: Vec<String> = Vec::new();
    d.push(String::from_str("maven"));
    d.push(String::from_str("src"));
    d.push(String::from_str("main"));
    d.push(String::from_str("java"));
    proof {
        assert(d.deep_view() =~= java_root_under("maven"@));
    }
    plan.push_dir(d);
    match place_source_files("maven", config, units, &mut plan) {
        Ok(_) => {},
        Err(e) => {
            return Err(e);
        },
    }

    let deps_text = generate_maven_dependencies(&config.dependencies);
    let mut p = String::from_str(
        "\n<project xmlns=\"http://maven.apache.org/POM/4.0.0\" xmlns:xsi=\"http://www.w3.org/2001/XMLSchema-instance\"\n    xsi:schemaLocation=\"http://maven.apache.org/POM/4.0.0 http://maven.apache.org/xsd/maven-4.0.0.xsd\">\n    <modelVersion>4.0.0</modelVersion>\n    <groupId>",
    );
    p.append(config.project.name.as_str());
    p.append("</groupId>\n    <artifactId>");
    p.append(config.project.name.as_str());
    p.append("</artifactId>\n    <version>");
    p.append(config.project.version.as_str());
    p.append("</version>\n    <dependencies>\n");
    p.append(deps_text.as_str());
    p.append(
        "\n    </dependencies>\n    <build>\n        <plugins>\n            <plugin>\n                <groupId>org.apache.maven.plugins</groupId>\n                <artifactId>maven-compiler-plugin</artifactId>\n                <version>3.8.1</version>\n                <configuration>\n                    <source>11</source>\n                    <target>11</target>\n                </configuration>\n            </plugin>\n            <plugin>\n                <groupId>org.apache.maven.plugins</groupId>\n                <artifactId>maven-jar-plugin</artifactId>\n                <version>3.2.0</version>\n                <configuration>\n                    <archive>\n                        <manifest>\n                            <mainClass>",
    );
    p.append(config.project.base_namespace.as_str());
    p.append(".");
    p.append(config.project.main_class.as_str());
    p.append(
        "</mainClass>\n                        </manifest>\n                    </archive>\n                </configuration>\n            </plugin>\n            <plugin>\n                <groupId>org.apache.maven.plugins</groupId>\n                <artifactId>maven-shade-plugin</artifactId>\n                <version>3.2.4</version>\n                <executions>\n                    <execution>\n                        <phase>package</phase>\n                        <goals>\n                            <goal>shade</goal>\n                        </goals>\n                        <configuration>\n                            <createDependencyReducedPom>false</createDependencyReducedPom>\n                            <transformers>\n                                <transformer implementation=\"org.apache.maven.plugins.shade.resource.ManifestResourceTransformer\">\n                                    <mainClass>",
    );
    p.append(config.project.base_namespace.as_str());
    p.append(".");
    p.append(config.project.main_class.as_str());
    p.append(
        "</mainClass>\n                                </transformer>\n                            </transformers>\n                        </configuration>\n                    </execution>\n                </executions>\n            </plugin>\n        </plugins>\n    </build>\n</project>\n",
    );
    proof {
        assert(p@ =~= pom_text(
            config.project.name@,
            config.project.version@,
            config.project.base_namespace@,
            config.project.main_class@,
            dep_list(config.dependencies),
        ));
    }
    let mut ppath: Vec<String> = Vec::new();
    ppath.push(String::from_str("maven"));
    ppath.push(String::from_str("pom.xml"));
    let action = FileAction { path: ppath, content: p, executable: false };
    proof {
        assert(action@ =~= pom_action(*config));
    }
    plan.push_file(action);
    proof {
        assert(plan@.dirs =~= maven_plan(*config, units@).dirs);
        assert(plan@.files =~= maven_plan(*config, units@).files);
        assert(plan@ =~= maven_plan(*config, units@));
    }
    Ok(plan)
}

} // verus!
