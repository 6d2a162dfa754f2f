//! The workspace layout builder: places each rewritten compilation unit
//! under a backend's source root, in the directory derived from its
//! target namespace. Shared by every backend; only the backend's root
//! directory name differs.

use vstd::prelude::*;
use crate::config::Config;
use crate::plan::{FileAction, FileActionView, WorkspacePlan, MalformedSourceError};
use crate::rewrite::{
    namespace_of, rewritten, malformed, target_namespace, rewrite_content, CompilationUnit,
};
use crate::text::split_char;

verus! {

/// A backend's Java source root: its workspace directory, then the fixed
/// `src/main/java` convention.
pub open spec fn java_root_under(root: Seq<char>) -> Seq<Seq<char>> {
    seq![root, "src"@, "main"@, "java"@]
}

/// Where a unit's rewritten file lives: the backend's Java source root,
/// then the base namespace's components, then the unit's own directory
/// segments.
pub open spec fn unit_dir_under(root: Seq<char>, base: Seq<char>, u: CompilationUnit) -> Seq<
    Seq<char>,
> {
    java_root_under(root) + split_char(base, '.') + u.rel_dirs.deep_view()
}

/// The planned write of one rewritten unit.
pub open spec fn unit_action_under(
    root: Seq<char>,
    base: Seq<char>,
    u: CompilationUnit,
) -> FileActionView {
    FileActionView {
        path: unit_dir_under(root, base, u).push(u.file_name@),
        content: rewritten(u.content@, namespace_of(base, u.rel_dirs.deep_view())),
        executable: false,
    }
}

/// The per-unit directories, in unit order.
pub open spec fn unit_dirs_planned_under(
    root: Seq<char>,
    base: Seq<char>,
    units: Seq<CompilationUnit>,
) -> Seq<Seq<Seq<char>>> {
    units.map_values(|u: CompilationUnit| unit_dir_under(root, base, u))
}

/// The per-unit file writes, in unit order.
pub open spec fn unit_files_planned_under(
    root: Seq<char>,
    base: Seq<char>,
    units: Seq<CompilationUnit>,
) -> Seq<FileActionView> {
    units.map_values(|u: CompilationUnit| unit_action_under(root, base, u))
}

/// True when some unit's text is malformed.
pub open spec fn any_malformed(units: Seq<CompilationUnit>) -> bool {
    exists|i: int| 0 <= i < units.len() && malformed(units[i].content@)
}

/// The position of the first malformed unit, or `units.len()` when every
/// unit is sound.
pub open spec fn first_malformed(units: Seq<CompilationUnit>) -> int
    decreases units.len(),
{
    if units.len() == 0 {
        0
    } else if malformed(units.first().content@) {
        0
    } else {
        1 + first_malformed(units.drop_first())
    }
}

proof fn lemma_first_malformed_scan(units: Seq<CompilationUnit>, i: int)
    requires
        0 <= i <= units.len(),
        forall|j: int| 0 <= j < i ==> !malformed(#[trigger] units[j].content@),
        i < units.len() ==> malformed(units[i].content@),
    ensures
        first_malformed(units) == if i < units.len() {
            i
        } else {
            units.len() as int
        },
    decreases i,
{
    if units.len() > 0 {
        if i == 0 {
        } else {
            assert(!malformed(units[0].content@));
            assert(forall|j: int|
                0 <= j < i - 1 ==> !malformed(#[trigger] units.drop_first()[j].content@));
            lemma_first_malformed_scan(units.drop_first(), i - 1);
        }
    }
}

/// Appends clones of all of `src` to `dst`.
fn extend_strings(dst: &mut Vec<String>, src: &Vec<String>)
    ensures
        final(dst).deep_view() == old(dst).deep_view() + src.deep_view(),
{
    let n = src.len();
    proof {
        assert(dst.deep_view() =~= old(dst).deep_view() + src.deep_view().take(0));
    }
    for i in 0..n
        invariant
            n == src.len(),
            dst.deep_view() == old(dst).deep_view() + src.deep_view().take(i as int),
    {
        let ghost before = dst.deep_view();
        dst.push(src[i].clone());
        proof {
            assert(dst.deep_view() =~= before.push(src.deep_view()[i as int]));
            assert(old(dst).deep_view() + src.deep_view().take(i + 1) =~= before.push(
                src.deep_view()[i as int],
            ));
        }
    }
    proof {
        assert(src.deep_view().take(n as int) =~= src.deep_view());
    }
}

/// Builds the directory path a unit's rewritten file belongs in.
fn unit_dir_path(root: &str, base: &str, u: &CompilationUnit) -> (r: Vec<String>)
    ensures
        r.deep_view() == unit_dir_under(root@, base@, *u),
{
    let mut path: Vec<String> = Vec::new();
    path.push(String::from_str(root));
    path.push(String::from_str("src"));
    path.push(String::from_str("main"));
    path.push(String::from_str("java"));
    proof {
        assert(path.deep_view() =~= java_root_under(root@));
    }
    let base_segs = crate::text::split_string(base, '.');
    extend_strings(&mut path, &base_segs);
    extend_strings(&mut path, &u.rel_dirs);
    proof {
        assert(path.deep_view() =~= unit_dir_under(root@, base@, *u));
    }
    path
}

/// Plans the placement of every compilation unit under the given backend
/// root: for each unit, in order, its namespace-derived directory and its
/// rewritten file. Stops at the first malformed unit, naming it; the
/// units before it stay planned (their output would already be on disk),
/// and the malformed unit contributes its directory but no file.
pub fn place_source_files(
    root: &str,
    config: &Config,
    units: &Vec<CompilationUnit>,
    plan: &mut WorkspacePlan,
) -> (r: Result<(), MalformedSourceError>)
    ensures
        r is Ok <==> !any_malformed(units@),
        r is Ok ==> final(plan)@.dirs == old(plan)@.dirs + unit_dirs_planned_under(
            root@,
            config.project.base_namespace@,
            units@,
        ) && final(plan)@.files == old(plan)@.files + unit_files_planned_under(
            root@,
            config.project.base_namespace@,
            units@,
        ),
        r matches Err(e) ==> e.file@ == units@[first_malformed(units@)].file_name@ && final(
            plan
        )@.dirs == old(plan)@.dirs + unit_dirs_planned_under(
            root@,
            config.project.base_namespace@,
            units@.take(first_malformed(units@) + 1),
        ) && final(plan)@.files == old(plan)@.files + unit_files_planned_under(
            root@,
            config.project.base_namespace@,
            units@.take(first_malformed(units@)),
        ),
{
    let ghost base = config.project.base_namespace@;
    let n = units.len();
    proof {
        assert(units@.take(0) =~= Seq::<CompilationUnit>::empty());
        assert(unit_dirs_planned_under(root@, base, units@.take(0)) =~= Seq::<
            Seq<Seq<char>>,
        >::empty());
        assert(unit_files_planned_under(root@, base, units@.take(0)) =~= Seq::<
            FileActionView,
        >::empty());
        assert(plan@.dirs =~= old(plan)@.dirs + unit_dirs_planned_under(
            root@,
            base,
            units@.take(0),
        ));
        assert(plan@.files =~= old(plan)@.files + unit_files_planned_under(
            root@,
            base,
            units@.take(0),
        ));
    }
    for i in 0..n
        invariant
            n == units.len(),
            base == config.project.base_namespace@,
            forall|j: int| 0 <= j < i ==> !malformed(#[trigger] units@[j].content@),
            plan@.dirs == old(plan)@.dirs + unit_dirs_planned_under(
                root@,
                base,
                units@.take(i as int),
            ),
            plan@.files == old(plan)@.files + unit_files_planned_under(
                root@,
                base,
                units@.take(i as int),
            ),
    {
        let u = &units[i];
        let dpath = unit_dir_path(root, config.project.base_namespace.as_str(), u);
        plan.push_dir(dpath);
        proof {
            assert(unit_dirs_planned_under(root@, base, units@.take(i + 1))
                =~= unit_dirs_planned_under(root@, base, units@.take(i as int)).push(
                unit_dir_under(root@, base, units@[i as int]),
            ));
            assert(plan@.dirs =~= old(plan)@.dirs + unit_dirs_planned_under(
                root@,
                base,
                units@.take(i + 1),
            ));
        }
        let ns = target_namespace(config.project.base_namespace.as_str(), &u.rel_dirs);
        match rewrite_content(u.content.as_str(), ns.as_str()) {
            Some(new_content) => {
                let mut fpath = unit_dir_path(root, config.project.base_namespace.as_str(), u);
                fpath.push(u.file_name.clone());
                let action = FileAction { path: fpath, content: new_content, executable: false };
                proof {
                    assert(action@.path =~= unit_dir_under(root@, base, units@[i as int]).push(
                        units@[i as int].file_name@,
                    ));
                    assert(action@ =~= unit_action_under(root@, base, units@[i as int]));
                }
                plan.push_file(action);
                proof {
                    assert(unit_files_planned_under(root@, base, units@.take(i + 1))
                        =~= unit_files_planned_under(root@, base, units@.take(i as int)).push(
                        unit_action_under(root@, base, units@[i as int]),
                    ));
                    assert(plan@.files =~= old(plan)@.files + unit_files_planned_under(
                        root@,
                        base,
                        units@.take(i + 1),
                    ));
                }
            },
            None => {
                proof {
                    lemma_first_malformed_scan(units@, i as int);
                }
                return Err(MalformedSourceError { file: u.file_name.clone() });
            },
        }
    }
    proof {
        assert(units@.take(n as int) =~= units@);
    }
    Ok(())
}

} // verus!
