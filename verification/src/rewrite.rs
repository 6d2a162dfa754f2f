//! The namespace rewriter: computes a compilation unit's target namespace
//! from the base namespace and the unit's directory segments, and rewrites
//! the unit's namespace declaration to match.

use vstd::prelude::*;
use crate::text::{
    contains_seq, contains_str, find_char, first_index_of, split_char,
};

verus! {

/// One source file to be relocated and rewritten: its directory segments
/// relative to the source root, its file name, and its raw text.
pub struct CompilationUnit {
    pub rel_dirs: Vec<String>,
    pub file_name: String,
    pub content: String,
}

/// Joins namespace components: the base namespace followed by one extra
/// dot-separated component per directory segment.
pub open spec fn namespace_of(base: Seq<char>, dirs: Seq<Seq<char>>) -> Seq<char>
    decreases dirs.len(),
{
    if dirs.len() == 0 {
        base
    } else {
        namespace_of(base, dirs.drop_last()) + "."@ + dirs.last()
    }
}

/// Computes the target namespace for a compilation unit found under the
/// given directory segments.
pub fn target_namespace(base: &str, dirs: &Vec<String>) -> (r: String)
    ensures
        r@ == namespace_of(base@, dirs.deep_view()),
{
    let mut out = base.to_owned();
    let n = dirs.len();
    for i in 0..n
        invariant
            n == dirs.len(),
            out@ == namespace_of(base@, dirs.deep_view().take(i as int)),
    {
        out.append(".");
        out.append(dirs[i].as_str());
        proof {
            assert(dirs.deep_view().take(i + 1).drop_last() =~= dirs.deep_view().take(i as int));
            assert(dirs.deep_view().take(i + 1).last() == dirs.deep_view()[i as int]);
        }
    }
    proof {
        assert(dirs.deep_view().take(n as int) =~= dirs.deep_view());
    }
    out
}

/// The namespace declaration statement for `ns`.
pub open spec fn declaration_of(ns: Seq<char>) -> Seq<char> {
    "package "@ + ns + ";"@
}

/// True when the text carries a namespace declaration.
pub open spec fn has_declaration(c: Seq<char>) -> bool {
    contains_seq(c, "package "@)
}

/// Text is malformed when it declares a namespace but the declaration's
/// terminator is nowhere to be found.
pub open spec fn malformed(c: Seq<char>) -> bool {
    has_declaration(c) && first_index_of(c, ';') == c.len()
}

/// The rewritten text: the declaration for `ns`, followed by everything
/// after the original declaration's terminator — or by the whole original
/// text when no declaration was present.
pub open spec fn rewritten(c: Seq<char>, ns: Seq<char>) -> Seq<char> {
    if has_declaration(c) {
        declaration_of(ns) + c.skip(first_index_of(c, ';') + 1)
    } else {
        declaration_of(ns) + c
    }
}

/// Rewrites a unit's namespace declaration to declare `ns`, preserving
/// everything after the original declaration's terminator byte-for-byte.
/// Returns `None` exactly when the text is malformed.
pub fn rewrite_content(content: &str, ns: &str) -> (r: Option<String>)
    ensures
        r is None <==> malformed(content@),
        r matches Some(s) ==> s@ == rewritten(content@, ns@),
{
    let has = contains_str(content, "package ");
    let mut out = String::from_str("package ");
    out.append(ns);
    out.append(";");
    if has {
        match find_char(content, ';') {
            Some(i) => {
                let n = content.unicode_len();
                let rest = content.substring_char(i + 1, n);
                out.append(rest);
                proof {
                    assert(content@.skip(first_index_of(content@, ';') + 1) =~= content@.subrange(
                        i + 1,
                        content@.len() as int,
                    ));
                }
                Some(out)
            },
            None => None,
        }
    } else {
        out.append(content);
        Some(out)
    }
}

/// The rewritten text always begins with the declaration of `ns`.
pub proof fn lemma_rewritten_declares(c: Seq<char>, ns: Seq<char>)
    ensures
        rewritten(c, ns).len() >= declaration_of(ns).len(),
        rewritten(c, ns).take(declaration_of(ns).len() as int) == declaration_of(ns),
{
    let d = declaration_of(ns);
    if has_declaration(c) {
        assert((d + c.skip(first_index_of(c, ';') + 1)).take(d.len() as int) =~= d);
    } else {
        assert((d + c).take(d.len() as int) =~= d);
    }
}

proof fn lemma_split_append_nosep(s: Seq<char>, t: Seq<char>, sep: char)
    requires
        forall|i: int| 0 <= i < t.len() ==> t[i] != sep,
    ensures
        split_char(s + t, sep) == split_char(s, sep).update(
            split_char(s, sep).len() - 1,
            split_char(s, sep).last() + t,
        ),
    decreases t.len(),
{
    crate::text::lemma_split_char_len(s, sep);
    let r = split_char(s, sep);
    if t.len() == 0 {
        assert(s + t =~= s);
        assert(r.last() + t =~= r.last());
        assert(r.update(r.len() - 1, r.last() + t) =~= r);
    } else {
        assert(forall|i: int| 0 <= i < t.drop_last().len() ==> t.drop_last()[i] != sep);
        lemma_split_append_nosep(s, t.drop_last(), sep);
        let r1 = split_char(s + t.drop_last(), sep);
        assert((s + t).drop_last() =~= s + t.drop_last());
        assert((s + t).last() == t.last());
        assert(t.last() != sep);
        assert(split_char(s + t, sep) == r1.update(r1.len() - 1, r1.last().push(t.last())));
        assert(r1 == r.update(r.len() - 1, r.last() + t.drop_last()));
        assert(r1.len() == r.len());
        assert(r1.last() == r.last() + t.drop_last());
        assert((r.last() + t.drop_last()).push(t.last()) =~= r.last() + t);
        assert(r1.update(r1.len() - 1, r1.last().push(t.last())) =~= r.update(
            r.len() - 1,
            r.last() + t,
        ));
    }
}

proof fn lemma_split_namespace_step(a: Seq<char>, seg: Seq<char>)
    requires
        forall|i: int| 0 <= i < seg.len() ==> seg[i] != '.',
    ensures
        split_char(a + "."@ + seg, '.') == split_char(a, '.').push(seg),
{
    reveal_strlit(".");
    assert("."@ =~= seq!['.']);
    assert(a + "."@ =~= a.push('.'));
    assert(a.push('.').drop_last() =~= a);
    assert(split_char(a.push('.'), '.') == split_char(a, '.').push(Seq::<char>::empty()));
    lemma_split_append_nosep(a.push('.'), seg, '.');
    assert(a + "."@ + seg =~= a.push('.') + seg);
    let r = split_char(a, '.').push(Seq::<char>::empty());
    assert(r.last() + seg =~= seg);
    assert(r.update(r.len() - 1, seg) =~= split_char(a, '.').push(seg));
}

/// Reading a materialized namespace back as components: the base
/// namespace's components followed by exactly the directory segments the
/// unit came from, provided no segment contains a dot.
pub proof fn lemma_namespace_components(base: Seq<char>, dirs: Seq<Seq<char>>)
    requires
        forall|i: int, j: int|
            0 <= i < dirs.len() && 0 <= j < dirs[i].len() ==> #[trigger] dirs[i][j] != '.',
    ensures
        split_char(namespace_of(base, dirs), '.') == split_char(base, '.') + dirs,
    decreases dirs.len(),
{
    if dirs.len() == 0 {
        assert(split_char(base, '.') + dirs =~= split_char(base, '.'));
    } else {
        lemma_namespace_components(base, dirs.drop_last());
        lemma_split_namespace_step(namespace_of(base, dirs.drop_last()), dirs.last());
        assert((split_char(base, '.') + dirs.drop_last()).push(dirs.last()) =~= split_char(
            base,
            '.',
        ) + dirs);
    }
}

} // verus!
