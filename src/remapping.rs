use vstd::prelude::*;

use crate::text::{chars_of, extend_range, string_of};

verus! {

/// An import alias and the absolute path it stands for.
#[derive(Clone, Debug, PartialEq, Eq)]
pub struct Remapping {
    pub name: String,
    pub path: String,
}

/// A remapping as the contracts see it: its alias and its path.
pub type RemappingView = (Seq<char>, Seq<char>);

impl View for Remapping {
    type V = RemappingView;

    open spec fn view(&self) -> RemappingView {
        (self.name@, self.path@)
    }
}

/// Why a session's configuration could not be read.
#[derive(Clone, Debug, PartialEq, Eq)]
pub enum ConfigError {
    /// The alias file could not be read.
    MissingFile,
    /// The line at `index` (counted from zero) holds no `=`.
    MissingSeparator { index: usize },
    /// A remapped path does not exist.
    MissingPath { path: String },
}

pub open spec fn views(s: Seq<Remapping>) -> Seq<RemappingView> {
    s.map_values(|m: Remapping| m@)
}

/// `rel` resolved against `root`: an absolute `rel` stands as it is, otherwise the two are
/// joined by one `/`.
pub open spec fn join_path(root: Seq<char>, rel: Seq<char>) -> Seq<char> {
    if rel.len() > 0 && rel[0] == '/' {
        rel
    } else if root.len() == 0 {
        rel
    } else if root.last() == '/' {
        root + rel
    } else {
        root + seq!['/'] + rel
    }
}

/// `i` is the position of the first `=` of `line`.
pub open spec fn is_separator_at(line: Seq<char>, i: int) -> bool {
    &&& 0 <= i < line.len()
    &&& line[i] == '='
    &&& forall|j: int| 0 <= j < i ==> line[j] != '='
}

pub open spec fn has_separator(line: Seq<char>) -> bool {
    exists|i: int| is_separator_at(line, i)
}

/// The entry that a line `alias=relative` of the alias file gives.
pub open spec fn parse_entry(root: Seq<char>, line: Seq<char>) -> RemappingView {
    let i = choose|i: int| is_separator_at(line, i);
    (line.subrange(0, i), join_path(root, line.subrange(i + 1, line.len() as int)))
}

/// `s` without its entries for `name`, the others kept in order.
pub open spec fn without_alias(s: Seq<RemappingView>, name: Seq<char>) -> Seq<RemappingView>
    decreases s.len(),
{
    if s.len() == 0 {
        s
    } else {
        let rest = without_alias(s.drop_last(), name);
        if s.last().0 == name {
            rest
        } else {
            rest.push(s.last())
        }
    }
}

/// `e` replaces every entry of `s` with its alias, and comes last.
pub open spec fn override_with(s: Seq<RemappingView>, e: RemappingView) -> Seq<RemappingView> {
    without_alias(s, e.0).push(e)
}

/// `entries` applied to `s` in order.
pub open spec fn override_all(s: Seq<RemappingView>, entries: Seq<RemappingView>) -> Seq<
    RemappingView,
>
    decreases entries.len(),
{
    if entries.len() == 0 {
        s
    } else {
        override_with(override_all(s, entries.drop_last()), entries.last())
    }
}

/// `line` with one trailing carriage return removed.
pub open spec fn strip_cr(line: Seq<char>) -> Seq<char> {
    if line.len() > 0 && line.last() == '\r' {
        line.drop_last()
    } else {
        line
    }
}

/// The lines of `s` ended so far by a line feed (without their line ending), and the
/// characters after the last line feed.
pub open spec fn line_state(s: Seq<char>) -> (Seq<Seq<char>>, Seq<char>)
    decreases s.len(),
{
    if s.len() == 0 {
        (seq![], seq![])
    } else {
        let prev = line_state(s.drop_last());
        if s.last() == '\n' {
            (prev.0.push(strip_cr(prev.1)), seq![])
        } else {
            (prev.0, prev.1.push(s.last()))
        }
    }
}

/// The lines of `s`: split at each `\n` or `\r\n`; a last line feed ends the last line
/// and opens none.
pub open spec fn lines(s: Seq<char>) -> Seq<Seq<char>> {
    let st = line_state(s);
    if st.1.len() == 0 {
        st.0
    } else {
        st.0.push(st.1)
    }
}

/// Every line of `text` holds a `=`.
pub open spec fn all_lines_parse(text: Seq<char>) -> bool {
    forall|k: int| 0 <= k < lines(text).len() ==> has_separator(#[trigger] lines(text)[k])
}

/// `k` is the first line of `text` without a `=`.
pub open spec fn is_first_bad_line(text: Seq<char>, k: int) -> bool {
    &&& 0 <= k < lines(text).len()
    &&& !has_separator(lines(text)[k])
    &&& forall|j: int| 0 <= j < k ==> has_separator(#[trigger] lines(text)[j])
}

/// The entries of `s` with alias `name`, in order.
pub open spec fn entries_for(s: Seq<RemappingView>, name: Seq<char>) -> Seq<RemappingView>
    decreases s.len(),
{
    if s.len() == 0 {
        s
    } else {
        let rest = entries_for(s.drop_last(), name);
        if s.last().0 == name {
            rest.push(s.last())
        } else {
            rest
        }
    }
}

proof fn lemma_entries_for_push(s: Seq<RemappingView>, e: RemappingView, name: Seq<char>)
    ensures
        entries_for(s.push(e), name) == (if e.0 == name {
            entries_for(s, name).push(e)
        } else {
            entries_for(s, name)
        }),
{
    assert(s.push(e).drop_last() =~= s);
}

proof fn lemma_without_same(s: Seq<RemappingView>, name: Seq<char>)
    ensures
        entries_for(without_alias(s, name), name).len() == 0,
    decreases s.len(),
{
    if s.len() > 0 {
        lemma_without_same(s.drop_last(), name);
        if s.last().0 != name {
            lemma_entries_for_push(without_alias(s.drop_last(), name), s.last(), name);
        }
    }
}

proof fn lemma_without_other(s: Seq<RemappingView>, other: Seq<char>, name: Seq<char>)
    requires
        other != name,
    ensures
        entries_for(without_alias(s, other), name) == entries_for(s, name),
    decreases s.len(),
{
    if s.len() > 0 {
        lemma_without_other(s.drop_last(), other, name);
        if s.last().0 != other {
            lemma_entries_for_push(without_alias(s.drop_last(), other), s.last(), name);
        }
    }
}

proof fn lemma_override_all_last(s: Seq<RemappingView>, es: Seq<RemappingView>, k: int)
    requires
        0 <= k < es.len(),
        forall|j: int| k < j < es.len() ==> es[j].0 != es[k].0,
    ensures
        entries_for(override_all(s, es), es[k].0) == seq![es[k]],
    decreases es.len(),
{
    let name = es[k].0;
    let prev = override_all(s, es.drop_last());
    lemma_entries_for_push(without_alias(prev, es.last().0), es.last(), name);
    if k == es.len() - 1 {
        lemma_without_same(prev, name);
        assert(entries_for(without_alias(prev, name), name) =~= Seq::<RemappingView>::empty());
        assert(entries_for(override_all(s, es), name) =~= seq![es[k]]);
    } else {
        lemma_override_all_last(s, es.drop_last(), k);
        lemma_without_other(prev, es.last().0, name);
    }
}

/// An alias that the alias file names has exactly one entry in the resolved set: the
/// one of the last line that names it, its path resolved against the root, whatever the
/// defaults held for that alias.
pub proof fn lemma_file_entry_overrides(
    root: Seq<char>,
    defaults: Seq<RemappingView>,
    text: Seq<char>,
    k: int,
)
    requires
        0 <= k < lines(text).len(),
        forall|j: int|
            k < j < lines(text).len() ==> parse_entry(root, #[trigger] lines(text)[j]).0
                != parse_entry(root, lines(text)[k]).0,
    ensures
        entries_for(resolved(root, defaults, text), parse_entry(root, lines(text)[k]).0)
            == seq![parse_entry(root, lines(text)[k])],
{
    let es = file_entries(root, text);
    assert forall|j: int| k < j < es.len() implies es[j].0 != es[k].0 by {
        assert(es[j] == parse_entry(root, lines(text)[j]));
    }
    lemma_override_all_last(defaults, es, k);
}

/// The entries that the lines of the alias file `text` give, in line order.
pub open spec fn file_entries(root: Seq<char>, text: Seq<char>) -> Seq<RemappingView> {
    lines(text).map_values(|l: Seq<char>| parse_entry(root, l))
}

/// The remapping set resolved from `defaults` and the alias file `text`.
pub open spec fn resolved(
    root: Seq<char>,
    defaults: Seq<RemappingView>,
    text: Seq<char>,
) -> Seq<RemappingView> {
    override_all(defaults, file_entries(root, text))
}

/// The lines of `text`, each without its line ending.
pub(crate) fn split_lines(text: &[char]) -> (r: Vec<Vec<char>>)
    ensures
        r@.map_values(|l: Vec<char>| l@) == lines(text@),
{
    let mut done: Vec<Vec<char>> = Vec::new();
    let mut current: Vec<char> = Vec::new();
    let mut i: usize = 0;
    while i < text.len()
        invariant
            0 <= i <= text@.len(),
            done@.map_values(|l: Vec<char>| l@) == line_state(text@.subrange(0, i as int)).0,
            current@ == line_state(text@.subrange(0, i as int)).1,
        decreases text@.len() - i,
    {
        let c = text[i];
        let ghost prefix = text@.subrange(0, i as int);
        assert(text@.subrange(0, i + 1 as int).drop_last() =~= prefix);
        if c == '\n' {
            let ghost before = current@;
            if current.len() > 0 && current[current.len() - 1] == '\r' {
                current.pop();
            }
            assert(current@ =~= strip_cr(before));
            done.push(current);
            current = Vec::new();
            assert(current@ =~= Seq::<char>::empty());
        } else {
            current.push(c);
        }
        i = i + 1;
        assert(done@.map_values(|l: Vec<char>| l@) =~= line_state(text@.subrange(0, i as int)).0);
    }
    assert(text@.subrange(0, i as int) =~= text@);
    if current.len() > 0 {
        done.push(current);
    }
    assert(done@.map_values(|l: Vec<char>| l@) =~= lines(text@));
    done
}

/// `rel` resolved against `root`.
pub(crate) fn join_chars(root: &[char], rel: &[char]) -> (r: Vec<char>)
    ensures
        r@ == join_path(root@, rel@),
{
    let mut out: Vec<char> = Vec::new();
    if rel.len() > 0 && rel[0] == '/' {
    } else if root.len() == 0 {
    } else {
        extend_range(&mut out, root, 0, root.len());
        if root[root.len() - 1] != '/' {
            out.push('/');
        }
    }
    extend_range(&mut out, rel, 0, rel.len());
    assert(root@.subrange(0, root@.len() as int) =~= root@);
    assert(rel@.subrange(0, rel@.len() as int) =~= rel@);
    assert(out@ =~= join_path(root@, rel@));
    out
}

/// The entry that one line `alias=relative` gives, split at its first `=`, with the
/// relative path resolved against `root`; `None` where the line holds no `=`.
pub(crate) fn parse_line(root: &[char], line: &[char]) -> (r: Option<Remapping>)
    ensures
        r is Some <==> has_separator(line@),
        r matches Some(m) ==> m@ == parse_entry(root@, line@),
{
    let mut i: usize = 0;
    while i < line.len() && line[i] != '='
        invariant
            0 <= i <= line@.len(),
            forall|j: int| 0 <= j < i ==> line@[j] != '=',
        decreases line@.len() - i,
    {
        i = i + 1;
    }
    if i == line.len() {
        assert(!has_separator(line@)) by {
            if exists|k: int| is_separator_at(line@, k) {
                let k = choose|k: int| is_separator_at(line@, k);
                assert(line@[k] != '=');
            }
        }
        return None;
    }
    assert(is_separator_at(line@, i as int));
    assert forall|k: int| is_separator_at(line@, k) implies k == i by {
        if k < i {
            assert(line@[k] != '=');
        } else if k > i {
            assert(line@[i as int] != '=');
        }
    }
    let mut name: Vec<char> = Vec::new();
    extend_range(&mut name, line, 0, i);
    let mut rel: Vec<char> = Vec::new();
    extend_range(&mut rel, line, i + 1, line.len());
    let path = join_chars(root, rel.as_slice());
    Some(Remapping { name: string_of(name.as_slice()), path: string_of(path.as_slice()) })
}

/// Removes from `set` every entry with the alias of `entry`, then appends `entry`.
pub fn override_remapping(set: &mut Vec<Remapping>, entry: Remapping)
    ensures
        views(final(set)@) == override_with(views(old(set)@), entry@),
{
    let mut taken: Vec<Remapping> = Vec::new();
    std::mem::swap(set, &mut taken);
    let ghost orig = taken@;
    let mut kept: Vec<Remapping> = Vec::new();
    for m in it: taken.into_iter()
        invariant
            it.seq() == orig,
            views(kept@) == without_alias(views(orig.subrange(0, it.index() as int)), entry.name@),
    {
        let ghost k = it.index();
        assert(views(orig.subrange(0, k + 1)).drop_last() =~= views(orig.subrange(0, k)));
        if m.name != entry.name {
            kept.push(m);
            assert(views(kept@) =~= without_alias(views(orig.subrange(0, k + 1)), entry.name@));
        }
    }
    assert(orig.subrange(0, orig.len() as int) =~= orig);
    kept.push(entry);
    assert(views(kept@) =~= override_with(views(orig), entry@));
    *set = kept;
}

/// Resolves the remapping set of a project at `root`: starts from `defaults`, then takes
/// the lines `alias=relative` of the alias file `aliases` in order, each replacing any
/// entry with its alias. Fails on the first line that holds no `=`.
pub fn resolve_remappings(root: &str, defaults: Vec<Remapping>, aliases: &str) -> (r: Result<
    Vec<Remapping>,
    ConfigError,
>)
    ensures
        r is Ok <==> all_lines_parse(aliases@),
        r matches Ok(v) ==> views(v@) == resolved(root@, views(defaults@), aliases@),
        match r {
            Err(ConfigError::MissingSeparator { index }) => is_first_bad_line(
                aliases@,
                index as int,
            ),
            Err(_) => false,
            Ok(_) => true,
        },
{
    let root_chars = chars_of(root);
    let text = chars_of(aliases);
    let ls = split_lines(text.as_slice());
    let ghost entries = file_entries(root@, aliases@);
    let mut set = defaults;
    let mut k: usize = 0;
    while k < ls.len()
        invariant
            0 <= k <= ls@.len(),
            ls@.map_values(|l: Vec<char>| l@) == lines(aliases@),
            root_chars@ == root@,
            text@ == aliases@,
            entries == file_entries(root@, aliases@),
            views(set@) == override_all(views(defaults@), entries.subrange(0, k as int)),
            forall|j: int| 0 <= j < k ==> has_separator(#[trigger] lines(aliases@)[j]),
        decreases ls@.len() - k,
    {
        assert(ls@[k as int]@ == lines(aliases@)[k as int]);
        match parse_line(root_chars.as_slice(), ls[k].as_slice()) {
            None => {
                return Err(ConfigError::MissingSeparator { index: k });
            },
            Some(m) => {
                assert(entries.subrange(0, k + 1 as int).drop_last() =~= entries.subrange(
                    0,
                    k as int,
                ));
                override_remapping(&mut set, m);
            },
        }
        k = k + 1;
    }
    assert(entries.subrange(0, k as int) =~= entries);
    Ok(set)
}

} // verus!
