//! The table that replaces the source module of an import by the path at
//! which its code is found.

use crate::error::TransformError;
use vstd::prelude::*;

verus! {

/// The entries of a table, as the text of each source and of its path.
pub open spec fn entries_view(entries: Seq<(String, String)>) -> Seq<(Seq<char>, Seq<char>)> {
    entries.map_values(|e: (String, String)| (e.0@, e.1@))
}

/// Whether no two entries are for the same source.
pub open spec fn distinct_sources(entries: Seq<(Seq<char>, Seq<char>)>) -> bool {
    forall|i: int, j: int| 0 <= i < j < entries.len() ==> entries[i].0 != entries[j].0
}

/// The mapping that the entries make up.
pub open spec fn table_of(entries: Seq<(Seq<char>, Seq<char>)>) -> Map<Seq<char>, Seq<char>>
    decreases entries.len(),
{
    if entries.len() == 0 {
        Map::empty()
    } else {
        table_of(entries.drop_last()).insert(entries.last().0, entries.last().1)
    }
}

/// The path that `table` gives for `module_src`; `module_src` itself where
/// it gives none.
pub open spec fn remap(table: Map<Seq<char>, Seq<char>>, module_src: Seq<char>) -> Seq<char> {
    if table.contains_key(module_src) {
        table[module_src]
    } else {
        module_src
    }
}

/// A source that no entry of `entries` is for is not in their table.
proof fn lemma_table_lacks(entries: Seq<(Seq<char>, Seq<char>)>, module_src: Seq<char>)
    requires
        forall|i: int| 0 <= i < entries.len() ==> entries[i].0 != module_src,
    ensures
        !table_of(entries).contains_key(module_src),
    decreases entries.len(),
{
    if entries.len() > 0 {
        lemma_table_lacks(entries.drop_last(), module_src);
    }
}

/// Where no source occurs twice, the table maps the source of each entry
/// to the path of that entry.
proof fn lemma_table_holds(entries: Seq<(Seq<char>, Seq<char>)>, i: int)
    requires
        distinct_sources(entries),
        0 <= i < entries.len(),
    ensures
        table_of(entries).contains_key(entries[i].0),
        table_of(entries)[entries[i].0] == entries[i].1,
    decreases entries.len(),
{
    if i < entries.len() - 1 {
        lemma_table_holds(entries.drop_last(), i);
    }
}

/// A mapping from source modules, as imports write them, to paths.
pub struct ImportPaths {
    entries: Vec<(String, String)>,
}

impl View for ImportPaths {
    type V = Map<Seq<char>, Seq<char>>;

    closed spec fn view(&self) -> Map<Seq<char>, Seq<char>> {
        table_of(entries_view(self.entries@))
    }
}

impl ImportPaths {
    #[verifier::type_invariant]
    spec fn well_formed(&self) -> bool {
        distinct_sources(entries_view(self.entries@))
    }

    /// Makes a table of `entries`, each a source module and its path.
    ///
    /// Fails if two entries are for the same source.
    pub fn new(entries: Vec<(String, String)>) -> (r: Result<ImportPaths, TransformError>)
        ensures
            match r {
                Ok(paths) => distinct_sources(entries_view(entries@)) && paths@ == table_of(
                    entries_view(entries@),
                ),
                Err(e) => e == TransformError::Configuration && !distinct_sources(entries_view(entries@)),
            },
    {
        let ghost shown = entries_view(entries@);
        let mut j: usize = 0;
        while j < entries.len()
            invariant
                j <= entries.len(),
                shown == entries_view(entries@),
                forall|a: int, b: int| 0 <= a < b < j ==> shown[a].0 != shown[b].0,
            decreases entries.len() - j,
        {
            let mut i: usize = 0;
            while i < j
                invariant
                    i <= j < entries.len(),
                    shown == entries_view(entries@),
                    forall|a: int| 0 <= a < i ==> shown[a].0 != shown[j as int].0,
                decreases j - i,
            {
                if entries[i].0 == entries[j].0 {
                    assert(shown[i as int].0 == shown[j as int].0);
                    return Err(TransformError::Configuration);
                }
                i += 1;
            }
            j += 1;
        }
        Ok(ImportPaths { entries })
    }

    /// Returns the path that the table gives for `module_src`, or
    /// `module_src` itself where it gives none.
    pub fn to_actual_path(&self, module_src: String) -> (r: String)
        ensures
            r@ == remap(self@, module_src@),
    {
        proof {
            use_type_invariant(self);
        }
        let ghost shown = entries_view(self.entries@);
        let mut i: usize = 0;
        while i < self.entries.len()
            invariant
                i <= self.entries.len(),
                shown == entries_view(self.entries@),
                distinct_sources(shown),
                forall|a: int| 0 <= a < i ==> shown[a].0 != module_src@,
            decreases self.entries.len() - i,
        {
            if self.entries[i].0 == module_src {
                proof {
                    lemma_table_holds(shown, i as int);
                }
                return self.entries[i].1.clone();
            }
            i += 1;
        }
        proof {
            lemma_table_lacks(shown, module_src@);
        }
        module_src
    }
}

/// The mapping of a table that may be absent: none maps nothing.
pub open spec fn paths_table(import_paths: Option<ImportPaths>) -> Map<Seq<char>, Seq<char>> {
    match import_paths {
        Some(paths) => paths@,
        None => Map::empty(),
    }
}

} // verus!
