//! Importing the configuration files of another installation
//! (`--import-config <file>`).

use vstd::prelude::*;
use crate::text::{has_prefix, lemma_replaced_absent, replace, replaced};

verus! {

/// The second configuration file that is imported beside `path`: every
/// `.toml` in the path becomes `2.toml`.
pub open spec fn config2_path_of(path: Seq<char>) -> Seq<char> {
    replaced(path, ".toml"@, "2.toml"@)
}

/// The paths of the two files that are imported from `path`.
pub fn import_config_paths(path: &str) -> (r: (String, String))
    ensures
        r.0@ == path@,
        r.1@ == config2_path_of(path@),
{
    proof {
        reveal_strlit(".toml");
    }
    (path.to_owned(), replace(path, ".toml", "2.toml"))
}

/// A path without `.toml` names itself as the second file: the same file
/// is read twice.
pub proof fn lemma_config2_path_without_toml(path: Seq<char>)
    requires
        forall|i: int| 0 <= i < path.len() ==> !has_prefix(#[trigger] path.skip(i), ".toml"@),
    ensures
        config2_path_of(path) == path,
{
    reveal_strlit(".toml");
    lemma_replaced_absent(path, ".toml"@, "2.toml"@);
}

/// Which files an import replaces. Times are in one unit, counted from one
/// origin (before it negative).
#[derive(Clone, Copy, Debug, PartialEq, Eq, Structural)]
pub struct ImportPlan {
    /// The source replaces the current configuration.
    pub store_config: bool,
    /// The second source file replaces the current second configuration.
    pub store_config2: bool,
}

/// The import plan: a source without configuration replaces nothing, not
/// even the second file. Otherwise the source replaces the configuration
/// when it was modified after it and before the executable was, and the
/// second source file replaces the second configuration when it was modified
/// after it.
pub open spec fn import_plan_of(
    source_empty: bool,
    source_modified: i128,
    current_modified: i128,
    exe_modified: i128,
    source2_modified: i128,
    current2_modified: i128,
) -> ImportPlan {
    ImportPlan {
        store_config: !source_empty && source_modified > current_modified && source_modified
            < exe_modified,
        store_config2: !source_empty && source2_modified > current2_modified,
    }
}

/// The plan for importing the configuration files of another installation,
/// from whether the source is empty and the modification times of the
/// source, the current file, the executable, the second source file and the
/// current second file.
pub fn import_config(
    source_empty: bool,
    source_modified: i128,
    current_modified: i128,
    exe_modified: i128,
    source2_modified: i128,
    current2_modified: i128,
) -> (r: ImportPlan)
    ensures
        r == import_plan_of(
            source_empty,
            source_modified,
            current_modified,
            exe_modified,
            source2_modified,
            current2_modified,
        ),
        source_empty ==> !r.store_config && !r.store_config2,
        !source_empty ==> r.store_config == (current_modified < source_modified
            && source_modified < exe_modified),
        !source_empty ==> r.store_config2 == (source2_modified > current2_modified),
{
    if source_empty {
        return ImportPlan { store_config: false, store_config2: false };
    }
    ImportPlan {
        store_config: source_modified > current_modified && source_modified < exe_modified,
        store_config2: source2_modified > current2_modified,
    }
}

/// With a source that holds a configuration, the second file is replaced
/// exactly when the second source file is newer than the current second
/// file: neither the executable's time nor the first files' times play a
/// part.
pub proof fn lemma_import_second_file(
    source_modified: i128,
    current_modified: i128,
    exe_modified: i128,
    source2_modified: i128,
    current2_modified: i128,
    other_source_modified: i128,
    other_current_modified: i128,
    other_exe_modified: i128,
)
    ensures
        import_plan_of(
            false,
            source_modified,
            current_modified,
            exe_modified,
            source2_modified,
            current2_modified,
        ).store_config2 == (source2_modified > current2_modified),
        import_plan_of(
            false,
            source_modified,
            current_modified,
            exe_modified,
            source2_modified,
            current2_modified,
        ).store_config2 == import_plan_of(
            false,
            other_source_modified,
            other_current_modified,
            other_exe_modified,
            source2_modified,
            current2_modified,
        ).store_config2,
{
}

/// With a source that holds a configuration, the first file is replaced
/// exactly when the source is newer than the current file and older than
/// the executable, whatever the second files' times; an empty source
/// replaces neither file.
pub proof fn lemma_import_first_file(
    source_modified: i128,
    current_modified: i128,
    exe_modified: i128,
    source2_modified: i128,
    current2_modified: i128,
)
    ensures
        import_plan_of(
            false,
            source_modified,
            current_modified,
            exe_modified,
            source2_modified,
            current2_modified,
        ).store_config == (current_modified < source_modified && source_modified < exe_modified),
        !import_plan_of(
            true,
            source_modified,
            current_modified,
            exe_modified,
            source2_modified,
            current2_modified,
        ).store_config,
        !import_plan_of(
            true,
            source_modified,
            current_modified,
            exe_modified,
            source2_modified,
            current2_modified,
        ).store_config2,
{
}

} // verus!
