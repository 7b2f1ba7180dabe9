//! Size-based rotation of the log file: when the file is archived, under
//! which name, and which older archive makes room for it.

use vstd::prelude::*;
use vstd::string::*;
use crate::config::{ConfigView, PluginConfig};
use crate::text::{
    chars_of, lemma_lex_le_reflexive, lemma_lex_le_total, lemma_lex_le_transitive, lex_le,
    lex_le_exec, starts_with,
};

verus! {

/// The part of a path that names the directory: everything up to the last
/// `/`, that `/` included; empty where the path holds none.
pub open spec fn directory_part(path: Seq<char>) -> Seq<char>
    decreases path.len(),
{
    if path.len() == 0 {
        path
    } else if path.last() == '/' {
        path
    } else {
        directory_part(path.drop_last())
    }
}

/// The part of a path that names the file: everything after the last `/`.
pub open spec fn file_part(path: Seq<char>) -> Seq<char> {
    path.skip(directory_part(path).len() as int)
}

/// The directory in which the archives of a log file lie: the directory
/// part of its path, or `.` where that part is empty.
pub open spec fn archive_directory(log_file: Seq<char>) -> Seq<char> {
    if directory_part(log_file).len() == 0 {
        "."@
    } else {
        directory_part(log_file)
    }
}

/// Whether a file name is that of an archive of the log file named `base`:
/// it begins with `base` and is not `base` itself.
pub open spec fn is_archive_of(name: Seq<char>, base: Seq<char>) -> bool {
    base.is_prefix_of(name) && name != base
}

/// The archives among the file names of a directory, in the order of the
/// listing.
pub open spec fn archives(names: Seq<Seq<char>>, base: Seq<char>) -> Seq<Seq<char>> {
    names.filter(|name: Seq<char>| is_archive_of(name, base))
}

/// The first name of a list in the order of a dictionary, which for
/// archives of one log file is the oldest; `None` for an empty list.
pub open spec fn oldest(names: Seq<Seq<char>>) -> Option<Seq<char>>
    decreases names.len(),
{
    if names.len() == 0 {
        None
    } else {
        match oldest(names.drop_last()) {
            None => Some(names.last()),
            Some(least) => if lex_le(least, names.last()) {
                Some(least)
            } else {
                Some(names.last())
            },
        }
    }
}

/// The path of the archive that is deleted before a rotation: the oldest
/// one, where the archives are already as many as the configuration keeps,
/// and none otherwise.
pub open spec fn archive_to_prune(config: ConfigView, names: Seq<Seq<char>>) -> Option<Seq<char>> {
    let found = archives(names, file_part(config.log_file));
    if found.len() >= config.max_log_file_count {
        match oldest(found) {
            Some(name) => Some(directory_part(config.log_file) + name),
            None => None,
        }
    } else {
        None
    }
}

/// The path under which a log file is archived at the time that `stamp`
/// shows.
pub open spec fn archive_path(log_file: Seq<char>, stamp: Seq<char>) -> Seq<char> {
    log_file + "_"@ + stamp + ".log"@
}

/// Whether the log file is to be rotated before the next line is written:
/// rotation is enabled, the file exists, and its size is above the limit.
pub open spec fn rotation_due(config: ConfigView, size: Option<u64>) -> bool {
    config.enable_log_rotation && match size {
        Some(bytes) => bytes > config.max_log_file_size,
        None => false,
    }
}

/// The views of a list of strings.
pub open spec fn texts(names: Seq<String>) -> Seq<Seq<char>> {
    names.map_values(|name: String| name@)
}

/// The two parts of a path make up the path, the file part holds no `/`,
/// and the directory part is empty or ends in one.
pub proof fn lemma_path_parts(path: Seq<char>)
    ensures
        directory_part(path) + file_part(path) == path,
        directory_part(path).is_prefix_of(path),
        !file_part(path).contains('/'),
        directory_part(path).len() == 0 || directory_part(path).last() == '/',
    decreases path.len(),
{
    if path.len() > 0 && path.last() != '/' {
        let shorter = path.drop_last();
        lemma_path_parts(shorter);
        assert forall|i: int| 0 <= i < file_part(path).len() implies file_part(path)[i]
            != '/' by {
            if i < file_part(shorter).len() {
                assert(file_part(shorter).contains(file_part(shorter)[i]));
            }
        }
    }
}

/// The oldest name of a list that is not empty is one of the list, and
/// comes before or equals every name of it.
pub proof fn lemma_oldest_is_least(names: Seq<Seq<char>>)
    requires
        names.len() > 0,
    ensures
        oldest(names) is Some,
        names.contains(oldest(names)->0),
        forall|i: int| 0 <= i < names.len() ==> lex_le(oldest(names)->0, #[trigger] names[i]),
    decreases names.len(),
{
    let rest = names.drop_last();
    let last = names.last();
    if rest.len() == 0 {
        lemma_lex_le_reflexive(last);
    } else {
        lemma_oldest_is_least(rest);
        let least = oldest(rest)->0;
        if lex_le(least, last) {
            assert forall|i: int| 0 <= i < names.len() implies lex_le(
                oldest(names)->0,
                #[trigger] names[i],
            ) by {
                if i < rest.len() {
                    assert(names[i] == rest[i]);
                }
            }
        } else {
            lemma_lex_le_total(least, last);
            lemma_lex_le_reflexive(last);
            assert forall|i: int| 0 <= i < names.len() implies lex_le(
                oldest(names)->0,
                #[trigger] names[i],
            ) by {
                if i < rest.len() {
                    lemma_lex_le_transitive(last, least, rest[i]);
                }
            }
        }
    }
}

/// What is pruned is the oldest archive, and no other file. An archive is
/// pruned exactly where the listing holds at least one, and at least as
/// many as the configuration keeps; it lies beside the log file, its name
/// is one of the listing and that of an archive, and it comes before or
/// equals every archive of the listing.
pub proof fn lemma_pruned_is_oldest_archive(config: ConfigView, names: Seq<Seq<char>>)
    ensures
        ({
            let base = file_part(config.log_file);
            let found = archives(names, base);
            &&& archive_to_prune(config, names) is Some <==> found.len() > 0 && found.len()
                >= config.max_log_file_count
            &&& archive_to_prune(config, names) != Some(config.log_file)
            &&& archive_to_prune(config, names) is Some ==> exists|name: Seq<char>|
                {
                    &&& #[trigger] names.contains(name)
                    &&& is_archive_of(name, base)
                    &&& archive_to_prune(config, names) == Some(
                        directory_part(config.log_file) + name,
                    )
                    &&& forall|other: Seq<char>|
                        names.contains(other) && #[trigger] is_archive_of(other, base) ==> lex_le(
                            name,
                            other,
                        )
                }
        }),
{
    let base = file_part(config.log_file);
    let keep = |name: Seq<char>| is_archive_of(name, base);
    let found = names.filter(keep);
    if found.len() > 0 {
        lemma_oldest_is_least(found);
        let name = oldest(found)->0;
        names.lemma_filter_contains_rev(keep, name);
        if archive_to_prune(config, names) is Some {
            lemma_path_parts(config.log_file);
            let dir = directory_part(config.log_file);
            if dir + name == config.log_file {
                assert(name =~= (dir + name).skip(dir.len() as int));
            }
            assert forall|other: Seq<char>|
                names.contains(other) && #[trigger] is_archive_of(other, base) implies lex_le(
                name,
                other,
            ) by {
                let i = choose|i: int| 0 <= i < names.len() && names[i] == other;
                names.lemma_filter_contains(keep, i);
            }
        }
    }
}

/// Text without a `/`, put behind a path, leaves the directory part as it
/// was.
proof fn lemma_directory_part_of_extension(path: Seq<char>, suffix: Seq<char>)
    requires
        !suffix.contains('/'),
    ensures
        directory_part(path + suffix) == directory_part(path),
    decreases suffix.len(),
{
    if suffix.len() > 0 {
        let shorter = suffix.drop_last();
        assert((path + suffix).drop_last() =~= path + shorter);
        lemma_directory_part_of_extension(path, shorter);
    }
}

/// What a rotation leaves behind, later rotations find: the archive lies in
/// the directory of the log file, and its name is that of an archive of the
/// log file. This holds of every stamp without a `/`.
pub proof fn lemma_archive_lies_beside_log_file(log_file: Seq<char>, stamp: Seq<char>)
    requires
        !stamp.contains('/'),
    ensures
        directory_part(archive_path(log_file, stamp)) == directory_part(log_file),
        is_archive_of(file_part(archive_path(log_file, stamp)), file_part(log_file)),
{
    reveal_strlit("_");
    reveal_strlit(".log");
    let suffix = "_"@ + stamp + ".log"@;
    assert(archive_path(log_file, stamp) =~= log_file + suffix);
    lemma_directory_part_of_extension(log_file, suffix);
    lemma_path_parts(log_file);
    assert(file_part(log_file) =~= (file_part(log_file) + suffix).subrange(
        0,
        file_part(log_file).len() as int,
    ));
}

/// Splits a path into its directory part and its file part.
pub fn split_log_path(path: &str) -> (parts: (String, String))
    ensures
        parts.0@ == directory_part(path@),
        parts.1@ == file_part(path@),
{
    let v = chars_of(path);
    let mut i: usize = v.len();
    assert(path@.take(i as int) =~= path@);
    while i > 0 && v[i - 1] != '/'
        invariant
            i <= v.len(),
            v@ == path@,
            directory_part(path@) == directory_part(path@.take(i as int)),
        decreases i,
    {
        proof {
            assert(path@.take(i as int).drop_last() =~= path@.take(i - 1));
        }
        i -= 1;
    }
    let dir = path.substring_char(0, i);
    let name = path.substring_char(i, v.len());
    (String::from_str(dir), String::from_str(name))
}

/// The directory to list for the archives of a log file; see
/// [`archive_directory`].
pub fn directory_to_list(log_file: &str) -> (r: String)
    ensures
        r@ == archive_directory(log_file@),
{
    let (dir, _name) = split_log_path(log_file);
    if dir.as_str().unicode_len() == 0 {
        String::from_str(".")
    } else {
        dir
    }
}

/// Decides [`is_archive_of`].
pub fn is_archive(name: &str, base: &str) -> (r: bool)
    ensures
        r == is_archive_of(name@, base@),
{
    if !starts_with(name, base) {
        return false;
    }
    let same = name.unicode_len() == base.unicode_len();
    proof {
        if same {
            assert(name@ =~= base@);
        }
    }
    !same
}

/// Builds the path of an archive; see [`archive_path`].
pub fn archive_name(log_file: &str, stamp: &str) -> (r: String)
    ensures
        r@ == archive_path(log_file@, stamp@),
{
    let mut path = String::from_str(log_file);
    path.append("_");
    path.append(stamp);
    path.append(".log");
    path
}

/// Decides [`rotation_due`].
pub fn rotation_is_due(config: &PluginConfig, size: Option<u64>) -> (r: bool)
    ensures
        r == rotation_due(config@, size),
{
    if !config.enable_log_rotation {
        return false;
    }
    match size {
        Some(bytes) => bytes > config.max_log_file_size,
        None => false,
    }
}

/// Picks the archive to delete from the file names of the log directory;
/// see [`archive_to_prune`].
pub fn select_archive_to_prune(config: &PluginConfig, names: &Vec<String>) -> (r: Option<String>)
    ensures
        r.deep_view() == archive_to_prune(config@, texts(names@)),
{
    let (dir, base) = split_log_path(config.log_file.as_str());
    let ghost all = texts(names@);
    let ghost keep = |name: Seq<char>| is_archive_of(name, base@);
    let mut count: usize = 0;
    let mut least: Option<usize> = None;
    let mut i: usize = 0;
    proof {
        reveal(Seq::filter);
    }
    while i < names.len()
        invariant
            i <= names.len(),
            all == texts(names@),
            keep == (|name: Seq<char>| is_archive_of(name, base@)),
            count == all.take(i as int).filter(keep).len(),
            count <= i,
            match least {
                Some(k) => k < i && oldest(all.take(i as int).filter(keep)) == Some(all[k as int]),
                None => oldest(all.take(i as int).filter(keep)) is None,
            },
        decreases names.len() - i,
    {
        let name = names[i].as_str();
        proof {
            reveal(Seq::filter);
            assert(all.take(i + 1).drop_last() =~= all.take(i as int));
            let before = all.take(i as int).filter(keep);
            assert(before.push(name@).drop_last() =~= before);
        }
        if is_archive(name, base.as_str()) {
            count += 1;
            least = match least {
                None => Some(i),
                Some(k) => if lex_le_exec(names[k].as_str(), name) {
                    Some(k)
                } else {
                    Some(i)
                },
            };
        }
        i += 1;
    }
    assert(all.take(i as int) =~= all);
    if count as u64 >= config.max_log_file_count as u64 {
        match least {
            Some(k) => {
                let path = dir.concat(names[k].as_str());
                Some(path)
            },
            None => None,
        }
    } else {
        None
    }
}

} // verus!
