//! Path expansion: from user-supplied patterns to an ordered list of distinct paths.
//!
//! A pattern that ends in a path separator stands for everything below that
//! directory. Walking the file system is the caller's part; this module
//! prepares the patterns and merges what the walks found.

use vstd::prelude::*;
use crate::error::TransferError;

verus! {

/// The text appended to a pattern that names a directory.
pub open spec fn recursive_suffix() -> Seq<char> {
    seq!['*', '*', '/', '*']
}

/// Whether a pattern ends in a path separator.
pub open spec fn names_directory(pattern: Seq<char>) -> bool {
    pattern.len() > 0 && pattern.last() == '/'
}

/// The glob pattern that a user-supplied pattern stands for.
pub open spec fn glob_form(pattern: Seq<char>) -> Seq<char> {
    if names_directory(pattern) {
        pattern + recursive_suffix()
    } else {
        pattern
    }
}

/// Whether `glob::Pattern::new` accepts the pattern.
pub uninterp spec fn glob_accepts(pattern: Seq<char>) -> bool;

/// Calls `glob::Pattern::new` and reports whether it returned a pattern.
/// The contract only names that answer; nothing is claimed about which
/// patterns are accepted.
#[verifier::external_body]
fn pattern_parses(pattern: &str) -> (ok: bool)
    ensures
        ok == glob_accepts(pattern@),
{
    glob::Pattern::new(pattern).is_ok()
}

/// Rewrites a user-supplied pattern into the glob pattern it stands for.
pub fn expand_pattern(pattern: &str) -> (out: String)
    ensures
        out@ == glob_form(pattern@),
{
    let n: usize = pattern.unicode_len();
    if n > 0 && pattern.get_char(n - 1) == '/' {
        proof {
            reveal_strlit("**/*");
            assert("**/*"@ =~= recursive_suffix());
        }
        pattern.to_owned().concat("**/*")
    } else {
        pattern.to_owned()
    }
}

/// The texts of a list of strings.
pub open spec fn texts(list: Seq<String>) -> Seq<Seq<char>> {
    list.map_values(|s: String| s@)
}

/// Rewrites every pattern into its glob form and checks that each is well formed.
///
/// Fails at the first pattern whose glob form `glob` does not accept.
pub fn prepare_patterns(patterns: &Vec<String>) -> (prepared: Result<Vec<String>, TransferError>)
    ensures
        match prepared {
            Ok(globs) => {
                &&& globs.len() == patterns.len()
                &&& forall|k: int|
                    0 <= k < patterns.len() ==> (#[trigger] globs[k])@ == glob_form(patterns[k]@)
                        && glob_accepts(globs[k]@)
            },
            Err(TransferError::Pattern(i)) => {
                &&& i < patterns.len()
                &&& !glob_accepts(glob_form(patterns[i as int]@))
                &&& forall|k: int| 0 <= k < i ==> glob_accepts(glob_form((#[trigger] patterns[k])@))
            },
            Err(_) => false,
        },
{
    let mut globs: Vec<String> = Vec::new();
    let mut i: usize = 0;
    while i < patterns.len()
        invariant
            i <= patterns.len(),
            globs.len() == i,
            forall|k: int|
                0 <= k < i ==> (#[trigger] globs[k])@ == glob_form(patterns[k]@) && glob_accepts(
                    globs[k]@,
                ),
            forall|k: int| 0 <= k < i ==> glob_accepts(glob_form((#[trigger] patterns[k])@)),
        decreases patterns.len() - i,
    {
        let glob = expand_pattern(patterns[i].as_str());
        if !pattern_parses(glob.as_str()) {
            return Err(TransferError::Pattern(i));
        }
        globs.push(glob);
        i += 1;
    }
    Ok(globs)
}

/// A list of paths extended by those of another list that it does not hold
/// yet, each at its first occurrence and in the order of that list.
pub open spec fn merged(found: Seq<Seq<char>>, more: Seq<Seq<char>>) -> Seq<Seq<char>>
    decreases more.len(),
{
    if more.len() == 0 {
        found
    } else {
        let before = merged(found, more.drop_last());
        if before.contains(more.last()) {
            before
        } else {
            before.push(more.last())
        }
    }
}

/// The distinct paths of a sequence of batches, in the order in which they first occur.
pub open spec fn collected(batches: Seq<Seq<Seq<char>>>) -> Seq<Seq<char>>
    decreases batches.len(),
{
    if batches.len() == 0 {
        Seq::empty()
    } else {
        merged(collected(batches.drop_last()), batches.last())
    }
}

/// Merging keeps a list free of duplicates.
pub proof fn merged_is_distinct(found: Seq<Seq<char>>, more: Seq<Seq<char>>)
    requires
        found.no_duplicates(),
    ensures
        merged(found, more).no_duplicates(),
    decreases more.len(),
{
    if more.len() > 0 {
        merged_is_distinct(found, more.drop_last());
    }
}

/// Merging keeps what the list held, in place, before anything new.
pub proof fn merged_extends(found: Seq<Seq<char>>, more: Seq<Seq<char>>)
    ensures
        found.len() <= merged(found, more).len(),
        merged(found, more).take(found.len() as int) == found,
    decreases more.len(),
{
    if more.len() > 0 {
        merged_extends(found, more.drop_last());
        let before = merged(found, more.drop_last());
        assert(before.push(more.last()).take(found.len() as int) =~= before.take(
            found.len() as int,
        ));
    } else {
        assert(found.take(found.len() as int) =~= found);
    }
}

/// A merged list holds exactly the paths of the two lists it was made of.
pub proof fn merged_holds(found: Seq<Seq<char>>, more: Seq<Seq<char>>, path: Seq<char>)
    ensures
        merged(found, more).contains(path) <==> found.contains(path) || more.contains(path),
    decreases more.len(),
{
    if more.len() > 0 {
        let rest = more.drop_last();
        merged_holds(found, rest, path);
        let before = merged(found, rest);
        if more.contains(path) {
            let k = choose|k: int| 0 <= k < more.len() && more[k] == path;
            if k < rest.len() {
                assert(rest[k] == path);
            }
        }
        if rest.contains(path) {
            let k = choose|k: int| 0 <= k < rest.len() && rest[k] == path;
            assert(more[k] == path);
        }
        assert(more[more.len() - 1] == more.last());
        if !before.contains(more.last()) {
            let after = before.push(more.last());
            assert(after[before.len() as int] == more.last());
            if before.contains(path) {
                let k = choose|k: int| 0 <= k < before.len() && before[k] == path;
                assert(after[k] == path);
            }
            if after.contains(path) {
                let k = choose|k: int| 0 <= k < after.len() && after[k] == path;
                if k < before.len() {
                    assert(before[k] == path);
                }
            }
        }
    }
}

/// The expander's output never names a path twice.
pub proof fn collected_is_distinct(batches: Seq<Seq<Seq<char>>>)
    ensures
        collected(batches).no_duplicates(),
    decreases batches.len(),
{
    if batches.len() > 0 {
        collected_is_distinct(batches.drop_last());
        merged_is_distinct(collected(batches.drop_last()), batches.last());
    }
}

/// The expander's output holds exactly the paths that some pattern matched.
pub proof fn collected_holds(batches: Seq<Seq<Seq<char>>>, path: Seq<char>)
    ensures
        collected(batches).contains(path) <==> exists|b: int|
            0 <= b < batches.len() && (#[trigger] batches[b]).contains(path),
    decreases batches.len(),
{
    if batches.len() > 0 {
        let rest = batches.drop_last();
        collected_holds(rest, path);
        merged_holds(collected(rest), batches.last(), path);
        if exists|b: int| 0 <= b < rest.len() && (#[trigger] rest[b]).contains(path) {
            let b = choose|b: int| 0 <= b < rest.len() && (#[trigger] rest[b]).contains(path);
            assert(batches[b].contains(path));
        }
        if batches.last().contains(path) {
            assert(batches[batches.len() - 1].contains(path));
        }
        if exists|b: int| 0 <= b < batches.len() && (#[trigger] batches[b]).contains(path) {
            let b = choose|b: int| 0 <= b < batches.len() && (#[trigger] batches[b]).contains(path);
            if b < rest.len() {
                assert(rest[b].contains(path));
            }
        }
    }
}

/// Whether a list holds a path.
fn holds(list: &Vec<String>, path: &String) -> (found: bool)
    ensures
        found == texts(list@).contains(path@),
{
    let mut i: usize = 0;
    while i < list.len()
        invariant
            i <= list.len(),
            forall|k: int| 0 <= k < i ==> texts(list@)[k] != path@,
        decreases list.len() - i,
    {
        if list[i] == *path {
            assert(texts(list@)[i as int] == path@);
            return true;
        }
        i += 1;
    }
    false
}

/// Adds to a list the paths of a batch that it does not hold yet.
pub fn absorb_matches(found: &mut Vec<String>, batch: &Vec<String>)
    ensures
        texts(final(found)@) == merged(texts(old(found)@), texts(batch@)),
{
    let mut i: usize = 0;
    while i < batch.len()
        invariant
            i <= batch.len(),
            texts(found@) == merged(texts(old(found)@), texts(batch@).take(i as int)),
        decreases batch.len() - i,
    {
        proof {
            assert(texts(batch@).take(i + 1).drop_last() =~= texts(batch@).take(i as int));
            assert(texts(batch@).take(i + 1).last() == batch[i as int]@);
        }
        if !holds(found, &batch[i]) {
            let ghost before = found@;
            found.push(batch[i].clone());
            proof {
                assert(texts(found@) =~= texts(before).push(batch[i as int]@));
            }
        }
        i += 1;
    }
    proof {
        assert(texts(batch@).take(i as int) =~= texts(batch@));
    }
}

/// The texts of a sequence of batches.
pub open spec fn batch_texts(batches: Seq<Vec<String>>) -> Seq<Seq<Seq<char>>> {
    batches.map_values(|b: Vec<String>| texts(b@))
}

/// Collects what the patterns matched, one batch for each pattern, into one
/// list: every matched path once, in the order of first occurrence.
pub fn collect_files(batches: &Vec<Vec<String>>) -> (files: Vec<String>)
    ensures
        texts(files@) == collected(batch_texts(batches@)),
        texts(files@).no_duplicates(),
        forall|path: Seq<char>|
            texts(files@).contains(path) <==> exists|b: int|
                0 <= b < batches.len() && (#[trigger] batch_texts(batches@)[b]).contains(path),
{
    let mut files: Vec<String> = Vec::new();
    let mut i: usize = 0;
    while i < batches.len()
        invariant
            i <= batches.len(),
            texts(files@) == collected(batch_texts(batches@).take(i as int)),
        decreases batches.len() - i,
    {
        proof {
            let all = batch_texts(batches@);
            assert(all.take(i + 1).drop_last() =~= all.take(i as int));
            assert(all.take(i + 1).last() == texts(batches[i as int]@));
        }
        absorb_matches(&mut files, &batches[i]);
        i += 1;
    }
    proof {
        let all = batch_texts(batches@);
        assert(all.take(i as int) =~= all);
        collected_is_distinct(all);
        assert forall|path: Seq<char>|
            texts(files@).contains(path) <==> exists|b: int|
                0 <= b < batches.len() && (#[trigger] all[b]).contains(path) by {
            collected_holds(all, path);
        }
    }
    files
}

} // verus!
