//! File names: where a collection is saved, and which of the chosen files
//! are the atlas and the image.

use vstd::prelude::*;

verus! {

/// The position of the last `.` in `name`, or -1 where it holds none.
pub open spec fn last_dot(name: Seq<char>) -> int
    decreases name.len(),
{
    if name.len() == 0 {
        -1
    } else if name.last() == '.' {
        name.len() - 1
    } else {
        last_dot(name.drop_last())
    }
}

/// The part of a file name before its last dot, inner dots and all; empty
/// where the name holds no dot.
pub open spec fn stem(name: Seq<char>) -> Seq<char> {
    if last_dot(name) < 0 {
        Seq::empty()
    } else {
        name.subrange(0, last_dot(name))
    }
}

/// The extension of a file name: what follows its last dot, and the whole
/// name where it holds no dot.
pub open spec fn extension(name: Seq<char>) -> Seq<char> {
    name.subrange(last_dot(name) + 1, name.len() as int)
}

/// The name of the file in which the tags for the atlas `name` are saved:
/// `-marked` goes between the stem and the extension.
pub open spec fn marked(name: Seq<char>) -> Seq<char> {
    stem(name) + "-marked."@ + extension(name)
}

/// The last dot lies inside the name, or is -1.
pub proof fn lemma_last_dot_range(name: Seq<char>)
    ensures
        -1 <= last_dot(name) < name.len(),
        last_dot(name) >= 0 ==> name[last_dot(name)] == '.',
        forall|j: int| last_dot(name) < j < name.len() ==> name[j] != '.',
    decreases name.len(),
{
    if name.len() > 0 && name.last() != '.' {
        let rest = name.drop_last();
        lemma_last_dot_range(rest);
        assert forall|j: int| last_dot(name) < j < name.len() implies name[j] != '.' by {
            if j < rest.len() {
                assert(rest[j] == name[j]);
            }
        }
    }
}

/// The name of the save file that belongs to the atlas file `name`, both
/// without their directory.
pub fn marked_name(name: &str) -> (saved: String)
    ensures
        saved@ == marked(name@),
{
    let n = name.unicode_len();
    let mut dot: Option<usize> = None;
    let mut i: usize = 0;
    while i < n
        invariant
            i <= n,
            n == name@.len(),
            match dot {
                Some(d) => d == last_dot(name@.subrange(0, i as int)),
                None => last_dot(name@.subrange(0, i as int)) == -1,
            },
        decreases n - i,
    {
        assert(name@.subrange(0, i + 1).drop_last() =~= name@.subrange(0, i as int));
        if name.get_char(i) == '.' {
            dot = Some(i);
        }
        i += 1;
    }
    assert(name@.subrange(0, n as int) =~= name@);
    proof {
        lemma_last_dot_range(name@);
    }
    let mut saved = String::new();
    let start: usize = match dot {
        Some(d) => {
            saved.append(name.substring_char(0, d));
            assert(saved@ =~= name@.subrange(0, d as int));
            d + 1
        },
        None => 0,
    };
    assert(saved@ == stem(name@));
    saved.append("-marked.");
    saved.append(name.substring_char(start, n));
    saved
}

/// `s` ends in `suffix`.
pub open spec fn ends_with(s: Seq<char>, suffix: Seq<char>) -> bool {
    &&& suffix.len() <= s.len()
    &&& s.subrange(s.len() - suffix.len(), s.len() as int) == suffix
}

/// Whether the path ends in `ext`.
pub fn check_ext(path: &str, ext: &str) -> (ends: bool)
    ensures
        ends == ends_with(path@, ext@),
{
    let n = path.unicode_len();
    let m = ext.unicode_len();
    if m > n {
        return false;
    }
    let ghost tail = path@.subrange(n - m, n as int);
    let mut i: usize = 0;
    while i < m
        invariant
            i <= m <= n,
            n == path@.len(),
            m == ext@.len(),
            tail == path@.subrange(n - m, n as int),
            forall|j: int| 0 <= j < i ==> tail[j] == ext@[j],
        decreases m - i,
    {
        if path.get_char(n - m + i) != ext.get_char(i) {
            assert(tail[i as int] != ext@[i as int]);
            return false;
        }
        i += 1;
    }
    assert(tail =~= ext@);
    true
}

/// `i` is the first of `paths` that ends in `ext`.
pub open spec fn first_with_ext_at(paths: Seq<String>, ext: Seq<char>, i: int) -> bool {
    &&& 0 <= i < paths.len()
    &&& ends_with(paths[i]@, ext)
    &&& forall|j: int| 0 <= j < i ==> !ends_with((#[trigger] paths[j])@, ext)
}

/// None of `paths` ends in `ext`.
pub open spec fn none_with_ext(paths: Seq<String>, ext: Seq<char>) -> bool {
    forall|j: int| 0 <= j < paths.len() ==> !ends_with((#[trigger] paths[j])@, ext)
}

/// The position of the first of `paths` that ends in `ext`.
pub fn find_ext(paths: &Vec<String>, ext: &str) -> (found: Option<usize>)
    ensures
        match found {
            Some(i) => first_with_ext_at(paths@, ext@, i as int),
            None => none_with_ext(paths@, ext@),
        },
{
    let mut i: usize = 0;
    while i < paths.len()
        invariant
            i <= paths@.len(),
            forall|j: int| 0 <= j < i ==> !ends_with((#[trigger] paths@[j])@, ext@),
        decreases paths@.len() - i,
    {
        if check_ext(paths[i].as_str(), ext) {
            return Some(i);
        }
        i += 1;
    }
    None
}

/// Picks from the chosen files the atlas, the first that ends in `.json`,
/// and the image, the first that ends in `.png`. There is no pick where
/// either is missing.
pub fn select_file(selected: &Vec<String>) -> (picked: Option<(String, String)>)
    ensures
        match picked {
            Some((meta, image)) => exists|m: int, i: int|
                {
                    &&& first_with_ext_at(selected@, ".json"@, m)
                    &&& first_with_ext_at(selected@, ".png"@, i)
                    &&& meta@ == (#[trigger] selected@[m])@
                    &&& image@ == (#[trigger] selected@[i])@
                },
            None => none_with_ext(selected@, ".json"@) || none_with_ext(selected@, ".png"@),
        },
{
    match find_ext(selected, ".json") {
        Some(m) => match find_ext(selected, ".png") {
            Some(i) => Some((selected[m].clone(), selected[i].clone())),
            None => None,
        },
        None => None,
    }
}

} // verus!
