//! Reading the extension off a file name.

use vstd::prelude::*;

verus! {

/// The index of the last `.` in `name`, or -1 where it holds none.
pub open spec fn last_dot(name: Seq<char>) -> int
    decreases name.len(),
{
    if name.len() == 0 {
        -1
    } else if name.last() == '.' {
        name.len() - 1
    } else {
        last_dot(name.drop_last())
    }
}

/// The extension of a file name: what follows its last `.`.
///
/// A name without a `.`, a name whose only `.` is its first character (a
/// hidden file such as `.profile`) and the name `..` have no extension. A
/// name that ends in `.` has the empty extension.
pub open spec fn extension_of(name: Seq<char>) -> Option<Seq<char>> {
    let dot = last_dot(name);
    if dot <= 0 || name == seq!['.', '.'] {
        None
    } else {
        Some(name.subrange(dot + 1, name.len() as int))
    }
}

/// The lower-case form of a text, as `str::to_lowercase` gives it. It is a
/// function of the whole text and not of each character alone: a character
/// may lower to several, and a capital sigma lowers differently at the end
/// of a word.
pub uninterp spec fn lowercase_of(text: Seq<char>) -> Seq<char>;

/// `str::to_lowercase` of the standard library. Assumed: the string it
/// returns is the one that `lowercase_of` names for the text it was given.
pub assume_specification[ str::to_lowercase ](text: &str) -> (lowered: String)
    ensures
        lowered@ == lowercase_of(text@),
;

/// The extension of a file name in lower case, by which the name is classified.
pub open spec fn lowered_extension_of(name: Seq<char>) -> Option<Seq<char>> {
    match extension_of(name) {
        Some(ext) => Some(lowercase_of(ext)),
        None => None,
    }
}

/// The extension of `name` in lower case.
pub fn lowered_extension(name: &str) -> (ext: Option<String>)
    ensures
        text_of(ext) == lowered_extension_of(name@),
{
    match file_extension(name) {
        Some(ext) => Some(ext.as_str().to_lowercase()),
        None => None,
    }
}

/// The characters of an optional string.
pub open spec fn text_of(s: Option<String>) -> Option<Seq<char>> {
    match s {
        Some(s) => Some(s@),
        None => None,
    }
}

/// `last_dot` is the one index that holds a `.` with none behind it.
pub proof fn lemma_last_dot(name: Seq<char>, dot: int)
    requires
        -1 <= dot < name.len(),
        dot >= 0 ==> name[dot] == '.',
        forall|j: int| dot < j < name.len() ==> name[j] != '.',
    ensures
        last_dot(name) == dot,
    decreases name.len(),
{
    if name.len() > 0 && name.last() != '.' {
        lemma_last_dot(name.drop_last(), dot);
    }
}

/// The extension of `name`, as `extension_of` defines it.
pub fn file_extension(name: &str) -> (ext: Option<String>)
    ensures
        text_of(ext) == extension_of(name@),
{
    let n: usize = name.unicode_len();
    let mut i: usize = n;
    while i > 0 && name.get_char(i - 1) != '.'
        invariant
            i <= n,
            n == name@.len(),
            forall|j: int| i <= j < n ==> name@[j] != '.',
        decreases i,
    {
        i -= 1;
    }
    proof {
        lemma_last_dot(name@, i - 1);
    }
    if i <= 1 {
        return None;
    }
    if n == 2 && name.get_char(0) == '.' {
        assert(name@ =~= seq!['.', '.']);
        return None;
    }
    assert(name@ != seq!['.', '.']) by {
        if name@ == seq!['.', '.'] {
            assert(name@.len() == 2);
            assert(name@[0] == '.');
        }
    }
    Some(name.substring_char(i, n).to_owned())
}

/// The extension holds no `.`, and the name ends in a `.` followed by it.
pub proof fn lemma_extension_is_suffix(name: Seq<char>)
    ensures
        extension_of(name) matches Some(ext) ==> {
            &&& !ext.contains('.')
            &&& ext.len() + 2 <= name.len()
            &&& name =~= name.subrange(0, name.len() - ext.len() - 1) + seq!['.'] + ext
        },
{
    lemma_last_dot_is_last(name);
}

/// Where `last_dot` is not -1 it is the index of a `.`, and no `.` follows it.
pub proof fn lemma_last_dot_is_last(name: Seq<char>)
    ensures
        -1 <= last_dot(name) < name.len(),
        last_dot(name) >= 0 ==> name[last_dot(name)] == '.',
        forall|j: int| last_dot(name) < j < name.len() ==> name[j] != '.',
    decreases name.len(),
{
    if name.len() > 0 && name.last() != '.' {
        let front = name.drop_last();
        lemma_last_dot_is_last(front);
        assert forall|j: int| last_dot(name) < j < name.len() implies name[j] != '.' by {
            if j < front.len() {
                assert(front[j] == name[j]);
            }
        }
    }
}

} // verus!
