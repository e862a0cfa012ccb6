//! Deciding what to do with one entry of the scanned tree.
//!
//! A place in the tree is written as the names that lead to it from the
//! root, the entry's own name last. A media file with a date in its name
//! belongs at `<category>/<year>/<name>`; every other entry stays where it is.

use vstd::prelude::*;

use crate::category::{category_of, classify, same_text, MediaCategory};
use crate::date_pattern::{year_in, DatePattern};
use crate::file_name::{lowered_extension, lowered_extension_of, text_of};

verus! {

/// One entry found while walking the tree.
#[derive(Clone, Debug, PartialEq, Eq)]
pub struct Entry {
    /// The names that lead from the root to the entry, its own name last.
    pub location: Vec<String>,
    /// Whether the entry is a regular file (behind links, if it is one).
    pub is_file: bool,
}

/// An entry as the contracts see it.
pub struct EntryView {
    pub location: Seq<Seq<char>>,
    pub is_file: bool,
}

/// The names in `location`, each as a sequence of characters.
pub open spec fn names_of(location: Seq<String>) -> Seq<Seq<char>> {
    Seq::new(location.len(), |i: int| location[i]@)
}

impl View for Entry {
    type V = EntryView;

    open spec fn view(&self) -> EntryView {
        EntryView { location: names_of(self.location@), is_file: self.is_file }
    }
}

/// What is done with an entry.
#[derive(Clone, Debug, PartialEq, Eq)]
pub enum Decision {
    /// The entry is not a regular file, or has no name: it is passed over.
    NotAFile,
    /// The name has no extension: the file is passed over.
    NoExtension,
    /// The extension is that of no media category: the file is passed over.
    Unclassified,
    /// A media file without a date in its name: it stays, and this is reported.
    Undated,
    /// A media file with a date in its name. Its folder `<category>/<year>`
    /// is to exist; unless the file is `in_place` it is moved there under
    /// its own name.
    Place { category: MediaCategory, year: String, in_place: bool },
}

/// A decision as the contracts see it.
pub enum Outcome {
    NotAFile,
    NoExtension,
    Unclassified,
    Undated,
    Place { category: MediaCategory, year: Seq<char>, in_place: bool },
}

impl View for Decision {
    type V = Outcome;

    open spec fn view(&self) -> Outcome {
        match self {
            Decision::NotAFile => Outcome::NotAFile,
            Decision::NoExtension => Outcome::NoExtension,
            Decision::Unclassified => Outcome::Unclassified,
            Decision::Undated => Outcome::Undated,
            Decision::Place { category, year, in_place } => Outcome::Place {
                category: *category,
                year: year@,
                in_place: *in_place,
            },
        }
    }
}

/// Where a file named `name` of `category`, dated in `year`, belongs.
pub open spec fn target_of(category: MediaCategory, year: Seq<char>, name: Seq<char>) -> Seq<
    Seq<char>,
> {
    seq![category.folder(), year, name]
}

/// The decision for an entry, given the lower-case extension of its name
/// and the year found in its name.
pub open spec fn outcome_from(
    entry: EntryView,
    lowered: Option<Seq<char>>,
    year: Option<Seq<char>>,
) -> Outcome {
    if !entry.is_file || entry.location.len() == 0 {
        Outcome::NotAFile
    } else {
        match lowered {
            None => Outcome::NoExtension,
            Some(ext) => match category_of(ext) {
                None => Outcome::Unclassified,
                Some(category) => match year {
                    None => Outcome::Undated,
                    Some(year) => Outcome::Place {
                        category,
                        year,
                        in_place: entry.location == target_of(
                            category,
                            year,
                            entry.location.last(),
                        ),
                    },
                },
            },
        }
    }
}

/// The decision for an entry.
pub open spec fn outcome(entry: EntryView) -> Outcome {
    if entry.location.len() == 0 {
        Outcome::NotAFile
    } else {
        let name = entry.location.last();
        outcome_from(entry, lowered_extension_of(name), year_in(name))
    }
}

/// Whether the decision moves the file.
pub open spec fn is_move(outcome: Outcome) -> bool {
    outcome matches Outcome::Place { in_place, .. } && !in_place
}

/// Where the file of an entry is once the decision for it is carried out.
pub open spec fn destination(entry: EntryView) -> Seq<Seq<char>> {
    match outcome(entry) {
        Outcome::Place { category, year, .. } => target_of(category, year, entry.location.last()),
        _ => entry.location,
    }
}

/// Where a file named `name` of `category`, dated in `year`, belongs: the
/// names that lead there from the root.
pub fn target_location(category: MediaCategory, year: &str, name: &str) -> (target: Vec<String>)
    ensures
        names_of(target@) == target_of(category, year@, name@),
{
    let mut target: Vec<String> = Vec::new();
    target.push(category.folder_name().to_owned());
    target.push(year.to_owned());
    target.push(name.to_owned());
    assert(names_of(target@) =~= target_of(category, year@, name@));
    target
}

/// Whether `location` is where its last name belongs for `category` and `year`.
pub fn is_in_place(location: &Vec<String>, category: MediaCategory, year: &str) -> (there: bool)
    ensures
        there == (names_of(location@) == target_of(
            category,
            year@,
            names_of(location@).last(),
        )),
{
    let ghost names = names_of(location@);
    let ghost target = target_of(category, year@, names.last());
    if location.len() != 3 {
        assert(target.len() == 3);
        return false;
    }
    let there = same_text(location[0].as_str(), category.folder_name()) && same_text(
        location[1].as_str(),
        year,
    );
    proof {
        if there {
            assert(names =~= target);
        } else {
            assert(names[0] != target[0] || names[1] != target[1]);
        }
    }
    there
}

/// Decides what to do with `entry`, given the lower-case extension of its
/// name (`None` where the name has no extension) and the year found in its
/// name (`None` where it holds no date).
pub fn resolve(entry: &Entry, lowered: Option<String>, year: Option<String>) -> (decision:
    Decision)
    ensures
        decision@ == outcome_from(entry@, text_of(lowered), text_of(year)),
{
    if !entry.is_file || entry.location.len() == 0 {
        return Decision::NotAFile;
    }
    let ext = match lowered {
        Some(ext) => ext,
        None => {
            return Decision::NoExtension;
        },
    };
    let category = match classify(ext.as_str()) {
        Some(category) => category,
        None => {
            return Decision::Unclassified;
        },
    };
    match year {
        Some(year) => {
            let in_place = is_in_place(&entry.location, category, year.as_str());
            Decision::Place { category, year, in_place }
        },
        None => Decision::Undated,
    }
}

/// Decides what to do with `entry`: whether it is a media file with a date
/// in its name and, if so, in which folder it belongs and whether it is
/// there already.
pub fn decide(pattern: &DatePattern, entry: &Entry) -> (decision: Decision)
    ensures
        decision@ == outcome(entry@),
{
    let n: usize = entry.location.len();
    if !entry.is_file || n == 0 {
        return Decision::NotAFile;
    }
    let name = entry.location[n - 1].as_str();
    assert(name@ == entry@.location.last());
    let lowered = lowered_extension(name);
    let classified = match &lowered {
        Some(ext) => classify(ext.as_str()).is_some(),
        None => false,
    };
    let year = if classified {
        pattern.find_year(name)
    } else {
        None
    };
    resolve(entry, lowered, year)
}

/// The entry for a regular file at `location`.
pub open spec fn file_at(location: Seq<Seq<char>>) -> EntryView {
    EntryView { location, is_file: true }
}

/// A media file with a date in its name ends at `<category>/<year>/<name>`,
/// and it is moved exactly when it is not there already.
pub proof fn lemma_dated_media_is_placed(
    location: Seq<Seq<char>>,
    category: MediaCategory,
    year: Seq<char>,
)
    requires
        location.len() > 0,
        lowered_extension_of(location.last()) matches Some(ext) && category_of(ext) == Some(
            category,
        ),
        year_in(location.last()) == Some(year),
    ensures
        destination(file_at(location)) == target_of(category, year, location.last()),
        is_move(outcome(file_at(location))) <==> location != target_of(
            category,
            year,
            location.last(),
        ),
{
}

/// A file whose name has no extension, or one that belongs to no media
/// category, stays where it is.
pub proof fn lemma_other_files_stay(entry: EntryView)
    requires
        entry.location.len() > 0,
        lowered_extension_of(entry.location.last()) matches Some(ext) ==> category_of(ext)
            is None,
    ensures
        !is_move(outcome(entry)),
        destination(entry) == entry.location,
{
}

/// A file without a date in its name stays where it is, whatever its extension.
pub proof fn lemma_undated_files_stay(entry: EntryView)
    requires
        entry.location.len() > 0,
        year_in(entry.location.last()) is None,
    ensures
        !is_move(outcome(entry)),
        destination(entry) == entry.location,
{
}

/// An entry is moved exactly when it is a regular file, its extension
/// belongs to a media category, its name holds a date, and it is not where
/// it belongs.
pub proof fn lemma_moved_exactly_when(entry: EntryView)
    requires
        entry.location.len() > 0,
    ensures
        is_move(outcome(entry)) <==> {
            &&& entry.is_file
            &&& lowered_extension_of(entry.location.last()) matches Some(ext) && category_of(ext)
                is Some
            &&& year_in(entry.location.last()) is Some
            &&& entry.location != destination(entry)
        },
{
}

/// A file that is where it belongs is left there: an entry is moved exactly
/// when its destination differs from its location.
pub proof fn lemma_file_in_place_is_left(entry: EntryView)
    ensures
        is_move(outcome(entry)) <==> destination(entry) != entry.location,
{
}

/// A move keeps the file's name, and leads to a folder of two names below
/// the root.
pub proof fn lemma_move_keeps_name(entry: EntryView)
    requires
        is_move(outcome(entry)),
    ensures
        destination(entry).len() == 3,
        destination(entry).last() == entry.location.last(),
{
}

/// Once the decision for an entry is carried out, the decision for the
/// entry at its new place moves nothing: the file is where it belongs.
pub proof fn lemma_second_decision_moves_nothing(entry: EntryView)
    ensures
        !is_move(outcome(EntryView { location: destination(entry), is_file: entry.is_file })),
        destination(EntryView { location: destination(entry), is_file: entry.is_file })
            == destination(entry),
{
    let after = EntryView { location: destination(entry), is_file: entry.is_file };
    if is_move(outcome(entry)) {
        assert(after.location.last() == entry.location.last());
    }
}

} // verus!
