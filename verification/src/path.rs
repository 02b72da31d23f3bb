//! Paths of transcript files.

use std::path::{Component, PathBuf, Prefix};
use vstd::prelude::*;

verus! {

/// `std::path::PathBuf`, carried through unread: the clauses of this crate only ever say that a
/// path is the one that was handed in.
#[verifier::external_type_specification]
#[verifier::external_body]
pub struct ExPathBuf(std::path::PathBuf);

/// `PathBuf::clone` gives the same path again.
pub assume_specification[ <PathBuf as Clone>::clone ](path: &PathBuf) -> (copy: PathBuf)
    ensures
        copy == *path,
;

/// Calls `std::path::Path::is_absolute`. Which spellings count as absolute differs between
/// operating systems, so nothing is claimed of the answer.
#[verifier::external_body]
fn is_absolute(path: &PathBuf) -> (absolute: bool) {
    path.is_absolute()
}

/// Calls `std::path::Path::components` and hands out the bytes of each component. How a path
/// falls into components differs between operating systems, so nothing is claimed of them.
#[verifier::external_body]
fn components(path: &PathBuf) -> (parts: Vec<Vec<u8>>) {
    path.components().map(|part| part.as_os_str().as_encoded_bytes().to_vec()).collect()
}

/// Calls `std::path::PrefixComponent::kind` on the prefix that the path begins with, if it begins
/// with one: that is the drive or share that the prefix names, however it is spelled. Only some
/// operating systems know prefixes, so nothing is claimed of the answer.
#[verifier::external_body]
fn prefix(path: &PathBuf) -> (prefix: Option<PathPrefix>) {
    match path.components().next() {
        Some(Component::Prefix(part)) => Some(match part.kind() {
            Prefix::Verbatim(a) => PathPrefix::Verbatim(a.as_encoded_bytes().to_vec()),
            Prefix::VerbatimUNC(a, b) =>
                PathPrefix::VerbatimUnc(a.as_encoded_bytes().to_vec(), b.as_encoded_bytes().to_vec()),
            Prefix::VerbatimDisk(a) => PathPrefix::VerbatimDisk(a),
            Prefix::DeviceNS(a) => PathPrefix::DeviceNs(a.as_encoded_bytes().to_vec()),
            Prefix::UNC(a, b) =>
                PathPrefix::Unc(a.as_encoded_bytes().to_vec(), b.as_encoded_bytes().to_vec()),
            Prefix::Disk(a) => PathPrefix::Disk(a),
        }),
        _ => None,
    }
}

/// The drive or share that a path begins with, read for what it names rather than how it is
/// spelled.
#[derive(Debug)]
pub enum PathPrefix {
    Verbatim(Vec<u8>),
    VerbatimUnc(Vec<u8>, Vec<u8>),
    VerbatimDisk(u8),
    DeviceNs(Vec<u8>),
    Unc(Vec<u8>, Vec<u8>),
    Disk(u8),
}

/// The mathematical value of a [`PathPrefix`].
pub enum PrefixModel {
    Verbatim(Seq<u8>),
    VerbatimUnc(Seq<u8>, Seq<u8>),
    VerbatimDisk(u8),
    DeviceNs(Seq<u8>),
    Unc(Seq<u8>, Seq<u8>),
    Disk(u8),
}

impl View for PathPrefix {
    type V = PrefixModel;

    open spec fn view(&self) -> PrefixModel {
        match self {
            PathPrefix::Verbatim(a) => PrefixModel::Verbatim(a@),
            PathPrefix::VerbatimUnc(a, b) => PrefixModel::VerbatimUnc(a@, b@),
            PathPrefix::VerbatimDisk(a) => PrefixModel::VerbatimDisk(*a),
            PathPrefix::DeviceNs(a) => PrefixModel::DeviceNs(a@),
            PathPrefix::Unc(a, b) => PrefixModel::Unc(a@, b@),
            PathPrefix::Disk(a) => PrefixModel::Disk(*a),
        }
    }
}

/// The mathematical value of an optional prefix.
pub open spec fn prefix_model(prefix: Option<PathPrefix>) -> Option<PrefixModel> {
    match prefix {
        Some(prefix) => Some(prefix@),
        None => None,
    }
}

impl Clone for PathPrefix {
    fn clone(&self) -> (copy: Self)
        ensures
            copy@ == self@,
    {
        match self {
            PathPrefix::Verbatim(a) => PathPrefix::Verbatim(copy_bytes(a)),
            PathPrefix::VerbatimUnc(a, b) => PathPrefix::VerbatimUnc(copy_bytes(a), copy_bytes(b)),
            PathPrefix::VerbatimDisk(a) => PathPrefix::VerbatimDisk(*a),
            PathPrefix::DeviceNs(a) => PathPrefix::DeviceNs(copy_bytes(a)),
            PathPrefix::Unc(a, b) => PathPrefix::Unc(copy_bytes(a), copy_bytes(b)),
            PathPrefix::Disk(a) => PathPrefix::Disk(*a),
        }
    }
}

impl PartialEq for PathPrefix {
    fn eq(&self, other: &Self) -> (same: bool) {
        match (self, other) {
            (PathPrefix::Verbatim(a), PathPrefix::Verbatim(c)) => same_bytes(a, c),
            (PathPrefix::VerbatimUnc(a, b), PathPrefix::VerbatimUnc(c, d)) => same_bytes(a, c)
                && same_bytes(b, d),
            (PathPrefix::VerbatimDisk(a), PathPrefix::VerbatimDisk(c)) => *a == *c,
            (PathPrefix::DeviceNs(a), PathPrefix::DeviceNs(c)) => same_bytes(a, c),
            (PathPrefix::Unc(a, b), PathPrefix::Unc(c, d)) => same_bytes(a, c) && same_bytes(b, d),
            (PathPrefix::Disk(a), PathPrefix::Disk(c)) => *a == *c,
            _ => false,
        }
    }
}

impl Eq for PathPrefix {

}

impl vstd::std_specs::cmp::PartialEqSpecImpl for PathPrefix {
    open spec fn obeys_eq_spec() -> bool {
        true
    }

    open spec fn eq_spec(&self, other: &Self) -> bool {
        self@ == other@
    }
}

/// What the turn rules know of a path: the path itself, whether it is absolute, the drive or
/// share that it begins with, and all its components, a spelled-out prefix among them.
pub struct PathModel {
    pub file: PathBuf,
    pub absolute: bool,
    pub prefix: Option<PrefixModel>,
    pub components: Seq<Seq<u8>>,
}

impl PathModel {
    /// The components behind the prefix.
    pub open spec fn behind_prefix(self) -> Seq<Seq<u8>> {
        if self.prefix is Some && self.components.len() > 0 {
            self.components.drop_first()
        } else {
            self.components
        }
    }

    /// Two spellings name the same path when their prefixes name the same drive or share and the
    /// components behind them are the same.
    pub open spec fn same_path(self, other: PathModel) -> bool {
        self.prefix == other.prefix && self.behind_prefix() == other.behind_prefix()
    }
}

/// Byte strings by value.
pub open spec fn bytes_model(parts: Seq<Vec<u8>>) -> Seq<Seq<u8>> {
    Seq::new(parts.len(), |i: int| parts[i]@)
}

/// The path of a transcript, read once for what the turn rules ask of it.
#[derive(Debug)]
pub struct TranscriptPath {
    file: PathBuf,
    absolute: bool,
    prefix: Option<PathPrefix>,
    components: Vec<Vec<u8>>,
}

impl View for TranscriptPath {
    type V = PathModel;

    closed spec fn view(&self) -> PathModel {
        PathModel {
            file: self.file,
            absolute: self.absolute,
            prefix: prefix_model(self.prefix),
            components: bytes_model(self.components@),
        }
    }
}

/// Whether two byte strings are equal.
fn same_bytes(left: &Vec<u8>, right: &Vec<u8>) -> (same: bool)
    ensures
        same == (left@ == right@),
{
    if left.len() != right.len() {
        return false;
    }
    let mut i: usize = 0;
    while i < left.len()
        invariant
            left@.len() == right@.len(),
            i <= left@.len(),
            forall|j: int| 0 <= j < i ==> left@[j] == right@[j],
        decreases left@.len() - i,
    {
        if left[i] != right[i] {
            return false;
        }
        i = i + 1;
    }
    assert(left@ =~= right@);
    true
}

/// A copy of a byte string.
fn copy_bytes(bytes: &Vec<u8>) -> (copy: Vec<u8>)
    ensures
        copy@ == bytes@,
{
    let copy = bytes.clone();
    assert(copy@ =~= bytes@);
    copy
}

impl TranscriptPath {
    /// Reads `file` for whether it is absolute, for its prefix and for its components. All three
    /// are whatever the operating system's path rules answer; the path itself is kept as it was
    /// given.
    pub fn new(file: PathBuf) -> (path: TranscriptPath)
        ensures
            path@.file == file,
    {
        let absolute = is_absolute(&file);
        let prefix = prefix(&file);
        let components = components(&file);
        TranscriptPath::with_answers(file, absolute, prefix, components)
    }

    /// The path `file`, given what the operating system's path rules answer of it.
    pub fn with_answers(
        file: PathBuf,
        absolute: bool,
        prefix: Option<PathPrefix>,
        components: Vec<Vec<u8>>,
    ) -> (path: TranscriptPath)
        ensures
            path@ == (PathModel {
                file,
                absolute,
                prefix: prefix_model(prefix),
                components: bytes_model(components@),
            }),
    {
        TranscriptPath { file, absolute, prefix, components }
    }

    /// Where the components behind the prefix begin.
    fn start_behind_prefix(&self) -> (start: usize)
        ensures
            start <= self@.components.len(),
            self@.behind_prefix() == self@.components.skip(start as int),
    {
        if self.prefix.is_some() && self.components.len() > 0 {
            assert(self@.components.drop_first() =~= self@.components.skip(1));
            1
        } else {
            assert(self@.components =~= self@.components.skip(0));
            0
        }
    }

    /// The path as it was given.
    pub fn file(&self) -> (file: &PathBuf)
        ensures
            *file == self@.file,
    {
        &self.file
    }

    /// Whether the path is absolute.
    pub fn absolute(&self) -> (absolute: bool)
        ensures
            absolute == self@.absolute,
    {
        self.absolute
    }
}

impl Clone for TranscriptPath {
    fn clone(&self) -> (copy: Self)
        ensures
            copy@ == self@,
    {
        let mut components: Vec<Vec<u8>> = Vec::new();
        let mut i: usize = 0;
        while i < self.components.len()
            invariant
                i <= self.components@.len(),
                components@.len() == i,
                forall|j: int| 0 <= j < i ==> #[trigger] components@[j]@ == self.components@[j]@,
            decreases self.components@.len() - i,
        {
            components.push(copy_bytes(&self.components[i]));
            i = i + 1;
        }
        let prefix = match &self.prefix {
            Some(prefix) => Some(prefix.clone()),
            None => None,
        };
        let copy = TranscriptPath {
            file: self.file.clone(),
            absolute: self.absolute,
            prefix,
            components,
        };
        assert(copy@.components =~= self@.components);
        copy
    }
}

impl PartialEq for TranscriptPath {
    fn eq(&self, other: &Self) -> (same: bool) {
        let same_prefix = match (&self.prefix, &other.prefix) {
            (Some(prefix), Some(expected)) => *prefix == *expected,
            (None, None) => true,
            _ => false,
        };
        if !same_prefix {
            return false;
        }
        let start: usize = self.start_behind_prefix();
        let other_start: usize = other.start_behind_prefix();
        let count: usize = self.components.len() - start;
        if count != other.components.len() - other_start {
            assert(self@.behind_prefix().len() != other@.behind_prefix().len());
            return false;
        }
        let mut i: usize = 0;
        while i < count
            invariant
                start <= self.components@.len(),
                other_start <= other.components@.len(),
                count == self.components@.len() - start,
                count == other.components@.len() - other_start,
                self@.behind_prefix() == self@.components.skip(start as int),
                other@.behind_prefix() == other@.components.skip(other_start as int),
                count + start <= usize::MAX,
                count + other_start <= usize::MAX,
                i <= count,
                forall|j: int|
                    0 <= j < i ==> #[trigger] self@.behind_prefix()[j] == other@.behind_prefix()[j],
            decreases count - i,
        {
            assert(self@.behind_prefix()[i as int] == self.components@[start + i]@);
            assert(other@.behind_prefix()[i as int] == other.components@[other_start + i]@);
            if !same_bytes(&self.components[start + i], &other.components[other_start + i]) {
                return false;
            }
            i = i + 1;
        }
        assert(self@.behind_prefix() =~= other@.behind_prefix());
        true
    }
}

impl Eq for TranscriptPath {

}

impl vstd::std_specs::cmp::PartialEqSpecImpl for TranscriptPath {
    open spec fn obeys_eq_spec() -> bool {
        true
    }

    open spec fn eq_spec(&self, other: &Self) -> bool {
        self@.same_path(other@)
    }
}

} // verus!
