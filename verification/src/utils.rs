//! Small helpers on paths, time and identifiers.

use std::path::Path;
use std::time::SystemTime;
use vstd::prelude::*;
use vstd::string::StrSliceExecFns;
use vstd::utf8::encode_utf8;

verus! {

/// The final component of a path, as `std::path::Path::file_name` reads
/// it on the platform the library is built for; `None` where the path
/// has none.
pub uninterp spec fn path_file_name(path: Seq<char>) -> Option<Seq<char>>;

/// A path without its final component, as `std::path::Path::parent` reads
/// it on the platform the library is built for; `None` where the path has
/// none.
pub uninterp spec fn path_parent(path: Seq<char>) -> Option<Seq<char>>;

/// The length of a text in bytes.
pub open spec fn byte_len(text: Seq<char>) -> nat {
    encode_utf8(text).len()
}

/// What a directory listing says of one entry.
pub struct DirEntry {
    pub path: String,
    pub is_file: bool,
}

/// What a [`DirEntry`] says, as mathematical values.
pub struct Listed {
    pub path: Seq<char>,
    pub is_file: bool,
}

impl View for DirEntry {
    type V = Listed;

    open spec fn view(&self) -> Listed {
        Listed { path: self.path@, is_file: self.is_file }
    }
}

/// The entries that a directory listing stands for.
pub open spec fn listing(entries: Seq<DirEntry>) -> Seq<Listed> {
    entries.map_values(|entry: DirEntry| entry@)
}

/// Whether two texts hold the same characters. Where one text is held
/// against many, it is better copied once and compared as a string.
pub(crate) fn str_eq(left: &str, right: &str) -> (equal: bool)
    ensures
        equal == (left@ == right@),
{
    left.to_owned() == right.to_owned()
}

/// Calls `starts_with` of `str`: whether a text begins with another.
#[verifier::external_body]
pub(crate) fn starts_with(text: &str, prefix: &str) -> (begins: bool)
    ensures
        begins == prefix@.is_prefix_of(text@),
{
    text.starts_with(prefix)
}

/// A text without the white space at its ends, as `trim` of `str` gives
/// it.
pub uninterp spec fn trimmed(text: Seq<char>) -> Seq<char>;

/// Calls `trim` of `str` and copies what is left.
#[verifier::external_body]
pub(crate) fn trim(text: &str) -> (inner: String)
    ensures
        inner@ == trimmed(text@),
{
    text.trim().to_string()
}

/// A text in which every occurrence of one text is replaced by another, as
/// `replace` of `str` gives it.
pub uninterp spec fn replaced(text: Seq<char>, from: Seq<char>, to: Seq<char>) -> Seq<char>;

/// Calls `replace` of `str`.
#[verifier::external_body]
pub(crate) fn replace(text: &str, from: &str, to: &str) -> (changed: String)
    ensures
        changed@ == replaced(text@, from@, to@),
{
    text.replace(from, to)
}

/// What the first group of a pattern captures in the leftmost match of the
/// pattern in a text, as the `regex` crate finds it; `None` where the
/// pattern is not one, matches nowhere, or matches without that group.
pub uninterp spec fn first_group(pattern: Seq<char>, text: Seq<char>) -> Option<Seq<char>>;

/// Calls `regex::Regex::new` on the pattern and `captures` on the text,
/// and copies what group 1 holds.
#[verifier::external_body]
pub(crate) fn capture_first_group(pattern: &str, text: &str) -> (group: Option<String>)
    ensures
        group is Some == first_group(pattern@, text@) is Some,
        group is Some ==> group->0@ == first_group(pattern@, text@)->0,
{
    let regex = regex::Regex::new(pattern).ok()?;
    regex.captures(text)?.get(1).map(|group| group.as_str().to_string())
}

/// Calls `std::path::Path::parent` and hands the directory back as text.
#[verifier::external_body]
fn parent_of(path: &str) -> (directory: Option<String>)
    ensures
        directory is Some == path_parent(path@) is Some,
        directory is Some ==> directory->0@ == path_parent(path@)->0,
{
    Path::new(path).parent().and_then(|p| p.to_str()).map(|p| p.to_string())
}

/// Calls `std::path::Path::file_name` and hands the name back as text.
#[verifier::external_body]
fn file_name_of(path: &str) -> (name: Option<String>)
    ensures
        name is Some == path_file_name(path@) is Some,
        name is Some ==> name->0@ == path_file_name(path@)->0,
{
    Path::new(path).file_name().and_then(|p| p.to_str()).map(|p| p.to_string())
}

/// The directory that a path lies in: the path without its final
/// component, if it has one.
pub fn get_directory_from_path(path: &str) -> (directory: Option<String>)
    ensures
        directory is Some == path_parent(path@) is Some,
        directory is Some ==> directory->0@ == path_parent(path@)->0,
{
    parent_of(path)
}

/// The file name of a path: its final component, if it has one.
pub fn get_filename_from_path(path: &str) -> (name: Option<String>)
    ensures
        name is Some == path_file_name(path@) is Some,
        name is Some ==> name->0@ == path_file_name(path@)->0,
{
    file_name_of(path)
}

/// Calls `std::time::SystemTime::elapsed` on the Unix epoch: whole seconds
/// since then, or `None` where the clock stands before it.
#[verifier::external_body]
fn seconds_since_epoch() -> Option<u64> {
    SystemTime::UNIX_EPOCH.elapsed().ok().map(|d| d.as_secs())
}

/// The current time in whole seconds since the Unix epoch; 0 where the
/// clock stands before it.
pub fn get_current_timestamp() -> u64 {
    timestamp_of(seconds_since_epoch())
}

/// The time that a reading of the clock stands for: the seconds it gave,
/// or 0 where it gave none because the clock stood before the Unix epoch.
pub fn timestamp_of(elapsed: Option<u64>) -> (timestamp: u64)
    ensures
        timestamp == match elapsed {
            Some(seconds) => seconds,
            None => 0,
        },
{
    match elapsed {
        Some(seconds) => seconds,
        None => 0,
    }
}

/// Whether a character is a digit or a lower-case letter of hex text.
pub open spec fn is_lower_hex(c: char) -> bool {
    ('0' <= c && c <= '9') || ('a' <= c && c <= 'f')
}

/// Whether a position of the 36 of a written identifier holds a hyphen.
pub open spec fn is_hyphen_place(at: int) -> bool {
    at == 8 || at == 13 || at == 18 || at == 23
}

/// The written form of an identifier: 36 characters, lower-case hex digits
/// in five groups of 8, 4, 4, 4 and 12 with a hyphen between them.
pub open spec fn is_uuid_text(text: Seq<char>) -> bool {
    &&& text.len() == 36
    &&& forall|at: int|
        0 <= at < 36 ==> if is_hyphen_place(at) {
            #[trigger] text[at] == '-'
        } else {
            is_lower_hex(text[at])
        }
}

/// Calls `uuid::Uuid::new_v4` and writes the identifier out: a random
/// identifier in the hyphenated lower-case form. Which one is not known.
#[verifier::external_body]
pub(crate) fn new_uuid() -> (text: String)
    ensures
        is_uuid_text(text@),
{
    uuid::Uuid::new_v4().to_string()
}

/// The decimal digit of a value below 10.
pub open spec fn decimal_digit(value: int) -> char {
    if value == 0 {
        '0'
    } else if value == 1 {
        '1'
    } else if value == 2 {
        '2'
    } else if value == 3 {
        '3'
    } else if value == 4 {
        '4'
    } else if value == 5 {
        '5'
    } else if value == 6 {
        '6'
    } else if value == 7 {
        '7'
    } else if value == 8 {
        '8'
    } else {
        '9'
    }
}

/// The decimal digits of a natural number, without leading zeros.
pub open spec fn digits(value: nat) -> Seq<char>
    decreases value,
{
    if value < 10 {
        seq![decimal_digit(value as int)]
    } else {
        digits(value / 10).push(decimal_digit((value % 10) as int))
    }
}

/// An integer written in decimal, with a minus sign where it is negative.
pub open spec fn decimal(value: int) -> Seq<char> {
    if value < 0 {
        seq!['-'] + digits((-value) as nat)
    } else {
        digits(value as nat)
    }
}

/// Calls `to_string` of `i64`: the number written in decimal.
#[verifier::external_body]
pub(crate) fn i64_to_string(value: i64) -> (text: String)
    ensures
        text@ == decimal(value as int),
{
    value.to_string()
}

/// The position of the last `.` in a text, or -1 where it holds none.
pub open spec fn last_dot(text: Seq<char>) -> int
    decreases text.len(),
{
    if text.len() == 0 {
        -1
    } else if text.last() == '.' {
        text.len() - 1
    } else {
        last_dot(text.drop_last())
    }
}

/// What follows the last `.` of a text; the whole text where it holds
/// none.
pub open spec fn extension_of(text: Seq<char>) -> Seq<char> {
    text.subrange(last_dot(text) + 1, text.len() as int)
}

/// What follows the last `.` of a path; the whole path where it holds
/// none. Always `Some`.
pub fn get_extension_from_path(path: &str) -> (extension: Option<String>)
    ensures
        extension.is_some(),
        extension.unwrap()@ == extension_of(path@),
{
    let total = path.unicode_len();
    let mut start: usize = 0;
    let mut seen: usize = 0;
    for c in it: path.chars()
        invariant
            it.seq() == path@,
            total == path@.len(),
            seen == it.index(),
            start <= seen <= total,
            start == last_dot(path@.take(seen as int)) + 1,
    {
        proof {
            let next = path@.take(seen + 1);
            assert(next.drop_last() == path@.take(seen as int));
            assert(next.last() == c);
        }
        seen = seen + 1;
        if c == '.' {
            start = seen;
        }
    }
    proof {
        assert(path@.take(seen as int) == path@);
    }
    Some(path.substring_char(start, seen).to_owned())
}

/// Whether a listed entry is a file whose name begins with a name.
pub open spec fn named_like(name: Seq<char>, entry: Listed) -> bool {
    entry.is_file && path_file_name(entry.path) is Some && name.is_prefix_of(
        path_file_name(entry.path)->0,
    )
}

/// The place in a listing of the first file whose name begins with a
/// name; the length of the listing where there is none.
pub open spec fn first_named_like(name: Seq<char>, entries: Seq<Listed>, from: int) -> int
    decreases entries.len() - from,
{
    if from < 0 || from >= entries.len() {
        entries.len() as int
    } else if named_like(name, entries[from]) {
        from
    } else {
        first_named_like(name, entries, from + 1)
    }
}

/// Finds, in the listing of a directory, the file that a path without its
/// extension stands for: the first file whose name begins with the file
/// name of the path. A path without a file name stands for none.
pub fn get_file_with_extension(input_path: &str, entries: &Vec<DirEntry>) -> (found: Option<
    String,
>)
    ensures
        match path_file_name(input_path@) {
            Some(name) => {
                let at = first_named_like(name, listing(entries@), 0);
                if at < entries@.len() {
                    found is Some && found->0@ == entries@[at].path@
                } else {
                    found is None
                }
            },
            None => found is None,
        },
{
    let name = match get_filename_from_path(input_path) {
        Some(name) => name,
        None => {
            return None;
        },
    };
    let ghost listed = listing(entries@);
    let mut at: usize = 0;
    while at < entries.len()
        invariant
            at <= entries@.len(),
            listed == listing(entries@),
            path_file_name(input_path@) == Some(name@),
            first_named_like(name@, listed, 0) == first_named_like(name@, listed, at as int),
        decreases entries@.len() - at,
    {
        let entry = &entries[at];
        if entry.is_file {
            match get_filename_from_path(entry.path.as_str()) {
                Some(entry_name) => {
                    if starts_with(entry_name.as_str(), name.as_str()) {
                        assert(named_like(name@, listed[at as int]));
                        return Some(entry.path.clone());
                    }
                },
                None => {},
            }
        }
        assert(!named_like(name@, listed[at as int]));
        at = at + 1;
    }
    None
}

} // verus!
