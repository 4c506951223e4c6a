//! Metadata resolution from a registry message. Each bibliographic field
//! is extracted independently with its own fallback chain; a missing or
//! ill-shaped field is replaced by a sentinel value and never blocks the
//! other fields. Resolution itself fails only when the message envelope is
//! not an object.

use vstd::prelude::*;
use vstd::string::StringExecFns;
use crate::json::{spec_member, JsonValue};
use crate::models::CrossRefMetadata;
use crate::scan::{dec_digits, u64_to_dec};

verus! {

/// Sentinel title when the title list is absent or empty.
pub open spec fn sentinel_title() -> Seq<char> {
    "Unknown Title"@
}

/// Sentinel surname when no author family name is present.
pub open spec fn sentinel_author() -> Seq<char> {
    "Unknown"@
}

/// Sentinel year when no publication year is present.
pub open spec fn sentinel_year() -> Seq<char> {
    "0000"@
}

/// Sentinel journal when neither container title form is present.
pub open spec fn sentinel_journal() -> Seq<char> {
    "UnknownJournal"@
}

/// The first element of an array value, when it is a string.
pub open spec fn first_string(v: JsonValue) -> Option<Seq<char>> {
    match v {
        JsonValue::Arr(items) => if items.len() > 0 {
            match items[0] {
                JsonValue::Str(s) => Some(s@),
                _ => None,
            }
        } else {
            None
        },
        _ => None,
    }
}

/// The first string of the array member `key`, when present.
pub open spec fn first_string_member(msg: JsonValue, key: Seq<char>) -> Option<Seq<char>> {
    match spec_member(msg, key) {
        Some(v) => first_string(v),
        None => None,
    }
}

/// The resolved title: the first entry of the title list, else the
/// sentinel.
pub open spec fn spec_title_of(msg: JsonValue) -> Seq<char> {
    match first_string_member(msg, "title"@) {
        Some(s) => s,
        None => sentinel_title(),
    }
}

/// The resolved author surname: the family name of the first listed
/// author, else the sentinel.
pub open spec fn spec_author_of(msg: JsonValue) -> Seq<char> {
    match spec_member(msg, "author"@) {
        Some(JsonValue::Arr(items)) => if items.len() > 0 {
            match spec_member(items[0], "family"@) {
                Some(JsonValue::Str(s)) => s@,
                _ => sentinel_author(),
            }
        } else {
            sentinel_author()
        },
        _ => sentinel_author(),
    }
}

/// The resolved publication year: the first element of the first
/// date-parts entry under the creation date, rendered in decimal, else the
/// sentinel.
pub open spec fn spec_year_of(msg: JsonValue) -> Seq<char> {
    match spec_member(msg, "created"@) {
        Some(c) => match spec_member(c, "date-parts"@) {
            Some(JsonValue::Arr(parts)) => if parts.len() > 0 {
                match parts[0] {
                    JsonValue::Arr(inner) => if inner.len() > 0 {
                        match inner[0] {
                            JsonValue::UInt(y) => dec_digits(y as nat),
                            _ => sentinel_year(),
                        }
                    } else {
                        sentinel_year()
                    },
                    _ => sentinel_year(),
                }
            } else {
                sentinel_year()
            },
            _ => sentinel_year(),
        },
        None => sentinel_year(),
    }
}

/// The resolved journal name: the short container title if present, else
/// the full container title, else the sentinel.
pub open spec fn spec_journal_of(msg: JsonValue) -> Seq<char> {
    match first_string_member(msg, "short-container-title"@) {
        Some(s) => s,
        None => match first_string_member(msg, "container-title"@) {
            Some(s) => s,
            None => sentinel_journal(),
        },
    }
}

/// The metadata resolved from a registry response body: nothing when the
/// `message` member is not an object, else the four fields, each from its
/// own fallback chain.
pub open spec fn spec_metadata_of(root: JsonValue) -> Option<
    (Seq<char>, Seq<char>, Seq<char>, Seq<char>),
> {
    match spec_member(root, "message"@) {
        Some(m) => if m is Obj {
            Some((spec_title_of(m), spec_author_of(m), spec_year_of(m), spec_journal_of(m)))
        } else {
            None
        },
        None => None,
    }
}

/// The first string of the array member `key`, when present.
fn first_string_member_exec(msg: &JsonValue, key: &str) -> (r: Option<String>)
    ensures
        match r {
            Some(s) => first_string_member(*msg, key@) == Some(s@),
            None => first_string_member(*msg, key@) is None,
        },
{
    match msg.member(key) {
        Some(v) => match v {
            JsonValue::Arr(items) => if items.len() > 0 {
                match &items[0] {
                    JsonValue::Str(s) => Some(s.clone()),
                    _ => None,
                }
            } else {
                None
            },
            _ => None,
        },
        None => None,
    }
}

/// The resolved title of a message.
fn title_of(msg: &JsonValue) -> (r: String)
    ensures
        r@ == spec_title_of(*msg),
{
    match first_string_member_exec(msg, "title") {
        Some(s) => s,
        None => String::from_str("Unknown Title"),
    }
}

/// The resolved author surname of a message.
fn author_of(msg: &JsonValue) -> (r: String)
    ensures
        r@ == spec_author_of(*msg),
{
    match msg.member("author") {
        Some(v) => match v {
            JsonValue::Arr(items) => if items.len() > 0 {
                match items[0].member("family") {
                    Some(JsonValue::Str(s)) => s.clone(),
                    _ => String::from_str("Unknown"),
                }
            } else {
                String::from_str("Unknown")
            },
            _ => String::from_str("Unknown"),
        },
        None => String::from_str("Unknown"),
    }
}

/// The resolved publication year of a message.
fn year_of(msg: &JsonValue) -> (r: String)
    ensures
        r@ == spec_year_of(*msg),
{
    match msg.member("created") {
        Some(c) => match c.member("date-parts") {
            Some(JsonValue::Arr(parts)) => if parts.len() > 0 {
                match &parts[0] {
                    JsonValue::Arr(inner) => if inner.len() > 0 {
                        match &inner[0] {
                            JsonValue::UInt(y) => u64_to_dec(*y),
                            _ => String::from_str("0000"),
                        }
                    } else {
                        String::from_str("0000")
                    },
                    _ => String::from_str("0000"),
                }
            } else {
                String::from_str("0000")
            },
            _ => String::from_str("0000"),
        },
        None => String::from_str("0000"),
    }
}

/// The resolved journal name of a message.
fn journal_of(msg: &JsonValue) -> (r: String)
    ensures
        r@ == spec_journal_of(*msg),
{
    match first_string_member_exec(msg, "short-container-title") {
        Some(s) => s,
        None => match first_string_member_exec(msg, "container-title") {
            Some(s) => s,
            None => String::from_str("UnknownJournal"),
        },
    }
}

/// Resolve bibliographic metadata from a parsed registry response body.
/// Nothing is produced when the `message` envelope is not an object; with
/// a usable envelope, resolution always succeeds, substituting a sentinel
/// for each absent field.
pub fn metadata_from_envelope(root: &JsonValue) -> (r: Option<CrossRefMetadata>)
    ensures
        match r {
            Some(m) => spec_metadata_of(*root) == Some((m.title@, m.author@, m.year@, m.journal@)),
            None => spec_metadata_of(*root) is None,
        },
{
    match root.member("message") {
        Some(m) => match m {
            JsonValue::Obj(_) => Some(
                CrossRefMetadata {
                    title: title_of(m),
                    author: author_of(m),
                    year: year_of(m),
                    journal: journal_of(m),
                },
            ),
            _ => None,
        },
        None => None,
    }
}

/// The registry request URL for an identifier.
pub fn registry_url(doi: &str) -> (r: String)
    ensures
        r@ == "https://api.crossref.org/works/"@ + doi@,
{
    String::from_str("https://api.crossref.org/works/").concat(doi)
}

/// Fields are independent: each resolved field is a function of its own
/// members alone, so two messages that agree on a field's members agree on
/// that field, whatever their other members hold.
pub proof fn lemma_fields_independent(m1: JsonValue, m2: JsonValue)
    ensures
        spec_member(m1, "title"@) == spec_member(m2, "title"@) ==> spec_title_of(m1)
            == spec_title_of(m2),
        spec_member(m1, "author"@) == spec_member(m2, "author"@) ==> spec_author_of(m1)
            == spec_author_of(m2),
        spec_member(m1, "created"@) == spec_member(m2, "created"@) ==> spec_year_of(m1)
            == spec_year_of(m2),
        (spec_member(m1, "short-container-title"@) == spec_member(m2, "short-container-title"@)
            && spec_member(m1, "container-title"@) == spec_member(m2, "container-title"@))
            ==> spec_journal_of(m1) == spec_journal_of(m2),
{
}

/// A message without an `author` member resolves to the sentinel surname,
/// while the other fields resolve from their own chains untouched.
pub proof fn lemma_author_missing_yields_sentinel(msg: JsonValue)
    requires
        spec_member(msg, "author"@) is None,
    ensures
        spec_author_of(msg) == sentinel_author(),
{
}

} // verus!
