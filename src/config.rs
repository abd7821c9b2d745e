use vstd::prelude::*;

verus! {

/// serde_json's value type, the form in which the store holds its entries;
/// opaque here, read only through `json_str_of`.
#[verifier::external_type_specification]
#[verifier::external_body]
pub struct ExValue(serde_json::Value);

/// What `serde_json::Value::as_str` gives for a value.
pub uninterp spec fn json_str_of(v: serde_json::Value) -> Option<Seq<char>>;

/// Relies on serde_json::Value::as_str: the text of a string value, and
/// nothing for a value of any other kind.
#[verifier::external_body]
fn value_as_str(v: &serde_json::Value) -> (r: Option<String>)
    ensures
        match r {
            Some(s) => json_str_of(*v) == Some(s@),
            None => json_str_of(*v) is None,
        },
{
    v.as_str().map(|s| s.to_string())
}

/// Relies on `From<String>` for serde_json::Value, which builds
/// `Value::String(s)`, and `as_str` of that value is `s`.
#[verifier::external_body]
fn string_value(s: String) -> (r: serde_json::Value)
    ensures
        json_str_of(r) == Some(s@),
{
    serde_json::Value::from(s)
}

/// Name of the store entry that holds the chosen save directory.
pub const SAVE_DIRECTORY_KEY: &'static str = "save_directory";

/// Name of the store file inside the application's config directory.
pub const STORE_FILE: &'static str = "store.json";

/// Name of the folder, under the user's documents, used by default.
pub const DEFAULT_FOLDER: &'static str = "AuraNote";

/// Where notes are saved: a directory the user chose, or the default folder
/// under the user's documents.
#[derive(Debug)]
pub enum SaveDirectory {
    Stored(String),
    Default,
}

impl View for SaveDirectory {
    type V = Option<Seq<char>>;

    open spec fn view(&self) -> Option<Seq<char>> {
        match self {
            SaveDirectory::Stored(p) => Some(p@),
            SaveDirectory::Default => None,
        }
    }
}

/// The save directory that a stored path selects: the path itself while it
/// exists on disk (`None` stands for the default folder).
pub open spec fn save_directory_of(stored: Option<Seq<char>>, stored_exists: bool) -> Option<
    Seq<char>,
> {
    match stored {
        Some(p) => if stored_exists {
            Some(p)
        } else {
            None
        },
        None => None,
    }
}

/// The store entry that records `path` as the save directory.
pub fn save_directory_value(path: &str) -> (r: serde_json::Value)
    ensures
        json_str_of(r) == Some(path@),
{
    string_value(String::from_str(path))
}

/// The path that a store entry holds, if it holds text.
pub fn stored_save_directory(entry: Option<&serde_json::Value>) -> (r: Option<String>)
    ensures
        match entry {
            Some(v) => match r {
                Some(s) => json_str_of(*v) == Some(s@),
                None => json_str_of(*v) is None,
            },
            None => r is None,
        },
{
    match entry {
        Some(v) => value_as_str(v),
        None => None,
    }
}

/// Picks the save directory: the stored path where there is one and it
/// exists on disk, else the default folder. The stored entry is a hint only:
/// nothing is written back.
pub fn get_save_directory(stored: Option<String>, stored_exists: bool) -> (r: SaveDirectory)
    ensures
        r@ == save_directory_of(
            match stored {
                Some(s) => Some(s@),
                None => None,
            },
            stored_exists,
        ),
{
    match stored {
        Some(p) => if stored_exists {
            SaveDirectory::Stored(p)
        } else {
            SaveDirectory::Default
        },
        None => SaveDirectory::Default,
    }
}

/// Storing a directory and reading the setting back gives that directory
/// while it exists on disk; once it is gone, every read gives the default
/// folder, and none gives the stale path back.
pub proof fn lemma_save_directory_round_trip(path: Seq<char>, entry: serde_json::Value, path_exists: bool)
    requires
        json_str_of(entry) == Some(path),
    ensures
        path_exists ==> save_directory_of(json_str_of(entry), path_exists) == Some(path),
        !path_exists ==> save_directory_of(json_str_of(entry), path_exists) is None,
{
}

} // verus!
