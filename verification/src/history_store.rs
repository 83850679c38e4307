//! Where snapshots are kept.

use vstd::prelude::*;
use vstd::string::*;

use crate::snapshot::{self, ConversationSnapshot, SnapshotError, SnapshotModel};

verus! {

/// What an optional snapshot says.
pub open spec fn optional_model(snapshot: Option<ConversationSnapshot>) -> Option<SnapshotModel> {
    match snapshot {
        Some(snapshot) => Some(snapshot@),
        None => None,
    }
}

/// Keeps the last snapshot in memory.
pub struct InMemoryHistoryStore {
    inner: Option<ConversationSnapshot>,
}

impl View for InMemoryHistoryStore {
    type V = Option<SnapshotModel>;

    /// The snapshot that was saved last.
    closed spec fn view(&self) -> Option<SnapshotModel> {
        optional_model(self.inner)
    }
}

impl Default for InMemoryHistoryStore {
    fn default() -> (r: Self)
        ensures
            r@ is None,
    {
        InMemoryHistoryStore { inner: None }
    }
}

impl InMemoryHistoryStore {
    /// A store that was never written to.
    pub fn new() -> (r: Self)
        ensures
            r@ is None,
    {
        Self::default()
    }

    /// Keeps a snapshot in place of an earlier one.
    pub fn save(&mut self, snapshot: &ConversationSnapshot)
        ensures
            final(self)@ == Some(snapshot@),
    {
        self.inner = Some(snapshot.clone());
    }

    /// The snapshot that was saved last, if one was.
    pub fn load(&self) -> (r: Option<ConversationSnapshot>)
        ensures
            optional_model(r) == self@,
    {
        match &self.inner {
            Some(snapshot) => Some(snapshot.clone()),
            None => None,
        }
    }
}

/// What reading a file gave.
pub enum FileRead {
    /// There is no such file.
    Missing,
    /// The file cannot be read; the reason.
    Failed(String),
    /// What the file holds.
    Text(String),
}

/// Why a snapshot file cannot be used.
#[derive(Debug, Clone, PartialEq, Eq)]
pub enum JsonFileHistoryStoreError {
    /// The file cannot be read or written; the reason.
    Io(String),
    /// The file holds no snapshot.
    Json(SnapshotError),
}

impl JsonFileHistoryStoreError {
    /// The error as text.
    pub fn text(&self) -> (r: String)
        ensures
            r@ == (match *self {
                JsonFileHistoryStoreError::Io(reason) => "failed to read/write snapshot file: "@
                    + reason@,
                JsonFileHistoryStoreError::Json(e) => "failed to encode/decode snapshot JSON: "@
                    + snapshot::snapshot_error_text(e),
            }),
    {
        match self {
            JsonFileHistoryStoreError::Io(reason) => {
                let mut out = "failed to read/write snapshot file: ".to_owned();
                out.append(reason.as_str());
                out
            },
            JsonFileHistoryStoreError::Json(e) => {
                let mut out = "failed to encode/decode snapshot JSON: ".to_owned();
                let reason = e.text();
                out.append(reason.as_str());
                out
            },
        }
    }
}

/// Keeps the last snapshot in a JSON file.
pub struct JsonFileHistoryStore {
    path: String,
}

impl JsonFileHistoryStore {
    /// Where the file is.
    pub closed spec fn place(&self) -> Seq<char> {
        self.path@
    }

    /// A store in the file at `path`.
    pub fn new(path: &str) -> (r: Self)
        ensures
            r.place() == path@,
    {
        JsonFileHistoryStore { path: path.to_owned() }
    }

    /// Where the file is.
    pub fn path(&self) -> (r: &str)
        ensures
            r@ == self.place(),
    {
        self.path.as_str()
    }

    /// The snapshot in a file that was read. A file that is not there holds none.
    pub fn loaded(read: FileRead) -> (r: Result<
        Option<ConversationSnapshot>,
        JsonFileHistoryStoreError,
    >)
        ensures
            match read {
                FileRead::Missing => r matches Ok(None),
                FileRead::Failed(reason) => r matches Err(JsonFileHistoryStoreError::Io(e)) && e
                    == reason,
                FileRead::Text(text) => match r {
                    Ok(Some(snapshot)) => snapshot::is_text_reading(text@, Ok(snapshot)),
                    Ok(None) => false,
                    Err(JsonFileHistoryStoreError::Json(e)) => snapshot::is_text_reading(
                        text@,
                        Err(e),
                    ),
                    Err(JsonFileHistoryStoreError::Io(_)) => false,
                },
            },
    {
        match read {
            FileRead::Missing => Ok(None),
            FileRead::Failed(reason) => Err(JsonFileHistoryStoreError::Io(reason)),
            FileRead::Text(text) => match ConversationSnapshot::from_text(text.as_str()) {
                Ok(snapshot) => Ok(Some(snapshot)),
                Err(e) => Err(JsonFileHistoryStoreError::Json(e)),
            },
        }
    }
}

} // verus!
