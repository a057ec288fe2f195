use vstd::prelude::*;
use vstd::string::StrSliceExecFns;
use vstd::utf8::decode_utf8;
use vstd::utf8::encode_utf8;
use vstd::utf8::valid_utf8;

verus! {

/// Seconds after its last modification from which a cache file is stale.
pub const FRESH_SECS: u64 = 3600;

/// What opening the backing file and asking for its modification time gave.
#[derive(Debug, Clone, Copy, PartialEq, Eq, Structural)]
pub enum Probe {
    /// The file could not be opened; it may not exist.
    Unopened,
    /// The file was opened, but its metadata could not be had.
    NoMetadata,
    /// The metadata holds no modification time.
    NoModified,
    /// The file was last modified this many whole seconds ago.
    Modified { elapsed_secs: u64 },
}

/// Why a value could not be stored.
#[derive(Debug, Clone, Copy, PartialEq, Eq, Structural)]
pub enum WriteError {
    /// The value could not be serialised.
    Serialize,
    /// The backing file could not be created.
    Create,
    /// The serialised value could not be written out in full.
    Write,
}

/// A cache of one serialised value in one file, good for an hour after the
/// file was last written.
pub struct JsonStorage {
    pub filename: String,
}

/// Whether a file that answered `probe` is there and younger than an hour.
pub open spec fn spec_is_fresh(probe: Probe) -> bool {
    match probe {
        Probe::Modified { elapsed_secs } => elapsed_secs < 3600,
        _ => false,
    }
}

/// The text that file contents stand for: none where the file could not be
/// read, is empty, or does not hold UTF-8.
pub open spec fn spec_read_data(contents: Option<Seq<u8>>) -> Option<Seq<char>> {
    match contents {
        Some(bytes) if bytes.len() > 0 && valid_utf8(bytes) => Some(decode_utf8(bytes)),
        _ => None,
    }
}

/// The text of the cached value, where the file is fresh and holds one.
pub open spec fn spec_get_stored_data(probe: Probe, contents: Option<Seq<u8>>) -> Option<
    Seq<char>,
> {
    if spec_is_fresh(probe) {
        spec_read_data(contents)
    } else {
        None
    }
}

/// A backing file as the cache sees it: absent, or the second of its last
/// modification and its contents.
pub open spec fn file_after_store(text: Seq<char>, now: int) -> Option<(int, Seq<u8>)> {
    Some((now, encode_utf8(text)))
}

/// What probing `file` gives at the second `now`, where nothing fails but
/// the opening of an absent file.
pub open spec fn probe_at(file: Option<(int, Seq<u8>)>, now: int) -> Probe {
    match file {
        None => Probe::Unopened,
        Some(found) => Probe::Modified { elapsed_secs: (now - found.0) as u64 },
    }
}

/// What reading `file` in full gives.
pub open spec fn contents_at(file: Option<(int, Seq<u8>)>) -> Option<Seq<u8>> {
    match file {
        None => None,
        Some(found) => Some(found.1),
    }
}

/// What a read of `file` at the second `now` returns.
pub open spec fn read_at(file: Option<(int, Seq<u8>)>, now: int) -> Option<Seq<char>> {
    spec_get_stored_data(probe_at(file, now), contents_at(file))
}

/// The bytes read, as a sequence.
pub open spec fn bytes_view(contents: Option<Vec<u8>>) -> Option<Seq<u8>> {
    match contents {
        Some(bytes) => Some(bytes@),
        None => None,
    }
}

/// The text returned, as a sequence.
pub open spec fn text_view(text: Option<String>) -> Option<Seq<char>> {
    match text {
        Some(t) => Some(t@),
        None => None,
    }
}

/// Calls `String::from_utf8`, which accepts exactly the byte sequences that
/// are UTF-8 and then holds the text that they encode.
#[verifier::external_body]
fn text_of(bytes: Vec<u8>) -> (text: Option<String>)
    ensures
        text is Some <==> valid_utf8(bytes@),
        text is Some ==> text.unwrap()@ == decode_utf8(bytes@),
{
    String::from_utf8(bytes).ok()
}

impl JsonStorage {
    /// A cache in the file of this name.
    pub fn new(filename: String) -> (storage: Self)
        ensures
            storage.filename == filename,
    {
        JsonStorage { filename }
    }

    /// Whether the file is to be created, empty: it is on the first access
    /// that does not find it.
    pub fn is_missing(&self, probe: &Probe) -> (missing: bool)
        ensures
            missing == (*probe == Probe::Unopened),
    {
        match probe {
            Probe::Unopened => true,
            _ => false,
        }
    }

    /// Whether the file is worth reading: it is there and was modified less
    /// than an hour ago.
    pub fn is_fresh(&self, probe: &Probe) -> (fresh: bool)
        ensures
            fresh == spec_is_fresh(*probe),
    {
        match probe {
            Probe::Modified { elapsed_secs } => *elapsed_secs < FRESH_SECS,
            _ => false,
        }
    }

    /// The text in the bytes read from the file; `None` stands for a read
    /// that failed.
    pub fn read_data(&self, contents: Option<Vec<u8>>) -> (text: Option<String>)
        ensures
            text_view(text) == spec_read_data(bytes_view(contents)),
    {
        match contents {
            None => None,
            Some(bytes) => {
                if bytes.len() == 0 {
                    None
                } else {
                    text_of(bytes)
                }
            },
        }
    }

    /// The text of the cached value: what the file holds, where it is fresh
    /// and holds non-empty UTF-8, and nothing in every other case.
    pub fn get_stored_data(&self, probe: &Probe, contents: Option<Vec<u8>>) -> (text: Option<
        String,
    >)
        ensures
            text_view(text) == spec_get_stored_data(*probe, bytes_view(contents)),
    {
        if self.is_fresh(probe) {
            self.read_data(contents)
        } else {
            None
        }
    }

    /// The bytes that replace the file's contents; `None` stands for a value
    /// that could not be serialised.
    pub fn store(&self, serialized: Option<String>) -> (bytes: Result<Vec<u8>, WriteError>)
        ensures
            serialized is None ==> bytes == Err::<Vec<u8>, WriteError>(WriteError::Serialize),
            serialized is Some ==> bytes is Ok && bytes.unwrap()@ == encode_utf8(
                serialized.unwrap()@,
            ),
    {
        match serialized {
            None => Err(WriteError::Serialize),
            Some(text) => Ok(text.as_str().as_bytes_vec()),
        }
    }

    /// The outcome of a store whose value was serialised: whether the file
    /// was created, and if so whether the bytes were written in full.
    pub fn stored(&self, created: bool, written: bool) -> (outcome: Result<(), WriteError>)
        ensures
            outcome == (if !created {
                Err::<(), WriteError>(WriteError::Create)
            } else if !written {
                Err::<(), WriteError>(WriteError::Write)
            } else {
                Ok::<(), WriteError>(())
            }),
    {
        if !created {
            Err(WriteError::Create)
        } else if !written {
            Err(WriteError::Write)
        } else {
            Ok(())
        }
    }
}

/// Round trip: a non-empty text stored at the second `stored_at` is what a
/// read returns at any second `now` less than an hour later.
pub proof fn read_after_store(text: Seq<char>, stored_at: int, now: int)
    requires
        text.len() > 0,
        0 <= stored_at <= now < stored_at + 3600,
    ensures
        read_at(file_after_store(text, stored_at), now) == Some(text),
{
    vstd::utf8::encode_utf8_valid_utf8(text);
    vstd::utf8::encode_utf8_decode_utf8(text);
    if encode_utf8(text).len() == 0 {
        assert(decode_utf8(encode_utf8(text)).len() == 0);
    }
}

/// Cold start: with no file a read returns nothing, whatever the time; once
/// a non-empty text was stored, a read within the hour returns it.
pub proof fn read_without_file(text: Seq<char>, first: int, stored_at: int, now: int)
    requires
        text.len() > 0,
        0 <= stored_at <= now < stored_at + 3600,
    ensures
        read_at(None, first) is None,
        read_at(file_after_store(text, stored_at), now) == Some(text),
{
    read_after_store(text, stored_at, now);
}

/// Staleness: a file modified an hour ago or earlier gives nothing, whatever
/// it holds.
pub proof fn stale_file_gives_nothing(elapsed_secs: u64, contents: Option<Seq<u8>>)
    requires
        elapsed_secs >= 3600,
    ensures
        spec_get_stored_data(Probe::Modified { elapsed_secs }, contents) is None,
{
}

/// Corruption: bytes that are not UTF-8 give nothing, however fresh the
/// file is.
pub proof fn broken_file_gives_nothing(probe: Probe, bytes: Seq<u8>)
    requires
        !valid_utf8(bytes),
    ensures
        spec_get_stored_data(probe, Some(bytes)) is None,
{
}

} // verus!
