use vstd::prelude::*;

verus! {

/// Name under which the key is persisted and mirrored into the environment.
pub const KEY_NAME: &'static str = "OPENAI_API_KEY";

/// The one line of the persisted record for the key `value`:
/// the key name, `=`, the value and a line break.
pub open spec fn persisted_record_spec(value: Seq<char>) -> Seq<char> {
    KEY_NAME@ + "="@ + value + "\n"@
}

/// The text that is written to the persisted record, replacing all of it,
/// when `value` is set.
pub fn persisted_record(value: &str) -> (r: String)
    ensures
        r@ == persisted_record_spec(value@),
{
    let mut r = String::from_str(KEY_NAME);
    r.append("=");
    r.append(value);
    r.append("\n");
    r
}

/// Holds the API key in memory; `None` until one is set or loaded.
#[derive(Debug)]
pub struct ApiKeyStore {
    key: Option<String>,
}

/// An optional string as an optional sequence of characters.
pub open spec fn key_view(k: Option<String>) -> Option<Seq<char>> {
    match k {
        Some(s) => Some(s@),
        None => None,
    }
}

impl View for ApiKeyStore {
    type V = Option<Seq<char>>;

    closed spec fn view(&self) -> Option<Seq<char>> {
        key_view(self.key)
    }
}

impl ApiKeyStore {
    /// A store that holds no key.
    pub fn new() -> (r: ApiKeyStore)
        ensures
            r@ == None::<Seq<char>>,
    {
        ApiKeyStore { key: None }
    }

    /// A store that starts from the key loaded from the persisted record at startup,
    /// if there was one.
    pub fn from_persisted(loaded: Option<String>) -> (r: ApiKeyStore)
        ensures
            r@ == key_view(loaded),
    {
        ApiKeyStore { key: loaded }
    }

    /// Replaces the key held in memory by `value`, and returns the text that the
    /// persisted record is to be rewritten with.
    pub fn set(&mut self, value: String) -> (record: String)
        ensures
            final(self)@ == Some(value@),
            record@ == persisted_record_spec(value@),
    {
        let record = persisted_record(value.as_str());
        self.key = Some(value);
        record
    }

    /// The key held in memory, or `None` when none was ever set or loaded.
    pub fn get(&self) -> (r: Option<String>)
        ensures
            key_view(r) == self@,
    {
        match &self.key {
            Some(k) => Some(k.clone()),
            None => None,
        }
    }
}

/// How far a `set` got: the record was rewritten too, or only memory holds the new key.
#[derive(Debug, Clone, Copy, PartialEq, Eq, Structural)]
pub enum SetOutcome {
    Persisted,
    MemoryOnly,
}

/// The outcome of a `set` whose record write succeeded or not.
pub fn set_outcome(persisted: bool) -> (r: SetOutcome)
    ensures
        r == (if persisted {
            SetOutcome::Persisted
        } else {
            SetOutcome::MemoryOnly
        }),
{
    if persisted {
        SetOutcome::Persisted
    } else {
        SetOutcome::MemoryOnly
    }
}

/// The value that a record line holds: what follows the key name and `=`, up to the
/// line break.
pub open spec fn record_value(record: Seq<char>) -> Seq<char> {
    record.subrange(KEY_NAME@.len() as int + 1, record.len() - 1)
}

/// A key that was set reads back unchanged. The record written for it holds that same
/// value after the key name and `=`, and a store restarted from the value held there
/// reads it back too.
pub proof fn lemma_key_round_trip(
    value: String,
    after_set: ApiKeyStore,
    read: Option<String>,
    loaded: String,
    restarted: ApiKeyStore,
    reread: Option<String>,
)
    requires
        after_set@ == Some(value@),
        key_view(read) == after_set@,
        loaded@ == record_value(persisted_record_spec(value@)),
        restarted@ == key_view(Some(loaded)),
        key_view(reread) == restarted@,
    ensures
        read matches Some(k) && k@ == value@,
        reread matches Some(k) && k@ == value@,
{
    reveal_strlit("=");
    reveal_strlit("\n");
    let rec = persisted_record_spec(value@);
    let start = KEY_NAME@.len() as int + 1;
    assert(rec.len() == start + value@.len() + 1);
    assert forall|i: int| 0 <= i < value@.len() implies #[trigger] rec[start + i] == value@[i] by {
        assert(rec[start + i] == (KEY_NAME@ + "="@ + value@)[start + i]);
    }
    assert(rec.subrange(KEY_NAME@.len() as int + 1, rec.len() - 1) =~= value@);
}

/// A store that was neither set nor loaded from a record reads back no key.
pub proof fn lemma_key_absent(store: ApiKeyStore, read: Option<String>)
    requires
        store@ == key_view(None),
        key_view(read) == store@,
    ensures
        read is None,
{
}

} // verus!
