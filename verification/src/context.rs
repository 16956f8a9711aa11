//! The context of a handler chain: named blobs that handlers leave for
//! handlers further down the chain and for the caller after the run.

use vstd::prelude::*;
use vstd::bytes::{spec_u64_from_le_bytes, spec_u64_to_le_bytes};
use crate::api::{SevStepError, SevStepErrorView};

verus! {

/// What a list of entries stands for. Where a name occurs twice, the
/// first entry counts.
pub open spec fn entries_map(entries: Seq<(Seq<char>, Seq<u8>)>) -> Map<Seq<char>, Seq<u8>>
    decreases entries.len(),
{
    if entries.len() == 0 {
        Map::empty()
    } else {
        entries_map(entries.drop_first()).insert(entries[0].0, entries[0].1)
    }
}

proof fn lemma_first_match(entries: Seq<(Seq<char>, Seq<u8>)>, i: int, key: Seq<char>)
    requires
        0 <= i < entries.len(),
        entries[i].0 == key,
        forall|j: int| 0 <= j < i ==> entries[j].0 != key,
    ensures
        entries_map(entries).contains_key(key),
        entries_map(entries)[key] == entries[i].1,
    decreases i,
{
    if i > 0 {
        lemma_first_match(entries.drop_first(), i - 1, key);
    }
}

proof fn lemma_no_match(entries: Seq<(Seq<char>, Seq<u8>)>, key: Seq<char>)
    requires
        forall|j: int| 0 <= j < entries.len() ==> entries[j].0 != key,
    ensures
        !entries_map(entries).contains_key(key),
    decreases entries.len(),
{
    if entries.len() > 0 {
        lemma_no_match(entries.drop_first(), key);
    }
}

proof fn lemma_update_first_match(
    entries: Seq<(Seq<char>, Seq<u8>)>,
    i: int,
    key: Seq<char>,
    value: Seq<u8>,
)
    requires
        0 <= i < entries.len(),
        entries[i].0 == key,
        forall|j: int| 0 <= j < i ==> entries[j].0 != key,
    ensures
        entries_map(entries.update(i, (key, value))) == entries_map(entries).insert(key, value),
    decreases i,
{
    let updated = entries.update(i, (key, value));
    if i == 0 {
        assert(updated.drop_first() =~= entries.drop_first());
        assert(entries_map(updated) =~= entries_map(entries).insert(key, value));
    } else {
        lemma_update_first_match(entries.drop_first(), i - 1, key, value);
        assert(updated.drop_first() =~= entries.drop_first().update(i - 1, (key, value)));
        assert(entries_map(updated) =~= entries_map(entries).insert(key, value));
    }
}

proof fn lemma_push_absent(entries: Seq<(Seq<char>, Seq<u8>)>, key: Seq<char>, value: Seq<u8>)
    requires
        forall|j: int| 0 <= j < entries.len() ==> entries[j].0 != key,
    ensures
        entries_map(entries.push((key, value))) == entries_map(entries).insert(key, value),
    decreases entries.len(),
{
    let pushed = entries.push((key, value));
    if entries.len() == 0 {
        assert(pushed.drop_first() =~= entries);
        assert(entries_map(pushed) =~= entries_map(entries).insert(key, value));
    } else {
        lemma_push_absent(entries.drop_first(), key, value);
        assert(pushed.drop_first() =~= entries.drop_first().push((key, value)));
        assert(entries_map(pushed) =~= entries_map(entries).insert(key, value));
    }
}

/// A map from names to byte blobs, made empty for each run of a handler
/// chain.
pub struct Context {
    entries: Vec<(String, Vec<u8>)>,
}

impl View for Context {
    type V = Map<Seq<char>, Seq<u8>>;

    closed spec fn view(&self) -> Map<Seq<char>, Seq<u8>> {
        entries_map(self.entries@.map_values(|e: (String, Vec<u8>)| (e.0@, e.1@)))
    }
}

impl Context {
    /// The empty context.
    pub fn new() -> (r: Context)
        ensures
            r@ == Map::<Seq<char>, Seq<u8>>::empty(),
    {
        Context { entries: Vec::new() }
    }

    /// The blob that is stored under `key`, if there is one.
    pub fn get(&self, key: &str) -> (r: Option<&Vec<u8>>)
        ensures
            r is Some == self@.contains_key(key@),
            r matches Some(value) ==> value@ == self@[key@],
    {
        let wanted: String = key.to_owned();
        let ghost model = self.entries@.map_values(|e: (String, Vec<u8>)| (e.0@, e.1@));
        let mut i: usize = 0;
        while i < self.entries.len()
            invariant
                i <= self.entries.len(),
                wanted@ == key@,
                model == self.entries@.map_values(|e: (String, Vec<u8>)| (e.0@, e.1@)),
                forall|j: int| 0 <= j < i ==> model[j].0 != key@,
            decreases self.entries.len() - i,
        {
            if self.entries[i].0 == wanted {
                proof {
                    lemma_first_match(model, i as int, key@);
                }
                return Some(&self.entries[i].1);
            }
            i = i + 1;
        }
        proof {
            lemma_no_match(model, key@);
        }
        None
    }

    /// Stores `value` under `key`, in place of what was stored there.
    pub fn insert(&mut self, key: String, value: Vec<u8>)
        ensures
            final(self)@ == old(self)@.insert(key@, value@),
    {
        let ghost model = self.entries@.map_values(|e: (String, Vec<u8>)| (e.0@, e.1@));
        let mut i: usize = 0;
        while i < self.entries.len()
            invariant
                i <= self.entries.len(),
                self.entries == old(self).entries,
                model == self.entries@.map_values(|e: (String, Vec<u8>)| (e.0@, e.1@)),
                forall|j: int| 0 <= j < i ==> model[j].0 != key@,
            decreases self.entries.len() - i,
        {
            if self.entries[i].0 == key {
                proof {
                    lemma_update_first_match(model, i as int, key@, value@);
                }
                self.entries.set(i, (key, value));
                assert(self.entries@.map_values(|e: (String, Vec<u8>)| (e.0@, e.1@)) =~= model.update(
                    i as int,
                    (key@, value@),
                ));
                return ;
            }
            i = i + 1;
        }
        proof {
            lemma_push_absent(model, key@, value@);
        }
        self.entries.push((key, value));
        assert(self.entries@.map_values(|e: (String, Vec<u8>)| (e.0@, e.1@)) =~= model.push(
            (key@, value@),
        ));
    }
}

/// `bincode::ErrorKind`, of which this library looks at nothing: an error
/// of bincode is told apart from success and turned into an error of
/// this library.
#[verifier::external_type_specification]
#[verifier::external_body]
pub struct ExErrorKind(bincode::ErrorKind);

/// `bincode::serialize` on a `u64`. In bincode's default configuration
/// with fixed-width integers this writes the eight bytes of the value,
/// lowest first, into a fresh vector, and nothing on that way can fail.
#[verifier::external_body]
fn serialize_u64(value: u64) -> (r: Result<Vec<u8>, bincode::Error>)
    ensures
        r is Ok,
        r matches Ok(bytes) ==> bytes@ == spec_u64_to_le_bytes(value),
{
    bincode::serialize(&value)
}

/// `bincode::deserialize` to a `u64`. It reads the first eight bytes,
/// lowest first, and ignores what follows them; with fewer than eight
/// bytes it fails.
#[verifier::external_body]
fn deserialize_u64(bytes: &[u8]) -> (r: Result<u64, bincode::Error>)
    ensures
        r is Ok == (bytes@.len() >= 8),
        r matches Ok(value) ==> value == spec_u64_from_le_bytes(bytes@.subrange(0, 8)),
{
    bincode::deserialize(bytes)
}

/// The number that a context holds under `key`, as `get_u64` reports it.
pub open spec fn spec_get_u64(ctx: Map<Seq<char>, Seq<u8>>, key: Seq<char>) -> Result<
    u64,
    SevStepErrorView,
> {
    if !ctx.contains_key(key) {
        Err(SevStepErrorView::Other { message: "data not present"@, call_status: None })
    } else if ctx[key].len() < 8 {
        Err(SevStepErrorView::Other { message: "failed to deserialize"@, call_status: None })
    } else {
        Ok(spec_u64_from_le_bytes(ctx[key].subrange(0, 8)))
    }
}

/// The view of the result of reading a number from a context.
pub open spec fn number_view(r: Result<u64, SevStepError>) -> Result<u64, SevStepErrorView> {
    match r {
        Ok(value) => Ok(value),
        Err(e) => Err(e@),
    }
}

impl Context {
    /// Stores a number under `key`, as its eight bytes, lowest first.
    pub fn put_u64(&mut self, key: &str, value: u64) -> (r: Result<(), SevStepError>)
        ensures
            r is Ok,
            final(self)@ == old(self)@.insert(key@, spec_u64_to_le_bytes(value)),
    {
        match serialize_u64(value) {
            Ok(bytes) => {
                self.insert(key.to_owned(), bytes);
                Ok(())
            },
            Err(_) => Err(
                SevStepError::Other { message: "failed to serialize".to_owned(), call_status: None },
            ),
        }
    }

    /// Reads back a number that `put_u64` stored under `key`.
    pub fn get_u64(&self, key: &str) -> (r: Result<u64, SevStepError>)
        ensures
            number_view(r) == spec_get_u64(self@, key@),
    {
        let serialized_data = match self.get(key) {
            Some(v) => v,
            None => {
                return Err(
                    SevStepError::Other { message: "data not present".to_owned(), call_status: None },
                );
            },
        };
        match deserialize_u64(serialized_data.as_slice()) {
            Ok(v) => Ok(v),
            Err(_) => Err(
                SevStepError::Other { message: "failed to deserialize".to_owned(), call_status: None },
            ),
        }
    }
}

/// A number that was stored is read back unchanged, and storing under one
/// name leaves every other name as it was.
pub proof fn lemma_put_then_get(ctx: Map<Seq<char>, Seq<u8>>, key: Seq<char>, value: u64)
    ensures
        spec_get_u64(ctx.insert(key, spec_u64_to_le_bytes(value)), key) == Ok::<
            u64,
            SevStepErrorView,
        >(value),
        forall|other: Seq<char>|
            other != key ==> spec_get_u64(ctx.insert(key, spec_u64_to_le_bytes(value)), other)
                == spec_get_u64(ctx, other),
{
    vstd::bytes::lemma_auto_spec_u64_to_from_le_bytes();
    let bytes = spec_u64_to_le_bytes(value);
    assert(bytes.subrange(0, 8) =~= bytes);
}

} // verus!
