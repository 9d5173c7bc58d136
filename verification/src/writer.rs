//! The sink that collects the decoded records in order, and their rendering
//! as JSON.

use crate::state::KeyMode;
use vstd::prelude::*;
use vstd::utf8::encode_utf8;

verus! {

/// A record as the sink holds it: the attribute list it belongs to, its key
/// and its printable value.
pub type Record = (KeyMode, Seq<char>, Seq<char>);

/// The records that a vector of entries stands for.
pub open spec fn records_of(entries: Seq<(KeyMode, String, String)>) -> Seq<Record> {
    Seq::new(entries.len(), |i: int| (entries[i].0, entries[i].1@, entries[i].2@))
}

/// The name of an attribute list, as the JSON shows it.
pub open spec fn mode_name(mode: KeyMode) -> Seq<char> {
    match mode {
        KeyMode::Primary => "Primary"@,
        KeyMode::Secondary => "Secondary"@,
    }
}

/// The text that opens a section: `{"mode": "<mode>", "pairs": {`.
pub open spec fn section_open(mode: KeyMode) -> Seq<u8> {
    encode_utf8("{\"mode\": \""@) + encode_utf8(mode_name(mode)) + encode_utf8(
        "\", \"pairs\": {"@,
    )
}

/// The text of one pair: `"<key>":"<value>"`. Key and value stand as they
/// are, without escapes.
pub open spec fn pair_text(key: Seq<char>, value: Seq<char>) -> Seq<u8> {
    encode_utf8("\""@) + encode_utf8(key) + encode_utf8("\":\""@) + encode_utf8(value)
        + encode_utf8("\""@)
}

/// What stands before a pair: the close of the section before and the opening
/// of a new one where the pair belongs to another list than `current`, a comma
/// where the section already holds a pair, else nothing.
pub open spec fn pair_lead(mode: KeyMode, current: KeyMode, started: bool) -> Seq<u8> {
    if mode != current {
        encode_utf8("}}, "@) + section_open(mode)
    } else if started {
        encode_utf8(","@)
    } else {
        Seq::empty()
    }
}

/// The JSON text from the first of `records` to the end of the array, where a
/// section for `current` is open and `started` says whether it holds a pair.
pub open spec fn json_from(records: Seq<Record>, current: KeyMode, started: bool) -> Seq<u8>
    decreases records.len(),
{
    if records.len() == 0 {
        encode_utf8("}}]"@)
    } else {
        let (mode, key, value) = records[0];
        pair_lead(mode, current, started) + pair_text(key, value) + json_from(
            records.drop_first(),
            mode,
            true,
        )
    }
}

/// The JSON text of the records: an array of sections, each an object with the
/// name of its list under `mode` and its pairs, in order, under `pairs`. The
/// first section is that of the primary list; a new section starts at each
/// record whose list differs from that of the record before.
pub open spec fn json_text(records: Seq<Record>) -> Seq<u8> {
    encode_utf8("["@) + section_open(KeyMode::Primary) + json_from(
        records,
        KeyMode::Primary,
        false,
    )
}

/// An append-only, ordered collector of records.
#[derive(Debug)]
pub struct Writer {
    inner: Vec<(KeyMode, String, String)>,
}

impl View for Writer {
    type V = Seq<Record>;

    closed spec fn view(&self) -> Seq<Record> {
        records_of(self.inner@)
    }
}

fn push_str(out: &mut Vec<u8>, s: &str)
    ensures
        final(out)@ == old(out)@ + encode_utf8(s@),
{
    out.extend_from_slice(s.as_bytes());
}

fn push_section_open(out: &mut Vec<u8>, mode: KeyMode)
    ensures
        final(out)@ == old(out)@ + section_open(mode),
{
    push_str(out, "{\"mode\": \"");
    match mode {
        KeyMode::Primary => push_str(out, "Primary"),
        KeyMode::Secondary => push_str(out, "Secondary"),
    }
    push_str(out, "\", \"pairs\": {");
    assert(final(out)@ =~= old(out)@ + section_open(mode));
}

fn push_pair(out: &mut Vec<u8>, key: &str, value: &str)
    ensures
        final(out)@ == old(out)@ + pair_text(key@, value@),
{
    push_str(out, "\"");
    push_str(out, key);
    push_str(out, "\":\"");
    push_str(out, value);
    push_str(out, "\"");
    assert(final(out)@ =~= old(out)@ + pair_text(key@, value@));
}

impl Writer {
    /// A sink without records.
    pub fn new() -> (w: Writer)
        ensures
            w@ == Seq::<Record>::empty(),
    {
        let w = Writer { inner: Vec::new() };
        assert(w@ =~= Seq::<Record>::empty());
        w
    }

    /// A sink without records, with room for `capacity` of them.
    pub fn new_with_capacity(capacity: usize) -> (w: Writer)
        ensures
            w@ == Seq::<Record>::empty(),
    {
        let w = Writer { inner: Vec::with_capacity(capacity) };
        assert(w@ =~= Seq::<Record>::empty());
        w
    }

    /// Appends a record.
    pub fn push(&mut self, attr_name: String, attr_value: String, mode: KeyMode)
        ensures
            final(self)@ == old(self)@.push((mode, attr_name@, attr_value@)),
    {
        self.inner.push((mode, attr_name, attr_value));
        assert(final(self)@ =~= old(self)@.push((mode, attr_name@, attr_value@)));
    }

    /// Gives up the records, in the order in which they came.
    pub fn take(self) -> (entries: Vec<(KeyMode, String, String)>)
        ensures
            records_of(entries@) == self@,
    {
        self.inner
    }

    /// The records as JSON text.
    pub fn to_json_bytes(self) -> (json: Vec<u8>)
        ensures
            json@ == json_text(self@),
    {
        let mut json: Vec<u8> = Vec::new();
        push_str(&mut json, "[");
        push_section_open(&mut json, KeyMode::Primary);
        let mut current = KeyMode::Primary;
        let mut started = false;
        let mut i: usize = 0;
        proof {
            assert(self@.skip(0) =~= self@);
            assert(json@ + json_from(self@, current, started) =~= json_text(self@));
        }
        while i < self.inner.len()
            invariant
                i <= self.inner.len(),
                json@ + json_from(self@.skip(i as int), current, started) == json_text(self@),
            decreases self.inner.len() - i,
        {
            let ghost before = json@;
            let ghost rest = self@.skip(i as int);
            let mode = self.inner[i].0;
            proof {
                assert(rest[0] == self@[i as int]);
                assert(rest.drop_first() =~= self@.skip(i + 1));
            }
            if mode != current {
                push_str(&mut json, "}}, ");
                push_section_open(&mut json, mode);
            } else if started {
                push_str(&mut json, ",");
            }
            assert(json@ =~= before + pair_lead(mode, current, started));
            push_pair(&mut json, self.inner[i].1.as_str(), self.inner[i].2.as_str());
            assert(json@ + json_from(self@.skip(i + 1), mode, true) =~= before + json_from(
                rest,
                current,
                started,
            ));
            current = mode;
            started = true;
            i += 1;
        }
        push_str(&mut json, "}}]");
        json
    }
}

} // verus!
