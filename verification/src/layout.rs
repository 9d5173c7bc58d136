//! The layout of the blob, field by field, and the proof that a new machine
//! reads a blob of that layout as the layout says.

use crate::machine::{fresh, run, step, MachineView};
use crate::state::{KeyMode, Mode, State};
use crate::state_transitions::{attribute_record, repeats, signature_record};
use crate::theorems::{
    is_standard, lemma_run_append, lemma_run_push, lemma_standard_handler, lemma_step_frame,
    theorem_cursor_counts_bytes,
};
use crate::tlv_mapping::be_fold;
use crate::writer::Record;
use vstd::prelude::*;

verus! {

/// The width of the field that a state drops without reading it.
pub open spec fn skip_width(state: State) -> Option<nat> {
    match state {
        State::SKIP8 => Some(8),
        State::SkipU16_2 => Some(3),
        State::Skip4 => Some(4),
        State::SkipAttr4 => Some(4),
        State::SecondaryKey => Some(4),
        _ => None,
    }
}

/// The width of the big-endian number that a state reads.
pub open spec fn number_width(state: State) -> Option<nat> {
    match state {
        State::TOTALSIZE4 => Some(4),
        State::BUFSIZE4 => Some(4),
        State::OffsetPubkey16 => Some(2),
        State::OffsetPrivkey16 => Some(2),
        State::AttrLen => Some(4),
        State::TLVType => Some(4),
        State::TLVLen => Some(4),
        _ => None,
    }
}

/// The machine after `k` bytes of a field, when they only moved the byte
/// counter, the accumulator and the stack.
pub open spec fn inside(
    m: MachineView,
    bytes: Seq<u8>,
    k: int,
    be_accum: u32,
    stack: Seq<u8>,
) -> MachineView {
    if k == 0 {
        m
    } else {
        MachineView {
            counter: m.counter + k as nat,
            cursor: m.cursor + k as nat,
            prev: m.state,
            byte: bytes[k - 1],
            be_accum: be_accum,
            stack: stack,
            ..m
        }
    }
}

/// The first bytes of a dropped field are counted and nothing else.
pub proof fn lemma_skip_inside(m: MachineView, bytes: Seq<u8>, k: int)
    requires
        is_standard(m),
        skip_width(m.state) is Some,
        m.counter == 0,
        0 <= k < skip_width(m.state)->0,
        k <= bytes.len(),
    ensures
        run(m, bytes.take(k)) == inside(m, bytes, k, m.be_accum, m.stack),
    decreases k,
{
    if k == 0 {
        assert(bytes.take(0) =~= Seq::<u8>::empty());
    } else {
        lemma_skip_inside(m, bytes, k - 1);
        let before = run(m, bytes.take(k - 1));
        assert(bytes.take(k) =~= bytes.take(k - 1).push(bytes[k - 1]));
        lemma_run_push(m, bytes.take(k - 1), bytes[k - 1]);
        lemma_standard_handler(before, bytes[k - 1]);
    }
}

/// The first bytes of a number are shifted into the accumulator.
pub proof fn lemma_number_inside(m: MachineView, bytes: Seq<u8>, k: int)
    requires
        is_standard(m),
        number_width(m.state) is Some,
        m.counter == 0,
        m.be_accum == 0,
        0 <= k < number_width(m.state)->0,
        k <= bytes.len(),
    ensures
        run(m, bytes.take(k)) == inside(m, bytes, k, be_fold(bytes.take(k)), m.stack),
    decreases k,
{
    if k == 0 {
        assert(bytes.take(0) =~= Seq::<u8>::empty());
    } else {
        lemma_number_inside(m, bytes, k - 1);
        let before = run(m, bytes.take(k - 1));
        assert(bytes.take(k) =~= bytes.take(k - 1).push(bytes[k - 1]));
        assert(bytes.take(k).drop_last() =~= bytes.take(k - 1));
        lemma_run_push(m, bytes.take(k - 1), bytes[k - 1]);
        lemma_standard_handler(before, bytes[k - 1]);
    }
}

/// The machine after a field that leads to the state `next`.
pub open spec fn past_field(m: MachineView, bytes: Seq<u8>, next: State) -> MachineView {
    MachineView {
        state: next,
        prev: m.state,
        byte: bytes.last(),
        cursor: m.cursor + bytes.len(),
        counter: 0,
        be_accum: 0,
        ..m
    }
}

/// A dropped field, once it is complete, leaves nothing but the change of
/// state. (The fields before the attributes and before the second list drop
/// more: see the lemmas on them.)
pub proof fn lemma_skip_field(m: MachineView, bytes: Seq<u8>)
    requires
        is_standard(m),
        m.state == State::SKIP8 || m.state == State::SkipU16_2 || m.state == State::Skip4,
        m.counter == 0,
        bytes.len() == skip_width(m.state)->0,
    ensures
        run(m, bytes) == past_field(m, bytes, m.state.successor()),
{
    let k = bytes.len() - 1;
    lemma_skip_inside(m, bytes, k);
    let before = run(m, bytes.take(k));
    assert(bytes =~= bytes.take(k).push(bytes[k]));
    lemma_run_push(m, bytes.take(k), bytes[k]);
    lemma_standard_handler(before, bytes[k]);
}

/// The field before the attributes of a list, once it is complete, has
/// scheduled one `TLVType` for each attribute of the list but the first.
pub proof fn lemma_skip_attr_field(m: MachineView, bytes: Seq<u8>)
    requires
        is_standard(m),
        m.state == State::SkipAttr4,
        m.counter == 0,
        bytes.len() == 4,
    ensures
        run(m, bytes) == (MachineView {
            return_stack: m.return_stack + Seq::new(
                repeats(m.attr_count),
                |i: int| State::TLVType,
            ),
            ..past_field(m, bytes, State::TLVType)
        }),
{
    let k = bytes.len() - 1;
    lemma_skip_inside(m, bytes, k);
    let before = run(m, bytes.take(k));
    assert(bytes =~= bytes.take(k).push(bytes[k]));
    lemma_run_push(m, bytes.take(k), bytes[k]);
    lemma_standard_handler(before, bytes[k]);
}

/// The field before the second list, once it is complete, has cleared the
/// attribute count and turned the machine to the secondary list.
pub proof fn lemma_secondary_key_field(m: MachineView, bytes: Seq<u8>)
    requires
        is_standard(m),
        m.state == State::SecondaryKey,
        m.counter == 0,
        bytes.len() == 4,
    ensures
        run(m, bytes) == (MachineView {
            attr_count: 0,
            key_mode: KeyMode::Secondary,
            ..past_field(m, bytes, State::AttrLen)
        }),
{
    let k = bytes.len() - 1;
    lemma_skip_inside(m, bytes, k);
    let before = run(m, bytes.take(k));
    assert(bytes =~= bytes.take(k).push(bytes[k]));
    lemma_run_push(m, bytes.take(k), bytes[k]);
    lemma_standard_handler(before, bytes[k]);
}

/// The machine after a number that is stored in a register.
pub open spec fn with_number(m: MachineView, state: State, n: u32) -> MachineView {
    match state {
        State::TOTALSIZE4 => MachineView { total_size: n, ..m },
        State::BUFSIZE4 => MachineView { buf_size: n, ..m },
        State::OffsetPubkey16 => MachineView { firstkey_offset: n, ..m },
        State::OffsetPrivkey16 => if n == 0 {
            MachineView {
                secondkey_offset: n,
                mode: Mode::Symmetric,
                return_stack: m.return_stack.push(State::Signature),
                ..m
            }
        } else {
            MachineView {
                secondkey_offset: n,
                return_stack: m.return_stack.push(State::Signature).push(State::SecondaryKey),
                ..m
            }
        },
        State::AttrLen => MachineView { attr_count: n, ..m },
        State::TLVType => MachineView { tlv_type: n, ..m },
        State::TLVLen => MachineView { tlv_len: n, ..m },
        _ => m,
    }
}

/// A number, once it is complete, stands in its register as the big-endian
/// value of its bytes; the offset of the private-key region also sets the mode
/// and schedules what follows the first list.
pub proof fn lemma_number_field(m: MachineView, bytes: Seq<u8>)
    requires
        is_standard(m),
        number_width(m.state) is Some,
        m.counter == 0,
        m.be_accum == 0,
        bytes.len() == number_width(m.state)->0,
    ensures
        run(m, bytes) == with_number(
            past_field(m, bytes, m.state.successor()),
            m.state,
            be_fold(bytes),
        ),
{
    let k = bytes.len() - 1;
    lemma_number_inside(m, bytes, k);
    let before = run(m, bytes.take(k));
    assert(bytes =~= bytes.take(k).push(bytes[k]));
    assert(bytes.drop_last() =~= bytes.take(k));
    lemma_run_push(m, bytes.take(k), bytes[k]);
    lemma_standard_handler(before, bytes[k]);
}

/// The padding, up to and with the byte whose index is the attribute offset,
/// leaves nothing but that offset, which is the total size less the buffer
/// size and the length of the signature.
pub proof fn lemma_padding(m: MachineView, bytes: Seq<u8>)
    requires
        is_standard(m),
        m.state == State::SkipToOffset,
        m.total_size - m.buf_size - m.signature_len >= 1,
        m.attr_offset == 0 || m.attr_offset == m.total_size - m.buf_size - m.signature_len,
        m.cursor + bytes.len() == m.total_size - m.buf_size - m.signature_len + 1,
        bytes.len() >= 1,
    ensures
        run(m, bytes) == (MachineView {
            attr_offset: (m.total_size - m.buf_size - m.signature_len) as u32,
            ..past_field(m, bytes, State::SkipU16_2)
        }),
    decreases bytes.len(),
{
    lemma_standard_handler(m, bytes[0]);
    let after = step(m, bytes[0]);
    lemma_step_frame(m, bytes[0]);
    if bytes.len() == 1 {
        assert(run(after, bytes.drop_first()) == after);
    } else {
        lemma_padding(after, bytes.drop_first());
        assert(bytes.drop_first().last() == bytes.last());
    }
}

/// The bytes that complete the declared length of a value emit the attribute
/// and resume the state scheduled last.
pub proof fn lemma_value(m: MachineView, bytes: Seq<u8>)
    requires
        is_standard(m),
        m.state == State::TLVValue,
        m.counter + bytes.len() == m.tlv_len,
        bytes.len() >= 1,
        m.return_stack.len() > 0,
        m.return_stack.last() != State::TLVValue,
    ensures
        run(m, bytes) == (MachineView {
            stack: Seq::empty(),
            records: m.records.push(attribute_record(m.key_mode, m.tlv_type, m.stack + bytes)),
            attrs_processed: m.attrs_processed + 1,
            tlv_type: 0,
            tlv_len: 0,
            return_stack: m.return_stack.drop_last(),
            ..past_field(m, bytes, m.return_stack.last())
        }),
    decreases bytes.len(),
{
    lemma_standard_handler(m, bytes[0]);
    let after = step(m, bytes[0]);
    lemma_step_frame(m, bytes[0]);
    if bytes.len() == 1 {
        assert(run(after, bytes.drop_first()) == after);
        assert(m.stack.push(bytes[0]) =~= m.stack + bytes);
    } else {
        lemma_value(after, bytes.drop_first());
        assert(bytes.drop_first().last() == bytes.last());
        assert(after.stack + bytes.drop_first() =~= m.stack + bytes);
    }
}

/// The bytes that complete the length of the signature emit it; the machine
/// stays in the signature state.
pub proof fn lemma_signature(m: MachineView, bytes: Seq<u8>)
    requires
        is_standard(m),
        m.state == State::Signature,
        m.counter + bytes.len() == m.signature_len,
        bytes.len() >= 1,
    ensures
        run(m, bytes) == (MachineView {
            stack: Seq::empty(),
            records: m.records.push(signature_record(m.key_mode, m.stack + bytes)),
            prev: State::Signature,
            byte: bytes.last(),
            cursor: m.cursor + bytes.len(),
            counter: m.counter + bytes.len(),
            ..m
        }),
    decreases bytes.len(),
{
    lemma_standard_handler(m, bytes[0]);
    let after = step(m, bytes[0]);
    lemma_step_frame(m, bytes[0]);
    if bytes.len() == 1 {
        assert(run(after, bytes.drop_first()) == after);
        assert(m.stack.push(bytes[0]) =~= m.stack + bytes);
    } else {
        lemma_signature(after, bytes.drop_first());
        assert(bytes.drop_first().last() == bytes.last());
        assert(after.stack + bytes.drop_first() =~= m.stack + bytes);
    }
}

/// An attribute as the blob holds it: four bytes of tag, four bytes of
/// length, and the value.
pub struct Tlv {
    pub tag: Seq<u8>,
    pub len: Seq<u8>,
    pub value: Seq<u8>,
}

impl Tlv {
    /// The widths are right, and the value is as long as the length says and
    /// not empty.
    pub open spec fn wf(self) -> bool {
        &&& self.tag.len() == 4
        &&& self.len.len() == 4
        &&& self.value.len() == be_fold(self.len)
        &&& self.value.len() >= 1
    }

    /// The bytes of the attribute.
    pub open spec fn bytes(self) -> Seq<u8> {
        self.tag + self.len + self.value
    }

    /// The record that the attribute is emitted as, in the list `mode`.
    pub open spec fn record(self, mode: KeyMode) -> Record {
        attribute_record(mode, be_fold(self.tag), self.value)
    }
}

/// The machine is at the start of a field: no byte is counted, the
/// accumulator and the value buffer are empty.
pub open spec fn at_field(m: MachineView, state: State) -> bool {
    &&& is_standard(m)
    &&& m.state == state
    &&& m.counter == 0
    &&& m.be_accum == 0
    &&& m.stack.len() == 0
}

/// The bytes of an attribute emit the attribute and resume the state
/// scheduled last.
pub proof fn lemma_tlv(m: MachineView, t: Tlv)
    requires
        at_field(m, State::TLVType),
        t.wf(),
        m.return_stack.len() > 0,
        m.return_stack.last() != State::TLVValue,
    ensures
        run(m, t.bytes()) == (MachineView {
            records: m.records.push(t.record(m.key_mode)),
            attrs_processed: m.attrs_processed + 1,
            tlv_type: 0,
            tlv_len: 0,
            return_stack: m.return_stack.drop_last(),
            state: m.return_stack.last(),
            prev: State::TLVValue,
            byte: t.value.last(),
            cursor: m.cursor + t.bytes().len(),
            ..m
        }),
{
    let m1 = run(m, t.tag);
    lemma_number_field(m, t.tag);
    theorem_cursor_counts_bytes(m, t.tag);
    let m2 = run(m1, t.len);
    lemma_number_field(m1, t.len);
    theorem_cursor_counts_bytes(m1, t.len);
    lemma_value(m2, t.value);
    lemma_run_append(m, t.tag, t.len);
    lemma_run_append(m, t.tag + t.len, t.value);
    assert(m2.stack + t.value =~= t.value);
    assert(m.stack =~= Seq::<u8>::empty());
}

/// The bytes of attributes that follow one another.
pub open spec fn tlvs_bytes(attrs: Seq<Tlv>) -> Seq<u8>
    decreases attrs.len(),
{
    if attrs.len() == 0 {
        Seq::empty()
    } else {
        attrs[0].bytes() + tlvs_bytes(attrs.drop_first())
    }
}

/// The records that attributes of the list `mode` are emitted as.
pub open spec fn tlvs_records(attrs: Seq<Tlv>, mode: KeyMode) -> Seq<Record> {
    Seq::new(attrs.len(), |i: int| attrs[i].record(mode))
}

/// The bytes of attributes emit them in order. Each attribute but the last
/// resumes the `TLVType` scheduled for the next one; the last resumes the
/// state scheduled before the list.
pub proof fn lemma_tlvs(m: MachineView, attrs: Seq<Tlv>, base: Seq<State>)
    requires
        at_field(m, State::TLVType),
        attrs.len() >= 1,
        forall|i: int| 0 <= i < attrs.len() ==> (#[trigger] attrs[i]).wf(),
        base.len() >= 1,
        base.last() != State::TLVValue,
        m.return_stack == base + Seq::new((attrs.len() - 1) as nat, |i: int| State::TLVType),
    ensures
        run(m, tlvs_bytes(attrs)) == (MachineView {
            records: m.records + tlvs_records(attrs, m.key_mode),
            attrs_processed: m.attrs_processed + attrs.len(),
            tlv_type: 0,
            tlv_len: 0,
            return_stack: base.drop_last(),
            state: base.last(),
            prev: State::TLVValue,
            byte: attrs.last().value.last(),
            cursor: m.cursor + tlvs_bytes(attrs).len(),
            ..m
        }),
    decreases attrs.len(),
{
    let first = attrs[0];
    let rest = attrs.drop_first();
    let m1 = run(m, first.bytes());
    lemma_tlv(m, first);
    lemma_run_append(m, first.bytes(), tlvs_bytes(rest));
    if attrs.len() == 1 {
        assert(tlvs_bytes(rest) =~= Seq::<u8>::empty());
        assert(m.return_stack =~= base);
        assert(m.records.push(first.record(m.key_mode)) =~= m.records + tlvs_records(
            attrs,
            m.key_mode,
        ));
    } else {
        assert(m.return_stack.last() == State::TLVType);
        assert(m1.return_stack =~= base + Seq::new(
            (rest.len() - 1) as nat,
            |i: int| State::TLVType,
        ));
        assert forall|i: int| 0 <= i < rest.len() implies (#[trigger] rest[i]).wf() by {
            assert(rest[i] == attrs[i + 1]);
        }
        lemma_tlvs(m1, rest, base);
        assert(m1.records + tlvs_records(rest, m.key_mode) =~= m.records + tlvs_records(
            attrs,
            m.key_mode,
        ));
        assert(rest.last() == attrs.last());
    }
}

/// An attribute list as the blob holds it: four bytes of count, four bytes
/// that are dropped, and the attributes.
pub struct AttrList {
    pub count: Seq<u8>,
    pub skipped: Seq<u8>,
    pub attrs: Seq<Tlv>,
}

impl AttrList {
    /// The widths are right, the list holds as many attributes as the count
    /// says and at least one, and each attribute is well formed.
    pub open spec fn wf(self) -> bool {
        &&& self.count.len() == 4
        &&& self.skipped.len() == 4
        &&& self.attrs.len() == be_fold(self.count)
        &&& self.attrs.len() >= 1
        &&& forall|i: int| 0 <= i < self.attrs.len() ==> (#[trigger] self.attrs[i]).wf()
    }

    /// The bytes of the list.
    pub open spec fn bytes(self) -> Seq<u8> {
        self.count + self.skipped + tlvs_bytes(self.attrs)
    }
}

/// The bytes of an attribute list emit its attributes in order and resume the
/// state scheduled before the list; the attribute count is the count of the
/// list.
pub proof fn lemma_list(m: MachineView, list: AttrList)
    requires
        at_field(m, State::AttrLen),
        list.wf(),
        m.return_stack.len() >= 1,
        m.return_stack.last() != State::TLVValue,
    ensures
        run(m, list.bytes()) == (MachineView {
            attr_count: be_fold(list.count),
            records: m.records + tlvs_records(list.attrs, m.key_mode),
            attrs_processed: m.attrs_processed + list.attrs.len(),
            tlv_type: 0,
            tlv_len: 0,
            return_stack: m.return_stack.drop_last(),
            state: m.return_stack.last(),
            prev: State::TLVValue,
            byte: list.attrs.last().value.last(),
            cursor: m.cursor + list.bytes().len(),
            ..m
        }),
{
    let m1 = run(m, list.count);
    lemma_number_field(m, list.count);
    let m2 = run(m1, list.skipped);
    lemma_skip_attr_field(m1, list.skipped);
    lemma_tlvs(m2, list.attrs, m.return_stack);
    lemma_run_append(m, list.count, list.skipped);
    lemma_run_append(m, list.count + list.skipped, tlvs_bytes(list.attrs));
}

/// A blob, field by field.
pub struct Blob {
    /// Eight bytes that are dropped.
    pub preamble: Seq<u8>,
    /// Four bytes: the total size.
    pub total: Seq<u8>,
    /// Four bytes: the size of the buffer before the signature.
    pub buf: Seq<u8>,
    /// The bytes from the size fields up to and with the byte whose index is
    /// the attribute offset.
    pub padding: Seq<u8>,
    /// Three bytes that are dropped.
    pub reserved: Seq<u8>,
    /// Two bytes: the offset of the public-key region.
    pub pubkey: Seq<u8>,
    /// Two bytes: the offset of the private-key region; zero for a symmetric key.
    pub privkey: Seq<u8>,
    /// Four bytes that are dropped.
    pub skipped: Seq<u8>,
    /// The attributes of the key, or of the public key of a pair.
    pub primary: AttrList,
    /// Four bytes that are dropped before the second list, where there is one.
    pub gap: Seq<u8>,
    /// The attributes of the private key of a pair.
    pub secondary: Option<AttrList>,
    pub signature: Seq<u8>,
}

impl Blob {
    /// The index of the byte at which the padding ends.
    pub open spec fn attr_offset(self) -> nat {
        15 + self.padding.len()
    }

    /// The fields have their widths, the padding ends where the size fields
    /// and the length of the signature put the attribute offset, the second
    /// list is there exactly where the offset of the private-key region is not
    /// zero, and the signature has its length, which is not zero.
    pub open spec fn wf(self, signature_len: nat) -> bool {
        &&& self.preamble.len() == 8
        &&& self.total.len() == 4
        &&& self.buf.len() == 4
        &&& self.padding.len() >= 1
        &&& be_fold(self.total) - be_fold(self.buf) - signature_len == self.attr_offset()
        &&& self.reserved.len() == 3
        &&& self.pubkey.len() == 2
        &&& self.privkey.len() == 2
        &&& self.skipped.len() == 4
        &&& self.primary.wf()
        &&& (be_fold(self.privkey) != 0 <==> self.secondary is Some)
        &&& (self.secondary matches Some(list) ==> self.gap.len() == 4 && list.wf())
        &&& self.signature.len() == signature_len
        &&& signature_len >= 1
    }

    /// The bytes up to the first attribute list.
    pub open spec fn head(self) -> Seq<u8> {
        self.preamble + self.total + self.buf + self.padding + self.reserved + self.pubkey
            + self.privkey + self.skipped
    }

    /// The bytes of the second list and of what is dropped before it.
    pub open spec fn second(self) -> Seq<u8> {
        match self.secondary {
            Some(list) => self.gap + list.bytes(),
            None => Seq::empty(),
        }
    }

    /// The bytes of the blob.
    pub open spec fn bytes(self) -> Seq<u8> {
        self.head() + self.primary.bytes() + self.second() + self.signature
    }

    /// The list that the signature is emitted under: the last one read.
    pub open spec fn last_mode(self) -> KeyMode {
        if self.secondary is Some {
            KeyMode::Secondary
        } else {
            KeyMode::Primary
        }
    }

    /// The records of the blob: the attributes of the primary list, those of
    /// the secondary list if there is one, and the signature.
    pub open spec fn records(self) -> Seq<Record> {
        let second = match self.secondary {
            Some(list) => tlvs_records(list.attrs, KeyMode::Secondary),
            None => Seq::empty(),
        };
        (tlvs_records(self.primary.attrs, KeyMode::Primary) + second).push(
            signature_record(self.last_mode(), self.signature),
        )
    }

    /// How many attributes the blob holds.
    pub open spec fn attributes(self) -> nat {
        match self.secondary {
            Some(list) => self.primary.attrs.len() + list.attrs.len(),
            None => self.primary.attrs.len(),
        }
    }

    /// The count of the list read last.
    pub open spec fn last_count(self) -> u32 {
        match self.secondary {
            Some(list) => be_fold(list.count),
            None => be_fold(self.primary.count),
        }
    }
}

/// The bytes up to the first attribute list leave the machine at that list,
/// with the size fields and the offsets in their registers, the mode set, and
/// what follows the list scheduled.
pub proof fn lemma_head(blob: Blob, signature_len: nat)
    requires
        blob.wf(signature_len),
    ensures
        ({
            let m = run(fresh(signature_len), blob.head());
            &&& at_field(m, State::AttrLen)
            &&& m == with_number(
                MachineView {
                    state: State::AttrLen,
                    prev: State::Skip4,
                    byte: blob.skipped.last(),
                    cursor: blob.head().len(),
                    total_size: be_fold(blob.total),
                    buf_size: be_fold(blob.buf),
                    attr_offset: blob.attr_offset() as u32,
                    firstkey_offset: be_fold(blob.pubkey),
                    ..fresh(signature_len)
                },
                State::OffsetPrivkey16,
                be_fold(blob.privkey),
            )
        }),
{
    let m0 = fresh(signature_len);
    let b1 = blob.preamble;
    let m1 = run(m0, b1);
    lemma_skip_field(m0, blob.preamble);
    let b2 = b1 + blob.total;
    let m2 = run(m1, blob.total);
    lemma_number_field(m1, blob.total);
    lemma_run_append(m0, b1, blob.total);
    let b3 = b2 + blob.buf;
    let m3 = run(m2, blob.buf);
    lemma_number_field(m2, blob.buf);
    lemma_run_append(m0, b2, blob.buf);
    let b4 = b3 + blob.padding;
    let m4 = run(m3, blob.padding);
    lemma_padding(m3, blob.padding);
    lemma_run_append(m0, b3, blob.padding);
    let b5 = b4 + blob.reserved;
    let m5 = run(m4, blob.reserved);
    lemma_skip_field(m4, blob.reserved);
    lemma_run_append(m0, b4, blob.reserved);
    let b6 = b5 + blob.pubkey;
    let m6 = run(m5, blob.pubkey);
    lemma_number_field(m5, blob.pubkey);
    lemma_run_append(m0, b5, blob.pubkey);
    let b7 = b6 + blob.privkey;
    let m7 = run(m6, blob.privkey);
    lemma_number_field(m6, blob.privkey);
    lemma_run_append(m0, b6, blob.privkey);
    let m8 = run(m7, blob.skipped);
    lemma_skip_field(m7, blob.skipped);
    lemma_run_append(m0, b7, blob.skipped);
    assert(m8.return_stack =~= with_number(m0, State::OffsetPrivkey16, be_fold(blob.privkey)).return_stack);
}

/// A new machine, fed the bytes of a well-formed blob, emits the attributes of
/// the primary list, then those of the secondary list if there is one, then
/// the signature, each under its list; and it ends in the signature state,
/// with the return stack and the value buffer empty, every attribute counted,
/// the fields of the blob in their registers, and the mode symmetric exactly
/// where the offset of the private-key region is zero.
pub proof fn theorem_reads_blob(blob: Blob, signature_len: nat)
    requires
        blob.wf(signature_len),
    ensures
        ({
            let m = run(fresh(signature_len), blob.bytes());
            &&& m.records == blob.records()
            &&& m.state == State::Signature
            &&& m.return_stack.len() == 0
            &&& m.stack.len() == 0
            &&& m.attrs_processed == blob.attributes()
            &&& m.attr_count == blob.last_count()
            &&& m.key_mode == blob.last_mode()
            &&& (m.mode == Mode::Symmetric <==> be_fold(blob.privkey) == 0)
            &&& (m.mode == Mode::Symmetric <==> blob.secondary is None)
            &&& m.total_size == be_fold(blob.total)
            &&& m.buf_size == be_fold(blob.buf)
            &&& m.attr_offset == blob.attr_offset()
            &&& m.firstkey_offset == be_fold(blob.pubkey)
            &&& m.secondkey_offset == be_fold(blob.privkey)
            &&& m.cursor == blob.bytes().len()
        }),
{
    let m0 = fresh(signature_len);
    let h = run(m0, blob.head());
    lemma_head(blob, signature_len);
    let p = run(h, blob.primary.bytes());
    lemma_list(h, blob.primary);
    lemma_run_append(m0, blob.head(), blob.primary.bytes());
    let upto_primary = blob.head() + blob.primary.bytes();
    let s = run(p, blob.second());
    lemma_run_append(m0, upto_primary, blob.second());
    match blob.secondary {
        Some(list) => {
            let g = run(p, blob.gap);
            lemma_secondary_key_field(p, blob.gap);
            lemma_list(g, list);
            lemma_run_append(p, blob.gap, list.bytes());
        },
        None => {
            assert(s == p);
        },
    }
    lemma_signature(s, blob.signature);
    lemma_run_append(m0, upto_primary + blob.second(), blob.signature);
    theorem_cursor_counts_bytes(m0, blob.bytes());
    let m = run(m0, blob.bytes());
    assert(s.stack + blob.signature =~= blob.signature);
    assert(m.records =~= blob.records());
}

} // verus!
