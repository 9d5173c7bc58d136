//! What holds of the machine whatever bytes it is fed, and however they are
//! cut into chunks.

use crate::function::{Func, Handler};
use crate::machine::{can_run, fresh, handler_for, identity_grid, proposed, run, step, MachineView};
use crate::state::{KeyMode, Mode, State};
use crate::state_transitions::{
    attribute_record, clamped_offset, lemma_effect_frame, repeats, signature_record,
    standard_handlers,
};
use crate::writer::Record;
use vstd::prelude::*;

verus! {

/// A byte changes neither the tables nor the length of the signature, and
/// moves the cursor on by one.
pub proof fn lemma_step_frame(m: MachineView, b: u8)
    ensures
        step(m, b).grid == m.grid,
        step(m, b).handlers == m.handlers,
        step(m, b).signature_len == m.signature_len,
        step(m, b).cursor == m.cursor + 1,
        step(m, b).prev == m.state,
        step(m, b).byte == b,
        m.wf() ==> step(m, b).wf(),
{
    lemma_effect_frame(handler_for(m, b), MachineView { byte: b, ..m });
}

/// A byte raises the byte counter and the count of attributes by one at most.
pub proof fn lemma_step_counts(m: MachineView, b: u8)
    ensures
        step(m, b).counter <= m.counter + 1,
        m.attrs_processed <= step(m, b).attrs_processed <= m.attrs_processed + 1,
{
}

/// Feeding bytes chunk by chunk.
pub open spec fn run_chunks(m: MachineView, chunks: Seq<Seq<u8>>) -> MachineView
    decreases chunks.len(),
{
    if chunks.len() == 0 {
        m
    } else {
        run_chunks(run(m, chunks[0]), chunks.drop_first())
    }
}

/// Feeding `a` and then `b` leaves the machine as feeding `a + b` at once
/// does.
pub proof fn lemma_run_append(m: MachineView, a: Seq<u8>, b: Seq<u8>)
    ensures
        run(m, a + b) == run(run(m, a), b),
    decreases a.len(),
{
    if a.len() == 0 {
        assert(a + b =~= b);
    } else {
        assert((a + b).drop_first() =~= a.drop_first() + b);
        lemma_run_append(step(m, a[0]), a.drop_first(), b);
    }
}

/// However a byte sequence is cut into chunks, feeding the chunks in order
/// leaves the machine in the state in which feeding the whole sequence at once
/// leaves it: registers, stacks and emitted records are the same.
pub proof fn theorem_chunking_invariance(m: MachineView, chunks: Seq<Seq<u8>>)
    ensures
        run_chunks(m, chunks) == run(m, chunks.flatten()),
    decreases chunks.len(),
{
    if chunks.len() == 0 {
    } else {
        theorem_chunking_invariance(run(m, chunks[0]), chunks.drop_first());
        lemma_run_append(m, chunks[0], chunks.drop_first().flatten());
        assert(chunks.flatten() == chunks[0] + chunks.drop_first().flatten());
    }
}

/// The bytes can be fed in two chunks exactly when they can be fed at once.
pub proof fn lemma_can_run_append(m: MachineView, a: Seq<u8>, b: Seq<u8>)
    ensures
        can_run(m, a + b) <==> can_run(m, a) && can_run(run(m, a), b),
    decreases a.len(),
{
    if a.len() == 0 {
        assert(a + b =~= b);
    } else {
        assert((a + b).drop_first() =~= a.drop_first() + b);
        lemma_can_run_append(step(m, a[0]), a.drop_first(), b);
    }
}

/// After `n` bytes the cursor has moved on by `n`; the tables and the length
/// of the signature are what they were.
pub proof fn theorem_cursor_counts_bytes(m: MachineView, bytes: Seq<u8>)
    ensures
        run(m, bytes).cursor == m.cursor + bytes.len(),
        run(m, bytes).grid == m.grid,
        run(m, bytes).handlers == m.handlers,
        run(m, bytes).signature_len == m.signature_len,
        m.wf() ==> run(m, bytes).wf(),
    decreases bytes.len(),
{
    if bytes.len() > 0 {
        lemma_step_frame(m, bytes[0]);
        theorem_cursor_counts_bytes(step(m, bytes[0]), bytes.drop_first());
    }
}

/// Fed to a new machine, `n` bytes leave the cursor at `n`.
pub proof fn theorem_cursor_of_new_machine(signature_len: nat, bytes: Seq<u8>)
    ensures
        run(fresh(signature_len), bytes).cursor == bytes.len(),
{
    theorem_cursor_counts_bytes(fresh(signature_len), bytes);
}

/// Bytes can be fed while each counter has room for as many bytes as come.
pub proof fn lemma_room_suffices(m: MachineView, bytes: Seq<u8>)
    requires
        m.counter + bytes.len() <= u32::MAX,
        m.cursor + bytes.len() <= usize::MAX,
        m.attrs_processed + bytes.len() <= u32::MAX,
    ensures
        can_run(m, bytes),
    decreases bytes.len(),
{
    if bytes.len() > 0 {
        lemma_step_frame(m, bytes[0]);
        lemma_step_counts(m, bytes[0]);
        lemma_room_suffices(step(m, bytes[0]), bytes.drop_first());
    }
}

/// The machine after one more byte at the end of the input.
pub proof fn lemma_run_push(m: MachineView, bytes: Seq<u8>, b: u8)
    ensures
        run(m, bytes.push(b)) == step(run(m, bytes), b),
{
    let after = run(m, bytes);
    lemma_run_append(m, bytes, seq![b]);
    assert(bytes.push(b) =~= bytes + seq![b]);
    assert(seq![b].drop_first() =~= Seq::<u8>::empty());
    assert(run(step(after, b), Seq::<u8>::empty()) == step(after, b));
    assert(run(after, seq![b]) == run(step(after, seq![b][0]), seq![b].drop_first()));
}

/// The machine has the tables of a new machine.
pub open spec fn is_standard(m: MachineView) -> bool {
    m.handlers == standard_handlers() && m.grid == identity_grid()
}

/// The handler that a new machine runs in a state.
pub open spec fn handler_of(state: State) -> Func {
    match state {
        State::SKIP8 => Func::Fun(Handler::Skip8),
        State::TOTALSIZE4 => Func::Fun(Handler::TotalSize4),
        State::BUFSIZE4 => Func::Fun(Handler::BufSize4),
        State::SkipToOffset => Func::Fun(Handler::SkipToOffset),
        State::SkipU16_2 => Func::Fun(Handler::SkipU16_2),
        State::OffsetPubkey16 => Func::Fun(Handler::OffsetPubkey16),
        State::OffsetPrivkey16 => Func::Fun(Handler::OffsetPrivkey16),
        State::Skip4 => Func::Fun(Handler::Skip4),
        State::AttrLen => Func::Fun(Handler::AttrLen),
        State::SkipAttr4 => Func::Fun(Handler::SkipAttr4),
        State::TLVType => Func::Fun(Handler::TlvType),
        State::TLVLen => Func::Fun(Handler::TlvLen),
        State::TLVValue => Func::Fun(Handler::TlvValue),
        State::SecondaryKey => Func::Fun(Handler::SecondaryKey),
        State::Signature => Func::Fun(Handler::Signature),
        State::Initial => Func::Unit,
        State::Unknown => Func::Unit,
    }
}

/// With the tables of a new machine, each state proposes itself and runs its
/// own handler, whatever the byte.
pub proof fn lemma_standard_handler(m: MachineView, b: u8)
    requires
        is_standard(m),
    ensures
        proposed(m, b) == m.state,
        handler_for(m, b) == handler_of(m.state),
{
    let s = m.state.ordinal() as int;
    let cell = s * 256 + b;
    assert(0 <= cell < 4352);
    assert(cell / 256 == s);
    assert(identity_grid()[cell] == s as u8);
    crate::state::lemma_ordinal_roundtrip(m.state);
}

/// The states that are scheduled before the first attribute list: the
/// signature, and above it the second list where the key is not symmetric.
pub open spec fn primary_base(mode: Mode) -> Seq<State> {
    if mode == Mode::Symmetric {
        seq![State::Signature]
    } else {
        seq![State::Signature, State::SecondaryKey]
    }
}

/// The return stack is `base` with nothing but `TLVType` above it.
pub open spec fn resumes(stack: Seq<State>, base: Seq<State>) -> bool {
    &&& stack.len() >= base.len()
    &&& forall|i: int| 0 <= i < base.len() ==> #[trigger] stack[i] == base[i]
    &&& forall|i: int| base.len() <= i < stack.len() ==> #[trigger] stack[i] == State::TLVType
}

/// The attribute offset is the total size less the buffer size and the length
/// of the signature.
pub open spec fn offset_equation(m: MachineView) -> bool {
    m.attr_offset == m.total_size - m.buf_size - m.signature_len
}

/// Every record belongs to the primary list.
pub open spec fn all_primary(records: Seq<Record>) -> bool {
    forall|i: int| 0 <= i < records.len() ==> (#[trigger] records[i]).0 == KeyMode::Primary
}

/// No record of the primary list follows one of the secondary list.
pub open spec fn primary_first(records: Seq<Record>) -> bool {
    forall|i: int, j: int|
        0 <= i <= j < records.len() && (#[trigger] records[i]).0 == KeyMode::Secondary ==> (
        #[trigger] records[j]).0 == KeyMode::Secondary
}

/// The machine reads the attributes of a list.
pub open spec fn in_list(m: MachineView) -> bool {
    m.state == State::TLVType || m.state == State::TLVLen || m.state == State::TLVValue
}

/// What holds of a new machine after any input: the registers, the return
/// stack and the value buffer fit the state that the machine is in.
pub open spec fn consistent(m: MachineView) -> bool {
    let primary = m.key_mode == KeyMode::Primary;
    let at_count = m.state == State::AttrLen || m.state == State::SkipAttr4;
    &&& is_standard(m)
    &&& m.state != State::Initial
    &&& m.state != State::Unknown
    // the cursor
    &&& (m.state == State::SKIP8 ==> m.cursor == m.counter && m.counter < 8)
    &&& (m.state != State::SKIP8 ==> m.cursor >= 8)
    // the attribute offset
    &&& (m.state.upto(State::BUFSIZE4) ==> m.attr_offset == 0)
    &&& (m.state == State::SkipToOffset ==> m.attr_offset == 0 || offset_equation(m))
    &&& (m.state.past(State::SkipToOffset) ==> m.attr_offset != 0 && offset_equation(m))
    // the mode
    &&& (m.state.upto(State::OffsetPrivkey16) ==> {
        &&& m.mode == Mode::Asymmetric
        &&& primary
        &&& m.return_stack.len() == 0
        &&& m.attrs_processed == 0
        &&& m.secondkey_offset == 0
        &&& m.records.len() == 0
    })
    &&& (m.state.past(State::OffsetPrivkey16) ==> (m.mode == Mode::Symmetric
        <==> m.secondkey_offset == 0))
    &&& (!primary ==> m.mode == Mode::Asymmetric)
    &&& (m.state == State::Skip4 ==> primary)
    &&& (m.state == State::SecondaryKey ==> primary && m.mode == Mode::Asymmetric)
    &&& (m.state == State::Signature && primary ==> m.mode == Mode::Symmetric)
    // the return stack
    &&& ((m.state == State::Skip4 || at_count) && primary ==> {
        &&& m.return_stack =~= primary_base(m.mode)
        &&& m.attrs_processed == 0
    })
    &&& (at_count && !primary ==> m.return_stack =~= seq![State::Signature])
    &&& (in_list(m) && primary ==> {
        &&& resumes(m.return_stack, primary_base(m.mode))
        &&& m.attrs_processed <= repeats(m.attr_count)
        &&& m.return_stack.len() == primary_base(m.mode).len() + repeats(m.attr_count)
            - m.attrs_processed
    })
    &&& (in_list(m) && !primary ==> resumes(m.return_stack, seq![State::Signature]))
    &&& (m.state == State::SecondaryKey ==> m.return_stack =~= seq![State::Signature])
    &&& (m.state == State::Signature ==> m.return_stack.len() == 0)
    // the value buffer
    &&& (m.state != State::TLVValue && m.state != State::Signature ==> m.stack.len() == 0)
    &&& (m.state == State::TLVValue ==> m.stack.len() == m.counter)
    &&& (m.state == State::Signature && m.counter < m.signature_len ==> m.stack.len()
        == m.counter)
    // the records
    &&& (primary ==> all_primary(m.records))
    &&& primary_first(m.records)
}

/// A byte keeps a consistent machine consistent.
pub proof fn lemma_consistent_step(m: MachineView, b: u8)
    requires
        consistent(m),
    ensures
        consistent(step(m, b)),
{
    lemma_standard_handler(m, b);
    lemma_step_frame(m, b);
}

/// A new machine is consistent after any input.
pub proof fn lemma_consistent_run(signature_len: nat, bytes: Seq<u8>)
    ensures
        consistent(run(fresh(signature_len), bytes)),
    decreases bytes.len(),
{
    if bytes.len() == 0 {
    } else {
        let front = bytes.drop_last();
        lemma_consistent_run(signature_len, front);
        lemma_run_push(fresh(signature_len), front, bytes.last());
        assert(front.push(bytes.last()) =~= bytes);
        lemma_consistent_step(run(fresh(signature_len), front), bytes.last());
    }
}

/// Where the state changes, the byte counter and the accumulator start again
/// at zero; where it stays, the counter grows by one at most. This holds
/// whatever handlers are registered.
pub proof fn theorem_counter_restarts(m: MachineView, b: u8)
    ensures
        step(m, b).state != m.state ==> step(m, b).counter == 0 && step(m, b).be_accum == 0,
        step(m, b).counter <= m.counter + 1,
{
}

/// Once the attribute offset is not zero, no input changes it, whatever
/// handlers are registered.
pub proof fn theorem_offset_is_fixed_once(m: MachineView, bytes: Seq<u8>)
    requires
        m.attr_offset != 0,
    ensures
        run(m, bytes).attr_offset == m.attr_offset,
    decreases bytes.len(),
{
    if bytes.len() > 0 {
        theorem_offset_is_fixed_once(step(m, bytes[0]), bytes.drop_first());
    }
}

/// After any input to a new machine, an attribute offset that is not zero is
/// the total size less the buffer size and the length of the signature, over
/// the registers as they stand; and it is not zero once the machine is past
/// the padding. While the machine skips the padding, each byte leaves the
/// offset at that difference, or at zero where the difference is negative.
pub proof fn theorem_offset_equation(signature_len: nat, bytes: Seq<u8>, b: u8)
    ensures
        ({
            let m = run(fresh(signature_len), bytes);
            &&& m.attr_offset != 0 ==> offset_equation(m)
            &&& m.state.past(State::SkipToOffset) ==> offset_equation(m)
            &&& m.state == State::SkipToOffset ==> step(m, b).attr_offset == clamped_offset(
                m.total_size,
                m.buf_size,
                m.signature_len,
            )
        }),
{
    let m = run(fresh(signature_len), bytes);
    lemma_consistent_run(signature_len, bytes);
    lemma_standard_handler(m, b);
}

/// After any input to a new machine: until the offset of the private-key
/// region is read the mode is asymmetric; from then on it is symmetric exactly
/// where that offset is zero. A symmetric key has one attribute list: the
/// machine never turns to the secondary list, and while it reads the primary
/// one the signature alone is scheduled. For any other key the second list is
/// scheduled before the signature while the first is read, and is read under
/// the secondary key mode. Records of the secondary list come after those of
/// the primary one.
pub proof fn theorem_symmetric_detection(signature_len: nat, bytes: Seq<u8>)
    ensures
        ({
            let m = run(fresh(signature_len), bytes);
            let read = m.state.past(State::OffsetPrivkey16);
            &&& !read ==> m.mode == Mode::Asymmetric && m.key_mode == KeyMode::Primary
            &&& read ==> (m.mode == Mode::Symmetric <==> m.secondkey_offset == 0)
            &&& m.mode == Mode::Symmetric ==> {
                &&& m.key_mode == KeyMode::Primary
                &&& m.state != State::SecondaryKey
                &&& all_primary(m.records)
                &&& read && m.state != State::Signature ==> m.return_stack[0] == State::Signature
                    && forall|i: int|
                    1 <= i < m.return_stack.len() ==> m.return_stack[i] == State::TLVType
            }
            &&& m.mode == Mode::Asymmetric && read && m.key_mode == KeyMode::Primary && m.state
                != State::SecondaryKey ==> {
                &&& m.return_stack.len() >= 2
                &&& m.return_stack[0] == State::Signature
                &&& m.return_stack[1] == State::SecondaryKey
            }
            &&& m.state == State::SecondaryKey ==> m.key_mode == KeyMode::Primary
                && m.return_stack == seq![State::Signature]
            &&& m.key_mode == KeyMode::Secondary ==> m.secondkey_offset != 0
            &&& m.state == State::Signature ==> m.return_stack.len() == 0
            &&& primary_first(m.records)
        }),
{
    lemma_consistent_run(signature_len, bytes);
}

/// After any input to a new machine, while the attributes of the primary list
/// are read, the attributes processed and the attributes still scheduled add up
/// to the attribute count. So at the byte at which the value handler resumes
/// the state scheduled before the list, a list of at least one attribute has
/// had as many attributes processed as it counts.
pub proof fn theorem_attribute_count_conservation(signature_len: nat, bytes: Seq<u8>, b: u8)
    ensures
        ({
            let m = run(fresh(signature_len), bytes);
            let after = step(m, b);
            &&& in_list(m) && m.key_mode == KeyMode::Primary ==> m.attrs_processed + (
            m.return_stack.len() - primary_base(m.mode).len()) == repeats(m.attr_count)
            &&& m.state == State::TLVValue && m.key_mode == KeyMode::Primary && m.attr_count >= 1
                && after.state != State::TLVValue && after.state != State::TLVType
                ==> after.attrs_processed == after.attr_count
        }),
{
    let m = run(fresh(signature_len), bytes);
    lemma_consistent_run(signature_len, bytes);
    lemma_standard_handler(m, b);
}

/// After any input to a new machine, the value buffer holds as many bytes as
/// were counted in the value state, and is empty in every state but that and
/// the signature state. The byte at which an attribute is emitted is the one
/// that completes its declared length: the record is that of the bytes
/// gathered, and the state scheduled last is resumed.
pub proof fn theorem_value_has_declared_length(signature_len: nat, bytes: Seq<u8>, b: u8)
    ensures
        ({
            let m = run(fresh(signature_len), bytes);
            let after = step(m, b);
            &&& m.state == State::TLVValue ==> m.stack.len() == m.counter
            &&& m.state != State::TLVValue && m.state != State::Signature ==> m.stack.len() == 0
            &&& m.state == State::TLVValue ==> {
                if m.counter + 1 == m.tlv_len {
                    &&& after.records == m.records.push(
                        attribute_record(m.key_mode, m.tlv_type, m.stack.push(b)),
                    )
                    &&& m.stack.push(b).len() == m.tlv_len
                    &&& after.attrs_processed == m.attrs_processed + 1
                    &&& after.state == m.return_stack.last()
                    &&& after.return_stack == m.return_stack.drop_last()
                } else {
                    &&& after.records == m.records
                    &&& after.attrs_processed == m.attrs_processed
                    &&& after.state == State::TLVValue
                    &&& after.stack == m.stack.push(b)
                }
            }
        }),
{
    let m = run(fresh(signature_len), bytes);
    lemma_consistent_run(signature_len, bytes);
    lemma_standard_handler(m, b);
}

/// After any input to a new machine in the signature state: the signature is
/// emitted at the byte that completes its length, as the record of the bytes
/// gathered in that state, which are as many as the signature is long; no
/// other byte emits a record, and the state is kept.
pub proof fn theorem_signature_capture(signature_len: nat, bytes: Seq<u8>, b: u8)
    ensures
        ({
            let m = run(fresh(signature_len), bytes);
            let after = step(m, b);
            m.state == State::Signature ==> {
                &&& after.state == State::Signature
                &&& if m.counter + 1 == signature_len {
                    &&& after.records == m.records.push(
                        signature_record(m.key_mode, m.stack.push(b)),
                    )
                    &&& m.stack.push(b).len() == signature_len
                } else {
                    after.records == m.records
                }
            }
        }),
{
    let m = run(fresh(signature_len), bytes);
    lemma_consistent_run(signature_len, bytes);
    theorem_cursor_counts_bytes(fresh(signature_len), bytes);
    lemma_standard_handler(m, b);
}

} // verus!
