//! What each handler does with a byte, and the registration of the handlers
//! in the grid.

use crate::function::{
    lemma_mapped_one, lemma_mapped_two, unit_grid, with_cell, Callable, Func, FuncState, Handler,
};
use crate::machine::{Machine, MachineView};
use crate::state::{KeyMode, Mode, State, STATE_VARIANTS};
use crate::text::{ascii_string, ascii_text, hex_digits, hex_encode, lemma_hex_is_ascii};
use crate::tlv_mapping::{catalogue, decode_value, printable, TLVMapping};
use vstd::prelude::*;

verus! {

/// Where the attribute region starts: `total - buf - sig`, or 0 where that
/// would be negative.
pub open spec fn clamped_offset(total: u32, buf: u32, sig: nat) -> u32 {
    if total >= buf + sig {
        (total - buf - sig) as u32
    } else {
        0
    }
}

/// The accumulator with the byte in hand shifted in.
pub open spec fn shifted(m: MachineView) -> u32 {
    (m.be_accum << 8) | (m.byte as u32)
}

/// The machine after the byte in hand is counted.
pub open spec fn counted(m: MachineView) -> MachineView {
    MachineView { counter: m.counter + 1, ..m }
}

/// The machine after the byte in hand is shifted into the accumulator and
/// counted.
pub open spec fn gathered(m: MachineView) -> MachineView {
    MachineView { be_accum: shifted(m), counter: m.counter + 1, ..m }
}

/// The machine after the byte in hand is put on the stack and counted.
pub open spec fn stacked(m: MachineView) -> MachineView {
    MachineView { stack: m.stack.push(m.byte), counter: m.counter + 1, ..m }
}

/// Drops three bytes, then moves on.
pub open spec fn skip3_effect(m: MachineView) -> (MachineView, Option<State>) {
    if m.counter + 1 == 3 {
        (counted(m), Some(m.state.successor()))
    } else {
        (counted(m), None)
    }
}

/// Drops four bytes, then moves on; until then it asks for the state it is in.
pub open spec fn skip4_effect(m: MachineView) -> (MachineView, Option<State>) {
    if m.counter + 1 == 4 {
        (counted(m), Some(m.state.successor()))
    } else {
        (counted(m), Some(m.state))
    }
}

/// Drops the eight bytes of the preamble.
pub open spec fn skip8_effect(m: MachineView) -> (MachineView, Option<State>) {
    if m.counter + 1 == 8 {
        (MachineView { counter: 0, be_accum: 0, ..m }, Some(m.state.successor()))
    } else {
        (counted(m), None)
    }
}

/// Reads the four bytes of the total size.
pub open spec fn total_size_effect(m: MachineView) -> (MachineView, Option<State>) {
    if m.counter + 1 == 4 {
        (MachineView { total_size: shifted(m), ..gathered(m) }, Some(m.state.successor()))
    } else {
        (gathered(m), None)
    }
}

/// Reads the four bytes of the buffer size.
pub open spec fn buf_size_effect(m: MachineView) -> (MachineView, Option<State>) {
    if m.counter + 1 == 4 {
        (MachineView { buf_size: shifted(m), ..gathered(m) }, Some(m.state.successor()))
    } else {
        (gathered(m), None)
    }
}

/// Fixes the attribute offset if it is still zero, and moves on at the byte
/// whose index is that offset.
pub open spec fn skip_to_offset_effect(m: MachineView) -> (MachineView, Option<State>) {
    let offset = if m.attr_offset == 0 {
        clamped_offset(m.total_size, m.buf_size, m.signature_len)
    } else {
        m.attr_offset
    };
    let after = MachineView { attr_offset: offset, ..m };
    if offset == m.cursor {
        (after, Some(m.state.successor()))
    } else {
        (after, None)
    }
}

/// Reads the two bytes of the offset of the public-key region.
pub open spec fn offset_pubkey_effect(m: MachineView) -> (MachineView, Option<State>) {
    if m.counter + 1 == 2 {
        (MachineView { firstkey_offset: shifted(m), ..gathered(m) }, Some(m.state.successor()))
    } else {
        (gathered(m), Some(m.state))
    }
}

/// Reads the offset of the private-key region. A zero offset marks a
/// symmetric key, after whose attributes the signature follows; any other
/// offset schedules the second attribute list before the signature.
pub open spec fn offset_privkey_effect(m: MachineView) -> (MachineView, Option<State>) {
    if m.counter + 1 == 2 {
        let read = MachineView { secondkey_offset: shifted(m), ..gathered(m) };
        if shifted(m) == 0 {
            (
                MachineView {
                    mode: Mode::Symmetric,
                    return_stack: m.return_stack.push(State::Signature),
                    ..read
                },
                Some(m.state.successor()),
            )
        } else {
            (
                MachineView {
                    return_stack: m.return_stack.push(State::Signature).push(State::SecondaryKey),
                    ..read
                },
                Some(m.state.successor()),
            )
        }
    } else {
        (gathered(m), Some(m.state))
    }
}

/// Reads the four bytes of the attribute count.
pub open spec fn attr_len_effect(m: MachineView) -> (MachineView, Option<State>) {
    if m.counter + 1 == 4 {
        (MachineView { attr_count: shifted(m), ..gathered(m) }, Some(m.state.successor()))
    } else {
        (gathered(m), Some(m.state))
    }
}

/// How many more attributes follow the first one of a list of `count`.
pub open spec fn repeats(count: u32) -> nat {
    if count >= 1 {
        (count - 1) as nat
    } else {
        0
    }
}

/// Drops four bytes, then schedules one `TLVType` for each attribute of the
/// list but the first, which follows at once.
pub open spec fn skip_attr_effect(m: MachineView) -> (MachineView, Option<State>) {
    if m.counter + 1 == 4 {
        (
            MachineView {
                return_stack: m.return_stack + Seq::new(
                    repeats(m.attr_count),
                    |i: int| State::TLVType,
                ),
                ..counted(m)
            },
            Some(m.state.successor()),
        )
    } else {
        (counted(m), Some(m.state))
    }
}

/// Reads the four bytes of the tag of an attribute.
pub open spec fn tlv_type_effect(m: MachineView) -> (MachineView, Option<State>) {
    if m.counter + 1 == 4 {
        (MachineView { tlv_type: shifted(m), ..gathered(m) }, Some(m.state.successor()))
    } else {
        (gathered(m), Some(m.state))
    }
}

/// Reads the four bytes of the declared length of an attribute.
pub open spec fn tlv_len_effect(m: MachineView) -> (MachineView, Option<State>) {
    if m.counter + 1 == 4 {
        (MachineView { tlv_len: shifted(m), ..gathered(m) }, Some(m.state.successor()))
    } else {
        (gathered(m), Some(m.state))
    }
}

/// The record of an attribute: the list it belongs to, its name, and the
/// printable form of its value.
pub open spec fn attribute_record(mode: KeyMode, tag: u32, value: Seq<u8>) -> (
    KeyMode,
    Seq<char>,
    Seq<char>,
) {
    let attr = catalogue(tag);
    (mode, attr.name_of(), printable(decode_value(attr.kind_of(), value)))
}

/// The record of the signature: its bytes in hexadecimal.
pub open spec fn signature_record(mode: KeyMode, signature: Seq<u8>) -> (
    KeyMode,
    Seq<char>,
    Seq<char>,
) {
    (mode, TLVMapping::SIGNATURE.name_of(), ascii_text(hex_digits(signature)))
}

/// Gathers the bytes of a value. At the byte that completes the declared
/// length the attribute is emitted and counted, the type and length registers
/// are cleared, and the state on top of the return stack is resumed; with an
/// empty return stack the state is kept.
pub open spec fn tlv_value_effect(m: MachineView) -> (MachineView, Option<State>) {
    let g = stacked(m);
    if g.counter == m.tlv_len {
        let done = MachineView {
            stack: Seq::empty(),
            records: m.records.push(attribute_record(m.key_mode, m.tlv_type, g.stack)),
            attrs_processed: m.attrs_processed + 1,
            tlv_type: 0,
            tlv_len: 0,
            ..g
        };
        if m.return_stack.len() > 0 {
            (
                MachineView { return_stack: m.return_stack.drop_last(), ..done },
                Some(m.return_stack.last()),
            )
        } else {
            (done, None)
        }
    } else {
        (g, None)
    }
}

/// Drops the four bytes before the second attribute list, then starts that
/// list.
pub open spec fn secondary_key_effect(m: MachineView) -> (MachineView, Option<State>) {
    if m.counter + 1 == 4 {
        (
            MachineView { attr_count: 0, key_mode: KeyMode::Secondary, ..counted(m) },
            Some(State::AttrLen),
        )
    } else {
        (counted(m), None)
    }
}

/// Gathers the bytes of the signature and emits it at the byte that completes
/// its length.
pub open spec fn signature_effect(m: MachineView) -> (MachineView, Option<State>) {
    let g = stacked(m);
    if g.counter == m.signature_len {
        (
            MachineView {
                stack: Seq::empty(),
                records: m.records.push(signature_record(m.key_mode, g.stack)),
                ..g
            },
            None,
        )
    } else {
        (g, None)
    }
}

fn shift_in(m: &mut Machine)
    ensures
        final(m)@ == (MachineView { be_accum: shifted(old(m)@), ..old(m)@ }),
{
    m.be_int = (m.be_int << 8) | (m.current_byte() as u32);
}

fn skip8(m: &mut Machine) -> (next: Option<State>)
    requires
        old(m)@.within_limits(),
    ensures
        (final(m)@, next) == skip8_effect(old(m)@),
{
    if m.inc_count() == 8 {
        m.reset_count();
        return Some(m.next_state());
    }
    None
}

fn total_size4(m: &mut Machine) -> (next: Option<State>)
    requires
        old(m)@.within_limits(),
    ensures
        (final(m)@, next) == total_size_effect(old(m)@),
{
    shift_in(m);
    if m.inc_count() == 4 {
        let size = m.be_int;
        m.set_total_size(size);
        return Some(m.next_state());
    }
    None
}

fn buf_size4(m: &mut Machine) -> (next: Option<State>)
    requires
        old(m)@.within_limits(),
    ensures
        (final(m)@, next) == buf_size_effect(old(m)@),
{
    shift_in(m);
    if m.inc_count() == 4 {
        let size = m.be_int;
        m.set_buf_size(size);
        return Some(m.next_state());
    }
    None
}

fn offset_of(total: u32, buf: u32, sig: usize) -> (offset: u32)
    ensures
        offset == clamped_offset(total, buf, sig as nat),
{
    if sig > total as usize {
        0
    } else {
        let taken: u64 = buf as u64 + sig as u64;
        if taken > total as u64 {
            0
        } else {
            (total as u64 - taken) as u32
        }
    }
}

fn skip_to_offset(m: &mut Machine) -> (next: Option<State>)
    ensures
        (final(m)@, next) == skip_to_offset_effect(old(m)@),
{
    if m.attr_offset == 0 {
        m.attr_offset = offset_of(m.total_size, m.buff_size, m.signature_len);
    }
    if m.attr_offset as usize == m.get_index() {
        return Some(m.next_state());
    }
    None
}

fn skip_u16_2(m: &mut Machine) -> (next: Option<State>)
    requires
        old(m)@.within_limits(),
    ensures
        (final(m)@, next) == skip3_effect(old(m)@),
{
    if m.inc_count() == 3 {
        return Some(m.next_state());
    }
    None
}

fn skip4(m: &mut Machine) -> (next: Option<State>)
    requires
        old(m)@.within_limits(),
    ensures
        (final(m)@, next) == skip4_effect(old(m)@),
{
    if m.inc_count() == 4 {
        Some(m.next_state())
    } else {
        Some(m.state())
    }
}

fn offset_pubkey16(m: &mut Machine) -> (next: Option<State>)
    requires
        old(m)@.within_limits(),
    ensures
        (final(m)@, next) == offset_pubkey_effect(old(m)@),
{
    shift_in(m);
    if m.inc_count() == 2 {
        m.firstkey_offset = m.be_int;
        return Some(m.next_state());
    }
    Some(m.state())
}

fn offset_privkey16(m: &mut Machine) -> (next: Option<State>)
    requires
        old(m)@.within_limits(),
    ensures
        (final(m)@, next) == offset_privkey_effect(old(m)@),
{
    shift_in(m);
    if m.inc_count() == 2 {
        m.secondkey_offset = m.be_int;
        if m.secondkey_offset == 0 {
            m.set_mode(Mode::Symmetric);
            m.push_state(State::Signature);
        } else {
            m.push_state(State::Signature);
            m.push_state(State::SecondaryKey);
        }
        return Some(m.next_state());
    }
    Some(m.state())
}

fn attr_len(m: &mut Machine) -> (next: Option<State>)
    requires
        old(m)@.within_limits(),
    ensures
        (final(m)@, next) == attr_len_effect(old(m)@),
{
    shift_in(m);
    if m.inc_count() == 4 {
        m.attr_count = m.be_int;
        return Some(m.next_state());
    }
    Some(m.state())
}

fn skip_attr4(m: &mut Machine) -> (next: Option<State>)
    requires
        old(m)@.within_limits(),
    ensures
        (final(m)@, next) == skip_attr_effect(old(m)@),
{
    if m.inc_count() == 4 {
        let ghost start = m@;
        let count = m.attr_count;
        let mut i: u32 = 1;
        while i < count
            invariant
                1 <= i,
                i <= count || i == 1,
                count == start.attr_count,
                m@ == (MachineView {
                    return_stack: start.return_stack + Seq::new(
                        (i - 1) as nat,
                        |k: int| State::TLVType,
                    ),
                    ..start
                }),
            decreases count - i,
        {
            m.push_state(State::TLVType);
            assert(m@.return_stack =~= start.return_stack + Seq::new(
                i as nat,
                |k: int| State::TLVType,
            ));
            i += 1;
        }
        assert(m@.return_stack =~= start.return_stack + Seq::new(
            repeats(count),
            |k: int| State::TLVType,
        ));
        return Some(m.next_state());
    }
    Some(m.state())
}

fn tlv_type(m: &mut Machine) -> (next: Option<State>)
    requires
        old(m)@.within_limits(),
    ensures
        (final(m)@, next) == tlv_type_effect(old(m)@),
{
    shift_in(m);
    if m.inc_count() == 4 {
        m.tlv_type = m.be_int;
        return Some(m.next_state());
    }
    Some(m.state())
}

fn tlv_len(m: &mut Machine) -> (next: Option<State>)
    requires
        old(m)@.within_limits(),
    ensures
        (final(m)@, next) == tlv_len_effect(old(m)@),
{
    shift_in(m);
    if m.inc_count() == 4 {
        m.tlv_len = m.be_int;
        return Some(m.next_state());
    }
    Some(m.state())
}

fn tlv_value(m: &mut Machine) -> (next: Option<State>)
    requires
        old(m)@.within_limits(),
    ensures
        (final(m)@, next) == tlv_value_effect(old(m)@),
{
    let count = m.inc_count();
    let byte = m.current_byte();
    m.stack_mut().push(byte);
    if count == m.tlv_len {
        let mut value: Vec<u8> = Vec::new();
        core::mem::swap(m.stack_mut(), &mut value);
        let attr = TLVMapping::from_int(m.tlv_type);
        let decoded = attr.encode(value.as_slice(), m.tlv_len);
        m.emit(attr.name().to_owned(), decoded.to_str());
        m.attrs_processed += 1;
        m.tlv_type = 0;
        m.tlv_len = 0;
        m.pop_state()
    } else {
        None
    }
}

fn secondary_key(m: &mut Machine) -> (next: Option<State>)
    requires
        old(m)@.within_limits(),
    ensures
        (final(m)@, next) == secondary_key_effect(old(m)@),
{
    if m.inc_count() == 4 {
        m.attr_count = 0;
        m.set_keymode(KeyMode::Secondary);
        Some(State::AttrLen)
    } else {
        None
    }
}

fn signature(m: &mut Machine) -> (next: Option<State>)
    requires
        old(m)@.within_limits(),
    ensures
        (final(m)@, next) == signature_effect(old(m)@),
{
    let byte = m.current_byte();
    m.stack_mut().push(byte);
    let count = m.inc_count();
    if count as usize == m.signature_len {
        let mut value: Vec<u8> = Vec::new();
        core::mem::swap(m.stack_mut(), &mut value);
        let digits = hex_encode(value.as_slice());
        proof {
            lemma_hex_is_ascii(value@);
        }
        m.emit(TLVMapping::SIGNATURE.name().to_owned(), ascii_string(digits));
    }
    None
}

/// No handler touches the tables, the cursor, the byte in hand or the length
/// of the signature.
pub proof fn lemma_effect_frame(func: Func, m: MachineView)
    ensures
        func.effect(m).0.grid == m.grid,
        func.effect(m).0.handlers == m.handlers,
        func.effect(m).0.cursor == m.cursor,
        func.effect(m).0.byte == m.byte,
        func.effect(m).0.signature_len == m.signature_len,
        func.effect(m).0.state == m.state,
        func.effect(m).0.prev == m.prev,
{
}

/// The handler that the standard registration puts from state `i` to the
/// proposed state `j`, if any: each state from `SKIP8` to `Signature` has its
/// handler under itself, and `SecondaryKey` has that of `AttrLen` under
/// `AttrLen`.
pub open spec fn standard_cell(i: int, j: int) -> Option<Handler> {
    if i == 14 && j == 9 {
        Some(Handler::AttrLen)
    } else if i != j {
        None
    } else if i == 1 {
        Some(Handler::Skip8)
    } else if i == 2 {
        Some(Handler::TotalSize4)
    } else if i == 3 {
        Some(Handler::BufSize4)
    } else if i == 4 {
        Some(Handler::SkipToOffset)
    } else if i == 5 {
        Some(Handler::SkipU16_2)
    } else if i == 6 {
        Some(Handler::OffsetPubkey16)
    } else if i == 7 {
        Some(Handler::OffsetPrivkey16)
    } else if i == 8 {
        Some(Handler::Skip4)
    } else if i == 9 {
        Some(Handler::AttrLen)
    } else if i == 10 {
        Some(Handler::SkipAttr4)
    } else if i == 11 {
        Some(Handler::TlvType)
    } else if i == 12 {
        Some(Handler::TlvLen)
    } else if i == 13 {
        Some(Handler::TlvValue)
    } else if i == 14 {
        Some(Handler::SecondaryKey)
    } else if i == 15 {
        Some(Handler::Signature)
    } else {
        None
    }
}

/// The grid `handlers` after the standard registration.
pub open spec fn registered(handlers: Seq<Seq<Func>>) -> Seq<Seq<Func>> {
    Seq::new(
        STATE_VARIANTS as nat,
        |i: int|
            Seq::new(
                STATE_VARIANTS as nat,
                |j: int|
                    match standard_cell(i, j) {
                        Some(h) => Func::Fun(h),
                        None => handlers[i][j],
                    },
            ),
    )
}

/// The grid of a new machine.
pub open spec fn standard_handlers() -> Seq<Seq<Func>> {
    registered(unit_grid())
}

/// Registers `handler` from the state `on` to the same state proposed.
fn register(machine: &mut Machine, on: State, handler: Handler)
    requires
        old(machine)@.wf(),
    ensures
        final(machine)@ == (MachineView {
            handlers: with_cell(
                old(machine)@.handlers,
                on.ordinal() as int,
                on.ordinal() as int,
                Func::Fun(handler),
            ),
            ..old(machine)@
        }),
{
    proof {
        lemma_mapped_one(machine@.handlers, on, on, Func::Fun(handler));
    }
    machine.map_func(on.to(on), Func::Fun(handler));
}

/// Registers the handler of each state.
pub fn register_functions(machine: &mut Machine)
    requires
        old(machine)@.wf(),
    ensures
        final(machine)@ == (MachineView {
            handlers: registered(old(machine)@.handlers),
            ..old(machine)@
        }),
{
    register(machine, State::SKIP8, Handler::Skip8);
    register(machine, State::BUFSIZE4, Handler::BufSize4);
    register(machine, State::TOTALSIZE4, Handler::TotalSize4);
    register(machine, State::SkipToOffset, Handler::SkipToOffset);
    register(machine, State::SkipU16_2, Handler::SkipU16_2);
    register(machine, State::OffsetPubkey16, Handler::OffsetPubkey16);
    register(machine, State::OffsetPrivkey16, Handler::OffsetPrivkey16);
    register(machine, State::Skip4, Handler::Skip4);
    let mut both: Vec<State> = Vec::new();
    both.push(State::AttrLen);
    both.push(State::SecondaryKey);
    proof {
        assert(both@ =~= seq![State::AttrLen, State::SecondaryKey]);
        lemma_mapped_two(
            machine@.handlers,
            State::AttrLen,
            State::SecondaryKey,
            State::AttrLen,
            Func::Fun(Handler::AttrLen),
        );
    }
    machine.map_func(both.to(State::AttrLen), Func::Fun(Handler::AttrLen));
    register(machine, State::SkipAttr4, Handler::SkipAttr4);
    register(machine, State::TLVType, Handler::TlvType);
    register(machine, State::TLVLen, Handler::TlvLen);
    register(machine, State::TLVValue, Handler::TlvValue);
    register(machine, State::SecondaryKey, Handler::SecondaryKey);
    register(machine, State::Signature, Handler::Signature);
    proof {
        let want = registered(old(machine)@.handlers);
        assert forall|a: int, b: int|
            0 <= a < STATE_VARIANTS && 0 <= b < STATE_VARIANTS implies #[trigger] machine@.handlers[a][b]
            == want[a][b] by {}
        assert(machine@.handlers =~~= want);
    }
}

impl Callable for Handler {
    open spec fn effect(&self, m: MachineView) -> (MachineView, Option<State>) {
        match self {
            Handler::Skip8 => skip8_effect(m),
            Handler::TotalSize4 => total_size_effect(m),
            Handler::BufSize4 => buf_size_effect(m),
            Handler::SkipToOffset => skip_to_offset_effect(m),
            Handler::SkipU16_2 => skip3_effect(m),
            Handler::OffsetPubkey16 => offset_pubkey_effect(m),
            Handler::OffsetPrivkey16 => offset_privkey_effect(m),
            Handler::Skip4 => skip4_effect(m),
            Handler::AttrLen => attr_len_effect(m),
            Handler::SkipAttr4 => skip_attr_effect(m),
            Handler::TlvType => tlv_type_effect(m),
            Handler::TlvLen => tlv_len_effect(m),
            Handler::TlvValue => tlv_value_effect(m),
            Handler::SecondaryKey => secondary_key_effect(m),
            Handler::Signature => signature_effect(m),
        }
    }

    fn apply(&self, ctx: &mut Machine) -> (next: Option<State>) {
        match self {
            Handler::Skip8 => skip8(ctx),
            Handler::TotalSize4 => total_size4(ctx),
            Handler::BufSize4 => buf_size4(ctx),
            Handler::SkipToOffset => skip_to_offset(ctx),
            Handler::SkipU16_2 => skip_u16_2(ctx),
            Handler::OffsetPubkey16 => offset_pubkey16(ctx),
            Handler::OffsetPrivkey16 => offset_privkey16(ctx),
            Handler::Skip4 => skip4(ctx),
            Handler::AttrLen => attr_len(ctx),
            Handler::SkipAttr4 => skip_attr4(ctx),
            Handler::TlvType => tlv_type(ctx),
            Handler::TlvLen => tlv_len(ctx),
            Handler::TlvValue => tlv_value(ctx),
            Handler::SecondaryKey => secondary_key(ctx),
            Handler::Signature => signature(ctx),
        }
    }
}

} // verus!
