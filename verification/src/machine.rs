//! The machine: its registers, the tables that drive it, and the driver that
//! feeds it one byte at a time.

use crate::function::{
    build_unboxed_handlers, grid_view, is_square, mapped, Callable, Func, FuncMap,
};
use crate::state::{KeyMode, Mode, State, STATE_VARIANTS};
use crate::state_transitions::{lemma_effect_frame, register_functions, standard_handlers};
use crate::theorems::{lemma_can_run_append, lemma_room_suffices, lemma_run_push};
use crate::writer::{Record, Writer};
use vstd::prelude::*;

verus! {

/// Length of a signature where none is given: 256 bytes.
pub const SIG_SIZE: usize = 256;

/// Number of cells of the transition grid: one for each state and byte.
pub const GRID_CELLS: usize = 4352;

/// The machine as a mathematical value.
pub struct MachineView {
    /// Bytes of the attribute value, or of the signature, gathered so far.
    pub stack: Seq<u8>,
    /// States to resume, the next one last.
    pub return_stack: Seq<State>,
    /// For each state and byte, the number of the state proposed next.
    pub grid: Seq<u8>,
    /// For each state and proposed state, the handler to run.
    pub handlers: Seq<Seq<Func>>,
    pub state: State,
    pub prev: State,
    /// Bytes seen in the current state.
    pub counter: nat,
    /// The big-endian number gathered in the current state.
    pub be_accum: u32,
    /// The byte in hand.
    pub byte: u8,
    /// Bytes delivered so far.
    pub cursor: nat,
    pub total_size: u32,
    pub buf_size: u32,
    pub attr_offset: u32,
    pub firstkey_offset: u32,
    pub secondkey_offset: u32,
    pub attrs_processed: nat,
    pub attr_count: u32,
    pub mode: Mode,
    pub tlv_type: u32,
    pub tlv_len: u32,
    pub signature_len: nat,
    pub key_mode: KeyMode,
    /// The records emitted so far.
    pub records: Seq<Record>,
}

impl MachineView {
    /// The tables have their sizes.
    pub open spec fn wf(self) -> bool {
        &&& self.grid.len() == GRID_CELLS
        &&& is_square(self.handlers)
    }

    /// One more byte can be counted in each of the counters.
    pub open spec fn within_limits(self) -> bool {
        &&& self.counter < u32::MAX
        &&& self.cursor < usize::MAX
        &&& self.attrs_processed < u32::MAX
    }
}

/// The transition grid in which each state proposes itself at every byte.
pub open spec fn identity_grid() -> Seq<u8> {
    Seq::new(GRID_CELLS as nat, |k: int| (k / 256) as u8)
}

/// The state that the grid proposes for the byte `b`.
pub open spec fn proposed(m: MachineView, b: u8) -> State {
    State::at(m.grid[m.state.ordinal() * 256 + b] as nat)
}

/// The handler that runs on the byte `b`.
pub open spec fn handler_for(m: MachineView, b: u8) -> Func {
    m.handlers[m.state.ordinal() as int][proposed(m, b).ordinal() as int]
}

/// The machine after one byte: the handler for the current state and the
/// proposed one runs on the byte; the state that it asks for is taken, the
/// counter and the accumulator being cleared where that state differs from the
/// current one; the cursor moves on by one.
pub open spec fn step(m: MachineView, b: u8) -> MachineView {
    let (after, next) = handler_for(m, b).effect(MachineView { byte: b, ..m });
    let new_state = match next {
        Some(s) => s,
        None => m.state,
    };
    let settled = if new_state != m.state {
        MachineView { counter: 0, be_accum: 0, ..after }
    } else {
        after
    };
    MachineView { state: new_state, prev: m.state, cursor: m.cursor + 1, ..settled }
}

/// The machine after the bytes, taken one by one.
pub open spec fn run(m: MachineView, bytes: Seq<u8>) -> MachineView
    decreases bytes.len(),
{
    if bytes.len() == 0 {
        m
    } else {
        run(step(m, bytes[0]), bytes.drop_first())
    }
}

/// No counter reaches its limit while the machine takes the bytes.
pub open spec fn can_run(m: MachineView, bytes: Seq<u8>) -> bool
    decreases bytes.len(),
{
    bytes.len() == 0 || (m.within_limits() && can_run(step(m, bytes[0]), bytes.drop_first()))
}

/// The machine before the first byte, for a signature of `signature_len`
/// bytes.
pub open spec fn fresh(signature_len: nat) -> MachineView {
    MachineView {
        stack: Seq::empty(),
        return_stack: Seq::empty(),
        grid: identity_grid(),
        handlers: standard_handlers(),
        state: State::SKIP8,
        prev: State::Initial,
        counter: 0,
        be_accum: 0,
        byte: 0,
        cursor: 0,
        total_size: 0,
        buf_size: 0,
        attr_offset: 0,
        firstkey_offset: 0,
        secondkey_offset: 0,
        attrs_processed: 0,
        attr_count: 0,
        mode: Mode::Asymmetric,
        tlv_type: 0,
        tlv_len: 0,
        signature_len: signature_len,
        key_mode: KeyMode::Primary,
        records: Seq::empty(),
    }
}

/// The transition grid: for each state and byte the state that is proposed,
/// which is the state itself.
fn make_state() -> (grid: Vec<u8>)
    ensures
        grid@ == identity_grid(),
{
    let mut grid: Vec<u8> = Vec::new();
    let mut state: u8 = 0;
    while state < 17
        invariant
            state <= 17,
            grid.len() == state * 256,
            forall|k: int| 0 <= k < grid.len() ==> #[trigger] grid[k] == (k / 256) as u8,
        decreases 17 - state,
    {
        let mut c: usize = 0;
        while c < 256
            invariant
                state < 17,
                c <= 256,
                grid.len() == state * 256 + c,
                forall|k: int| 0 <= k < grid.len() ==> #[trigger] grid[k] == (k / 256) as u8,
            decreases 256 - c,
        {
            grid.push(state);
            c += 1;
        }
        state += 1;
    }
    assert(grid@ =~= identity_grid());
    grid
}

/// A streaming parser of attestation blobs.
#[derive(Debug)]
pub struct Machine {
    pub(crate) stack: Vec<u8>,
    pub(crate) state_stack: Vec<State>,
    pub(crate) state_machine: Vec<u8>,
    pub(crate) func_table: Vec<Vec<Func>>,
    pub(crate) state: State,
    pub(crate) prev: State,
    pub(crate) counter: u32,
    pub be_int: u32,
    pub(crate) byte: u8,
    pub(crate) index: usize,
    pub total_size: u32,
    pub buff_size: u32,
    pub attr_offset: u32,
    pub firstkey_offset: u32,
    pub secondkey_offset: u32,
    pub attrs_processed: u32,
    pub attr_count: u32,
    pub(crate) mode: Mode,
    pub tlv_type: u32,
    pub tlv_len: u32,
    pub signature_len: usize,
    pub key_mode: KeyMode,
    pub(crate) writer: Writer,
}

impl View for Machine {
    type V = MachineView;

    open(crate) spec fn view(&self) -> MachineView {
        MachineView {
            stack: self.stack@,
            return_stack: self.state_stack@,
            grid: self.state_machine@,
            handlers: grid_view(self.func_table@),
            state: self.state,
            prev: self.prev,
            counter: self.counter as nat,
            be_accum: self.be_int,
            byte: self.byte,
            cursor: self.index as nat,
            total_size: self.total_size,
            buf_size: self.buff_size,
            attr_offset: self.attr_offset,
            firstkey_offset: self.firstkey_offset,
            secondkey_offset: self.secondkey_offset,
            attrs_processed: self.attrs_processed as nat,
            attr_count: self.attr_count,
            mode: self.mode,
            tlv_type: self.tlv_type,
            tlv_len: self.tlv_len,
            signature_len: self.signature_len as nat,
            key_mode: self.key_mode,
            records: self.writer@,
        }
    }
}

impl Machine {
    /// A machine before the first byte, in the state `SKIP8` with `Initial` as
    /// the state before it, with the handlers of every state registered, for
    /// a signature of 256 bytes.
    pub fn new() -> (m: Machine)
        ensures
            m@ == fresh(SIG_SIZE as nat),
            m@.wf(),
    {
        let mut m = Machine {
            state: State::from_primitive(1),
            prev: State::Initial,
            stack: Vec::new(),
            state_stack: Vec::new(),
            state_machine: make_state(),
            func_table: build_unboxed_handlers(),
            counter: 0,
            byte: 0,
            be_int: 0,
            index: 0,
            total_size: 0,
            buff_size: 0,
            attr_offset: 0,
            firstkey_offset: 0,
            secondkey_offset: 0,
            attrs_processed: 0,
            attr_count: 0,
            mode: Mode::Asymmetric,
            tlv_type: 0,
            tlv_len: 0,
            signature_len: SIG_SIZE,
            key_mode: KeyMode::Primary,
            writer: Writer::new(),
        };
        register_functions(&mut m);
        m
    }

    /// A machine before the first byte, for a signature of `len` bytes.
    pub fn new_with_signature_len(len: usize) -> (m: Machine)
        ensures
            m@ == fresh(len as nat),
            m@.wf(),
    {
        let mut machine = Machine::new();
        machine.set_signature_len(len);
        machine
    }

    /// Delivers the bytes of `buff`, one by one. Each counter must have room
    /// for as many bytes as `buff` holds; `feed` asks for no room.
    pub fn run_buf(&mut self, buff: &[u8])
        requires
            old(self)@.wf(),
            old(self)@.counter + buff@.len() <= u32::MAX,
            old(self)@.cursor + buff@.len() <= usize::MAX,
            old(self)@.attrs_processed + buff@.len() <= u32::MAX,
        ensures
            final(self)@ == run(old(self)@, buff@),
            final(self)@.wf(),
    {
        let mut i: usize = 0;
        proof {
            lemma_room_suffices(self@, buff@);
            assert(buff@.skip(0) =~= buff@);
        }
        while i < buff.len()
            invariant
                i <= buff.len(),
                self@.wf(),
                can_run(self@, buff@.skip(i as int)),
                run(self@, buff@.skip(i as int)) == run(old(self)@, buff@),
            decreases buff.len() - i,
        {
            proof {
                let rest = buff@.skip(i as int);
                assert(rest[0] == buff@[i as int]);
                assert(rest.drop_first() =~= buff@.skip(i + 1));
            }
            self.parse(buff[i]);
            i += 1;
        }
    }

    /// Whether one more byte can be counted in each of the counters.
    pub fn has_room(&self) -> (r: bool)
        ensures
            r == self@.within_limits(),
    {
        self.counter < u32::MAX && self.index < usize::MAX && self.attrs_processed < u32::MAX
    }

    /// Delivers the bytes of `bytes`, one by one, for as long as no counter is
    /// at its limit, and returns how many were delivered: all of them, unless
    /// a counter has reached its limit.
    pub fn feed(&mut self, bytes: &[u8]) -> (n: usize)
        requires
            old(self)@.wf(),
        ensures
            n <= bytes.len(),
            can_run(old(self)@, bytes@.take(n as int)),
            final(self)@ == run(old(self)@, bytes@.take(n as int)),
            final(self)@.wf(),
            n < bytes.len() ==> !final(self)@.within_limits(),
    {
        let mut n: usize = 0;
        while n < bytes.len() && self.has_room()
            invariant
                n <= bytes.len(),
                self@.wf(),
                can_run(old(self)@, bytes@.take(n as int)),
                self@ == run(old(self)@, bytes@.take(n as int)),
            decreases bytes.len() - n,
        {
            proof {
                let fed = bytes@.take(n as int);
                let b = bytes@[n as int];
                assert(bytes@.take(n + 1) =~= fed.push(b));
                assert(fed.push(b) =~= fed + seq![b]);
                lemma_run_push(old(self)@, fed, b);
                lemma_can_run_append(old(self)@, fed, seq![b]);
                assert(seq![b].drop_first() =~= Seq::<u8>::empty());
                assert(can_run(step(self@, seq![b][0]), seq![b].drop_first()));
                assert(can_run(self@, seq![b]));
            }
            self.parse(bytes[n]);
            n += 1;
        }
        n
    }

    /// Delivers one byte.
    pub fn parse(&mut self, c: u8)
        requires
            old(self)@.wf(),
            old(self)@.within_limits(),
        ensures
            final(self)@ == step(old(self)@, c),
            final(self)@.wf(),
    {
        let current_state = self.state;
        self.byte = c;
        let cell = current_state.to_primitive() as usize * 256 + c as usize;
        let proposed_state = State::from_primitive(self.state_machine[cell]);
        proof {
            lemma_effect_frame(handler_for(old(self)@, c), self@);
        }
        let new_state = match self.run_funcs(current_state, proposed_state) {
            Some(s) => s,
            None => current_state,
        };
        if new_state != current_state {
            self.reset_count();
        }
        self.state = new_state;
        self.prev = current_state;
        self.index += 1;
    }

    /// Runs the handler that is registered from `current` to `new_state` on
    /// the byte in hand.
    pub fn run_funcs(&mut self, current: State, new_state: State) -> (next: Option<State>)
        requires
            old(self)@.wf(),
            old(self)@.within_limits(),
        ensures
            (final(self)@, next) == old(self)@.handlers[current.ordinal() as int][new_state.ordinal() as int].effect(
                old(self)@,
            ),
    {
        let i = current.to_primitive() as usize;
        let j = new_state.to_primitive() as usize;
        assert(self@.handlers[i as int].len() == STATE_VARIANTS);
        let func = self.func_table[i][j];
        func.apply(self)
    }

    /// Registers `func` from each state of the mapper to its proposed state.
    pub fn map_func(&mut self, mapper: FuncMap, func: Func)
        requires
            old(self)@.wf(),
        ensures
            final(self)@ == (MachineView {
                handlers: mapped(old(self)@.handlers, mapper.0@, mapper.1, func),
                ..old(self)@
            }),
    {
        let FuncMap(from, to) = mapper;
        let j = to.to_primitive() as usize;
        let mut k: usize = 0;
        assert(from@.take(0) =~= Seq::<State>::empty());
        assert(mapped(self@.handlers, from@.take(0), to, func) =~~= self@.handlers);
        while k < from.len()
            invariant
                k <= from.len(),
                j == to.ordinal(),
                old(self)@.wf(),
                self@ == (MachineView {
                    handlers: mapped(old(self)@.handlers, from@.take(k as int), to, func),
                    ..old(self)@
                }),
            decreases from.len() - k,
        {
            let i = from[k].to_primitive() as usize;
            let ghost before = self@.handlers;
            assert(self.func_table@.len() == before.len());
            assert(self.func_table@[i as int]@ == before[i as int]);
            assert(before[i as int].len() == STATE_VARIANTS);
            self.func_table[i][j] = func;
            proof {
                let after = mapped(old(self)@.handlers, from@.take(k + 1), to, func);
                crate::state::lemma_ordinal_roundtrip(from@[k as int]);
                assert forall|a: int, b: int|
                    0 <= a < STATE_VARIANTS && 0 <= b < STATE_VARIANTS implies #[trigger] after[a][b]
                    == self@.handlers[a][b] by {
                    let s = State::at(a as nat);
                    assert(from@.take(k + 1).contains(s) <==> (from@.take(k as int).contains(s)
                        || from@[k as int] == s)) by {
                        assert(from@.take(k + 1) =~= from@.take(k as int).push(from@[k as int]));
                        if from@[k as int] == s {
                            assert(from@.take(k + 1)[k as int] == s);
                        }
                    }
                    assert(before[a].len() == STATE_VARIANTS);
                    assert(self@.handlers[a][b] == if a == i && b == j {
                        func
                    } else {
                        before[a][b]
                    });
                }
                assert(self@.handlers.len() == after.len());
                assert forall|a: int| 0 <= a < STATE_VARIANTS implies (#[trigger] self@.handlers[a]).len()
                    == STATE_VARIANTS by {
                    assert(before[a].len() == STATE_VARIANTS);
                }
                assert(self@.handlers =~~= after);
            }
            k += 1;
        }
        assert(from@.take(k as int) =~= from@);
    }

    /// Gives up the sink with the records emitted so far.
    pub fn into_output(self) -> (w: Writer)
        ensures
            w@ == self@.records,
    {
        self.writer
    }

    /// The byte in hand.
    pub fn current_byte(&self) -> (b: u8)
        ensures
            b == self@.byte,
    {
        self.byte
    }

    /// The buffer that gathers the bytes of a value.
    pub fn stack_mut(&mut self) -> (stack: &mut Vec<u8>)
        ensures
            stack@ == old(self)@.stack,
            final(self)@ == (MachineView { stack: final(stack)@, ..old(self)@ }),
    {
        &mut self.stack
    }

    /// The current state.
    pub fn state(&self) -> (s: State)
        ensures
            s == self@.state,
    {
        self.state
    }

    /// The state that follows the current one in the alphabet.
    pub fn next_state(&self) -> (s: State)
        ensures
            s == self@.state.successor(),
    {
        State::from_primitive(self.state.to_primitive() + 1)
    }

    /// The state before the last byte.
    pub fn previous(&self) -> (s: State)
        ensures
            s == self@.prev,
    {
        self.prev
    }

    /// Moves to `new_state`, remembering the state that is left.
    pub fn set_state(&mut self, new_state: State)
        ensures
            final(self)@ == (MachineView { state: new_state, prev: old(self)@.state, ..old(self)@ }),
    {
        self.prev = self.state;
        self.state = new_state;
    }

    /// Sets the total size of the blob.
    pub fn set_total_size(&mut self, size: u32)
        ensures
            final(self)@ == (MachineView { total_size: size, ..old(self)@ }),
    {
        self.total_size = size;
    }

    /// Sets the size of the buffer that precedes the signature.
    pub fn set_buf_size(&mut self, size: u32)
        ensures
            final(self)@ == (MachineView { buf_size: size, ..old(self)@ }),
    {
        self.buff_size = size;
    }

    /// Sets whether the key is symmetric.
    pub fn set_mode(&mut self, mode: Mode)
        ensures
            final(self)@ == (MachineView { mode: mode, ..old(self)@ }),
    {
        self.mode = mode;
    }

    /// Whether the key is symmetric.
    pub fn get_mode(&self) -> (m: Mode)
        ensures
            m == self@.mode,
    {
        self.mode
    }

    /// Clears the byte counter and the accumulator.
    pub fn reset_count(&mut self)
        ensures
            final(self)@ == (MachineView { counter: 0, be_accum: 0, ..old(self)@ }),
    {
        self.counter = 0;
        self.be_int = 0;
    }

    /// Bytes seen in the current state.
    pub fn current_count(&self) -> (n: u32)
        ensures
            n == self@.counter,
    {
        self.counter
    }

    /// Counts one byte, and returns the new count.
    pub fn inc_count(&mut self) -> (n: u32)
        requires
            old(self)@.counter < u32::MAX,
        ensures
            n == old(self)@.counter + 1,
            final(self)@ == (MachineView { counter: old(self)@.counter + 1, ..old(self)@ }),
    {
        self.counter += 1;
        self.counter
    }

    /// Number of bytes delivered so far.
    pub fn get_index(&self) -> (n: usize)
        ensures
            n == self@.cursor,
    {
        self.index
    }

    /// Puts a state on the return stack.
    pub fn push_state(&mut self, state: State)
        ensures
            final(self)@ == (MachineView {
                return_stack: old(self)@.return_stack.push(state),
                ..old(self)@
            }),
    {
        self.state_stack.push(state);
    }

    /// Takes the last state off the return stack; `None` where it is empty.
    pub fn pop_state(&mut self) -> (s: Option<State>)
        ensures
            old(self)@.return_stack.len() == 0 ==> s is None && final(self)@ == old(self)@,
            old(self)@.return_stack.len() > 0 ==> s == Some(old(self)@.return_stack.last())
                && final(self)@ == (MachineView {
                return_stack: old(self)@.return_stack.drop_last(),
                ..old(self)@
            }),
    {
        self.state_stack.pop()
    }

    /// Emits a record for the attribute list that is being read.
    pub fn emit(&mut self, key: String, value: String)
        ensures
            final(self)@ == (MachineView {
                records: old(self)@.records.push((old(self)@.key_mode, key@, value@)),
                ..old(self)@
            }),
    {
        self.writer.push(key, value, self.key_mode);
    }

    /// Sets the length of the signature. It is read when the attribute offset
    /// is fixed and when the signature is gathered.
    pub fn set_signature_len(&mut self, len: usize)
        ensures
            final(self)@ == (MachineView { signature_len: len as nat, ..old(self)@ }),
    {
        self.signature_len = len;
    }

    /// The attribute list that is being read.
    pub fn get_keymode(&self) -> (m: KeyMode)
        ensures
            m == self@.key_mode,
    {
        self.key_mode
    }

    /// Sets the attribute list that is being read.
    pub fn set_keymode(&mut self, keymode: KeyMode)
        ensures
            final(self)@ == (MachineView { key_mode: keymode, ..old(self)@ }),
    {
        self.key_mode = keymode;
    }
}

} // verus!
