//! The handlers that consume the fields of the blob, and the grid that holds
//! one handler for each pair of a state and a proposed state.

use crate::machine::{Machine, MachineView};
use crate::state::{State, STATE_VARIANTS};
use vstd::prelude::*;

verus! {

/// A handler, named after the state whose bytes it consumes.
#[derive(Copy, Clone, Debug, PartialEq, Eq, Structural)]
pub enum Handler {
    Skip8,
    TotalSize4,
    BufSize4,
    SkipToOffset,
    SkipU16_2,
    OffsetPubkey16,
    OffsetPrivkey16,
    Skip4,
    AttrLen,
    SkipAttr4,
    TlvType,
    TlvLen,
    TlvValue,
    SecondaryKey,
    Signature,
}

/// A cell of the handler grid.
#[derive(Copy, Clone, Debug, PartialEq, Eq, Structural)]
pub enum Func {
    /// No handler: the byte is passed over and the state kept.
    Unit,
    /// A handler.
    Fun(Handler),
}

/// The handler grid: one row for each state, one cell for each proposed state.
pub type FuncResult = Vec<Vec<Func>>;

/// What can be run on the byte in hand.
pub trait Callable {
    /// What a call does to the machine, and the state that it asks for;
    /// `None` asks to keep the state.
    spec fn effect(&self, m: MachineView) -> (MachineView, Option<State>);

    /// Runs on the byte in hand.
    fn apply(&self, ctx: &mut Machine) -> (next: Option<State>)
        requires
            old(ctx)@.within_limits(),
        ensures
            (final(ctx)@, next) == self.effect(old(ctx)@),
    ;
}

impl Callable for () {
    open spec fn effect(&self, m: MachineView) -> (MachineView, Option<State>) {
        (m, None)
    }

    fn apply(&self, _ctx: &mut Machine) -> (next: Option<State>) {
        None
    }
}

impl Callable for Func {
    open spec fn effect(&self, m: MachineView) -> (MachineView, Option<State>) {
        match self {
            Func::Unit => (m, None),
            Func::Fun(h) => h.effect(m),
        }
    }

    fn apply(&self, ctx: &mut Machine) -> (next: Option<State>) {
        match self {
            Func::Unit => None,
            Func::Fun(h) => h.apply(ctx),
        }
    }
}

/// The handler grid as a sequence of rows.
pub open spec fn grid_view(table: Seq<Vec<Func>>) -> Seq<Seq<Func>> {
    Seq::new(table.len(), |i: int| table[i]@)
}

/// A grid of `STATE_VARIANTS` rows of `STATE_VARIANTS` cells.
pub open spec fn is_square(handlers: Seq<Seq<Func>>) -> bool {
    &&& handlers.len() == STATE_VARIANTS
    &&& forall|i: int| 0 <= i < STATE_VARIANTS ==> (#[trigger] handlers[i]).len() == STATE_VARIANTS
}

/// The grid `handlers` after `func` is registered from each state of `from`
/// to the proposed state `to`.
pub open spec fn mapped(handlers: Seq<Seq<Func>>, from: Seq<State>, to: State, func: Func) -> Seq<
    Seq<Func>,
> {
    Seq::new(
        STATE_VARIANTS as nat,
        |i: int|
            Seq::new(
                STATE_VARIANTS as nat,
                |j: int|
                    if j == to.ordinal() && from.contains(State::at(i as nat)) {
                        func
                    } else {
                        handlers[i][j]
                    },
            ),
    )
}

/// The grid `handlers` with `func` in the cell of row `i` and column `j`.
pub open spec fn with_cell(handlers: Seq<Seq<Func>>, i: int, j: int, func: Func) -> Seq<Seq<Func>> {
    Seq::new(
        STATE_VARIANTS as nat,
        |a: int|
            Seq::new(
                STATE_VARIANTS as nat,
                |b: int|
                    if a == i && b == j {
                        func
                    } else {
                        handlers[a][b]
                    },
            ),
    )
}

/// Registering from one state fills one cell.
pub proof fn lemma_mapped_one(handlers: Seq<Seq<Func>>, from: State, to: State, func: Func)
    ensures
        mapped(handlers, seq![from], to, func) == with_cell(
            handlers,
            from.ordinal() as int,
            to.ordinal() as int,
            func,
        ),
{
    let one = mapped(handlers, seq![from], to, func);
    let cell = with_cell(handlers, from.ordinal() as int, to.ordinal() as int, func);
    assert forall|a: int, b: int|
        0 <= a < STATE_VARIANTS && 0 <= b < STATE_VARIANTS implies #[trigger] one[a][b]
        == cell[a][b] by {
        crate::state::lemma_ordinal_roundtrip(from);
        if a == from.ordinal() {
            assert(seq![from][0] == State::at(a as nat));
        }
    }
    assert(one =~~= cell);
}

/// Registering from two states fills two cells.
pub proof fn lemma_mapped_two(
    handlers: Seq<Seq<Func>>,
    first: State,
    second: State,
    to: State,
    func: Func,
)
    ensures
        mapped(handlers, seq![first, second], to, func) == with_cell(
            with_cell(handlers, first.ordinal() as int, to.ordinal() as int, func),
            second.ordinal() as int,
            to.ordinal() as int,
            func,
        ),
{
    let two = mapped(handlers, seq![first, second], to, func);
    let cells = with_cell(
        with_cell(handlers, first.ordinal() as int, to.ordinal() as int, func),
        second.ordinal() as int,
        to.ordinal() as int,
        func,
    );
    assert forall|a: int, b: int|
        0 <= a < STATE_VARIANTS && 0 <= b < STATE_VARIANTS implies #[trigger] two[a][b]
        == cells[a][b] by {
        crate::state::lemma_ordinal_roundtrip(first);
        crate::state::lemma_ordinal_roundtrip(second);
        if a == first.ordinal() {
            assert(seq![first, second][0] == State::at(a as nat));
        }
        if a == second.ordinal() {
            assert(seq![first, second][1] == State::at(a as nat));
        }
    }
    assert(two =~~= cells);
}

/// The grid in which no cell holds a handler.
pub open spec fn unit_grid() -> Seq<Seq<Func>> {
    Seq::new(STATE_VARIANTS as nat, |i: int| Seq::new(STATE_VARIANTS as nat, |j: int| Func::Unit))
}

/// A grid without handlers.
pub fn build_unboxed_handlers() -> (table: Vec<Vec<Func>>)
    ensures
        grid_view(table@) == unit_grid(),
{
    let mut table: Vec<Vec<Func>> = Vec::new();
    let mut i: usize = 0;
    while i < STATE_VARIANTS
        invariant
            i <= STATE_VARIANTS,
            table.len() == i,
            forall|k: int|
                0 <= k < i ==> (#[trigger] table[k])@ == Seq::new(
                    STATE_VARIANTS as nat,
                    |j: int| Func::Unit,
                ),
        decreases STATE_VARIANTS - i,
    {
        let mut row: Vec<Func> = Vec::new();
        let mut j: usize = 0;
        while j < STATE_VARIANTS
            invariant
                j <= STATE_VARIANTS,
                row.len() == j,
                forall|k: int| 0 <= k < j ==> #[trigger] row[k] == Func::Unit,
            decreases STATE_VARIANTS - j,
        {
            row.push(Func::Unit);
            j += 1;
        }
        assert(row@ =~= Seq::new(STATE_VARIANTS as nat, |j: int| Func::Unit));
        table.push(row);
        i += 1;
    }
    assert(grid_view(table@) =~= unit_grid());
    table
}

/// The states that a handler is registered for, and the proposed state under
/// which it is registered.
pub struct FuncMap(pub Vec<State>, pub State);

/// What can name the cells of the grid that lead to a proposed state.
pub trait FuncState {
    /// The states that `self` names.
    spec fn sources(&self) -> Seq<State>;

    /// The cells from each state that `self` names to the proposed state `s`.
    fn to(&self, s: State) -> (m: FuncMap)
        ensures
            m.0@ == self.sources(),
            m.1 == s,
    ;
}

impl FuncState for State {
    open spec fn sources(&self) -> Seq<State> {
        seq![*self]
    }

    fn to(&self, s: State) -> (m: FuncMap) {
        let mut from: Vec<State> = Vec::new();
        from.push(*self);
        assert(from@ =~= seq![*self]);
        FuncMap(from, s)
    }
}

impl FuncState for Vec<State> {
    open spec fn sources(&self) -> Seq<State> {
        self@
    }

    fn to(&self, s: State) -> (m: FuncMap) {
        FuncMap(self.clone(), s)
    }
}

impl State {
    /// Every state, in the order of the alphabet.
    pub fn any() -> (all: Vec<State>)
        ensures
            all@ == Seq::new(STATE_VARIANTS as nat, |i: int| State::at(i as nat)),
    {
        let mut all: Vec<State> = Vec::new();
        let mut i: u8 = 0;
        while i < 17
            invariant
                i <= 17,
                all.len() == i,
                forall|k: int| 0 <= k < i ==> #[trigger] all[k] == State::at(k as nat),
            decreases 17 - i,
        {
            all.push(State::from_primitive(i));
            i += 1;
        }
        assert(all@ =~= Seq::new(STATE_VARIANTS as nat, |i: int| State::at(i as nat)));
        all
    }
}

} // verus!
