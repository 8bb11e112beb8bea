use vstd::prelude::*;
use vstd::pervasive::VecAdditionalExecFns;

use crate::wire::subslice_vec;

verus! {

// The display state: the single owner of the braille matrix and the
// cursor.  Commands arrive one at a time; every mutating command yields
// exactly one snapshot, the matrix with the cursor overlay applied on
// top, and `GetDimensions` yields none.

/// Dots seven and eight, set on the cursor cell of every snapshot.
pub const CURSOR_DOTS: u8 = 0xc0;

/// A command into the display state.
#[derive(Clone, Debug, PartialEq, Eq)]
pub enum Command {
    GetDimensions,
    SetCursor { position: Option<u16> },
    SetBrailleMatrixSection { start: u16, length: u16, braille: Vec<u8> },
}

/// Mathematical model of `Command`.
pub enum CommandView {
    GetDimensions,
    SetCursor { position: Option<u16> },
    SetBrailleMatrixSection { start: u16, length: u16, braille: Seq<u8> },
}

impl View for Command {
    type V = CommandView;

    open spec fn view(&self) -> CommandView {
        match self {
            Command::GetDimensions => CommandView::GetDimensions,
            Command::SetCursor { position } => CommandView::SetCursor { position: *position },
            Command::SetBrailleMatrixSection { start, length, braille } => {
                CommandView::SetBrailleMatrixSection {
                    start: *start,
                    length: *length,
                    braille: braille@,
                }
            },
        }
    }
}

/// The authoritative display state: dimensions fixed at creation, the
/// stored matrix (never carrying the cursor overlay), and the cursor.
pub struct DisplayState {
    pub columns: u8,
    pub lines: u8,
    pub cursor_position: Option<u16>,
    pub braille_matrix: Vec<u8>,
}

/// Mathematical model of `DisplayState`.
pub struct DisplayStateView {
    pub columns: u8,
    pub lines: u8,
    pub cursor_position: Option<u16>,
    pub braille_matrix: Seq<u8>,
}

impl View for DisplayState {
    type V = DisplayStateView;

    open spec fn view(&self) -> DisplayStateView {
        DisplayStateView {
            columns: self.columns,
            lines: self.lines,
            cursor_position: self.cursor_position,
            braille_matrix: self.braille_matrix@,
        }
    }
}

impl DisplayStateView {
    /// Number of cells of the display.
    pub open spec fn cell_count(self) -> int {
        self.columns as int * self.lines as int
    }

    /// The matrix always holds one cell per display position, and a set
    /// cursor points at one of them.
    pub open spec fn wf(self) -> bool {
        &&& self.braille_matrix.len() == self.cell_count()
        &&& (self.cursor_position is Some ==> (self.cursor_position->0 as int) < self.cell_count())
    }

    /// The snapshot published to the backend: the matrix, with the cursor
    /// cell showing dots seven and eight when a cursor is set.
    pub open spec fn spec_snapshot(self) -> Seq<u8> {
        match self.cursor_position {
            Option::Some(p) => self.braille_matrix.update(
                p as int,
                self.braille_matrix[p as int] | CURSOR_DOTS,
            ),
            Option::None => self.braille_matrix,
        }
    }
}

impl CommandView {
    /// The conditions under which the display accepts a command: a set
    /// cursor within the display, and a section that lies within the
    /// matrix and comes with exactly as many cells as it claims.
    pub open spec fn valid_for(self, s: DisplayStateView) -> bool {
        match self {
            CommandView::GetDimensions => true,
            CommandView::SetCursor { position } => position is Some ==> (position->0 as int)
                < s.cell_count(),
            CommandView::SetBrailleMatrixSection { start, length, braille } => {
                &&& start as int + length as int <= s.cell_count()
                &&& braille.len() == length as int
            },
        }
    }

    /// A command that changes state and publishes a snapshot.
    pub open spec fn is_mutating(self) -> bool {
        !(self is GetDimensions)
    }
}

/// A byte sequence with `cells` written over the range starting at
/// `start`; everything outside the range is unchanged.
pub open spec fn overwrite(m: Seq<u8>, start: int, cells: Seq<u8>) -> Seq<u8> {
    Seq::new(
        m.len(),
        |i: int|
            if start <= i < start + cells.len() {
                cells[i - start]
            } else {
                m[i]
            },
    )
}

/// The state after a command, and the snapshot it publishes: one for
/// every mutating command, none for `GetDimensions`.
pub open spec fn spec_apply(s: DisplayStateView, c: CommandView) -> (
    DisplayStateView,
    Option<Seq<u8>>,
) {
    match c {
        CommandView::GetDimensions => (s, None),
        CommandView::SetCursor { position } => {
            let s2 = DisplayStateView { cursor_position: position, ..s };
            (s2, Some(s2.spec_snapshot()))
        },
        CommandView::SetBrailleMatrixSection { start, length, braille } => {
            let s2 = DisplayStateView {
                braille_matrix: overwrite(s.braille_matrix, start as int, braille),
                ..s
            };
            (s2, Some(s2.spec_snapshot()))
        },
    }
}

impl DisplayState {
    /// A fresh display: an all-zero matrix and no cursor, together with
    /// the initial snapshot published on creation.
    pub fn new(columns: u8, lines: u8) -> (r: (DisplayState, Vec<u8>))
        ensures
            r.0@.wf(),
            r.0@.columns == columns,
            r.0@.lines == lines,
            r.0@.cursor_position is None,
            r.0@.braille_matrix == Seq::new((columns as nat) * (lines as nat), |i: int| 0u8),
            r.1@ == r.0@.spec_snapshot(),
    {
        proof {
            assert((columns as int) * (lines as int) <= 255 * 255) by (nonlinear_arith)
                requires
                    columns <= 255,
                    lines <= 255,
            ;
        }
        let count = (columns as usize) * (lines as usize);
        let mut matrix: Vec<u8> = Vec::new();
        let mut i: usize = 0;
        while i < count
            invariant
                i <= count,
                matrix@.len() == i,
                forall|k: int| 0 <= k < i ==> matrix@[k] == 0u8,
            decreases count - i,
        {
            matrix.push(0);
            i = i + 1;
        }
        proof {
            assert(matrix@ =~= Seq::new((columns as nat) * (lines as nat), |k: int| 0u8));
        }
        let snapshot = subslice_vec(matrix.as_slice(), 0, matrix.len());
        let state = DisplayState { columns, lines, cursor_position: None, braille_matrix: matrix };
        proof {
            assert(snapshot@ =~= state@.spec_snapshot());
        }
        (state, snapshot)
    }

    /// The published view of the current state: a copy of the matrix with
    /// the cursor overlay, never a handle into the state itself.
    pub fn snapshot(&self) -> (r: Vec<u8>)
        requires
            self@.wf(),
        ensures
            r@ == self@.spec_snapshot(),
            r@.len() == self@.cell_count(),
    {
        let mut copy = subslice_vec(self.braille_matrix.as_slice(), 0, self.braille_matrix.len());
        if let Some(p) = self.cursor_position {
            let cell = copy[p as usize];
            copy.set(p as usize, cell | CURSOR_DOTS);
        }
        proof {
            assert(copy@ =~= self@.spec_snapshot());
        }
        copy
    }

    /// Runs one command: updates the state as the model says and hands
    /// back the snapshot to publish (exactly one for every mutating
    /// command) and the dimensions when asked for them.
    pub fn apply(&mut self, cmd: &Command) -> (r: (Option<Vec<u8>>, Option<(u8, u8)>))
        requires
            old(self)@.wf(),
            cmd@.valid_for(old(self)@),
        ensures
            final(self)@.wf(),
            final(self)@ == spec_apply(old(self)@, cmd@).0,
            match r.0 {
                Option::Some(b) => spec_apply(old(self)@, cmd@).1 == Some(b@),
                Option::None => spec_apply(old(self)@, cmd@).1 is None,
            },
            r.0 is Some <==> cmd@.is_mutating(),
            r.1 is Some <==> cmd@ is GetDimensions,
            r.1 is Some ==> r.1->0 == (old(self)@.columns, old(self)@.lines),
            final(self)@.columns == old(self)@.columns && final(self)@.lines == old(self)@.lines,
    {
        match cmd {
            Command::GetDimensions => (None, Some((self.columns, self.lines))),
            Command::SetCursor { position } => {
                self.cursor_position = *position;
                let snap = self.snapshot();
                (Some(snap), None)
            },
            Command::SetBrailleMatrixSection { start, length, braille } => {
                let start = *start as usize;
                let length = *length as usize;
                let total = self.braille_matrix.len();
                proof {
                    assert(self.braille_matrix@.len() == total);
                }
                let mut i: usize = 0;
                while i < length
                    invariant
                        i <= length,
                        start + length <= self.braille_matrix@.len(),
                        self.braille_matrix@.len() <= usize::MAX,
                        braille@.len() == length,
                        self.braille_matrix@.len() == old(self).braille_matrix@.len(),
                        self.columns == old(self).columns,
                        self.lines == old(self).lines,
                        self.cursor_position == old(self).cursor_position,
                        forall|k: int|
                            start <= k < start + i ==> self.braille_matrix@[k] == braille@[k
                                - start],
                        forall|k: int|
                            0 <= k < self.braille_matrix@.len() && !(start <= k < start + i)
                                ==> self.braille_matrix@[k] == old(self).braille_matrix@[k],
                    decreases length - i,
                {
                    self.braille_matrix.set(start + i, braille[i]);
                    i = i + 1;
                }
                proof {
                    assert(self.braille_matrix@ =~= overwrite(
                        old(self).braille_matrix@,
                        start as int,
                        braille@,
                    ));
                }
                let snap = self.snapshot();
                (Some(snap), None)
            },
        }
    }
}

/// The snapshots a run of commands publishes, in arrival order.
pub open spec fn spec_run(s: DisplayStateView, cmds: Seq<CommandView>) -> Seq<Seq<u8>>
    decreases cmds.len(),
{
    if cmds.len() == 0 {
        Seq::empty()
    } else {
        let step = spec_apply(s, cmds[0]);
        let rest = spec_run(step.0, cmds.drop_first());
        match step.1 {
            Option::Some(b) => seq![b] + rest,
            Option::None => rest,
        }
    }
}

/// Number of mutating commands in a sequence.
pub open spec fn count_mutating(cmds: Seq<CommandView>) -> int
    decreases cmds.len(),
{
    if cmds.len() == 0 {
        0
    } else {
        (if cmds[0].is_mutating() {
            1int
        } else {
            0int
        }) + count_mutating(cmds.drop_first())
    }
}

/// Snapshots are published strictly once per mutating command, in
/// command arrival order: a run of commands publishes exactly as many
/// snapshots as it has mutating commands.
pub proof fn lemma_one_snapshot_per_mutating_command(s: DisplayStateView, cmds: Seq<CommandView>)
    ensures
        spec_run(s, cmds).len() == count_mutating(cmds),
    decreases cmds.len(),
{
    if cmds.len() == 0 {
    } else {
        let step = spec_apply(s, cmds[0]);
        lemma_one_snapshot_per_mutating_command(step.0, cmds.drop_first());
    }
}

/// Every snapshot published by a run over a well-formed display has
/// exactly `columns * lines` bytes.
pub proof fn lemma_snapshot_sizes(s: DisplayStateView, cmds: Seq<CommandView>)
    requires
        s.wf(),
        forall|j: int| 0 <= j < cmds.len() ==> (#[trigger] cmds[j]).valid_for(s),
    ensures
        forall|j: int|
            0 <= j < spec_run(s, cmds).len() ==> (#[trigger] spec_run(s, cmds)[j]).len()
                == s.cell_count(),
    decreases cmds.len(),
{
    if cmds.len() == 0 {
    } else {
        let step = spec_apply(s, cmds[0]);
        assert(cmds[0].valid_for(s));
        lemma_apply_preserves_wf(s, cmds[0]);
        assert(step.0.cell_count() == s.cell_count());
        assert forall|j: int|
            0 <= j < cmds.drop_first().len() implies (#[trigger] cmds.drop_first()[j]).valid_for(
            step.0,
        ) by {
            assert(cmds.drop_first()[j] == cmds[j + 1]);
            assert(cmds[j + 1].valid_for(s));
        }
        lemma_snapshot_sizes(step.0, cmds.drop_first());
        let r = spec_run(s, cmds);
        let rest = spec_run(step.0, cmds.drop_first());
        match step.1 {
            Option::Some(b) => {
                assert(b.len() == s.cell_count());
                assert forall|j: int| 0 <= j < r.len() implies (#[trigger] r[j]).len()
                    == s.cell_count() by {
                    if j == 0 {
                        assert(r[j] == b);
                    } else {
                        assert(r[j] == rest[j - 1]);
                    }
                }
            },
            Option::None => {
                assert(r == rest);
            },
        }
    }
}

/// Applying any command to a well-formed display keeps it well formed
/// and keeps its dimensions.
pub proof fn lemma_apply_preserves_wf(s: DisplayStateView, c: CommandView)
    requires
        s.wf(),
        c.valid_for(s),
    ensures
        spec_apply(s, c).0.wf(),
        spec_apply(s, c).0.columns == s.columns,
        spec_apply(s, c).0.lines == s.lines,
        spec_apply(s, c).1 is Some ==> spec_apply(s, c).1->0.len() == s.cell_count(),
{
}

/// After `SetCursor(Some(p))`, the published snapshot is the stored
/// matrix with dots seven and eight set on cell `p`, and the stored
/// matrix itself is unchanged.
pub proof fn lemma_set_cursor_overlay(s: DisplayStateView, p: u16)
    requires
        s.wf(),
        (p as int) < s.cell_count(),
    ensures
        ({
            let step = spec_apply(s, CommandView::SetCursor { position: Some(p) });
            &&& step.0.braille_matrix == s.braille_matrix
            &&& step.1 == Some(
                s.braille_matrix.update(p as int, s.braille_matrix[p as int] | CURSOR_DOTS),
            )
        }),
{
}

} // verus!
