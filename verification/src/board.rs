//! Board model: an 8x8 grid of cells, each holding an optional colored piece,
//! with bounds-checked read/remove/place primitives. No rule knowledge lives
//! here; see the sibling module with the per-piece validators.

use vstd::prelude::*;

use crate::rules;
use crate::rules::{SideEffect, ValidationResult};

verus! {

/// Tri-state history flag carried by a pawn: `Before` it has ever moved,
/// `RightNow` right after a two-square advance (vulnerable to en-passant),
/// `After` any other completed move.
#[derive(Clone, Copy, Debug, PartialEq, Eq, Hash, Structural)]
pub enum LongStart {
    Before,
    RightNow,
    After,
}

/// A piece kind. The pawn carries its double-step history, the king carries
/// a "has castled or moved" flag that gates castling eligibility.
#[derive(Clone, Copy, Debug, PartialEq, Eq, Hash, Structural)]
pub enum ChessPiece {
    Pawn(LongStart),
    Bishop,
    Knight,
    Rook,
    Queen,
    King(bool),
}

/// One square of the board: a piece owned by exactly one side, or `Empty`.
/// `Empty` is an explicit value, not absence.
#[derive(Clone, Copy, Debug, PartialEq, Eq, Hash, Structural)]
pub enum ChessBoardCell {
    White(ChessPiece),
    Black(ChessPiece),
    Empty,
}

impl ChessBoardCell {
    /// Extracts the piece from the cell: `Some` if the cell held a piece of
    /// either color, `None` for an empty cell.
    pub fn take_piece(self) -> (r: Option<ChessPiece>)
        ensures
            r == (match self {
                ChessBoardCell::White(piece) => Some(piece),
                ChessBoardCell::Black(piece) => Some(piece),
                ChessBoardCell::Empty => None::<ChessPiece>,
            }),
    {
        match self {
            Self::White(piece) => Some(piece),
            Self::Black(piece) => Some(piece),
            _ => None,
        }
    }
}

/// Board row and column. Row 0 is Black's back rank, row 7 White's.
#[derive(Copy, Clone, Debug, Default, PartialEq, Eq, Hash, Structural)]
pub struct BoardPos {
    pub row: usize,
    pub col: usize,
}

/// Whether a position addresses one of the 64 squares.
pub open spec fn pos_in_bounds(p: BoardPos) -> bool {
    p.row < 8 && p.col < 8
}

/// Index of an in-bounds position in the row-major cell array.
pub open spec fn idx_of(p: BoardPos) -> int {
    p.row as int * 8 + p.col as int
}

/// The cell of `b` at `(row, col)`, or `None` when the coordinates fall
/// outside the 8x8 grid.
pub open spec fn cell_at(b: Seq<ChessBoardCell>, row: int, col: int) -> Option<ChessBoardCell> {
    if 0 <= row < 8 && 0 <= col < 8 {
        Some(b[row * 8 + col])
    } else {
        None
    }
}

impl BoardPos {
    fn to_index(self) -> (r: usize)
        requires
            pos_in_bounds(self),
        ensures
            r == idx_of(self),
            r < 64,
    {
        (self.row * 8) + self.col
    }
}

/// A proposed move: origin, destination, and the signed row/column deltas
/// (destination minus origin), computed once at construction and pattern
/// matched by every rule function.
#[derive(Copy, Clone, Debug, Default, PartialEq, Eq, Structural)]
pub struct BoardMove {
    pub from: BoardPos,
    pub to: BoardPos,
    pub rows: isize,
    pub columns: isize,
}

impl BoardMove {
    /// The deltas agree with the endpoints, as `new` guarantees.
    pub open spec fn deltas_consistent(self) -> bool {
        self.rows == self.to.row as int - self.from.row as int
            && self.columns == self.to.col as int - self.from.col as int
    }

    pub fn new(from: BoardPos, to: BoardPos) -> (r: BoardMove)
        requires
            from.row <= isize::MAX,
            from.col <= isize::MAX,
            to.row <= isize::MAX,
            to.col <= isize::MAX,
        ensures
            r.from == from,
            r.to == to,
            r.deltas_consistent(),
    {
        let rows = to.row as isize - from.row as isize;
        let columns = to.col as isize - from.col as isize;

        BoardMove { from, to, rows, columns }
    }
}

/// Step-by-step builder for a `BoardMove`; the deltas are derived at `build`.
#[derive(Debug, Copy, Clone, Default)]
pub struct MoveBuilder {
    pub from: BoardPos,
    pub to: BoardPos,
    pub rows: isize,
    pub columns: isize,
}

impl MoveBuilder {
    pub fn new() -> (r: MoveBuilder)
        ensures
            r.from == (BoardPos { row: 0, col: 0 }),
            r.to == (BoardPos { row: 0, col: 0 }),
            r.rows == 0,
            r.columns == 0,
    {
        MoveBuilder { from: BoardPos { row: 0, col: 0 }, to: BoardPos { row: 0, col: 0 }, rows: 0, columns: 0 }
    }

    pub fn from(self, pos: BoardPos) -> (r: MoveBuilder)
        ensures
            r == (MoveBuilder { from: pos, ..self }),
    {
        MoveBuilder { from: pos, ..self }
    }

    pub fn to(self, pos: BoardPos) -> (r: MoveBuilder)
        ensures
            r == (MoveBuilder { to: pos, ..self }),
    {
        MoveBuilder { to: pos, ..self }
    }

    /// Sets the row delta and re-derives the destination row from the origin.
    pub fn rows(self, r: isize) -> (out: MoveBuilder)
        requires
            0 <= self.from.row + r <= usize::MAX,
        ensures
            out.rows == r,
            out.columns == self.columns,
            out.from == self.from,
            out.to == (BoardPos { row: (self.from.row + r) as usize, col: self.to.col }),
    {
        let row = if r >= 0 {
            self.from.row + (r as usize)
        } else {
            self.from.row - ((-(r + 1)) as usize + 1)
        };
        MoveBuilder { rows: r, to: BoardPos { col: self.to.col, row }, ..self }
    }

    /// Sets the column delta and re-derives the destination column.
    pub fn columns(self, c: isize) -> (out: MoveBuilder)
        requires
            0 <= self.from.col + c <= usize::MAX,
        ensures
            out.columns == c,
            out.rows == self.rows,
            out.from == self.from,
            out.to == (BoardPos { row: self.to.row, col: (self.from.col + c) as usize }),
    {
        let col = if c >= 0 {
            self.from.col + (c as usize)
        } else {
            self.from.col - ((-(c + 1)) as usize + 1)
        };
        MoveBuilder { columns: c, to: BoardPos { col, row: self.to.row }, ..self }
    }

    pub fn build(self) -> (r: BoardMove)
        requires
            self.from.row <= isize::MAX,
            self.from.col <= isize::MAX,
            self.to.row <= isize::MAX,
            self.to.col <= isize::MAX,
        ensures
            r.from == self.from,
            r.to == self.to,
            r.deltas_consistent(),
    {
        BoardMove::new(self.from, self.to)
    }
}

/// The 64-cell board, addressed row-major by `row * 8 + col`.
#[derive(Debug)]
pub struct ChessBoard {
    cells: Vec<ChessBoardCell>,
}

impl Clone for ChessBoard {
    /// A clone is cell-for-cell identical; the client's scratch board
    /// depends on this.
    fn clone(&self) -> (r: Self)
        ensures
            r@ == self@,
    {
        let mut cells: Vec<ChessBoardCell> = Vec::new();
        let mut i: usize = 0;
        while i < self.cells.len()
            invariant
                i <= self.cells@.len(),
                cells@ == self.cells@.take(i as int),
            decreases self.cells@.len() - i,
        {
            cells.push(self.cells[i]);
            i += 1;
        }
        proof {
            assert(cells@ =~= self.cells@);
        }
        ChessBoard { cells }
    }
}

impl View for ChessBoard {
    type V = Seq<ChessBoardCell>;

    closed spec fn view(&self) -> Seq<ChessBoardCell> {
        self.cells@
    }
}

impl ChessBoard {
    /// The board always holds exactly 64 cells.
    pub open spec fn wf(&self) -> bool {
        self@.len() == 64
    }

    /// The cell at `pos`, or `None` when `pos` is out of bounds.
    pub fn at(&self, pos: BoardPos) -> (r: Option<ChessBoardCell>)
        requires
            self.wf(),
        ensures
            r == cell_at(self@, pos.row as int, pos.col as int),
    {
        if pos.row >= 8 || pos.col >= 8 {
            None
        } else {
            Some(self.cells[pos.to_index()])
        }
    }

    /// Removes and returns the cell at `pos`, leaving `Empty` behind;
    /// `None` (and no change) when `pos` is out of bounds.
    pub fn take_from(&mut self, pos: BoardPos) -> (r: Option<ChessBoardCell>)
        requires
            old(self).wf(),
        ensures
            final(self).wf(),
            pos_in_bounds(pos) ==> r == Some(old(self)@[idx_of(pos)])
                && final(self)@ == old(self)@.update(idx_of(pos), ChessBoardCell::Empty),
            !pos_in_bounds(pos) ==> r is None && final(self)@ == old(self)@,
    {
        let (row, col) = (pos.row, pos.col);
        if row >= 8 || col >= 8 {
            None
        } else {
            let index = pos.to_index();
            let cell = self.cells[index];
            self.cells[index] = ChessBoardCell::Empty;

            Some(cell)
        }
    }

    /// Places `cell` at `pos`; an error (and no change) when `pos` is out of
    /// bounds.
    pub fn place_at(&mut self, pos: BoardPos, cell: ChessBoardCell) -> (r: Result<(), BoardError>)
        requires
            old(self).wf(),
        ensures
            final(self).wf(),
            pos_in_bounds(pos) ==> r is Ok && final(self)@ == old(self)@.update(idx_of(pos), cell),
            !pos_in_bounds(pos) ==> r == Err::<(), BoardError>(BoardError::OutOfBounds)
                && final(self)@ == old(self)@,
    {
        let (row, col) = (pos.row, pos.col);
        if row >= 8 || col >= 8 {
            Err(BoardError::OutOfBounds)
        } else {
            let index = pos.to_index();
            self.cells[index] = cell;
            Ok(())
        }
    }

    /// Validates a proposed move without touching the board; see
    /// `validate_spec` for the precise rule. On acceptance the collected
    /// effect list is returned; it is never empty, since it always holds at
    /// least the mover's own relocation.
    pub fn validate_move(&self, m: BoardMove) -> (r: ValidationResult)
        requires
            self.wf(),
        ensures
            rules::vres_effects(r) == validate_spec(self@, m),
            r matches ValidationResult::Valid(o) ==> o is Some,
    {
        if m.to == m.from {
            return ValidationResult::NotValid;
        }
        let from_cell = match self.at(m.from) {
            Some(c) => c,
            None => {
                return ValidationResult::NotValid;
            },
        };
        if matches!(from_cell, ChessBoardCell::Empty) {
            return ValidationResult::NotValid;
        }
        let at_cell = match self.at(m.to) {
            Some(c) => c,
            None => {
                return ValidationResult::NotValid;
            },
        };
        // the target square must not hold a piece of the mover's own color
        if !matches!(
            (from_cell, at_cell),
            (_, ChessBoardCell::Empty)
                | (ChessBoardCell::Black(_), ChessBoardCell::White(_))
                | (ChessBoardCell::White(_), ChessBoardCell::Black(_))
        ) {
            return ValidationResult::NotValid;
        }
        let res = match from_cell {
            ChessBoardCell::Black(p) => match p {
                ChessPiece::Pawn(_) => rules::black_pawn(m, self),
                ChessPiece::Bishop => rules::bishop(m, self),
                ChessPiece::Knight => rules::knight(m, self),
                ChessPiece::Rook => rules::rook(m, self),
                ChessPiece::Queen => rules::queen(m, self),
                ChessPiece::King(moved) => if moved {
                    rules::king(m, self)
                } else {
                    rules::black_king_can_castle(m, self)
                },
            },
            ChessBoardCell::White(p) => match p {
                ChessPiece::Pawn(_) => rules::white_pawn(m, self),
                ChessPiece::Bishop => rules::bishop(m, self),
                ChessPiece::Knight => rules::knight(m, self),
                ChessPiece::Rook => rules::rook(m, self),
                ChessPiece::Queen => rules::queen(m, self),
                ChessPiece::King(moved) => if moved {
                    rules::king(m, self)
                } else {
                    rules::white_king_can_castle(m, self)
                },
            },
            ChessBoardCell::Empty => ValidationResult::NotValid,
        };
        proof {
            assert(rules::vres_effects(res) == rules::rule_spec(from_cell, self@, m));
        }
        match res {
            ValidationResult::Valid(se) => {
                let ghost rule_es = rules::rule_spec(from_cell, self@, m)->Some_0;
                let mut s: Vec<SideEffect> = match se {
                    Some(v) => v,
                    None => Vec::new(),
                };
                s.push(SideEffect::Move(m));
                if !matches!(at_cell, ChessBoardCell::Empty) {
                    s.push(SideEffect::Delete(m.to, at_cell));
                    proof {
                        assert(s@ =~= rule_es + seq![SideEffect::Move(m)] + seq![
                            SideEffect::Delete(m.to, at_cell),
                        ]);
                    }
                } else {
                    proof {
                        assert(s@ =~= rule_es + seq![SideEffect::Move(m)]
                            + Seq::<SideEffect>::empty());
                    }
                }
                ValidationResult::Valid(Some(s))
            },
            ValidationResult::NotValid => ValidationResult::NotValid,
        }
    }

    /// Runs `validate_move`; on rejection the board is untouched and `None`
    /// is returned. On acceptance the effects are applied in reverse push
    /// order — so the displaced piece is removed first, the mover relocated
    /// next, and rule-specific cell updates land last — and the result
    /// reports everything that happened.
    pub fn move_piece(&mut self, m: BoardMove) -> (r: Option<BoardMoveResult>)
        requires
            old(self).wf(),
        ensures
            final(self).wf(),
            validate_spec(old(self)@, m) is None ==> r is None && final(self)@ == old(self)@,
            validate_spec(old(self)@, m) matches Some(effs) ==> r matches Some(res)
                && final(self)@ == run_effects(old(self)@, effs).0 && res.pieces_deleted@
                == run_effects(old(self)@, effs).1 && res.pieces_moved@ == run_effects(
                old(self)@,
                effs,
            ).2 && res.pieces_set@ == run_effects(old(self)@, effs).3,
    {
        let ghost b0 = self@;
        let vr = self.validate_move(m);
        let effs: Vec<SideEffect> = match vr {
            ValidationResult::Valid(Some(v)) => v,
            _ => {
                return None;
            },
        };
        proof {
            lemma_validate_effects_wf(b0, m);
        }
        let ghost es = effs@;
        let mut deleted: Vec<ChessBoardCell> = Vec::new();
        let mut moved: Vec<(ChessBoardCell, BoardMove)> = Vec::new();
        let mut set_list: Vec<(ChessBoardCell, BoardPos)> = Vec::new();
        let mut i: usize = effs.len();
        proof {
            assert(es.take(i as int) =~= es);
        }
        while i > 0
            invariant
                self.wf(),
                i <= es.len(),
                effs@ == es,
                effects_wf(es),
                run_effects(b0, es).0 == run_effects(self@, es.take(i as int)).0,
                run_effects(b0, es).1 == deleted@ + run_effects(self@, es.take(i as int)).1,
                run_effects(b0, es).2 == moved@ + run_effects(self@, es.take(i as int)).2,
                run_effects(b0, es).3 == set_list@ + run_effects(self@, es.take(i as int)).3,
            decreases i,
        {
            i -= 1;
            let ghost prev = self@;
            let ghost suffix = es.take(i as int + 1);
            let e = effs[i];
            proof {
                assert(effect_wf(es[i as int]));
                assert(suffix.last() == e);
                assert(suffix.drop_last() =~= es.take(i as int));
            }
            match e {
                SideEffect::Delete(p, c) => {
                    let _ = self.take_from(p);
                    deleted.push(c);
                    proof {
                        let rest = run_effects(self@, es.take(i as int));
                        assert(deleted@ =~= deleted@.drop_last() + delta_deleted(e));
                        assert(deleted@.drop_last() + (delta_deleted(e) + rest.1) =~= deleted@
                            + rest.1);
                        assert(moved@ + (delta_moved(prev, e) + rest.2) =~= moved@ + rest.2);
                        assert(set_list@ + (delta_set(e) + rest.3) =~= set_list@ + rest.3);
                    }
                },
                SideEffect::Move(m2) => {
                    let piece = self.take_from(m2.from).unwrap();
                    self.place_at(m2.to, piece).unwrap();
                    moved.push((piece, m2));
                    proof {
                        let rest = run_effects(self@, es.take(i as int));
                        assert(self@ =~= apply_one(prev, e));
                        assert(moved@ =~= moved@.drop_last() + delta_moved(prev, e));
                        assert(moved@.drop_last() + (delta_moved(prev, e) + rest.2) =~= moved@
                            + rest.2);
                        assert(deleted@ + (delta_deleted(e) + rest.1) =~= deleted@ + rest.1);
                        assert(set_list@ + (delta_set(e) + rest.3) =~= set_list@ + rest.3);
                    }
                },
                SideEffect::SetAt(p, piece) => {
                    self.place_at(p, piece).unwrap();
                    set_list.push((piece, p));
                    proof {
                        let rest = run_effects(self@, es.take(i as int));
                        assert(set_list@ =~= set_list@.drop_last() + delta_set(e));
                        assert(set_list@.drop_last() + (delta_set(e) + rest.3) =~= set_list@
                            + rest.3);
                        assert(deleted@ + (delta_deleted(e) + rest.1) =~= deleted@ + rest.1);
                        assert(moved@ + (delta_moved(prev, e) + rest.2) =~= moved@ + rest.2);
                    }
                },
            }
        }
        proof {
            assert(es.take(0) =~= Seq::<SideEffect>::empty());
            assert(deleted@ + Seq::<ChessBoardCell>::empty() =~= deleted@);
            assert(moved@ + Seq::<(ChessBoardCell, BoardMove)>::empty() =~= moved@);
            assert(set_list@ + Seq::<(ChessBoardCell, BoardPos)>::empty() =~= set_list@);
        }
        Some(BoardMoveResult { pieces_deleted: deleted, pieces_moved: moved, pieces_set: set_list })
    }

    /// An all-empty board.
    pub fn new_empty() -> (r: ChessBoard)
        ensures
            r.wf(),
            forall|i: int| 0 <= i < 64 ==> r@[i] == ChessBoardCell::Empty,
    {
        let mut cells: Vec<ChessBoardCell> = Vec::new();
        let mut i: usize = 0;
        while i < 64
            invariant
                i <= 64,
                cells@.len() == i,
                forall|j: int| 0 <= j < i ==> cells@[j] == ChessBoardCell::Empty,
            decreases 64 - i,
        {
            cells.push(ChessBoardCell::Empty);
            i += 1;
        }
        ChessBoard { cells }
    }

    /// The full starting layout: back ranks on rows 0 (Black) and 7 (White),
    /// pawn ranks on rows 1 and 6, everything between empty.
    pub fn new_full() -> (r: ChessBoard)
        ensures
            r.wf(),
            r@ == initial_board(),
    {
        let mut cells: Vec<ChessBoardCell> = Vec::new();
        let mut i: usize = 0;
        while i < 64
            invariant
                i <= 64,
                cells@.len() == i,
                forall|j: int| 0 <= j < i ==> cells@[j] == init_cell(j),
            decreases 64 - i,
        {
            cells.push(starting_cell(i));
            i += 1;
        }
        proof {
            assert(cells@ =~= initial_board());
        }
        ChessBoard { cells }
    }

    pub fn cells(&self) -> (r: &Vec<ChessBoardCell>)
        ensures
            r@ == self@,
    {
        &self.cells
    }
}

impl Default for ChessBoard {
    fn default() -> (r: Self)
        ensures
            r.wf(),
    {
        Self::new_empty()
    }
}

/// What executing a validated move did: the cells deleted, the (piece, move)
/// pairs relocated and the (piece, position) pairs explicitly set, each in
/// the order the effects were applied. This is the sole channel by which the
/// orchestrator learns what happened, including whether a king was captured.
#[derive(Clone, Debug, Default, PartialEq)]
pub struct BoardMoveResult {
    pub pieces_deleted: Vec<ChessBoardCell>,
    pub pieces_moved: Vec<(ChessBoardCell, BoardMove)>,
    pub pieces_set: Vec<(ChessBoardCell, BoardPos)>,
}

/// The positions an effect touches are on the board.
pub open spec fn effect_wf(e: SideEffect) -> bool {
    match e {
        SideEffect::Delete(p, _) => pos_in_bounds(p),
        SideEffect::Move(m2) => pos_in_bounds(m2.from) && pos_in_bounds(m2.to),
        SideEffect::SetAt(p, _) => pos_in_bounds(p),
    }
}

pub open spec fn effects_wf(s: Seq<SideEffect>) -> bool {
    forall|i: int| 0 <= i < s.len() ==> effect_wf(#[trigger] s[i])
}

/// The cell at `p`, or `Empty` off the board.
pub open spec fn cell_or_empty(b: Seq<ChessBoardCell>, p: BoardPos) -> ChessBoardCell {
    if pos_in_bounds(p) {
        b[idx_of(p)]
    } else {
        ChessBoardCell::Empty
    }
}

/// The board after a single effect: `Delete` empties its square, `Move`
/// relocates the cell found at its origin, `SetAt` overwrites its square.
/// An effect touching an off-board square leaves the board as it is.
pub open spec fn apply_one(b: Seq<ChessBoardCell>, e: SideEffect) -> Seq<ChessBoardCell> {
    match e {
        SideEffect::Delete(p, _) => if pos_in_bounds(p) {
            b.update(idx_of(p), ChessBoardCell::Empty)
        } else {
            b
        },
        SideEffect::Move(m2) => if pos_in_bounds(m2.from) && pos_in_bounds(m2.to) {
            b.update(idx_of(m2.from), ChessBoardCell::Empty).update(
                idx_of(m2.to),
                b[idx_of(m2.from)],
            )
        } else {
            b
        },
        SideEffect::SetAt(p, c) => if pos_in_bounds(p) {
            b.update(idx_of(p), c)
        } else {
            b
        },
    }
}

/// What a `Delete` effect reports: the carried cell.
pub open spec fn delta_deleted(e: SideEffect) -> Seq<ChessBoardCell> {
    match e {
        SideEffect::Delete(_, c) => seq![c],
        _ => Seq::<ChessBoardCell>::empty(),
    }
}

/// What a `Move` effect reports: the relocated cell as found on the board
/// when the effect runs, with the secondary move.
pub open spec fn delta_moved(b: Seq<ChessBoardCell>, e: SideEffect) -> Seq<
    (ChessBoardCell, BoardMove),
> {
    match e {
        SideEffect::Move(m2) => seq![(cell_or_empty(b, m2.from), m2)],
        _ => Seq::<(ChessBoardCell, BoardMove)>::empty(),
    }
}

/// What a `SetAt` effect reports.
pub open spec fn delta_set(e: SideEffect) -> Seq<(ChessBoardCell, BoardPos)> {
    match e {
        SideEffect::SetAt(p, c) => seq![(c, p)],
        _ => Seq::<(ChessBoardCell, BoardPos)>::empty(),
    }
}

/// The outcome of applying a collected effect list in reverse order (last
/// effect first — a deliberate contract, see `ChessBoard::move_piece`):
/// the final board followed by the reported deleted cells, relocations and
/// explicit sets, each in application order.
pub open spec fn run_effects(b: Seq<ChessBoardCell>, s: Seq<SideEffect>) -> (
    Seq<ChessBoardCell>,
    Seq<ChessBoardCell>,
    Seq<(ChessBoardCell, BoardMove)>,
    Seq<(ChessBoardCell, BoardPos)>,
)
    decreases s.len(),
{
    if s.len() == 0 {
        (
            b,
            Seq::<ChessBoardCell>::empty(),
            Seq::<(ChessBoardCell, BoardMove)>::empty(),
            Seq::<(ChessBoardCell, BoardPos)>::empty(),
        )
    } else {
        let e = s.last();
        let rest = run_effects(apply_one(b, e), s.drop_last());
        (rest.0, delta_deleted(e) + rest.1, delta_moved(b, e) + rest.2, delta_set(e) + rest.3)
    }
}

/// The full validation of a proposed move: rejected when origin equals
/// destination, when either square is off the board, when the origin is
/// empty, or when the destination holds a piece of the mover's own color;
/// otherwise the rule of the origin piece decides. On acceptance the effect
/// list is the rule's own effects, then the mover's relocation, then — only
/// when the destination was occupied — the deletion of the displaced piece,
/// in exactly that push order.
pub open spec fn validate_spec(b: Seq<ChessBoardCell>, m: BoardMove) -> Option<Seq<SideEffect>> {
    if m.to == m.from {
        None
    } else {
        match (cell_at(b, m.from.row as int, m.from.col as int), cell_at(b, m.to.row as int, m.to.col as int)) {
            (Some(fc), Some(tc)) => {
                if fc == ChessBoardCell::Empty {
                    None
                } else if !(tc is Empty || (fc is Black && tc is White) || (fc is White
                    && tc is Black)) {
                    None
                } else {
                    match rules::rule_spec(fc, b, m) {
                        None => None,
                        Some(effs) => Some(
                            effs + seq![SideEffect::Move(m)] + if tc is Empty {
                                Seq::<SideEffect>::empty()
                            } else {
                                seq![SideEffect::Delete(m.to, tc)]
                            },
                        ),
                    }
                }
            },
            _ => None,
        }
    }
}

/// The piece of the back rank at column `c`: rook, knight, bishop, queen on
/// column 3, king (castle-eligible) on column 4, mirrored on the right.
pub open spec fn back_rank_piece(c: int) -> ChessPiece {
    if c == 0 || c == 7 {
        ChessPiece::Rook
    } else if c == 1 || c == 6 {
        ChessPiece::Knight
    } else if c == 2 || c == 5 {
        ChessPiece::Bishop
    } else if c == 3 {
        ChessPiece::Queen
    } else {
        ChessPiece::King(false)
    }
}

/// The cell of the starting layout at row-major index `i`.
pub open spec fn init_cell(i: int) -> ChessBoardCell {
    let r = i / 8;
    let c = i % 8;
    if r == 0 {
        ChessBoardCell::Black(back_rank_piece(c))
    } else if r == 1 {
        ChessBoardCell::Black(ChessPiece::Pawn(LongStart::Before))
    } else if r == 6 {
        ChessBoardCell::White(ChessPiece::Pawn(LongStart::Before))
    } else if r == 7 {
        ChessBoardCell::White(back_rank_piece(c))
    } else {
        ChessBoardCell::Empty
    }
}

/// The starting board.
pub open spec fn initial_board() -> Seq<ChessBoardCell> {
    Seq::new(64, |i: int| init_cell(i))
}

/// The starting cell at row-major index `i`.
fn starting_cell(i: usize) -> (r: ChessBoardCell)
    requires
        i < 64,
    ensures
        r == init_cell(i as int),
{
    let row = i / 8;
    let col = i % 8;
    if row == 0 || row == 7 {
        let piece = if col == 0 || col == 7 {
            ChessPiece::Rook
        } else if col == 1 || col == 6 {
            ChessPiece::Knight
        } else if col == 2 || col == 5 {
            ChessPiece::Bishop
        } else if col == 3 {
            ChessPiece::Queen
        } else {
            ChessPiece::King(false)
        };
        if row == 0 {
            ChessBoardCell::Black(piece)
        } else {
            ChessBoardCell::White(piece)
        }
    } else if row == 1 {
        ChessBoardCell::Black(ChessPiece::Pawn(LongStart::Before))
    } else if row == 6 {
        ChessBoardCell::White(ChessPiece::Pawn(LongStart::Before))
    } else {
        ChessBoardCell::Empty
    }
}

/// A move whose origin or destination lies off the board is rejected, on
/// every board.
pub proof fn lemma_out_of_range_rejected(b: Seq<ChessBoardCell>, m: BoardMove)
    requires
        !pos_in_bounds(m.from) || !pos_in_bounds(m.to),
    ensures
        validate_spec(b, m) is None,
{
}

/// Every effect a rule emits touches only on-board squares, provided the
/// move's endpoints are on the board.
proof fn lemma_rule_effects_wf(fc: ChessBoardCell, b: Seq<ChessBoardCell>, m: BoardMove)
    requires
        pos_in_bounds(m.from),
        pos_in_bounds(m.to),
    ensures
        rules::rule_spec(fc, b, m) matches Some(es) ==> effects_wf(es),
{
    if let Some(es) = rules::rule_spec(fc, b, m) {
        assert forall|i: int| 0 <= i < es.len() implies effect_wf(es[i]) by {
            assert(pos_in_bounds(m.to));
        }
    }
}

/// Every effect of a validated move touches only on-board squares.
proof fn lemma_validate_effects_wf(b: Seq<ChessBoardCell>, m: BoardMove)
    ensures
        validate_spec(b, m) matches Some(es) ==> effects_wf(es),
{
    if let Some(es) = validate_spec(b, m) {
        let fc = cell_at(b, m.from.row as int, m.from.col as int)->Some_0;
        lemma_rule_effects_wf(fc, b, m);
        let rule_es = rules::rule_spec(fc, b, m)->Some_0;
        assert forall|i: int| 0 <= i < es.len() implies effect_wf(es[i]) by {
            if i < rule_es.len() {
                assert(es[i] == rule_es[i]);
            }
        }
    }
}

/// Error of the board primitives: the sole bounds violation, reported as a
/// recoverable result, never a panic.
#[derive(Clone, Copy, Debug, PartialEq, Eq, Structural)]
pub enum BoardError {
    OutOfBounds,
}

} // verus!
