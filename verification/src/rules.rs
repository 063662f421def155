//! Move rule table: one validator per (color, piece kind), each a pure
//! pattern match over the move's delta shape plus the board context,
//! returning rejection or acceptance with zero or more side effects.

use vstd::prelude::*;

use crate::board::{cell_at, BoardMove, BoardPos, ChessBoard, ChessBoardCell, ChessPiece, LongStart};

verus! {

/// An effect that applying a validated move has on the board, beyond the
/// implicit relocation of the mover itself:
/// - `Delete`: remove the cell at the position (the removed cell is carried
///   for reporting and the win check),
/// - `Move`: a secondary relocation (the rook during castling),
/// - `SetAt`: overwrite a cell (pawn-state transitions, the post-castle king).
#[derive(Clone, Copy, Debug, PartialEq, Eq, Structural)]
pub enum SideEffect {
    Delete(BoardPos, ChessBoardCell),
    Move(BoardMove),
    SetAt(BoardPos, ChessBoardCell),
}

/// Verdict of a rule function: acceptance with optional rule-specific side
/// effects, or rejection.
pub enum ValidationResult {
    Valid(Option<Vec<SideEffect>>),
    NotValid,
}

/// The side effects a `ValidationResult` stands for: `None` for rejection,
/// the (possibly empty) effect sequence for acceptance.
pub open spec fn vres_effects(r: ValidationResult) -> Option<Seq<SideEffect>> {
    match r {
        ValidationResult::NotValid => None,
        ValidationResult::Valid(o) => match o {
            None => Some(Seq::<SideEffect>::empty()),
            Some(v) => Some(v@),
        },
    }
}

/// Sign of an integer: -1, 0 or 1.
pub open spec fn sgn(x: int) -> int {
    if x > 0 {
        1
    } else if x < 0 {
        -1
    } else {
        0
    }
}

/// The cell met after `k` unit steps from the move's origin toward its
/// destination, stepping each axis by the sign of its delta.
pub open spec fn path_cell(b: Seq<ChessBoardCell>, m: BoardMove, k: int) -> Option<ChessBoardCell> {
    cell_at(
        b,
        m.from.row as int + k * sgn(m.rows as int),
        m.from.col as int + k * sgn(m.columns as int),
    )
}

/// Every square strictly between origin and destination (steps 1 to `n`-1)
/// is on the board and empty.
pub open spec fn path_clear(b: Seq<ChessBoardCell>, m: BoardMove, n: int) -> bool {
    forall|k: int| 1 <= k < n ==> #[trigger] path_cell(b, m, k) == Some(ChessBoardCell::Empty)
}

/// Every square of `row` with column strictly between `lo` and `hi` is empty;
/// used by the castling corridor check.
pub open spec fn corridor_clear(b: Seq<ChessBoardCell>, row: int, lo: int, hi: int) -> bool {
    forall|c: int| lo < c < hi ==> #[trigger] cell_at(b, row, c) == Some(ChessBoardCell::Empty)
}

/// Rule of the black pawn. Diagonal step (row delta +1, column delta +-1):
/// capture onto a white piece (pawn state becomes `After`), or en-passant
/// onto an empty square when a square horizontally adjacent to the origin
/// holds a white pawn flagged `RightNow` (the adjacent pawn is deleted, the
/// column below the origin checked first). Straight single step onto empty:
/// state becomes `After`. Straight double step from home row 1 onto empty:
/// state becomes `RightNow`. Everything else is rejected.
pub open spec fn black_pawn_spec(b: Seq<ChessBoardCell>, m: BoardMove) -> Option<Seq<SideEffect>> {
    if m.rows == 1 && (m.columns == -1 || m.columns == 1) {
        if cell_at(b, m.to.row as int, m.to.col as int) matches Some(ChessBoardCell::White(_)) {
            Some(seq![SideEffect::SetAt(m.to, ChessBoardCell::Black(ChessPiece::Pawn(LongStart::After)))])
        } else if cell_at(b, m.from.row as int, m.from.col as int - 1)
            == Some(ChessBoardCell::White(ChessPiece::Pawn(LongStart::RightNow))) {
            Some(seq![SideEffect::Delete(
                BoardPos { row: m.from.row, col: (m.from.col - 1) as usize },
                ChessBoardCell::White(ChessPiece::Pawn(LongStart::RightNow)),
            )])
        } else if cell_at(b, m.from.row as int, m.from.col as int + 1)
            == Some(ChessBoardCell::White(ChessPiece::Pawn(LongStart::RightNow))) {
            Some(seq![SideEffect::Delete(
                BoardPos { row: m.from.row, col: (m.from.col + 1) as usize },
                ChessBoardCell::White(ChessPiece::Pawn(LongStart::RightNow)),
            )])
        } else {
            None
        }
    } else if m.rows == 2 && m.columns == 0 && m.from.row == 1 {
        if cell_at(b, m.to.row as int, m.to.col as int) == Some(ChessBoardCell::Empty) {
            Some(seq![SideEffect::SetAt(m.to, ChessBoardCell::Black(ChessPiece::Pawn(LongStart::RightNow)))])
        } else {
            None
        }
    } else if m.rows == 1 && m.columns == 0 {
        if cell_at(b, m.to.row as int, m.to.col as int) == Some(ChessBoardCell::Empty) {
            Some(seq![SideEffect::SetAt(m.to, ChessBoardCell::Black(ChessPiece::Pawn(LongStart::After)))])
        } else {
            None
        }
    } else {
        None
    }
}

/// Rule of the white pawn: the mirror of the black pawn's, advancing toward
/// row 0, with home row 6.
pub open spec fn white_pawn_spec(b: Seq<ChessBoardCell>, m: BoardMove) -> Option<Seq<SideEffect>> {
    if m.rows == -1 && (m.columns == -1 || m.columns == 1) {
        if cell_at(b, m.to.row as int, m.to.col as int) matches Some(ChessBoardCell::Black(_)) {
            Some(seq![SideEffect::SetAt(m.to, ChessBoardCell::White(ChessPiece::Pawn(LongStart::After)))])
        } else if cell_at(b, m.from.row as int, m.from.col as int - 1)
            == Some(ChessBoardCell::Black(ChessPiece::Pawn(LongStart::RightNow))) {
            Some(seq![SideEffect::Delete(
                BoardPos { row: m.from.row, col: (m.from.col - 1) as usize },
                ChessBoardCell::Black(ChessPiece::Pawn(LongStart::RightNow)),
            )])
        } else if cell_at(b, m.from.row as int, m.from.col as int + 1)
            == Some(ChessBoardCell::Black(ChessPiece::Pawn(LongStart::RightNow))) {
            Some(seq![SideEffect::Delete(
                BoardPos { row: m.from.row, col: (m.from.col + 1) as usize },
                ChessBoardCell::Black(ChessPiece::Pawn(LongStart::RightNow)),
            )])
        } else {
            None
        }
    } else if m.rows == -2 && m.columns == 0 && m.from.row == 6 {
        if cell_at(b, m.to.row as int, m.to.col as int) == Some(ChessBoardCell::Empty) {
            Some(seq![SideEffect::SetAt(m.to, ChessBoardCell::White(ChessPiece::Pawn(LongStart::RightNow)))])
        } else {
            None
        }
    } else if m.rows == -1 && m.columns == 0 {
        if cell_at(b, m.to.row as int, m.to.col as int) == Some(ChessBoardCell::Empty) {
            Some(seq![SideEffect::SetAt(m.to, ChessBoardCell::White(ChessPiece::Pawn(LongStart::After)))])
        } else {
            None
        }
    } else {
        None
    }
}

/// Rule of the bishop: equal absolute deltas and a clear diagonal between.
pub open spec fn bishop_spec(b: Seq<ChessBoardCell>, m: BoardMove) -> Option<Seq<SideEffect>> {
    if abs(m.columns as int) == abs(m.rows as int) && path_clear(b, m, abs(m.rows as int)) {
        Some(Seq::<SideEffect>::empty())
    } else {
        None
    }
}

/// Rule of the rook: purely vertical or purely horizontal with a clear path.
pub open spec fn rook_spec(b: Seq<ChessBoardCell>, m: BoardMove) -> Option<Seq<SideEffect>> {
    if m.columns == 0 {
        if path_clear(b, m, abs(m.rows as int)) {
            Some(Seq::<SideEffect>::empty())
        } else {
            None
        }
    } else if m.rows == 0 {
        if path_clear(b, m, abs(m.columns as int)) {
            Some(Seq::<SideEffect>::empty())
        } else {
            None
        }
    } else {
        None
    }
}

/// Rule of the knight: an (1,2) or (2,1) jump, no path check.
pub open spec fn knight_spec(m: BoardMove) -> Option<Seq<SideEffect>> {
    if (abs(m.columns as int) == 2 && abs(m.rows as int) == 1)
        || (abs(m.columns as int) == 1 && abs(m.rows as int) == 2) {
        Some(Seq::<SideEffect>::empty())
    } else {
        None
    }
}

/// Rule of the queen: whatever the bishop or the rook rule accepts.
pub open spec fn queen_spec(b: Seq<ChessBoardCell>, m: BoardMove) -> Option<Seq<SideEffect>> {
    if bishop_spec(b, m) is Some || rook_spec(b, m) is Some {
        Some(Seq::<SideEffect>::empty())
    } else {
        None
    }
}

/// Rule of a king that has already castled or moved: a single step in any
/// direction.
pub open spec fn king_spec(m: BoardMove) -> Option<Seq<SideEffect>> {
    if abs(m.columns as int) <= 1 && abs(m.rows as int) <= 1 {
        Some(Seq::<SideEffect>::empty())
    } else {
        None
    }
}

pub open spec fn abs(x: int) -> int {
    if x < 0 {
        -x
    } else {
        x
    }
}

/// Rule of a white king that has not yet castled or moved. Two castling
/// moves are recognized by fixed coordinates — short, (7,4) to (7,6) with a
/// white rook at (7,7), and long, (7,4) to (7,1) with a white rook at (7,0) —
/// each requiring every square strictly between king and rook to be empty,
/// and relocating the rook beside the king. Otherwise an ordinary single
/// step, which flags the king as having moved.
pub open spec fn white_king_castle_spec(b: Seq<ChessBoardCell>, m: BoardMove) -> Option<
    Seq<SideEffect>,
> {
    if m.from == (BoardPos { row: 7, col: 4 }) && m.to == (BoardPos { row: 7, col: 6 }) {
        if cell_at(b, 7, 7) == Some(ChessBoardCell::White(ChessPiece::Rook)) && corridor_clear(
            b,
            7,
            4,
            7,
        ) {
            Some(
                seq![
                    SideEffect::Move(
                        BoardMove {
                            from: BoardPos { row: 7, col: 7 },
                            to: BoardPos { row: 7, col: 5 },
                            rows: 0,
                            columns: -2isize,
                        },
                    ),
                    SideEffect::SetAt(m.to, ChessBoardCell::White(ChessPiece::King(true))),
                ],
            )
        } else {
            None
        }
    } else if m.from == (BoardPos { row: 7, col: 4 }) && m.to == (BoardPos { row: 7, col: 1 }) {
        if cell_at(b, 7, 0) == Some(ChessBoardCell::White(ChessPiece::Rook)) && corridor_clear(
            b,
            7,
            0,
            4,
        ) {
            Some(
                seq![
                    SideEffect::Move(
                        BoardMove {
                            from: BoardPos { row: 7, col: 0 },
                            to: BoardPos { row: 7, col: 2 },
                            rows: 0,
                            columns: 2,
                        },
                    ),
                    SideEffect::SetAt(m.to, ChessBoardCell::White(ChessPiece::King(true))),
                ],
            )
        } else {
            None
        }
    } else if king_spec(m) is Some {
        Some(seq![SideEffect::SetAt(m.to, ChessBoardCell::White(ChessPiece::King(true)))])
    } else {
        None
    }
}

/// Rule of a black king that has not yet castled or moved: the mirror of the
/// white king's, on row 0.
pub open spec fn black_king_castle_spec(b: Seq<ChessBoardCell>, m: BoardMove) -> Option<
    Seq<SideEffect>,
> {
    if m.from == (BoardPos { row: 0, col: 4 }) && m.to == (BoardPos { row: 0, col: 6 }) {
        if cell_at(b, 0, 7) == Some(ChessBoardCell::Black(ChessPiece::Rook)) && corridor_clear(
            b,
            0,
            4,
            7,
        ) {
            Some(
                seq![
                    SideEffect::Move(
                        BoardMove {
                            from: BoardPos { row: 0, col: 7 },
                            to: BoardPos { row: 0, col: 5 },
                            rows: 0,
                            columns: -2isize,
                        },
                    ),
                    SideEffect::SetAt(m.to, ChessBoardCell::Black(ChessPiece::King(true))),
                ],
            )
        } else {
            None
        }
    } else if m.from == (BoardPos { row: 0, col: 4 }) && m.to == (BoardPos { row: 0, col: 1 }) {
        if cell_at(b, 0, 0) == Some(ChessBoardCell::Black(ChessPiece::Rook)) && corridor_clear(
            b,
            0,
            0,
            4,
        ) {
            Some(
                seq![
                    SideEffect::Move(
                        BoardMove {
                            from: BoardPos { row: 0, col: 0 },
                            to: BoardPos { row: 0, col: 2 },
                            rows: 0,
                            columns: 2,
                        },
                    ),
                    SideEffect::SetAt(m.to, ChessBoardCell::Black(ChessPiece::King(true))),
                ],
            )
        } else {
            None
        }
    } else if king_spec(m) is Some {
        Some(seq![SideEffect::SetAt(m.to, ChessBoardCell::Black(ChessPiece::King(true)))])
    } else {
        None
    }
}

/// Dispatch of the rule table: the validator of the piece standing on the
/// origin square. Total for every non-empty cell; an empty mover is
/// rejected outright.
pub open spec fn rule_spec(cell: ChessBoardCell, b: Seq<ChessBoardCell>, m: BoardMove) -> Option<
    Seq<SideEffect>,
> {
    match cell {
        ChessBoardCell::Black(p) => match p {
            ChessPiece::Pawn(_) => black_pawn_spec(b, m),
            ChessPiece::Bishop => bishop_spec(b, m),
            ChessPiece::Knight => knight_spec(m),
            ChessPiece::Rook => rook_spec(b, m),
            ChessPiece::Queen => queen_spec(b, m),
            ChessPiece::King(moved) => if moved {
                king_spec(m)
            } else {
                black_king_castle_spec(b, m)
            },
        },
        ChessBoardCell::White(p) => match p {
            ChessPiece::Pawn(_) => white_pawn_spec(b, m),
            ChessPiece::Bishop => bishop_spec(b, m),
            ChessPiece::Knight => knight_spec(m),
            ChessPiece::Rook => rook_spec(b, m),
            ChessPiece::Queen => queen_spec(b, m),
            ChessPiece::King(moved) => if moved {
                king_spec(m)
            } else {
                white_king_castle_spec(b, m)
            },
        },
        ChessBoardCell::Empty => None,
    }
}

/// The inclusive-of-`a`, exclusive-of-`b` walk from `a` toward `b`:
/// ascending when `a < b`, descending when `a > b`, empty when they are
/// equal. Step `i` of the result is `a` moved `i` squares toward `b`.
pub fn bisex_range(a: isize, b: isize) -> (r: Vec<isize>)
    ensures
        r@.len() == abs(b - a),
        forall|i: int| 0 <= i < r@.len() ==> #[trigger] r@[i] == a + i * sgn(b - a),
{
    let mut out: Vec<isize> = Vec::new();
    let mut start = a;
    let end = b;
    while start != end
        invariant
            abs(end - start) + out@.len() == abs(end - a),
            forall|i: int| 0 <= i < out@.len() ==> #[trigger] out@[i] == a + i * sgn(end - a),
            start == a + out@.len() * sgn(end - a),
            a <= start <= end || end <= start <= a,
        decreases abs(end - start),
    {
        if start < end {
            out.push(start);
            start += 1;
        } else {
            out.push(start);
            start -= 1;
        }
    }
    out
}

/// Shared path walk of bishop and rook: whether every square strictly
/// between the origin and the `n`-step destination is on the board and
/// empty, walking both axes by the sign of the move's deltas.
fn walk_is_clear(mv: BoardMove, b: &ChessBoard, n: isize) -> (r: bool)
    requires
        b.wf(),
        mv.from.row < 8,
        mv.from.col < 8,
        0 <= n <= 8,
    ensures
        r == path_clear(b@, mv, n as int),
{
    let rs = bisex_range(0, if mv.rows > 0 { n } else if mv.rows < 0 { -n } else { 0 });
    let cs = bisex_range(0, if mv.columns > 0 { n } else if mv.columns < 0 { -n } else { 0 });
    let mut k: usize = 1;
    while k < n as usize
        invariant
            b.wf(),
            mv.from.row < 8,
            mv.from.col < 8,
            0 <= n <= 8,
            1 <= k,
            rs@.len() == if mv.rows == 0 { 0int } else { n as int },
            cs@.len() == if mv.columns == 0 { 0int } else { n as int },
            forall|i: int| 0 <= i < rs@.len() ==> #[trigger] rs@[i] == i * sgn(mv.rows as int),
            forall|i: int| 0 <= i < cs@.len() ==> #[trigger] cs@[i] == i * sgn(mv.columns as int),
            forall|j: int| 1 <= j < k ==> #[trigger] path_cell(b@, mv, j) == Some(
                ChessBoardCell::Empty,
            ),
        decreases n - k,
    {
        let dr: isize = if mv.rows == 0 { 0 } else { rs[k] };
        let dc: isize = if mv.columns == 0 { 0 } else { cs[k] };
        let row = mv.from.row as isize + dr;
        let col = mv.from.col as isize + dc;
        if row < 0 || row >= 8 || col < 0 || col >= 8 {
            assert(path_cell(b@, mv, k as int) is None);
            return false;
        }
        let here = b.at(BoardPos { row: row as usize, col: col as usize });
        match here {
            Some(ChessBoardCell::Empty) => {},
            _ => {
                assert(path_cell(b@, mv, k as int) != Some(ChessBoardCell::Empty));
                return false;
            },
        }
        k += 1;
    }
    true
}

fn singleton(e: SideEffect) -> (r: Vec<SideEffect>)
    ensures
        r@ == seq![e],
{
    let mut v: Vec<SideEffect> = Vec::new();
    v.push(e);
    proof {
        assert(v@ =~= seq![e]);
    }
    v
}

pub(crate) fn black_pawn(mv: BoardMove, b: &ChessBoard) -> (r: ValidationResult)
    requires
        b.wf(),
        mv.from.row < 8,
        mv.from.col < 8,
    ensures
        vres_effects(r) == black_pawn_spec(b@, mv),
{
    if mv.rows == 1 && (mv.columns == -1 || mv.columns == 1) {
        if let Some(ChessBoardCell::White(_)) = b.at(mv.to) {
            ValidationResult::Valid(
                Some(
                    singleton(
                        SideEffect::SetAt(
                            mv.to,
                            ChessBoardCell::Black(ChessPiece::Pawn(LongStart::After)),
                        ),
                    ),
                ),
            )
        } else if mv.from.col >= 1 && matches!(
            b.at(BoardPos { row: mv.from.row, col: mv.from.col - 1 }),
            Some(ChessBoardCell::White(ChessPiece::Pawn(LongStart::RightNow)))
        ) {
            ValidationResult::Valid(
                Some(
                    singleton(
                        SideEffect::Delete(
                            BoardPos { row: mv.from.row, col: mv.from.col - 1 },
                            ChessBoardCell::White(ChessPiece::Pawn(LongStart::RightNow)),
                        ),
                    ),
                ),
            )
        } else if matches!(
            b.at(BoardPos { row: mv.from.row, col: mv.from.col + 1 }),
            Some(ChessBoardCell::White(ChessPiece::Pawn(LongStart::RightNow)))
        ) {
            ValidationResult::Valid(
                Some(
                    singleton(
                        SideEffect::Delete(
                            BoardPos { row: mv.from.row, col: mv.from.col + 1 },
                            ChessBoardCell::White(ChessPiece::Pawn(LongStart::RightNow)),
                        ),
                    ),
                ),
            )
        } else {
            ValidationResult::NotValid
        }
    } else if mv.rows == 2 && mv.columns == 0 && mv.from.row == 1 {
        if let Some(ChessBoardCell::Empty) = b.at(mv.to) {
            ValidationResult::Valid(
                Some(
                    singleton(
                        SideEffect::SetAt(
                            mv.to,
                            ChessBoardCell::Black(ChessPiece::Pawn(LongStart::RightNow)),
                        ),
                    ),
                ),
            )
        } else {
            ValidationResult::NotValid
        }
    } else if mv.rows == 1 && mv.columns == 0 {
        if let Some(ChessBoardCell::Empty) = b.at(mv.to) {
            ValidationResult::Valid(
                Some(
                    singleton(
                        SideEffect::SetAt(
                            mv.to,
                            ChessBoardCell::Black(ChessPiece::Pawn(LongStart::After)),
                        ),
                    ),
                ),
            )
        } else {
            ValidationResult::NotValid
        }
    } else {
        ValidationResult::NotValid
    }
}

pub(crate) fn white_pawn(mv: BoardMove, b: &ChessBoard) -> (r: ValidationResult)
    requires
        b.wf(),
        mv.from.row < 8,
        mv.from.col < 8,
    ensures
        vres_effects(r) == white_pawn_spec(b@, mv),
{
    if mv.rows == -1 && (mv.columns == -1 || mv.columns == 1) {
        if let Some(ChessBoardCell::Black(_)) = b.at(mv.to) {
            ValidationResult::Valid(
                Some(
                    singleton(
                        SideEffect::SetAt(
                            mv.to,
                            ChessBoardCell::White(ChessPiece::Pawn(LongStart::After)),
                        ),
                    ),
                ),
            )
        } else if mv.from.col >= 1 && matches!(
            b.at(BoardPos { row: mv.from.row, col: mv.from.col - 1 }),
            Some(ChessBoardCell::Black(ChessPiece::Pawn(LongStart::RightNow)))
        ) {
            ValidationResult::Valid(
                Some(
                    singleton(
                        SideEffect::Delete(
                            BoardPos { row: mv.from.row, col: mv.from.col - 1 },
                            ChessBoardCell::Black(ChessPiece::Pawn(LongStart::RightNow)),
                        ),
                    ),
                ),
            )
        } else if matches!(
            b.at(BoardPos { row: mv.from.row, col: mv.from.col + 1 }),
            Some(ChessBoardCell::Black(ChessPiece::Pawn(LongStart::RightNow)))
        ) {
            ValidationResult::Valid(
                Some(
                    singleton(
                        SideEffect::Delete(
                            BoardPos { row: mv.from.row, col: mv.from.col + 1 },
                            ChessBoardCell::Black(ChessPiece::Pawn(LongStart::RightNow)),
                        ),
                    ),
                ),
            )
        } else {
            ValidationResult::NotValid
        }
    } else if mv.rows == -2 && mv.columns == 0 && mv.from.row == 6 {
        if let Some(ChessBoardCell::Empty) = b.at(mv.to) {
            ValidationResult::Valid(
                Some(
                    singleton(
                        SideEffect::SetAt(
                            mv.to,
                            ChessBoardCell::White(ChessPiece::Pawn(LongStart::RightNow)),
                        ),
                    ),
                ),
            )
        } else {
            ValidationResult::NotValid
        }
    } else if mv.rows == -1 && mv.columns == 0 {
        if let Some(ChessBoardCell::Empty) = b.at(mv.to) {
            ValidationResult::Valid(
                Some(
                    singleton(
                        SideEffect::SetAt(
                            mv.to,
                            ChessBoardCell::White(ChessPiece::Pawn(LongStart::After)),
                        ),
                    ),
                ),
            )
        } else {
            ValidationResult::NotValid
        }
    } else {
        ValidationResult::NotValid
    }
}

pub(crate) fn knight(mv: BoardMove, _b: &ChessBoard) -> (r: ValidationResult)
    ensures
        vres_effects(r) == knight_spec(mv),
{
    let ca2 = mv.columns == 2 || mv.columns == -2;
    let ca1 = mv.columns == 1 || mv.columns == -1;
    let ra2 = mv.rows == 2 || mv.rows == -2;
    let ra1 = mv.rows == 1 || mv.rows == -1;
    if (ca2 && ra1) || (ca1 && ra2) {
        ValidationResult::Valid(None)
    } else {
        ValidationResult::NotValid
    }
}

pub(crate) fn king(mv: BoardMove, _b: &ChessBoard) -> (r: ValidationResult)
    ensures
        vres_effects(r) == king_spec(mv),
{
    if -1 <= mv.columns && mv.columns <= 1 && -1 <= mv.rows && mv.rows <= 1 {
        ValidationResult::Valid(None)
    } else {
        ValidationResult::NotValid
    }
}

pub(crate) fn bishop(mv: BoardMove, b: &ChessBoard) -> (r: ValidationResult)
    requires
        b.wf(),
        mv.from.row < 8,
        mv.from.col < 8,
    ensures
        vres_effects(r) == bishop_spec(b@, mv),
{
    let abs_eq = mv.columns == mv.rows || (mv.columns as i128) == -(mv.rows as i128);
    if !abs_eq {
        return ValidationResult::NotValid;
    }
    if mv.rows < -8 || mv.rows > 8 {
        // Any walk of nine or more steps leaves the board before reaching
        // the destination.
        proof {
            assert(path_cell(b@, mv, 8) is None);
        }
        return ValidationResult::NotValid;
    }
    let n: isize = if mv.rows >= 0 { mv.rows } else { -mv.rows };
    if walk_is_clear(mv, b, n) {
        ValidationResult::Valid(None)
    } else {
        ValidationResult::NotValid
    }
}

pub(crate) fn rook(mv: BoardMove, b: &ChessBoard) -> (r: ValidationResult)
    requires
        b.wf(),
        mv.from.row < 8,
        mv.from.col < 8,
    ensures
        vres_effects(r) == rook_spec(b@, mv),
{
    if mv.columns == 0 {
        if mv.rows < -8 || mv.rows > 8 {
            proof {
                assert(path_cell(b@, mv, 8) is None);
            }
            return ValidationResult::NotValid;
        }
        let n: isize = if mv.rows >= 0 { mv.rows } else { -mv.rows };
        if walk_is_clear(mv, b, n) {
            ValidationResult::Valid(None)
        } else {
            ValidationResult::NotValid
        }
    } else if mv.rows == 0 {
        if mv.columns < -8 || mv.columns > 8 {
            proof {
                assert(path_cell(b@, mv, 8) is None);
            }
            return ValidationResult::NotValid;
        }
        let n: isize = if mv.columns >= 0 { mv.columns } else { -mv.columns };
        if walk_is_clear(mv, b, n) {
            ValidationResult::Valid(None)
        } else {
            ValidationResult::NotValid
        }
    } else {
        ValidationResult::NotValid
    }
}

/// Checks that every column strictly between `lo` and `hi` of `row` is
/// empty.
fn corridor_is_clear(b: &ChessBoard, row: usize, lo: usize, hi: usize) -> (r: bool)
    requires
        b.wf(),
        row < 8,
        lo < 8,
        hi <= 8,
    ensures
        r == corridor_clear(b@, row as int, lo as int, hi as int),
{
    let mut c = lo + 1;
    while c < hi
        invariant
            b.wf(),
            row < 8,
            hi <= 8,
            lo + 1 <= c,
            c <= hi || c == lo + 1,
            forall|x: int| lo < x < c ==> #[trigger] cell_at(b@, row as int, x) == Some(
                ChessBoardCell::Empty,
            ),
        decreases hi - c,
    {
        match b.at(BoardPos { row, col: c }) {
            Some(ChessBoardCell::Empty) => {},
            _ => {
                return false;
            },
        }
        c += 1;
    }
    true
}

fn two_effects(a: SideEffect, b: SideEffect) -> (r: Vec<SideEffect>)
    ensures
        r@ == seq![a, b],
{
    let mut v: Vec<SideEffect> = Vec::new();
    v.push(a);
    v.push(b);
    proof {
        assert(v@ =~= seq![a, b]);
    }
    v
}

pub(crate) fn white_king_can_castle(mv: BoardMove, b: &ChessBoard) -> (r: ValidationResult)
    requires
        b.wf(),
        mv.from.row < 8,
        mv.from.col < 8,
    ensures
        vres_effects(r) == white_king_castle_spec(b@, mv),
{
    if mv.from.row == 7 && mv.from.col == 4 && mv.to.row == 7 && mv.to.col == 6 {
        // short castling
        match b.at(BoardPos { row: 7, col: 7 }) {
            Some(ChessBoardCell::White(ChessPiece::Rook)) => {},
            _ => {
                return ValidationResult::NotValid;
            },
        }
        if !corridor_is_clear(b, 7, 4, 7) {
            return ValidationResult::NotValid;
        }
        ValidationResult::Valid(
            Some(
                two_effects(
                    SideEffect::Move(
                        BoardMove {
                            from: BoardPos { row: 7, col: 7 },
                            to: BoardPos { row: 7, col: 5 },
                            rows: 0,
                            columns: -2,
                        },
                    ),
                    SideEffect::SetAt(mv.to, ChessBoardCell::White(ChessPiece::King(true))),
                ),
            ),
        )
    } else if mv.from.row == 7 && mv.from.col == 4 && mv.to.row == 7 && mv.to.col == 1 {
        // long castling
        match b.at(BoardPos { row: 7, col: 0 }) {
            Some(ChessBoardCell::White(ChessPiece::Rook)) => {},
            _ => {
                return ValidationResult::NotValid;
            },
        }
        if !corridor_is_clear(b, 7, 0, 4) {
            return ValidationResult::NotValid;
        }
        ValidationResult::Valid(
            Some(
                two_effects(
                    SideEffect::Move(
                        BoardMove {
                            from: BoardPos { row: 7, col: 0 },
                            to: BoardPos { row: 7, col: 2 },
                            rows: 0,
                            columns: 2,
                        },
                    ),
                    SideEffect::SetAt(mv.to, ChessBoardCell::White(ChessPiece::King(true))),
                ),
            ),
        )
    } else {
        match king(mv, b) {
            ValidationResult::Valid(_) => ValidationResult::Valid(
                Some(
                    singleton(
                        SideEffect::SetAt(mv.to, ChessBoardCell::White(ChessPiece::King(true))),
                    ),
                ),
            ),
            ValidationResult::NotValid => ValidationResult::NotValid,
        }
    }
}

pub(crate) fn black_king_can_castle(mv: BoardMove, b: &ChessBoard) -> (r: ValidationResult)
    requires
        b.wf(),
        mv.from.row < 8,
        mv.from.col < 8,
    ensures
        vres_effects(r) == black_king_castle_spec(b@, mv),
{
    if mv.from.row == 0 && mv.from.col == 4 && mv.to.row == 0 && mv.to.col == 6 {
        // short castling
        match b.at(BoardPos { row: 0, col: 7 }) {
            Some(ChessBoardCell::Black(ChessPiece::Rook)) => {},
            _ => {
                return ValidationResult::NotValid;
            },
        }
        if !corridor_is_clear(b, 0, 4, 7) {
            return ValidationResult::NotValid;
        }
        ValidationResult::Valid(
            Some(
                two_effects(
                    SideEffect::Move(
                        BoardMove {
                            from: BoardPos { row: 0, col: 7 },
                            to: BoardPos { row: 0, col: 5 },
                            rows: 0,
                            columns: -2,
                        },
                    ),
                    SideEffect::SetAt(mv.to, ChessBoardCell::Black(ChessPiece::King(true))),
                ),
            ),
        )
    } else if mv.from.row == 0 && mv.from.col == 4 && mv.to.row == 0 && mv.to.col == 1 {
        // long castling
        match b.at(BoardPos { row: 0, col: 0 }) {
            Some(ChessBoardCell::Black(ChessPiece::Rook)) => {},
            _ => {
                return ValidationResult::NotValid;
            },
        }
        if !corridor_is_clear(b, 0, 0, 4) {
            return ValidationResult::NotValid;
        }
        ValidationResult::Valid(
            Some(
                two_effects(
                    SideEffect::Move(
                        BoardMove {
                            from: BoardPos { row: 0, col: 0 },
                            to: BoardPos { row: 0, col: 2 },
                            rows: 0,
                            columns: 2,
                        },
                    ),
                    SideEffect::SetAt(mv.to, ChessBoardCell::Black(ChessPiece::King(true))),
                ),
            ),
        )
    } else {
        match king(mv, b) {
            ValidationResult::Valid(_) => ValidationResult::Valid(
                Some(
                    singleton(
                        SideEffect::SetAt(mv.to, ChessBoardCell::Black(ChessPiece::King(true))),
                    ),
                ),
            ),
            ValidationResult::NotValid => ValidationResult::NotValid,
        }
    }
}

pub(crate) fn queen(mv: BoardMove, b: &ChessBoard) -> (r: ValidationResult)
    requires
        b.wf(),
        mv.from.row < 8,
        mv.from.col < 8,
    ensures
        vres_effects(r) == queen_spec(b@, mv),
{
    match (bishop(mv, b), rook(mv, b)) {
        (ValidationResult::Valid(_), _) | (_, ValidationResult::Valid(_)) => ValidationResult::Valid(
            None,
        ),
        _ => ValidationResult::NotValid,
    }
}

} // verus!

