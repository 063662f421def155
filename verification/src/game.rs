//! Game orchestrator: the authoritative board (host) or the authoritative
//! board plus a disposable scratch board (client), a small turn-taking state
//! machine driven by the incoming application messages, and the win check
//! over the executor's deleted-piece reports.

use vstd::prelude::*;

use crate::board::{
    cell_at, idx_of, initial_board, pos_in_bounds, run_effects, validate_spec, BoardMove, BoardPos,
    ChessBoard, ChessBoardCell, ChessPiece, MoveBuilder,
};
use crate::codec::Message;
use crate::protocol::MessageQueue;
use std::collections::VecDeque;

verus! {

/// A piece lifted off the board by the local player, with the square it was
/// taken from, while a destination is being chosen.
#[derive(Clone, Copy, Debug, PartialEq, Eq, Structural)]
pub struct Selection {
    pub piece: ChessBoardCell,
    pub taken_from: BoardPos,
}

/// Startup choice handed in from the process arguments: the address to bind
/// or connect to, and which role this peer plays.
#[derive(Debug)]
pub struct RunArgs {
    pub address: String,
    pub is_host: bool,
}

/// What the connection layer reports to the orchestrator.
pub enum NetworkEvent {
    NotConnected,
    Connecting,
    Connected,
    Broken,
}

/// The turn-taking state. `Move`: the local player may act.
/// `MovePending`: a locally validated move awaits transmission.
/// `WaitReply`: the client sent a move and awaits the verdict.
/// `WaitMove`: awaiting the opponent's move. The three `Connecting`/`Setup`
/// states precede the game proper.
#[derive(Clone, Copy, Debug, PartialEq, Eq, Structural)]
pub enum State {
    Move,
    MovePending(BoardMove),
    WaitReply(BoardMove),
    WaitMove,
    Won,
    Lost,
    SetupConnection,
    ConnectingHost,
    ConnectingClient,
}

/// The outcome of the win check, from the asking side's point of view.
#[derive(Clone, Copy, Debug, PartialEq, Eq, Structural)]
pub enum EndCheck {
    Loss,
    Victory,
}

/// Whether a cell holds a king of either color.
pub open spec fn is_king_cell(c: ChessBoardCell) -> bool {
    c matches ChessBoardCell::Black(ChessPiece::King(_)) || c matches ChessBoardCell::White(
        ChessPiece::King(_),
    )
}

/// The verdict the deleted-piece list of a move yields: the first deleted
/// king decides — a deleted Black king is the host's victory and the
/// client's loss, a deleted White king the reverse; no deleted king, no
/// verdict.
pub open spec fn end_check_spec(is_host: bool, deleted: Seq<ChessBoardCell>) -> Option<EndCheck>
    decreases deleted.len(),
{
    if deleted.len() == 0 {
        None
    } else {
        match deleted[0] {
            ChessBoardCell::Black(ChessPiece::King(_)) => Some(
                if is_host {
                    EndCheck::Victory
                } else {
                    EndCheck::Loss
                },
            ),
            ChessBoardCell::White(ChessPiece::King(_)) => Some(
                if is_host {
                    EndCheck::Loss
                } else {
                    EndCheck::Victory
                },
            ),
            _ => end_check_spec(is_host, deleted.drop_first()),
        }
    }
}

/// Scans a move's deleted pieces for a king; see `end_check_spec`.
pub fn is_lost_or_won(is_host: bool, deleted: &Vec<ChessBoardCell>) -> (r: Option<EndCheck>)
    ensures
        r == end_check_spec(is_host, deleted@),
{
    let mut i: usize = 0;
    proof {
        assert(deleted@.skip(0) =~= deleted@);
    }
    while i < deleted.len()
        invariant
            i <= deleted@.len(),
            end_check_spec(is_host, deleted@) == end_check_spec(is_host, deleted@.skip(i as int)),
        decreases deleted@.len() - i,
    {
        proof {
            assert(deleted@.skip(i as int).drop_first() =~= deleted@.skip(i as int + 1));
        }
        match deleted[i] {
            ChessBoardCell::Black(ChessPiece::King(_)) => {
                return if is_host {
                    Some(EndCheck::Victory)
                } else {
                    Some(EndCheck::Loss)
                };
            },
            ChessBoardCell::White(ChessPiece::King(_)) => {
                return if is_host {
                    Some(EndCheck::Loss)
                } else {
                    Some(EndCheck::Victory)
                };
            },
            _ => {},
        }
        i += 1;
    }
    None
}

/// A deleted-piece list that holds a king always yields an end-of-game
/// result, never a silent `None`.
pub proof fn lemma_king_deletion_decides(is_host: bool, deleted: Seq<ChessBoardCell>)
    requires
        exists|i: int| 0 <= i < deleted.len() && is_king_cell(#[trigger] deleted[i]),
    ensures
        end_check_spec(is_host, deleted) is Some,
    decreases deleted.len(),
{
    let i = choose|i: int| 0 <= i < deleted.len() && is_king_cell(#[trigger] deleted[i]);
    if !is_king_cell(deleted[0]) {
        assert(deleted.drop_first()[i - 1] == deleted[i]);
        lemma_king_deletion_decides(is_host, deleted.drop_first());
    }
}

/// The two sides read one deleted-piece list as opposite verdicts: the host
/// sees a victory exactly where the client sees a loss, and the reverse,
/// and one side sees a verdict exactly when the other does.
pub proof fn lemma_verdict_sides(deleted: Seq<ChessBoardCell>)
    ensures
        end_check_spec(true, deleted) is Some <==> end_check_spec(false, deleted) is Some,
        end_check_spec(true, deleted) == Some(EndCheck::Victory) <==> end_check_spec(
            false,
            deleted,
        ) == Some(EndCheck::Loss),
        end_check_spec(true, deleted) == Some(EndCheck::Loss) <==> end_check_spec(false, deleted)
            == Some(EndCheck::Victory),
    decreases deleted.len(),
{
    if deleted.len() > 0 && !is_king_cell(deleted[0]) {
        lemma_verdict_sides(deleted.drop_first());
    }
}

/// The move from `from` to `to` as `MoveBuilder::build` derives it.
pub open spec fn built_move(from: BoardPos, to: BoardPos) -> BoardMove {
    BoardMove {
        from,
        to,
        rows: (to.row - from.row) as isize,
        columns: (to.col - from.col) as isize,
    }
}

/// The orchestrator. The host plays on `board` directly; the client
/// additionally speculates on `scratch_board`, a disposable copy created
/// lazily and dropped whenever speculation resolves.
pub struct Game {
    pub board: ChessBoard,
    pub scratch_board: Option<ChessBoard>,
    pub selected_piece: Option<Selection>,
    pub is_host: bool,
    pub state: State,
    pub send_queue: MessageQueue,
}

/// How the host answers one incoming message. A `Moved` received while
/// awaiting the opponent's move is applied to the authoritative board:
/// legal moves are answered `Accepted` (plus `GameDone` when a king fell,
/// ending the game), illegal ones `Rejected`; a `Moved` in any other state
/// is answered `Rejected`; everything else is ignored.
pub open spec fn host_step_ok(pre: Game, msg: Message, post: Game) -> bool {
    &&& post.is_host == pre.is_host
    &&& post.selected_piece == pre.selected_piece
    &&& post.scratch_board == pre.scratch_board
    &&& match msg {
        Message::Moved(m) => if pre.state is WaitMove {
            match validate_spec(pre.board@, m) {
                None => post.board@ == pre.board@ && post.send_queue@ == pre.send_queue@.push(
                    Message::Rejected(),
                ) && post.state is Move,
                Some(effs) => {
                    let out = run_effects(pre.board@, effs);
                    &&& post.board@ == out.0
                    &&& match end_check_spec(pre.is_host, out.1) {
                        None => post.send_queue@ == pre.send_queue@.push(Message::Accepted())
                            && post.state is Move,
                        Some(e) => post.send_queue@ == pre.send_queue@.push(
                            Message::Accepted(),
                        ).push(Message::GameDone()) && post.state == (if e is Victory {
                            State::Won
                        } else {
                            State::Lost
                        }),
                    }
                },
            }
        } else {
            post.board@ == pre.board@ && post.send_queue@ == pre.send_queue@.push(
                Message::Rejected(),
            ) && post.state is Move
        },
        _ => post == pre,
    }
}

/// How the client answers one incoming message. A `Moved` while awaiting
/// the opponent's move is applied locally. A `Rejected` abandons the
/// speculation and returns to awaiting the opponent. An `Accepted` or
/// `GameDone` while awaiting the verdict commits the pending move to the
/// real board (the scratch board is dropped either way); the committed
/// move's own king captures end the game.
pub open spec fn client_step_ok(pre: Game, msg: Message, post: Game) -> bool {
    &&& post.is_host == pre.is_host
    &&& post.selected_piece == pre.selected_piece
    &&& match msg {
        Message::Moved(m) => if pre.state is WaitMove {
            &&& post.scratch_board == pre.scratch_board
            &&& match validate_spec(pre.board@, m) {
                None => post.board@ == pre.board@ && post.send_queue@ == pre.send_queue@
                    && post.state is Move,
                Some(effs) => {
                    let out = run_effects(pre.board@, effs);
                    &&& post.board@ == out.0
                    &&& match end_check_spec(pre.is_host, out.1) {
                        None => post.send_queue@ == pre.send_queue@ && post.state is Move,
                        Some(e) => post.send_queue@ == pre.send_queue@.push(Message::GameDone())
                            && post.state == (if e is Victory {
                            State::Won
                        } else {
                            State::Lost
                        }),
                    }
                },
            }
        } else {
            post == pre
        },
        Message::Rejected() => post.board@ == pre.board@ && post.send_queue@ == pre.send_queue@
            && post.state is WaitMove && post.scratch_board is None,
        Message::Accepted() => match pre.state {
            State::WaitReply(m) => {
            &&& post.scratch_board is None
            &&& match validate_spec(pre.board@, m) {
                None => post.board@ == pre.board@ && post.send_queue@ == pre.send_queue@
                    && post.state is WaitMove,
                Some(effs) => {
                    let out = run_effects(pre.board@, effs);
                    &&& post.board@ == out.0
                    &&& match end_check_spec(pre.is_host, out.1) {
                        None => post.send_queue@ == pre.send_queue@ && post.state is WaitMove,
                        Some(e) => post.send_queue@ == pre.send_queue@.push(Message::GameDone())
                            && post.state == (if e is Victory {
                            State::Won
                        } else {
                            State::Lost
                        }),
                    }
                },
            }
            },
            _ => post == pre,
        },
        Message::GameDone() => match pre.state {
            State::WaitReply(m) => {
            &&& post.scratch_board is None
            &&& post.send_queue@ == pre.send_queue@
            &&& match validate_spec(pre.board@, m) {
                None => post.board@ == pre.board@ && post.state is WaitMove,
                Some(effs) => {
                    let out = run_effects(pre.board@, effs);
                    &&& post.board@ == out.0
                    &&& match end_check_spec(pre.is_host, out.1) {
                        None => post.state is WaitMove,
                        Some(e) => post.state == (if e is Victory {
                            State::Won
                        } else {
                            State::Lost
                        }),
                    }
                },
            }
            },
            _ => post == pre,
        },
    }
}

/// What lifting a piece at `pos` does: nothing off the board or on an empty
/// square; a piece of the local player's color is taken off the board into
/// the selection; a piece of the opponent stays put.
pub open spec fn select_step_ok(pre: Game, pos: BoardPos, post: Game) -> bool {
    &&& post.is_host == pre.is_host
    &&& post.scratch_board == pre.scratch_board
    &&& post.state == pre.state
    &&& post.send_queue == pre.send_queue
    &&& match cell_at(pre.board@, pos.row as int, pos.col as int) {
        None => post == pre,
        Some(c) => match c {
            ChessBoardCell::Empty => post.board@ == pre.board@ && post.selected_piece is None,
            ChessBoardCell::White(_) => if pre.is_host {
                post.board@ == pre.board@.update(idx_of(pos), ChessBoardCell::Empty)
                    && post.selected_piece == Some(Selection { piece: c, taken_from: pos })
            } else {
                post.board@ == pre.board@ && post.selected_piece is None
            },
            ChessBoardCell::Black(_) => if !pre.is_host {
                post.board@ == pre.board@.update(idx_of(pos), ChessBoardCell::Empty)
                    && post.selected_piece == Some(Selection { piece: c, taken_from: pos })
            } else {
                post.board@ == pre.board@ && post.selected_piece is None
            },
        },
    }
}

/// What dropping the selected piece on `pos` does. The piece first returns
/// to its origin square; the move is then validated — by the client against
/// its scratch board (created lazily as a copy of the real board), becoming
/// `MovePending` on success and silently abandoned on failure; by the host
/// against the real board, where a legal move is executed, announced with
/// `Moved` (plus `GameDone` when a king fell) and the turn handed over,
/// while an illegal one changes nothing further.
pub open spec fn place_step_ok(pre: Game, pos: BoardPos, post: Game) -> bool {
    &&& post.is_host == pre.is_host
    &&& match pre.selected_piece {
        None => post == pre,
        Some(s) => {
            let m = built_move(s.taken_from, pos);
            let b1 = pre.board@.update(idx_of(s.taken_from), s.piece);
            &&& post.selected_piece is None
            &&& if !pre.is_host {
                &&& post.board@ == b1
                &&& post.send_queue@ == pre.send_queue@
                &&& post.state == pre.state || post.state == State::MovePending(m)
                &&& {
                    let scratch0 = match pre.scratch_board {
                        Some(sb) => sb@,
                        None => b1,
                    };
                    match validate_spec(scratch0, m) {
                        None => post.scratch_board is None && post.state == pre.state,
                        Some(effs) => (post.scratch_board matches Some(nb) && nb@ == run_effects(
                            scratch0,
                            effs,
                        ).0) && post.state == State::MovePending(m),
                    }
                }
            } else {
                &&& post.scratch_board == pre.scratch_board
                &&& match validate_spec(b1, m) {
                    None => post.board@ == b1 && post.send_queue@ == pre.send_queue@ && post.state
                        == pre.state,
                    Some(effs) => {
                        let out = run_effects(b1, effs);
                        &&& post.board@ == out.0
                        &&& match end_check_spec(pre.is_host, out.1) {
                            None => post.send_queue@ == pre.send_queue@.push(Message::Moved(m))
                                && post.state is WaitMove,
                            Some(e) => post.send_queue@ == pre.send_queue@.push(
                                Message::Moved(m),
                            ).push(Message::GameDone()) && post.state == (if e is Victory {
                                State::Won
                            } else {
                                State::Lost
                            }),
                        }
                    },
                }
            }
        },
    }
}

impl Game {
    /// The boards are well-formed and any selection points at an on-board
    /// square.
    pub open spec fn wf(&self) -> bool {
        &&& self.board.wf()
        &&& (self.scratch_board matches Some(b) ==> b.wf())
        &&& (self.selected_piece matches Some(s) ==> pos_in_bounds(s.taken_from))
    }

    /// A fresh game on the full starting board. With arguments the peer
    /// goes straight to connecting in the given role; without, to the
    /// connection-setup screen. The host flag starts true and flips only
    /// when a client connection completes.
    pub fn init(run_args: Option<&RunArgs>) -> (r: Game)
        ensures
            r.wf(),
            r.board@ == initial_board(),
            r.scratch_board is None,
            r.selected_piece is None,
            r.is_host,
            r.send_queue@ == Seq::<Message>::empty(),
            r.state == (match run_args {
                Some(ra) => if ra.is_host {
                    State::ConnectingHost
                } else {
                    State::ConnectingClient
                },
                None => State::SetupConnection,
            }),
    {
        let state = match run_args {
            Some(ra) => if ra.is_host {
                State::ConnectingHost
            } else {
                State::ConnectingClient
            },
            None => State::SetupConnection,
        };
        Game {
            board: ChessBoard::new_full(),
            scratch_board: None,
            selected_piece: None,
            is_host: true,
            state,
            send_queue: VecDeque::new(),
        }
    }

    /// The connection completed its handshake: a connecting client becomes
    /// the non-host side and awaits the host's move, a connecting host gets
    /// the first move. In any other state nothing changes.
    pub fn connection_ready(&mut self)
        ensures
            old(self).state is ConnectingClient ==> *final(self) == (Game {
                is_host: false,
                state: State::WaitMove,
                ..*old(self)
            }),
            old(self).state is ConnectingHost ==> *final(self) == (Game {
                state: State::Move,
                ..*old(self)
            }),
            !(old(self).state is ConnectingClient) && !(old(self).state is ConnectingHost)
                ==> *final(self) == *old(self),
    {
        match self.state {
            State::ConnectingClient => {
                self.is_host = false;
                self.state = State::WaitMove;
            },
            State::ConnectingHost => {
                self.state = State::Move;
            },
            _ => {},
        }
    }

    /// Hands a pending move to the send queue once a connection exists: the
    /// host then awaits the opponent, the client awaits the verdict.
    pub fn pump_pending(&mut self, connected: bool)
        ensures
            connected ==> match old(self).state {
                State::MovePending(m) => {
                    &&& final(self).send_queue@ == old(self).send_queue@.push(Message::Moved(m))
                    &&& final(self).state == (if old(self).is_host {
                        State::WaitMove
                    } else {
                        State::WaitReply(m)
                    })
                    &&& final(self).board == old(self).board
                    &&& final(self).scratch_board == old(self).scratch_board
                    &&& final(self).selected_piece == old(self).selected_piece
                    &&& final(self).is_host == old(self).is_host
                },
                _ => *final(self) == *old(self),
            },
            !connected ==> *final(self) == *old(self),
    {
        match self.state {
            State::MovePending(m) => {
                if connected {
                    self.send_queue.push_back(Message::Moved(m));
                    self.state = if self.is_host {
                        State::WaitMove
                    } else {
                        State::WaitReply(m)
                    };
                }
            },
            _ => {},
        }
    }

    /// Applies `m` to the real board and reports the end-of-game verdict it
    /// caused, if any: `None` both for an illegal move and for a legal one
    /// that deleted no king.
    pub fn statefull_move_piece(&mut self, m: BoardMove) -> (r: Option<State>)
        requires
            old(self).wf(),
        ensures
            final(self).wf(),
            final(self).scratch_board == old(self).scratch_board,
            final(self).selected_piece == old(self).selected_piece,
            final(self).is_host == old(self).is_host,
            final(self).state == old(self).state,
            final(self).send_queue == old(self).send_queue,
            validate_spec(old(self).board@, m) is None ==> r is None && final(self).board@ == old(
                self,
            ).board@,
            validate_spec(old(self).board@, m) matches Some(effs) ==> final(self).board@
                == run_effects(old(self).board@, effs).0 && r == (match end_check_spec(
                old(self).is_host,
                run_effects(old(self).board@, effs).1,
            ) {
                Some(EndCheck::Victory) => Some(State::Won),
                Some(EndCheck::Loss) => Some(State::Lost),
                None => None::<State>,
            }),
    {
        if let Some(res) = self.board.move_piece(m) {
            match is_lost_or_won(self.is_host, &res.pieces_deleted) {
                Some(EndCheck::Victory) => Some(State::Won),
                Some(EndCheck::Loss) => Some(State::Lost),
                None => None,
            }
        } else {
            None
        }
    }

    /// Dispatches an incoming message to the transition table of this
    /// peer's role.
    pub fn handle_message(&mut self, msg: Message)
        requires
            old(self).wf(),
        ensures
            final(self).wf(),
            old(self).is_host ==> host_step_ok(*old(self), msg, *final(self)),
            !old(self).is_host ==> client_step_ok(*old(self), msg, *final(self)),
    {
        if self.is_host {
            self.handle_message_host(msg);
        } else {
            self.handle_message_client(msg);
        }
    }

    /// The host's transition table; see `host_step_ok`.
    pub fn handle_message_host(&mut self, msg: Message)
        requires
            old(self).wf(),
        ensures
            final(self).wf(),
            host_step_ok(*old(self), msg, *final(self)),
    {
        match msg {
            Message::Moved(m) => {
                if matches!(self.state, State::WaitMove) {
                    match self.board.move_piece(m) {
                        Some(res) => {
                            self.send_queue.push_back(Message::Accepted());
                            match is_lost_or_won(self.is_host, &res.pieces_deleted) {
                                Some(EndCheck::Victory) => {
                                    self.send_queue.push_back(Message::GameDone());
                                    self.state = State::Won;
                                },
                                Some(EndCheck::Loss) => {
                                    self.send_queue.push_back(Message::GameDone());
                                    self.state = State::Lost;
                                },
                                None => {
                                    self.state = State::Move;
                                },
                            }
                        },
                        None => {
                            self.send_queue.push_back(Message::Rejected());
                            self.state = State::Move;
                        },
                    }
                } else {
                    self.send_queue.push_back(Message::Rejected());
                    self.state = State::Move;
                }
            },
            _ => {},
        }
    }

    /// The client's transition table; see `client_step_ok`.
    pub fn handle_message_client(&mut self, msg: Message)
        requires
            old(self).wf(),
        ensures
            final(self).wf(),
            client_step_ok(*old(self), msg, *final(self)),
    {
        match msg {
            Message::Moved(m) => {
                if matches!(self.state, State::WaitMove) {
                    match self.statefull_move_piece(m) {
                        Some(end) => {
                            self.send_queue.push_back(Message::GameDone());
                            self.state = end;
                        },
                        None => {
                            self.state = State::Move;
                        },
                    }
                }
            },
            Message::Rejected() => {
                self.scratch_board = None;
                self.state = State::WaitMove;
            },
            Message::Accepted() => {
                let pending = match self.state {
                    State::WaitReply(m) => Some(m),
                    _ => None,
                };
                if let Some(m) = pending {
                    self.scratch_board = None;
                    match self.statefull_move_piece(m) {
                        Some(end) => {
                            self.send_queue.push_back(Message::GameDone());
                            self.state = end;
                        },
                        None => {
                            self.state = State::WaitMove;
                        },
                    }
                }
            },
            Message::GameDone() => {
                let pending = match self.state {
                    State::WaitReply(m) => Some(m),
                    _ => None,
                };
                if let Some(m) = pending {
                    self.scratch_board = None;
                    match self.statefull_move_piece(m) {
                        Some(end) => {
                            self.state = end;
                        },
                        None => {
                            self.state = State::WaitMove;
                        },
                    }
                }
            },
        }
    }

    /// Lifts the piece at `pos` into the selection; see `select_step_ok`.
    /// Selecting while something is already selected is the caller's error.
    pub fn handle_select(&mut self, pos: BoardPos)
        requires
            old(self).wf(),
            old(self).selected_piece is None,
        ensures
            final(self).wf(),
            select_step_ok(*old(self), pos, *final(self)),
    {
        let cell = match self.board.at(pos) {
            Some(c) => c,
            None => {
                return ;
            },
        };
        match cell {
            ChessBoardCell::Empty => {
                self.selected_piece = None;
            },
            ChessBoardCell::White(_) => {
                if self.is_host {
                    let taken = self.board.take_from(pos).unwrap();
                    self.selected_piece = Some(Selection { piece: taken, taken_from: pos });
                } else {
                    self.selected_piece = None;
                }
            },
            ChessBoardCell::Black(_) => {
                if !self.is_host {
                    let taken = self.board.take_from(pos).unwrap();
                    self.selected_piece = Some(Selection { piece: taken, taken_from: pos });
                } else {
                    self.selected_piece = None;
                }
            },
        }
    }

    /// Drops the selected piece on `pos`; see `place_step_ok`.
    pub fn handle_place(&mut self, pos: BoardPos)
        requires
            old(self).wf(),
            pos.row <= isize::MAX,
            pos.col <= isize::MAX,
        ensures
            final(self).wf(),
            place_step_ok(*old(self), pos, *final(self)),
    {
        let s = match self.selected_piece {
            Some(s) => s,
            None => {
                return ;
            },
        };
        self.selected_piece = None;
        let m = MoveBuilder::new().from(s.taken_from).to(pos).build();
        proof {
            assert(m == built_move(s.taken_from, pos));
        }
        // put the piece back on its origin square before deciding anything
        self.board.place_at(s.taken_from, s.piece).unwrap();
        if !self.is_host {
            // speculate on the scratch copy only
            let mut taken: Option<ChessBoard> = None;
            core::mem::swap(&mut taken, &mut self.scratch_board);
            let mut scratch: ChessBoard = match taken {
                Some(b) => b,
                None => self.board.clone(),
            };
            if scratch.move_piece(m).is_some() {
                self.scratch_board = Some(scratch);
                self.state = State::MovePending(m);
            } else {
                self.scratch_board = None;
            }
        } else {
            if let Some(result) = self.board.move_piece(m) {
                self.send_queue.push_back(Message::Moved(m));
                match is_lost_or_won(self.is_host, &result.pieces_deleted) {
                    Some(EndCheck::Victory) => {
                        self.send_queue.push_back(Message::GameDone());
                        self.state = State::Won;
                    },
                    Some(EndCheck::Loss) => {
                        self.send_queue.push_back(Message::GameDone());
                        self.state = State::Lost;
                    },
                    None => {
                        self.state = State::WaitMove;
                    },
                }
            }
        }
    }

    /// Hook for connection-layer notifications; the orchestrator currently
    /// reacts to none of them.
    pub fn on_network_event(&mut self, _ev: NetworkEvent)
        ensures
            *final(self) == *old(self),
    {
    }
}

} // verus!
