use pawn_hearts::board::{BoardMove, BoardPos, ChessBoard, ChessBoardCell, ChessPiece, LongStart};
use pawn_hearts::codec::{decode_message, encode_message, Message};
use pawn_hearts::game::{is_lost_or_won, EndCheck, Game, RunArgs, Selection, State};

fn pos(row: usize, col: usize) -> BoardPos {
    BoardPos { row, col }
}

fn mv(from: (usize, usize), to: (usize, usize)) -> BoardMove {
    BoardMove::new(pos(from.0, from.1), pos(to.0, to.1))
}

#[test]
fn init_states() {
    let host = Game::init(Some(&RunArgs { address: String::from("127.0.0.1:4444"), is_host: true }));
    assert_eq!(host.state, State::ConnectingHost);
    assert!(host.is_host);
    let client = Game::init(Some(&RunArgs { address: String::from("127.0.0.1:4444"), is_host: false }));
    assert_eq!(client.state, State::ConnectingClient);
    let menu = Game::init(None);
    assert_eq!(menu.state, State::SetupConnection);
    assert_eq!(menu.board.cells().len(), 64);
}

#[test]
fn connection_ready_assigns_roles() {
    let mut host = Game::init(Some(&RunArgs { address: String::new(), is_host: true }));
    host.connection_ready();
    assert_eq!(host.state, State::Move);
    assert!(host.is_host);

    let mut client = Game::init(Some(&RunArgs { address: String::new(), is_host: false }));
    client.connection_ready();
    assert_eq!(client.state, State::WaitMove);
    assert!(!client.is_host);
}

#[test]
fn win_check_first_king_decides() {
    let none: Vec<ChessBoardCell> = vec![
        ChessBoardCell::Black(ChessPiece::Queen),
        ChessBoardCell::White(ChessPiece::Pawn(LongStart::After)),
    ];
    assert_eq!(is_lost_or_won(true, &none), None);
    assert_eq!(is_lost_or_won(false, &none), None);

    let black_king = vec![
        ChessBoardCell::Black(ChessPiece::Queen),
        ChessBoardCell::Black(ChessPiece::King(false)),
    ];
    assert_eq!(is_lost_or_won(true, &black_king), Some(EndCheck::Victory));
    assert_eq!(is_lost_or_won(false, &black_king), Some(EndCheck::Loss));

    let white_king = vec![ChessBoardCell::White(ChessPiece::King(true))];
    assert_eq!(is_lost_or_won(true, &white_king), Some(EndCheck::Loss));
    assert_eq!(is_lost_or_won(false, &white_king), Some(EndCheck::Victory));
}

#[test]
fn select_and_place_as_host() {
    let mut g = Game::init(Some(&RunArgs { address: String::new(), is_host: true }));
    g.connection_ready();
    // selecting the opponent's piece does nothing
    g.handle_select(pos(1, 0));
    assert!(g.selected_piece.is_none());
    // selecting an own pawn lifts it off the board
    g.handle_select(pos(6, 4));
    assert_eq!(
        g.selected_piece,
        Some(Selection {
            piece: ChessBoardCell::White(ChessPiece::Pawn(LongStart::Before)),
            taken_from: pos(6, 4)
        })
    );
    assert_eq!(g.board.at(pos(6, 4)).unwrap(), ChessBoardCell::Empty);
    // dropping it two squares ahead executes the move and hands the turn over
    g.handle_place(pos(4, 4));
    assert!(g.selected_piece.is_none());
    assert_eq!(g.state, State::WaitMove);
    assert_eq!(
        g.board.at(pos(4, 4)).unwrap(),
        ChessBoardCell::White(ChessPiece::Pawn(LongStart::RightNow))
    );
    let queued: Vec<Message> = g.send_queue.iter().copied().collect();
    assert_eq!(queued, vec![Message::Moved(mv((6, 4), (4, 4)))]);
}

#[test]
fn place_illegal_move_returns_piece() {
    let mut g = Game::init(Some(&RunArgs { address: String::new(), is_host: true }));
    g.connection_ready();
    g.handle_select(pos(6, 4));
    let before = g.board.cells().clone();
    g.handle_place(pos(2, 4)); // three squares ahead: illegal
    assert!(g.selected_piece.is_none());
    assert_eq!(g.state, State::Move);
    assert!(g.send_queue.is_empty());
    let mut expected = before.clone();
    expected[6 * 8 + 4] = ChessBoardCell::White(ChessPiece::Pawn(LongStart::Before));
    assert_eq!(*g.board.cells(), expected);
}

#[test]
fn client_speculates_on_scratch_board() {
    let mut g = Game::init(Some(&RunArgs { address: String::new(), is_host: false }));
    g.connection_ready();
    g.state = State::Move; // the host's first move has been played out of band
    g.handle_select(pos(1, 4));
    g.handle_place(pos(3, 4));
    // the speculative move lives only on the scratch board
    assert_eq!(g.state, State::MovePending(mv((1, 4), (3, 4))));
    assert_eq!(
        g.board.at(pos(1, 4)).unwrap(),
        ChessBoardCell::Black(ChessPiece::Pawn(LongStart::Before))
    );
    let scratch = g.scratch_board.as_ref().unwrap();
    assert_eq!(scratch.at(pos(1, 4)).unwrap(), ChessBoardCell::Empty);
    assert_eq!(
        scratch.at(pos(3, 4)).unwrap(),
        ChessBoardCell::Black(ChessPiece::Pawn(LongStart::RightNow))
    );
    assert!(g.send_queue.is_empty());

    // pumping the pending move queues it and awaits the verdict
    g.pump_pending(true);
    assert_eq!(g.state, State::WaitReply(mv((1, 4), (3, 4))));
    let queued: Vec<Message> = g.send_queue.iter().copied().collect();
    assert_eq!(queued, vec![Message::Moved(mv((1, 4), (3, 4)))]);
}

#[test]
fn client_failed_speculation_stays_silent() {
    let mut g = Game::init(Some(&RunArgs { address: String::new(), is_host: false }));
    g.connection_ready();
    g.state = State::Move;
    g.handle_select(pos(1, 4));
    g.handle_place(pos(5, 4)); // four squares: illegal
    assert_eq!(g.state, State::Move);
    assert!(g.scratch_board.is_none());
    assert!(g.send_queue.is_empty());
    assert_eq!(
        g.board.at(pos(1, 4)).unwrap(),
        ChessBoardCell::Black(ChessPiece::Pawn(LongStart::Before))
    );
}

#[test]
fn client_rejected_reply_abandons_speculation() {
    let mut g = Game::init(Some(&RunArgs { address: String::new(), is_host: false }));
    g.connection_ready();
    g.state = State::Move;
    g.handle_select(pos(1, 4));
    g.handle_place(pos(3, 4));
    g.pump_pending(true);
    let before = g.board.cells().clone();
    g.handle_message(Message::Rejected());
    assert_eq!(g.state, State::WaitMove);
    assert!(g.scratch_board.is_none());
    assert_eq!(*g.board.cells(), before);
}

#[test]
fn host_rejects_illegal_remote_move() {
    let mut g = Game::init(Some(&RunArgs { address: String::new(), is_host: true }));
    g.connection_ready();
    g.state = State::WaitMove;
    let before = g.board.cells().clone();
    g.handle_message(Message::Moved(mv((1, 0), (5, 0))));
    assert_eq!(g.state, State::Move);
    assert_eq!(*g.board.cells(), before);
    let queued: Vec<Message> = g.send_queue.iter().copied().collect();
    assert_eq!(queued, vec![Message::Rejected()]);
}

#[test]
fn full_move_cycle_keeps_boards_convergent() {
    // host and client, wired through the real codec
    let mut host = Game::init(Some(&RunArgs { address: String::new(), is_host: true }));
    host.connection_ready();
    host.state = State::WaitMove; // the host waits for the client's move
    let mut client = Game::init(Some(&RunArgs { address: String::new(), is_host: false }));
    client.connection_ready();
    client.state = State::Move;

    // the client speculatively advances a pawn
    client.handle_select(pos(1, 4));
    client.handle_place(pos(3, 4));
    client.pump_pending(true);
    assert_eq!(client.state, State::WaitReply(mv((1, 4), (3, 4))));

    // its Moved message travels to the host as bytes
    let outbound = client.send_queue.pop_front().unwrap();
    let wire = encode_message(&outbound);
    let (at_host, _) = decode_message(&wire).unwrap();
    host.handle_message(at_host);
    assert_eq!(host.state, State::Move);

    // the host's Accepted travels back
    let verdict = host.send_queue.pop_front().unwrap();
    assert_eq!(verdict, Message::Accepted());
    let wire = encode_message(&verdict);
    let (at_client, _) = decode_message(&wire).unwrap();
    client.handle_message(at_client);
    assert_eq!(client.state, State::WaitMove);
    assert!(client.scratch_board.is_none());

    // both boards ended identical
    assert_eq!(host.board.cells(), client.board.cells());
    assert_eq!(
        host.board.at(pos(3, 4)).unwrap(),
        ChessBoardCell::Black(ChessPiece::Pawn(LongStart::RightNow))
    );
}

#[test]
fn king_capture_ends_the_game() {
    // a host whose queen can take the black king directly
    let mut g = Game::init(Some(&RunArgs { address: String::new(), is_host: true }));
    g.connection_ready();
    g.board = ChessBoard::new_empty();
    g.board.place_at(pos(4, 4), ChessBoardCell::White(ChessPiece::Queen)).unwrap();
    g.board.place_at(pos(4, 7), ChessBoardCell::Black(ChessPiece::King(false))).unwrap();
    g.handle_select(pos(4, 4));
    g.handle_place(pos(4, 7));
    assert_eq!(g.state, State::Won);
    let queued: Vec<Message> = g.send_queue.iter().copied().collect();
    assert_eq!(
        queued,
        vec![Message::Moved(mv((4, 4), (4, 7))), Message::GameDone()]
    );

    // the same capture seen from the other side is a loss
    let mut c = Game::init(Some(&RunArgs { address: String::new(), is_host: false }));
    c.connection_ready();
    c.board = ChessBoard::new_empty();
    c.board.place_at(pos(4, 4), ChessBoardCell::White(ChessPiece::Queen)).unwrap();
    c.board.place_at(pos(4, 7), ChessBoardCell::Black(ChessPiece::King(false))).unwrap();
    c.state = State::WaitMove;
    c.handle_message(Message::Moved(mv((4, 4), (4, 7))));
    assert_eq!(c.state, State::Lost);
}

#[test]
fn host_statefull_move_reports_verdict() {
    let mut g = Game::init(Some(&RunArgs { address: String::new(), is_host: true }));
    g.connection_ready();
    g.board = ChessBoard::new_empty();
    g.board.place_at(pos(0, 0), ChessBoardCell::Black(ChessPiece::Rook)).unwrap();
    g.board.place_at(pos(0, 5), ChessBoardCell::White(ChessPiece::King(true))).unwrap();
    let r = g.statefull_move_piece(mv((0, 0), (0, 5)));
    assert_eq!(r, Some(State::Lost));
    let r2 = g.statefull_move_piece(mv((0, 5), (0, 6)));
    assert_eq!(r2, None);
}

#[test]
fn client_game_done_commits_winning_move() {
    // the client's pending move captures the white king; the host answers
    // GameDone and the client ends in Won
    let mut c = Game::init(Some(&RunArgs { address: String::new(), is_host: false }));
    c.connection_ready();
    c.board = ChessBoard::new_empty();
    c.board.place_at(pos(0, 0), ChessBoardCell::Black(ChessPiece::Rook)).unwrap();
    c.board.place_at(pos(0, 5), ChessBoardCell::White(ChessPiece::King(true))).unwrap();
    c.scratch_board = Some(c.board.clone());
    c.state = State::WaitReply(mv((0, 0), (0, 5)));
    c.handle_message(Message::GameDone());
    assert_eq!(c.state, State::Won);
    assert!(c.scratch_board.is_none());
    assert_eq!(c.board.at(pos(0, 5)).unwrap(), ChessBoardCell::Black(ChessPiece::Rook));
    // GameDone in WaitReply answers nothing back
    assert!(c.send_queue.is_empty());
}

#[test]
fn stray_messages_are_ignored() {
    let mut host = Game::init(Some(&RunArgs { address: String::new(), is_host: true }));
    host.connection_ready();
    let before = host.board.cells().clone();
    host.handle_message(Message::Accepted());
    host.handle_message(Message::GameDone());
    assert_eq!(host.state, State::Move);
    assert!(host.send_queue.is_empty());
    assert_eq!(*host.board.cells(), before);

    let mut client = Game::init(Some(&RunArgs { address: String::new(), is_host: false }));
    client.connection_ready();
    // Accepted without a pending move changes nothing
    client.handle_message(Message::Accepted());
    assert_eq!(client.state, State::WaitMove);
}

#[test]
fn pump_without_connection_keeps_pending() {
    let mut g = Game::init(Some(&RunArgs { address: String::new(), is_host: false }));
    g.connection_ready();
    g.state = State::Move;
    g.handle_select(pos(1, 4));
    g.handle_place(pos(3, 4));
    g.pump_pending(false);
    assert_eq!(g.state, State::MovePending(mv((1, 4), (3, 4))));
    assert!(g.send_queue.is_empty());
}
