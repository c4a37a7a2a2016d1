//! The game engine: state model, per-square legality checks, action
//! enumeration, state transition, and terminal-state detection.

use vstd::prelude::*;

use crate::board::Board;
use crate::board::cells;

verus! {

/// The two sides of the game.
#[derive(Clone, Copy, PartialEq, Eq, Structural, Debug)]
pub enum Player {
    Max,
    Min,
}

impl Player {
    /// The board-cell marker of this player: `+1` for `Max`, `-1` for `Min`.
    pub open spec fn spec_value(self) -> i8 {
        match self {
            Player::Max => 1i8,
            Player::Min => -1i8,
        }
    }

    /// The opposing player.
    pub open spec fn spec_next(self) -> Player {
        match self {
            Player::Max => Player::Min,
            Player::Min => Player::Max,
        }
    }

    /// Returns the other player.
    pub fn next(&self) -> (p: Player)
        ensures
            p == self.spec_next(),
    {
        match *self {
            Player::Max => Player::Min,
            Player::Min => Player::Max,
        }
    }

    /// Returns this player's board-cell marker.
    pub fn value(&self) -> (v: i8)
        ensures
            v == self.spec_value(),
    {
        match *self {
            Player::Max => 1,
            Player::Min => -1,
        }
    }
}

/// Switching sides is an involution: doing it twice returns the original
/// player.
pub proof fn lemma_next_involution(p: Player)
    ensures
        p.spec_next().spec_next() == p,
{
}

/// All possible action kinds.
#[derive(Clone, Copy, PartialEq, Eq, Structural, Debug)]
pub enum Action {
    Advance,
    CaptureLeft,
    CaptureRight,
}

/// Row and column index values within the game grid.
#[derive(Clone, Copy, PartialEq, Eq, Structural, Debug)]
pub struct Location {
    pub m: usize,
    pub n: usize,
}

impl Location {
    /// Both coordinates lie within the 3x3 grid.
    pub open spec fn spec_in_bounds(self) -> bool {
        self.m < 3 && self.n < 3
    }

    /// Returns whether both coordinates lie within the 3x3 grid.
    pub fn is_in_bounds(&self) -> (r: bool)
        ensures
            r == self.spec_in_bounds(),
    {
        self.m < 3 && self.n < 3
    }
}

/// An action kind together with the source square of the piece performing
/// it; the destination is derived from the kind and the active player.
#[derive(Clone, Copy, PartialEq, Eq, Structural, Debug)]
pub struct PlayerAction {
    pub action: Action,
    pub src: Location,
}

/// The active player together with the piece placement.
///
/// Immutable: every transition returns a fresh `GameState` and leaves its
/// input untouched (all engine operations take `&self`).
pub struct GameState {
    pub player: Player,
    pub board: Board,
}

/// The row one step forward of row `m` for player `p`: `Max` moves toward
/// row 2, `Min` toward row 0.
pub open spec fn forward_row(p: Player, m: int) -> int {
    match p {
        Player::Max => m + 1,
        Player::Min => m - 1,
    }
}

/// A cell value is one of the three allowed markers: `+1` (Max piece),
/// `-1` (Min piece), `0` (empty).
pub open spec fn marker_ok(v: i8) -> bool {
    v == 1i8 || v == 0i8 || v == -1i8
}

/// Every cell of the sequence holds an allowed marker.
pub open spec fn all_markers(c: Seq<i8>) -> bool {
    forall|i: int| 0 <= i < c.len() ==> marker_ok(#[trigger] c[i])
}

/// The number of occupied (non-empty) cells in a cell sequence.
pub open spec fn count_pieces(c: Seq<i8>) -> int
    decreases c.len(),
{
    if c.len() == 0 {
        0
    } else {
        count_pieces(c.drop_last()) + if c.last() == 0i8 {
            0int
        } else {
            1int
        }
    }
}

/// The cell sequence after moving the piece at (`sm`, `sn`) to
/// (`dm`, `dn`): the destination takes the source's marker (overwriting,
/// and thus removing, whatever was there) and the source becomes empty.
pub open spec fn moved_cells(c: Seq<i8>, sm: int, sn: int, dm: int, dn: int) -> Seq<i8> {
    c.update(3 * dm + dn, c[3 * sm + sn]).update(3 * sm + sn, 0i8)
}

/// Updating one in-range cell changes the piece count exactly by the
/// difference between the occupancy of the new and the old value.
proof fn lemma_count_pieces_update(c: Seq<i8>, i: int, v: i8)
    requires
        0 <= i < c.len(),
    ensures
        count_pieces(c.update(i, v)) == count_pieces(c) - (if c[i] == 0i8 {
            0int
        } else {
            1int
        }) + (if v == 0i8 {
            0int
        } else {
            1int
        }),
    decreases c.len(),
{
    let cu = c.update(i, v);
    if i == c.len() - 1 {
        assert(cu.drop_last() =~= c.drop_last());
    } else {
        assert(cu.drop_last() =~= c.drop_last().update(i, v));
        lemma_count_pieces_update(c.drop_last(), i, v);
        assert(cu.last() == c.last());
    }
}

/// Moving a piece between two squares in different rows empties the
/// source, so the piece count drops exactly by the occupancy of the
/// overwritten destination cell; allowed markers stay allowed.
proof fn lemma_moved_cells_effect(c: Seq<i8>, sm: int, sn: int, dm: int, dn: int)
    requires
        c.len() == 9,
        0 <= sm < 3,
        0 <= sn < 3,
        0 <= dm < 3,
        0 <= dn < 3,
        sm != dm,
    ensures
        moved_cells(c, sm, sn, dm, dn).len() == 9,
        count_pieces(moved_cells(c, sm, sn, dm, dn)) == count_pieces(c) - (if c[3 * dm + dn]
            == 0i8 {
            0int
        } else {
            1int
        }),
        all_markers(c) ==> all_markers(moved_cells(c, sm, sn, dm, dn)),
{
    let si = 3 * sm + sn;
    let di = 3 * dm + dn;
    assert(si != di);
    let c1 = c.update(di, c[si]);
    lemma_count_pieces_update(c, di, c[si]);
    lemma_count_pieces_update(c1, si, 0i8);
    assert(c1[si] == c[si]);
    if all_markers(c) {
        let moved = moved_cells(c, sm, sn, dm, dn);
        assert(marker_ok(c[si]));
        assert forall|i: int| 0 <= i < moved.len() implies marker_ok(#[trigger] moved[i]) by {
            if i != si && i != di {
                assert(moved[i] == c[i]);
            }
        }
    }
}

impl GameState {
    /// The marker at row `m`, column `n` of this state's board.
    pub open spec fn cell(self, m: int, n: int) -> i8 {
        cells(self.board)[3 * m + n]
    }

    /// Well-formedness: the board holds exactly 9 cells, each one of the
    /// three allowed markers.
    pub open spec fn wf(self) -> bool {
        &&& cells(self.board).len() == 9
        &&& all_markers(cells(self.board))
    }

    /// A piece at `src` owned by the active player may advance: the square
    /// one row forward, same column, is on the board and empty.
    pub open spec fn spec_check_advance(self, src: Location) -> bool {
        let dm = forward_row(self.player, src.m as int);
        &&& 0 <= dm < 3
        &&& self.cell(dm, src.n as int) == 0i8
    }

    /// A piece at `src` owned by the active player may capture to the
    /// left: the square one row forward, one column toward index 0, is on
    /// the board and holds the opposing player's marker.
    pub open spec fn spec_check_capture_left(self, src: Location) -> bool {
        let dm = forward_row(self.player, src.m as int);
        &&& 0 <= dm < 3
        &&& src.n >= 1
        &&& self.cell(dm, src.n - 1) == self.player.spec_next().spec_value()
    }

    /// A piece at `src` owned by the active player may capture to the
    /// right: the square one row forward, one column toward index 2, is on
    /// the board and holds the opposing player's marker.
    pub open spec fn spec_check_capture_right(self, src: Location) -> bool {
        let dm = forward_row(self.player, src.m as int);
        &&& 0 <= dm < 3
        &&& src.n + 1 < 3
        &&& self.cell(dm, src.n + 1) == self.player.spec_next().spec_value()
    }
}

impl Location {
    /// Returns whether the piece assumed to be at this square, owned by the
    /// state's active player, may advance one row forward into an empty
    /// square. The square itself is not checked for occupancy.
    pub fn check_advance(&self, s: &GameState) -> (r: bool)
        requires
            self.spec_in_bounds(),
        ensures
            r == s.spec_check_advance(*self),
    {
        match s.player {
            Player::Max => {
                if self.m == 2 {
                    false
                } else {
                    s.board.get(self.m + 1, self.n) == 0
                }
            },
            Player::Min => {
                if self.m == 0 {
                    false
                } else {
                    s.board.get(self.m - 1, self.n) == 0
                }
            },
        }
    }

    /// Returns whether the piece assumed to be at this square, owned by the
    /// state's active player, may capture the opposing piece one row
    /// forward and one column toward index 0.
    pub fn check_capture_left(&self, s: &GameState) -> (r: bool)
        requires
            self.spec_in_bounds(),
        ensures
            r == s.spec_check_capture_left(*self),
    {
        match s.player {
            Player::Max => {
                if self.m == 2 || self.n == 0 {
                    false
                } else {
                    s.board.get(self.m + 1, self.n - 1) == -1
                }
            },
            Player::Min => {
                if self.m == 0 || self.n == 0 {
                    false
                } else {
                    s.board.get(self.m - 1, self.n - 1) == 1
                }
            },
        }
    }

    /// Returns whether the piece assumed to be at this square, owned by the
    /// state's active player, may capture the opposing piece one row
    /// forward and one column toward index 2.
    pub fn check_capture_right(&self, s: &GameState) -> (r: bool)
        requires
            self.spec_in_bounds(),
        ensures
            r == s.spec_check_capture_right(*self),
    {
        match s.player {
            Player::Max => {
                if self.m == 2 || self.n == 2 {
                    false
                } else {
                    s.board.get(self.m + 1, self.n + 1) == -1
                }
            },
            Player::Min => {
                if self.m == 0 || self.n == 2 {
                    false
                } else {
                    s.board.get(self.m - 1, self.n + 1) == 1
                }
            },
        }
    }
}

/// The starting placement: three Max pieces on row 0, three Min pieces on
/// row 2, row 1 empty, in row-major order.
pub open spec fn initial_cells() -> Seq<i8> {
    seq![1i8, 1i8, 1i8, 0i8, 0i8, 0i8, -1i8, -1i8, -1i8]
}

impl GameState {
    /// Returns the fixed starting position: Max to move, Max's pieces on
    /// row 0, Min's on row 2, row 1 empty.
    pub fn new_game() -> (s: GameState)
        ensures
            s.player == Player::Max,
            cells(s.board) == initial_cells(),
            s.wf(),
    {
        let b = Board::from_cells(1, 1, 1, 0, 0, 0, -1, -1, -1);
        proof {
            assert(cells(b) =~= initial_cells());
        }
        GameState { player: Player::Max, board: b }
    }

    /// Returns a state with the turn passed to the other player and the
    /// piece originating at `src` moved to `dst`; `src` becomes empty.
    ///
    /// This single primitive implements advance and both captures
    /// uniformly: in the capture case the destination's occupant is
    /// overwritten and thus removed.
    fn update(&self, dst: Location, src: Location) -> (s: GameState)
        requires
            dst.spec_in_bounds(),
            src.spec_in_bounds(),
        ensures
            s.player == self.player.spec_next(),
            cells(s.board) == moved_cells(
                cells(self.board),
                src.m as int,
                src.n as int,
                dst.m as int,
                dst.n as int,
            ),
    {
        let p = self.player.next();
        let mut b = self.board.duplicate();
        let moved = self.board.get(src.m, src.n);
        b.set(dst.m, dst.n, moved);
        b.set(src.m, src.n, 0);
        GameState { player: p, board: b }
    }

    /// Returns the state where the piece at `src` has been advanced one
    /// row forward for the active player, and the turn has passed.
    ///
    /// Legality is not re-validated here: the caller must have confirmed
    /// it via `check_advance` first. The piece count is unchanged.
    pub fn advance(&self, src: Location) -> (s: GameState)
        requires
            self.wf(),
            src.spec_in_bounds(),
            self.spec_check_advance(src),
        ensures
            s.player == self.player.spec_next(),
            cells(s.board) == moved_cells(
                cells(self.board),
                src.m as int,
                src.n as int,
                forward_row(self.player, src.m as int),
                src.n as int,
            ),
            count_pieces(cells(s.board)) == count_pieces(cells(self.board)),
            s.wf(),
    {
        let new_m: usize = match self.player {
            Player::Max => src.m + 1,
            Player::Min => src.m - 1,
        };
        let dst = Location { m: new_m, n: src.n };
        let s = self.update(dst, src);
        proof {
            lemma_moved_cells_effect(
                cells(self.board),
                src.m as int,
                src.n as int,
                dst.m as int,
                dst.n as int,
            );
        }
        s
    }

    /// Returns the state where the piece at `src` has captured the
    /// opposing piece one row forward, one column toward index 0, and the
    /// turn has passed.
    ///
    /// Legality is not re-validated here: the caller must have confirmed
    /// it via `check_capture_left` first. The piece count drops by one.
    pub fn capture_left(&self, src: Location) -> (s: GameState)
        requires
            self.wf(),
            src.spec_in_bounds(),
            self.spec_check_capture_left(src),
        ensures
            s.player == self.player.spec_next(),
            cells(s.board) == moved_cells(
                cells(self.board),
                src.m as int,
                src.n as int,
                forward_row(self.player, src.m as int),
                src.n as int - 1,
            ),
            count_pieces(cells(s.board)) == count_pieces(cells(self.board)) - 1,
            s.wf(),
    {
        let new_m: usize = match self.player {
            Player::Max => src.m + 1,
            Player::Min => src.m - 1,
        };
        let new_n: usize = src.n - 1;
        let dst = Location { m: new_m, n: new_n };
        let s = self.update(dst, src);
        proof {
            lemma_moved_cells_effect(
                cells(self.board),
                src.m as int,
                src.n as int,
                dst.m as int,
                dst.n as int,
            );
        }
        s
    }

    /// Returns the state where the piece at `src` has captured the
    /// opposing piece one row forward, one column toward index 2, and the
    /// turn has passed.
    ///
    /// Legality is not re-validated here: the caller must have confirmed
    /// it via `check_capture_right` first. The piece count drops by one.
    pub fn capture_right(&self, src: Location) -> (s: GameState)
        requires
            self.wf(),
            src.spec_in_bounds(),
            self.spec_check_capture_right(src),
        ensures
            s.player == self.player.spec_next(),
            cells(s.board) == moved_cells(
                cells(self.board),
                src.m as int,
                src.n as int,
                forward_row(self.player, src.m as int),
                src.n as int + 1,
            ),
            count_pieces(cells(s.board)) == count_pieces(cells(self.board)) - 1,
            s.wf(),
    {
        let new_m: usize = match self.player {
            Player::Max => src.m + 1,
            Player::Min => src.m - 1,
        };
        let new_n: usize = src.n + 1;
        let dst = Location { m: new_m, n: new_n };
        let s = self.update(dst, src);
        proof {
            lemma_moved_cells_effect(
                cells(self.board),
                src.m as int,
                src.n as int,
                dst.m as int,
                dst.n as int,
            );
        }
        s
    }

    /// The legality of a whole action: its source is on the board and the
    /// legality check of its kind passes for the active player.
    pub open spec fn action_legal(self, a: PlayerAction) -> bool {
        &&& a.src.spec_in_bounds()
        &&& match a.action {
            Action::Advance => self.spec_check_advance(a.src),
            Action::CaptureLeft => self.spec_check_capture_left(a.src),
            Action::CaptureRight => self.spec_check_capture_right(a.src),
        }
    }

    /// Returns the state resulting from applying `a`: the single entry
    /// point that dispatches on the action's kind.
    ///
    /// Legality is not re-validated here: the caller must have confirmed
    /// it first. The turn always passes to the other player; the piece
    /// count is unchanged by an advance and drops by one on a capture.
    pub fn result(&self, a: PlayerAction) -> (s: GameState)
        requires
            self.wf(),
            self.action_legal(a),
        ensures
            s.player == self.player.spec_next(),
            cells(s.board) == moved_cells(
                cells(self.board),
                a.src.m as int,
                a.src.n as int,
                forward_row(self.player, a.src.m as int),
                action_dst_col(a),
            ),
            count_pieces(cells(s.board)) == count_pieces(cells(self.board)) - (match a.action {
                Action::Advance => 0int,
                Action::CaptureLeft => 1int,
                Action::CaptureRight => 1int,
            }),
            s.wf(),
    {
        match a.action {
            Action::Advance => self.advance(a.src),
            Action::CaptureLeft => self.capture_left(a.src),
            Action::CaptureRight => self.capture_right(a.src),
        }
    }
}

/// The destination column of an action: the source column for an advance,
/// one toward index 0 for a capture-left, one toward index 2 for a
/// capture-right.
pub open spec fn action_dst_col(a: PlayerAction) -> int {
    match a.action {
        Action::Advance => a.src.n as int,
        Action::CaptureLeft => a.src.n as int - 1,
        Action::CaptureRight => a.src.n as int + 1,
    }
}

/// The actions contributed by the square at row `m`, column `n`: none
/// unless it holds the active player's piece; otherwise one entry for
/// each passing check, in the order advance, capture-left, capture-right.
pub open spec fn cell_actions(s: GameState, m: int, n: int) -> Seq<PlayerAction> {
    let loc = Location { m: m as usize, n: n as usize };
    if s.cell(m, n) == s.player.spec_value() {
        (if s.spec_check_advance(loc) {
            seq![PlayerAction { action: Action::Advance, src: loc }]
        } else {
            Seq::empty()
        }) + (if s.spec_check_capture_left(loc) {
            seq![PlayerAction { action: Action::CaptureLeft, src: loc }]
        } else {
            Seq::empty()
        }) + (if s.spec_check_capture_right(loc) {
            seq![PlayerAction { action: Action::CaptureRight, src: loc }]
        } else {
            Seq::empty()
        })
    } else {
        Seq::empty()
    }
}

/// The actions contributed by the first `k` squares in row-major scan
/// order.
pub open spec fn actions_prefix(s: GameState, k: int) -> Seq<PlayerAction>
    decreases k,
{
    if k <= 0 {
        Seq::empty()
    } else {
        actions_prefix(s, k - 1) + cell_actions(s, (k - 1) / 3, (k - 1) % 3)
    }
}

/// The full legal-action list of a state: every square is probed in
/// row-major order, and each square holding the active player's piece
/// contributes an entry per passing check, in the order advance,
/// capture-left, capture-right.
pub open spec fn spec_actions(s: GameState) -> Seq<PlayerAction> {
    actions_prefix(s, 9)
}

/// A state is terminal when a board traversal has occurred — a Min piece
/// stands anywhere on row 0 or a Max piece anywhere on row 2 — or the
/// active player has no legal action.
pub open spec fn spec_is_terminal(s: GameState) -> bool {
    ||| exists|n: int| 0 <= n < 3 && s.cell(0, n) == -1i8
    ||| exists|n: int| 0 <= n < 3 && s.cell(2, n) == 1i8
    ||| spec_actions(s).len() == 0
}

impl GameState {
    /// Returns the vector of all legal actions of the active player, in
    /// row-major scan order of their source squares.
    pub fn actions(&self) -> (r: Vec<PlayerAction>)
        ensures
            r@ == spec_actions(*self),
    {
        let mut action_list: Vec<PlayerAction> = Vec::new();
        let mut k: usize = 0;
        while k < 9
            invariant
                k <= 9,
                action_list@ == actions_prefix(*self, k as int),
            decreases 9 - k,
        {
            let m: usize = k / 3;
            let n: usize = k % 3;
            let src = Location { m, n };
            if self.board.get(m, n) == self.player.value() {
                if src.check_advance(self) {
                    action_list.push(PlayerAction { action: Action::Advance, src });
                }
                if src.check_capture_left(self) {
                    action_list.push(PlayerAction { action: Action::CaptureLeft, src });
                }
                if src.check_capture_right(self) {
                    action_list.push(PlayerAction { action: Action::CaptureRight, src });
                }
            }
            proof {
                assert(action_list@ =~= actions_prefix(*self, k as int + 1));
            }
            k = k + 1;
        }
        action_list
    }

    /// Returns whether the game has concluded: a piece has reached the
    /// opposing home row, or the active player cannot move. Which player
    /// wins is left to the caller to derive.
    pub fn is_terminal(&self) -> (r: bool)
        ensures
            r == spec_is_terminal(*self),
    {
        let mut i: usize = 0;
        while i < 3
            invariant
                i <= 3,
                forall|j: int|
                    0 <= j < i ==> self.cell(0, j) != -1i8 && self.cell(2, j) != 1i8,
            decreases 3 - i,
        {
            if self.board.get(0, i) == -1 || self.board.get(2, i) == 1 {
                proof {
                    assert(self.cell(0, i as int) == -1i8 || self.cell(2, i as int) == 1i8);
                }
                return true;
            }
            i = i + 1;
        }
        let acts = self.actions();
        acts.len() == 0
    }

    /// Returns the state as a flat vector: the active player's marker
    /// followed by the 9 board cells in row-major order.
    pub fn to_vector(&self) -> (v: Vec<i8>)
        ensures
            v@ == seq![self.player.spec_value()] + cells(self.board),
    {
        let mut vec_rep: Vec<i8> = Vec::new();
        vec_rep.push(self.player.value());
        let mut flat = self.board.to_flat_vec();
        vec_rep.append(&mut flat);
        proof {
            assert(vec_rep@ =~= seq![self.player.spec_value()] + cells(self.board));
        }
        vec_rep
    }
}

/// An element is in a concatenation exactly when it is in one of the two
/// parts.
proof fn lemma_concat_contains<T>(x: Seq<T>, y: Seq<T>, a: T)
    ensures
        (x + y).contains(a) <==> x.contains(a) || y.contains(a),
{
    if x.contains(a) {
        let i = choose|i: int| 0 <= i < x.len() && x[i] == a;
        assert((x + y)[i] == a);
    }
    if y.contains(a) {
        let i = choose|i: int| 0 <= i < y.len() && y[i] == a;
        assert((x + y)[x.len() + i] == a);
    }
    if (x + y).contains(a) {
        let i = choose|i: int| 0 <= i < (x + y).len() && (x + y)[i] == a;
        if i < x.len() {
            assert(x[i] == a);
        } else {
            assert(y[i - x.len()] == a);
        }
    }
}

/// A one-element sequence contains exactly that element.
proof fn lemma_singleton_contains<T>(x: T, a: T)
    ensures
        seq![x].contains(a) <==> a == x,
{
    if a == x {
        assert(seq![x][0] == a);
    }
    if seq![x].contains(a) {
        let i = choose|i: int| 0 <= i < seq![x].len() && seq![x][i] == a;
        assert(seq![x][i] == a);
    }
}

/// The square at row `m`, column `n` contributes exactly the legal
/// actions whose source is that square, and only if the square holds the
/// active player's piece.
proof fn lemma_cell_actions_contains(s: GameState, m: int, n: int, a: PlayerAction)
    requires
        0 <= m < 3,
        0 <= n < 3,
    ensures
        cell_actions(s, m, n).contains(a) <==> (a.src.m == m && a.src.n == n && s.cell(m, n)
            == s.player.spec_value() && s.action_legal(a)),
{
    let loc = Location { m: m as usize, n: n as usize };
    let adv = if s.spec_check_advance(loc) {
        seq![PlayerAction { action: Action::Advance, src: loc }]
    } else {
        Seq::<PlayerAction>::empty()
    };
    let cl = if s.spec_check_capture_left(loc) {
        seq![PlayerAction { action: Action::CaptureLeft, src: loc }]
    } else {
        Seq::<PlayerAction>::empty()
    };
    let cr = if s.spec_check_capture_right(loc) {
        seq![PlayerAction { action: Action::CaptureRight, src: loc }]
    } else {
        Seq::<PlayerAction>::empty()
    };
    lemma_concat_contains(adv + cl, cr, a);
    lemma_concat_contains(adv, cl, a);
    lemma_singleton_contains(PlayerAction { action: Action::Advance, src: loc }, a);
    lemma_singleton_contains(PlayerAction { action: Action::CaptureLeft, src: loc }, a);
    lemma_singleton_contains(PlayerAction { action: Action::CaptureRight, src: loc }, a);
}

/// Membership in a row-major prefix of the enumeration: an action is
/// among the contributions of the first `k` squares exactly when its
/// source is one of those squares, that square holds the active player's
/// piece, and the action is legal.
proof fn lemma_actions_prefix_contains(s: GameState, k: int, a: PlayerAction)
    requires
        0 <= k <= 9,
    ensures
        actions_prefix(s, k).contains(a) <==> (a.src.spec_in_bounds() && (3 * (a.src.m as int)
            + a.src.n as int) < k && s.cell(a.src.m as int, a.src.n as int)
            == s.player.spec_value() && s.action_legal(a)),
    decreases k,
{
    if k > 0 {
        lemma_actions_prefix_contains(s, k - 1, a);
        lemma_concat_contains(actions_prefix(s, k - 1), cell_actions(s, (k - 1) / 3, (k - 1) % 3), a);
        lemma_cell_actions_contains(s, (k - 1) / 3, (k - 1) % 3, a);
    }
}

/// Soundness of the enumeration: every enumerated action has an on-board
/// source square holding the active player's piece, and passes the
/// legality check of its kind against the same state.
pub proof fn lemma_actions_sound(s: GameState, a: PlayerAction)
    requires
        spec_actions(s).contains(a),
    ensures
        a.src.spec_in_bounds(),
        s.cell(a.src.m as int, a.src.n as int) == s.player.spec_value(),
        s.action_legal(a),
{
    lemma_actions_prefix_contains(s, 9, a);
}

/// Completeness of the enumeration: for an on-board source square
/// holding the active player's piece, an action that the enumeration does
/// not list fails the legality check of its kind.
pub proof fn lemma_actions_complete(s: GameState, a: PlayerAction)
    requires
        a.src.spec_in_bounds(),
        s.cell(a.src.m as int, a.src.n as int) == s.player.spec_value(),
        !spec_actions(s).contains(a),
    ensures
        !s.action_legal(a),
{
    lemma_actions_prefix_contains(s, 9, a);
}

/// The fixed starting position is never terminal: no piece stands on its
/// opposing home row, and Max has at least one legal action.
pub proof fn lemma_initial_not_terminal(s: GameState)
    requires
        s.player == Player::Max,
        cells(s.board) == initial_cells(),
    ensures
        !spec_is_terminal(s),
{
    assert forall|n: int| 0 <= n < 3 implies s.cell(0, n) != -1i8 && s.cell(2, n) != 1i8 by {
        assert(initial_cells()[n] == 1i8 && initial_cells()[6 + n] == -1i8);
    }
    let a = PlayerAction { action: Action::Advance, src: Location { m: 0, n: 0 } };
    assert(s.cell(0, 0) == 1i8);
    assert(s.cell(1, 0) == 0i8);
    lemma_actions_prefix_contains(s, 9, a);
    assert(spec_actions(s).contains(a));
}

/// Each terminal condition alone suffices: a Min piece on row 0, a Max
/// piece on row 2, or an empty action list makes the state terminal.
pub proof fn lemma_terminal_conditions(s: GameState, n: int)
    requires
        0 <= n < 3,
    ensures
        s.cell(0, n) == -1i8 ==> spec_is_terminal(s),
        s.cell(2, n) == 1i8 ==> spec_is_terminal(s),
        spec_actions(s).len() == 0 ==> spec_is_terminal(s),
{
}

/// On the active player's far row — row 2 for Max, row 0 for Min — an
/// advance is never legal, whatever the board contents.
pub proof fn lemma_far_row_no_advance(s: GameState, src: Location)
    requires
        (s.player == Player::Max && src.m == 2) || (s.player == Player::Min && src.m == 0),
    ensures
        !s.spec_check_advance(src),
{
}

} // verus!
