use crate::char_type::CharType;
use crate::input_direction::InputDirection;
use vstd::prelude::*;

verus! {

/// Milliseconds for which each symbol is shown.
pub const SHOW_MS: u64 = 800;

/// The most time one tick may contribute, in milliseconds.
pub const MAX_STEP_MS: u64 = 100;

/// The number of symbols in a round.
pub const ROUND_LENGTH: usize = 5;

/// The stage a round is in.
#[derive(Debug, Clone, Copy, PartialEq, Eq, Structural)]
pub enum GamePhase {
    NotStarted,
    ShowingSequence,
    Inputting,
    GameOver,
    Success,
}

/// When mismatches are reported: at once, or once the whole sequence is in.
#[derive(Debug, Clone, Copy, PartialEq, Eq, Structural)]
pub enum ValidationMode {
    Lenient,
    Strict,
}

/// The index of `target` that the `n`-th entered symbol (counting from 1)
/// must equal.
pub open spec fn expected_index(dir: InputDirection, len: int, n: int) -> int {
    match dir {
        InputDirection::Forward => n - 1,
        InputDirection::Reverse => len - n,
    }
}

/// The sequence in reverse order.
pub open spec fn reversed(s: Seq<CharType>) -> Seq<CharType> {
    Seq::new(s.len(), |i: int| s[s.len() - 1 - i])
}

/// The target as the player must enter it.
pub open spec fn answer(target: Seq<CharType>, dir: InputDirection) -> Seq<CharType> {
    match dir {
        InputDirection::Forward => target,
        InputDirection::Reverse => reversed(target),
    }
}

/// The message for a mismatch in strict mode.
pub open spec fn mismatch_text(expected: char, got: char) -> Seq<char> {
    "Wrong! Expected '"@ + seq![expected] + "' but got '"@ + seq![got] + "'"@
}

/// The message for a wrong sequence in lenient mode.
pub open spec fn incorrect_text() -> Seq<char> {
    "Sequence is incorrect!"@
}

/// The total of a list of tick lengths.
pub open spec fn total(ticks: Seq<int>) -> int
    decreases ticks.len(),
{
    if ticks.len() == 0 {
        0
    } else {
        ticks[0] + total(ticks.drop_first())
    }
}

/// What a game shows: the phase, the revealed part of the target while it
/// is shown, the entries, and once the round is over the target as stored
/// and as it had to be entered.
pub struct SnapshotModel {
    pub phase: GamePhase,
    pub visible: Seq<CharType>,
    pub entered: Seq<CharType>,
    pub direction: InputDirection,
    pub mode: ValidationMode,
    pub error: Option<Seq<char>>,
    pub target: Seq<CharType>,
    pub answer: Seq<CharType>,
}

/// The abstract state of a game.
pub struct GameModel {
    pub phase: GamePhase,
    pub target: Seq<CharType>,
    pub entered: Seq<CharType>,
    pub direction: InputDirection,
    pub mode: ValidationMode,
    pub error: Option<Seq<char>>,
    /// Time spent showing the sequence, in milliseconds.
    pub elapsed: nat,
}

impl GameModel {
    pub open spec fn len(self) -> int {
        self.target.len() as int
    }

    /// How many symbols of the target have been revealed.
    pub open spec fn revealed_count(self) -> int {
        let k = self.elapsed as int / SHOW_MS as int;
        if k < self.len() {
            k
        } else {
            self.len()
        }
    }

    /// The target symbol that the `n`-th entered symbol must equal.
    pub open spec fn expected_at(self, n: int) -> CharType {
        self.target[expected_index(self.direction, self.len(), n)]
    }

    pub open spec fn is_over(self) -> bool {
        self.phase == GamePhase::GameOver || self.phase == GamePhase::Success
    }

    pub open spec fn snapshot(self) -> SnapshotModel {
        SnapshotModel {
            phase: self.phase,
            visible: if self.phase == GamePhase::ShowingSequence {
                self.target.take(self.revealed_count())
            } else {
                Seq::empty()
            },
            entered: self.entered,
            direction: self.direction,
            mode: self.mode,
            error: self.error,
            target: if self.is_over() {
                self.target
            } else {
                Seq::empty()
            },
            answer: if self.is_over() {
                answer(self.target, self.direction)
            } else {
                Seq::empty()
            },
        }
    }

    pub open spec fn wf(self) -> bool {
        &&& self.entered.len() <= self.target.len()
        &&& self.phase != GamePhase::NotStarted ==> self.target.len() > 0
        &&& self.phase == GamePhase::NotStarted ==> self.entered.len() == 0
        &&& self.phase == GamePhase::ShowingSequence ==> {
            &&& self.entered.len() == 0
            &&& self.elapsed < SHOW_MS * self.len()
        }
        &&& self.phase == GamePhase::Inputting ==> self.entered.len() < self.target.len()
        &&& self.phase == GamePhase::Success ==> self.entered == answer(
            self.target,
            self.direction,
        )
    }

    /// A fresh round on `target`, shown from the start.
    pub open spec fn begin(self, target: Seq<CharType>, direction: InputDirection) -> GameModel {
        GameModel {
            phase: GamePhase::ShowingSequence,
            target,
            entered: Seq::empty(),
            direction,
            mode: self.mode,
            error: None,
            elapsed: 0,
        }
    }

    /// Time passes while the sequence is shown; each tick counts for at most
    /// `MAX_STEP_MS`.
    pub open spec fn tick(self, dt: int) -> GameModel {
        if self.phase != GamePhase::ShowingSequence {
            self
        } else {
            let step = if dt < MAX_STEP_MS as int {
                dt
            } else {
                MAX_STEP_MS as int
            };
            let e = (self.elapsed + step) as nat;
            GameModel {
                elapsed: e,
                phase: if e as int / SHOW_MS as int >= self.len() {
                    GamePhase::Inputting
                } else {
                    GamePhase::ShowingSequence
                },
                ..self
            }
        }
    }

    pub open spec fn tick_all(self, ticks: Seq<int>) -> GameModel
        decreases ticks.len(),
    {
        if ticks.len() == 0 {
            self
        } else {
            self.tick(ticks[0]).tick_all(ticks.drop_first())
        }
    }

    /// The player enters one symbol.
    pub open spec fn submit(self, s: CharType) -> GameModel {
        if self.phase != GamePhase::Inputting {
            self
        } else {
            let e = self.entered.push(s);
            let expected = self.expected_at(e.len() as int);
            if expected != s && self.mode == ValidationMode::Strict {
                GameModel {
                    entered: e,
                    phase: GamePhase::GameOver,
                    error: Some(mismatch_text(expected.spec_char(), s.spec_char())),
                    ..self
                }
            } else if e.len() == self.target.len() {
                if e == answer(self.target, self.direction) {
                    GameModel { entered: e, phase: GamePhase::Success, ..self }
                } else {
                    GameModel {
                        entered: e,
                        phase: GamePhase::GameOver,
                        error: if self.mode == ValidationMode::Lenient {
                            Some(incorrect_text())
                        } else {
                            self.error
                        },
                        ..self
                    }
                }
            } else {
                GameModel { entered: e, ..self }
            }
        }
    }

    pub open spec fn submit_all(self, inputs: Seq<CharType>) -> GameModel
        decreases inputs.len(),
    {
        if inputs.len() == 0 {
            self
        } else {
            self.submit(inputs[0]).submit_all(inputs.drop_first())
        }
    }

    /// The player removes the last entered symbol. In strict mode the error
    /// is cleared when nothing is left or the new last symbol is right.
    pub open spec fn delete(self) -> GameModel {
        if self.phase != GamePhase::Inputting || self.entered.len() == 0 {
            self
        } else {
            let e = self.entered.drop_last();
            let clear = self.mode == ValidationMode::Strict && (e.len() == 0 || e.last()
                == self.expected_at(e.len() as int));
            GameModel { entered: e, error: if clear {
                None
            } else {
                self.error
            }, ..self }
        }
    }
}

} // verus!
