use crate::char_type::{CharType, DIGIT_FIRST, DIGIT_LAST, LETTER_FIRST, LETTER_LAST};
use crate::input_direction::InputDirection;
use crate::model::{
    answer, reversed, SnapshotModel, incorrect_text, mismatch_text, GameModel, GamePhase, ValidationMode, MAX_STEP_MS,
    ROUND_LENGTH, SHOW_MS,
};
use rand::Rng;
use vstd::prelude::*;

verus! {

/// Relies on rand::random::<bool>: a fair coin, nothing promised of the outcome.
#[verifier::external_body]
fn coin_flip() -> bool {
    rand::random::<bool>()
}

/// Relies on rand::thread_rng and Rng::gen_range on an inclusive range: the
/// value lies within the bounds; the range must not be empty.
#[verifier::external_body]
fn random_code(lo: u8, hi: u8) -> (r: u8)
    requires
        lo <= hi,
    ensures
        lo <= r <= hi,
{
    rand::thread_rng().gen_range(lo..=hi)
}

/// Relies on String::push: the character is appended.
#[verifier::external_body]
fn push_char(s: &mut String, c: char)
    ensures
        final(s)@ == old(s)@.push(c),
{
    s.push(c)
}

/// The text of an optional message.
pub open spec fn text_of(o: Option<String>) -> Option<Seq<char>> {
    match o {
        Some(s) => Some(s@),
        None => None,
    }
}

/// The message that names the expected and the entered symbol.
pub fn mismatch_message(expected: char, got: char) -> (r: String)
    ensures
        r@ == mismatch_text(expected, got),
{
    let mut s = String::from_str("Wrong! Expected '");
    push_char(&mut s, expected);
    s.append("' but got '");
    push_char(&mut s, got);
    s.append("'");
    s
}

/// Whether `entered` is `target` in the order that `dir` asks for.
pub fn matches_answer(entered: &Vec<CharType>, target: &Vec<CharType>, dir: InputDirection) -> (r:
    bool)
    requires
        entered.len() == target.len(),
    ensures
        r == (entered@ == answer(target@, dir)),
{
    let len = target.len();
    let mut i: usize = 0;
    while i < len
        invariant
            i <= len,
            len == target.len(),
            entered.len() == len,
            forall|j: int| 0 <= j < i ==> entered@[j] == answer(target@, dir)[j],
        decreases len - i,
    {
        let seq_index = match dir {
            InputDirection::Forward => i,
            InputDirection::Reverse => len - i - 1,
        };
        if !(target[seq_index] == entered[i]) {
            assert(entered@[i as int] != answer(target@, dir)[i as int]);
            return false;
        }
        i = i + 1;
    }
    assert(entered@ =~= answer(target@, dir));
    true
}

/// A game: the target sequence, what the player has entered, and the phase.
pub struct MemoryGame {
    sequence: Vec<CharType>,
    user_input: Vec<CharType>,
    phase: GamePhase,
    error_message: Option<String>,
    /// Whole symbols shown so far, and the milliseconds towards the next one.
    revealed: usize,
    pending_ms: u64,
    mode: ValidationMode,
    input_direction: InputDirection,
}

impl View for MemoryGame {
    type V = GameModel;

    closed spec fn view(&self) -> GameModel {
        GameModel {
            phase: self.phase,
            target: self.sequence@,
            entered: self.user_input@,
            direction: self.input_direction,
            mode: self.mode,
            error: text_of(self.error_message),
            elapsed: (SHOW_MS * self.revealed + self.pending_ms) as nat,
        }
    }
}

impl MemoryGame {
    pub closed spec fn wf(&self) -> bool {
        &&& self@.wf()
        &&& self.pending_ms < SHOW_MS
        &&& self.revealed <= self.sequence.len()
        &&& self.phase == GamePhase::ShowingSequence ==> self.revealed < self.sequence.len()
        &&& self.phase == GamePhase::NotStarted ==> self.revealed == 0 && self.pending_ms == 0
    }

    /// A game that has not started, in lenient mode.
    pub fn new() -> (r: MemoryGame)
        ensures
            r.wf(),
            r@ == (GameModel {
                phase: GamePhase::NotStarted,
                target: Seq::empty(),
                entered: Seq::empty(),
                direction: InputDirection::Forward,
                mode: ValidationMode::Lenient,
                error: None,
                elapsed: 0,
            }),
    {
        let r = MemoryGame {
            sequence: Vec::new(),
            user_input: Vec::new(),
            phase: GamePhase::NotStarted,
            error_message: None,
            revealed: 0,
            pending_ms: 0,
            mode: ValidationMode::Lenient,
            input_direction: InputDirection::Forward,
        };
        assert(r@.target =~= Seq::empty());
        assert(r@.entered =~= Seq::empty());
        r
    }
}

impl MemoryGame {
    /// The player enters one symbol. Outside the input phase nothing changes.
    pub fn process_input(&mut self, input: CharType)
        requires
            old(self).wf(),
        ensures
            final(self).wf(),
            final(self)@ == old(self)@.submit(input),
            old(self)@.phase != GamePhase::Inputting ==> final(self)@ == old(self)@,
    {
        if !matches!(self.phase, GamePhase::Inputting) {
            return;
        }
        self.user_input.push(input);
        let n = self.user_input.len();
        let len = self.sequence.len();
        let expected_index = match self.input_direction {
            InputDirection::Forward => n - 1,
            InputDirection::Reverse => len - n,
        };
        let expected = self.sequence[expected_index];
        if !(expected == input) && matches!(self.mode, ValidationMode::Strict) {
            let msg = mismatch_message(expected.as_char(), input.as_char());
            self.error_message = Some(msg);
            self.phase = GamePhase::GameOver;
            return;
        }
        if n == len {
            if matches_answer(&self.user_input, &self.sequence, self.input_direction) {
                self.phase = GamePhase::Success;
            } else {
                if matches!(self.mode, ValidationMode::Lenient) {
                    self.error_message = Some(String::from_str("Sequence is incorrect!"));
                }
                self.phase = GamePhase::GameOver;
            }
        }
    }

    /// The player removes the last entered symbol; in strict mode the error is
    /// cleared once the entries left are right at their end. Outside the
    /// input phase, or with nothing entered, nothing changes.
    pub fn delete_last(&mut self)
        requires
            old(self).wf(),
        ensures
            final(self).wf(),
            final(self)@ == old(self)@.delete(),
            old(self)@.phase != GamePhase::Inputting ==> final(self)@ == old(self)@,
    {
        if !matches!(self.phase, GamePhase::Inputting) {
            return;
        }
        if self.user_input.len() > 0 {
            let _ = self.user_input.pop();
            if matches!(self.mode, ValidationMode::Strict) {
                let n = self.user_input.len();
                if n > 0 {
                    let len = self.sequence.len();
                    let expected_index = match self.input_direction {
                        InputDirection::Forward => n - 1,
                        InputDirection::Reverse => len - n,
                    };
                    if self.sequence[expected_index] == self.user_input[n - 1] {
                        self.error_message = None;
                    }
                } else {
                    self.error_message = None;
                }
            }
        }
    }

    /// Chooses when mismatches are reported; read at the next entry.
    pub fn set_mode(&mut self, mode: ValidationMode)
        requires
            old(self).wf(),
        ensures
            final(self).wf(),
            final(self)@ == (GameModel { mode, ..old(self)@ }),
    {
        self.mode = mode;
    }
}

/// Whole symbols and the milliseconds beyond them give back the symbol count.
proof fn lemma_whole_symbols(revealed: int, pending: int, len: int)
    requires
        0 <= revealed,
        0 <= pending < SHOW_MS,
    ensures
        (SHOW_MS * revealed + pending) / (SHOW_MS as int) == revealed,
        revealed < len ==> SHOW_MS * revealed + pending < SHOW_MS * len,
{
    assert((SHOW_MS * revealed + pending) / (SHOW_MS as int) == revealed) by (nonlinear_arith)
        requires
            0 <= revealed,
            0 <= pending < SHOW_MS,
    ;
    assert(revealed < len ==> SHOW_MS * revealed + pending < SHOW_MS * len) by (nonlinear_arith)
        requires
            0 <= pending < SHOW_MS,
    ;
}

impl MemoryGame {
    /// Time passes while the sequence is shown. Each tick counts for at most
    /// `MAX_STEP_MS` milliseconds; once every symbol has had `SHOW_MS`
    /// milliseconds, input begins. Outside that phase nothing changes.
    pub fn tick(&mut self, dt_ms: u64)
        requires
            old(self).wf(),
        ensures
            final(self).wf(),
            final(self)@ == old(self)@.tick(dt_ms as int),
    {
        if !matches!(self.phase, GamePhase::ShowingSequence) {
            return;
        }
        let step = if dt_ms < MAX_STEP_MS {
            dt_ms
        } else {
            MAX_STEP_MS
        };
        self.pending_ms = self.pending_ms + step;
        if self.pending_ms >= SHOW_MS {
            self.pending_ms = self.pending_ms - SHOW_MS;
            self.revealed = self.revealed + 1;
        }
        if self.revealed >= self.sequence.len() {
            self.phase = GamePhase::Inputting;
        }
        proof {
            lemma_whole_symbols(self.revealed as int, self.pending_ms as int, self.sequence.len() as int);
        }
    }

    /// Starts a round on the given target and direction: nothing entered, no
    /// error, the sequence shown from its first symbol.
    pub fn begin_round(&mut self, target: Vec<CharType>, direction: InputDirection)
        requires
            old(self).wf(),
            target.len() > 0,
        ensures
            final(self).wf(),
            final(self)@ == old(self)@.begin(target@, direction),
    {
        self.sequence = target;
        self.input_direction = direction;
        self.user_input = Vec::new();
        self.phase = GamePhase::ShowingSequence;
        self.error_message = None;
        self.revealed = 0;
        self.pending_ms = 0;
        assert(self@.entered =~= Seq::empty());
    }

    /// A random sequence of `length` symbols, each a digit or an upper-case
    /// letter, and a random direction.
    pub fn generate_sequence(length: usize) -> (r: (Vec<CharType>, InputDirection))
        ensures
            r.0@.len() == length,
            forall|i: int| 0 <= i < length ==> (#[trigger] r.0@[i]).is_valid(),
    {
        let mut sequence: Vec<CharType> = Vec::new();
        let mut i: usize = 0;
        while i < length
            invariant
                i <= length,
                sequence@.len() == i,
                forall|j: int| 0 <= j < i ==> (#[trigger] sequence@[j]).is_valid(),
            decreases length - i,
        {
            if coin_flip() {
                let num = random_code(DIGIT_FIRST, DIGIT_LAST);
                sequence.push(CharType::Number(num));
            } else {
                let letter = random_code(LETTER_FIRST, LETTER_LAST);
                sequence.push(CharType::Letter(letter));
            }
            i = i + 1;
        }
        let direction = if coin_flip() {
            InputDirection::Forward
        } else {
            InputDirection::Reverse
        };
        (sequence, direction)
    }

    /// Starts a new round on a random sequence of `ROUND_LENGTH` valid
    /// symbols, in a random direction, keeping the mode.
    pub fn start_game(&mut self)
        requires
            old(self).wf(),
        ensures
            final(self).wf(),
            final(self)@ == old(self)@.begin(final(self)@.target, final(self)@.direction),
            final(self)@.target.len() == ROUND_LENGTH,
            forall|i: int|
                0 <= i < ROUND_LENGTH ==> (#[trigger] final(self)@.target[i]).is_valid(),
    {
        let (sequence, direction) = Self::generate_sequence(ROUND_LENGTH);
        self.begin_round(sequence, direction);
    }
}

/// The first `n` symbols of `v`.
fn prefix_copy(v: &Vec<CharType>, n: usize) -> (r: Vec<CharType>)
    requires
        n <= v.len(),
    ensures
        r@ == v@.take(n as int),
{
    let mut r: Vec<CharType> = Vec::new();
    let mut i: usize = 0;
    while i < n
        invariant
            i <= n,
            n <= v.len(),
            r@ == v@.take(i as int),
        decreases n - i,
    {
        r.push(v[i]);
        i = i + 1;
        assert(r@ =~= v@.take(i as int));
    }
    r
}

/// The symbols of `v` from last to first.
fn reversed_copy(v: &Vec<CharType>) -> (r: Vec<CharType>)
    ensures
        r@ == reversed(v@),
{
    let len = v.len();
    let mut r: Vec<CharType> = Vec::new();
    let mut i: usize = 0;
    while i < len
        invariant
            i <= len,
            len == v.len(),
            r@.len() == i,
            forall|j: int| 0 <= j < i ==> r@[j] == v@[len - 1 - j],
        decreases len - i,
    {
        r.push(v[len - 1 - i]);
        i = i + 1;
    }
    assert(r@ =~= reversed(v@));
    r
}

fn copy_message(m: &Option<String>) -> (r: Option<String>)
    ensures
        text_of(r) == text_of(*m),
{
    match m {
        Some(s) => Some(s.clone()),
        None => None,
    }
}

/// A copy of what a game shows, for display.
#[derive(Debug, Clone, PartialEq, Eq)]
pub struct Snapshot {
    pub phase: GamePhase,
    pub visible: Vec<CharType>,
    pub entered: Vec<CharType>,
    pub direction: InputDirection,
    pub mode: ValidationMode,
    pub error_message: Option<String>,
    pub target: Vec<CharType>,
    pub answer: Vec<CharType>,
}

impl View for Snapshot {
    type V = SnapshotModel;

    open spec fn view(&self) -> SnapshotModel {
        SnapshotModel {
            phase: self.phase,
            visible: self.visible@,
            entered: self.entered@,
            direction: self.direction,
            mode: self.mode,
            error: text_of(self.error_message),
            target: self.target@,
            answer: self.answer@,
        }
    }
}

impl MemoryGame {
    /// What the game shows. It reads the state only, so two calls with no
    /// change in between give equal snapshots.
    pub fn snapshot(&self) -> (r: Snapshot)
        requires
            self.wf(),
        ensures
            r@ == self@.snapshot(),
    {
        proof {
            lemma_whole_symbols(self.revealed as int, self.pending_ms as int, self.sequence.len() as int);
        }
        let visible = if matches!(self.phase, GamePhase::ShowingSequence) {
            prefix_copy(&self.sequence, self.revealed)
        } else {
            Vec::new()
        };
        let over = matches!(self.phase, GamePhase::GameOver) || matches!(self.phase, GamePhase::Success);
        let target = if over {
            prefix_copy(&self.sequence, self.sequence.len())
        } else {
            Vec::new()
        };
        let answer = if !over {
            Vec::new()
        } else {
            match self.input_direction {
                InputDirection::Forward => prefix_copy(&self.sequence, self.sequence.len()),
                InputDirection::Reverse => reversed_copy(&self.sequence),
            }
        };
        let r = Snapshot {
            phase: self.phase,
            visible,
            entered: prefix_copy(&self.user_input, self.user_input.len()),
            direction: self.input_direction,
            mode: self.mode,
            error_message: copy_message(&self.error_message),
            target,
            answer,
        };
        assert(self.sequence@.take(self.sequence@.len() as int) =~= self.sequence@);
        assert(self.user_input@.take(self.user_input@.len() as int) =~= self.user_input@);
        assert(r@.visible =~= self@.snapshot().visible);
        assert(r@.target =~= self@.snapshot().target);
        assert(r@.answer =~= self@.snapshot().answer);
        r
    }
}

} // verus!
