use crate::char_type::CharType;
use crate::input_direction::InputDirection;
use crate::model::{
    answer, reversed, total, GameModel, GamePhase, MAX_STEP_MS, SHOW_MS,
};
use vstd::prelude::*;

verus! {

/// From the first `k` symbols of the answer, entering the rest wins.
proof fn lemma_entering_rest(m: GameModel, k: int)
    requires
        m.wf(),
        m.phase == GamePhase::Inputting,
        0 <= k < m.len(),
        m.entered == answer(m.target, m.direction).take(k),
    ensures
        m.submit_all(answer(m.target, m.direction).skip(k)).phase == GamePhase::Success,
        m.submit_all(answer(m.target, m.direction).skip(k)).entered == answer(
            m.target,
            m.direction,
        ),
    decreases m.len() - k,
{
    let a = answer(m.target, m.direction);
    assert(a.len() == m.len());
    let rest = a.skip(k);
    assert(rest[0] == a[k]);
    assert(rest.drop_first() =~= a.skip(k + 1));
    assert(m.entered.push(a[k]) =~= a.take(k + 1));
    assert(m.expected_at(k + 1) == a[k]);
    let m1 = m.submit(a[k]);
    if k + 1 == m.len() {
        assert(a.take(k + 1) =~= a);
        assert(a.skip(k + 1) =~= Seq::empty());
        assert(m1.submit_all(a.skip(k + 1)) == m1);
    } else {
        lemma_entering_rest(m1, k + 1);
    }
}

/// In a forward round, entering the target exactly, from no entries, ends in
/// success, in either mode.
pub proof fn law_forward_entry_succeeds(m: GameModel)
    requires
        m.wf(),
        m.phase == GamePhase::Inputting,
        m.entered.len() == 0,
        m.direction == InputDirection::Forward,
    ensures
        m.submit_all(m.target).phase == GamePhase::Success,
        m.submit_all(m.target).entered == m.target,
{
    assert(m.target.take(0) =~= m.entered);
    assert(m.target.skip(0) =~= m.target);
    lemma_entering_rest(m, 0);
}

/// In a reverse round, entering the target reversed, from no entries, ends in
/// success, in either mode.
pub proof fn law_reverse_entry_succeeds(m: GameModel)
    requires
        m.wf(),
        m.phase == GamePhase::Inputting,
        m.entered.len() == 0,
        m.direction == InputDirection::Reverse,
    ensures
        m.submit_all(reversed(m.target)).phase == GamePhase::Success,
        m.submit_all(reversed(m.target)).entered == reversed(m.target),
{
    let a = reversed(m.target);
    assert(a.take(0) =~= m.entered);
    assert(a.skip(0) =~= a);
    lemma_entering_rest(m, 0);
}

proof fn lemma_total_nonneg(ticks: Seq<int>)
    requires
        forall|i: int| 0 <= i < ticks.len() ==> 0 <= #[trigger] ticks[i],
    ensures
        total(ticks) >= 0,
    decreases ticks.len(),
{
    if ticks.len() > 0 {
        let rest = ticks.drop_first();
        assert forall|i: int| 0 <= i < rest.len() implies 0 <= #[trigger] rest[i] by {
            assert(rest[i] == ticks[i + 1]);
        }
        lemma_total_nonneg(rest);
    }
}

/// Ticks change nothing once the sequence is no longer shown.
proof fn lemma_ticks_idle(m: GameModel, ticks: Seq<int>)
    requires
        m.phase != GamePhase::ShowingSequence,
    ensures
        m.tick_all(ticks) == m,
    decreases ticks.len(),
{
    if ticks.len() > 0 {
        lemma_ticks_idle(m.tick(ticks[0]), ticks.drop_first());
    }
}

/// Ticks within the step bound add up while the sequence is shown, and
/// input begins in the tick that brings the time to `SHOW_MS` per symbol.
proof fn lemma_ticks_add_up(m: GameModel, ticks: Seq<int>)
    requires
        m.wf(),
        m.phase == GamePhase::ShowingSequence,
        forall|i: int| 0 <= i < ticks.len() ==> 0 <= #[trigger] ticks[i] <= MAX_STEP_MS,
    ensures
        m.tick_all(ticks).target == m.target,
        m.elapsed + total(ticks) < SHOW_MS * m.len() ==> {
            &&& m.tick_all(ticks).phase == GamePhase::ShowingSequence
            &&& m.tick_all(ticks).elapsed == m.elapsed + total(ticks)
        },
        m.elapsed + total(ticks) >= SHOW_MS * m.len() ==> {
            &&& m.tick_all(ticks).phase == GamePhase::Inputting
            &&& SHOW_MS * m.len() <= m.tick_all(ticks).elapsed
            &&& m.tick_all(ticks).elapsed < SHOW_MS * m.len() + MAX_STEP_MS
        },
    decreases ticks.len(),
{
    if ticks.len() > 0 {
        let rest = ticks.drop_first();
        assert forall|i: int| 0 <= i < rest.len() implies 0 <= #[trigger] rest[i]
            <= MAX_STEP_MS by {
            assert(rest[i] == ticks[i + 1]);
        }
        lemma_total_nonneg(rest);
        let e1 = m.elapsed + ticks[0];
        let len = m.len();
        assert(e1 / (SHOW_MS as int) >= len <==> e1 >= SHOW_MS * len) by (nonlinear_arith)
            requires
                e1 >= 0,
        ;
        let m1 = m.tick(ticks[0]);
        assert(m1.elapsed == e1);
        if e1 >= SHOW_MS * len {
            lemma_ticks_idle(m1, rest);
        } else {
            lemma_ticks_add_up(m1, rest);
        }
    }
}

/// Ticks of at most `MAX_STEP_MS` each that add up to `SHOW_MS * n`, from
/// the start of a round, reveal `min(n, length)` symbols, and input begins
/// exactly when `n` reaches the length.
pub proof fn law_reveal_timing(m: GameModel, ticks: Seq<int>, n: int)
    requires
        m.wf(),
        m.phase == GamePhase::ShowingSequence,
        m.elapsed == 0,
        n >= 0,
        forall|i: int| 0 <= i < ticks.len() ==> 0 <= #[trigger] ticks[i] <= MAX_STEP_MS,
        total(ticks) == SHOW_MS * n,
    ensures
        m.tick_all(ticks).revealed_count() == if n < m.len() {
            n
        } else {
            m.len()
        },
        (m.tick_all(ticks).phase == GamePhase::Inputting) == (n >= m.len()),
{
    lemma_ticks_add_up(m, ticks);
    let len = m.len();
    let r = m.tick_all(ticks);
    assert(n < len <==> SHOW_MS * n < SHOW_MS * len) by (nonlinear_arith);
    if n < len {
        assert((SHOW_MS * n) / (SHOW_MS as int) == n) by (nonlinear_arith)
            requires
                n >= 0,
        ;
    } else {
        let e = r.elapsed as int;
        assert(e / (SHOW_MS as int) == len) by (nonlinear_arith)
            requires
                SHOW_MS * len <= e < SHOW_MS * len + MAX_STEP_MS,
        ;
    }
}

/// Within a round the target never changes: entering, deleting and ticking
/// keep it, so its length stays what `start_game` made it.
pub proof fn law_target_kept_in_round(m: GameModel, s: CharType, dt: int)
    ensures
        m.submit(s).target == m.target,
        m.delete().target == m.target,
        m.tick(dt).target == m.target,
{
}

} // verus!
