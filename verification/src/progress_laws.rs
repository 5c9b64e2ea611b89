//! What holds of progress and its display over several operations.

use crate::progress::{
    byte_len, elapsed, line_text, percent_of, saturated, uncovered, ProgressState, Rate, Rendering,
    RENDER_INTERVAL,
};
use crate::text::{decimal, digits, left_aligned, repeated, right_aligned};
use vstd::prelude::*;
use vstd::utf8::{encode_utf8, is_ascii_chars, is_ascii_chars_encode_utf8};

verus! {

/// The percentage grows with the steps done and never passes one hundred while
/// there are no more steps done than there are.
pub proof fn law_percent_grows_to_hundred(earlier: nat, later: nat, total: nat)
    requires
        earlier <= later,
    ensures
        percent_of(earlier, total) <= percent_of(later, total),
        later <= total ==> percent_of(later, total) <= 100,
{
    if total > 0 {
        let a = saturated(earlier * 100);
        let b = saturated(later * 100);
        assert(a / total <= b / total) by (nonlinear_arith)
            requires
                a <= b,
                total > 0,
        ;
        if later <= total {
            assert(b / total <= 100) by (nonlinear_arith)
                requires
                    b <= 100 * total,
                    total > 0,
            ;
        }
    }
}

/// The percentage is rounded down to a whole one, and all steps done is one
/// hundred, as long as a hundred times the steps is a machine number. Beyond that
/// it is at most too small.
pub proof fn law_percent_rounds_down(step: nat, total: nat)
    requires
        total > 0,
    ensures
        percent_of(step, total) * total <= step * 100,
        step * 100 <= usize::MAX ==> step * 100 < (percent_of(step, total) + 1) * total,
        step == total && step * 100 <= usize::MAX ==> percent_of(step, total) == 100,
{
    let product = saturated(step * 100);
    let percent = product / total;
    assert(percent * total <= product && product < (percent + 1) * total) by (nonlinear_arith)
        requires
            percent == product / total,
            total > 0,
    ;
    if step == total && step * 100 <= usize::MAX {
        assert(percent == 100) by (nonlinear_arith)
            requires
                percent == (100 * total) / total,
                total > 0,
        ;
    }
}

/// The percentage that a progress line shows is at most one hundred, in every
/// state that the operations lead to.
pub proof fn law_shown_percent_is_at_most_hundred(state: ProgressState)
    requires
        state.wf(),
    ensures
        percent_of(state.current_step as nat, state.total_steps as nat) <= 100,
{
    law_percent_grows_to_hundred(
        state.current_step as nat,
        state.current_step as nat,
        state.total_steps as nat,
    );
}

/// Every operation leads from a state with at least one step, at least one byte
/// and no more steps done than there are to another such state.
pub proof fn law_operations_keep_wf(
    state: ProgressState,
    phase: Seq<char>,
    iteration: usize,
    total_iterations: usize,
    steps: usize,
    bytes: usize,
    sample: Rate,
    force: bool,
    now: u128,
    rate_text: Seq<char>,
)
    requires
        state.wf(),
    ensures
        state.begun(phase, iteration, total_iterations, steps, bytes, now).wf(),
        state.measured(bytes, now).wf(),
        state.advanced(steps).wf(),
        state.started(steps).wf(),
        state.completed(sample).wf(),
        state.checked().wf(),
        state.finished(now).wf(),
        state.rendered(force, now, rate_text).wf(),
        state.closed().wf(),
{
}

/// The bytes that the steps done stand for are never more than the operation
/// transfers, and they are all of them once every step is done, as long as the
/// product of both is a machine number.
pub proof fn law_bytes_done_reach_op_size(state: ProgressState)
    requires
        state.wf(),
    ensures
        state.bytes_done() <= state.op_size,
        state.current_step == state.total_steps && state.op_size * state.total_steps <= usize::MAX
            ==> state.bytes_done() == state.op_size,
{
    let size = state.op_size as nat;
    let step = state.current_step as nat;
    let total = state.total_steps as nat;
    let product = saturated(size * step);
    assert(size * step <= size * total) by (nonlinear_arith)
        requires
            step <= total,
    ;
    assert(product / total <= size) by (nonlinear_arith)
        requires
            product <= size * total,
            total > 0,
    ;
    if step == total && size * total <= usize::MAX {
        assert(product / total == size) by (nonlinear_arith)
            requires
                product == size * total,
                total > 0,
        ;
    }
}

/// After a redraw, one that is not forced is dropped until the interval has
/// passed, and is carried out from then on. A forced one always is.
pub proof fn law_redraws_are_throttled(
    state: ProgressState,
    force: bool,
    now: u128,
    rate_text: Seq<char>,
    later: u128,
    later_text: Seq<char>,
)
    requires
        state.rendering(force, now, rate_text) !is Skip,
    ensures
        ({
            let drawn = state.rendered(force, now, rate_text);
            &&& drawn.rendering(false, later, later_text) is Skip <==> elapsed(now, later)
                < RENDER_INTERVAL
            &&& drawn.rendering(false, later, later_text) is Skip ==> drawn.rendered(
                false,
                later,
                later_text,
            ) == drawn
            &&& drawn.rendering(true, later, later_text) !is Skip
        }),
{
}

/// A new progress, and one whose write is over, is redrawn at once.
pub proof fn law_first_redraw_is_due(
    state: ProgressState,
    label: Seq<char>,
    interactive: bool,
    start: u128,
    force: bool,
    now: u128,
    rate_text: Seq<char>,
)
    ensures
        ProgressState::initial(label, interactive, start).rendering(force, now, rate_text) !is Skip,
        state.finished(start).rendering(force, now, rate_text) !is Skip,
{
}

/// A phase that starts on a fresh line is drawn there without touching the line
/// before, and the iterations of one phase share a line: once one is under way,
/// the next of the same phase needs no line break.
pub proof fn law_one_line_per_phase(
    state: ProgressState,
    phase: Seq<char>,
    iteration: usize,
    total_iterations: usize,
    steps: usize,
    bytes: usize,
    start: u128,
    now: u128,
    rate_text: Seq<char>,
)
    ensures
        ({
            let begun = state.begun(phase, iteration, total_iterations, steps, bytes, start);
            &&& state.needs_line_break(phase) ==> begun.rendering(true, now, rate_text)
                == Rendering::Draw(begun.line(rate_text))
            &&& !begun.rendered(true, now, rate_text).needs_line_break(phase)
        }),
{
}

/// While no rate is known, the text of a rate does not show.
pub proof fn law_no_rate_before_the_first_measurement(
    state: ProgressState,
    rate_text: Seq<char>,
    other_text: Seq<char>,
)
    requires
        state.latest_sample is None,
    ensures
        state.line(rate_text) == state.line(other_text),
{
}

proof fn lemma_digits_are_ascii(n: nat, base: nat)
    requires
        2 <= base <= 16,
    ensures
        is_ascii_chars(digits(n, base)),
    decreases n,
{
    if n >= base {
        assert(n / base < n && n % base < base) by (nonlinear_arith)
            requires
                n >= base,
                base >= 2,
        ;
        lemma_digits_are_ascii(n / base, base);
    }
}

proof fn lemma_aligned_is_ascii(s: Seq<char>, width: nat)
    requires
        is_ascii_chars(s),
    ensures
        is_ascii_chars(right_aligned(s, width)),
        is_ascii_chars(left_aligned(s, width)),
{
}

proof fn lemma_sum_is_ascii(a: Seq<char>, b: Seq<char>)
    requires
        is_ascii_chars(a),
        is_ascii_chars(b),
    ensures
        is_ascii_chars(a + b),
{
}

proof fn lemma_literals_of_a_line()
    ensures
        is_ascii_chars("Benchmarking "@),
        "Benchmarking "@.len() == 13,
        is_ascii_chars(" region  "@),
        " region  "@.len() == 9,
        is_ascii_chars("  ("@),
        "  ("@.len() == 3,
        is_ascii_chars("/"@),
        "/"@.len() == 1,
        is_ascii_chars(", "@),
        ", "@.len() == 2,
        is_ascii_chars("%)  "@),
        "%)  "@.len() == 4,
        is_ascii_chars("  "@),
        "  "@.len() == 2,
        is_ascii_chars("verifying"@),
        "verifying"@.len() == 9,
        is_ascii_chars(""@),
        ""@.len() == 0,
{
    reveal_strlit("");
    reveal_strlit("verifying");
    reveal_strlit("Benchmarking ");
    reveal_strlit(" region  ");
    reveal_strlit("  (");
    reveal_strlit("/");
    reveal_strlit(", ");
    reveal_strlit("%)  ");
    reveal_strlit("  ");
}

/// A progress line whose parts are ASCII is ASCII.
pub proof fn law_line_is_ascii(
    label: Seq<char>,
    phase: Seq<char>,
    iteration: nat,
    total_iterations: nat,
    percent: nat,
    sample: Option<Seq<char>>,
    verifying: bool,
)
    requires
        is_ascii_chars(label),
        is_ascii_chars(phase),
        sample matches Some(text) ==> is_ascii_chars(text),
    ensures
        is_ascii_chars(
            line_text(label, phase, iteration, total_iterations, percent, sample, verifying),
        ),
{
    lemma_literals_of_a_line();
    let width = decimal(total_iterations).len();
    let text = match sample {
        Some(text) => text,
        None => ""@,
    };
    let status = if verifying {
        "verifying"@
    } else {
        ""@
    };
    lemma_digits_are_ascii(iteration, 10);
    lemma_digits_are_ascii(total_iterations, 10);
    lemma_digits_are_ascii(percent, 10);
    lemma_aligned_is_ascii(label, 10);
    lemma_aligned_is_ascii(phase, 5);
    lemma_aligned_is_ascii(decimal(iteration), width);
    lemma_aligned_is_ascii(decimal(total_iterations), width);
    lemma_aligned_is_ascii(decimal(percent), 3);
    lemma_aligned_is_ascii(text, 14);
    lemma_aligned_is_ascii(status, 9);
    let s1 = "Benchmarking "@ + right_aligned(label, 10);
    lemma_sum_is_ascii("Benchmarking "@, right_aligned(label, 10));
    let s2 = s1 + " region  "@;
    lemma_sum_is_ascii(s1, " region  "@);
    let s3 = s2 + left_aligned(phase, 5);
    lemma_sum_is_ascii(s2, left_aligned(phase, 5));
    let s4 = s3 + "  ("@;
    lemma_sum_is_ascii(s3, "  ("@);
    let s5 = s4 + right_aligned(decimal(iteration), width);
    lemma_sum_is_ascii(s4, right_aligned(decimal(iteration), width));
    let s6 = s5 + "/"@;
    lemma_sum_is_ascii(s5, "/"@);
    let s7 = s6 + right_aligned(decimal(total_iterations), width);
    lemma_sum_is_ascii(s6, right_aligned(decimal(total_iterations), width));
    let s8 = s7 + ", "@;
    lemma_sum_is_ascii(s7, ", "@);
    let s9 = s8 + right_aligned(decimal(percent), 3);
    lemma_sum_is_ascii(s8, right_aligned(decimal(percent), 3));
    let s10 = s9 + "%)  "@;
    lemma_sum_is_ascii(s9, "%)  "@);
    let s11 = s10 + right_aligned(text, 14);
    lemma_sum_is_ascii(s10, right_aligned(text, 14));
    let s12 = s11 + "  "@;
    lemma_sum_is_ascii(s11, "  "@);
    lemma_sum_is_ascii(s12, left_aligned(status, 9));
}

proof fn lemma_longer_numbers_are_larger(a: nat, b: nat)
    requires
        a <= b,
    ensures
        decimal(a).len() <= decimal(b).len(),
    decreases b,
{
    if a >= 10 {
        lemma_longer_numbers_are_larger(a / 10, b / 10);
    }
}

/// The progress lines of a phase are equally long, as long as the texts fit their
/// columns: the length depends on the number of iterations alone.
pub proof fn law_lines_are_equally_long(
    label: Seq<char>,
    phase: Seq<char>,
    iteration: nat,
    total_iterations: nat,
    percent: nat,
    sample: Option<Seq<char>>,
    verifying: bool,
)
    requires
        label.len() <= 10,
        phase.len() <= 5,
        iteration <= total_iterations,
        percent <= 999,
        sample matches Some(text) ==> text.len() <= 14,
    ensures
        line_text(
            label,
            phase,
            iteration,
            total_iterations,
            percent,
            sample,
            verifying,
        ).len() == 75 + 2 * decimal(total_iterations).len(),
{
    lemma_literals_of_a_line();
    lemma_longer_numbers_are_larger(iteration, total_iterations);
    lemma_longer_numbers_are_larger(percent, 999);
    reveal_with_fuel(digits, 3);
    assert(decimal(999).len() == 3);
}

/// A redraw leaves nothing of the line before on the terminal: behind the
/// carriage return it is at least as wide, if the texts in it are ASCII.
pub proof fn law_redraw_covers_the_line_before(
    state: ProgressState,
    force: bool,
    now: u128,
    rate_text: Seq<char>,
)
    requires
        is_ascii_chars(state.label),
        is_ascii_chars(state.phase),
        is_ascii_chars(rate_text),
        state.line(rate_text).len() <= usize::MAX,
        state.rendered_width > 0,
    ensures
        state.rendering(force, now, rate_text) matches Rendering::Draw(text) ==> {
            &&& text.len() - 1 >= state.rendered_width
            &&& text.len() - 1 >= state.line(rate_text).len()
            &&& text[0] == '\r'
            &&& text.subrange(1, (1 + state.line(rate_text).len()) as int) == state.line(rate_text)
        },
{
    let line = state.line(rate_text);
    law_line_is_ascii(
        state.label,
        state.phase,
        state.current_iteration as nat,
        state.total_iterations as nat,
        percent_of(state.current_step as nat, state.total_steps as nat),
        if state.latest_sample is Some {
            Some(rate_text)
        } else {
            None
        },
        state.verifying,
    );
    is_ascii_chars_encode_utf8(line);
    reveal_strlit("\r");
    let text = "\r"@ + line + repeated(' ', uncovered(state.rendered_width, line));
    assert(byte_len(line) == line.len());
    assert(text.subrange(1, (1 + line.len()) as int) =~= line);
}

/// The percentage is a hundred without any steps, and else the largest whole one
/// that the steps done reach, where a product beyond the machine numbers counts as
/// the largest of them.
pub proof fn law_percent_is_the_largest_reached(step: nat, total: nat)
    ensures
        total == 0 ==> percent_of(step, total) == 100,
        total > 0 ==> {
            let hundredfold = if step * 100 <= usize::MAX {
                (step * 100) as int
            } else {
                usize::MAX as int
            };
            percent_of(step, total) * total <= hundredfold < (percent_of(step, total) + 1) * total
        },
{
    if total > 0 {
        let product = saturated(step * 100);
        let percent = product / total;
        assert(percent * total <= product && product < (percent + 1) * total) by (nonlinear_arith)
            requires
                percent == product / total,
                total > 0,
        ;
    }
}

/// The columns of a progress line, whatever the texts: each part stands whole in
/// its place, and the parts between them are fixed.
pub proof fn law_line_columns(
    label: Seq<char>,
    phase: Seq<char>,
    iteration: nat,
    total_iterations: nat,
    percent: nat,
    sample: Option<Seq<char>>,
    verifying: bool,
)
    ensures
        ({
            let line = line_text(
                label,
                phase,
                iteration,
                total_iterations,
                percent,
                sample,
                verifying,
            );
            let total = digits(total_iterations, 10);
            let number = right_aligned(digits(iteration, 10), total.len());
            let share = right_aligned(digits(percent, 10), 3);
            let rate = right_aligned(
                match sample {
                    Some(text) => text,
                    None => Seq::empty(),
                },
                14,
            );
            let size = right_aligned(label, 10);
            let name = left_aligned(phase, 5);
            let c1 = 13 + size.len() as int;
            let c2 = c1 + 9 + name.len();
            let c3 = c2 + 3 + number.len();
            let c4 = c3 + 1 + total.len();
            let c5 = c4 + 2 + share.len();
            let c6 = c5 + 4 + rate.len();
            &&& line.len() == c6 + 11
            &&& line.subrange(0, 13) == "Benchmarking "@
            &&& line.subrange(13, c1) == size
            &&& line.subrange(c1, c1 + 9) == " region  "@
            &&& line.subrange(c1 + 9, c2) == name
            &&& line.subrange(c2, c2 + 3) == "  ("@
            &&& line.subrange(c2 + 3, c3) == number
            &&& line.subrange(c3, c3 + 1) == "/"@
            &&& line.subrange(c3 + 1, c4) == total
            &&& line.subrange(c4, c4 + 2) == ", "@
            &&& line.subrange(c4 + 2, c5) == share
            &&& line.subrange(c5, c5 + 4) == "%)  "@
            &&& line.subrange(c5 + 4, c6) == rate
            &&& line.subrange(c6, c6 + 2) == "  "@
            &&& line.subrange(c6 + 2, c6 + 11) == if verifying {
                "verifying"@
            } else {
                Seq::new(9, |i: int| ' ')
            }
        }),
{
    lemma_literals_of_a_line();
    let line = line_text(label, phase, iteration, total_iterations, percent, sample, verifying);
    let total = digits(total_iterations, 10);
    let number = right_aligned(digits(iteration, 10), total.len());
    let share = right_aligned(digits(percent, 10), 3);
    let text = match sample {
        Some(text) => text,
        None => Seq::empty(),
    };
    assert(""@ =~= Seq::<char>::empty());
    let rate = right_aligned(text, 14);
    let size = right_aligned(label, 10);
    let name = left_aligned(phase, 5);
    let status = if verifying {
        "verifying"@
    } else {
        ""@
    };
    assert(left_aligned(status, 9) =~= if verifying {
        "verifying"@
    } else {
        Seq::new(9, |i: int| ' ')
    });
    assert(right_aligned(total, total.len()) =~= total);
    let s1 = "Benchmarking "@ + size;
    let s2 = s1 + " region  "@ + name;
    let s3 = s2 + "  ("@ + number;
    let s4 = s3 + "/"@ + total;
    let s5 = s4 + ", "@ + share;
    let s6 = s5 + "%)  "@ + rate;
    assert(line == s6 + "  "@ + left_aligned(status, 9));
    lemma_three_parts(s6, "  "@, left_aligned(status, 9));
    lemma_three_parts(s5, "%)  "@, rate);
    lemma_three_parts(s4, ", "@, share);
    lemma_three_parts(s3, "/"@, total);
    lemma_three_parts(s2, "  ("@, number);
    lemma_three_parts(s1, " region  "@, name);
    lemma_three_parts(Seq::empty(), "Benchmarking "@, size);
    assert(Seq::<char>::empty() + "Benchmarking "@ =~= "Benchmarking "@);
    let c1 = s1.len() as int;
    let c2 = s2.len() as int;
    let c3 = s3.len() as int;
    let c4 = s4.len() as int;
    let c5 = s5.len() as int;
    let c6 = s6.len() as int;
    assert(line.take(c6) =~= s6);
    lemma_take_of_take(line, s6, c6, s5, c5);
    lemma_take_of_take(line, s5, c5, s4, c4);
    lemma_take_of_take(line, s4, c4, s3, c3);
    lemma_take_of_take(line, s3, c3, s2, c2);
    lemma_take_of_take(line, s2, c2, s1, c1);
    lemma_part_of_take(line, s1, 0, 13);
    lemma_part_of_take(line, s1, 13, c1);
    lemma_part_of_take(line, s2, c1, c1 + 9);
    lemma_part_of_take(line, s2, c1 + 9, c2);
    lemma_part_of_take(line, s3, c2, c2 + 3);
    lemma_part_of_take(line, s3, c2 + 3, c3);
    lemma_part_of_take(line, s4, c3, c3 + 1);
    lemma_part_of_take(line, s4, c3 + 1, c4);
    lemma_part_of_take(line, s5, c4, c4 + 2);
    lemma_part_of_take(line, s5, c4 + 2, c5);
    lemma_part_of_take(line, s6, c5, c5 + 4);
    lemma_part_of_take(line, s6, c5 + 4, c6);
}

proof fn lemma_three_parts(a: Seq<char>, b: Seq<char>, c: Seq<char>)
    ensures
        (a + b + c).take(a.len() as int) == a,
        (a + b + c).subrange(a.len() as int, (a.len() + b.len()) as int) == b,
        (a + b + c).subrange(
            (a.len() + b.len()) as int,
            (a.len() + b.len() + c.len()) as int,
        ) == c,
{
    let all = a + b + c;
    assert(all.take(a.len() as int) =~= a);
    assert(all.subrange(a.len() as int, (a.len() + b.len()) as int) =~= b);
    assert(all.subrange((a.len() + b.len()) as int, all.len() as int) =~= c);
}

proof fn lemma_take_of_take(
    line: Seq<char>,
    longer: Seq<char>,
    longer_len: int,
    shorter: Seq<char>,
    shorter_len: int,
)
    requires
        0 <= shorter_len <= longer_len <= line.len(),
        longer.len() == longer_len,
        line.take(longer_len) == longer,
        longer.take(shorter_len) == shorter,
    ensures
        line.take(shorter_len) == shorter,
{
    assert(line.take(shorter_len) =~= line.take(longer_len).take(shorter_len));
}

proof fn lemma_part_of_take(line: Seq<char>, start: Seq<char>, from: int, to: int)
    requires
        start.len() <= line.len(),
        line.take(start.len() as int) == start,
        0 <= from <= to <= start.len(),
    ensures
        line.subrange(from, to) == start.subrange(from, to),
{
    assert(line.take(start.len() as int).subrange(from, to) =~= line.subrange(from, to));
}

/// The line of a progress shows what the progress holds: its label and phase, the
/// iteration among all of them, the share of the steps, the rate if there is one,
/// and whether the data is being verified.
pub proof fn law_line_shows_the_progress(state: ProgressState, rate_text: Seq<char>)
    ensures
        state.line(rate_text) == line_text(
            state.label,
            state.phase,
            state.current_iteration as nat,
            state.total_iterations as nat,
            percent_of(state.current_step as nat, state.total_steps as nat),
            if state.latest_sample is Some {
                Some(rate_text)
            } else {
                None
            },
            state.verifying,
        ),
{
}

/// What a redraw puts out: nothing if it is not forced and the last one is less
/// than fifty milliseconds ago; else on a terminal the line, over the one before
/// if there is one; without a terminal the line to the log if it is forced, and
/// nothing if it is not.
pub proof fn law_output_of_a_redraw(
    state: ProgressState,
    force: bool,
    now: u128,
    rate_text: Seq<char>,
)
    ensures
        ({
            let line = line_text(
                state.label,
                state.phase,
                state.current_iteration as nat,
                state.total_iterations as nat,
                percent_of(state.current_step as nat, state.total_steps as nat),
                if state.latest_sample is Some {
                    Some(rate_text)
                } else {
                    None
                },
                state.verifying,
            );
            let soon = !force && (state.last_render_at matches Some(last) && now < last
                + 50_000_000);
            let output = state.rendering(force, now, rate_text);
            &&& output is Skip <==> soon
            &&& output is Draw <==> !soon && state.interactive
            &&& output is Log <==> !soon && !state.interactive && force
            &&& output is Hide <==> !soon && !state.interactive && !force
            &&& output matches Rendering::Log(text) ==> text == line
            &&& output matches Rendering::Draw(text) ==> if state.rendered_width == 0 {
                text == line
            } else {
                &&& text.len() >= 1 + line.len()
                &&& text[0] == '\r'
                &&& text.subrange(1, (1 + line.len()) as int) == line
                &&& forall|i: int| 1 + line.len() <= i < text.len() ==> text[i] == ' '
                &&& text.len() - 1 - line.len() == {
                    let width = encode_utf8(line).len() as usize;
                    if width < state.rendered_width {
                        state.rendered_width - width
                    } else {
                        0
                    }
                }
            }
        }),
{
    reveal_strlit("\r");
    let line = state.line(rate_text);
    let text = "\r"@ + line + repeated(' ', uncovered(state.rendered_width, line));
    assert(text.subrange(1, (1 + line.len()) as int) =~= line);
}

/// After a redraw its time is known, and on a terminal the width of the line in
/// bytes. One that came too early changes nothing, and no redraw changes anything
/// else.
pub proof fn law_redraw_is_remembered(
    state: ProgressState,
    force: bool,
    now: u128,
    rate_text: Seq<char>,
)
    ensures
        ({
            let after = state.rendered(force, now, rate_text);
            let soon = !force && (state.last_render_at matches Some(last) && now < last
                + 50_000_000);
            &&& soon ==> after == state
            &&& !soon ==> after == (ProgressState {
                last_render_at: Some(now),
                rendered_width: after.rendered_width,
                ..state
            })
            &&& !soon && !state.interactive ==> after.rendered_width == state.rendered_width
            &&& !soon && state.interactive ==> after.rendered_width == encode_utf8(
                state.line(rate_text),
            ).len() as usize
        }),
{
}

/// A new progress has nothing done, nothing shown and no rate.
pub proof fn law_new_progress(label: Seq<char>, interactive: bool, now: u128)
    ensures
        ({
            let state = ProgressState::initial(label, interactive, now);
            &&& state.label == label && state.interactive == interactive
            &&& state.op_started_at == now
            &&& state.last_render_at is None && state.latest_sample is None
            &&& state.rendered_width == 0
            &&& !state.verifying
            &&& state.current_iteration == 0 && state.current_step == 0
            &&& state.total_iterations == 1 && state.total_steps == 1 && state.op_size == 1
            &&& state.phase == "write"@
        }),
{
}

/// An iteration begins with nothing done and no rate, under the given name and
/// number. Steps and bytes are at least one. A line of another phase is left on
/// the terminal; what was drawn when is not forgotten.
pub proof fn law_iteration_begins_afresh(
    state: ProgressState,
    phase: Seq<char>,
    iteration: usize,
    total_iterations: usize,
    steps: usize,
    bytes: usize,
    now: u128,
)
    ensures
        ({
            let begun = state.begun(phase, iteration, total_iterations, steps, bytes, now);
            let fresh_line = state.interactive && state.rendered_width > 0
                && state.current_iteration != 0 && phase != state.phase;
            &&& begun.phase == phase
            &&& begun.current_iteration == iteration
            &&& begun.total_iterations == total_iterations
            &&& steps > 0 ==> begun.total_steps == steps
            &&& bytes > 0 ==> begun.op_size == bytes
            &&& steps == 0 ==> begun.total_steps == 1
            &&& bytes == 0 ==> begun.op_size == 1
            &&& begun.current_step == 0
            &&& begun.op_started_at == now
            &&& begun.latest_sample is None
            &&& !begun.verifying
            &&& begun.label == state.label && begun.interactive == state.interactive
            &&& begun.last_render_at == state.last_render_at
            &&& state.needs_line_break(phase) <==> fresh_line
            &&& fresh_line ==> begun.rendered_width == 0
            &&& !fresh_line ==> begun.rendered_width == state.rendered_width
        }),
{
}

/// A measurement is the bytes done and the time since the operation started, if
/// both are above zero; else the rate stays. Nothing else changes.
pub proof fn law_measurement(state: ProgressState, bytes: usize, now: u128)
    ensures
        ({
            let after = state.measured(bytes, now);
            let counts = bytes > 0 && now > state.op_started_at;
            &&& after == (ProgressState { latest_sample: after.latest_sample, ..state })
            &&& !counts ==> after.latest_sample == state.latest_sample
            &&& counts ==> {
                &&& after.latest_sample matches Some(rate)
                &&& rate.bytes == bytes
                &&& state.op_started_at + rate.nanos == now
            }
        }),
{
}

/// A step counts up to the last one, and nothing else changes.
pub proof fn law_step_counts_up_to_the_last(state: ProgressState, step: usize)
    ensures
        ({
            let after = state.advanced(step);
            &&& after == (ProgressState { current_step: after.current_step, ..state })
            &&& step <= state.total_steps ==> after.current_step == step
            &&& step > state.total_steps ==> after.current_step == state.total_steps
        }),
{
}

/// The bytes done are the same share of all bytes as the steps done of all steps,
/// rounded down, where a product beyond the machine numbers counts as the largest
/// of them.
pub proof fn law_bytes_done_are_the_share_of_the_steps(state: ProgressState)
    requires
        state.wf(),
    ensures
        ({
            let product = if state.op_size * state.current_step <= usize::MAX {
                state.op_size * state.current_step
            } else {
                usize::MAX as int
            };
            state.bytes_done() * state.total_steps <= product < (state.bytes_done() + 1)
                * state.total_steps
        }),
{
    law_bytes_done_reach_op_size(state);
    let product = saturated(state.op_size as nat * state.current_step as nat);
    let total = state.total_steps as nat;
    let done = product / total;
    assert(done * total <= product && product < (done + 1) * total) by (nonlinear_arith)
        requires
            done == product / total,
            total > 0,
    ;
    assert(done <= product) by (nonlinear_arith)
        requires
            done * total <= product,
            total > 0,
    ;
}

/// A write that starts has nothing done and at least one step. One that is being
/// verified has all done. A completed iteration has all done and its rate, and is
/// not being verified any more. Nothing else changes in each.
pub proof fn law_write_and_its_end(state: ProgressState, total: usize, sample: Rate)
    ensures
        ({
            let started = state.started(total);
            &&& started == (ProgressState {
                total_steps: started.total_steps,
                current_step: 0,
                verifying: false,
                ..state
            })
            &&& total > 0 ==> started.total_steps == total
            &&& total == 0 ==> started.total_steps == 1
        }),
        state.checked() == (ProgressState {
            current_step: state.total_steps,
            verifying: true,
            ..state
        }),
        state.completed(sample) == (ProgressState {
            current_step: state.total_steps,
            latest_sample: Some(sample),
            verifying: false,
            ..state
        }),
{
}

/// A finished write has all done, its rate is that of all its bytes, and the next
/// redraw is due. Nothing else changes.
pub proof fn law_finished_write(state: ProgressState, now: u128)
    requires
        state.wf(),
    ensures
        ({
            let after = state.finished(now);
            &&& after == (ProgressState {
                current_step: state.total_steps,
                last_render_at: None,
                latest_sample: after.latest_sample,
                ..state
            })
            &&& now <= state.op_started_at ==> after.latest_sample == state.latest_sample
            &&& now > state.op_started_at ==> {
                &&& after.latest_sample matches Some(rate)
                &&& rate.bytes == state.op_size
                &&& state.op_started_at + rate.nanos == now
            }
        }),
{
}

/// Once the line is ended there is none on the terminal. Nothing else changes.
pub proof fn law_closed_progress(state: ProgressState)
    ensures
        state.closed() == (ProgressState {
            rendered_width: state.closed().rendered_width,
            ..state
        }),
        state.interactive ==> state.closed().rendered_width == 0,
        !state.interactive ==> state.closed().rendered_width == state.rendered_width,
{
}

} // verus!
