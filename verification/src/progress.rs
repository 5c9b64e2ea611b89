//! The progress of one benchmarked size: what has been done, how fast, and what
//! the progress line shows.

use crate::text::{
    decimal, decimal_text, left_aligned, push_left_aligned, push_repeated, push_right_aligned,
    repeated, right_aligned,
};
use vstd::prelude::*;
use vstd::utf8::encode_utf8;

verus! {

/// Shortest time between two redraws that are not forced, in nanoseconds.
pub const RENDER_INTERVAL: u128 = 50_000_000;

/// A transfer rate, kept as what was measured.
#[derive(Debug, Clone, Copy, PartialEq, Eq, Structural)]
pub struct Rate {
    /// Bytes transferred.
    pub bytes: usize,
    /// Time taken, in nanoseconds.
    pub nanos: u128,
}

/// How the progress line is to be redrawn.
#[derive(Debug, Clone, Copy, PartialEq, Eq, Structural)]
pub struct Redraw {
    /// End the line on the screen first.
    pub line_break: bool,
    /// Redraw however short ago the last time was.
    pub force: bool,
}

/// What to put out for a redraw.
#[derive(Debug, PartialEq, Eq)]
pub enum RenderAction {
    /// Nothing: the last redraw is too recent.
    Skip,
    /// This text to the terminal.
    Draw(String),
    /// This line to the log.
    Log(String),
    /// Nothing: there is no terminal and the line is not worth a log entry.
    Hide,
}

/// The share of `step` in `total` in whole percent, rounded down. Without any
/// steps everything is done. The product saturates.
pub open spec fn percent_of(step: nat, total: nat) -> nat {
    if total == 0 {
        100
    } else {
        saturated(step * 100) / total
    }
}

/// `n`, or the largest `usize` if `n` is above it.
pub open spec fn saturated(n: nat) -> nat {
    if n <= usize::MAX {
        n
    } else {
        usize::MAX as nat
    }
}

fn saturating_product(a: usize, b: usize) -> (product: usize)
    ensures
        product == saturated(a as nat * b as nat),
{
    match a.checked_mul(b) {
        Some(product) => product,
        None => usize::MAX,
    }
}

/// The share of `step` in `total` in whole percent.
pub fn progress_percent(step: usize, total: usize) -> (percent: usize)
    ensures
        percent == percent_of(step as nat, total as nat),
        total == 0 ==> percent == 100,
        total > 0 ==> percent == (if step * 100 <= usize::MAX {
            step * 100
        } else {
            usize::MAX as int
        }) / total as int,
{
    if total == 0 {
        return 100;
    }
    saturating_product(step, 100) / total
}

/// The text of the progress line.
pub open spec fn line_text(
    label: Seq<char>,
    phase: Seq<char>,
    iteration: nat,
    total_iterations: nat,
    percent: nat,
    sample: Option<Seq<char>>,
    verifying: bool,
) -> Seq<char> {
    let iteration_width = decimal(total_iterations).len();
    let sample = match sample {
        Some(text) => text,
        None => ""@,
    };
    let status = if verifying {
        "verifying"@
    } else {
        ""@
    };
    "Benchmarking "@ + right_aligned(label, 10) + " region  "@ + left_aligned(phase, 5) + "  ("@
        + right_aligned(decimal(iteration), iteration_width) + "/"@ + right_aligned(
        decimal(total_iterations),
        iteration_width,
    ) + ", "@ + right_aligned(decimal(percent), 3) + "%)  "@ + right_aligned(sample, 14) + "  "@
        + left_aligned(status, 9)
}

/// Builds the progress line; `sample` is the text of the latest rate, if any.
pub fn progress_line(
    label: &str,
    phase: &str,
    iteration: usize,
    total_iterations: usize,
    percent: usize,
    sample: Option<&str>,
    verifying: bool,
) -> (line: String)
    ensures
        line@ == line_text(
            label@,
            phase@,
            iteration as nat,
            total_iterations as nat,
            percent as nat,
            match sample {
                Some(text) => Some(text@),
                None => None,
            },
            verifying,
        ),
        line@ == "Benchmarking "@ + right_aligned(label@, 10) + " region  "@ + left_aligned(
            phase@,
            5,
        ) + "  ("@ + right_aligned(
            decimal(iteration as nat),
            decimal(total_iterations as nat).len(),
        ) + "/"@ + decimal(total_iterations as nat) + ", "@ + right_aligned(
            decimal(percent as nat),
            3,
        ) + "%)  "@ + right_aligned(
            match sample {
                Some(text) => text@,
                None => Seq::empty(),
            },
            14,
        ) + "  "@ + left_aligned(
            if verifying {
                "verifying"@
            } else {
                Seq::empty()
            },
            9,
        ),
{
    proof {
        reveal_strlit("");
        assert(""@ =~= Seq::<char>::empty());
        let number = decimal(total_iterations as nat);
        assert(right_aligned(number, number.len()) =~= number);
    }
    let total = decimal_text(total_iterations as u64);
    let iteration_width: usize = total.as_str().unicode_len();
    let sample_text: &str = match sample {
        Some(text) => text,
        None => "",
    };
    let status: &str = if verifying {
        "verifying"
    } else {
        ""
    };
    let mut out = String::new();
    out.append("Benchmarking ");
    push_right_aligned(&mut out, label, 10);
    out.append(" region  ");
    push_left_aligned(&mut out, phase, 5);
    out.append("  (");
    push_right_aligned(&mut out, decimal_text(iteration as u64).as_str(), iteration_width);
    out.append("/");
    push_right_aligned(&mut out, total.as_str(), iteration_width);
    out.append(", ");
    push_right_aligned(&mut out, decimal_text(percent as u64).as_str(), 3);
    out.append("%)  ");
    push_right_aligned(&mut out, sample_text, 14);
    out.append("  ");
    push_left_aligned(&mut out, status, 9);
    assert(out@ =~= line_text(
        label@,
        phase@,
        iteration as nat,
        total_iterations as nat,
        percent as nat,
        match sample {
            Some(text) => Some(text@),
            None => None,
        },
        verifying,
    ));
    out
}

/// The time from `since` to `now`; zero if `now` is earlier.
pub open spec fn elapsed(since: u128, now: u128) -> u128 {
    if since <= now {
        (now - since) as u128
    } else {
        0
    }
}

/// The length of a text in bytes.
pub open spec fn byte_len(text: Seq<char>) -> usize {
    encode_utf8(text).len() as usize
}

/// What a redraw puts out, as characters.
pub enum Rendering {
    /// See [`RenderAction::Skip`].
    Skip,
    /// See [`RenderAction::Draw`].
    Draw(Seq<char>),
    /// See [`RenderAction::Log`].
    Log(Seq<char>),
    /// See [`RenderAction::Hide`].
    Hide,
}

impl View for RenderAction {
    type V = Rendering;

    open spec fn view(&self) -> Rendering {
        match *self {
            RenderAction::Skip => Rendering::Skip,
            RenderAction::Draw(text) => Rendering::Draw(text@),
            RenderAction::Log(line) => Rendering::Log(line@),
            RenderAction::Hide => Rendering::Hide,
        }
    }
}

/// What a [`TestProgress`] holds. Times are in nanoseconds since some fixed
/// instant.
pub struct ProgressState {
    /// The size that is benchmarked.
    pub label: Seq<char>,
    /// Whether the line is drawn on a terminal.
    pub interactive: bool,
    /// When the line was last drawn, unless the next redraw is due anyway.
    pub last_render_at: Option<u128>,
    /// The latest rate.
    pub latest_sample: Option<Rate>,
    /// Bytes that the running operation transfers.
    pub op_size: usize,
    /// When the running operation started.
    pub op_started_at: u128,
    /// The name of the phase.
    pub phase: Seq<char>,
    /// Length in bytes of the line on the terminal, zero if there is none.
    pub rendered_width: usize,
    /// Number of iterations of the phase.
    pub total_iterations: usize,
    /// Number of steps of the running operation.
    pub total_steps: usize,
    /// Whether the written data is being verified.
    pub verifying: bool,
    /// The running iteration, counted from one; zero before the first.
    pub current_iteration: usize,
    /// Steps done.
    pub current_step: usize,
}

impl ProgressState {
    /// What every operation keeps: there is at least one step and one byte, and
    /// no more steps are done than there are.
    pub open spec fn wf(self) -> bool {
        &&& self.total_steps >= 1
        &&& self.op_size >= 1
        &&& self.current_step <= self.total_steps
    }

    /// Nothing done yet.
    pub open spec fn initial(label: Seq<char>, interactive: bool, now: u128) -> ProgressState {
        ProgressState {
            label,
            interactive,
            last_render_at: None,
            latest_sample: None,
            op_size: 1,
            op_started_at: now,
            phase: "write"@,
            rendered_width: 0,
            total_iterations: 1,
            total_steps: 1,
            verifying: false,
            current_iteration: 0,
            current_step: 0,
        }
    }

    /// Whether a phase of this name starts on a fresh line: another phase has
    /// left its line on the terminal.
    pub open spec fn needs_line_break(self, phase: Seq<char>) -> bool {
        &&& self.interactive
        &&& self.rendered_width > 0
        &&& self.current_iteration != 0
        &&& phase != self.phase
    }

    /// An iteration of a phase begins.
    pub open spec fn begun(
        self,
        phase: Seq<char>,
        iteration: usize,
        total_iterations: usize,
        total_steps: usize,
        op_size: usize,
        now: u128,
    ) -> ProgressState {
        ProgressState {
            phase,
            current_iteration: iteration,
            total_iterations,
            total_steps: at_least_one(total_steps),
            current_step: 0,
            op_size: at_least_one(op_size),
            op_started_at: now,
            latest_sample: None,
            verifying: false,
            rendered_width: if self.needs_line_break(phase) {
                0
            } else {
                self.rendered_width
            },
            ..self
        }
    }

    /// `bytes` are done at `now`: the latest rate is that since the operation
    /// started, if any time has passed and anything is done.
    pub open spec fn measured(self, bytes: usize, now: u128) -> ProgressState {
        let nanos = elapsed(self.op_started_at, now);
        if nanos != 0 && bytes > 0 {
            ProgressState { latest_sample: Some(Rate { bytes, nanos }), ..self }
        } else {
            self
        }
    }

    /// `step` is reached.
    pub open spec fn advanced(self, step: usize) -> ProgressState {
        ProgressState {
            current_step: if step < self.total_steps {
                step
            } else {
                self.total_steps
            },
            ..self
        }
    }

    /// The share of the bytes of the operation that the steps done stand for.
    /// The product saturates.
    pub open spec fn bytes_done(self) -> usize {
        (saturated(self.op_size as nat * self.current_step as nat) / self.total_steps as nat)
            as usize
    }

    /// The operation starts over with `total` steps.
    pub open spec fn started(self, total: usize) -> ProgressState {
        ProgressState {
            total_steps: at_least_one(total),
            current_step: 0,
            verifying: false,
            ..self
        }
    }

    /// The iteration is done and gave `sample`.
    pub open spec fn completed(self, sample: Rate) -> ProgressState {
        ProgressState {
            current_step: self.total_steps,
            latest_sample: Some(sample),
            verifying: false,
            ..self
        }
    }

    /// The transfer is done and is being verified.
    pub open spec fn checked(self) -> ProgressState {
        ProgressState { current_step: self.total_steps, verifying: true, ..self }
    }

    /// The operation is done; the next redraw is due at once.
    pub open spec fn finished(self, now: u128) -> ProgressState {
        ProgressState {
            last_render_at: None,
            ..(ProgressState { current_step: self.total_steps, ..self }).measured(self.op_size, now)
        }
    }

    /// The progress line, where `rate_text` is the text of the latest rate.
    pub open spec fn line(self, rate_text: Seq<char>) -> Seq<char> {
        line_text(
            self.label,
            self.phase,
            self.current_iteration as nat,
            self.total_iterations as nat,
            percent_of(self.current_step as nat, self.total_steps as nat),
            if self.latest_sample is Some {
                Some(rate_text)
            } else {
                None
            },
            self.verifying,
        )
    }

    /// Whether a redraw at `now` comes too early.
    pub open spec fn too_soon(self, force: bool, now: u128) -> bool {
        !force && self.last_render_at is Some && elapsed(self.last_render_at->0, now)
            < RENDER_INTERVAL
    }

    /// What a redraw puts out. A line that is already on the terminal is
    /// overwritten, with spaces over what the new one does not reach.
    pub open spec fn rendering(self, force: bool, now: u128, rate_text: Seq<char>) -> Rendering {
        let line = self.line(rate_text);
        if self.too_soon(force, now) {
            Rendering::Skip
        } else if self.interactive {
            if self.rendered_width == 0 {
                Rendering::Draw(line)
            } else {
                Rendering::Draw("\r"@ + line + repeated(' ', uncovered(self.rendered_width, line)))
            }
        } else if force {
            Rendering::Log(line)
        } else {
            Rendering::Hide
        }
    }

    /// The state after a redraw.
    pub open spec fn rendered(self, force: bool, now: u128, rate_text: Seq<char>) -> ProgressState {
        if self.too_soon(force, now) {
            self
        } else {
            ProgressState {
                rendered_width: if self.interactive {
                    byte_len(self.line(rate_text))
                } else {
                    self.rendered_width
                },
                last_render_at: Some(now),
                ..self
            }
        }
    }

    /// The line on the terminal, if there is one, is ended.
    pub open spec fn closed(self) -> ProgressState {
        ProgressState {
            rendered_width: if self.interactive {
                0
            } else {
                self.rendered_width
            },
            ..self
        }
    }
}

/// `n`, but at least one.
pub open spec fn at_least_one(n: usize) -> usize {
    if n == 0 {
        1
    } else {
        n
    }
}

/// How many bytes of an old line of the given width stick out behind `line`.
pub open spec fn uncovered(width: usize, line: Seq<char>) -> nat {
    if byte_len(line) < width {
        (width - byte_len(line)) as nat
    } else {
        0
    }
}

/// The progress of one benchmarked size.
#[derive(Debug)]
pub struct TestProgress {
    label: String,
    interactive: bool,
    last_render_at: Option<u128>,
    latest_sample: Option<Rate>,
    op_size: usize,
    op_started_at: u128,
    phase: String,
    rendered_width: usize,
    total_iterations: usize,
    total_steps: usize,
    verifying: bool,
    current_iteration: usize,
    current_step: usize,
}

impl View for TestProgress {
    type V = ProgressState;

    closed spec fn view(&self) -> ProgressState {
        ProgressState {
            label: self.label@,
            interactive: self.interactive,
            last_render_at: self.last_render_at,
            latest_sample: self.latest_sample,
            op_size: self.op_size,
            op_started_at: self.op_started_at,
            phase: self.phase@,
            rendered_width: self.rendered_width,
            total_iterations: self.total_iterations,
            total_steps: self.total_steps,
            verifying: self.verifying,
            current_iteration: self.current_iteration,
            current_step: self.current_step,
        }
    }
}

impl TestProgress {
    /// Starts with nothing done. `interactive` says whether the line goes to a
    /// terminal.
    pub fn new(label: String, interactive: bool, now: u128) -> (progress: TestProgress)
        ensures
            progress@ == ProgressState::initial(label@, interactive, now),
            progress@.wf(),
    {
        TestProgress {
            label,
            interactive,
            last_render_at: None,
            latest_sample: None,
            op_size: 1,
            op_started_at: now,
            phase: "write".to_owned(),
            rendered_width: 0,
            total_iterations: 1,
            total_steps: 1,
            verifying: false,
            current_iteration: 0,
            current_step: 0,
        }
    }

    /// Begins an iteration of a phase.
    pub fn begin_phase(
        &mut self,
        phase: &str,
        iteration: usize,
        total_iterations: usize,
        total_steps: usize,
        op_size: usize,
        now: u128,
    ) -> (redraw: Redraw)
        ensures
            final(self)@ == old(self)@.begun(
                phase@,
                iteration,
                total_iterations,
                total_steps,
                op_size,
                now,
            ),
            final(self)@.wf(),
            redraw == (Redraw { line_break: old(self)@.needs_line_break(phase@), force: true }),
    {
        let name = phase.to_owned();
        let phase_changed: bool = self.current_iteration != 0 && !(name == self.phase);
        let line_break: bool = self.interactive && self.rendered_width > 0 && phase_changed;
        if line_break {
            self.rendered_width = 0;
        }
        self.phase = name;
        self.current_iteration = iteration;
        self.total_iterations = total_iterations;
        self.total_steps = if total_steps == 0 {
            1
        } else {
            total_steps
        };
        self.current_step = 0;
        self.op_size = if op_size == 0 {
            1
        } else {
            op_size
        };
        self.op_started_at = now;
        self.latest_sample = None;
        self.verifying = false;
        Redraw { line_break, force: true }
    }

    /// Notes a step of a read and the bytes read so far.
    pub fn update_read_step(
        &mut self,
        current_step: usize,
        bytes_read: usize,
        now: u128,
    ) -> (redraw: Redraw)
        ensures
            final(self)@ == old(self)@.advanced(current_step).measured(bytes_read, now),
            old(self)@.wf() ==> final(self)@.wf(),
            redraw == (Redraw { line_break: false, force: false }),
    {
        self.advance(current_step);
        self.update_live_rate(bytes_read, now);
        Redraw { line_break: false, force: false }
    }

    /// Ends an iteration with its result.
    pub fn complete_sample(&mut self, sample: Rate) -> (redraw: Redraw)
        ensures
            final(self)@ == old(self)@.completed(sample),
            old(self)@.wf() ==> final(self)@.wf(),
            redraw == (Redraw { line_break: false, force: true }),
    {
        self.current_step = self.total_steps;
        self.latest_sample = Some(sample);
        self.verifying = false;
        Redraw { line_break: false, force: true }
    }

    /// Redraws the progress line. `rate_text` is the text of the latest rate; it
    /// is left out while there is none.
    pub fn render(&mut self, force: bool, now: u128, rate_text: &str) -> (action: RenderAction)
        ensures
            action@ == old(self)@.rendering(force, now, rate_text@),
            final(self)@ == old(self)@.rendered(force, now, rate_text@),
            old(self)@.wf() ==> final(self)@.wf(),
            ({
                let line = line_text(
                    old(self)@.label,
                    old(self)@.phase,
                    old(self)@.current_iteration as nat,
                    old(self)@.total_iterations as nat,
                    percent_of(old(self)@.current_step as nat, old(self)@.total_steps as nat),
                    if old(self)@.latest_sample is Some {
                        Some(rate_text@)
                    } else {
                        None
                    },
                    old(self)@.verifying,
                );
                let soon = !force && (old(self)@.last_render_at matches Some(last) && now < last
                    + 50_000_000);
                let width = old(self)@.rendered_width;
                let line_width = encode_utf8(line).len() as usize;
                match action {
                    RenderAction::Skip => soon && final(self)@ == old(self)@,
                    RenderAction::Draw(text) => {
                        &&& !soon && old(self)@.interactive
                        &&& width == 0 ==> text@ == line
                        &&& width > 0 ==> text@ == seq!['\r'] + line + Seq::new(
                            (if line_width < width {
                                width - line_width
                            } else {
                                0
                            }) as nat,
                            |i: int| ' ',
                        )
                        &&& final(self)@ == (ProgressState {
                            rendered_width: line_width,
                            last_render_at: Some(now),
                            ..old(self)@
                        })
                    },
                    RenderAction::Log(text) => {
                        &&& !soon && !old(self)@.interactive && force
                        &&& text@ == line
                        &&& final(self)@ == (ProgressState {
                            last_render_at: Some(now),
                            ..old(self)@
                        })
                    },
                    RenderAction::Hide => {
                        &&& !soon && !old(self)@.interactive && !force
                        &&& final(self)@ == (ProgressState {
                            last_render_at: Some(now),
                            ..old(self)@
                        })
                    },
                }
            }),
    {
        if !force {
            if let Some(last) = self.last_render_at {
                if now.saturating_sub(last) < RENDER_INTERVAL {
                    return RenderAction::Skip;
                }
            }
        }
        let sample: Option<&str> = match self.latest_sample {
            Some(_) => Some(rate_text),
            None => None,
        };
        let line = progress_line(
            self.label.as_str(),
            self.phase.as_str(),
            self.current_iteration,
            self.total_iterations,
            progress_percent(self.current_step, self.total_steps),
            sample,
            self.verifying,
        );
        self.last_render_at = Some(now);
        if self.interactive {
            let width: usize = line.as_str().len();
            let old_width: usize = self.rendered_width;
            self.rendered_width = width;
            if old_width == 0 {
                return RenderAction::Draw(line);
            }
            let mut text = String::new();
            text.append("\r");
            text.append(line.as_str());
            proof {
                reveal_strlit(" ");
            }
            push_repeated(&mut text, " ", old_width.saturating_sub(width));
            assert(text@ =~= "\r"@ + line@ + repeated(' ', uncovered(old_width, line@)));
            proof {
                reveal_strlit("\r");
                assert("\r"@ =~= seq!['\r']);
                assert(repeated(' ', uncovered(old_width, line@)) =~= Seq::new(
                    (if width < old_width {
                        old_width - width
                    } else {
                        0
                    }) as nat,
                    |i: int| ' ',
                ));
            }
            RenderAction::Draw(text)
        } else if force {
            RenderAction::Log(line)
        } else {
            RenderAction::Hide
        }
    }

    /// Notes the bytes done by the running operation.
    pub fn update_live_rate(&mut self, bytes_done: usize, now: u128)
        ensures
            final(self)@ == old(self)@.measured(bytes_done, now),
            old(self)@.wf() ==> final(self)@.wf(),
    {
        let nanos: u128 = now.saturating_sub(self.op_started_at);
        if nanos != 0 && bytes_done > 0 {
            self.latest_sample = Some(Rate { bytes: bytes_done, nanos });
        }
    }

    fn advance(&mut self, step: usize)
        ensures
            final(self)@ == old(self)@.advanced(step),
    {
        self.current_step = if step < self.total_steps {
            step
        } else {
            self.total_steps
        };
    }

    /// A write of `total` steps starts.
    pub fn init(&mut self, total: usize)
        ensures
            final(self)@ == old(self)@.started(total),
            old(self)@.wf() ==> final(self)@.wf(),
    {
        self.total_steps = if total == 0 {
            1
        } else {
            total
        };
        self.current_step = 0;
        self.verifying = false;
    }

    /// A write has come to the step `current`.
    pub fn update(&mut self, current: usize, now: u128) -> (redraw: Redraw)
        requires
            old(self)@.wf(),
        ensures
            ({
                let advanced = old(self)@.advanced(current);
                final(self)@ == advanced.measured(advanced.bytes_done(), now)
            }),
            final(self)@.wf(),
            redraw == (Redraw { line_break: false, force: false }),
    {
        self.advance(current);
        let bytes_done: usize = saturating_product(self.op_size, self.current_step)
            / self.total_steps;
        self.update_live_rate(bytes_done, now);
        Redraw { line_break: false, force: false }
    }

    /// A write is complete and being verified.
    pub fn verifying(&mut self) -> (redraw: Redraw)
        ensures
            final(self)@ == old(self)@.checked(),
            old(self)@.wf() ==> final(self)@.wf(),
            redraw == (Redraw { line_break: false, force: true }),
    {
        self.current_step = self.total_steps;
        self.verifying = true;
        Redraw { line_break: false, force: true }
    }

    /// A write is over.
    pub fn finish(&mut self, now: u128)
        ensures
            final(self)@ == old(self)@.finished(now),
            old(self)@.wf() ==> final(self)@.wf(),
    {
        self.current_step = self.total_steps;
        self.update_live_rate(self.op_size, now);
        self.last_render_at = None;
    }

    /// Ends the line on the terminal; returns whether there is one to end.
    pub fn close(&mut self) -> (line_break: bool)
        ensures
            line_break == (old(self)@.interactive && old(self)@.rendered_width > 0),
            final(self)@ == old(self)@.closed(),
            old(self)@.wf() ==> final(self)@.wf(),
    {
        if self.interactive && self.rendered_width > 0 {
            self.rendered_width = 0;
            true
        } else {
            false
        }
    }

    /// The latest rate, if any.
    pub fn latest_sample(&self) -> (sample: Option<Rate>)
        ensures
            sample == self@.latest_sample,
    {
        self.latest_sample
    }
}

} // verus!
