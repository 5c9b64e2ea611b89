use flash_benchmark::args::{BenchmarkArgs, ConnectArgs, ResetAfterOperation};
use flash_benchmark::progress::{
    progress_line, progress_percent, Rate, Redraw, RenderAction, TestProgress, RENDER_INTERVAL,
};
use flash_benchmark::report::{
    connection_lines, fitting_unit, flash_lines, header_field, header_lines, SummaryText,
    TransferText,
};
use flash_benchmark::text::{
    decimal_text, hex_text, push_left_aligned, push_repeated, push_right_aligned,
};

const MS: u128 = 1_000_000;

#[test]
fn progress_percent_rounds_to_whole_percent() {
    assert_eq!(progress_percent(1, 4), 25);
    assert_eq!(progress_percent(2, 3), 66);
    assert_eq!(progress_percent(4, 4), 100);
}

#[test]
fn percent_of_extremes() {
    assert_eq!(progress_percent(0, 0), 100);
    assert_eq!(progress_percent(7, 0), 100);
    assert_eq!(progress_percent(0, 9), 0);
    assert_eq!(progress_percent(usize::MAX, usize::MAX), 1);
}

#[test]
fn progress_line_includes_phase_and_iteration_counts() {
    assert_eq!(
        progress_line("64.00 KiB", "skip", 2, 5, 40, Some("128.00 KiB/s"), false),
        "Benchmarking  64.00 KiB region  skip   (2/5,  40%)    128.00 KiB/s           "
    );
}

#[test]
fn progress_line_without_rate_while_verifying() {
    assert_eq!(
        progress_line("1.00 MiB", "write", 7, 10, 100, None, true),
        "Benchmarking   1.00 MiB region  write  ( 7/10, 100%)                  verifying"
    );
}

#[test]
fn numbers_and_columns() {
    assert_eq!(decimal_text(0), "0");
    assert_eq!(decimal_text(u64::MAX), "18446744073709551615");
    assert_eq!(hex_text(0xdeadbeef, 8), "deadbeef");
    assert_eq!(hex_text(0x9a, 8), "0000009a");
    assert_eq!(hex_text(0, 2), "00");
    assert_eq!(hex_text(0x12345, 2), "12345");
    let mut out = String::from("|");
    push_right_aligned(&mut out, "ab", 4);
    push_left_aligned(&mut out, "\u{e4}", 3);
    push_left_aligned(&mut out, "toolong", 3);
    push_repeated(&mut out, "-", 2);
    assert_eq!(out, "|  ab\u{e4}  toolong--");
}

fn line(action: RenderAction) -> String {
    match action {
        RenderAction::Draw(text) => text,
        RenderAction::Log(text) => text,
        _ => panic!("nothing was drawn"),
    }
}

#[test]
fn redraws_overwrite_the_line_before() {
    let mut progress = TestProgress::new("4.00 KiB".to_string(), true, 0);
    progress.begin_phase("write", 1, 1000, 4, 4096, 0);
    let first = line(progress.render(true, 0, "unused"));
    assert_eq!(
        first,
        "Benchmarking   4.00 KiB region  write  (   1/1000,   0%)                           "
    );
    progress.begin_phase("write", 2, 5, 4, 4096, 0);
    let second = line(progress.render(true, 0, "unused"));
    let short = "Benchmarking   4.00 KiB region  write  (2/5,   0%)                           ";
    assert_eq!(second, format!("\r{short}      "));
    assert_eq!(second.len() - 1, first.len());
    let third = line(progress.render(true, 0, "unused"));
    assert_eq!(third, format!("\r{short}"));
}

#[test]
fn unforced_redraws_are_throttled() {
    let mut progress = TestProgress::new("x".to_string(), true, 0);
    assert_ne!(progress.render(false, 10 * MS, ""), RenderAction::Skip);
    assert_eq!(progress.render(false, 59 * MS, ""), RenderAction::Skip);
    assert_eq!(
        progress.render(false, 10 * MS + RENDER_INTERVAL - 1, ""),
        RenderAction::Skip
    );
    assert_eq!(progress.render(false, 5 * MS, ""), RenderAction::Skip);
    assert_ne!(
        progress.render(false, 10 * MS + RENDER_INTERVAL, ""),
        RenderAction::Skip
    );
    assert_ne!(progress.render(true, 61 * MS, ""), RenderAction::Skip);
    progress.finish(62 * MS);
    assert_ne!(progress.render(false, 63 * MS, ""), RenderAction::Skip);
}

#[test]
fn without_a_terminal_only_forced_lines_are_logged() {
    let mut progress = TestProgress::new("x".to_string(), false, 0);
    assert_eq!(progress.render(false, 0, ""), RenderAction::Hide);
    assert_eq!(progress.render(false, 1, ""), RenderAction::Skip);
    assert!(matches!(progress.render(true, 2, ""), RenderAction::Log(_)));
    assert!(!progress.close());
}

#[test]
fn a_new_phase_starts_on_a_new_line() {
    let mut progress = TestProgress::new("x".to_string(), true, 0);
    let redraw = progress.begin_phase("read", 1, 2, 1, 1, 0);
    assert_eq!(redraw, Redraw { line_break: false, force: true });
    progress.render(true, 0, "");
    assert!(!progress.begin_phase("read", 2, 2, 1, 1, 0).line_break);
    progress.render(true, 0, "");
    assert!(progress.begin_phase("skip", 1, 2, 1, 1, 0).line_break);
    assert!(!line(progress.render(true, 0, "")).starts_with('\r'));
    assert!(progress.close());
    assert!(!progress.close());
}

#[test]
fn live_rates_need_time_and_bytes() {
    let mut progress = TestProgress::new("x".to_string(), true, 0);
    progress.begin_phase("write", 1, 1, 4, 4000, 100);
    progress.update_live_rate(10, 100);
    assert_eq!(progress.latest_sample(), None);
    progress.update_live_rate(0, 200);
    assert_eq!(progress.latest_sample(), None);
    progress.update_live_rate(10, 50);
    assert_eq!(progress.latest_sample(), None);
    progress.update_live_rate(10, 250);
    assert_eq!(progress.latest_sample(), Some(Rate { bytes: 10, nanos: 150 }));
    assert!(line(progress.render(true, 250, "9 B/s")).contains("         9 B/s  "));
}

#[test]
fn write_callbacks_drive_the_progress() {
    let mut progress = TestProgress::new("x".to_string(), true, 0);
    progress.begin_phase("write", 1, 3, 1, 4000, 0);
    progress.init(8);
    assert_eq!(
        progress.update(2, 10),
        Redraw { line_break: false, force: false }
    );
    assert_eq!(progress.latest_sample(), Some(Rate { bytes: 1000, nanos: 10 }));
    assert!(line(progress.render(true, 0, "r")).contains("(1/3,  25%)"));
    progress.update(100, 20);
    assert_eq!(progress.latest_sample(), Some(Rate { bytes: 4000, nanos: 20 }));
    assert!(line(progress.render(true, 0, "r")).contains("(1/3, 100%)"));
    progress.init(0);
    assert!(line(progress.render(true, 0, "r")).contains("(1/3,   0%)"));
    assert!(progress.verifying().force);
    assert!(line(progress.render(true, 0, "r")).contains("100%)"));
    assert!(line(progress.render(true, 0, "r")).ends_with("verifying"));
    progress.finish(40);
    assert_eq!(progress.latest_sample(), Some(Rate { bytes: 4000, nanos: 40 }));
    let sample = Rate { bytes: 4000, nanos: 44 };
    assert!(progress.complete_sample(sample).force);
    assert_eq!(progress.latest_sample(), Some(sample));
    assert!(!line(progress.render(true, 0, "r")).ends_with("verifying"));
}

#[test]
fn read_steps_drive_the_progress() {
    let mut progress = TestProgress::new("x".to_string(), true, 0);
    progress.begin_phase("read", 1, 1, 4, 16, 0);
    assert!(!progress.update_read_step(3, 12, 6).force);
    assert_eq!(progress.latest_sample(), Some(Rate { bytes: 12, nanos: 6 }));
    assert!(line(progress.render(true, 0, "r")).contains(" 75%)"));
    progress.update_read_step(9, 16, 8);
    assert!(line(progress.render(true, 0, "r")).contains("100%)"));
}

#[test]
fn header_shows_the_setup() {
    let args = BenchmarkArgs {
        connect_args: ConnectArgs {
            after: ResetAfterOperation::HardReset,
            no_stub: false,
        },
        address: 0x100000,
        sizes: vec![0x100000],
        iterations: 5,
        block_size: 0x1000,
        max_in_flight: 64,
    };
    assert_eq!(
        header_lines("esp32c3", 115200, &args, "1.00 MiB"),
        vec![
            "Chip             esp32c3",
            "Loader           stub",
            "Baud             115200",
            "Benchmark region 0x00100000 (+ up to 1.00 MiB)",
            "Iterations       5",
        ]
    );
    let rom = BenchmarkArgs {
        connect_args: ConnectArgs {
            after: ResetAfterOperation::HardReset,
            no_stub: true,
        },
        ..args
    };
    assert_eq!(header_lines("c", 1, &rom, "")[1], "Loader           ROM");
    assert_eq!(header_field("a label that is too long", "v"), "a label that is too long v");
}

fn summary(mean: &str, stddev: &str) -> SummaryText {
    SummaryText {
        mean: mean.to_string(),
        stddev: stddev.to_string(),
    }
}

#[test]
fn report_shows_the_results() {
    assert_eq!(
        connection_lines(&summary("1.25s", "10.00ms")),
        vec!["Connection:", "  connect            1.25s +- 10.00ms"]
    );
    let result = TransferText {
        size: "1.00 MiB".to_string(),
        write: summary("80.00 KiB/s", "1.00 KiB/s"),
        read: summary("90.00 KiB/s", "2.00 KiB/s"),
        skip: summary("1.00 MiB/s", "3.00 KiB/s"),
    };
    assert_eq!(
        flash_lines(&vec![result]),
        vec![
            "Flash:",
            "  1.00 MiB",
            "    write        80.00 KiB/s +- 1.00 KiB/s",
            "    read         90.00 KiB/s +- 2.00 KiB/s",
            "    skip          1.00 MiB/s +- 3.00 KiB/s",
        ]
    );
    assert_eq!(flash_lines(&vec![]), vec!["Flash:"]);
}

#[test]
fn report_has_four_lines_per_size() {
    let result = |size: &str| TransferText {
        size: size.to_string(),
        write: summary("w", "1"),
        read: summary("r", "2"),
        skip: summary("s", "3"),
    };
    let lines = flash_lines(&vec![result("one"), result("two"), result("three")]);
    assert_eq!(lines.len(), 13);
    assert_eq!(lines[1], "  one");
    assert_eq!(lines[5], "  two");
    assert_eq!(lines[9], "  three");
    assert_eq!(lines[8], "    skip                   s +- 3");
}

#[test]
fn progress_line_of_ascii_parts_is_ascii() {
    let line = progress_line("1.00 MiB", "read", 3, 12, 99, Some("inf GiB/s"), false);
    assert!(line.is_ascii());
    assert_eq!(line.len(), line.chars().count());
}

#[test]
fn rate_text_does_not_show_before_a_measurement() {
    let mut progress = TestProgress::new("x".to_string(), true, 0);
    progress.begin_phase("write", 1, 1, 1, 1, 0);
    let blank = line(progress.render(true, 0, ""));
    progress.close();
    assert_eq!(line(progress.render(true, 0, "1 B/s")), blank);
}

#[test]
fn units_fit_the_number_of_bytes() {
    assert_eq!(fitting_unit(0, 4), 0);
    assert_eq!(fitting_unit(1023, 4), 0);
    assert_eq!(fitting_unit(1024, 4), 1);
    assert_eq!(fitting_unit(1024 * 1024 - 1, 4), 1);
    assert_eq!(fitting_unit(1024 * 1024, 4), 2);
    assert_eq!(fitting_unit(1 << 30, 4), 3);
    assert_eq!(fitting_unit(u64::MAX, 4), 3);
    assert_eq!(fitting_unit(u64::MAX, 1), 0);
}

#[test]
fn progress_lines_of_a_phase_are_equally_long() {
    let first = progress_line("4.00 KiB", "read", 1, 12, 0, None, false);
    let middle = progress_line("64.00 KiB", "skip", 7, 12, 55, Some("1.00 B/s"), false);
    let last = progress_line("512.00 KiB", "write", 12, 12, 100, Some("128.00 KiB/s"), true);
    assert_eq!(first.len(), 75 + 2 * 2);
    assert_eq!(middle.len(), first.len());
    assert_eq!(last.len(), first.len());
    let beyond = progress_line("4.00 KiB", "read", 1, 12, 999, None, false);
    assert_eq!(beyond.len(), first.len());
}

#[test]
fn a_wide_label_makes_the_progress_line_longer() {
    let narrow = progress_line("512.00 KiB", "read", 1, 5, 0, None, false);
    let wide = progress_line("1023.99 MiB", "read", 1, 5, 0, None, false);
    assert_eq!(wide.len(), narrow.len() + 1);
}
