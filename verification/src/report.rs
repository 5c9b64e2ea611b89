//! What a benchmark tells the user before and after the measurements.

use crate::args::BenchmarkArgs;
use crate::text::{
    decimal, decimal_text, digits, hex, hex_text, left_aligned, push_left_aligned,
    push_right_aligned, right_aligned,
};
use vstd::arithmetic::div_mod::lemma_div_denominator;
use vstd::arithmetic::power::{
    lemma_pow0, lemma_pow1, lemma_pow_adds, lemma_pow_increases, lemma_pow_positive, pow,
};
use vstd::prelude::*;

verus! {

/// Width of the label column of the header.
pub const HEADER_LABEL_WIDTH: usize = 16;

/// Mean and standard deviation of some samples, as text.
#[derive(Debug, PartialEq, Eq)]
pub struct SummaryText {
    /// The mean.
    pub mean: String,
    /// The standard deviation.
    pub stddev: String,
}

/// The results for one region size, as text.
#[derive(Debug, PartialEq, Eq)]
pub struct TransferText {
    /// The size of the region.
    pub size: String,
    /// Rates of the write phase.
    pub write: SummaryText,
    /// Rates of the read phase.
    pub read: SummaryText,
    /// Rates of the skip phase.
    pub skip: SummaryText,
}

/// The characters of several lines.
pub open spec fn characters(lines: Seq<String>) -> Seq<Seq<char>> {
    lines.map_values(|line: String| line@)
}

/// A line of the header.
pub open spec fn header_field_text(label: Seq<char>, value: Seq<char>) -> Seq<char> {
    left_aligned(label, HEADER_LABEL_WIDTH as nat) + " "@ + value
}

/// A line of the header.
pub fn header_field(label: &str, value: &str) -> (line: String)
    ensures
        line@ == header_field_text(label@, value@),
{
    let mut out = String::new();
    push_left_aligned(&mut out, label, HEADER_LABEL_WIDTH);
    out.append(" ");
    out.append(value);
    assert(out@ =~= header_field_text(label@, value@));
    out
}

/// The name of the loader.
pub open spec fn loader_name(no_stub: bool) -> Seq<char> {
    if no_stub {
        "ROM"@
    } else {
        "stub"@
    }
}

/// The flash region that is overwritten.
pub open spec fn region_text(address: u32, largest: Seq<char>) -> Seq<char> {
    "0x"@ + hex(address as nat, 8) + " (+ up to "@ + largest + ")"@
}

/// The header of a benchmark.
pub open spec fn header(
    chip: Seq<char>,
    baud: u32,
    args: BenchmarkArgs,
    largest: Seq<char>,
) -> Seq<Seq<char>> {
    seq![
        header_field_text("Chip"@, chip),
        header_field_text("Loader"@, loader_name(args.connect_args.no_stub)),
        header_field_text("Baud"@, decimal(baud as nat)),
        header_field_text("Benchmark region"@, region_text(args.address, largest)),
        header_field_text("Iterations"@, decimal(args.iterations as nat)),
    ]
}

/// The lines of the header; `largest` is the text of the largest size.
pub fn header_lines(chip: &str, baud: u32, args: &BenchmarkArgs, largest: &str) -> (lines: Vec<
    String,
>)
    ensures
        characters(lines@) == header(chip@, baud, *args, largest@),
        lines@.len() == 5,
        forall|k: int|
            0 <= k < 5 ==> (#[trigger] lines@[k])@ == header(chip@, baud, *args, largest@)[k],
{
    let mut region = String::new();
    region.append("0x");
    region.append(hex_text(args.address as u64, 8).as_str());
    region.append(" (+ up to ");
    region.append(largest);
    region.append(")");
    assert(region@ =~= region_text(args.address, largest@));
    let loader: &str = if args.connect_args.no_stub {
        "ROM"
    } else {
        "stub"
    };
    let mut lines: Vec<String> = Vec::new();
    lines.push(header_field("Chip", chip));
    lines.push(header_field("Loader", loader));
    lines.push(header_field("Baud", decimal_text(baud as u64).as_str()));
    lines.push(header_field("Benchmark region", region.as_str()));
    lines.push(header_field("Iterations", decimal_text(args.iterations as u64).as_str()));
    assert(characters(lines@) =~= header(chip@, baud, *args, largest@));
    assert(forall|k: int| 0 <= k < 5 ==> characters(lines@)[k] == (#[trigger] lines@[k])@);
    lines
}

/// A result: `title`, the mean in a column of `width` characters, and the
/// standard deviation.
pub open spec fn result_text(
    title: Seq<char>,
    width: nat,
    mean: Seq<char>,
    stddev: Seq<char>,
) -> Seq<char> {
    title + right_aligned(mean, width) + " +- "@ + stddev
}

fn result_line(title: &str, width: usize, summary: &SummaryText) -> (line: String)
    ensures
        line@ == result_text(title@, width as nat, summary.mean@, summary.stddev@),
{
    let mut out = String::new();
    out.append(title);
    push_right_aligned(&mut out, summary.mean.as_str(), width);
    out.append(" +- ");
    out.append(summary.stddev.as_str());
    assert(out@ =~= result_text(title@, width as nat, summary.mean@, summary.stddev@));
    out
}

/// The lines about the connection times.
pub fn connection_lines(summary: &SummaryText) -> (lines: Vec<String>)
    ensures
        characters(lines@) == seq![
            "Connection:"@,
            result_text("  connect "@, 16, summary.mean@, summary.stddev@),
        ],
        lines@.len() == 2,
        lines@[0]@ == "Connection:"@,
        lines@[1]@ == "  connect "@ + right_aligned(summary.mean@, 16) + " +- "@ + summary.stddev@,
{
    let mut lines: Vec<String> = Vec::new();
    lines.push("Connection:".to_owned());
    lines.push(result_line("  connect ", 16, summary));
    assert(characters(lines@) =~= seq![
        "Connection:"@,
        result_text("  connect "@, 16, summary.mean@, summary.stddev@),
    ]);
    lines
}

/// The part of the report about one size.
pub open spec fn transfer_report(result: TransferText) -> Seq<Seq<char>> {
    seq![
        "  "@ + result.size@,
        result_text("    write "@, 18, result.write.mean@, result.write.stddev@),
        result_text("    read  "@, 18, result.read.mean@, result.read.stddev@),
        result_text("    skip  "@, 18, result.skip.mean@, result.skip.stddev@),
    ]
}

/// The report about all sizes.
pub open spec fn flash_report(results: Seq<TransferText>) -> Seq<Seq<char>>
    decreases results.len(),
{
    if results.len() == 0 {
        seq!["Flash:"@]
    } else {
        flash_report(results.drop_last()) + transfer_report(results.last())
    }
}

/// The lines about the transfer rates of all sizes.
pub fn flash_lines(results: &Vec<TransferText>) -> (lines: Vec<String>)
    ensures
        characters(lines@) == flash_report(results@),
        lines@.len() == flash_report(results@).len(),
        forall|k: int| 0 <= k < lines@.len() ==> (#[trigger] lines@[k])@ == flash_report(results@)[k],
{
    let mut lines: Vec<String> = Vec::new();
    lines.push("Flash:".to_owned());
    assert(characters(lines@) =~= seq!["Flash:"@]);
    let mut i: usize = 0;
    while i < results.len()
        invariant
            i <= results@.len(),
            characters(lines@) == flash_report(results@.take(i as int)),
        decreases results@.len() - i,
    {
        let ghost before = lines@;
        let result = &results[i];
        let mut title = String::new();
        title.append("  ");
        title.append(result.size.as_str());
        assert(title@ =~= "  "@ + result.size@);
        lines.push(title);
        lines.push(result_line("    write ", 18, &result.write));
        lines.push(result_line("    read  ", 18, &result.read));
        lines.push(result_line("    skip  ", 18, &result.skip));
        assert(characters(lines@) =~= characters(before) + transfer_report(*result));
        assert(results@.take(i + 1).drop_last() =~= results@.take(i as int));
        assert(results@.take(i + 1).last() == *result);
        i = i + 1;
    }
    assert(results@.take(i as int) =~= results@);
    assert(forall|k: int| 0 <= k < lines@.len() ==> characters(lines@)[k] == (#[trigger] lines@[k])@);
    lines
}

/// Whether a number of bytes is best given in the unit number `unit` of `units`
/// units, each of which is 1024 times the one before: it is at least one of
/// them, unless the unit is the smallest, and less than one of the next, unless
/// the unit is the largest.
pub open spec fn is_fitting_unit(bytes: nat, units: nat, unit: nat) -> bool {
    &&& unit < units
    &&& unit > 0 ==> pow(1024, unit) <= bytes
    &&& unit + 1 < units ==> bytes < pow(1024, unit + 1)
}

/// The number of the unit in which to give a number of bytes; a fraction of a
/// byte does not count.
pub fn fitting_unit(bytes: u64, units: usize) -> (unit: usize)
    requires
        units > 0,
    ensures
        is_fitting_unit(bytes as nat, units as nat, unit as nat),
        unit < units,
        unit > 0 ==> pow(1024, unit as nat) <= bytes,
        unit + 1 < units ==> bytes < pow(1024, (unit + 1) as nat),
{
    let mut value: u64 = bytes;
    let mut unit: usize = 0;
    proof {
        lemma_pow0(1024);
        lemma_pow1(1024);
    }
    while value >= 1024 && unit < units - 1
        invariant
            unit < units,
            value == bytes as int / pow(1024, unit as nat),
            pow(1024, unit as nat) > 0,
            unit > 0 ==> pow(1024, unit as nat) <= bytes,
        decreases units - unit,
    {
        proof {
            lemma_next_unit(bytes as int, unit as nat);
        }
        value = value / 1024;
        unit = unit + 1;
    }
    proof {
        lemma_next_unit(bytes as int, unit as nat);
    }
    unit
}

proof fn lemma_next_unit(bytes: int, unit: nat)
    requires
        bytes >= 0,
    ensures
        pow(1024, unit) > 0,
        pow(1024, unit + 1) > 0,
        bytes / pow(1024, unit + 1) == (bytes / pow(1024, unit)) / 1024,
        bytes / pow(1024, unit) >= 1024 <==> bytes >= pow(1024, unit + 1),
{
    let p = pow(1024, unit);
    lemma_pow_positive(1024, unit);
    lemma_pow_positive(1024, unit + 1);
    lemma_pow1(1024);
    lemma_pow_adds(1024, unit, 1);
    lemma_div_denominator(bytes, p, 1024);
    assert(bytes / p >= 1024 <==> bytes >= p * 1024) by (nonlinear_arith)
        requires
            p > 0,
            bytes >= 0,
    ;
}

/// There is only one fitting unit.
pub proof fn law_fitting_unit_is_unique(bytes: nat, units: nat, a: nat, b: nat)
    requires
        is_fitting_unit(bytes, units, a),
        is_fitting_unit(bytes, units, b),
    ensures
        a == b,
{
    if a < b {
        lemma_pow_increases(1024, a + 1, b);
    } else if b < a {
        lemma_pow_increases(1024, b + 1, a);
    }
}

/// The report has a title and four lines for each size, in the order of the
/// results.
pub proof fn law_report_shape(results: Seq<TransferText>, k: int)
    requires
        0 <= k < results.len(),
    ensures
        flash_report(results).len() == 1 + 4 * results.len(),
        flash_report(results).subrange(1 + 4 * k, 5 + 4 * k) == transfer_report(results[k]),
        flash_report(results)[0] == "Flash:"@,
    decreases results.len(),
{
    let before = results.drop_last();
    if before.len() == 0 {
        assert(flash_report(before) == seq!["Flash:"@]);
        assert(flash_report(results).subrange(1, 5) =~= transfer_report(results[0]));
    } else {
        law_report_shape(before, if k < before.len() {
            k
        } else {
            0
        });
        assert(flash_report(results).subrange(1 + 4 * k, 5 + 4 * k) =~= if k < before.len() {
            flash_report(before).subrange(1 + 4 * k, 5 + 4 * k)
        } else {
            transfer_report(results[k])
        });
    }
}

/// A line of the header starts with its label, whole; the value follows in column
/// seventeen, or behind a label that is too long and one blank; between them there
/// are only blanks.
pub proof fn law_header_field_columns(label: Seq<char>, value: Seq<char>, i: int)
    ensures
        ({
            let line = header_field_text(label, value);
            let column = if label.len() < 16 {
                17
            } else {
                label.len() + 1
            };
            &&& line.len() == column + value.len()
            &&& line.take(label.len() as int) == label
            &&& line.skip(column as int) == value
            &&& label.len() <= i < column ==> line[i] == ' '
        }),
{
    reveal_strlit(" ");
    let line = header_field_text(label, value);
    let column = if label.len() < 16 {
        17
    } else {
        label.len() + 1
    };
    assert(line.take(label.len() as int) =~= label);
    assert(line.skip(column as int) =~= value);
}

/// The header names the chip, the loader, the baud rate, the region and the number
/// of iterations, one to a line. The region is its address, as eight hexadecimal
/// digits, and the largest size.
pub proof fn law_header_lines(chip: Seq<char>, baud: u32, args: BenchmarkArgs, largest: Seq<char>)
    ensures
        ({
            let lines = header(chip, baud, args, largest);
            &&& lines.len() == 5
            &&& lines[0] == header_field_text("Chip"@, chip)
            &&& args.connect_args.no_stub ==> lines[1] == header_field_text("Loader"@, "ROM"@)
            &&& !args.connect_args.no_stub ==> lines[1] == header_field_text("Loader"@, "stub"@)
            &&& lines[2] == header_field_text("Baud"@, digits(baud as nat, 10))
            &&& lines[3] == header_field_text(
                "Benchmark region"@,
                "0x"@ + hex(args.address as nat, 8) + " (+ up to "@ + largest + ")"@,
            )
            &&& lines[4] == header_field_text(
                "Iterations"@,
                digits(args.iterations as nat, 10),
            )
        }),
{
}

/// A result line starts with its title and ends with the standard deviation; the
/// mean stands between them, whole, at the right end of its column, before the
/// sign for the deviation.
pub proof fn law_result_line_columns(
    title: Seq<char>,
    width: nat,
    mean: Seq<char>,
    stddev: Seq<char>,
    i: int,
)
    ensures
        ({
            let line = result_text(title, width, mean, stddev);
            let end = title.len() + if mean.len() < width {
                width
            } else {
                mean.len()
            };
            &&& line.len() == end + 4 + stddev.len()
            &&& line.take(title.len() as int) == title
            &&& line.subrange(end - mean.len(), end as int) == mean
            &&& line.subrange(end as int, (end + 4) as int) == " +- "@
            &&& line.skip((end + 4) as int) == stddev
            &&& title.len() <= i < end - mean.len() ==> line[i] == ' '
        }),
{
    reveal_strlit(" +- ");
    let line = result_text(title, width, mean, stddev);
    let end = title.len() + if mean.len() < width {
        width
    } else {
        mean.len()
    };
    assert(line.take(title.len() as int) =~= title);
    assert(line.subrange(end - mean.len(), end as int) =~= mean);
    assert(line.subrange(end as int, (end + 4) as int) =~= " +- "@);
    assert(line.skip((end + 4) as int) =~= stddev);
}

/// The part of a size names it and gives the rates of write, read and skip, each
/// under its name, in this order.
pub proof fn law_report_of_a_size(result: TransferText)
    ensures
        ({
            let lines = transfer_report(result);
            &&& lines.len() == 4
            &&& lines[0] == "  "@ + result.size@
            &&& lines[1] == result_text(
                "    write "@,
                18,
                result.write.mean@,
                result.write.stddev@,
            )
            &&& lines[2] == result_text("    read  "@, 18, result.read.mean@, result.read.stddev@)
            &&& lines[3] == result_text("    skip  "@, 18, result.skip.mean@, result.skip.stddev@)
        }),
{
}

} // verus!
