//! The reporter: renders the statistic sections that a configuration lists,
//! in its order, as lines of text each tagged with an emphasis.
use vstd::prelude::*;
use vstd::string::StringExecFns;
use crate::stats::Summary;

verus! {

/// The kinds of section a report can show. A configuration is a sequence of
/// them; it may repeat or omit any.
#[derive(Clone, Copy, Debug, PartialEq, Eq, Structural)]
pub enum DisplayCfg {
    SysInfo,
    Mean,
    Median,
    Quartiles,
    Deviation,
    AbsMin,
    QuartileMin,
    AbsMax,
    QuartileMax,
    AbsDiff,
    Space,
}

/// How a presentation layer should set a line apart: facts about the run,
/// values read straight from the samples, values that summarise the sample,
/// and values that describe the shape of the distribution.
#[derive(Clone, Copy, Debug, PartialEq, Eq, Structural)]
pub enum Emphasis {
    System,
    Raw,
    Derived,
    Shape,
}

/// One rendered line, without its line break.
#[derive(Debug)]
pub struct Line {
    pub text: String,
    pub emphasis: Emphasis,
}

impl View for Line {
    type V = (Seq<char>, Emphasis);

    open spec fn view(&self) -> (Seq<char>, Emphasis) {
        (self.text@, self.emphasis)
    }
}

/// What a report states about the run besides the statistics.
#[derive(Clone, Copy, Debug, PartialEq, Eq, Structural)]
pub struct RunInfo {
    /// Workers per round.
    pub threads: usize,
    /// Samples in the store.
    pub samples: usize,
    /// Cumulative wall-clock time of all executions, in nanoseconds.
    pub runtime: u64,
}

/// The text that std's `Debug` gives a `Duration` of `nanos` nanoseconds
/// (`1.5ms`, `42ns`).
pub uninterp spec fn duration_debug(nanos: u64) -> Seq<char>;

/// Relies on std's `Debug` for `core::time::Duration`.
#[verifier::external_body]
fn duration_text(nanos: u64) -> (r: String)
    ensures
        r@ == duration_debug(nanos),
{
    format!("{:?}", core::time::Duration::from_nanos(nanos))
}

/// The decimal digit `d`.
pub open spec fn digit(d: nat) -> char {
    seq!['0', '1', '2', '3', '4', '5', '6', '7', '8', '9'][d as int]
}

/// `n` in decimal, without leading zeros.
pub open spec fn decimal(n: nat) -> Seq<char>
    decreases n,
{
    if n < 10 {
        seq![digit(n)]
    } else {
        decimal(n / 10).push(digit(n % 10))
    }
}

/// Relies on std's `Display` for `usize`, which writes the number in decimal.
#[verifier::external_body]
fn count_text(n: usize) -> (r: String)
    ensures
        r@ == decimal(n as nat),
{
    n.to_string()
}

/// A line of `label` followed by `value`.
pub open spec fn labelled(label: Seq<char>, value: Seq<char>, e: Emphasis) -> (Seq<char>, Emphasis) {
    (label + value, e)
}

/// An empty line.
pub open spec fn blank(e: Emphasis) -> (Seq<char>, Emphasis) {
    (Seq::empty(), e)
}

/// The lines of one section.
pub open spec fn section_lines(c: DisplayCfg, info: RunInfo, m: Summary) -> Seq<(Seq<char>, Emphasis)> {
    match c {
        DisplayCfg::SysInfo => seq![
            labelled("    threads used: "@, decimal(info.threads as nat), Emphasis::System),
            labelled("    total tests ran: "@, decimal(info.samples as nat), Emphasis::System),
            labelled("    total runtime: "@, duration_debug(info.runtime), Emphasis::System),
            blank(Emphasis::System),
        ],
        DisplayCfg::Mean => seq![labelled("    mean: "@, duration_debug(m.mean), Emphasis::Derived)],
        DisplayCfg::Median => seq![labelled("    median: "@, duration_debug(m.median), Emphasis::Raw)],
        DisplayCfg::Quartiles => seq![
            labelled("    Q1: "@, duration_debug(m.q1), Emphasis::Raw),
            labelled("    Q2: "@, duration_debug(m.median), Emphasis::Raw),
            labelled("    Q3: "@, duration_debug(m.q3), Emphasis::Raw),
        ],
        DisplayCfg::Deviation => seq![
            labelled("    deviation: "@, duration_debug(m.deviation), Emphasis::Shape),
            blank(Emphasis::Shape),
        ],
        DisplayCfg::AbsMin => seq![labelled("    min: "@, duration_debug(m.min), Emphasis::Raw)],
        DisplayCfg::QuartileMin => seq![
            labelled("    quartile min: "@, duration_debug(m.quartile_min), Emphasis::Raw),
        ],
        DisplayCfg::AbsMax => seq![labelled("    max: "@, duration_debug(m.max), Emphasis::Raw)],
        DisplayCfg::QuartileMax => seq![
            labelled("    quartile max: "@, duration_debug(m.quartile_max), Emphasis::Raw),
        ],
        DisplayCfg::AbsDiff => seq![labelled("    diff: "@, duration_debug(m.range), Emphasis::Shape)],
        DisplayCfg::Space => seq![blank(Emphasis::Raw)],
    }
}

/// The lines of a report: the lines of each configured section, section after
/// section, in the configured order.
pub open spec fn report_spec(config: Seq<DisplayCfg>, info: RunInfo, m: Summary) -> Seq<(Seq<char>, Emphasis)> {
    config.map_values(|c: DisplayCfg| section_lines(c, info, m)).flatten()
}

/// The text and emphasis of each line.
pub open spec fn lines_view(lines: Seq<Line>) -> Seq<(Seq<char>, Emphasis)> {
    lines.map_values(|l: Line| l@)
}

/// The text of a report: each line followed by a line break.
pub open spec fn text_of(lines: Seq<(Seq<char>, Emphasis)>) -> Seq<char> {
    lines.map_values(|l: (Seq<char>, Emphasis)| l.0 + "\n"@).flatten()
}

/// Appends the line `label` followed by `value`.
fn push_line(out: &mut Vec<Line>, label: &str, value: String, emphasis: Emphasis)
    ensures
        lines_view(final(out)@) == lines_view(old(out)@).push(labelled(label@, value@, emphasis)),
{
    let mut text = String::from_str(label);
    text.append(value.as_str());
    out.push(Line { text, emphasis });
    assert(lines_view(out@) =~= lines_view(old(out)@).push(labelled(label@, value@, emphasis)));
}

/// Appends an empty line.
fn push_blank(out: &mut Vec<Line>, emphasis: Emphasis)
    ensures
        lines_view(final(out)@) == lines_view(old(out)@).push(blank(emphasis)),
{
    let text = String::new();
    out.push(Line { text, emphasis });
    assert(lines_view(out@) =~= lines_view(old(out)@).push(blank(emphasis)));
}

/// Appends the lines of the section `c`.
fn push_section(out: &mut Vec<Line>, c: DisplayCfg, info: &RunInfo, m: &Summary)
    ensures
        lines_view(final(out)@) == lines_view(old(out)@) + section_lines(c, *info, *m),
{
    match c {
        DisplayCfg::SysInfo => {
            push_line(out, "    threads used: ", count_text(info.threads), Emphasis::System);
            push_line(out, "    total tests ran: ", count_text(info.samples), Emphasis::System);
            push_line(out, "    total runtime: ", duration_text(info.runtime), Emphasis::System);
            push_blank(out, Emphasis::System);
        },
        DisplayCfg::Mean => {
            push_line(out, "    mean: ", duration_text(m.mean), Emphasis::Derived);
        },
        DisplayCfg::Median => {
            push_line(out, "    median: ", duration_text(m.median), Emphasis::Raw);
        },
        DisplayCfg::Quartiles => {
            push_line(out, "    Q1: ", duration_text(m.q1), Emphasis::Raw);
            push_line(out, "    Q2: ", duration_text(m.median), Emphasis::Raw);
            push_line(out, "    Q3: ", duration_text(m.q3), Emphasis::Raw);
        },
        DisplayCfg::Deviation => {
            push_line(out, "    deviation: ", duration_text(m.deviation), Emphasis::Shape);
            push_blank(out, Emphasis::Shape);
        },
        DisplayCfg::AbsMin => {
            push_line(out, "    min: ", duration_text(m.min), Emphasis::Raw);
        },
        DisplayCfg::QuartileMin => {
            push_line(out, "    quartile min: ", duration_text(m.quartile_min), Emphasis::Raw);
        },
        DisplayCfg::AbsMax => {
            push_line(out, "    max: ", duration_text(m.max), Emphasis::Raw);
        },
        DisplayCfg::QuartileMax => {
            push_line(out, "    quartile max: ", duration_text(m.quartile_max), Emphasis::Raw);
        },
        DisplayCfg::AbsDiff => {
            push_line(out, "    diff: ", duration_text(m.range), Emphasis::Shape);
        },
        DisplayCfg::Space => {
            push_blank(out, Emphasis::Raw);
        },
    }
    assert(lines_view(out@) =~= lines_view(old(out)@) + section_lines(c, *info, *m));
}

/// Renders the sections that `config` lists, in its order.
pub fn render(config: &Vec<DisplayCfg>, info: &RunInfo, m: &Summary) -> (r: Vec<Line>)
    ensures
        lines_view(r@) == report_spec(config@, *info, *m),
{
    let mut out: Vec<Line> = Vec::new();
    let mut i: usize = 0;
    assert(config@.take(0).map_values(|c: DisplayCfg| section_lines(c, *info, *m)) =~= Seq::empty());
    assert(lines_view(out@) =~= Seq::empty());
    while i < config.len()
        invariant
            i <= config.len(),
            lines_view(out@) == report_spec(config@.take(i as int), *info, *m),
        decreases config.len() - i,
    {
        push_section(&mut out, config[i], info, m);
        proof {
            let done = config@.take(i as int).map_values(|c: DisplayCfg| section_lines(c, *info, *m));
            assert(config@.take(i as int + 1).map_values(|c: DisplayCfg| section_lines(c, *info, *m))
                == done.push(section_lines(config@[i as int], *info, *m)));
            done.lemma_flatten_push(section_lines(config@[i as int], *info, *m));
        }
        i = i + 1;
    }
    assert(config@.take(config.len() as int) == config@);
    out
}

/// Joins rendered lines into one text, each line followed by a line break.
pub fn join_lines(lines: &Vec<Line>) -> (r: String)
    ensures
        r@ == text_of(lines_view(lines@)),
{
    let mut text = String::new();
    let mut i: usize = 0;
    assert(lines_view(lines@.take(0)).map_values(|l: (Seq<char>, Emphasis)| l.0 + "\n"@) =~= Seq::empty());
    while i < lines.len()
        invariant
            i <= lines.len(),
            text@ == text_of(lines_view(lines@.take(i as int))),
        decreases lines.len() - i,
    {
        text.append(lines[i].text.as_str());
        text.append("\n");
        proof {
            let done = lines_view(lines@.take(i as int)).map_values(|l: (Seq<char>, Emphasis)| l.0 + "\n"@);
            assert(lines_view(lines@.take(i as int + 1)).map_values(|l: (Seq<char>, Emphasis)| l.0 + "\n"@)
                =~= done.push(lines@[i as int].text@ + "\n"@));
            done.lemma_flatten_push(lines@[i as int].text@ + "\n"@);
            assert(text@ =~= done.flatten() + (lines@[i as int].text@ + "\n"@));
        }
        i = i + 1;
    }
    assert(lines@.take(lines.len() as int) == lines@);
    text
}

/// A report on one section is that section's lines.
pub proof fn lemma_report_single(c: DisplayCfg, info: RunInfo, m: Summary)
    ensures
        report_spec(seq![c], info, m) == section_lines(c, info, m),
{
    let parts = seq![c].map_values(|d: DisplayCfg| section_lines(d, info, m));
    assert(parts =~= seq![section_lines(c, info, m)]);
    parts.lemma_flatten_singleton();
}

/// The report on two configurations, one after the other, is the report on
/// the first followed by the report on the second: sections render one by
/// one, in the configured order, repeats included, and nothing else is added.
pub proof fn lemma_report_concat(a: Seq<DisplayCfg>, b: Seq<DisplayCfg>, info: RunInfo, m: Summary)
    ensures
        report_spec(a + b, info, m) == report_spec(a, info, m) + report_spec(b, info, m),
{
    let f = |d: DisplayCfg| section_lines(d, info, m);
    assert((a + b).map_values(f) =~= a.map_values(f) + b.map_values(f));
    vstd::seq_lib::lemma_flatten_concat(a.map_values(f), b.map_values(f));
}

} // verus!
