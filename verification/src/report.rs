//! Deciding and wording the per-device output of an invocation.
//!
//! The reporting pass re-enumerates and re-selects the devices after the
//! adjustment pass has fully drained, probes each kept element, and turns
//! each probe into at most one line. Lines number the devices from 0 by
//! their position in the re-filtered sequence. A probe that failed gets an
//! error line at its position; it never silences the remaining devices.
use vstd::prelude::*;
use vstd::string::StringExecFns;
use crate::error::DeviceError;
use crate::render::spec_decimal;
use crate::render::decimal_string;
use crate::{MAX_BRIGHTNESS, MIN_BRIGHTNESS};

verus! {

/// How much an invocation prints per device. The modes are mutually
/// exclusive by construction.
pub enum BrightnessOutput {
    /// Full narrative: position, name, level, and a callout at the range
    /// bounds.
    Default,
    /// Only the level, as a percentage.
    Percent,
    /// No per-device output at all, whatever succeeds or fails.
    Quiet,
}

/// Where a level stands against the range bounds: the callouts the
/// narrative mode flags.
pub enum LevelMark {
    /// At or above `MAX_BRIGHTNESS`.
    Maximum,
    /// At or under `MIN_BRIGHTNESS`.
    Minimum,
    /// Strictly between the bounds.
    Ordinary,
}

/// The mark a level earns.
pub open spec fn spec_level_mark(level: int) -> LevelMark {
    if level >= MAX_BRIGHTNESS as int {
        LevelMark::Maximum
    } else if level <= MIN_BRIGHTNESS as int {
        LevelMark::Minimum
    } else {
        LevelMark::Ordinary
    }
}

/// Where `level` stands against the range bounds.
pub fn level_mark(level: u32) -> (r: LevelMark)
    ensures
        r == spec_level_mark(level as int),
{
    if level >= MAX_BRIGHTNESS {
        LevelMark::Maximum
    } else if level <= MIN_BRIGHTNESS {
        LevelMark::Minimum
    } else {
        LevelMark::Ordinary
    }
}

/// What probing one kept element of the device sequence returned.
pub enum DeviceReport {
    /// The source yielded an error for this slot.
    Unavailable,
    /// The slot held a live device: the results of reading its name and
    /// its current level.
    Probed { name: Result<String, DeviceError>, level: Result<u32, DeviceError> },
}

/// One line of per-device output, still structured: the caller renders it,
/// plainly through [`render`] or with its own colors.
pub enum ReportLine {
    /// Narrative line: position, name and level of a fully probed device.
    Brightness { index: usize, name: String, level: u32 },
    /// Level-only line.
    Percent { level: u32 },
    /// A device's name, for the listing command.
    Name { index: usize, name: String },
    /// An error line: the position it stands at and the cause.
    Failure { index: usize, explanation: String },
}

/// The mathematical shape of a report line.
pub enum ReportLineView {
    Brightness { index: int, name: Seq<char>, level: int },
    Percent { level: int },
    Name { index: int, name: Seq<char> },
    Failure { index: int, explanation: Seq<char> },
}

impl View for ReportLine {
    type V = ReportLineView;

    open spec fn view(&self) -> ReportLineView {
        match self {
            ReportLine::Brightness { index, name, level } => ReportLineView::Brightness {
                index: index as int,
                name: name@,
                level: level as int,
            },
            ReportLine::Percent { level } => ReportLineView::Percent { level: level as int },
            ReportLine::Name { index, name } => ReportLineView::Name {
                index: index as int,
                name: name@,
            },
            ReportLine::Failure { index, explanation } => ReportLineView::Failure {
                index: index as int,
                explanation: explanation@,
            },
        }
    }
}

/// The line the probe at position `index` earns under `output`, or `None`
/// in quiet mode. Each device's line depends on that device's probe alone.
pub open spec fn spec_report_line(
    output: BrightnessOutput,
    index: usize,
    report: DeviceReport,
) -> Option<ReportLineView> {
    match output {
        BrightnessOutput::Quiet => None,
        BrightnessOutput::Percent => Some(
            match report {
                DeviceReport::Unavailable => ReportLineView::Failure {
                    index: index as int,
                    explanation: "Unable to retrieve information for device"@,
                },
                DeviceReport::Probed { name: _, level: Err(_) } => ReportLineView::Failure {
                    index: index as int,
                    explanation: "Unable to retrieve brightness for device"@,
                },
                DeviceReport::Probed { name: _, level: Ok(l) } => ReportLineView::Percent {
                    level: l as int,
                },
            },
        ),
        BrightnessOutput::Default => Some(
            match report {
                DeviceReport::Unavailable => ReportLineView::Failure {
                    index: index as int,
                    explanation: "Unable to retrieve information for device"@,
                },
                DeviceReport::Probed { name: Err(_), level: _ } => ReportLineView::Failure {
                    index: index as int,
                    explanation: "Unable to retrieve name for device"@,
                },
                DeviceReport::Probed { name: Ok(n), level: Err(_) } => ReportLineView::Failure {
                    index: index as int,
                    explanation: "Unable to retrieve brightness for device "@ + n@,
                },
                DeviceReport::Probed { name: Ok(n), level: Ok(l) } => ReportLineView::Brightness {
                    index: index as int,
                    name: n@,
                    level: l as int,
                },
            },
        ),
    }
}

/// Decides the line for one probed device: exactly one line per device in
/// the talking modes, none in quiet mode.
pub fn report_line(output: &BrightnessOutput, index: usize, report: &DeviceReport) -> (r: Option<
    ReportLine,
>)
    ensures
        r is Some <==> spec_report_line(*output, index, *report) is Some,
        r is Some ==> r->0@ == spec_report_line(*output, index, *report)->0,
{
    match output {
        BrightnessOutput::Quiet => None,
        BrightnessOutput::Percent => Some(
            match report {
                DeviceReport::Unavailable => ReportLine::Failure {
                    index,
                    explanation: "Unable to retrieve information for device".to_owned(),
                },
                DeviceReport::Probed { name: _, level: Err(_) } => ReportLine::Failure {
                    index,
                    explanation: "Unable to retrieve brightness for device".to_owned(),
                },
                DeviceReport::Probed { name: _, level: Ok(l) } => ReportLine::Percent {
                    level: *l,
                },
            },
        ),
        BrightnessOutput::Default => Some(
            match report {
                DeviceReport::Unavailable => ReportLine::Failure {
                    index,
                    explanation: "Unable to retrieve information for device".to_owned(),
                },
                DeviceReport::Probed { name: Err(_), level: _ } => ReportLine::Failure {
                    index,
                    explanation: "Unable to retrieve name for device".to_owned(),
                },
                DeviceReport::Probed { name: Ok(n), level: Err(_) } => {
                    let mut explanation = "Unable to retrieve brightness for device ".to_owned();
                    explanation.append(n.as_str());
                    ReportLine::Failure { index, explanation }
                },
                DeviceReport::Probed { name: Ok(n), level: Ok(l) } => ReportLine::Brightness {
                    index,
                    name: n.clone(),
                    level: *l,
                },
            },
        ),
    }
}

/// The line the listing command prints for the element at position
/// `index`: the device's name, or an error line naming the lookup step
/// that failed.
pub open spec fn spec_name_line(
    index: usize,
    lookup: Result<Result<String, DeviceError>, DeviceError>,
) -> ReportLineView {
    match lookup {
        Err(_) => ReportLineView::Failure {
            index: index as int,
            explanation: "Error while retrieving monitor information"@,
        },
        Ok(Err(_)) => ReportLineView::Failure {
            index: index as int,
            explanation: "Error while retrieving monitor name"@,
        },
        Ok(Ok(n)) => ReportLineView::Name { index: index as int, name: n@ },
    }
}

/// Decides the listing line for one enumerated element: `lookup` is the
/// element itself on the outside, the name lookup on the inside.
pub fn name_line(index: usize, lookup: &Result<Result<String, DeviceError>, DeviceError>) -> (r:
    ReportLine)
    ensures
        r@ == spec_name_line(index, *lookup),
{
    match lookup {
        Err(_) => ReportLine::Failure {
            index,
            explanation: "Error while retrieving monitor information".to_owned(),
        },
        Ok(Err(_)) => ReportLine::Failure {
            index,
            explanation: "Error while retrieving monitor name".to_owned(),
        },
        Ok(Ok(n)) => ReportLine::Name { index, name: n.clone() },
    }
}

/// The callout a narrative line appends at the range bounds.
pub open spec fn spec_mark_suffix(level: int) -> Seq<char> {
    match spec_level_mark(level) {
        LevelMark::Maximum => " [Maximum brightness level reached]"@,
        LevelMark::Minimum => " [Minimum brightness level reached]"@,
        LevelMark::Ordinary => Seq::empty(),
    }
}

/// The plain text of a report line.
pub open spec fn spec_render(line: ReportLineView) -> Seq<char> {
    match line {
        ReportLineView::Brightness { index, name, level } => spec_decimal(index) + ": "@ + name
            + " brightness: "@ + spec_decimal(level) + "%"@ + spec_mark_suffix(level),
        ReportLineView::Percent { level } => spec_decimal(level) + "%"@,
        ReportLineView::Name { index, name } => spec_decimal(index) + ": "@ + name,
        ReportLineView::Failure { index, explanation } => spec_decimal(index) + ": <"@ + explanation
            + ">"@,
    }
}

/// The lines of a whole reporting pass: in the talking modes exactly one
/// line per probed device, each at its own position and each settled by
/// its own probe; in quiet mode no lines at all, whatever succeeded or
/// failed.
pub fn report_lines(output: &BrightnessOutput, reports: &Vec<DeviceReport>) -> (lines: Vec<
    ReportLine,
>)
    ensures
        *output is Quiet ==> lines@.len() == 0,
        !(*output is Quiet) ==> lines@.len() == reports@.len(),
        forall|i: int|
            0 <= i < lines@.len() ==> Some(#[trigger] lines@[i]@) == spec_report_line(
                *output,
                i as usize,
                reports@[i],
            ),
{
    let mut lines: Vec<ReportLine> = Vec::new();
    let mut i: usize = 0;
    while i < reports.len()
        invariant
            i <= reports.len(),
            *output is Quiet ==> lines@.len() == 0,
            !(*output is Quiet) ==> lines@.len() == i,
            forall|j: int|
                0 <= j < lines@.len() ==> Some(#[trigger] lines@[j]@) == spec_report_line(
                    *output,
                    j as usize,
                    reports@[j],
                ),
        decreases reports.len() - i,
    {
        match report_line(output, i, &reports[i]) {
            Some(line) => lines.push(line),
            None => (),
        }
        i += 1;
    }
    lines
}

/// The lines of a whole listing pass: one per enumerated element, a name
/// or an error placeholder, never fewer.
pub fn name_lines(lookups: &Vec<Result<Result<String, DeviceError>, DeviceError>>) -> (lines: Vec<
    ReportLine,
>)
    ensures
        lines@.len() == lookups@.len(),
        forall|i: int|
            0 <= i < lines@.len() ==> #[trigger] lines@[i]@ == spec_name_line(
                i as usize,
                lookups@[i],
            ),
{
    let mut lines: Vec<ReportLine> = Vec::new();
    let mut i: usize = 0;
    while i < lookups.len()
        invariant
            i <= lookups.len(),
            lines@.len() == i,
            forall|j: int|
                0 <= j < i ==> #[trigger] lines@[j]@ == spec_name_line(j as usize, lookups@[j]),
        decreases lookups.len() - i,
    {
        lines.push(name_line(i, &lookups[i]));
        i += 1;
    }
    lines
}

/// Renders a report line as plain text, colors left to the caller.
pub fn render(line: &ReportLine) -> (s: String)
    ensures
        s@ == spec_render(line@),
{
    match line {
        ReportLine::Brightness { index, name, level } => {
            let mut s = decimal_string(*index as u64);
            s.append(": ");
            s.append(name.as_str());
            s.append(" brightness: ");
            s.append(decimal_string(*level as u64).as_str());
            s.append("%");
            let mark = level_mark(*level);
            match mark {
                LevelMark::Maximum => s.append(" [Maximum brightness level reached]"),
                LevelMark::Minimum => s.append(" [Minimum brightness level reached]"),
                LevelMark::Ordinary => (),
            }
            s
        },
        ReportLine::Percent { level } => {
            let mut s = decimal_string(*level as u64);
            s.append("%");
            s
        },
        ReportLine::Name { index, name } => {
            let mut s = decimal_string(*index as u64);
            s.append(": ");
            s.append(name.as_str());
            s
        },
        ReportLine::Failure { index, explanation } => {
            let mut s = decimal_string(*index as u64);
            s.append(": <");
            s.append(explanation.as_str());
            s.append(">");
            s
        },
    }
}

} // verus!
