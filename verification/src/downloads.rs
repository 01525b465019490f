//! The downloads overlay: one row per job (name, platform, progress gauge and its label).

use vstd::prelude::*;
use crate::game_detail::DownloadJob;
use crate::runtime::DownloadStatus;
use crate::text::{concat, decimal, string_of, u64_to_decimal};

verus! {

/// Shown when there is no download.
pub const NO_DOWNLOADS_TEXT: &'static str = "No downloads. Press Enter on a game detail for the ROM, or e for extras.";

/// Key help under the list.
pub const DOWNLOADS_HELP_TEXT: &'static str = "d or Esc: Back to previous screen";

/// How a row's gauge is coloured.
#[derive(Debug, Clone, Copy, PartialEq, Eq, Structural)]
pub enum GaugeTone {
    Progress,
    Success,
    Failure,
}

/// One row of the overlay: the text before the gauge, the columns it takes, and the gauge.
#[derive(Debug)]
pub struct DownloadRow {
    pub text: String,
    pub text_width: u16,
    pub gauge_width: u16,
    pub label: String,
    pub percent: u16,
    pub tone: GaugeTone,
}

/// The text before a job's gauge.
pub open spec fn row_text(j: DownloadJob) -> Seq<char> {
    j.name@ + " | "@ + j.platform@ + " | "@
}

/// The gauge label of a job.
pub open spec fn row_label(j: DownloadJob) -> Seq<char> {
    match j.status {
        DownloadStatus::Downloading => decimal(j.percent as nat) + "%"@,
        DownloadStatus::Done => "Done"@,
        DownloadStatus::Error(m) => "Error: "@ + m@,
    }
}

/// `r` is the row of `job` in a row `width` columns wide: the text takes as many columns as
/// it has characters (at most the row), the gauge the rest.
pub open spec fn is_row_of(r: DownloadRow, job: DownloadJob, width: u16) -> bool {
    &&& r.text@ == row_text(job)
    &&& r.text_width as int == (if row_text(job).len() < width as int {
        row_text(job).len() as int
    } else {
        width as int
    })
    &&& r.gauge_width == width - r.text_width
    &&& r.label@ == row_label(job)
    &&& r.percent == job.percent
    &&& r.tone == match job.status {
        DownloadStatus::Downloading => GaugeTone::Progress,
        DownloadStatus::Done => GaugeTone::Success,
        DownloadStatus::Error(_) => GaugeTone::Failure,
    }
}

/// The row of `job` in a row `width` columns wide.
pub fn download_row(job: &DownloadJob, width: u16) -> (r: DownloadRow)
    ensures
        is_row_of(r, *job, width),
{
    let a = concat(job.name.as_str(), " | ");
    let b = concat(a.as_str(), job.platform.as_str());
    let text = concat(b.as_str(), " | ");
    let n = crate::text::chars_of(text.as_str()).len();
    let text_width: u16 = if n < width as usize {
        n as u16
    } else {
        width
    };
    let (label, tone) = match &job.status {
        DownloadStatus::Downloading => {
            let p = u64_to_decimal(job.percent as u64);
            (concat(p.as_str(), "%"), GaugeTone::Progress)
        },
        DownloadStatus::Done => (string_of("Done"), GaugeTone::Success),
        DownloadStatus::Error(m) => (concat("Error: ", m.as_str()), GaugeTone::Failure),
    };
    DownloadRow {
        text,
        text_width,
        gauge_width: width - text_width,
        label,
        percent: job.percent,
        tone,
    }
}

/// The rows for the jobs that fit in `max_rows` lines, in order.
pub fn download_rows(jobs: &[DownloadJob], max_rows: usize, width: u16) -> (v: Vec<DownloadRow>)
    ensures
        v@.len() == (if jobs@.len() < max_rows {
            jobs@.len()
        } else {
            max_rows as nat
        }),
        forall|i: int| 0 <= i < v@.len() ==> is_row_of(#[trigger] v@[i], jobs@[i], width),
{
    let mut v: Vec<DownloadRow> = Vec::new();
    let mut i: usize = 0;
    while i < jobs.len() && i < max_rows
        invariant
            i <= jobs@.len(),
            i <= max_rows,
            v@.len() == i,
            forall|k: int| 0 <= k < i ==> is_row_of(#[trigger] v@[k], jobs@[k], width),
        decreases jobs@.len() - i,
    {
        v.push(download_row(&jobs[i], width));
        i += 1;
    }
    v
}

} // verus!
