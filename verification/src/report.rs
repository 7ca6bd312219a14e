//! The text report: every variant's keys in one block, for a person to
//! read and copy from.
//!
//! The report is presentation only. Readers match on its labels and on the
//! order of its sections, so both are fixed here to the character.

use vstd::prelude::*;
use vstd::string::*;
use crate::error::ActivationError;
use crate::finalshell::{
    activation_result, variant_at, ActivationCodeGenerator, ActivationResult,
    ActivationResultView,
};
use crate::utils::unix_seconds;

verus! {

/// The mark in front of the section with the given index.
pub open spec fn section_icon(index: int) -> Seq<char> {
    if index == 0 {
        "🔹"@
    } else if index == 1 {
        "🔸"@
    } else if index == 2 {
        "🔷"@
    } else if index == 3 {
        "🔶"@
    } else {
        "📌"@
    }
}

/// One section: the variant's name, then its Advanced and its Professional
/// key, each on a line of its own.
pub open spec fn section_text(index: int, result: ActivationResultView) -> Seq<char> {
    section_icon(index) + " "@ + result.version_name + "\n┣━ 🟡 高级版: `"@ + result.advanced_code
        + "`\n┗━ 🟢 专业版: `"@ + result.professional_code + "`\n\n"@
}

/// The sections of `results`, in their order.
pub open spec fn sections_text(results: Seq<ActivationResultView>) -> Seq<char>
    decreases results.len(),
{
    if results.len() == 0 {
        Seq::empty()
    } else {
        sections_text(results.drop_last()) + section_text(results.len() - 1, results.last())
    }
}

/// What stands above the sections: the banner, the machine code as it was
/// given, and the time of the report.
pub open spec fn report_head(code: Seq<char>, timestamp: Seq<char>) -> Seq<char> {
    "═══════════════════════════════════════\n"@ + "🎉        FinalShell 激活码生成器        🎉\n"@
        + "═══════════════════════════════════════\n\n"@ + "🔑 输入机器码: `"@ + code + "`\n"@
        + "📅 生成时间: "@ + timestamp + "\n\n"@ + "🎯 生成结果:\n\n"@
}

/// What stands below the sections.
pub open spec fn report_foot() -> Seq<char> {
    "═══════════════════════════════════════\n"@ + "💡 提示: 欢迎使用 🟢 激活码生成工具\n"@
        + "🛡️ 请合理使用 滥用必究\n"@ + "═══════════════════════════════════════\n"@
}

/// The whole report.
pub open spec fn report_text(
    code: Seq<char>,
    timestamp: Seq<char>,
    results: Seq<ActivationResultView>,
) -> Seq<char> {
    report_head(code, timestamp) + sections_text(results) + report_foot()
}

/// The values of a list of results.
pub open spec fn result_views(results: Seq<ActivationResult>) -> Seq<ActivationResultView> {
    Seq::new(results.len(), |i: int| results[i]@)
}

/// The results of all four variants for `code`, in the listing order.
pub open spec fn all_results(code: Seq<char>) -> Seq<ActivationResultView> {
    Seq::new(4, |i: int| activation_result(code, variant_at(i)))
}

/// The pattern of the report's time line: year, month, day, hours,
/// minutes and seconds, followed by `UTC`.
pub open spec fn timestamp_pattern() -> Seq<char> {
    "%Y-%m-%d %H:%M:%S UTC"@
}

/// The moment `seconds` after the epoch, written in UTC by the `chrono`
/// crate after `pattern`; nothing where its calendar does not reach that
/// far, or where it cannot write the pattern.
pub uninterp spec fn utc_text(seconds: i64, pattern: Seq<char>) -> Option<Seq<char>>;

/// The time line's text for a reading of the clock: the moment in UTC, or
/// nothing where the clock could not be read or the moment not be written.
pub open spec fn timestamp_text(now: Option<u64>) -> Seq<char> {
    match now {
        Some(seconds) => if seconds <= i64::MAX as u64 {
            match utc_text(seconds as i64, timestamp_pattern()) {
                Some(text) => text,
                None => Seq::empty(),
            }
        } else {
            Seq::empty()
        },
        None => Seq::empty(),
    }
}

/// Calls `chrono::DateTime::from_timestamp` with `seconds` and no
/// nanoseconds, then `format` with `pattern` on the moment it gives, and
/// `write_to` into a fresh string. Trusted: the result is the text named
/// [`utc_text`]; there is none where `from_timestamp` gives no moment or
/// `write_to` fails.
#[verifier::external_body]
fn format_utc(seconds: i64, pattern: &str) -> (text: Option<String>)
    ensures
        match text {
            Some(t) => utc_text(seconds, pattern@) == Some(t@),
            None => utc_text(seconds, pattern@) is None,
        },
{
    let moment = chrono::DateTime::from_timestamp(seconds, 0)?;
    let mut text = String::new();
    match moment.format(pattern).write_to(&mut text) {
        Ok(()) => Some(text),
        Err(_) => None,
    }
}

/// The time line's text for a reading of the clock, in seconds since the
/// epoch.
pub fn timestamp_for(now: Option<u64>) -> (text: String)
    ensures
        text@ == timestamp_text(now),
{
    match now {
        Some(seconds) => {
            if seconds <= 0x7FFF_FFFF_FFFF_FFFF {
                match format_utc(seconds as i64, "%Y-%m-%d %H:%M:%S UTC") {
                    Some(text) => text,
                    None => String::new(),
                }
            } else {
                String::new()
            }
        },
        None => String::new(),
    }
}

/// The mark in front of the section with the given index.
pub fn icon_for(index: usize) -> (icon: &'static str)
    ensures
        icon@ == section_icon(index as int),
{
    if index == 0 {
        "🔹"
    } else if index == 1 {
        "🔸"
    } else if index == 2 {
        "🔷"
    } else if index == 3 {
        "🔶"
    } else {
        "📌"
    }
}

/// Writes the report for `results`, which were derived from
/// `machine_code`, at the time that `timestamp` names.
pub fn render_report(machine_code: &str, timestamp: &str, results: &Vec<ActivationResult>) -> (out:
    String)
    ensures
        out@ == report_text(machine_code@, timestamp@, result_views(results@)),
{
    let mut out = String::new();
    out.append("═══════════════════════════════════════\n");
    out.append("🎉        FinalShell 激活码生成器        🎉\n");
    out.append("═══════════════════════════════════════\n\n");
    out.append("🔑 输入机器码: `");
    out.append(machine_code);
    out.append("`\n");
    out.append("📅 生成时间: ");
    out.append(timestamp);
    out.append("\n\n");
    out.append("🎯 生成结果:\n\n");
    assert(out@ == report_head(machine_code@, timestamp@));
    let ghost views = result_views(results@);
    let mut i: usize = 0;
    assert(views.take(0) == Seq::<ActivationResultView>::empty());
    while i < results.len()
        invariant
            i <= results@.len(),
            views == result_views(results@),
            out@ == report_head(machine_code@, timestamp@) + sections_text(views.take(i as int)),
        decreases results.len() - i,
    {
        let result = &results[i];
        let ghost before = out@;
        out.append(icon_for(i));
        out.append(" ");
        out.append(result.version_name.as_str());
        out.append("\n┣━ 🟡 高级版: `");
        out.append(result.advanced_code.as_str());
        out.append("`\n┗━ 🟢 专业版: `");
        out.append(result.professional_code.as_str());
        out.append("`\n\n");
        proof {
            let next = views.take(i + 1);
            assert(next.drop_last() == views.take(i as int));
            assert(next.last() == results@[i as int]@);
            assert(out@ == before + section_text(i as int, results@[i as int]@));
        }
        i = i + 1;
    }
    assert(views.take(i as int) == views);
    out.append("═══════════════════════════════════════\n");
    out.append("💡 提示: 欢迎使用 🟢 激活码生成工具\n");
    out.append("🛡️ 请合理使用 滥用必究\n");
    out.append("═══════════════════════════════════════\n");
    out
}

impl ActivationCodeGenerator {
    /// The report on all four variants of `machine_code`, for a given
    /// reading of the clock.
    pub fn format_all_codes_at(machine_code: &str, now: Option<u64>) -> (r: Result<
        String,
        ActivationError,
    >)
        ensures
            r is Ok,
            r->Ok_0@ == report_text(machine_code@, timestamp_text(now), all_results(machine_code@)),
    {
        let results = Self::generate_all(machine_code)?;
        let timestamp = timestamp_for(now);
        let out = render_report(machine_code, timestamp.as_str(), &results);
        proof {
            assert(result_views(results@) == all_results(machine_code@));
        }
        Ok(out)
    }

    /// The report on all four variants of `machine_code`, stamped with the
    /// present time.
    ///
    /// Everything in the report but its time line is fixed by the machine
    /// code; the time line is that of some reading of the clock.
    pub fn format_all_codes(machine_code: &str) -> (r: Result<String, ActivationError>)
        ensures
            r is Ok,
            exists|now: Option<u64>|
                r->Ok_0@ == report_text(
                    machine_code@,
                    #[trigger] timestamp_text(now),
                    all_results(machine_code@),
                ),
    {
        let now = unix_seconds();
        Self::format_all_codes_at(machine_code, now)
    }
}

} // verus!
