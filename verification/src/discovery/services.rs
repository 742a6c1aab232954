//! The backend that asks the machine, through the `sys_info` crate.

use vstd::prelude::*;
use crate::discovery::DiscoveryService;
use crate::error::{report_view, Error, ErrorView};
use crate::text::joined;

verus! {

/// Calls `sys_info::os_type`, which reads the type of the running operating
/// system, such as `Linux` or `Darwin`. A failure is given by the text that
/// `sys_info` displays for it. Trusted: nothing is assumed of what comes back.
#[verifier::external_body]
fn os_type() -> Result<String, String> {
    match sys_info::os_type() {
        Ok(os_type) => Ok(os_type),
        Err(failure) => Err(failure.to_string()),
    }
}

/// Calls `sys_info::linux_os_release`, which reads the release metadata of a
/// Linux host, and keeps the `ID_LIKE` field of it: `None` where the metadata
/// has no such field. A failure is given by the text that `sys_info` displays
/// for it. Trusted: nothing is assumed of what comes back.
#[verifier::external_body]
fn release_id_like() -> Result<Option<String>, String> {
    match sys_info::linux_os_release() {
        Ok(release) => Ok(release.id_like),
        Err(failure) => Err(failure.to_string()),
    }
}

/// The host the program runs on.
pub struct SysInfo;

impl SysInfo {
    /// The report that the answer of the operating-system query makes: the
    /// type as it came, or a failure that holds the text of `sys_info`'s.
    pub open spec fn vendor_report_of(answer: Result<String, String>) -> Result<
        Seq<char>,
        ErrorView,
    > {
        match answer {
            Ok(os_type) => Ok(os_type@),
            Err(reason) => Err(ErrorView::Failed("failed vendor id discovery: "@ + reason@)),
        }
    }

    /// The report that the answer of the release query makes: the `ID_LIKE`
    /// field as it came; a failure where the metadata has no such field; a
    /// failure that holds the text of `sys_info`'s where there is no
    /// metadata to read.
    pub open spec fn distro_report_of(answer: Result<Option<String>, String>) -> Result<
        Seq<char>,
        ErrorView,
    > {
        match answer {
            Ok(Some(id_like)) => Ok(id_like@),
            Ok(None) => Err(ErrorView::Failed("unable to discover distro id"@)),
            Err(reason) => Err(ErrorView::Failed("unable to fetch release datails: "@ + reason@)),
        }
    }

    /// Turns the answer of the operating-system query into a report.
    pub fn vendor_report(answer: Result<String, String>) -> (report: Result<String, Error>)
        ensures
            report_view(report) == Self::vendor_report_of(answer),
    {
        match answer {
            Ok(os_type) => Ok(os_type),
            Err(reason) => Err(
                Error::Failed(joined("failed vendor id discovery: ", reason.as_str())),
            ),
        }
    }

    /// Turns the answer of the release query into a report. Metadata
    /// without an `ID_LIKE` field is a failure, never a distribution.
    pub fn distro_report(answer: Result<Option<String>, String>) -> (report: Result<
        String,
        Error,
    >)
        ensures
            report_view(report) == Self::distro_report_of(answer),
    {
        match answer {
            Ok(Some(id_like)) => Ok(id_like),
            Ok(None) => Err(Error::Failed("unable to discover distro id".to_owned())),
            Err(reason) => Err(
                Error::Failed(joined("unable to fetch release datails: ", reason.as_str())),
            ),
        }
    }
}

impl DiscoveryService for SysInfo {
    type Error = Error;

    /// Asks the machine for its release metadata. Whatever it answers, the
    /// report is the one that [`SysInfo::distro_report`] makes of the
    /// answer, so a failure is an [`Error::Failed`].
    fn get_distro_id() -> (report: Result<String, Error>)
        ensures
            exists|answer: Result<Option<String>, String>|
                report_view(report) == #[trigger] SysInfo::distro_report_of(answer),
            report matches Err(failure) ==> failure is Failed,
    {
        let answer = release_id_like();
        let ghost given = answer;
        let report = SysInfo::distro_report(answer);
        assert(report_view(report) == SysInfo::distro_report_of(given));
        report
    }

    /// Asks the machine for the type of its operating system. Whatever it
    /// answers, the report is the one that [`SysInfo::vendor_report`] makes
    /// of the answer, so a failure is an [`Error::Failed`].
    fn get_vendor_id() -> (report: Result<String, Error>)
        ensures
            exists|answer: Result<String, String>|
                report_view(report) == #[trigger] SysInfo::vendor_report_of(answer),
            report matches Err(failure) ==> failure is Failed,
    {
        let answer = os_type();
        let ghost given = answer;
        let report = SysInfo::vendor_report(answer);
        assert(report_view(report) == SysInfo::vendor_report_of(given));
        report
    }
}

} // verus!
