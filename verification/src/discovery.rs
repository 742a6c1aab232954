//! From what a host reports of itself to the vendor it is.
//!
//! A backend ([`DiscoveryService`]) answers two queries with raw text. The
//! text is put in lower case and looked up in a closed table: first the
//! operating system, then, on Linux only, the distribution family. The steps
//! between the queries are functions of the answers, so each is specified
//! exactly; [`Vendor::discover`] strings them together.

pub mod services;

use vstd::prelude::*;
use crate::error::{outcome_view, report_view, Error, ErrorView};
use crate::text::{lowercase, lowercased, reads_as};

verus! {

/// A family of Linux distributions.
#[derive(Debug, Clone, Copy, PartialEq, Eq, Structural)]
pub enum DistroID {
    Arch,
    Debian,
    Rhel,
}

impl DistroID {
    /// The table of distribution tokens. A token is looked up as a whole:
    /// `rhel fedora` is an entry of its own, and no other list of families is.
    pub open spec fn of_token(token: Seq<char>) -> Option<DistroID> {
        if token =~= "debian"@ {
            Some(DistroID::Debian)
        } else if token =~= "arch"@ {
            Some(DistroID::Arch)
        } else if token =~= "rhel"@ || token =~= "rhel fedora"@ {
            Some(DistroID::Rhel)
        } else {
            None
        }
    }

    /// The family that a lower-case token names, or the failure that holds
    /// the token.
    pub open spec fn classify(token: Seq<char>) -> Result<DistroID, ErrorView> {
        match Self::of_token(token) {
            Some(id) => Ok(id),
            None => Err(ErrorView::UnsupportedDistro(token)),
        }
    }

    /// Looks a token up that is in lower case already.
    pub fn from_token(token: String) -> (outcome: Result<DistroID, Error>)
        ensures
            outcome_view(outcome) == Self::classify(token@),
    {
        if reads_as(&token, "debian") {
            Ok(DistroID::Debian)
        } else if reads_as(&token, "arch") {
            Ok(DistroID::Arch)
        } else if reads_as(&token, "rhel") || reads_as(&token, "rhel fedora") {
            Ok(DistroID::Rhel)
        } else {
            Err(Error::UnsupportedDistro(token))
        }
    }
}

impl TryFrom<String> for DistroID {
    type Error = Error;

    /// Classifies a raw distribution field, whatever its letter-casing.
    fn try_from(value: String) -> (outcome: Result<DistroID, Error>)
        ensures
            outcome_view(outcome) == DistroID::classify(lowercase(value@)),
    {
        DistroID::from_token(lowercased(value.as_str()))
    }
}

/// `try_from` returns a `String` inside its failure, which a specification
/// over `String` values could fix only up to its characters. The contract is
/// the `ensures` of `try_from`, stated over views.
impl vstd::std_specs::convert::TryFromSpecImpl<String> for DistroID {
    open spec fn obeys_try_from_spec() -> bool {
        false
    }

    open spec fn try_from_spec(value: String) -> Result<DistroID, Error> {
        arbitrary()
    }
}

/// A family of operating systems.
#[derive(Debug, Clone, Copy, PartialEq, Eq, Structural)]
pub enum VendorID {
    Linux,
    MacOS,
}

impl VendorID {
    /// The table of operating-system tokens.
    pub open spec fn of_token(token: Seq<char>) -> Option<VendorID> {
        if token =~= "linux"@ {
            Some(VendorID::Linux)
        } else if token =~= "darwin"@ {
            Some(VendorID::MacOS)
        } else {
            None
        }
    }

    /// The family that a lower-case token names, or the failure that holds
    /// the token.
    pub open spec fn classify(token: Seq<char>) -> Result<VendorID, ErrorView> {
        match Self::of_token(token) {
            Some(id) => Ok(id),
            None => Err(ErrorView::UnsupportedSystem(token)),
        }
    }

    /// Looks a token up that is in lower case already.
    pub fn from_token(token: String) -> (outcome: Result<VendorID, Error>)
        ensures
            outcome_view(outcome) == Self::classify(token@),
    {
        if reads_as(&token, "linux") {
            Ok(VendorID::Linux)
        } else if reads_as(&token, "darwin") {
            Ok(VendorID::MacOS)
        } else {
            Err(Error::UnsupportedSystem(token))
        }
    }
}

impl TryFrom<String> for VendorID {
    type Error = Error;

    /// Classifies a raw operating-system type, whatever its letter-casing.
    fn try_from(value: String) -> (outcome: Result<VendorID, Error>)
        ensures
            outcome_view(outcome) == VendorID::classify(lowercase(value@)),
    {
        VendorID::from_token(lowercased(value.as_str()))
    }
}

/// As for [`DistroID`]: the contract is the `ensures` of `try_from`.
impl vstd::std_specs::convert::TryFromSpecImpl<String> for VendorID {
    open spec fn obeys_try_from_spec() -> bool {
        false
    }

    open spec fn try_from_spec(value: String) -> Result<VendorID, Error> {
        arbitrary()
    }
}

/// A source of what the host reports of itself.
///
/// Nothing is promised of the answers: they are whatever the host says. What
/// is made of them is specified in [`Vendor`], for every answer.
pub trait DiscoveryService {
    type Error;

    /// The raw distribution field of the release metadata, which may list
    /// several families. Meant for Linux hosts only.
    fn get_distro_id() -> Result<String, Self::Error>;

    /// The raw type of the operating system.
    fn get_vendor_id() -> Result<String, Self::Error>;
}

/// The operating system of a host and, on Linux, its distribution family.
#[derive(Debug, Clone, Copy, PartialEq, Eq)]
pub struct Vendor(pub VendorID, pub Option<DistroID>);

/// Where discovery stands once the vendor query has been answered.
#[derive(Debug, PartialEq, Eq)]
pub enum Progress {
    /// Discovery has ended with this outcome. The distro is not queried.
    Settled(Result<Vendor, Error>),
    /// The host is Linux: the distro has to be queried.
    NeedsDistro,
}

impl View for Progress {
    type V = Option<Result<Vendor, ErrorView>>;

    /// The outcome, where there is one already.
    open spec fn view(&self) -> Option<Result<Vendor, ErrorView>> {
        match self {
            Progress::Settled(outcome) => Some(outcome_view(*outcome)),
            Progress::NeedsDistro => None,
        }
    }
}

impl Vendor {
    /// A Linux host has a distribution family, and no other host has one.
    pub open spec fn wf(self) -> bool {
        match self.0 {
            VendorID::Linux => self.1 is Some,
            VendorID::MacOS => self.1 is None,
        }
    }

    /// The outcome that the answer to the vendor query settles by itself, or
    /// `None` where the host is Linux and its distro decides.
    pub open spec fn settled_by_vendor(report: Result<Seq<char>, ErrorView>) -> Option<
        Result<Vendor, ErrorView>,
    > {
        match report {
            Err(failure) => Some(Err(failure)),
            Ok(raw) => match VendorID::classify(lowercase(raw)) {
                Err(failure) => Some(Err(failure)),
                Ok(VendorID::MacOS) => Some(Ok(Vendor(VendorID::MacOS, None))),
                Ok(VendorID::Linux) => None,
            },
        }
    }

    /// The outcome on a Linux host, from the answer to the distro query.
    pub open spec fn settled_by_distro(report: Result<Seq<char>, ErrorView>) -> Result<
        Vendor,
        ErrorView,
    > {
        match report {
            Err(failure) => Err(failure),
            Ok(raw) => match DistroID::classify(lowercase(raw)) {
                Err(failure) => Err(failure),
                Ok(distro) => Ok(Vendor(VendorID::Linux, Some(distro))),
            },
        }
    }

    /// The outcome of discovery on a host that answers the two queries with
    /// `vendor_report` and `distro_report`.
    pub open spec fn resolution(
        vendor_report: Result<Seq<char>, ErrorView>,
        distro_report: Result<Seq<char>, ErrorView>,
    ) -> Result<Vendor, ErrorView> {
        match Self::settled_by_vendor(vendor_report) {
            Some(outcome) => outcome,
            None => Self::settled_by_distro(distro_report),
        }
    }

    /// Decides, from the answer to the vendor query, whether discovery is
    /// over or the distro has to be queried. A failure of the backend is
    /// handed on as it is.
    pub fn after_vendor_query(report: Result<String, Error>) -> (progress: Progress)
        ensures
            progress@ == Self::settled_by_vendor(report_view(report)),
            progress matches Progress::Settled(Ok(vendor)) ==> vendor.wf(),
    {
        match report {
            Err(failure) => Progress::Settled(Err(failure)),
            Ok(raw) => match VendorID::try_from(raw) {
                Err(failure) => Progress::Settled(Err(failure)),
                Ok(VendorID::MacOS) => Progress::Settled(Ok(Vendor(VendorID::MacOS, None))),
                Ok(VendorID::Linux) => Progress::NeedsDistro,
            },
        }
    }

    /// Ends discovery on a Linux host, from the answer to the distro query.
    /// A failure of the backend is handed on as it is.
    pub fn after_distro_query(report: Result<String, Error>) -> (outcome: Result<Vendor, Error>)
        ensures
            outcome_view(outcome) == Self::settled_by_distro(report_view(report)),
            outcome matches Ok(vendor) ==> vendor.wf(),
    {
        match report {
            Err(failure) => Err(failure),
            Ok(raw) => match DistroID::try_from(raw) {
                Err(failure) => Err(failure),
                Ok(distro) => Ok(Vendor(VendorID::Linux, Some(distro))),
            },
        }
    }

    /// Whether `report` is an answer that `DS` can give to the distro query,
    /// and `outcome` what discovery makes of it on a Linux host. An answer
    /// that `DS` can give is one that the contract of its method allows.
    pub open spec fn distro_answer_gives<DS>(
        report: Result<String, Error>,
        outcome: Result<Vendor, Error>,
    ) -> bool where DS: DiscoveryService<Error = Error> {
        &&& call_ensures(DS::get_distro_id, (), report)
        &&& outcome_view(outcome) == Self::settled_by_distro(report_view(report))
    }

    /// Whether `report` is an answer that `DS` can give to the vendor query,
    /// and `outcome` what discovery makes of it: by itself where it settles
    /// the outcome, and with an answer to the distro query where the host is
    /// Linux.
    pub open spec fn vendor_answer_gives<DS>(
        report: Result<String, Error>,
        outcome: Result<Vendor, Error>,
    ) -> bool where DS: DiscoveryService<Error = Error> {
        &&& call_ensures(DS::get_vendor_id, (), report)
        &&& match Self::settled_by_vendor(report_view(report)) {
            Some(settled) => outcome_view(outcome) == settled,
            None => exists|distro_report: Result<String, Error>|
                Self::distro_answer_gives::<DS>(distro_report, outcome),
        }
    }

    /// Whether `outcome` is what discovery makes of answers that `DS` can
    /// give.
    pub open spec fn discovered<DS>(outcome: Result<Vendor, Error>) -> bool where
        DS: DiscoveryService<Error = Error>,
    {
        exists|vendor_report: Result<String, Error>|
            Self::vendor_answer_gives::<DS>(vendor_report, outcome)
    }

    /// Queries the distro of a host that the vendor query has shown to be
    /// Linux. No other host is asked: this is the one place where the
    /// library puts the query.
    fn query_distro<DS>(Ghost(vendor_report): Ghost<Result<Seq<char>, ErrorView>>) -> (report:
        Result<String, Error>) where
        DS: DiscoveryService<Error = Error>,

        requires
            Self::settled_by_vendor(vendor_report) is None,
        ensures
            call_ensures(DS::get_distro_id, (), report),
    {
        DS::get_distro_id()
    }

    /// Resolves the host that `DS` speaks for. The vendor is queried once;
    /// the distro is queried once if the vendor is Linux and not at all
    /// otherwise. The outcome is that of the answers given, and a vendor
    /// that comes out is well formed.
    pub fn discover<DS>() -> (outcome: Result<Vendor, Error>) where
        DS: DiscoveryService<Error = Error>,

        ensures
            Self::discovered::<DS>(outcome),
            outcome matches Ok(vendor) ==> vendor.wf(),
    {
        let vendor_report = DS::get_vendor_id();
        let ghost vendor_answer = vendor_report;
        match Self::after_vendor_query(vendor_report) {
            Progress::Settled(outcome) => {
                assert(Self::vendor_answer_gives::<DS>(vendor_answer, outcome));
                outcome
            },
            Progress::NeedsDistro => {
                let distro_report = Self::query_distro::<DS>(Ghost(report_view(vendor_answer)));
                let ghost distro_answer = distro_report;
                let outcome = Self::after_distro_query(distro_report);
                assert(Self::distro_answer_gives::<DS>(distro_answer, outcome));
                assert(Self::vendor_answer_gives::<DS>(vendor_answer, outcome));
                outcome
            },
        }
    }
}

/// Letter-casing is ignored: two answers to the vendor query that have the
/// same lower-case form classify alike, and so do two answers to the distro
/// query; hosts that differ in nothing else resolve alike. In particular
/// every casing of `linux` is Linux and every casing of `darwin` is macOS.
pub proof fn lemma_casing_is_ignored(
    vendor_a: Seq<char>,
    vendor_b: Seq<char>,
    distro_a: Seq<char>,
    distro_b: Seq<char>,
)
    requires
        lowercase(vendor_a) == lowercase(vendor_b),
        lowercase(distro_a) == lowercase(distro_b),
    ensures
        Vendor::settled_by_vendor(Ok(vendor_a)) == Vendor::settled_by_vendor(Ok(vendor_b)),
        Vendor::settled_by_distro(Ok(distro_a)) == Vendor::settled_by_distro(Ok(distro_b)),
        Vendor::resolution(Ok(vendor_a), Ok(distro_a)) == Vendor::resolution(
            Ok(vendor_b),
            Ok(distro_b),
        ),
        lowercase(vendor_a) == "linux"@ ==> Vendor::settled_by_vendor(Ok(vendor_a)) is None,
        lowercase(vendor_a) == "darwin"@ ==> Vendor::settled_by_vendor(Ok(vendor_a)) == Some(
            Ok::<Vendor, ErrorView>(Vendor(VendorID::MacOS, None)),
        ),
{
    reveal_strlit("linux");
    reveal_strlit("darwin");
}

/// An operating system outside the table fails discovery with
/// `UnsupportedSystem`, which holds the lower-case form of what the host
/// answered, whatever the distro query would answer. Nothing else fails so:
/// a host whose answer is in the table never gets this failure for it.
pub proof fn lemma_unsupported_system(
    vendor_raw: Seq<char>,
    distro_report: Result<Seq<char>, ErrorView>,
)
    ensures
        VendorID::of_token(lowercase(vendor_raw)) is None <==> Vendor::settled_by_vendor(
            Ok(vendor_raw),
        ) == Some(Err::<Vendor, ErrorView>(ErrorView::UnsupportedSystem(lowercase(vendor_raw)))),
        VendorID::of_token(lowercase(vendor_raw)) is None ==> Vendor::resolution(
            Ok(vendor_raw),
            distro_report,
        ) == Err::<Vendor, ErrorView>(ErrorView::UnsupportedSystem(lowercase(vendor_raw))),
{
}

/// On a Linux host, a distribution outside the table fails discovery with
/// `UnsupportedDistro`, which holds the lower-case form of the whole field
/// that the host answered. Nothing else fails so.
pub proof fn lemma_unsupported_distro(vendor_raw: Seq<char>, distro_raw: Seq<char>)
    ensures
        DistroID::of_token(lowercase(distro_raw)) is None <==> Vendor::settled_by_distro(
            Ok(distro_raw),
        ) == Err::<Vendor, ErrorView>(ErrorView::UnsupportedDistro(lowercase(distro_raw))),
        VendorID::of_token(lowercase(vendor_raw)) == Some(VendorID::Linux) && DistroID::of_token(
            lowercase(distro_raw),
        ) is None ==> Vendor::resolution(Ok(vendor_raw), Ok(distro_raw)) == Err::<
            Vendor,
            ErrorView,
        >(ErrorView::UnsupportedDistro(lowercase(distro_raw))),
{
}

/// Whatever the host answers, a vendor that discovery returns is well
/// formed: macOS comes without a distribution, Linux with one.
pub proof fn lemma_resolution_is_well_formed(
    vendor_report: Result<Seq<char>, ErrorView>,
    distro_report: Result<Seq<char>, ErrorView>,
)
    ensures
        Vendor::settled_by_vendor(vendor_report) matches Some(Ok(vendor)) ==> vendor.wf(),
        Vendor::settled_by_distro(distro_report) matches Ok(vendor) ==> vendor.wf(),
        Vendor::resolution(vendor_report, distro_report) matches Ok(vendor) ==> {
            &&& vendor.wf()
            &&& vendor.0 == VendorID::MacOS ==> vendor.1 is None
            &&& vendor.0 == VendorID::Linux ==> vendor.1 is Some
        },
{
}

/// A vendor query that fails ends discovery with that failure: the distro is
/// not asked for, and no answer to the distro query could change the outcome.
pub proof fn lemma_failed_vendor_query_ends_discovery(
    failure: ErrorView,
    distro_report: Result<Seq<char>, ErrorView>,
)
    ensures
        Vendor::settled_by_vendor(Err(failure)) == Some(Err::<Vendor, ErrorView>(failure)),
        Vendor::resolution(Err(failure), distro_report) == Err::<Vendor, ErrorView>(failure),
{
}

/// What [`Vendor::discover`] returns is the resolution of answers that the
/// backend can give, so what holds of every resolution holds of it.
pub proof fn lemma_discovered_is_a_resolution<DS>(outcome: Result<Vendor, Error>) where
    DS: DiscoveryService<Error = Error>,

    requires
        Vendor::discovered::<DS>(outcome),
    ensures
        exists|vendor_report: Result<String, Error>, distro_report: Result<String, Error>|
            {
                &&& call_ensures(DS::get_vendor_id, (), vendor_report)
                &&& outcome_view(outcome) == #[trigger] Vendor::resolution(
                    report_view(vendor_report),
                    report_view(distro_report),
                )
            },
{
    let vendor_report = choose|vendor_report: Result<String, Error>|
        Vendor::vendor_answer_gives::<DS>(vendor_report, outcome);
    let distro_report = if Vendor::settled_by_vendor(report_view(vendor_report)) is None {
        choose|distro_report: Result<String, Error>|
            Vendor::distro_answer_gives::<DS>(distro_report, outcome)
    } else {
        vendor_report
    };
    assert(outcome_view(outcome) == Vendor::resolution(
        report_view(vendor_report),
        report_view(distro_report),
    ));
}

/// The distro decides nothing unless the host is Linux: discovery asks for
/// it exactly when the vendor query is answered with a casing of `linux`.
pub proof fn lemma_distro_is_queried_on_linux_only(vendor_report: Result<Seq<char>, ErrorView>)
    ensures
        Vendor::settled_by_vendor(vendor_report) is None <==> (vendor_report matches Ok(raw)
            && VendorID::of_token(lowercase(raw)) == Some(VendorID::Linux)),
{
}

} // verus!
