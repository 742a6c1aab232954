use lenaris::{DiscoveryService, DistroID, Error, Progress, SysInfo, Vendor, VendorID};

/// A host that answers as an Arch Linux machine does.
struct ArchHost;

impl DiscoveryService for ArchHost {
    type Error = Error;

    fn get_distro_id() -> Result<String, Error> {
        Ok("arch".to_owned())
    }

    fn get_vendor_id() -> Result<String, Error> {
        Ok("Linux".to_owned())
    }
}

/// A host that answers as a Mac does. It has no release metadata to ask for.
struct DarwinHost;

impl DiscoveryService for DarwinHost {
    type Error = Error;

    fn get_distro_id() -> Result<String, Error> {
        panic!("the distro of a Mac was queried")
    }

    fn get_vendor_id() -> Result<String, Error> {
        Ok("Darwin".to_owned())
    }
}

/// A CentOS-like host, whose release metadata lists two families.
struct CentosHost;

impl DiscoveryService for CentosHost {
    type Error = Error;

    fn get_distro_id() -> Result<String, Error> {
        Ok("rhel fedora".to_owned())
    }

    fn get_vendor_id() -> Result<String, Error> {
        Ok("Linux".to_owned())
    }
}

/// A host that shouts.
struct LoudDebianHost;

impl DiscoveryService for LoudDebianHost {
    type Error = Error;

    fn get_distro_id() -> Result<String, Error> {
        Ok("DEBIAN".to_owned())
    }

    fn get_vendor_id() -> Result<String, Error> {
        Ok("LINUX".to_owned())
    }
}

struct WindowsHost;

impl DiscoveryService for WindowsHost {
    type Error = Error;

    fn get_distro_id() -> Result<String, Error> {
        panic!("the distro of a Windows host was queried")
    }

    fn get_vendor_id() -> Result<String, Error> {
        Ok("Windows".to_owned())
    }
}

struct SolarisLikeLinuxHost;

impl DiscoveryService for SolarisLikeLinuxHost {
    type Error = Error;

    fn get_distro_id() -> Result<String, Error> {
        Ok("Solaris".to_owned())
    }

    fn get_vendor_id() -> Result<String, Error> {
        Ok("Linux".to_owned())
    }
}

/// A host whose vendor query fails.
struct BrokenHost;

impl DiscoveryService for BrokenHost {
    type Error = Error;

    fn get_distro_id() -> Result<String, Error> {
        panic!("the distro was queried after the vendor query had failed")
    }

    fn get_vendor_id() -> Result<String, Error> {
        Err(Error::Failed("input/output error".to_owned()))
    }
}

/// A Linux host without readable release metadata.
struct BareLinuxHost;

impl DiscoveryService for BareLinuxHost {
    type Error = Error;

    fn get_distro_id() -> Result<String, Error> {
        Err(Error::Failed("unable to discover distro id".to_owned()))
    }

    fn get_vendor_id() -> Result<String, Error> {
        Ok("linux".to_owned())
    }
}

#[test]
fn can_convert_string_to_vendor_id() {
    let darwin = "Darwin".to_owned();
    let linux = "Linux".to_owned();

    assert_eq!(VendorID::try_from(darwin).unwrap(), VendorID::MacOS);
    assert_eq!(VendorID::try_from(linux).unwrap(), VendorID::Linux);

    let windows = VendorID::try_from("Windows".to_owned());

    assert!(windows.is_err());
    assert_eq!(
        windows.err().unwrap(),
        Error::UnsupportedSystem("windows".to_owned())
    );
}

#[test]
fn can_convert_string_to_distro_id() {
    let debian = DistroID::try_from("Debian".to_owned());
    let arch = DistroID::try_from("Arch".to_owned());
    let fedora = DistroID::try_from("Rhel fedora".to_owned());
    let rhel = DistroID::try_from("Rhel".to_owned());

    assert_eq!(debian.unwrap(), DistroID::Debian);
    assert_eq!(arch.unwrap(), DistroID::Arch);
    assert_eq!(fedora.unwrap(), DistroID::Rhel);
    assert_eq!(rhel.unwrap(), DistroID::Rhel);

    let solaris = DistroID::try_from("Solaris".to_owned());

    assert!(solaris.is_err());
    assert_eq!(
        solaris.err().unwrap(),
        Error::UnsupportedDistro("solaris".to_owned())
    );
}

#[test]
fn arch_test_vendor_discovery() {
    let vendor = Vendor::discover::<ArchHost>();

    assert!(vendor.is_ok());

    let Vendor(vendor_id, distro_id) = vendor.unwrap();

    assert!(distro_id.is_some());
    assert_eq!(distro_id.unwrap(), DistroID::Arch);
    assert_eq!(vendor_id, VendorID::Linux);
}

#[test]
fn darwin_test_vendor_discovery() {
    let vendor = Vendor::discover::<DarwinHost>();

    assert!(vendor.is_ok());

    let Vendor(vendor_id, distro_id) = vendor.unwrap();

    assert!(distro_id.is_none());
    assert_eq!(vendor_id, VendorID::MacOS);
}

#[test]
fn vendor_tokens_are_classified_in_any_casing() {
    for raw in ["LINUX", "Linux", "linux", "lInUx"] {
        assert_eq!(VendorID::try_from(raw.to_owned()), Ok(VendorID::Linux));
    }
    for raw in ["DARWIN", "Darwin", "darwin", "dArWiN"] {
        assert_eq!(VendorID::try_from(raw.to_owned()), Ok(VendorID::MacOS));
    }
}

#[test]
fn distro_tokens_are_classified_in_any_casing() {
    for raw in ["DEBIAN", "Debian", "debian"] {
        assert_eq!(DistroID::try_from(raw.to_owned()), Ok(DistroID::Debian));
    }
    for raw in ["ARCH", "Arch", "arch"] {
        assert_eq!(DistroID::try_from(raw.to_owned()), Ok(DistroID::Arch));
    }
    for raw in ["RHEL", "rhel", "RHEL FEDORA", "Rhel Fedora", "rhel fedora"] {
        assert_eq!(DistroID::try_from(raw.to_owned()), Ok(DistroID::Rhel));
    }
}

#[test]
fn tokens_in_lower_case_are_looked_up_as_they_are() {
    assert_eq!(VendorID::from_token("linux".to_owned()), Ok(VendorID::Linux));
    assert_eq!(VendorID::from_token("darwin".to_owned()), Ok(VendorID::MacOS));
    assert_eq!(
        VendorID::from_token("Linux".to_owned()),
        Err(Error::UnsupportedSystem("Linux".to_owned()))
    );
    assert_eq!(DistroID::from_token("debian".to_owned()), Ok(DistroID::Debian));
    assert_eq!(DistroID::from_token("arch".to_owned()), Ok(DistroID::Arch));
    assert_eq!(DistroID::from_token("rhel".to_owned()), Ok(DistroID::Rhel));
    assert_eq!(
        DistroID::from_token("Arch".to_owned()),
        Err(Error::UnsupportedDistro("Arch".to_owned()))
    );
}

#[test]
fn compound_rhel_field_is_rhel() {
    assert_eq!(
        DistroID::try_from("rhel fedora".to_owned()),
        DistroID::try_from("rhel".to_owned())
    );
    assert_eq!(DistroID::from_token("rhel fedora".to_owned()), Ok(DistroID::Rhel));
    assert_eq!(Vendor::discover::<CentosHost>(), Ok(Vendor(VendorID::Linux, Some(DistroID::Rhel))));
}

#[test]
fn other_lists_of_families_are_not_taken_apart() {
    for raw in ["fedora rhel", "rhel  fedora", "rhel fedora ", " rhel", "rhel centos", "debian ubuntu", "fedora", ""] {
        assert_eq!(
            DistroID::try_from(raw.to_owned()),
            Err(Error::UnsupportedDistro(raw.to_owned()))
        );
    }
}

#[test]
fn unsupported_system_holds_the_lower_case_token() {
    assert_eq!(
        Vendor::discover::<WindowsHost>(),
        Err(Error::UnsupportedSystem("windows".to_owned()))
    );
    assert_eq!(
        VendorID::try_from("FreeBSD".to_owned()),
        Err(Error::UnsupportedSystem("freebsd".to_owned()))
    );
    assert_eq!(
        VendorID::try_from(String::new()),
        Err(Error::UnsupportedSystem(String::new()))
    );
    assert_eq!(
        VendorID::try_from("Linux ".to_owned()),
        Err(Error::UnsupportedSystem("linux ".to_owned()))
    );
}

#[test]
fn unsupported_distro_holds_the_lower_case_field() {
    assert_eq!(
        Vendor::discover::<SolarisLikeLinuxHost>(),
        Err(Error::UnsupportedDistro("solaris".to_owned()))
    );
    assert_eq!(
        Vendor::after_distro_query(Ok("SUSE openSUSE".to_owned())),
        Err(Error::UnsupportedDistro("suse opensuse".to_owned()))
    );
}

#[test]
fn letters_beyond_ascii_are_lowered_too() {
    assert_eq!(
        VendorID::try_from("ÅNGSTRÖM".to_owned()),
        Err(Error::UnsupportedSystem("ångström".to_owned()))
    );
    assert_eq!(
        DistroID::try_from("ДЕБИАН".to_owned()),
        Err(Error::UnsupportedDistro("дебиан".to_owned()))
    );
}

#[test]
fn linux_host_in_capitals_resolves() {
    assert_eq!(
        Vendor::discover::<LoudDebianHost>(),
        Ok(Vendor(VendorID::Linux, Some(DistroID::Debian)))
    );
}

#[test]
fn macos_never_has_a_distro_and_linux_always_has() {
    let hosts = [
        Vendor::discover::<ArchHost>(),
        Vendor::discover::<DarwinHost>(),
        Vendor::discover::<CentosHost>(),
        Vendor::discover::<LoudDebianHost>(),
        Vendor::discover::<WindowsHost>(),
        Vendor::discover::<SolarisLikeLinuxHost>(),
        Vendor::discover::<BrokenHost>(),
        Vendor::discover::<BareLinuxHost>(),
    ];
    let mut resolved = 0;
    for host in hosts {
        if let Ok(Vendor(vendor_id, distro_id)) = host {
            resolved += 1;
            match vendor_id {
                VendorID::MacOS => assert!(distro_id.is_none()),
                VendorID::Linux => assert!(distro_id.is_some()),
            }
        }
    }
    assert_eq!(resolved, 4);
}

#[test]
fn failed_vendor_query_ends_discovery() {
    assert_eq!(
        Vendor::discover::<BrokenHost>(),
        Err(Error::Failed("input/output error".to_owned()))
    );
    assert_eq!(
        Vendor::after_vendor_query(Err(Error::Failed("input/output error".to_owned()))),
        Progress::Settled(Err(Error::Failed("input/output error".to_owned())))
    );
}

#[test]
fn failed_distro_query_fails_discovery() {
    assert_eq!(
        Vendor::discover::<BareLinuxHost>(),
        Err(Error::Failed("unable to discover distro id".to_owned()))
    );
    assert_eq!(
        Vendor::after_distro_query(Err(Error::Failed("no metadata".to_owned()))),
        Err(Error::Failed("no metadata".to_owned()))
    );
}

#[test]
fn distro_is_asked_for_on_linux_only() {
    assert_eq!(Vendor::after_vendor_query(Ok("Linux".to_owned())), Progress::NeedsDistro);
    assert_eq!(Vendor::after_vendor_query(Ok("LINUX".to_owned())), Progress::NeedsDistro);
    assert_eq!(
        Vendor::after_vendor_query(Ok("Darwin".to_owned())),
        Progress::Settled(Ok(Vendor(VendorID::MacOS, None)))
    );
    assert_eq!(
        Vendor::after_vendor_query(Ok("Windows".to_owned())),
        Progress::Settled(Err(Error::UnsupportedSystem("windows".to_owned())))
    );
}

#[test]
fn distro_answers_end_discovery_on_linux() {
    assert_eq!(
        Vendor::after_distro_query(Ok("arch".to_owned())),
        Ok(Vendor(VendorID::Linux, Some(DistroID::Arch)))
    );
    assert_eq!(
        Vendor::after_distro_query(Ok("Debian".to_owned())),
        Ok(Vendor(VendorID::Linux, Some(DistroID::Debian)))
    );
    assert_eq!(
        Vendor::after_distro_query(Ok("rhel fedora".to_owned())),
        Ok(Vendor(VendorID::Linux, Some(DistroID::Rhel)))
    );
}

#[test]
fn backend_failures_are_handed_on_unchanged() {
    let failure = Error::UnsupportedDistro("elsewhere".to_owned());
    assert_eq!(
        Vendor::after_vendor_query(Err(Error::UnsupportedDistro("elsewhere".to_owned()))),
        Progress::Settled(Err(failure))
    );
}

#[test]
fn machine_answers_become_reports() {
    assert_eq!(SysInfo::vendor_report(Ok("Linux".to_owned())), Ok("Linux".to_owned()));
    assert_eq!(
        SysInfo::vendor_report(Err("IO error: not found".to_owned())),
        Err(Error::Failed("failed vendor id discovery: IO error: not found".to_owned()))
    );
    assert_eq!(
        SysInfo::distro_report(Ok(Some("rhel fedora".to_owned()))),
        Ok("rhel fedora".to_owned())
    );
    assert_eq!(
        SysInfo::distro_report(Ok(None)),
        Err(Error::Failed("unable to discover distro id".to_owned()))
    );
    assert_eq!(
        SysInfo::distro_report(Err("System is not supported".to_owned())),
        Err(Error::Failed(
            "unable to fetch release datails: System is not supported".to_owned()
        ))
    );
}

#[test]
fn the_machine_is_asked_and_fails_with_a_reason_only() {
    match SysInfo::get_vendor_id() {
        Ok(_) => {}
        Err(failure) => match failure {
            Error::Failed(reason) => assert!(reason.starts_with("failed vendor id discovery: ")),
            other => panic!("{other:?}"),
        },
    }
    match SysInfo::get_distro_id() {
        Ok(_) => {}
        Err(failure) => match failure {
            Error::Failed(reason) => assert!(
                reason == "unable to discover distro id"
                    || reason.starts_with("unable to fetch release datails: ")
            ),
            other => panic!("{other:?}"),
        },
    }
}

#[test]
fn the_machine_resolves_to_a_well_formed_vendor_or_fails() {
    match Vendor::discover::<SysInfo>() {
        Ok(Vendor(VendorID::Linux, distro_id)) => assert!(distro_id.is_some()),
        Ok(Vendor(VendorID::MacOS, distro_id)) => assert!(distro_id.is_none()),
        Err(_) => {}
    }
}

#[test]
fn errors_read_as_sentences() {
    assert_eq!(
        Error::UnsupportedSystem("windows".to_owned()).message(),
        "windows is not supported yet"
    );
    assert_eq!(
        Error::UnsupportedDistro("solaris".to_owned()).message(),
        "solaris is not supported yet"
    );
    assert_eq!(Error::Failed("no such file".to_owned()).message(), "no such file");
    assert_eq!(
        Error::UnsupportedSystem("windows".to_owned()).description(),
        "unsupported system"
    );
    assert_eq!(
        Error::UnsupportedDistro("solaris".to_owned()).description(),
        "unsupported distro"
    );
    assert_eq!(Error::Failed("no such file".to_owned()).description(), "execution failed");
}
