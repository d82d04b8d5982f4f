//! The host description: operating system, kernel version and host name.

use vstd::prelude::*;
use sysinfo::SystemExt;
use crate::text::push_char;

verus! {

#[verifier::external_type_specification]
#[verifier::external_body]
pub struct ExSystem(sysinfo::System);

/// Which part of the host description the system did not give.
#[derive(Debug, Clone, Copy, PartialEq, Eq)]
pub enum HostInfoError {
    MissingOsName,
    MissingOsVersion,
    MissingHostName,
    MissingKernelVersion,
}

/// The operating system label: its name, a space, then its version.
pub open spec fn os_label(name: Seq<char>, version: Seq<char>) -> Seq<char> {
    name + seq![' '] + version
}

/// The host description made of the four facts that the system reports, as
/// (operating system label, kernel version, host name). A missing fact is an
/// error; the first missing one in the order name, version, host name,
/// kernel version is the one reported.
pub open spec fn host_description(
    os_name: Option<Seq<char>>,
    os_version: Option<Seq<char>>,
    kernel_version: Option<Seq<char>>,
    host_name: Option<Seq<char>>,
) -> Result<(Seq<char>, Seq<char>, Seq<char>), HostInfoError> {
    if os_name is None {
        Err(HostInfoError::MissingOsName)
    } else if os_version is None {
        Err(HostInfoError::MissingOsVersion)
    } else if host_name is None {
        Err(HostInfoError::MissingHostName)
    } else if kernel_version is None {
        Err(HostInfoError::MissingKernelVersion)
    } else {
        Ok((os_label(os_name->0, os_version->0), kernel_version->0, host_name->0))
    }
}

/// The model of a described host: each string by its characters.
pub open spec fn description_view(
    r: Result<(String, String, String), HostInfoError>,
) -> Result<(Seq<char>, Seq<char>, Seq<char>), HostInfoError> {
    match r {
        Ok((os, kernel, host)) => Ok((os@, kernel@, host@)),
        Err(e) => Err(e),
    }
}

/// Relies on `SystemExt::new_all` of sysinfo: a snapshot of the system.
#[verifier::external_body]
fn new_system() -> sysinfo::System {
    sysinfo::System::new_all()
}

/// Relies on `SystemExt::name` of sysinfo: the operating system's name, if known.
#[verifier::external_body]
fn system_os_name(sys: &sysinfo::System) -> Option<String> {
    sys.name()
}

/// Relies on `SystemExt::os_version` of sysinfo: the operating system's version, if known.
#[verifier::external_body]
fn system_os_version(sys: &sysinfo::System) -> Option<String> {
    sys.os_version()
}

/// Relies on `SystemExt::host_name` of sysinfo: the host name, if known.
#[verifier::external_body]
fn system_host_name(sys: &sysinfo::System) -> Option<String> {
    sys.host_name()
}

/// Relies on `SystemExt::kernel_version` of sysinfo: the kernel version, if known.
#[verifier::external_body]
fn system_kernel_version(sys: &sysinfo::System) -> Option<String> {
    sys.kernel_version()
}

/// Builds the host description from the facts that the system reported.
pub fn describe_host(
    os_name: Option<String>,
    os_version: Option<String>,
    kernel_version: Option<String>,
    host_name: Option<String>,
) -> (r: Result<(String, String, String), HostInfoError>)
    ensures
        description_view(r) == host_description(
            os_name.deep_view(),
            os_version.deep_view(),
            kernel_version.deep_view(),
            host_name.deep_view(),
        ),
{
    match (os_name, os_version, host_name, kernel_version) {
        (None, _, _, _) => Err(HostInfoError::MissingOsName),
        (_, None, _, _) => Err(HostInfoError::MissingOsVersion),
        (_, _, None, _) => Err(HostInfoError::MissingHostName),
        (_, _, _, None) => Err(HostInfoError::MissingKernelVersion),
        (Some(name), Some(version), Some(host), Some(kernel)) => {
            let ghost name_chars = name@;
            let mut os = name;
            push_char(&mut os, ' ');
            os.append(version.as_str());
            assert(os@ == os_label(name_chars, version@));
            Ok((os, kernel, host))
        },
    }
}

/// The host description of this machine, as (operating system label, kernel
/// version, host name), or the first fact that the system did not report.
pub fn get_sys_info() -> (r: Result<(String, String, String), HostInfoError>)
    ensures
        r matches Ok((os, _, _)) ==> exists|name: Seq<char>, version: Seq<char>|
            os@ == os_label(name, version),
{
    let sys = new_system();
    let name = system_os_name(&sys);
    let version = system_os_version(&sys);
    let host = system_host_name(&sys);
    let kernel = system_kernel_version(&sys);
    let r = describe_host(name, version, kernel, host);
    proof {
        if r is Ok {
            assert(r->Ok_0.0@ == os_label(name.deep_view()->0, version.deep_view()->0));
        }
    }
    r
}

} // verus!
