//! The description of one provisioning run: guest identity, network,
//! installation target and image source.
use vstd::prelude::*;
use crate::images::ImagesConfig;
use crate::text::contains;

verus! {

/// The CoreOS family whose build artifacts are installed.
#[derive(Debug, Clone, Copy, PartialEq, Eq, Structural)]
pub enum CoreOsVariant {
    Fedora,
    RedHat,
}

/// A configuration that cannot describe a run.
#[derive(Debug, Clone, PartialEq, Eq)]
pub enum ConfigError {
    /// A multipath target needs at least two paths; `count` were given.
    TooFewPaths { count: usize },
    /// RedHat build artifacts are named after the build time, which is absent.
    MissingBuildTime,
    /// `name` could not be resolved against the base location `base`.
    JoinFailed { base: String, name: String },
    /// `path` cannot be expressed as a file location.
    NotAFileLocation { path: String },
}

/// The whole run.
pub struct Config {
    pub zvm: ZvmConfig,
    pub network: NetworkConfig,
    pub target: DiskConfig,
    pub images: ImagesConfig,
}

/// The guest and the installer settings that do not depend on the target.
pub struct ZvmConfig {
    /// The guest's user id on the hypervisor.
    pub zvm: String,
    /// Location of the Ignition config.
    pub ignition: String,
    /// Hardware decompression: left to the kernel when `None`.
    pub dfltcc: Option<bool>,
    /// Extra kernel arguments, appended as they are.
    pub cmdline: Option<String>,
}

/// The disk the installer writes to.
pub enum DiskConfig {
    Dasd(DasdDisk),
    Fba(FbaDisk),
    Scsi(ScsiDisk),
    Multipath(MultipathDisks),
}

/// An ECKD DASD, by its bus id (`0.0.xxxx`).
pub struct DasdDisk {
    pub dasd: String,
}

/// An FBA (EDEV) DASD, by its bus id.
pub struct FbaDisk {
    pub fba: String,
}

/// A zFCP SCSI disk, by its controller address.
pub struct ScsiDisk {
    pub scsi: String,
}

/// One disk reached over several zFCP paths.
pub struct MultipathDisks {
    pub scsi: Vec<String>,
}

/// The guest's network settings, taken as they are given.
pub struct NetworkConfig {
    pub ip: String,
    pub id: String,
    pub gw: String,
    pub mask: String,
    pub hostname: String,
    pub nic: String,
    pub dhcp: String,
    pub nameserver: Vec<String>,
    pub znet: String,
}

/// Device path of a DASD, from its bus id.
pub open spec fn ccw_path(id: Seq<char>) -> Seq<char> {
    "/dev/disk/by-path/ccw-"@ + id
}

/// Device path under which the installer exposes a zFCP disk.
pub open spec fn scsi_path() -> Seq<char> {
    "sda"@
}

/// Device path of the multipath device.
pub open spec fn multipath_path() -> Seq<char> {
    "/dev/mapper/mpatha"@
}

/// A target that the installer writes to, by the device path it sees.
pub trait InstallTarget {
    /// The device path, or `None` when the target is malformed.
    spec fn target_path(&self) -> Option<Seq<char>>;

    /// The device path; fails exactly where `target_path` is `None`.
    fn install_target(&self) -> (r: Result<String, ConfigError>)
        ensures
            r is Ok <==> self.target_path() is Some,
            r is Ok ==> self.target_path() == Some(r->Ok_0@),
    ;
}

impl InstallTarget for DasdDisk {
    open spec fn target_path(&self) -> Option<Seq<char>> {
        Some(ccw_path(self.dasd@))
    }

    fn install_target(&self) -> (r: Result<String, ConfigError>) {
        Ok(String::from_str("/dev/disk/by-path/ccw-").concat(self.dasd.as_str()))
    }
}

impl InstallTarget for FbaDisk {
    open spec fn target_path(&self) -> Option<Seq<char>> {
        Some(ccw_path(self.fba@))
    }

    fn install_target(&self) -> (r: Result<String, ConfigError>) {
        Ok(String::from_str("/dev/disk/by-path/ccw-").concat(self.fba.as_str()))
    }
}

impl InstallTarget for ScsiDisk {
    open spec fn target_path(&self) -> Option<Seq<char>> {
        Some(scsi_path())
    }

    fn install_target(&self) -> (r: Result<String, ConfigError>) {
        Ok(String::from_str("sda"))
    }
}

impl InstallTarget for MultipathDisks {
    open spec fn target_path(&self) -> Option<Seq<char>> {
        if self.scsi@.len() >= 2 {
            Some(multipath_path())
        } else {
            None
        }
    }

    fn install_target(&self) -> (r: Result<String, ConfigError>) {
        if self.scsi.len() < 2 {
            Err(ConfigError::TooFewPaths { count: self.scsi.len() })
        } else {
            Ok(String::from_str("/dev/mapper/mpatha"))
        }
    }
}

impl InstallTarget for DiskConfig {
    open spec fn target_path(&self) -> Option<Seq<char>> {
        match self {
            DiskConfig::Dasd(d) => d.target_path(),
            DiskConfig::Fba(d) => d.target_path(),
            DiskConfig::Scsi(d) => d.target_path(),
            DiskConfig::Multipath(d) => d.target_path(),
        }
    }

    fn install_target(&self) -> (r: Result<String, ConfigError>) {
        match self {
            DiskConfig::Dasd(d) => d.install_target(),
            DiskConfig::Fba(d) => d.install_target(),
            DiskConfig::Scsi(d) => d.install_target(),
            DiskConfig::Multipath(d) => d.install_target(),
        }
    }
}

impl MultipathDisks {
    /// A multipath target over `scsi`; refused with fewer than two paths.
    pub fn new(scsi: Vec<String>) -> (r: Result<MultipathDisks, ConfigError>)
        ensures
            scsi@.len() < 2 <==> r is Err,
            r is Err ==> r == Err::<MultipathDisks, ConfigError>(
                ConfigError::TooFewPaths { count: scsi@.len() as usize },
            ),
            r is Ok ==> r->Ok_0.scsi@ == scsi@,
    {
        if scsi.len() < 2 {
            Err(ConfigError::TooFewPaths { count: scsi.len() })
        } else {
            Ok(MultipathDisks { scsi })
        }
    }
}

/// The device path of a DASD or FBA disk is the fixed CCW prefix followed by
/// the bus id as given; it holds the bus id.
pub proof fn lemma_ccw_target_holds_id(d: DasdDisk, f: FbaDisk)
    ensures
        d.target_path() == Some("/dev/disk/by-path/ccw-"@ + d.dasd@),
        f.target_path() == Some("/dev/disk/by-path/ccw-"@ + f.fba@),
        contains(d.target_path()->Some_0, d.dasd@),
        contains(f.target_path()->Some_0, f.fba@),
{
    let p = "/dev/disk/by-path/ccw-"@;
    let s = p + d.dasd@;
    assert(s.subrange(p.len() as int, (p.len() + d.dasd@.len()) as int) =~= d.dasd@);
    assert(crate::text::occurs_at(s, d.dasd@, p.len() as int));
    let t = p + f.fba@;
    assert(t.subrange(p.len() as int, (p.len() + f.fba@.len()) as int) =~= f.fba@);
    assert(crate::text::occurs_at(t, f.fba@, p.len() as int));
}

/// A SCSI disk is always installed to the same device, whatever its address.
pub proof fn lemma_scsi_target_ignores_id(a: ScsiDisk, b: ScsiDisk)
    ensures
        a.target_path() == b.target_path(),
        a.target_path() == Some("sda"@),
{
}

/// A multipath target resolves exactly when it has two paths or more, and
/// then to the one device-mapper device.
pub proof fn lemma_multipath_target(m: MultipathDisks)
    ensures
        m.target_path() is Some <==> m.scsi@.len() >= 2,
        m.scsi@.len() >= 2 ==> m.target_path() == Some("/dev/mapper/mpatha"@),
{
}

} // verus!
