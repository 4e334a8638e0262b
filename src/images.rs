//! Boot image locations: given as they are, or derived from a build's
//! version, date, time and id; and what has to be fetched before transfer.
use vstd::prelude::*;
use crate::config::{ConfigError, CoreOsVariant};
use crate::text::{decimal, path_under, push_decimal, two_digits, signed_decimal};
use crate::text::{join_path, path_file_name, path_file_name_of, push_signed_decimal, push_two_digits};

verus! {

/// Where one boot artifact is found.
pub struct Location {
    /// The location as a URL.
    pub url: String,
    /// The artifact's file name, under which it is kept in the working directory.
    pub file_name: String,
    /// For a file location, its path on this machine.
    pub local_path: Option<String>,
}

/// The mathematical value of a [`Location`].
pub struct LocationView {
    pub url: Seq<char>,
    pub file_name: Seq<char>,
    pub local_path: Option<Seq<char>>,
}

/// The view of an optional string.
pub open spec fn opt_view(o: Option<String>) -> Option<Seq<char>> {
    match o {
        Some(s) => Some(s@),
        None => None,
    }
}

impl View for Location {
    type V = LocationView;

    open spec fn view(&self) -> LocationView {
        LocationView { url: self.url@, file_name: self.file_name@, local_path: opt_view(self.local_path) }
    }
}

fn copy_opt(o: &Option<String>) -> (r: Option<String>)
    ensures
        opt_view(r) == opt_view(*o),
{
    match o {
        Some(s) => Some(String::from_str(s.as_str())),
        None => None,
    }
}

impl Location {
    /// A network location; `url_path` is the path part of `url`. Its file
    /// name is the path's (empty where the path has none).
    pub fn remote(url: String, url_path: &str) -> (r: Location)
        ensures
            r@ == (LocationView { url: url@, file_name: path_file_name(url_path@), local_path: None }),
    {
        Location { url, file_name: path_file_name_of(url_path), local_path: None }
    }

    /// A file location: `url` is the `file:` URL of `path`. Its file name is
    /// the path's (empty where the path has none).
    pub fn local(url: String, path: String) -> (r: Location)
        ensures
            r@ == (LocationView { url: url@, file_name: path_file_name(path@), local_path: Some(path@) }),
    {
        let file_name = path_file_name_of(path.as_str());
        Location { url, file_name, local_path: Some(path) }
    }

    /// Whether this is a file location.
    pub fn is_local(&self) -> (r: bool)
        ensures
            r == (self@.local_path is Some),
    {
        self.local_path.is_some()
    }

    /// What a local tool reads the artifact from: the file itself for a file
    /// location, else the copy fetched into the working directory.
    pub fn source_path(&self) -> (r: String)
        ensures
            r@ == source_path_of(self@),
    {
        match &self.local_path {
            Some(p) => String::from_str(p.as_str()),
            None => String::from_str(self.file_name.as_str()),
        }
    }

    /// A copy of this location.
    pub fn duplicate(&self) -> (r: Location)
        ensures
            r@ == self@,
    {
        Location {
            url: String::from_str(self.url.as_str()),
            file_name: String::from_str(self.file_name.as_str()),
            local_path: copy_opt(&self.local_path),
        }
    }
}

/// See [`Location::source_path`].
pub open spec fn source_path_of(l: LocationView) -> Seq<char> {
    match l.local_path {
        Some(p) => p,
        None => l.file_name,
    }
}

/// A build's artifacts, named after its variant, version, date, time and id.
pub struct BuildImages {
    /// Base location that the names are resolved against; the working
    /// directory when absent.
    pub url: Option<String>,
    pub variant: CoreOsVariant,
    pub version: String,
    /// Build date; today when absent.
    pub date: Option<String>,
    /// Build time; RedHat builds need it.
    pub time: Option<String>,
    pub id: u32,
}

/// The three boot artifacts.
pub struct LiveImages {
    pub live_kernel: Location,
    pub live_initrd: Location,
    pub live_rootfs: Location,
}

/// The mathematical value of [`LiveImages`].
pub struct LiveImagesView {
    pub kernel: LocationView,
    pub initrd: LocationView,
    pub rootfs: LocationView,
}

impl View for LiveImages {
    type V = LiveImagesView;

    open spec fn view(&self) -> LiveImagesView {
        LiveImagesView { kernel: self.live_kernel@, initrd: self.live_initrd@, rootfs: self.live_rootfs@ }
    }
}

impl LiveImages {
    /// A copy of these images.
    pub fn duplicate(&self) -> (r: LiveImages)
        ensures
            r@ == self@,
    {
        LiveImages {
            live_kernel: self.live_kernel.duplicate(),
            live_initrd: self.live_initrd.duplicate(),
            live_rootfs: self.live_rootfs.duplicate(),
        }
    }
}

/// Where the boot images come from.
pub enum ImagesConfig {
    Build(BuildImages),
    Live(LiveImages),
}

/// Role suffix of the kernel image.
pub open spec fn kernel_role() -> Seq<char> {
    "kernel-s390x"@
}

/// Role suffix of the initial ramdisk.
pub open spec fn initrd_role() -> Seq<char> {
    "initramfs.s390x.img"@
}

/// Role suffix of the root filesystem image.
pub open spec fn rootfs_role() -> Seq<char> {
    "rootfs.s390x.img"@
}

/// File name of one build artifact, or `None` for a RedHat build without a time.
pub open spec fn artifact_name(
    variant: CoreOsVariant,
    version: Seq<char>,
    date: Seq<char>,
    time: Option<Seq<char>>,
    id: nat,
    role: Seq<char>,
) -> Option<Seq<char>> {
    match variant {
        CoreOsVariant::Fedora => Some(
            "fedora-coreos-"@ + version + "."@ + date + ".dev."@ + decimal(id) + "-live-"@ + role,
        ),
        CoreOsVariant::RedHat => match time {
            Some(t) => Some("rhcos-"@ + version + "."@ + date + t + "-0-live-"@ + role),
            None => None,
        },
    }
}

/// The URL that `name` resolves to against the base location `base`, as the
/// URL library serializes it; `None` where it cannot be resolved.
pub uninterp spec fn url_joined(base: Seq<char>, name: Seq<char>) -> Option<Seq<char>>;

/// The `file:` URL of a path, as the URL library serializes it; `None` where
/// the path has none.
pub uninterp spec fn file_url_of(path: Seq<char>) -> Option<Seq<char>>;

/// Relies on `Url::parse` and `Url::join` of the url crate (re-exported by
/// reqwest): `name` resolved against the base; the result depends on the two
/// texts alone.
#[verifier::external_body]
fn join_url(base: &str, name: &str) -> (r: Option<String>)
    ensures
        url_joined(base@, name@) == opt_view(r),
{
    match reqwest::Url::parse(base) {
        Ok(b) => match b.join(name) {
            Ok(u) => Some(u.to_string()),
            Err(_) => None,
        },
        Err(_) => None,
    }
}

/// Relies on `Url::from_file_path` of the url crate (re-exported by reqwest):
/// the `file:` URL of a path; the result depends on the path alone, and there
/// is one exactly when the path is absolute, that is starts with `/`.
#[verifier::external_body]
fn file_url(path: &str) -> (r: Option<String>)
    ensures
        file_url_of(path@) == opt_view(r),
        r is Some <==> is_absolute(path@),
{
    match reqwest::Url::from_file_path(path) {
        Ok(u) => Some(u.to_string()),
        Err(_) => None,
    }
}

/// A path from the root.
pub open spec fn is_absolute(path: Seq<char>) -> bool {
    path.len() > 0 && path[0] == '/'
}

/// The location of an artifact named `name`: resolved against `base` when
/// there is one, else a file under the directory `cwd`.
pub open spec fn artifact_location(base: Option<Seq<char>>, cwd: Seq<char>, name: Seq<char>) -> Option<
    LocationView,
> {
    match base {
        Some(b) => match url_joined(b, name) {
            Some(u) => Some(LocationView { url: u, file_name: name, local_path: None }),
            None => None,
        },
        None => match file_url_of(path_under(cwd, name)) {
            Some(u) => Some(
                LocationView { url: u, file_name: name, local_path: Some(path_under(cwd, name)) },
            ),
            None => None,
        },
    }
}

/// The location of one artifact of a build on the given date.
pub open spec fn build_artifact(b: BuildImages, date: Seq<char>, cwd: Seq<char>, role: Seq<char>) -> Option<
    LocationView,
> {
    match artifact_name(b.variant, b.version@, date, opt_view(b.time), b.id as nat, role) {
        Some(name) => artifact_location(opt_view(b.url), cwd, name),
        None => None,
    }
}

/// The three artifacts of a build on the given date, or `None` where one of
/// them has no location.
pub open spec fn build_images(b: BuildImages, date: Seq<char>, cwd: Seq<char>) -> Option<LiveImagesView> {
    match (
        build_artifact(b, date, cwd, kernel_role()),
        build_artifact(b, date, cwd, initrd_role()),
        build_artifact(b, date, cwd, rootfs_role()),
    ) {
        (Some(k), Some(i), Some(r)) => Some(LiveImagesView { kernel: k, initrd: i, rootfs: r }),
        _ => None,
    }
}

/// The build date used: the one given, else `today`.
pub open spec fn build_date(b: BuildImages, today: Seq<char>) -> Seq<char> {
    match b.date {
        Some(d) => d@,
        None => today,
    }
}

/// What resolving a build on `date` under `cwd` must give: the three
/// locations where they exist; the missing-time error for a RedHat build
/// without a time; otherwise an error of resolution against the base, or of
/// expressing a file location when there is no base.
pub open spec fn resolves_to(r: Result<LiveImages, ConfigError>, b: BuildImages, date: Seq<char>, cwd: Seq<char>) -> bool {
    &&& (r is Ok <==> build_images(b, date, cwd) is Some)
    &&& (r is Ok ==> build_images(b, date, cwd) == Some(r->Ok_0@))
    &&& (b.variant == CoreOsVariant::RedHat && b.time is None ==> r == Err::<LiveImages, ConfigError>(
        ConfigError::MissingBuildTime,
    ))
    &&& (b.url is None && is_absolute(cwd) && !(b.variant == CoreOsVariant::RedHat && b.time is None)
        ==> r is Ok)
    &&& (r is Err && !(b.variant == CoreOsVariant::RedHat && b.time is None) ==> (if b.url is Some {
        r->Err_0 is JoinFailed
    } else {
        r->Err_0 is NotAFileLocation
    }))
}

/// A calendar date written `YYYYMMDD`.
pub open spec fn date_stamp(year: int, month: nat, day: nat) -> Seq<char> {
    signed_decimal(year) + two_digits(month) + two_digits(day)
}

/// A plausible calendar day.
pub open spec fn valid_day(month: nat, day: nat) -> bool {
    1 <= month <= 12 && 1 <= day <= 31
}

/// A four-digit year with a plausible month and day is written in exactly
/// eight characters, `YYYYMMDD`.
pub proof fn lemma_date_stamp_length(year: int, month: nat, day: nat)
    requires
        1000 <= year <= 9999,
        valid_day(month, day),
    ensures
        date_stamp(year, month, day).len() == 8,
{
    let y = year as nat;
    assert(decimal(y / 1000) == seq![crate::text::digit_char(y / 1000)]);
    assert(decimal(y / 100).len() == 2) by {
        assert((y / 100) / 10 == y / 1000);
    }
    assert(decimal(y / 10).len() == 3) by {
        assert((y / 10) / 10 == y / 100);
    }
    assert(decimal(y).len() == 4);
    assert(two_digits(month).len() == 2) by {
        if month >= 10 {
            assert(decimal(month / 10).len() == 1);
        }
    }
    assert(two_digits(day).len() == 2) by {
        if day >= 10 {
            assert(decimal(day / 10).len() == 1);
        }
    }
}

/// Writes a date as `YYYYMMDD`.
pub fn format_date(year: i32, month: u32, day: u32) -> (r: String)
    ensures
        r@ == date_stamp(year as int, month as nat, day as nat),
{
    let mut s = String::new();
    push_signed_decimal(&mut s, year);
    push_two_digits(&mut s, month);
    push_two_digits(&mut s, day);
    s
}

impl BuildImages {
    /// File name of one artifact of this build on `date`.
    fn artifact_name(&self, date: &str, role: &str) -> (r: Result<String, ConfigError>)
        ensures
            match r {
                Ok(s) => artifact_name(self.variant, self.version@, date@, opt_view(self.time), self.id as nat, role@) == Some(s@),
                Err(e) => artifact_name(self.variant, self.version@, date@, opt_view(self.time), self.id as nat, role@) is None
                    && e == ConfigError::MissingBuildTime,
            },
    {
        match self.variant {
            CoreOsVariant::Fedora => {
                let mut s = String::from_str("fedora-coreos-");
                s.append(self.version.as_str());
                s.append(".");
                s.append(date);
                s.append(".dev.");
                push_decimal(&mut s, self.id as u64);
                s.append("-live-");
                s.append(role);
                Ok(s)
            },
            CoreOsVariant::RedHat => match &self.time {
                Some(t) => {
                    let mut s = String::from_str("rhcos-");
                    s.append(self.version.as_str());
                    s.append(".");
                    s.append(date);
                    s.append(t.as_str());
                    s.append("-0-live-");
                    s.append(role);
                    Ok(s)
                },
                None => Err(ConfigError::MissingBuildTime),
            },
        }
    }

    /// Location of one artifact of this build on `date`.
    fn artifact(&self, date: &str, cwd: &str, role: &str) -> (r: Result<Location, ConfigError>)
        ensures
            self.url is None && is_absolute(cwd@) && !(self.variant == CoreOsVariant::RedHat
                && self.time is None) ==> r is Ok,
            match r {
                Ok(l) => build_artifact(*self, date@, cwd@, role@) == Some(l@),
                Err(e) => build_artifact(*self, date@, cwd@, role@) is None && (if self.variant
                    == CoreOsVariant::RedHat && self.time is None {
                    e == ConfigError::MissingBuildTime
                } else if self.url is Some {
                    e is JoinFailed
                } else {
                    e is NotAFileLocation
                }),
            },
    {
        let name = self.artifact_name(date, role)?;
        match &self.url {
            Some(base) => match join_url(base.as_str(), name.as_str()) {
                Some(u) => Ok(Location { url: u, file_name: name, local_path: None }),
                None => Err(ConfigError::JoinFailed { base: String::from_str(base.as_str()), name }),
            },
            None => {
                let path = join_path(cwd, name.as_str());
                proof {
                    if is_absolute(cwd@) {
                        assert(path@[0] == cwd@[0]);
                    }
                }
                match file_url(path.as_str()) {
                    Some(u) => Ok(Location { url: u, file_name: name, local_path: Some(path) }),
                    None => Err(ConfigError::NotAFileLocation { path }),
                }
            },
        }
    }

    /// The three artifacts of this build: on its own date, else on `today`;
    /// resolved against its base location, else as files under `cwd`.
    pub fn resolve(&self, today: &str, cwd: &str) -> (r: Result<LiveImages, ConfigError>)
        ensures
            resolves_to(r, *self, build_date(*self, today@), cwd@),
    {
        let date = match &self.date {
            Some(d) => d.as_str(),
            None => today,
        };
        let kernel = self.artifact(date, cwd, "kernel-s390x")?;
        let initrd = self.artifact(date, cwd, "initramfs.s390x.img")?;
        let rootfs = self.artifact(date, cwd, "rootfs.s390x.img")?;
        Ok(LiveImages { live_kernel: kernel, live_initrd: initrd, live_rootfs: rootfs })
    }
}

impl ImagesConfig {
    /// The three artifacts: given ones as they are; a build's resolved on its
    /// own date, else on `today`.
    pub fn resolve(&self, today: &str, cwd: &str) -> (r: Result<LiveImages, ConfigError>)
        ensures
            match self {
                ImagesConfig::Live(l) => r is Ok && r->Ok_0@ == l@,
                ImagesConfig::Build(b) => resolves_to(r, *b, build_date(*b, today@), cwd@),
            },
    {
        match self {
            ImagesConfig::Live(l) => Ok(l.duplicate()),
            ImagesConfig::Build(b) => b.resolve(today, cwd),
        }
    }
}

/// Resolving the same build twice, on the same date and in the same
/// directory, gives the same outcome: the same three locations, or failure
/// both times.
pub proof fn lemma_resolution_deterministic(
    b: BuildImages,
    date: Seq<char>,
    cwd: Seq<char>,
    r1: Result<LiveImages, ConfigError>,
    r2: Result<LiveImages, ConfigError>,
)
    requires
        resolves_to(r1, b, date, cwd),
        resolves_to(r2, b, date, cwd),
    ensures
        r1 is Ok <==> r2 is Ok,
        r1 is Ok ==> r1->Ok_0@ == r2->Ok_0@,
{
}

/// A RedHat build without a time fails with the missing-time error; with a
/// time, each artifact that resolves is named with the date immediately
/// followed by the time.
pub proof fn lemma_redhat_build_time(
    b: BuildImages,
    date: Seq<char>,
    cwd: Seq<char>,
    r: Result<LiveImages, ConfigError>,
)
    requires
        b.variant == CoreOsVariant::RedHat,
        resolves_to(r, b, date, cwd),
    ensures
        b.time is None ==> r == Err::<LiveImages, ConfigError>(ConfigError::MissingBuildTime),
        b.time is Some && r is Ok ==> {
            let stamp = date + b.time->Some_0@;
            let v = b.version@;
            &&& r->Ok_0@.kernel.file_name == "rhcos-"@ + v + "."@ + stamp + "-0-live-"@ + kernel_role()
            &&& r->Ok_0@.initrd.file_name == "rhcos-"@ + v + "."@ + stamp + "-0-live-"@ + initrd_role()
            &&& r->Ok_0@.rootfs.file_name == "rhcos-"@ + v + "."@ + stamp + "-0-live-"@ + rootfs_role()
        },
{
    if b.time is Some && r is Ok {
        let stamp = date + b.time->Some_0@;
        let v = b.version@;
        let t = b.time->Some_0@;
        assert("rhcos-"@ + v + "."@ + date + t =~= "rhcos-"@ + v + "."@ + stamp);
    }
}

/// A Fedora build without a date of its own, resolved on `today`, names all
/// three artifacts with that one date.
pub proof fn lemma_fedora_shared_date(
    b: BuildImages,
    today: Seq<char>,
    cwd: Seq<char>,
    r: Result<LiveImages, ConfigError>,
)
    requires
        b.variant == CoreOsVariant::Fedora,
        b.date is None,
        resolves_to(r, b, build_date(b, today), cwd),
        r is Ok,
    ensures
        ({
            let head = "fedora-coreos-"@ + b.version@ + "."@ + today + ".dev."@ + decimal(b.id as nat)
                + "-live-"@;
            &&& r->Ok_0@.kernel.file_name == head + kernel_role()
            &&& r->Ok_0@.initrd.file_name == head + initrd_role()
            &&& r->Ok_0@.rootfs.file_name == head + rootfs_role()
        }),
{
}

/// What to do to have an artifact in the working directory.
pub enum FetchStep {
    /// A file of its name is there already: nothing.
    Present,
    /// Fetch `url` into the file `dest` of the working directory.
    Download { url: String, dest: String },
}

/// Why an artifact is not available.
#[derive(Debug, Clone, PartialEq, Eq)]
pub enum FetchError {
    /// The location's path has no file name to keep the artifact under.
    NoFileName { url: String },
    /// A file location whose file does not exist.
    MissingLocalArtifact { path: String },
}

/// The step for an artifact at `loc`; `present` tells whether a file named
/// after it is in the working directory. A location without a file name is an
/// error; a present file is trusted as it is; a missing file location is an
/// error, never fetched over the network.
pub fn fetch_step(loc: &Location, present: bool) -> (r: Result<FetchStep, FetchError>)
    ensures
        loc@.file_name.len() == 0 ==> (r matches Err(FetchError::NoFileName { url }) && url@
            == loc@.url),
        loc@.file_name.len() > 0 && present ==> r matches Ok(FetchStep::Present),
        loc@.file_name.len() > 0 && !present && loc@.local_path is Some ==> (r matches Err(FetchError::MissingLocalArtifact { path })
            && path@ == loc@.local_path->Some_0),
        loc@.file_name.len() > 0 && !present && loc@.local_path is None ==> (r matches Ok(FetchStep::Download { url, dest })
            && url@ == loc@.url && dest@ == loc@.file_name),
{
    if loc.file_name.as_str().unicode_len() == 0 {
        Err(FetchError::NoFileName { url: String::from_str(loc.url.as_str()) })
    } else if present {
        Ok(FetchStep::Present)
    } else {
        match &loc.local_path {
            Some(p) => Err(FetchError::MissingLocalArtifact { path: String::from_str(p.as_str()) }),
            None => Ok(
                FetchStep::Download {
                    url: String::from_str(loc.url.as_str()),
                    dest: String::from_str(loc.file_name.as_str()),
                },
            ),
        }
    }
}

/// The artifacts fetched before transfer, in order: kernel, then initrd. The
/// installer fetches the root filesystem itself.
pub fn fetched_artifacts(live: &LiveImages) -> (r: Vec<Location>)
    ensures
        r@.len() == 2,
        r@[0]@ == live@.kernel,
        r@[1]@ == live@.initrd,
{
    let mut v: Vec<Location> = Vec::new();
    v.push(live.live_kernel.duplicate());
    v.push(live.live_initrd.duplicate());
    v
}

} // verus!
