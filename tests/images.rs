use zvmhelper::config::{ConfigError, CoreOsVariant};
use zvmhelper::images::{
    fetch_step, fetched_artifacts, format_date, BuildImages, FetchError, FetchStep, ImagesConfig,
    LiveImages, Location,
};

fn fedora(url: Option<&str>, date: Option<&str>) -> BuildImages {
    BuildImages {
        url: url.map(|u| u.to_string()),
        variant: CoreOsVariant::Fedora,
        version: "37".to_string(),
        date: date.map(|d| d.to_string()),
        time: None,
        id: 0,
    }
}

fn redhat(time: Option<&str>) -> BuildImages {
    BuildImages {
        url: None,
        variant: CoreOsVariant::RedHat,
        version: "413".to_string(),
        date: Some("92".to_string()),
        time: time.map(|t| t.to_string()),
        id: 0,
    }
}

fn local_today() -> String {
    chrono::Local::now().format("%Y%m%d").to_string()
}

#[test]
fn fedora_build_against_base_uses_today() {
    let b = fedora(Some("http://172.23.236.43"), None);
    let t = local_today();
    let live = b.resolve(&t, "/srv").unwrap();
    assert_eq!(
        live.live_kernel.url,
        format!("http://172.23.236.43/fedora-coreos-37.{}.dev.0-live-kernel-s390x", t)
    );
    assert_eq!(
        live.live_initrd.url,
        format!("http://172.23.236.43/fedora-coreos-37.{}.dev.0-live-initramfs.s390x.img", t)
    );
    assert_eq!(
        live.live_rootfs.url,
        format!("http://172.23.236.43/fedora-coreos-37.{}.dev.0-live-rootfs.s390x.img", t)
    );
    assert_eq!(live.live_kernel.file_name, format!("fedora-coreos-37.{}.dev.0-live-kernel-s390x", t));
    assert!(live.live_kernel.local_path.is_none());
}

#[test]
fn today_stamp_is_eight_digits() {
    let now = chrono::Local::now();
    let t = format_date(
        chrono::Datelike::year(&now),
        chrono::Datelike::month(&now),
        chrono::Datelike::day(&now),
    );
    assert_eq!(t, now.format("%Y%m%d").to_string());
    assert_eq!(t.len(), 8);
    assert!(t.chars().all(|c| c.is_ascii_digit()));
}

#[test]
fn date_formatting() {
    assert_eq!(format_date(2023, 3, 4), "20230304");
    assert_eq!(format_date(2021, 12, 31), "20211231");
    assert_eq!(format_date(987, 10, 1), "9871001");
    assert_eq!(format_date(-44, 3, 15), "-440315");
}

#[test]
fn redhat_build_local_files() {
    let live = redhat(Some("202303141019")).resolve("20990101", "/tmp/work").unwrap();
    let name = "rhcos-413.92202303141019-0-live-rootfs.s390x.img";
    assert_eq!(live.live_rootfs.file_name, name);
    assert_eq!(live.live_rootfs.local_path, Some(format!("/tmp/work/{}", name)));
    assert_eq!(live.live_rootfs.url, format!("file:///tmp/work/{}", name));
    assert!(live.live_rootfs.is_local());
    assert_eq!(
        live.live_kernel.local_path,
        Some("/tmp/work/rhcos-413.92202303141019-0-live-kernel-s390x".to_string())
    );
    let slash = redhat(Some("1")).resolve("x", "/tmp/work/").unwrap();
    assert_eq!(
        slash.live_initrd.local_path,
        Some("/tmp/work/rhcos-413.921-0-live-initramfs.s390x.img".to_string())
    );
}

#[test]
fn redhat_build_without_time_fails() {
    assert_eq!(redhat(None).resolve("20230314", "/tmp").err(), Some(ConfigError::MissingBuildTime));
    assert_eq!(redhat(None).resolve("", "/").err(), Some(ConfigError::MissingBuildTime));
}

#[test]
fn relative_directory_has_no_file_location() {
    let r = fedora(None, Some("20230314")).resolve("x", "work");
    assert_eq!(
        r.err(),
        Some(ConfigError::NotAFileLocation {
            path: "work/fedora-coreos-37.20230314.dev.0-live-kernel-s390x".to_string()
        })
    );
}

#[test]
fn bad_base_fails_to_join() {
    let r = fedora(Some("not a url"), Some("1")).resolve("x", "/tmp");
    assert!(matches!(r.err(), Some(ConfigError::JoinFailed { .. })));
}

#[test]
fn resolution_is_deterministic() {
    let b = fedora(Some("http://builder.example/builds/"), Some("20230314"));
    let x = b.resolve("20000101", "/a").unwrap();
    let y = b.resolve("20000101", "/a").unwrap();
    for (p, q) in [
        (&x.live_kernel, &y.live_kernel),
        (&x.live_initrd, &y.live_initrd),
        (&x.live_rootfs, &y.live_rootfs),
    ] {
        assert_eq!(p.url, q.url);
        assert_eq!(p.file_name, q.file_name);
    }
    assert_eq!(
        x.live_kernel.url,
        "http://builder.example/builds/fedora-coreos-37.20230314.dev.0-live-kernel-s390x"
    );
}

#[test]
fn build_id_and_given_date() {
    let mut b = fedora(Some("http://h"), None);
    b.id = 105;
    let live = b.resolve("20230314", "/").unwrap();
    assert_eq!(live.live_rootfs.file_name, "fedora-coreos-37.20230314.dev.105-live-rootfs.s390x.img");
    let t = local_today();
    let shared = ImagesConfig::Build(fedora(Some("http://h"), None)).resolve(&t, "/").unwrap();
    for l in [&shared.live_kernel, &shared.live_initrd, &shared.live_rootfs] {
        assert!(l.file_name.contains(&format!(".{}.dev.0-", t)));
    }
}

#[test]
fn live_images_pass_through() {
    let live = LiveImages {
        live_kernel: Location::remote("http://h/a/kernel.img".to_string(), "/a/kernel.img"),
        live_initrd: Location::local("file:///b/initrd.img".to_string(), "/b/initrd.img".to_string()),
        live_rootfs: Location::remote("http://h/rootfs".to_string(), "/rootfs"),
    };
    assert_eq!(live.live_kernel.file_name, "kernel.img");
    assert_eq!(live.live_initrd.file_name, "initrd.img");
    let r = ImagesConfig::Live(live).resolve("x", "/y").unwrap();
    assert_eq!(r.live_kernel.url, "http://h/a/kernel.img");
    assert_eq!(r.live_initrd.local_path, Some("/b/initrd.img".to_string()));
    assert_eq!(r.live_rootfs.url, "http://h/rootfs");
    assert_eq!(r.live_kernel.source_path(), "kernel.img");
    assert_eq!(r.live_initrd.source_path(), "/b/initrd.img");
}

#[test]
fn fetch_skips_present_files() {
    let remote = Location::remote("http://h/a/kernel".to_string(), "/a/kernel");
    let local = Location::local("file:///w/initrd".to_string(), "/w/initrd".to_string());
    assert!(matches!(fetch_step(&remote, true), Ok(FetchStep::Present)));
    assert!(matches!(fetch_step(&local, true), Ok(FetchStep::Present)));
}

#[test]
fn fetch_of_missing_local_file_fails() {
    let local = Location::local("file:///w/initrd".to_string(), "/w/initrd".to_string());
    match fetch_step(&local, false) {
        Err(FetchError::MissingLocalArtifact { path }) => assert_eq!(path, "/w/initrd"),
        _ => panic!("expected a missing artifact"),
    }
}

#[test]
fn fetch_of_missing_remote_file_downloads() {
    let remote = Location::remote("http://h/a/kernel".to_string(), "/a/kernel");
    match fetch_step(&remote, false) {
        Ok(FetchStep::Download { url, dest }) => {
            assert_eq!(url, "http://h/a/kernel");
            assert_eq!(dest, "kernel");
        }
        _ => panic!("expected a download"),
    }
}

#[test]
fn only_kernel_and_initrd_are_fetched() {
    let live = redhat(Some("7")).resolve("x", "/w").unwrap();
    let v = fetched_artifacts(&live);
    assert_eq!(v.len(), 2);
    assert_eq!(v[0].file_name, "rhcos-413.927-0-live-kernel-s390x");
    assert_eq!(v[1].file_name, "rhcos-413.927-0-live-initramfs.s390x.img");
}

#[test]
fn file_names_of_paths() {
    let name = |p: &str| Location::remote(format!("http://h{}", p), p).file_name;
    assert_eq!(name("/a/b.img"), "b.img");
    assert_eq!(name("/a/"), "a");
    assert_eq!(name("/a//"), "a");
    assert_eq!(name("/a/."), "a");
    assert_eq!(name("/"), "");
    assert_eq!(name("/a/.."), "");
    assert_eq!(Location::local("file:///w/x/".to_string(), "/w/x/".to_string()).file_name, "x");
}

#[test]
fn location_without_file_name_is_refused() {
    let root = Location::remote("http://h/".to_string(), "/");
    for present in [true, false] {
        match fetch_step(&root, present) {
            Err(FetchError::NoFileName { url }) => assert_eq!(url, "http://h/"),
            _ => panic!("expected a missing file name"),
        }
    }
}
