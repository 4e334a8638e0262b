use zvmhelper::config::{Config, ConfigError, DiskConfig, MultipathDisks, NetworkConfig, ScsiDisk, ZvmConfig};
use zvmhelper::images::{ImagesConfig, LiveImages, Location};
use zvmhelper::ipl::{clear, punch, Action, Event, Stage, Transfer};

fn transfer() -> Transfer {
    Transfer::new(
        "guest1".to_string(),
        "/w/kernel".to_string(),
        "initrd.img".to_string(),
        "rd.neednet=1".to_string(),
    )
}

fn words(a: &Action) -> Vec<String> {
    match a {
        Action::Run(w) | Action::Query(w) => w.clone(),
        Action::WriteFile { name, .. } => vec!["write".to_string(), name.clone()],
        Action::Finish { .. } => vec!["finish".to_string()],
        Action::Abort(_) => vec!["abort".to_string()],
    }
}

/// Runs the transfer, answering each action with `answer`; returns the actions taken.
fn drive(t: &mut Transfer, mut answer: impl FnMut(&[String]) -> Event) -> Vec<Vec<String>> {
    let mut log = Vec::new();
    for _ in 0..64 {
        let a = t.action();
        let w = words(&a);
        log.push(w.clone());
        match a {
            Action::Finish { .. } | Action::Abort(_) => return log,
            _ => t.advance(answer(&w)),
        }
    }
    panic!("transfer did not end");
}

fn line(w: &[&str]) -> Vec<String> {
    w.iter().map(|s| s.to_string()).collect()
}

#[test]
fn full_transfer_in_order() {
    let mut t = transfer();
    let log = drive(&mut t, |w| {
        if w[1] == "--is-ignored" && w[2] == "d" {
            Event::Output("Device 0.0.000d is ignored\n".to_string())
        } else if w[1] == "--is-ignored" {
            Event::Output("Device 0.0.000c is not ignored\n".to_string())
        } else {
            Event::Succeeded
        }
    });
    let expected = vec![
        line(&["modprobe", "vmur"]),
        line(&["cio_ignore", "--is-ignored", "c"]),
        line(&["chccwdev", "--online", "c"]),
        line(&["cio_ignore", "--is-ignored", "d"]),
        line(&["cio_ignore", "--remove", "d"]),
        line(&["chccwdev", "--online", "d"]),
        line(&["cio_ignore", "--is-ignored", "e"]),
        line(&["chccwdev", "--online", "e"]),
        line(&["vmcp", "sp", "pun", "guest1", "rdr"]),
        line(&["vmcp", "pur", "guest1", "rdr", "all"]),
        line(&["write", "cmdline"]),
        line(&["vmur", "punch", "-r", "-u", "guest1", "-N", "coreos.kernel", "/w/kernel"]),
        line(&["vmur", "punch", "-r", "-u", "guest1", "-N", "coreos.parm", "cmdline"]),
        line(&["vmur", "punch", "-r", "-u", "guest1", "-N", "coreos.initrd", "initrd.img"]),
        line(&["vmcp", "send", "cp", "guest1", "ipl", "c"]),
        line(&["finish"]),
    ];
    assert_eq!(log, expected);
    assert_eq!(t.stage, Stage::Done);
    assert!(matches!(t.action(), Action::Finish { warning: None }));
}

#[test]
fn parm_file_holds_the_line() {
    let mut t = transfer();
    loop {
        match t.action() {
            Action::WriteFile { name, contents } => {
                assert_eq!(name, "cmdline");
                assert_eq!(contents, "rd.neednet=1");
                return;
            }
            Action::Finish { .. } | Action::Abort(_) => panic!("no parameter file written"),
            _ => t.advance(Event::Succeeded),
        }
    }
}

#[test]
fn failed_parm_punch_stops_before_initrd_and_boot() {
    let mut t = transfer();
    let log = drive(&mut t, |w| {
        if w.len() > 6 && w[6] == "coreos.parm" {
            Event::Failed("exit status: 1".to_string())
        } else {
            Event::Succeeded
        }
    });
    assert_eq!(log.last().unwrap(), &line(&["abort"]));
    assert!(!log.iter().any(|w| w.contains(&"coreos.initrd".to_string())));
    assert!(!log.iter().any(|w| w.contains(&"ipl".to_string())));
    assert_eq!(t.stage, Stage::Failed);
    match t.action() {
        Action::Abort(e) => {
            assert_eq!(e.operation, "vmur punch -r -u guest1 -N coreos.parm cmdline");
            assert_eq!(e.cause, "exit status: 1");
        }
        _ => panic!("expected an abort"),
    }
    t.advance(Event::Succeeded);
    assert_eq!(t.stage, Stage::Failed);
}

#[test]
fn failed_device_setup_aborts() {
    let mut t = transfer();
    let log = drive(&mut t, |w| {
        if w[0] == "modprobe" {
            Event::Failed("no module".to_string())
        } else {
            Event::Succeeded
        }
    });
    assert_eq!(log, vec![line(&["modprobe", "vmur"]), line(&["abort"])]);
}

#[test]
fn failed_boot_leaves_it_to_the_operator() {
    let mut t = transfer();
    let log = drive(&mut t, |w| if w[1] == "send" { Event::Failed("not authorized".to_string()) } else { Event::Succeeded });
    assert_eq!(log.last().unwrap(), &line(&["finish"]));
    assert_eq!(t.stage, Stage::ManualBoot);
    match t.action() {
        Action::Finish { warning: Some(w) } => {
            assert_eq!(w, "Please login to zVM and IPL manually: '#cp ipl c'")
        }
        _ => panic!("expected a warning"),
    }
}

#[test]
fn clear_purges_twice() {
    let c = clear("guest1");
    assert_eq!(c, vec![line(&["vmcp", "sp", "pun", "guest1", "rdr"]), line(&["vmcp", "pur", "guest1", "rdr", "all"])]);
    assert_eq!(
        punch("g", "coreos.kernel", "k"),
        line(&["vmur", "punch", "-r", "-u", "g", "-N", "coreos.kernel", "k"])
    );
}

fn config(target: DiskConfig) -> Config {
    Config {
        zvm: ZvmConfig {
            zvm: "guest9".to_string(),
            ignition: "http://i/c.ign".to_string(),
            dfltcc: None,
            cmdline: None,
        },
        network: NetworkConfig {
            ip: "1.2.3.4".to_string(),
            id: String::new(),
            gw: "1.2.3.1".to_string(),
            mask: "255.0.0.0".to_string(),
            hostname: "h".to_string(),
            nic: "enc0".to_string(),
            dhcp: "none".to_string(),
            nameserver: vec![],
            znet: "qeth".to_string(),
        },
        target,
        images: ImagesConfig::Live(images()),
    }
}

fn images() -> LiveImages {
    LiveImages {
        live_kernel: Location::remote("http://h/x/kernel-s390x".to_string(), "/x/kernel-s390x"),
        live_initrd: Location::local("file:///w/initrd.img".to_string(), "/w/initrd.img".to_string()),
        live_rootfs: Location::remote("http://h/x/rootfs.img".to_string(), "/x/rootfs.img"),
    }
}

#[test]
fn prepared_transfer_for_a_run() {
    let t = Transfer::prepare(&config(DiskConfig::Scsi(ScsiDisk { scsi: "s".to_string() })), &images())
        .unwrap();
    assert_eq!(t.zvm, "guest9");
    assert_eq!(t.kernel, "kernel-s390x");
    assert_eq!(t.initrd, "/w/initrd.img");
    assert!(t.parm.starts_with("rd.neednet=1 rd.znet=qeth ip=1.2.3.4::1.2.3.1:255.0.0.0:h:enc0:none coreos.inst=yes"));
    assert_eq!(t.stage, Stage::LoadModule);
    let bad = Transfer::prepare(&config(DiskConfig::Multipath(MultipathDisks { scsi: vec![] })), &images());
    assert_eq!(bad.err(), Some(ConfigError::TooFewPaths { count: 0 }));
}
