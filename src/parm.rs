//! The installer's kernel parameter line.
use vstd::prelude::*;
use crate::config::{Config, ConfigError, DiskConfig, InstallTarget, NetworkConfig, ZvmConfig};
use crate::images::LiveImages;
use crate::text::{contains, join, join_tokens, occurs_at, views};

verus! {

/// The `ip=` token: address, network id, gateway, netmask, hostname, NIC and
/// DHCP mode, separated by `:`.
pub open spec fn ip_token(n: NetworkConfig) -> Seq<char> {
    "ip="@ + n.ip@ + ":"@ + n.id@ + ":"@ + n.gw@ + ":"@ + n.mask@ + ":"@ + n.hostname@ + ":"@
        + n.nic@ + ":"@ + n.dhcp@
}

/// Networking tokens: the network is needed, the device, the address, then
/// one token per name server.
pub open spec fn network_tokens(n: NetworkConfig) -> Seq<Seq<char>> {
    seq!["rd.neednet=1"@, "rd.znet="@ + n.znet@, ip_token(n)] + n.nameserver@.map_values(
        |ns: String| "nameserver="@ + ns@,
    )
}

/// Installer directives: install, accept unsigned images, where the Ignition
/// config is, where the root filesystem is.
pub open spec fn directive_tokens(z: ZvmConfig, rootfs_url: Seq<char>) -> Seq<Seq<char>> {
    seq![
        "coreos.inst=yes"@,
        "coreos.inst.insecure=yes"@,
        "coreos.inst.ignition_url="@ + z.ignition@,
        "coreos.live.rootfs_url="@ + rootfs_url,
    ]
}

/// The token naming the device to install to.
pub open spec fn install_dev_token(path: Seq<char>) -> Seq<char> {
    "coreos.inst.install_dev="@ + path
}

/// Target tokens: the devices to enable, then the device to install to;
/// `None` for a malformed target.
pub open spec fn target_tokens(t: DiskConfig) -> Option<Seq<Seq<char>>> {
    match t.target_path() {
        None => None,
        Some(path) => Some(
            match t {
                DiskConfig::Dasd(d) => seq!["rd.dasd="@ + d.dasd@, install_dev_token(path)],
                DiskConfig::Fba(d) => seq!["rd.dasd="@ + d.fba@, install_dev_token(path)],
                DiskConfig::Scsi(d) => seq!["rd.zfcp="@ + d.scsi@, install_dev_token(path)],
                DiskConfig::Multipath(m) => seq!["rd.multipath=default"@] + m.scsi@.map_values(
                    |s: String| "rd.zfcp="@ + s@,
                ) + seq![install_dev_token(path)],
            },
        ),
    }
}

/// Optional tokens: hardware decompression when it is set, then the extra
/// arguments as they are.
pub open spec fn option_tokens(z: ZvmConfig) -> Seq<Seq<char>> {
    let d = match z.dfltcc {
        Some(true) => seq!["dfltcc=true"@],
        Some(false) => seq!["dfltcc=false"@],
        None => Seq::empty(),
    };
    let c = match z.cmdline {
        Some(c) => seq![c@],
        None => Seq::empty(),
    };
    d + c
}

/// All tokens of the parameter line, in order.
pub open spec fn parm_tokens(cfg: Config, rootfs_url: Seq<char>) -> Option<Seq<Seq<char>>> {
    match target_tokens(cfg.target) {
        Some(t) => Some(
            network_tokens(cfg.network) + directive_tokens(cfg.zvm, rootfs_url) + t + option_tokens(
                cfg.zvm,
            ),
        ),
        None => None,
    }
}

fn push_token(v: &mut Vec<String>, t: String)
    ensures
        views(final(v)@) == views(old(v)@).push(t@),
{
    v.push(t);
    assert(views(v@) =~= views(old(v)@).push(t@));
}

fn push_prefixed(v: &mut Vec<String>, prefix: &str, items: &Vec<String>)
    ensures
        views(final(v)@) == views(old(v)@) + items@.map_values(|s: String| prefix@ + s@),
{
    let mut i: usize = 0;
    while i < items.len()
        invariant
            i <= items@.len(),
            views(v@) == views(old(v)@) + items@.subrange(0, i as int).map_values(
                |s: String| prefix@ + s@,
            ),
        decreases items@.len() - i,
    {
        push_token(v, String::from_str(prefix).concat(items[i].as_str()));
        assert(items@.subrange(0, i + 1).map_values(|s: String| prefix@ + s@) =~= items@.subrange(
            0,
            i as int,
        ).map_values(|s: String| prefix@ + s@).push(prefix@ + items@[i as int]@));
        i = i + 1;
    }
    assert(items@.subrange(0, i as int) =~= items@);
}

/// The installer's parameter line for `cfg`, with the root filesystem at
/// `images`' rootfs location: networking tokens, installer directives, target
/// tokens, then the optional ones, separated by single spaces. Fails only for
/// a multipath target with fewer than two paths.
pub fn parm(cfg: &Config, images: &LiveImages) -> (r: Result<String, ConfigError>)
    ensures
        r is Ok <==> cfg.target.target_path() is Some,
        r is Ok ==> r->Ok_0@ == join_tokens(parm_tokens(*cfg, images@.rootfs.url)->Some_0),
        r is Err ==> (cfg.target matches DiskConfig::Multipath(m) && r == Err::<String, ConfigError>(
            ConfigError::TooFewPaths { count: m.scsi@.len() as usize },
        )),
{
    let path = match cfg.target.install_target() {
        Ok(p) => p,
        Err(e) => {
            return match &cfg.target {
                DiskConfig::Multipath(m) => Err(ConfigError::TooFewPaths { count: m.scsi.len() }),
                _ => {
                    proof {
                        assert(cfg.target.target_path() is Some);
                    }
                    Err(e)
                },
            };
        },
    };
    let n = &cfg.network;
    let z = &cfg.zvm;
    let mut v: Vec<String> = Vec::new();
    push_token(&mut v, String::from_str("rd.neednet=1"));
    push_token(&mut v, String::from_str("rd.znet=").concat(n.znet.as_str()));
    let ip = String::from_str("ip=").concat(n.ip.as_str()).concat(":").concat(n.id.as_str()).concat(
        ":",
    ).concat(n.gw.as_str()).concat(":").concat(n.mask.as_str()).concat(":").concat(
        n.hostname.as_str(),
    ).concat(":").concat(n.nic.as_str()).concat(":").concat(n.dhcp.as_str());
    push_token(&mut v, ip);
    push_prefixed(&mut v, "nameserver=", &n.nameserver);
    assert(views(v@) =~= network_tokens(*n));
    push_token(&mut v, String::from_str("coreos.inst=yes"));
    push_token(&mut v, String::from_str("coreos.inst.insecure=yes"));
    push_token(&mut v, String::from_str("coreos.inst.ignition_url=").concat(z.ignition.as_str()));
    push_token(
        &mut v,
        String::from_str("coreos.live.rootfs_url=").concat(images.live_rootfs.url.as_str()),
    );
    assert(views(v@) =~= network_tokens(*n) + directive_tokens(*z, images@.rootfs.url));
    let ghost before_target = views(v@);
    match &cfg.target {
        DiskConfig::Dasd(d) => {
            push_token(&mut v, String::from_str("rd.dasd=").concat(d.dasd.as_str()));
        },
        DiskConfig::Fba(d) => {
            push_token(&mut v, String::from_str("rd.dasd=").concat(d.fba.as_str()));
        },
        DiskConfig::Scsi(d) => {
            push_token(&mut v, String::from_str("rd.zfcp=").concat(d.scsi.as_str()));
        },
        DiskConfig::Multipath(m) => {
            push_token(&mut v, String::from_str("rd.multipath=default"));
            push_prefixed(&mut v, "rd.zfcp=", &m.scsi);
        },
    }
    push_token(&mut v, String::from_str("coreos.inst.install_dev=").concat(path.as_str()));
    assert(views(v@) =~= before_target + target_tokens(cfg.target)->Some_0);
    let ghost before_options = views(v@);
    match z.dfltcc {
        Some(true) => push_token(&mut v, String::from_str("dfltcc=true")),
        Some(false) => push_token(&mut v, String::from_str("dfltcc=false")),
        None => {},
    }
    match &z.cmdline {
        Some(c) => push_token(&mut v, String::from_str(c.as_str())),
        None => {},
    }
    assert(views(v@) =~= before_options + option_tokens(*z));
    Ok(join(&v))
}

/// Every token appears in the line that joins them.
pub proof fn lemma_token_in_line(ts: Seq<Seq<char>>, k: int)
    requires
        0 <= k < ts.len(),
    ensures
        contains(join_tokens(ts), ts[k]),
    decreases ts.len(),
{
    let j = join_tokens(ts);
    let len = ts[k].len() as int;
    if ts.len() == 1 {
        assert(j.subrange(0, len as int) =~= ts[k]);
        assert(occurs_at(j, ts[k], 0));
    } else {
        let p = join_tokens(ts.drop_last());
        assert(j == p + seq![' '] + ts.last());
        if k == ts.len() - 1 {
            let off = p.len() + 1 as int;
            assert(j.subrange(off, off + len) =~= ts[k]);
            assert(occurs_at(j, ts[k], off));
        } else {
            assert(ts.drop_last()[k] == ts[k]);
            lemma_token_in_line(ts.drop_last(), k);
            let i = choose|i: int| occurs_at(p, ts[k], i);
            assert(j.subrange(i, i + len) =~= p.subrange(i, i + len));
            assert(occurs_at(j, ts[k], i));
        }
    }
}

/// The parameter line is made of the networking tokens, then the installer
/// directives, then the target tokens, then the optional ones, each group
/// in a fixed order and the whole a function of its inputs alone.
pub proof fn lemma_parm_order(cfg: Config, rootfs_url: Seq<char>)
    requires
        cfg.target.target_path() is Some,
    ensures
        ({
            let ts = parm_tokens(cfg, rootfs_url)->Some_0;
            let n = network_tokens(cfg.network);
            let d = directive_tokens(cfg.zvm, rootfs_url);
            let t = target_tokens(cfg.target)->Some_0;
            let a = n.len() as int;
            let b = a + d.len();
            let c = b + t.len();
            &&& parm_tokens(cfg, rootfs_url) is Some
            &&& ts.subrange(0, a) == n
            &&& ts.subrange(a, b) == d
            &&& ts.subrange(b, c) == t
            &&& ts.subrange(c, ts.len() as int) == option_tokens(cfg.zvm)
            &&& ts[0] == "rd.neednet=1"@
            &&& ts[a] == "coreos.inst=yes"@
            &&& ts[c - 1] == install_dev_token(cfg.target.target_path()->Some_0)
        }),
{
    let ts = parm_tokens(cfg, rootfs_url)->Some_0;
    let n = network_tokens(cfg.network);
    let d = directive_tokens(cfg.zvm, rootfs_url);
    let t = target_tokens(cfg.target)->Some_0;
    let a = n.len() as int;
    let b = a + d.len();
    let c = b + t.len();
    assert(ts.subrange(0, a) =~= n);
    assert(ts.subrange(a, b) =~= d);
    assert(ts.subrange(b, c) =~= t);
    assert(ts.subrange(c, ts.len() as int) =~= option_tokens(cfg.zvm));
    assert(ts[c - 1] == t[t.len() - 1]);
}

/// With two paths or more a multipath target yields a line that names the
/// multipath device and holds one `rd.zfcp=` clause per path.
pub proof fn lemma_multipath_line(cfg: Config, rootfs_url: Seq<char>)
    requires
        cfg.target matches DiskConfig::Multipath(m) && m.scsi@.len() >= 2,
    ensures
        parm_tokens(cfg, rootfs_url) is Some,
        contains(
            join_tokens(parm_tokens(cfg, rootfs_url)->Some_0),
            "coreos.inst.install_dev=/dev/mapper/mpatha"@,
        ),
        forall|i: int|
            0 <= i < cfg.target->Multipath_0.scsi@.len() ==> contains(
                join_tokens(parm_tokens(cfg, rootfs_url)->Some_0),
                #[trigger] ("rd.zfcp="@ + cfg.target->Multipath_0.scsi@[i]@),
            ),
{
    let m = cfg.target->Multipath_0;
    let ts = parm_tokens(cfg, rootfs_url)->Some_0;
    let n = network_tokens(cfg.network);
    let d = directive_tokens(cfg.zvm, rootfs_url);
    let t = target_tokens(cfg.target)->Some_0;
    let b = n.len() + d.len();
    let c = b + t.len();
    reveal_strlit("coreos.inst.install_dev=");
    reveal_strlit("/dev/mapper/mpatha");
    reveal_strlit("coreos.inst.install_dev=/dev/mapper/mpatha");
    assert(ts[c - 1] == t[t.len() - 1]);
    assert(t[t.len() - 1] =~= "coreos.inst.install_dev=/dev/mapper/mpatha"@);
    lemma_token_in_line(ts, c - 1);
    assert forall|i: int| 0 <= i < m.scsi@.len() implies contains(
        join_tokens(ts),
        #[trigger] ("rd.zfcp="@ + m.scsi@[i]@),
    ) by {
        assert(ts[b + 1 + i] == t[1 + i]);
        assert(t[1 + i] == "rd.zfcp="@ + m.scsi@[i]@);
        lemma_token_in_line(ts, b + 1 + i);
    }
}

} // verus!
