use vstd::prelude::*;

verus! {

pub open spec fn sum_by<A>(s: Seq<A>, f: spec_fn(A) -> nat) -> nat
    decreases s.len(),
{
    if s.len() == 0 {
        0
    } else {
        sum_by(s.drop_last(), f) + f(s.last())
    }
}

/// A total as reported: the true sum, or `u64::MAX` when it does not fit.
pub open spec fn capped64(x: nat) -> u64 {
    if x > u64::MAX {
        u64::MAX
    } else {
        x as u64
    }
}

pub open spec fn capped32(x: nat) -> u32 {
    if x > u32::MAX {
        u32::MAX
    } else {
        x as u32
    }
}

proof fn lemma_sum_by_prefix<A>(s: Seq<A>, i: int, f: spec_fn(A) -> nat)
    requires
        0 <= i < s.len(),
    ensures
        sum_by(s.subrange(0, i + 1), f) == sum_by(s.subrange(0, i), f) + f(s[i]),
{
    assert(s.subrange(0, i + 1).drop_last() =~= s.subrange(0, i));
}

/// The transport protocol of an open socket.
#[derive(Clone, Copy, Debug, PartialEq, Eq, Structural)]
pub enum SocketProtocol {
    Tcp,
    Udp,
}

pub open spec fn one_if(x: SocketProtocol, p: SocketProtocol) -> nat {
    if x == p {
        1
    } else {
        0
    }
}

pub open spec fn count_of(s: Seq<SocketProtocol>, p: SocketProtocol) -> nat {
    sum_by(s, |x: SocketProtocol| one_if(x, p))
}

/// Counts TCP and UDP sockets.
pub fn count_sockets(sockets: &Vec<SocketProtocol>) -> (r: (u32, u32))
    ensures
        r.0 == capped32(count_of(sockets@, SocketProtocol::Tcp)),
        r.1 == capped32(count_of(sockets@, SocketProtocol::Udp)),
{
    let mut tcp: u32 = 0;
    let mut udp: u32 = 0;
    let n = sockets.len();
    let mut i: usize = 0;
    while i < n
        invariant
            n == sockets.len(),
            i <= n,
            tcp == capped32(sum_by(sockets@.subrange(0, i as int), |x: SocketProtocol| one_if(x, SocketProtocol::Tcp))),
            udp == capped32(sum_by(sockets@.subrange(0, i as int), |x: SocketProtocol| one_if(x, SocketProtocol::Udp))),
        decreases n - i,
    {
        proof {
            lemma_sum_by_prefix(sockets@, i as int, |x: SocketProtocol| one_if(x, SocketProtocol::Tcp));
            lemma_sum_by_prefix(sockets@, i as int, |x: SocketProtocol| one_if(x, SocketProtocol::Udp));
        }
        match sockets[i] {
            SocketProtocol::Tcp => tcp = tcp.saturating_add(1),
            SocketProtocol::Udp => udp = udp.saturating_add(1),
        }
        i = i + 1;
    }
    proof {
        assert(sockets@.subrange(0, n as int) =~= sockets@);
    }
    (tcp, udp)
}

/// Cumulative traffic of one network interface, in bytes.
#[derive(Clone, Copy, Debug, PartialEq, Eq, Structural)]
pub struct InterfaceTraffic {
    pub received: u64,
    pub transmitted: u64,
}

/// The network part of a telemetry report.
#[derive(Clone, Copy, Debug, PartialEq, Eq, Structural)]
pub struct NetworkInfo {
    pub download_traffic: u64,
    pub upload_traffic: u64,
    pub tcp_count: u32,
    pub udp_count: u32,
}

pub open spec fn received_of(t: InterfaceTraffic) -> nat {
    t.received as nat
}

pub open spec fn transmitted_of(t: InterfaceTraffic) -> nat {
    t.transmitted as nat
}

impl NetworkInfo {
    /// Totals over all interfaces, and the socket counts.
    pub fn from_samples(interfaces: &Vec<InterfaceTraffic>, sockets: &Vec<SocketProtocol>) -> (r:
        NetworkInfo)
        ensures
            r.download_traffic == capped64(sum_by(interfaces@, |t: InterfaceTraffic| received_of(t))),
            r.upload_traffic == capped64(sum_by(interfaces@, |t: InterfaceTraffic| transmitted_of(t))),
            r.tcp_count == capped32(count_of(sockets@, SocketProtocol::Tcp)),
            r.udp_count == capped32(count_of(sockets@, SocketProtocol::Udp)),
    {
        let mut down: u64 = 0;
        let mut up: u64 = 0;
        let n = interfaces.len();
        let mut i: usize = 0;
        while i < n
            invariant
                n == interfaces.len(),
                i <= n,
                down == capped64(sum_by(interfaces@.subrange(0, i as int), |t: InterfaceTraffic| received_of(t))),
                up == capped64(sum_by(interfaces@.subrange(0, i as int), |t: InterfaceTraffic| transmitted_of(t))),
            decreases n - i,
        {
            proof {
                lemma_sum_by_prefix(interfaces@, i as int, |t: InterfaceTraffic| received_of(t));
                lemma_sum_by_prefix(interfaces@, i as int, |t: InterfaceTraffic| transmitted_of(t));
            }
            down = down.saturating_add(interfaces[i].received);
            up = up.saturating_add(interfaces[i].transmitted);
            i = i + 1;
        }
        proof {
            assert(interfaces@.subrange(0, n as int) =~= interfaces@);
        }
        let (tcp_count, udp_count) = count_sockets(sockets);
        NetworkInfo { download_traffic: down, upload_traffic: up, tcp_count, udp_count }
    }
}

/// What the system reports of one disk, in bytes.
#[derive(Clone, Copy, Debug, PartialEq, Eq, Structural)]
pub struct DiskSample {
    pub total_space: u64,
    pub available_space: u64,
    pub read_bytes: u64,
    pub written_bytes: u64,
}

/// The disk part of a telemetry report.
#[derive(Clone, Copy, Debug, PartialEq, Eq, Structural)]
pub struct DiskInfo {
    pub space_used: u64,
    pub space_total: u64,
    pub read: u64,
    pub write: u64,
}

/// Space in use on one disk; a disk reporting more available than total counts as empty.
pub open spec fn used_of(d: DiskSample) -> nat {
    if d.available_space <= d.total_space {
        (d.total_space - d.available_space) as nat
    } else {
        0
    }
}

pub open spec fn total_of(d: DiskSample) -> nat {
    d.total_space as nat
}

pub open spec fn read_of(d: DiskSample) -> nat {
    d.read_bytes as nat
}

pub open spec fn written_of(d: DiskSample) -> nat {
    d.written_bytes as nat
}

/// Sum of the disks' capacities.
pub fn total_capacity(disks: &Vec<DiskSample>) -> (r: u64)
    ensures
        r == capped64(sum_by(disks@, |d: DiskSample| total_of(d))),
{
    let mut total: u64 = 0;
    let n = disks.len();
    let mut i: usize = 0;
    while i < n
        invariant
            n == disks.len(),
            i <= n,
            total == capped64(sum_by(disks@.subrange(0, i as int), |d: DiskSample| total_of(d))),
        decreases n - i,
    {
        proof {
            lemma_sum_by_prefix(disks@, i as int, |d: DiskSample| total_of(d));
        }
        total = total.saturating_add(disks[i].total_space);
        i = i + 1;
    }
    proof {
        assert(disks@.subrange(0, n as int) =~= disks@);
    }
    total
}

impl DiskInfo {
    /// Totals over all disks.
    pub fn from_disks(disks: &Vec<DiskSample>) -> (r: DiskInfo)
        ensures
            r.space_used == capped64(sum_by(disks@, |d: DiskSample| used_of(d))),
            r.space_total == capped64(sum_by(disks@, |d: DiskSample| total_of(d))),
            r.read == capped64(sum_by(disks@, |d: DiskSample| read_of(d))),
            r.write == capped64(sum_by(disks@, |d: DiskSample| written_of(d))),
    {
        let mut used: u64 = 0;
        let mut read: u64 = 0;
        let mut write: u64 = 0;
        let n = disks.len();
        let mut i: usize = 0;
        while i < n
            invariant
                n == disks.len(),
                i <= n,
                used == capped64(sum_by(disks@.subrange(0, i as int), |d: DiskSample| used_of(d))),
                read == capped64(sum_by(disks@.subrange(0, i as int), |d: DiskSample| read_of(d))),
                write == capped64(sum_by(disks@.subrange(0, i as int), |d: DiskSample| written_of(d))),
            decreases n - i,
        {
            proof {
                lemma_sum_by_prefix(disks@, i as int, |d: DiskSample| used_of(d));
                lemma_sum_by_prefix(disks@, i as int, |d: DiskSample| read_of(d));
                lemma_sum_by_prefix(disks@, i as int, |d: DiskSample| written_of(d));
            }
            let d = disks[i];
            used = used.saturating_add(d.total_space.saturating_sub(d.available_space));
            read = read.saturating_add(d.read_bytes);
            write = write.saturating_add(d.written_bytes);
            i = i + 1;
        }
        proof {
            assert(disks@.subrange(0, n as int) =~= disks@);
        }
        DiskInfo { space_used: used, space_total: total_capacity(disks), read, write }
    }
}

/// What the system reports of its identity, before fallbacks are applied.
#[derive(Clone, Debug)]
pub struct IdentitySample {
    pub os: String,
    pub os_version: String,
    pub arch: String,
    pub platform: String,
    pub edition: Option<String>,
    pub kernel: Option<String>,
    pub hostname: Option<String>,
    /// One description per CPU.
    pub cpus: Vec<String>,
    pub memory: u64,
    pub disks: Vec<DiskSample>,
    pub uptime: u64,
    pub version: String,
}

/// The identity snapshot sent in answer to `get_info`.
#[derive(Clone, Debug)]
pub struct VMInfo {
    pub os: String,
    pub os_version: String,
    pub arch: String,
    pub platform: String,
    pub platform_version: String,
    pub kernel: String,
    pub hostname: String,
    pub cpu: Vec<String>,
    pub memory: u64,
    pub uptime: u64,
    pub disk: u64,
    pub version: String,
}

pub open spec fn or_unknown(v: Option<String>) -> Seq<char> {
    match v {
        Some(s) => s@,
        None => "Unknown"@,
    }
}

fn unknown_unless(v: Option<String>) -> (r: String)
    ensures
        r@ == or_unknown(v),
{
    match v {
        Some(s) => s,
        None => "Unknown".to_owned(),
    }
}

impl VMInfo {
    /// The snapshot for a sample: absent values read `Unknown`, no CPU at all
    /// reads as one `Unknown` CPU, and the disk figure is the total capacity.
    pub fn from_sample(sample: IdentitySample) -> (r: VMInfo)
        ensures
            r.os == sample.os,
            r.os_version == sample.os_version,
            r.arch == sample.arch,
            r.platform == sample.platform,
            r.platform_version@ == or_unknown(sample.edition),
            r.kernel@ == or_unknown(sample.kernel),
            r.hostname@ == or_unknown(sample.hostname),
            sample.cpus@.len() > 0 ==> r.cpu == sample.cpus,
            sample.cpus@.len() == 0 ==> r.cpu@.len() == 1 && r.cpu@[0]@ == "Unknown"@,
            r.memory == sample.memory,
            r.uptime == sample.uptime,
            r.disk == capped64(sum_by(sample.disks@, |d: DiskSample| total_of(d))),
            r.version == sample.version,
    {
        let disk = total_capacity(&sample.disks);
        let cpu = if sample.cpus.len() == 0 {
            let mut v: Vec<String> = Vec::new();
            v.push("Unknown".to_owned());
            v
        } else {
            sample.cpus
        };
        VMInfo {
            os: sample.os,
            os_version: sample.os_version,
            arch: sample.arch,
            platform: sample.platform,
            platform_version: unknown_unless(sample.edition),
            kernel: unknown_unless(sample.kernel),
            hostname: unknown_unless(sample.hostname),
            cpu,
            memory: sample.memory,
            uptime: sample.uptime,
            disk,
            version: sample.version,
        }
    }
}

} // verus!
