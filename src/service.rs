use vstd::prelude::*;

use vstd::string::*;

use crate::error::PeachProbeParseError;
use crate::outcome::ProbeMode;
use crate::probe::names;

verus! {

/// A microservice of the device that the probe knows of.
#[derive(Clone, Copy, PartialEq, Eq, Structural, Debug)]
pub enum Microservice {
    PeachOled,
    PeachNetwork,
    PeachStats,
    PeachMenu,
}

/// Network interface named in the synthetic arguments of network probes.
pub const TEST_INTERFACE: &'static str = "wlan0";

/// SSID named in the synthetic arguments of network probes.
pub const TEST_SSID: &'static str = "peach-probe-test-ssid";

/// Password handed to the network service when adding the test SSID.
pub const TEST_PASSWORD: &'static str = "peach-probe-test-pass";

/// Error code that `connect` answers with for the test SSID.
pub const CONNECT_REFUSED_CODE: i64 = -32027;

/// Error code that `disable` answers with for the test SSID.
pub const DISABLE_REFUSED_CODE: i64 = -32013;

/// The stable identifier of a service, as its records carry it.
pub open spec fn service_id(s: Microservice) -> Seq<char> {
    match s {
        Microservice::PeachOled => "peach-oled"@,
        Microservice::PeachNetwork => "peach-network"@,
        Microservice::PeachStats => "peach-stats"@,
        Microservice::PeachMenu => "peach-menu"@,
    }
}

/// The endpoints of a service in the order they are probed, each with the
/// way its outcome is judged. The menu service has no probes yet.
pub open spec fn declared_endpoints(s: Microservice) -> Seq<(Seq<char>, ProbeMode)> {
    match s {
        Microservice::PeachStats => seq![
            ("cpu_stats_percent"@, ProbeMode::Plain),
            ("load_average"@, ProbeMode::Plain),
            ("disk_usage"@, ProbeMode::Plain),
            ("mem_stats"@, ProbeMode::Plain),
            ("ping"@, ProbeMode::Plain),
            ("uptime"@, ProbeMode::Plain),
        ],
        Microservice::PeachNetwork => seq![
            ("activate_ap"@, ProbeMode::Plain),
            ("activate_client"@, ProbeMode::Plain),
            ("add"@, ProbeMode::Plain),
            ("available_networks"@, ProbeMode::Plain),
            ("id"@, ProbeMode::Plain),
            ("ip"@, ProbeMode::Plain),
            ("ssid"@, ProbeMode::Plain),
            ("ping"@, ProbeMode::Plain),
            ("reconfigure"@, ProbeMode::Plain),
            ("saved_networks"@, ProbeMode::Plain),
            ("state"@, ProbeMode::Plain),
            ("traffic"@, ProbeMode::Plain),
            ("connect"@, ProbeMode::AssertError { expected_code: CONNECT_REFUSED_CODE }),
            ("disable"@, ProbeMode::AssertError { expected_code: DISABLE_REFUSED_CODE }),
        ],
        Microservice::PeachOled => seq![
            ("ping"@, ProbeMode::Plain),
            ("write"@, ProbeMode::Plain),
            ("draw"@, ProbeMode::Plain),
            ("flush"@, ProbeMode::Plain),
            ("power-off"@, ProbeMode::Plain),
            ("power-on"@, ProbeMode::Plain),
        ],
        Microservice::PeachMenu => seq![],
    }
}

/// The names of the endpoints of a service, in probing order.
pub open spec fn declared_names(s: Microservice) -> Seq<Seq<char>> {
    declared_endpoints(s).map_values(|e: (Seq<char>, ProbeMode)| e.0)
}

/// One entry of a service's probe plan.
pub struct EndpointProbe {
    /// Name of the remote operation.
    pub name: String,
    /// How its outcome is judged.
    pub mode: ProbeMode,
}

/// The names and modes of a list of plan entries.
pub open spec fn plan_view(v: Seq<EndpointProbe>) -> Seq<(Seq<char>, ProbeMode)> {
    v.map_values(|e: EndpointProbe| (e.name@, e.mode))
}

fn declare(plan: &mut Vec<EndpointProbe>, name: &str, mode: ProbeMode)
    ensures
        plan_view(final(plan)@) == plan_view(old(plan)@).push((name@, mode)),
{
    plan.push(EndpointProbe { name: name.to_string(), mode });
    assert(plan_view(plan@) =~= plan_view(old(plan)@).push((name@, mode)));
}

impl Microservice {
    /// The stable identifier of the service.
    pub fn id(self) -> (r: String)
        ensures
            r@ == service_id(self),
    {
        match self {
            Microservice::PeachOled => "peach-oled".to_string(),
            Microservice::PeachNetwork => "peach-network".to_string(),
            Microservice::PeachStats => "peach-stats".to_string(),
            Microservice::PeachMenu => "peach-menu".to_string(),
        }
    }

    /// Whether the probe has endpoints to call on this service.
    pub fn has_probe(self) -> (r: bool)
        ensures
            r == (declared_endpoints(self).len() > 0),
    {
        match self {
            Microservice::PeachMenu => false,
            _ => true,
        }
    }

    /// The probe plan of the service: its endpoints in probing order.
    pub fn endpoints(self) -> (plan: Vec<EndpointProbe>)
        ensures
            plan_view(plan@) == declared_endpoints(self),
    {
        let mut plan: Vec<EndpointProbe> = Vec::new();
        let plain = ProbeMode::Plain;
        match self {
            Microservice::PeachStats => {
                declare(&mut plan, "cpu_stats_percent", plain);
                declare(&mut plan, "load_average", plain);
                declare(&mut plan, "disk_usage", plain);
                declare(&mut plan, "mem_stats", plain);
                declare(&mut plan, "ping", plain);
                declare(&mut plan, "uptime", plain);
            },
            Microservice::PeachNetwork => {
                declare(&mut plan, "activate_ap", plain);
                declare(&mut plan, "activate_client", plain);
                declare(&mut plan, "add", plain);
                declare(&mut plan, "available_networks", plain);
                declare(&mut plan, "id", plain);
                declare(&mut plan, "ip", plain);
                declare(&mut plan, "ssid", plain);
                declare(&mut plan, "ping", plain);
                declare(&mut plan, "reconfigure", plain);
                declare(&mut plan, "saved_networks", plain);
                declare(&mut plan, "state", plain);
                declare(&mut plan, "traffic", plain);
                declare(
                    &mut plan,
                    "connect",
                    ProbeMode::AssertError { expected_code: CONNECT_REFUSED_CODE },
                );
                declare(
                    &mut plan,
                    "disable",
                    ProbeMode::AssertError { expected_code: DISABLE_REFUSED_CODE },
                );
            },
            Microservice::PeachOled => {
                declare(&mut plan, "ping", plain);
                declare(&mut plan, "write", plain);
                declare(&mut plan, "draw", plain);
                declare(&mut plan, "flush", plain);
                declare(&mut plan, "power-off", plain);
                declare(&mut plan, "power-on", plain);
            },
            Microservice::PeachMenu => {},
        }
        assert(plan_view(plan@) =~= declared_endpoints(self));
        plan
    }
}

/// The code of `c` with ASCII upper-case letters taken to lower case.
pub open spec fn folded(c: char) -> int {
    if 65 <= (c as u32) <= 90 {
        c as int + 32
    } else {
        c as int
    }
}

/// `a` and `b` are equal up to the case of ASCII letters.
pub open spec fn same_ignoring_ascii_case(a: Seq<char>, b: Seq<char>) -> bool {
    a.len() == b.len() && forall|i: int| 0 <= i < a.len() ==> folded(#[trigger] a[i]) == folded(b[i])
}

/// The service named by a command-line argument, if any. Names are compared
/// without regard to the case of ASCII letters.
pub open spec fn service_named(arg: Seq<char>) -> Option<Microservice> {
    if same_ignoring_ascii_case(arg, "Peach_Oled"@) {
        Some(Microservice::PeachOled)
    } else if same_ignoring_ascii_case(arg, "Peach_Network"@) {
        Some(Microservice::PeachNetwork)
    } else if same_ignoring_ascii_case(arg, "Peach_Stats"@) {
        Some(Microservice::PeachStats)
    } else if same_ignoring_ascii_case(arg, "Peach_Menu"@) {
        Some(Microservice::PeachMenu)
    } else {
        None
    }
}

/// The services probed when none is named.
pub open spec fn default_service_seq() -> Seq<Microservice> {
    seq![Microservice::PeachNetwork, Microservice::PeachOled, Microservice::PeachStats]
}

fn fold_char(c: char) -> (r: u32)
    ensures
        r == folded(c),
{
    let code = c as u32;
    if 65 <= code && code <= 90 {
        code + 32
    } else {
        code
    }
}

fn eq_ignore_ascii_case(a: &str, b: &str) -> (r: bool)
    ensures
        r == same_ignoring_ascii_case(a@, b@),
{
    let n = a.unicode_len();
    if n != b.unicode_len() {
        return false;
    }
    let mut i: usize = 0;
    while i < n
        invariant
            n == a@.len() == b@.len(),
            i <= n,
            forall|k: int| 0 <= k < i ==> folded(#[trigger] a@[k]) == folded(b@[k]),
        decreases n - i,
    {
        if fold_char(a.get_char(i)) != fold_char(b.get_char(i)) {
            return false;
        }
        i = i + 1;
    }
    true
}

impl Microservice {
    /// The service that `arg` names, compared without regard to ASCII case.
    pub fn from_arg(arg: &str) -> (r: Result<Microservice, PeachProbeParseError>)
        ensures
            match service_named(arg@) {
                Some(s) => r == Ok::<Microservice, PeachProbeParseError>(s),
                None => r matches Err(PeachProbeParseError::InvalidMicroservice { arg: a }) && a@ == arg@,
            },
    {
        if eq_ignore_ascii_case(arg, "Peach_Oled") {
            Ok(Microservice::PeachOled)
        } else if eq_ignore_ascii_case(arg, "Peach_Network") {
            Ok(Microservice::PeachNetwork)
        } else if eq_ignore_ascii_case(arg, "Peach_Stats") {
            Ok(Microservice::PeachStats)
        } else if eq_ignore_ascii_case(arg, "Peach_Menu") {
            Ok(Microservice::PeachMenu)
        } else {
            Err(PeachProbeParseError::InvalidMicroservice { arg: arg.to_string() })
        }
    }
}

/// The services probed when none is named on the command line.
pub fn default_services() -> (r: Vec<Microservice>)
    ensures
        r@ == default_service_seq(),
{
    let r = vec![Microservice::PeachNetwork, Microservice::PeachOled, Microservice::PeachStats];
    assert(r@ =~= default_service_seq());
    r
}

/// The services named by `args`, in order, or the first argument that
/// names none.
pub open spec fn named_services(args: Seq<Seq<char>>) -> Result<Seq<Microservice>, Seq<char>>
    decreases args.len(),
{
    if args.len() == 0 {
        Ok(Seq::empty())
    } else {
        match named_services(args.drop_last()) {
            Err(a) => Err(a),
            Ok(v) => match service_named(args.last()) {
                Some(s) => Ok(v.push(s)),
                None => Err(args.last()),
            },
        }
    }
}

/// The services named by `args`, in order, or all of the default ones when
/// `args` is empty. Fails on the first argument that names no service.
pub fn select_services(args: &Vec<String>) -> (r: Result<Vec<Microservice>, PeachProbeParseError>)
    ensures
        args@.len() == 0 ==> (r matches Ok(v) && v@ == default_service_seq()),
        args@.len() > 0 ==> match named_services(names(args@)) {
            Ok(services) => (r matches Ok(v) && v@ == services),
            Err(bad) => (r matches Err(PeachProbeParseError::InvalidMicroservice { arg }) && arg@ == bad),
        },
{
    if args.len() == 0 {
        return Ok(default_services());
    }
    let mut selected: Vec<Microservice> = Vec::new();
    let mut i: usize = 0;
    while i < args.len()
        invariant
            i <= args@.len(),
            named_services(names(args@).take(i as int)) == Ok::<Seq<Microservice>, Seq<char>>(selected@),
        decreases args@.len() - i,
    {
        let ghost prefix = names(args@).take(i + 1);
        assert(prefix.drop_last() =~= names(args@).take(i as int));
        assert(prefix.last() == args@[i as int]@);
        match Microservice::from_arg(args[i].as_str()) {
            Ok(s) => selected.push(s),
            Err(e) => {
                proof {
                    lemma_named_services_stops(names(args@), i as int + 1);
                }
                return Err(e);
            },
        }
        i = i + 1;
    }
    assert(names(args@).take(i as int) =~= names(args@));
    Ok(selected)
}

/// Once a prefix of the arguments names an unknown service, so do all
/// longer ones, with the same argument blamed.
proof fn lemma_named_services_stops(args: Seq<Seq<char>>, n: int)
    requires
        0 <= n <= args.len(),
        named_services(args.take(n)) is Err,
    ensures
        named_services(args) == named_services(args.take(n)),
    decreases args.len() - n,
{
    if n < args.len() {
        assert(args.take(n + 1).drop_last() =~= args.take(n));
        lemma_named_services_stops(args, n + 1);
    } else {
        assert(args.take(n) =~= args);
    }
}

/// No service declares an endpoint twice.
pub proof fn lemma_declared_names_distinct(s: Microservice)
    ensures
        declared_names(s).no_duplicates(),
{
    reveal_strlit("cpu_stats_percent");
    reveal_strlit("load_average");
    reveal_strlit("disk_usage");
    reveal_strlit("mem_stats");
    reveal_strlit("ping");
    reveal_strlit("uptime");
    reveal_strlit("activate_ap");
    reveal_strlit("activate_client");
    reveal_strlit("add");
    reveal_strlit("available_networks");
    reveal_strlit("id");
    reveal_strlit("ip");
    reveal_strlit("ssid");
    reveal_strlit("reconfigure");
    reveal_strlit("saved_networks");
    reveal_strlit("state");
    reveal_strlit("traffic");
    reveal_strlit("connect");
    reveal_strlit("disable");
    reveal_strlit("write");
    reveal_strlit("draw");
    reveal_strlit("flush");
    reveal_strlit("power-off");
    reveal_strlit("power-on");
    let names = declared_names(s);
    assert forall|i: int, j: int| 0 <= i < j < names.len() implies names[i] != names[j] by {
        assert(names[i] == declared_endpoints(s)[i].0);
        assert(names[j] == declared_endpoints(s)[j].0);
        assert(names[i].len() != names[j].len() || names[i][0] != names[j][0] || names[i][1] != names[j][1]);
    }
}

} // verus!
