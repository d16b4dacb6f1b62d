//! Deterministic, registry-free port allocation for sandboxed agents.
//!
//! Every issue number is mapped to one of one hundred fixed port ranges, so
//! independently spawned sandboxes never need a shared allocation table.
//! Issue numbers that agree modulo one hundred share a range — an accepted
//! collision-by-design, proved in [`lemma_port_range_periodic`].

use crate::names::container_name_for_issue;
use crate::text::{
    all_digits, append_str, chars_to_nat, chars_to_string, contains_seq, dec_spec, parse_u16,
    push_dec_u64, split_first, split_first_spec, str_chars, trim_chars, trim_spec,
};
use vstd::prelude::*;

verus! {

/// First port of the first range.
pub const PORT_RANGE_BASE: u16 = 30000;

/// Ports in each range.
pub const PORT_RANGE_SIZE: u16 = 100;

/// The port range an issue number is allocated: one of one hundred slots.
pub open spec fn port_range_spec(issue_number: u64) -> (u16, u16) {
    (
        (30000 + (issue_number % 100) * 100) as u16,
        (30000 + (issue_number % 100) * 100 + 99) as u16,
    )
}

/// Allocate the port range for an issue: slot `issue_number mod 100`,
/// one hundred ports starting at `PORT_RANGE_BASE + slot * PORT_RANGE_SIZE`.
pub fn allocate_port_range(issue_number: u64) -> (r: (u16, u16))
    ensures
        r == port_range_spec(issue_number),
        r.0 == 30000 + (issue_number % 100) * 100,
        r.1 == r.0 + 99,
{
    let slot: u16 = (issue_number % 100) as u16;
    let base: u16 = PORT_RANGE_BASE + slot * PORT_RANGE_SIZE;
    let end: u16 = base + PORT_RANGE_SIZE - 1;
    (base, end)
}

/// Where a container port lands inside an issue's range: the range base plus
/// the port's offset modulo the range size, keeping relative offsets stable.
pub open spec fn remap_spec(container_port: u16, issue_number: u64) -> u16 {
    (port_range_spec(issue_number).0 + container_port % 100) as u16
}

/// Remap a container port to a host port within the issue's allocated range.
pub fn remap_port_to_range(container_port: u16, issue_number: u64) -> (r: u16)
    ensures
        r == remap_spec(container_port, issue_number),
{
    let (base, _end) = allocate_port_range(issue_number);
    base + container_port % PORT_RANGE_SIZE
}

/// Port ranges are periodic in the issue number with period one hundred:
/// issues whose numbers agree modulo one hundred are allocated the same
/// range, a documented collision-by-design.
pub proof fn lemma_port_range_periodic(n: u64, k: u64)
    requires
        n + 100 * k <= u64::MAX,
    ensures
        port_range_spec((n + 100 * k) as u64) == port_range_spec(n),
{
    vstd::arithmetic::div_mod::lemma_mod_multiples_vanish(k as int, n as int, 100);
    assert(100 * (k as int) + n == (n + 100 * k) as u64);
}

/// Port mapping for a sandbox container.
#[derive(Debug, Clone)]
pub struct PortMapping {
    /// Host port to bind.
    pub host_port: u16,
    /// Container port to expose.
    pub container_port: u16,
    /// Protocol, where one was given (otherwise the runtime's default).
    pub protocol: Option<String>,
}

impl PortMapping {
    /// The mapping as plain values: host port, container port, protocol text.
    pub open spec fn model(self) -> (u16, u16, Option<Seq<char>>) {
        (
            self.host_port,
            self.container_port,
            match self.protocol {
                Some(p) => Some(p@),
                None => None,
            },
        )
    }

    /// Map a port to itself.
    pub fn new(port: u16) -> (r: Self)
        ensures
            r.host_port == port,
            r.container_port == port,
            r.protocol is None,
    {
        PortMapping { host_port: port, container_port: port, protocol: None }
    }

    /// Map a host port to a different container port.
    pub fn mapped(host_port: u16, container_port: u16) -> (r: Self)
        ensures
            r.host_port == host_port,
            r.container_port == container_port,
            r.protocol is None,
    {
        PortMapping { host_port, container_port, protocol: None }
    }

    /// The mapping as a container runtime publish argument.
    pub fn to_docker_arg(&self) -> (r: String)
        ensures
            r@ == match self.protocol {
                Some(p) => "-p "@ + dec_spec(self.host_port as nat) + ":"@ + dec_spec(
                    self.container_port as nat,
                ) + "/"@ + p@,
                None => "-p "@ + dec_spec(self.host_port as nat) + ":"@ + dec_spec(
                    self.container_port as nat,
                ),
            },
    {
        let mut v = str_chars("-p ");
        push_dec_u64(self.host_port as u64, &mut v);
        append_str(&mut v, ":");
        push_dec_u64(self.container_port as u64, &mut v);
        match &self.protocol {
            Some(p) => {
                append_str(&mut v, "/");
                append_str(&mut v, p.as_str());
            },
            None => {},
        }
        chars_to_string(&v)
    }
}

/// What one port mapping entry denotes: `"p"` maps a port to itself,
/// `"h:c"` maps host to container, either with an optional `"/proto"`
/// suffix; anything else denotes nothing.
pub open spec fn port_entry_spec(s: Seq<char>) -> Option<(u16, u16, Option<Seq<char>>)> {
    let t = trim_spec(s);
    if t.len() == 0 {
        None
    } else {
        let body_proto = split_first_spec(t, '/');
        let body = body_proto.0;
        let proto = body_proto.1;
        let host_cont = split_first_spec(body, ':');
        match host_cont.1 {
            Some(cpart) => if all_digits(host_cont.0) && chars_to_nat(host_cont.0) <= u16::MAX
                && all_digits(cpart) && chars_to_nat(cpart) <= u16::MAX {
                Some((chars_to_nat(host_cont.0) as u16, chars_to_nat(cpart) as u16, proto))
            } else {
                None
            },
            None => if all_digits(body) && chars_to_nat(body) <= u16::MAX {
                Some((chars_to_nat(body) as u16, chars_to_nat(body) as u16, proto))
            } else {
                None
            },
        }
    }
}

/// The mappings a list of entries denotes, entries that denote nothing
/// silently left out.
pub open spec fn port_list_spec(entries: Seq<Seq<char>>) -> Seq<(u16, u16, Option<Seq<char>>)>
    decreases entries.len(),
{
    if entries.len() == 0 {
        Seq::empty()
    } else {
        let rest = port_list_spec(entries.drop_last());
        match port_entry_spec(entries.last()) {
            Some(m) => rest.push(m),
            None => rest,
        }
    }
}

/// The views of a list of strings.
pub open spec fn string_views(ss: Seq<String>) -> Seq<Seq<char>> {
    ss.map_values(|s: String| s@)
}

/// The models of a list of port mappings.
pub open spec fn port_models(ms: Seq<PortMapping>) -> Seq<(u16, u16, Option<Seq<char>>)> {
    ms.map_values(|m: PortMapping| m.model())
}

/// Parse port mapping entries such as `"3000"`, `"8080:80"` or
/// `"53:53/udp"`, skipping entries that denote nothing.
pub fn parse_port_mappings(port_strings: &[String]) -> (r: Vec<PortMapping>)
    ensures
        port_models(r@) == port_list_spec(string_views(port_strings@)),
{
    let mut r: Vec<PortMapping> = Vec::new();
    let mut i: usize = 0;
    proof {
        assert(string_views(port_strings@.subrange(0, 0)) =~= Seq::<Seq<char>>::empty());
        assert(port_models(r@) =~= Seq::<(u16, u16, Option<Seq<char>>)>::empty());
    }
    while i < port_strings.len()
        invariant
            i <= port_strings@.len(),
            port_models(r@) == port_list_spec(string_views(port_strings@.subrange(0, i as int))),
        decreases port_strings@.len() - i,
    {
        let ghost prev_entries = string_views(port_strings@.subrange(0, i as int));
        let ghost cur_entries = string_views(port_strings@.subrange(0, i + 1));
        let ghost prev_models = port_models(r@);
        proof {
            assert(cur_entries.drop_last() =~= prev_entries);
            assert(cur_entries.last() == port_strings@[i as int]@);
        }
        let pv = str_chars(port_strings[i].as_str());
        let t = trim_chars(&pv);
        if t.len() > 0 {
            let (body, proto) = split_first(&t, '/');
            let (hpart, copt) = split_first(&body, ':');
            match copt {
                Some(cpart) => {
                    let hn = parse_u16(&hpart);
                    let cn = parse_u16(&cpart);
                    match (hn, cn) {
                        (Some(h), Some(c)) => {
                            let protocol: Option<String> = match proto {
                                Some(p) => Some(chars_to_string(&p)),
                                None => None,
                            };
                            let m = PortMapping { host_port: h, container_port: c, protocol };
                            r.push(m);
                            proof {
                                assert(port_models(r@) =~= prev_models.push(m.model()));
                            }
                        },
                        _ => {},
                    }
                },
                None => {
                    match parse_u16(&body) {
                        Some(p) => {
                            let protocol: Option<String> = match proto {
                                Some(pr) => Some(chars_to_string(&pr)),
                                None => None,
                            };
                            let m = PortMapping {
                                host_port: p,
                                container_port: p,
                                protocol,
                            };
                            r.push(m);
                            proof {
                                assert(port_models(r@) =~= prev_models.push(m.model()));
                            }
                        },
                        None => {},
                    }
                },
            }
        }
        i = i + 1;
    }
    proof {
        assert(port_strings@.subrange(0, port_strings@.len() as int) =~= port_strings@);
    }
    r
}

// ------------------------------------------------------------------
// Port detection from project manifests
// ------------------------------------------------------------------

/// The ports a package manifest suggests: one set per recognized
/// framework, with a generic server port only where nothing else matched.
pub open spec fn node_ports_spec(c: Seq<char>) -> Seq<u16> {
    let base = (if contains_seq(c, "\"next\""@) {
        seq![3000u16]
    } else {
        Seq::empty()
    }) + (if contains_seq(c, "\"vite\""@) {
        seq![5173u16, 5174u16, 24678u16]
    } else {
        Seq::empty()
    }) + (if contains_seq(c, "\"react-scripts\""@) {
        seq![3000u16]
    } else {
        Seq::empty()
    }) + (if contains_seq(c, "\"@angular/core\""@) {
        seq![4200u16]
    } else {
        Seq::empty()
    }) + (if contains_seq(c, "\"expo\""@) {
        seq![19000u16, 19001u16, 8081u16]
    } else {
        Seq::empty()
    });
    if base.len() == 0 && (contains_seq(c, "\"express\""@) || contains_seq(c, "\"fastify\""@)
        || contains_seq(c, "\"koa\""@)) {
        seq![3000u16]
    } else {
        base
    }
}

/// The port a Python manifest suggests, where it names a known server.
pub open spec fn python_file_port(c: Seq<char>) -> Option<u16> {
    if contains_seq(c, "fastapi"@) || contains_seq(c, "uvicorn"@) {
        Some(8000u16)
    } else if contains_seq(c, "flask"@) {
        Some(5000u16)
    } else {
        None
    }
}

/// The ports a Python project suggests: the framework port where a manage
/// script exists, else the first hit among the manifests.
pub open spec fn python_ports_spec(
    has_manage_py: bool,
    pyproject: Option<Seq<char>>,
    requirements: Option<Seq<char>>,
) -> Seq<u16> {
    if has_manage_py {
        seq![8000u16]
    } else {
        let from_requirements = (match requirements {
            Some(c) => match python_file_port(c) {
                Some(p) => seq![p],
                None => Seq::empty(),
            },
            None => Seq::empty(),
        });
        match pyproject {
            Some(c) => match python_file_port(c) {
                Some(p) => seq![p],
                None => from_requirements,
            },
            None => from_requirements,
        }
    }
}

/// The ports a Rust manifest suggests.
pub open spec fn cargo_ports_spec(c: Seq<char>) -> Seq<u16> {
    (if contains_seq(c, "tauri"@) {
        seq![1420u16, 5173u16]
    } else {
        Seq::empty()
    }) + (if contains_seq(c, "actix"@) || contains_seq(c, "axum"@) || contains_seq(c, "rocket"@) {
        seq![8080u16]
    } else {
        Seq::empty()
    })
}

/// The host port one compose line publishes, where the line is a quoted or
/// numeric `host:container` list entry.
pub open spec fn compose_line_port(line: Seq<char>) -> Option<u16> {
    let t = trim_spec(crate::text::trim_char_start(trim_spec(line), '-'));
    if t.len() > 0 && (t[0] == '"' || crate::text::is_digit(t[0])) {
        let ps = crate::text::trim_char_spec(t, '"');
        let sp = split_first_spec(ps, ':');
        match sp.1 {
            Some(_) => if all_digits(sp.0) && chars_to_nat(sp.0) <= u16::MAX {
                Some(chars_to_nat(sp.0) as u16)
            } else {
                None
            },
            None => None,
        }
    } else {
        None
    }
}

/// The ports a compose file publishes, in line order.
pub open spec fn compose_ports_spec(lines: Seq<Seq<char>>) -> Seq<u16>
    decreases lines.len(),
{
    if lines.len() == 0 {
        Seq::empty()
    } else {
        let rest = compose_ports_spec(lines.drop_last());
        match compose_line_port(lines.last()) {
            Some(p) => rest.push(p),
            None => rest,
        }
    }
}

/// The input with later repeats removed: each port keeps its first place.
pub open spec fn dedup_first(s: Seq<u16>) -> Seq<u16>
    decreases s.len(),
{
    if s.len() == 0 {
        s
    } else {
        let rest = dedup_first(s.drop_last());
        if s.drop_last().contains(s.last()) {
            rest
        } else {
            rest.push(s.last())
        }
    }
}

/// Every candidate port the manifests suggest, in the fixed scan order.
pub open spec fn port_candidates_spec(
    package_json: Option<Seq<char>>,
    pyproject: Option<Seq<char>>,
    requirements: Option<Seq<char>>,
    has_manage_py: bool,
    has_go_mod: bool,
    cargo_toml: Option<Seq<char>>,
    compose: Option<Seq<char>>,
) -> Seq<u16> {
    (match package_json {
        Some(c) => node_ports_spec(c),
        None => Seq::empty(),
    }) + python_ports_spec(has_manage_py, pyproject, requirements) + (if has_go_mod {
        seq![8080u16]
    } else {
        Seq::empty()
    }) + (match cargo_toml {
        Some(c) => cargo_ports_spec(c),
        None => Seq::empty(),
    }) + (match compose {
        Some(c) => compose_ports_spec(crate::text::lines_spec(c)),
        None => Seq::empty(),
    })
}

/// The ports a project's manifests suggest, first occurrence of each kept.
pub open spec fn detect_ports_spec(
    package_json: Option<Seq<char>>,
    pyproject: Option<Seq<char>>,
    requirements: Option<Seq<char>>,
    has_manage_py: bool,
    has_go_mod: bool,
    cargo_toml: Option<Seq<char>>,
    compose: Option<Seq<char>>,
) -> Seq<u16> {
    dedup_first(
        port_candidates_spec(
            package_json,
            pyproject,
            requirements,
            has_manage_py,
            has_go_mod,
            cargo_toml,
            compose,
        ),
    )
}

/// The view of an optional string slice.
pub open spec fn opt_content(s: Option<&str>) -> Option<Seq<char>> {
    match s {
        Some(t) => Some(t@),
        None => None,
    }
}

/// The ports a package manifest suggests.
fn node_ports(content: &str, out: &mut Vec<u16>)
    ensures
        final(out)@ == old(out)@ + node_ports_spec(content@),
{
    let cv = str_chars(content);
    let ghost pre = out@;
    let mut found = false;
    if crate::text::contains_str(&cv, "\"next\"") {
        out.push(3000);
        found = true;
    }
    if crate::text::contains_str(&cv, "\"vite\"") {
        out.push(5173);
        out.push(5174);
        out.push(24678);
        found = true;
    }
    if crate::text::contains_str(&cv, "\"react-scripts\"") {
        out.push(3000);
        found = true;
    }
    if crate::text::contains_str(&cv, "\"@angular/core\"") {
        out.push(4200);
        found = true;
    }
    if crate::text::contains_str(&cv, "\"expo\"") {
        out.push(19000);
        out.push(19001);
        out.push(8081);
        found = true;
    }
    if !found && (crate::text::contains_str(&cv, "\"express\"") || crate::text::contains_str(
        &cv,
        "\"fastify\"",
    ) || crate::text::contains_str(&cv, "\"koa\"")) {
        out.push(3000);
    }
    proof {
        assert(final(out)@ =~= pre + node_ports_spec(content@));
    }
}

/// The port a Python manifest suggests.
fn python_file_port_exec(content: &str) -> (r: Option<u16>)
    ensures
        r == python_file_port(content@),
{
    let cv = str_chars(content);
    if crate::text::contains_str(&cv, "fastapi") || crate::text::contains_str(&cv, "uvicorn") {
        Some(8000)
    } else if crate::text::contains_str(&cv, "flask") {
        Some(5000)
    } else {
        None
    }
}

/// The ports a Rust manifest suggests.
fn cargo_ports(content: &str, out: &mut Vec<u16>)
    ensures
        final(out)@ == old(out)@ + cargo_ports_spec(content@),
{
    let cv = str_chars(content);
    let ghost pre = out@;
    if crate::text::contains_str(&cv, "tauri") {
        out.push(1420);
        out.push(5173);
    }
    if crate::text::contains_str(&cv, "actix") || crate::text::contains_str(&cv, "axum")
        || crate::text::contains_str(&cv, "rocket") {
        out.push(8080);
    }
    proof {
        assert(final(out)@ =~= pre + cargo_ports_spec(content@));
    }
}

/// The ports a compose file publishes, in line order.
fn compose_ports(content: &str, out: &mut Vec<u16>)
    ensures
        final(out)@ == old(out)@ + compose_ports_spec(crate::text::lines_spec(content@)),
{
    let cv = str_chars(content);
    let lines = crate::text::split_lines(&cv);
    let ghost lv = lines.deep_view();
    let ghost pre = out@;
    let mut i: usize = 0;
    proof {
        assert(lv.subrange(0, 0) =~= Seq::<Seq<char>>::empty());
        assert(out@ =~= pre + compose_ports_spec(lv.subrange(0, 0)));
    }
    while i < lines.len()
        invariant
            i <= lines@.len(),
            lv == lines.deep_view(),
            lv == crate::text::lines_spec(content@),
            out@ == pre + compose_ports_spec(lv.subrange(0, i as int)),
        decreases lines@.len() - i,
    {
        proof {
            assert(lv.subrange(0, i + 1).drop_last() =~= lv.subrange(0, i as int));
            assert(lv.subrange(0, i + 1).last() == lv[i as int]);
            assert(lv[i as int] == lines@[i as int]@);
        }
        let ghost prev = out@;
        let t0 = trim_chars(&lines[i]);
        let dashless = crate::text::trim_matching_start(&t0, '-');
        let t = trim_chars(&dashless);
        if t.len() > 0 && {
            let c0 = t[0];
            c0 == '"' || (c0 >= '0' && c0 <= '9')
        } {
            let ps = crate::text::trim_matching(&t, '"');
            let (host, rest) = split_first(&ps, ':');
            match rest {
                Some(_) => {
                    match parse_u16(&host) {
                        Some(p) => {
                            out.push(p);
                            proof {
                                assert(compose_line_port(lv[i as int]) == Some(p));
                                assert(out@ =~= prev.push(p));
                            }
                        },
                        None => {
                            proof {
                                assert(compose_line_port(lv[i as int]) is None);
                            }
                        },
                    }
                },
                None => {
                    proof {
                        assert(compose_line_port(lv[i as int]) is None);
                    }
                },
            }
        } else {
            proof {
                assert(compose_line_port(lv[i as int]) is None);
            }
        }
        i = i + 1;
    }
    proof {
        assert(lv.subrange(0, lv.len() as int) =~= lv);
    }
}

/// Detect the development ports a project's manifest contents suggest —
/// the shell reads the files and hands in what it found — keeping the
/// first occurrence of each port, mapped to itself.
#[verifier::rlimit(100)]
pub fn detect_ports_from_contents(
    package_json: Option<&str>,
    pyproject: Option<&str>,
    requirements: Option<&str>,
    has_manage_py: bool,
    has_go_mod: bool,
    cargo_toml: Option<&str>,
    compose: Option<&str>,
) -> (r: Vec<PortMapping>)
    ensures
        port_models(r@) == detect_ports_spec(
            opt_content(package_json),
            opt_content(pyproject),
            opt_content(requirements),
            has_manage_py,
            has_go_mod,
            opt_content(cargo_toml),
            opt_content(compose),
        ).map_values(|p: u16| (p, p, Option::<Seq<char>>::None)),
{
    let mut all: Vec<u16> = Vec::new();
    match package_json {
        Some(c) => node_ports(c, &mut all),
        None => {},
    }
    if has_manage_py {
        all.push(8000);
    } else {
        let hit: Option<u16> = match pyproject {
            Some(c) => python_file_port_exec(c),
            None => None,
        };
        match hit {
            Some(p) => all.push(p),
            None => {
                match requirements {
                    Some(c) => {
                        match python_file_port_exec(c) {
                            Some(p) => all.push(p),
                            None => {},
                        }
                    },
                    None => {},
                }
            },
        }
    }
    if has_go_mod {
        all.push(8080);
    }
    match cargo_toml {
        Some(c) => cargo_ports(c, &mut all),
        None => {},
    }
    match compose {
        Some(c) => compose_ports(c, &mut all),
        None => {},
    }
    proof {
        assert(all@ =~= port_candidates_spec(
            opt_content(package_json),
            opt_content(pyproject),
            opt_content(requirements),
            has_manage_py,
            has_go_mod,
            opt_content(cargo_toml),
            opt_content(compose),
        ));
    }
    let mut unique: Vec<u16> = Vec::new();
    let mut i: usize = 0;
    proof {
        assert(all@.subrange(0, 0) =~= Seq::<u16>::empty());
        assert(unique@ =~= dedup_first(all@.subrange(0, 0)));
    }
    while i < all.len()
        invariant
            i <= all@.len(),
            unique@ == dedup_first(all@.subrange(0, i as int)),
        decreases all@.len() - i,
    {
        proof {
            assert(all@.subrange(0, i + 1).drop_last() =~= all@.subrange(0, i as int));
            assert(all@.subrange(0, i + 1).last() == all@[i as int]);
        }
        let p = all[i];
        let mut seen = false;
        let mut k: usize = 0;
        while k < i
            invariant
                i <= all@.len(),
                k <= i,
                seen ==> all@.subrange(0, i as int).contains(p),
                !seen ==> forall|j: int| 0 <= j < k ==> all@[j] != p,
            decreases i - k,
        {
            if all[k] == p {
                proof {
                    assert(all@.subrange(0, i as int)[k as int] == p);
                }
                seen = true;
            }
            k = k + 1;
        }
        proof {
            if !seen {
                assert forall|j: int|
                    0 <= j < all@.subrange(0, i as int).len() implies all@.subrange(
                    0,
                    i as int,
                )[j] != p by {
                    assert(all@.subrange(0, i as int)[j] == all@[j]);
                }
                assert(!all@.subrange(0, i as int).contains(p));
            }
        }
        if !seen {
            unique.push(p);
        }
        i = i + 1;
    }
    proof {
        assert(all@.subrange(0, all@.len() as int) =~= all@);
    }
    let mut r: Vec<PortMapping> = Vec::new();
    let mut m: usize = 0;
    proof {
        assert(port_models(r@) =~= unique@.subrange(0, 0).map_values(
            |p: u16| (p, p, Option::<Seq<char>>::None),
        ));
    }
    while m < unique.len()
        invariant
            m <= unique@.len(),
            port_models(r@) == unique@.subrange(0, m as int).map_values(
                |p: u16| (p, p, Option::<Seq<char>>::None),
            ),
        decreases unique@.len() - m,
    {
        let ghost prev = port_models(r@);
        let mapping = PortMapping::new(unique[m]);
        r.push(mapping);
        proof {
            assert(port_models(r@) =~= prev.push(
                (unique@[m as int], unique@[m as int], Option::<Seq<char>>::None),
            ));
            assert(unique@.subrange(0, m + 1).map_values(
                |p: u16| (p, p, Option::<Seq<char>>::None),
            ) =~= unique@.subrange(0, m as int).map_values(
                |p: u16| (p, p, Option::<Seq<char>>::None),
            ).push((unique@[m as int], unique@[m as int], Option::<Seq<char>>::None)));
        }
        m = m + 1;
    }
    proof {
        assert(unique@.subrange(0, unique@.len() as int) =~= unique@);
    }
    r
}

/// Network configuration of one sandboxed agent.
pub struct AgentNetworkInfo {
    /// The shared network's name.
    pub network_name: String,
    /// Container hostname, usable by other containers to connect.
    pub container_hostname: String,
    /// Allocated host port range, first and last port.
    pub host_port_range: (u16, u16),
    /// Container port to host port, for each requested container port.
    pub port_mappings: Vec<(u16, u16)>,
}

/// Network info for a sandboxed agent: the shared network, the issue's
/// deterministic hostname, its port range, and one remapped host port per
/// requested container port.
pub fn get_agent_network_info(issue_number: u64, container_ports: &[u16]) -> (r: AgentNetworkInfo)
    ensures
        r.network_name@ == "handy-agents"@,
        r.container_hostname@ == "handy-sandbox-"@ + dec_spec(issue_number as nat),
        r.host_port_range == port_range_spec(issue_number),
        r.port_mappings@ == container_ports@.map_values(
            |cp: u16| (cp, remap_spec(cp, issue_number)),
        ),
{
    let container_hostname = container_name_for_issue(issue_number);
    let range = allocate_port_range(issue_number);
    let mut port_mappings: Vec<(u16, u16)> = Vec::new();
    let mut i: usize = 0;
    proof {
        assert(port_mappings@ =~= container_ports@.subrange(0, 0).map_values(
            |cp: u16| (cp, remap_spec(cp, issue_number)),
        ));
    }
    while i < container_ports.len()
        invariant
            i <= container_ports@.len(),
            port_mappings@ == container_ports@.subrange(0, i as int).map_values(
                |cp: u16| (cp, remap_spec(cp, issue_number)),
            ),
        decreases container_ports@.len() - i,
    {
        let cp = container_ports[i];
        let hp = remap_port_to_range(cp, issue_number);
        port_mappings.push((cp, hp));
        proof {
            assert(container_ports@.subrange(0, i + 1).map_values(
                |c: u16| (c, remap_spec(c, issue_number)),
            ) =~= container_ports@.subrange(0, i as int).map_values(
                |c: u16| (c, remap_spec(c, issue_number)),
            ).push((cp, remap_spec(cp, issue_number))));
        }
        i = i + 1;
    }
    proof {
        assert(container_ports@.subrange(0, container_ports@.len() as int) =~= container_ports@);
    }
    AgentNetworkInfo {
        network_name: chars_to_string(&str_chars("handy-agents")),
        container_hostname,
        host_port_range: range,
        port_mappings,
    }
}

} // verus!
