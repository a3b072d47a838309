//! Rendering hosts into configuration file texts, and the host summary.
//!
//! Every function here is a pure text transform: it takes values of the
//! data model and yields strings whose contents the contracts state
//! exactly, character for character.

use vstd::prelude::*;
use vstd::string::StringExecFns;

use crate::model::{HostInfo, HostInfoView, ServiceInfo, ServiceInfoView, hosts_view};

verus! {

/// The character of one decimal digit.
pub open spec fn spec_digit_char(d: int) -> char {
    if d == 0 {
        '0'
    } else if d == 1 {
        '1'
    } else if d == 2 {
        '2'
    } else if d == 3 {
        '3'
    } else if d == 4 {
        '4'
    } else if d == 5 {
        '5'
    } else if d == 6 {
        '6'
    } else if d == 7 {
        '7'
    } else if d == 8 {
        '8'
    } else {
        '9'
    }
}

/// The decimal text of a number, most significant digit first, no
/// leading zeroes (a single `'0'` for zero).
pub open spec fn spec_dec(n: int) -> Seq<char>
    recommends
        0 <= n,
    decreases n,
{
    if n < 10 {
        seq![spec_digit_char(n)]
    } else {
        spec_dec(n / 10) + seq![spec_digit_char(n % 10)]
    }
}

/// An owned copy of a text.
pub fn owned(s: &str) -> (r: String)
    ensures
        r@ == s@,
{
    let mut t = String::new();
    t.append(s);
    proof {
        assert(t@ =~= s@);
    }
    t
}

/// The one-character text of a decimal digit.
fn digit_str(d: u16) -> (r: &'static str)
    requires
        d < 10,
    ensures
        r@ == seq![spec_digit_char(d as int)],
{
    proof {
        reveal_strlit("0");
        reveal_strlit("1");
        reveal_strlit("2");
        reveal_strlit("3");
        reveal_strlit("4");
        reveal_strlit("5");
        reveal_strlit("6");
        reveal_strlit("7");
        reveal_strlit("8");
        reveal_strlit("9");
    }
    if d == 0 {
        "0"
    } else if d == 1 {
        "1"
    } else if d == 2 {
        "2"
    } else if d == 3 {
        "3"
    } else if d == 4 {
        "4"
    } else if d == 5 {
        "5"
    } else if d == 6 {
        "6"
    } else if d == 7 {
        "7"
    } else if d == 8 {
        "8"
    } else {
        "9"
    }
}

/// The decimal text of a port number.
pub fn u16_dec(n: u16) -> (s: String)
    ensures
        s@ == spec_dec(n as int),
    decreases n,
{
    if n < 10 {
        let mut s = String::new();
        s.append(digit_str(n));
        proof {
            assert(s@ =~= spec_dec(n as int));
        }
        s
    } else {
        proof {
            assert(n / 10 < n && n % 10 < 10) by (nonlinear_arith)
                requires
                    n >= 10,
            ;
        }
        let mut s = u16_dec(n / 10);
        s.append(digit_str(n % 10));
        s
    }
}

/// One server block of the output file for a service of a host.
pub open spec fn spec_server_block(
    s: ServiceInfoView,
    domain: Seq<char>,
    forward_server: Seq<char>,
) -> Seq<char> {
    "# "@ + s.name + "\nserver {\n  server_name         "@ + s.name + "."@ + domain
        + ";\n  set $forward_scheme "@ + s.forward_scheme + ";\n  set $server         "@
        + forward_server + ";\n  set $port           "@ + spec_dec(s.port as int)
        + ";\n\n  listen 80;\n  listen [::]:80;\n  inclu"@ + "de conf.d/proxy_inclu"@
        + "de/location.conf;\n}\n"@
}

/// Render one server block.
pub fn render_server_block(service: &ServiceInfo, domain: &str, forward_server: &str) -> (r:
    String)
    ensures
        r@ == spec_server_block(service@, domain@, forward_server@),
{
    let mut s = String::new();
    s.append("# ");
    proof {
        assert(s@ =~= "# "@);
    }
    s.append(service.name.as_str());
    s.append("\nserver {\n  server_name         ");
    s.append(service.name.as_str());
    s.append(".");
    s.append(domain);
    s.append(";\n  set $forward_scheme ");
    s.append(service.forward_scheme.as_str());
    s.append(";\n  set $server         ");
    s.append(forward_server);
    s.append(";\n  set $port           ");
    let port = u16_dec(service.port);
    s.append(port.as_str());
    s.append(";\n\n  listen 80;\n  listen [::]:80;\n  inclu");
    s.append("de conf.d/proxy_inclu");
    s.append("de/location.conf;\n}\n");
    s
}

/// The full text of one host's output file: the server blocks of its
/// services in document order, separated by one blank line; empty for
/// a host with no services.
pub open spec fn spec_blocks(
    svcs: Seq<ServiceInfoView>,
    domain: Seq<char>,
    forward_server: Seq<char>,
) -> Seq<char>
    decreases svcs.len(),
{
    if svcs.len() == 0 {
        Seq::empty()
    } else if svcs.len() == 1 {
        spec_server_block(svcs[0], domain, forward_server)
    } else {
        spec_blocks(svcs.drop_last(), domain, forward_server) + "\n"@ + spec_server_block(
            svcs.last(),
            domain,
            forward_server,
        )
    }
}

/// The content of the output file for one host.
pub open spec fn spec_host_file(h: HostInfoView) -> Seq<char> {
    spec_blocks(h.services, h.domain, h.forward_server)
}

/// Render the content of one host's output file.
#[verifier::loop_isolation(false)]
pub fn render_host_file(host: &HostInfo) -> (r: String)
    ensures
        r@ == spec_host_file(host@),
{
    let mut s = String::new();
    let mut k: usize = 0;
    while k < host.services.len()
        invariant
            0 <= k <= host.services@.len(),
            s@ == spec_blocks(host@.services.take(k as int), host@.domain, host@.forward_server),
        decreases host.services@.len() - k,
    {
        if k > 0 {
            s.append("\n");
        }
        let b = render_server_block(
            &host.services[k],
            host.domain.as_str(),
            host.forward_server.as_str(),
        );
        s.append(b.as_str());
        proof {
            let svcs = host@.services;
            assert(svcs.take(k + 1).drop_last() =~= svcs.take(k as int));
            assert(svcs.take(k + 1).last() == svcs[k as int]);
            if k == 0 {
                assert(s@ =~= spec_blocks(svcs.take(k + 1), host@.domain, host@.forward_server));
            }
        }
        k += 1;
    }
    proof {
        assert(host@.services.take(host.services@.len() as int) =~= host@.services);
    }
    s
}

/// The fixed content of the shared location file: the forwarding
/// directives used by every rendered server block.
pub open spec fn spec_location_file() -> Seq<char> {
    "location / {\n    add_header       X-Served-By        $host;\n"@
        + "    proxy_set_header Host               $host;\n"@
        + "    proxy_set_header X-Forwarded-Scheme $scheme;\n"@
        + "    proxy_set_header X-Forwarded-Proto  $scheme;\n"@
        + "    proxy_set_header X-Forwarded-For    $proxy_add_x_forwarded_for;\n"@
        + "    proxy_set_header X-Real-IP          $remote_addr;\n"@
        + "    proxy_pass       $forward_scheme://$server:$port$request_uri;\n}"@
}

/// The shared location file's content; the same on every run.
pub fn location_file_content() -> (r: String)
    ensures
        r@ == spec_location_file(),
{
    let mut s = String::new();
    s.append("location / {\n    add_header       X-Served-By        $host;\n");
    proof {
        assert(s@ =~= "location / {\n    add_header       X-Served-By        $host;\n"@);
    }
    s.append("    proxy_set_header Host               $host;\n");
    s.append("    proxy_set_header X-Forwarded-Scheme $scheme;\n");
    s.append("    proxy_set_header X-Forwarded-Proto  $scheme;\n");
    s.append("    proxy_set_header X-Forwarded-For    $proxy_add_x_forwarded_for;\n");
    s.append("    proxy_set_header X-Real-IP          $remote_addr;\n");
    s.append("    proxy_pass       $forward_scheme://$server:$port$request_uri;\n}");
    s
}

/// One line of the summary for a service: its public URL and its
/// upstream target.
pub open spec fn spec_service_line(
    s: ServiceInfoView,
    domain: Seq<char>,
    forward_server: Seq<char>,
) -> Seq<char> {
    "  http://"@ + s.name + "."@ + domain + " -> "@ + s.forward_scheme + "://"@ + forward_server
        + ":"@ + spec_dec(s.port as int) + "\n"@
}

/// Render one service's summary line.
pub fn render_service_line(service: &ServiceInfo, domain: &str, forward_server: &str) -> (r:
    String)
    ensures
        r@ == spec_service_line(service@, domain@, forward_server@),
{
    let mut s = String::new();
    s.append("  http://");
    proof {
        assert(s@ =~= "  http://"@);
    }
    s.append(service.name.as_str());
    s.append(".");
    s.append(domain);
    s.append(" -> ");
    s.append(service.forward_scheme.as_str());
    s.append("://");
    s.append(forward_server);
    s.append(":");
    let port = u16_dec(service.port);
    s.append(port.as_str());
    s.append("\n");
    s
}

/// The service lines of one host's summary, in document order.
pub open spec fn spec_service_lines(
    svcs: Seq<ServiceInfoView>,
    domain: Seq<char>,
    forward_server: Seq<char>,
) -> Seq<char>
    decreases svcs.len(),
{
    if svcs.len() == 0 {
        Seq::empty()
    } else {
        spec_service_lines(svcs.drop_last(), domain, forward_server) + spec_service_line(
            svcs.last(),
            domain,
            forward_server,
        )
    }
}

/// The summary of one host: a line with its name, one line per
/// service, and a closing blank line.
pub open spec fn spec_host_summary(name: Seq<char>, h: HostInfoView) -> Seq<char> {
    "["@ + name + "]\n"@ + spec_service_lines(h.services, h.domain, h.forward_server) + "\n"@
}

/// Render one host's summary.
#[verifier::loop_isolation(false)]
pub fn render_host_summary(name: &str, host: &HostInfo) -> (r: String)
    ensures
        r@ == spec_host_summary(name@, host@),
{
    let mut s = String::new();
    s.append("[");
    proof {
        assert(s@ =~= "["@);
    }
    s.append(name);
    s.append("]\n");
    let mut k: usize = 0;
    while k < host.services.len()
        invariant
            0 <= k <= host.services@.len(),
            s@ == "["@ + name@ + "]\n"@ + spec_service_lines(
                host@.services.take(k as int),
                host@.domain,
                host@.forward_server,
            ),
        decreases host.services@.len() - k,
    {
        let line = render_service_line(
            &host.services[k],
            host.domain.as_str(),
            host.forward_server.as_str(),
        );
        s.append(line.as_str());
        proof {
            let svcs = host@.services;
            assert(svcs.take(k + 1).drop_last() =~= svcs.take(k as int));
            assert(svcs.take(k + 1).last() == svcs[k as int]);
        }
        k += 1;
    }
    proof {
        assert(host@.services.take(host.services@.len() as int) =~= host@.services);
    }
    s.append("\n");
    s
}

/// The summary of a whole document: the hosts' summaries in mapping
/// order.
pub open spec fn spec_summary(hosts: Seq<(Seq<char>, HostInfoView)>) -> Seq<char>
    decreases hosts.len(),
{
    if hosts.len() == 0 {
        Seq::empty()
    } else {
        spec_summary(hosts.drop_last()) + spec_host_summary(hosts.last().0, hosts.last().1)
    }
}

/// Render the whole summary of a host mapping.
#[verifier::loop_isolation(false)]
pub fn render_summary(hosts: &Vec<(String, HostInfo)>) -> (r: String)
    ensures
        r@ == spec_summary(hosts_view(hosts@)),
{
    let mut s = String::new();
    let mut k: usize = 0;
    while k < hosts.len()
        invariant
            0 <= k <= hosts@.len(),
            s@ == spec_summary(hosts_view(hosts@).take(k as int)),
        decreases hosts@.len() - k,
    {
        let h = render_host_summary(hosts[k].0.as_str(), &hosts[k].1);
        s.append(h.as_str());
        proof {
            let hv = hosts_view(hosts@);
            assert(hv.take(k + 1).drop_last() =~= hv.take(k as int));
            assert(hv.take(k + 1).last() == hv[k as int]);
            if k == 0 {
                assert(Seq::<char>::empty() + spec_host_summary(hv[0].0, hv[0].1)
                    =~= spec_host_summary(hv[0].0, hv[0].1));
            }
        }
        k += 1;
    }
    proof {
        assert(hosts_view(hosts@).take(hosts@.len() as int) =~= hosts_view(hosts@));
    }
    s
}

/// The name of the subdirectory that holds the shared location file.
pub fn proxy_subdir_name() -> (r: String)
    ensures
        r@ == "proxy_inclu"@ + "de"@,
{
    let mut s = String::new();
    s.append("proxy_inclu");
    proof {
        assert(s@ =~= "proxy_inclu"@);
    }
    s.append("de");
    s
}

/// The file name of the shared location file.
pub fn location_file_name() -> (r: String)
    ensures
        r@ == "location.conf"@,
{
    owned("location.conf")
}

/// View of a set of rendered files: name and content of each.
pub open spec fn files_view(files: Seq<(String, String)>) -> Seq<(Seq<char>, Seq<char>)> {
    files.map_values(|p: (String, String)| (p.0@, p.1@))
}

/// The per-host output files of a mapping: for each host, in mapping
/// order, the file name `<host>.conf` and the host's file content.
pub open spec fn spec_render_files(hosts: Seq<(Seq<char>, HostInfoView)>) -> Seq<
    (Seq<char>, Seq<char>),
> {
    hosts.map_values(|h: (Seq<char>, HostInfoView)| (h.0 + ".conf"@, spec_host_file(h.1)))
}

/// A host with no services yields an output file with empty content —
/// zero server blocks, not an error.
pub proof fn lemma_empty_services_empty_file(h: HostInfoView)
    requires
        h.services.len() == 0,
    ensures
        spec_host_file(h) == Seq::<char>::empty(),
{
}

/// Rendering is a function of the mapping alone: two renders of the
/// same mapping yield files identical in names and contents, so running
/// the generator twice in succession writes byte-identical output.
pub proof fn lemma_render_idempotent(
    hosts: Seq<(Seq<char>, HostInfoView)>,
    first: Seq<(Seq<char>, Seq<char>)>,
    second: Seq<(Seq<char>, Seq<char>)>,
)
    requires
        first == spec_render_files(hosts),
        second == spec_render_files(hosts),
    ensures
        first == second,
{
}

} // verus!
