//! Loading a document: parse the text, then check and extract the
//! expected shape into the data model.
//!
//! Parsing the concrete text format is done by the trusted interface in
//! [`crate::toml_api`]; everything from the parsed value tree to the
//! host mapping is verified here, against spec functions that state the
//! accepted shape exactly.

use vstd::prelude::*;

use crate::model::{HostInfo, HostInfoView, ServiceInfo, ServiceInfoView, hosts_view,
    host_names_unique};
use crate::toml_api::{TomlNode, TomlRep, parse_toml_text, rep_lookup, table_entries, table_get,
    toml_doc, toml_table_rep, toml_value_rep, value_node};

verus! {

/// Why loading a document failed: the text is not valid in the
/// document format (`Syntax`, with the parser's description), or it is
/// valid but does not match the expected shape — a host or service
/// entry of the wrong kind, a missing required field, a field of the
/// wrong type, or a port outside the unsigned 16-bit range (`Shape`).
#[derive(Debug)]
pub enum ParseError {
    Syntax(String),
    Shape,
}

/// The shape accepted for one service: a table whose `name` and
/// `forward_scheme` entries are strings and whose `port` entry is an
/// integer that fits in a `u16`.  Entries under other keys are ignored.
pub open spec fn spec_service_of(rep: TomlRep) -> Option<ServiceInfoView> {
    match rep {
        TomlRep::Tab(es) => match (
            rep_lookup(es, "name"@),
            rep_lookup(es, "forward_scheme"@),
            rep_lookup(es, "port"@),
        ) {
            (Some(TomlRep::Str(n)), Some(TomlRep::Str(sc)), Some(TomlRep::Int(p))) => if 0 <= p
                <= 65535 {
                Some(ServiceInfoView { name: n, forward_scheme: sc, port: p as u16 })
            } else {
                None
            },
            _ => None,
        },
        _ => None,
    }
}

/// All elements of a `services` array are well-shaped services.
pub open spec fn spec_services_ok(els: Seq<TomlRep>) -> bool {
    forall|i: int| 0 <= i < els.len() ==> spec_service_of(#[trigger] els[i]) is Some
}

/// The services of a host, in array order, when all are well-shaped.
pub open spec fn spec_services_of(els: Seq<TomlRep>) -> Option<Seq<ServiceInfoView>> {
    if spec_services_ok(els) {
        Some(Seq::new(els.len(), |i: int| spec_service_of(els[i])->Some_0))
    } else {
        None
    }
}

/// The shape accepted for one host: a table whose `domain` and
/// `forward_server` entries are strings and whose `services` entry is
/// an array of well-shaped services.  Entries under other keys are
/// ignored.
pub open spec fn spec_host_of(rep: TomlRep) -> Option<HostInfoView> {
    match rep {
        TomlRep::Tab(es) => match (
            rep_lookup(es, "domain"@),
            rep_lookup(es, "forward_server"@),
            rep_lookup(es, "services"@),
        ) {
            (Some(TomlRep::Str(d)), Some(TomlRep::Str(fs)), Some(TomlRep::Arr(els))) => match
                spec_services_of(els) {
                Some(svcs) => Some(
                    HostInfoView { domain: d, forward_server: fs, services: svcs },
                ),
                None => None,
            },
            _ => None,
        },
        _ => None,
    }
}

/// All top-level entries are well-shaped hosts.
pub open spec fn spec_hosts_ok(entries: Seq<(Seq<char>, TomlRep)>) -> bool {
    forall|i: int| 0 <= i < entries.len() ==> spec_host_of((#[trigger] entries[i]).1) is Some
}

/// The host mapping of a document's top-level entries, in entry order,
/// when all are well-shaped.
pub open spec fn spec_hosts_of(entries: Seq<(Seq<char>, TomlRep)>) -> Option<
    Seq<(Seq<char>, HostInfoView)>,
> {
    if spec_hosts_ok(entries) {
        Some(Seq::new(entries.len(), |i: int| (entries[i].0, spec_host_of(entries[i].1)->Some_0)))
    } else {
        None
    }
}

/// What loading a document text yields: `None` when the text is not a
/// valid document or its top-level entries are not all well-shaped
/// hosts, otherwise the host mapping.
pub open spec fn spec_load(s: Seq<char>) -> Option<Seq<(Seq<char>, HostInfoView)>> {
    match toml_doc(s) {
        Some(entries) => spec_hosts_of(entries),
        None => None,
    }
}

/// The string under `key` in the table, when that entry is a string.
fn get_string(t: &toml::Table, key: &str) -> (r: Option<String>)
    ensures
        r is Some <==> rep_lookup(toml_table_rep(*t), key@) matches Some(TomlRep::Str(_)),
        r matches Some(s) ==> rep_lookup(toml_table_rep(*t), key@) == Some(TomlRep::Str(s@)),
{
    match table_get(t, key) {
        Some(v) => match value_node(v) {
            TomlNode::Str(s) => Some(s),
            _ => None,
        },
        None => None,
    }
}

/// One service from a parsed value, exactly when it is well-shaped.
fn service_from_value(v: &toml::Value) -> (r: Option<ServiceInfo>)
    ensures
        r is Some <==> spec_service_of(toml_value_rep(*v)) is Some,
        r matches Some(s) ==> s@ == spec_service_of(toml_value_rep(*v))->Some_0,
{
    let t = match value_node(v) {
        TomlNode::Tab(t) => t,
        _ => {
            return None;
        },
    };
    let name = match get_string(t, "name") {
        Some(s) => s,
        None => {
            return None;
        },
    };
    let forward_scheme = match get_string(t, "forward_scheme") {
        Some(s) => s,
        None => {
            return None;
        },
    };
    let port_int = match table_get(t, "port") {
        Some(pv) => match value_node(pv) {
            TomlNode::Int(i) => i,
            _ => {
                return None;
            },
        },
        None => {
            return None;
        },
    };
    if port_int < 0 || port_int > 65535 {
        return None;
    }
    Some(ServiceInfo { name, forward_scheme, port: port_int as u16 })
}

/// One host from a parsed value, exactly when it is well-shaped.
#[verifier::loop_isolation(false)]
fn host_from_value(v: &toml::Value) -> (r: Option<HostInfo>)
    ensures
        r is Some <==> spec_host_of(toml_value_rep(*v)) is Some,
        r matches Some(h) ==> h@ == spec_host_of(toml_value_rep(*v))->Some_0,
{
    let t = match value_node(v) {
        TomlNode::Tab(t) => t,
        _ => {
            return None;
        },
    };
    let domain = match get_string(t, "domain") {
        Some(s) => s,
        None => {
            return None;
        },
    };
    let forward_server = match get_string(t, "forward_server") {
        Some(s) => s,
        None => {
            return None;
        },
    };
    let arr = match table_get(t, "services") {
        Some(sv) => match value_node(sv) {
            TomlNode::Arr(a) => a,
            _ => {
                return None;
            },
        },
        None => {
            return None;
        },
    };
    let ghost arr_reps = match rep_lookup(toml_table_rep(*t), "services"@) {
        Some(TomlRep::Arr(a)) => a,
        _ => Seq::<TomlRep>::empty(),
    };
    let mut services: Vec<ServiceInfo> = Vec::new();
    let mut k: usize = 0;
    while k < arr.len()
        invariant
            0 <= k <= arr@.len(),
            services@.len() == k,
            arr@.len() == arr_reps.len(),
            forall|i: int|
                0 <= i < arr@.len() ==> toml_value_rep(#[trigger] arr@[i]) == arr_reps[i],
            forall|i: int| 0 <= i < k ==> spec_service_of(#[trigger] arr_reps[i]) is Some,
            forall|i: int|
                0 <= i < k ==> (#[trigger] services@[i])@ == spec_service_of(arr_reps[i])->Some_0,
        decreases arr@.len() - k,
    {
        match service_from_value(&arr[k]) {
            Some(s) => {
                services.push(s);
            },
            None => {
                proof {
                    assert(spec_service_of(arr_reps[k as int]) is None);
                    assert(!spec_services_ok(arr_reps));
                }
                return None;
            },
        }
        k += 1;
    }
    let h = HostInfo { domain, forward_server, services };
    proof {
        assert(spec_services_ok(arr_reps));
        assert(h@.services =~= spec_services_of(arr_reps)->Some_0);
        assert(h@ == spec_host_of(toml_value_rep(*v))->Some_0);
    }
    Some(h)
}

/// Load the host mapping from a document text.
///
/// Succeeds exactly when the text is a valid document whose top-level
/// entries are all well-shaped hosts, and then yields those hosts in
/// entry order, names unique.  Fails with `ParseError::Syntax` exactly
/// when the text is not a valid document, and with `ParseError::Shape`
/// exactly when it is valid but ill-shaped.
#[verifier::loop_isolation(false)]
pub fn load_hosts_from_str(text: &str) -> (r: Result<Vec<(String, HostInfo)>, ParseError>)
    ensures
        r is Ok <==> spec_load(text@) is Some,
        r matches Ok(hosts) ==> hosts_view(hosts@) == spec_load(text@)->Some_0
            && host_names_unique(hosts_view(hosts@)),
        r matches Err(e) ==> (e is Syntax <==> toml_doc(text@) is None),
{
    let table = match parse_toml_text(text) {
        Ok(t) => t,
        Err(m) => {
            return Err(ParseError::Syntax(m));
        },
    };
    let entries = table_entries(&table);
    let ghost doc = toml_table_rep(table);
    let mut out: Vec<(String, HostInfo)> = Vec::new();
    let mut k: usize = 0;
    while k < entries.len()
        invariant
            0 <= k <= entries@.len(),
            out@.len() == k,
            entries@.len() == doc.len(),
            forall|i: int|
                0 <= i < entries@.len() ==> (#[trigger] entries@[i]).0@ == doc[i].0
                    && toml_value_rep(*entries@[i].1) == doc[i].1,
            forall|i: int| 0 <= i < k ==> spec_host_of((#[trigger] doc[i]).1) is Some,
            forall|i: int|
                0 <= i < k ==> (#[trigger] out@[i]).0@ == doc[i].0 && out@[i].1@ == spec_host_of(
                    doc[i].1,
                )->Some_0,
        decreases entries@.len() - k,
    {
        let host = match host_from_value(entries[k].1) {
            Some(h) => h,
            None => {
                proof {
                    assert(spec_host_of(doc[k as int].1) is None);
                    assert(!spec_hosts_ok(doc));
                    assert(spec_load(text@) is None);
                }
                return Err(ParseError::Shape);
            },
        };
        let name = entries[k].0.clone();
        out.push((name, host));
        k += 1;
    }
    proof {
        assert(spec_hosts_ok(doc));
        assert(hosts_view(out@) =~= spec_hosts_of(doc)->Some_0);
        assert forall|i: int, j: int|
            0 <= i < j < hosts_view(out@).len() implies hosts_view(out@)[i].0 != hosts_view(
            out@,
        )[j].0 by {
            assert(entries@[i].0@ != entries@[j].0@);
        }
    }
    Ok(out)
}

} // verus!
