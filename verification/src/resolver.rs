//! Resolution of a service's fully-qualified domain name from its own
//! annotations and those of its namespace.

use crate::annotations::Annotations;
use vstd::prelude::*;
use vstd::string::StringExecFns;

verus! {

/// The annotation key that carries the domain part of a name.
pub const DOMAIN_KEY: &'static str = "fqdn.domain";

/// The annotation key that carries the top-level part of a name.
pub const TLD_KEY: &'static str = "fqdn.tld";

/// The value that applies to a service for `key`: the service's own value if
/// it has one, else the value of its namespace, else none.
pub open spec fn inherited(
    namespace: Map<Seq<char>, Seq<char>>,
    service: Map<Seq<char>, Seq<char>>,
    key: Seq<char>,
) -> Option<Seq<char>> {
    if service.contains_key(key) {
        Some(service[key])
    } else if namespace.contains_key(key) {
        Some(namespace[key])
    } else {
        None
    }
}

/// The name made of a domain and a top-level part: the two joined by a dot.
pub open spec fn joined(domain: Seq<char>, tld: Seq<char>) -> Seq<char> {
    domain + seq!['.'] + tld
}

/// The name of a service, given the annotations of its namespace and its own.
/// There is one exactly when both parts can be found; each part is looked up on
/// its own, first on the service and then on the namespace.
pub open spec fn resolved_fqdn(
    namespace: Map<Seq<char>, Seq<char>>,
    service: Map<Seq<char>, Seq<char>>,
) -> Option<Seq<char>> {
    match (inherited(namespace, service, DOMAIN_KEY@), inherited(namespace, service, TLD_KEY@)) {
        (Some(domain), Some(tld)) => Some(joined(domain, tld)),
        _ => None,
    }
}

/// What an optional string stands for in contracts.
pub open spec fn text(value: Option<String>) -> Option<Seq<char>> {
    match value {
        Some(s) => Some(s@),
        None => None,
    }
}

/// Looks `key` up on the service first and on the namespace second.
fn lookup<'a>(namespace: &'a Annotations, service: &'a Annotations, key: &str) -> (value: Option<
    &'a String,
>)
    ensures
        match value {
            Some(v) => inherited(namespace@, service@, key@) == Some(v@),
            None => inherited(namespace@, service@, key@) is None,
        },
{
    match service.get(key) {
        Some(v) => Some(v),
        None => namespace.get(key),
    }
}

/// Resolves the fully-qualified domain name of a service.
///
/// The values are taken as they are: nothing is checked about their form, and
/// an empty value counts as present.
pub fn resolve(namespace: &Annotations, service: &Annotations) -> (fqdn: Option<String>)
    ensures
        text(fqdn) == resolved_fqdn(namespace@, service@),
        fqdn is Some <==> inherited(namespace@, service@, DOMAIN_KEY@) is Some && inherited(
            namespace@,
            service@,
            TLD_KEY@,
        ) is Some,
{
    let domain = lookup(namespace, service, DOMAIN_KEY);
    let tld = lookup(namespace, service, TLD_KEY);
    match (domain, tld) {
        (Some(domain), Some(tld)) => {
            let mut name = domain.clone();
            name.append(".");
            name.append(tld.as_str());
            proof {
                reveal_strlit(".");
            }
            Some(name)
        },
        _ => None,
    }
}

} // verus!
