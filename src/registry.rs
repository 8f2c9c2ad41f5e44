//! The service registry: the container name each service of the manifest
//! resolves to, by the service's position in the manifest.
use crate::name_map::{name_entries, name_map_insert, name_map_new};
use indexmap::IndexMap;
use vstd::prelude::*;

verus! {

/// One service of the manifest: its key and the container name it sets, if
/// it sets one.
pub struct ServiceSpec {
    pub name: String,
    pub container_name: Option<String>,
}

/// The container name of a service: the name the manifest sets, else
/// `{project}-{service}-1`.
pub open spec fn resolved_name(project: Seq<char>, service: Seq<char>, explicit: Option<Seq<char>>) -> Seq<char> {
    match explicit {
        Some(n) => n,
        None => project + "-"@ + service + "-1"@,
    }
}

pub open spec fn spec_resolved(project: Seq<char>, s: ServiceSpec) -> Seq<char> {
    resolved_name(project, s.name@, match s.container_name {
        Some(n) => Some(n@),
        None => None,
    })
}

/// The container name that `service` runs under in `project`.
pub fn resolve_container_name(project: &str, service: &ServiceSpec) -> (r: String)
    ensures
        r@ == spec_resolved(project@, *service),
{
    match &service.container_name {
        Some(n) => n.clone(),
        None => {
            let mut r = String::from_str(project);
            r.append("-");
            r.append(service.name.as_str());
            r.append("-1");
            r
        },
    }
}

/// The registry as a map: index `i` holds the container name of the `i`th
/// service.
pub open spec fn spec_registry(project: Seq<char>, services: Seq<ServiceSpec>) -> Map<usize, Seq<char>> {
    Map::new(|k: usize| k < services.len(), |k: usize| spec_resolved(project, services[k as int]))
}

/// Maps each service's position in the manifest to its container name.
pub fn container_name_mapping(project: &str, services: &Vec<ServiceSpec>) -> (r: IndexMap<usize, String>)
    ensures
        name_entries(r) == spec_registry(project@, services@),
{
    let mut m = name_map_new();
    let mut i: usize = 0;
    while i < services.len()
        invariant
            i <= services.len(),
            name_entries(m) == spec_registry(project@, services@.take(i as int)),
        decreases services.len() - i,
    {
        let name = resolve_container_name(project, &services[i]);
        name_map_insert(&mut m, i, name);
        i = i + 1;
        assert(name_entries(m) =~= spec_registry(project@, services@.take(i as int)));
    }
    assert(services@.take(i as int) =~= services@);
    m
}

/// A container name as the engine lists it, without the leading path
/// separators.
pub open spec fn without_leading_slashes(s: Seq<char>) -> Seq<char>
    decreases s.len(),
{
    if s.len() > 0 && s[0] == '/' {
        without_leading_slashes(s.drop_first())
    } else {
        s
    }
}

/// Strips the leading `/` characters of a listed container name.
pub fn trim_container_name(name: &str) -> (r: String)
    ensures
        r@ == without_leading_slashes(name@),
{
    let len = name.unicode_len();
    let mut i: usize = 0;
    assert(name@.subrange(0, len as int) =~= name@);
    while i < len && name.get_char(i) == '/'
        invariant
            len == name@.len(),
            i <= len,
            without_leading_slashes(name@) == without_leading_slashes(name@.subrange(i as int, len as int)),
        decreases len - i,
    {
        assert(name@.subrange(i as int, len as int).drop_first() =~= name@.subrange(i as int + 1, len as int));
        i = i + 1;
    }
    String::from_str(name.substring_char(i, len))
}

/// The names of the running containers, from the names the engine lists.
pub fn running_names(listed: &Vec<String>) -> (r: Vec<String>)
    ensures
        r@.len() == listed@.len(),
        forall|k: int| 0 <= k < listed@.len() ==> #[trigger] r@[k]@ == without_leading_slashes(listed@[k]@),
{
    let mut r: Vec<String> = Vec::new();
    let mut i: usize = 0;
    while i < listed.len()
        invariant
            i <= listed@.len(),
            r@.len() == i,
            forall|k: int| 0 <= k < i ==> #[trigger] r@[k]@ == without_leading_slashes(listed@[k]@),
        decreases listed@.len() - i,
    {
        r.push(trim_container_name(listed[i].as_str()));
        i = i + 1;
    }
    r
}

} // verus!
