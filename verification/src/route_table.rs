use crate::config::{Config, RouteConfig, ServiceConfig};
use vstd::prelude::*;
use vstd::utf8::encode_utf8;

verus! {

/// The UTF-8 bytes of a string, the representation on which Rust's
/// `str::starts_with` compares.
pub open spec fn str_bytes(s: Seq<char>) -> Seq<u8> {
    encode_utf8(s)
}

/// Route-prefix semantics: a rule with path prefix `prefix` matches a
/// request path exactly when the bytes of `prefix` are a prefix of the bytes
/// of the path. This is a raw substring test, not a path-segment test: a
/// prefix `"/api"` also matches `"/apiary"`. The literal behavior is kept
/// deliberately for compatibility.
pub open spec fn prefix_matches(prefix: Seq<char>, path: Seq<char>) -> bool {
    str_bytes(prefix).is_prefix_of(str_bytes(path))
}

/// Byte-wise prefix test between two strings.
fn starts_with(path: &str, prefix: &str) -> (r: bool)
    ensures
        r == prefix_matches(prefix@, path@),
{
    let pb: &[u8] = path.as_bytes();
    let qb: &[u8] = prefix.as_bytes();
    if qb.len() > pb.len() {
        return false;
    }
    let n: usize = qb.len();
    let mut i: usize = 0;
    while i < n
        invariant
            n == qb@.len(),
            n <= pb@.len(),
            i <= n,
            pb@ == str_bytes(path@),
            qb@ == str_bytes(prefix@),
            forall|j: int| 0 <= j < i ==> qb@[j] == pb@[j],
        decreases n - i,
    {
        if qb[i] != pb[i] {
            assert(!prefix_matches(prefix@, path@)) by {
                if str_bytes(prefix@).is_prefix_of(str_bytes(path@)) {
                    assert(str_bytes(prefix@)[i as int]
                        == str_bytes(path@).subrange(0, n as int)[i as int]);
                }
            }
            return false;
        }
        i += 1;
    }
    assert(qb@ =~= pb@.subrange(0, n as int));
    true
}

/// The index of the first route in table order whose prefix matches `path`,
/// if any. This is the table's precedence rule: earlier entries win.
pub open spec fn spec_first_match(routes: Seq<RouteConfig>, path: Seq<char>) -> Option<int>
    decreases routes.len(),
{
    if routes.len() == 0 {
        None
    } else if prefix_matches(routes[0].path@, path) {
        Some(0int)
    } else {
        match spec_first_match(routes.drop_first(), path) {
            Some(i) => Some(i + 1),
            None => None,
        }
    }
}

/// What `spec_first_match` returns, spelled out: a matching index before
/// which nothing matches, or a guarantee that nothing matches at all.
pub proof fn lemma_first_match_characterization(routes: Seq<RouteConfig>, path: Seq<char>)
    ensures
        match spec_first_match(routes, path) {
            Some(i) => 0 <= i < routes.len() && prefix_matches(routes[i].path@, path)
                && forall|j: int| 0 <= j < i ==> !prefix_matches(routes[j].path@, path),
            None => forall|j: int|
                0 <= j < routes.len() ==> !prefix_matches(routes[j].path@, path),
        },
    decreases routes.len(),
{
    if routes.len() == 0 {
    } else if prefix_matches(routes[0].path@, path) {
    } else {
        lemma_first_match_characterization(routes.drop_first(), path);
        assert forall|j: int| 1 <= j < routes.len() implies
            routes.drop_first()[j - 1] == routes[j] by {}
    }
}

/// First-match-wins: a route that matches, with no earlier match, is the
/// route the table selects.
pub proof fn lemma_first_match_wins(routes: Seq<RouteConfig>, path: Seq<char>, i: int)
    requires
        0 <= i < routes.len(),
        prefix_matches(routes[i].path@, path),
        forall|j: int| 0 <= j < i ==> !prefix_matches(routes[j].path@, path),
    ensures
        spec_first_match(routes, path) == Some(i),
    decreases routes.len(),
{
    if i == 0 {
    } else {
        assert(!prefix_matches(routes[0].path@, path));
        assert forall|j: int| 1 <= j < routes.len() implies
            routes.drop_first()[j - 1] == routes[j] by {}
        lemma_first_match_wins(routes.drop_first(), path, i - 1);
    }
}

/// A table where nothing matches selects nothing.
pub proof fn lemma_first_match_none(routes: Seq<RouteConfig>, path: Seq<char>)
    requires
        forall|j: int| 0 <= j < routes.len() ==> !prefix_matches(routes[j].path@, path),
    ensures
        spec_first_match(routes, path) is None,
    decreases routes.len(),
{
    if routes.len() == 0 {
    } else {
        assert forall|j: int| 1 <= j < routes.len() implies
            routes.drop_first()[j - 1] == routes[j] by {}
        lemma_first_match_none(routes.drop_first(), path);
    }
}

/// The descriptor the service map associates with `name`: the first entry
/// carrying that name, if any.
pub open spec fn spec_lookup(
    services: Seq<(String, ServiceConfig)>,
    name: Seq<char>,
) -> Option<ServiceConfig>
    decreases services.len(),
{
    if services.len() == 0 {
        None
    } else if services[0].0@ == name {
        Some(services[0].1)
    } else {
        spec_lookup(services.drop_first(), name)
    }
}

/// A name whose first occurrence in the map is at index `k` resolves to the
/// descriptor stored there.
pub proof fn lemma_lookup_found(
    services: Seq<(String, ServiceConfig)>,
    name: Seq<char>,
    k: int,
)
    requires
        0 <= k < services.len(),
        services[k].0@ == name,
        forall|j: int| 0 <= j < k ==> services[j].0@ != name,
    ensures
        spec_lookup(services, name) == Some(services[k].1),
    decreases services.len(),
{
    if k == 0 {
    } else {
        assert(services[0].0@ != name);
        assert forall|j: int| 1 <= j < services.len() implies
            services.drop_first()[j - 1] == services[j] by {}
        lemma_lookup_found(services.drop_first(), name, k - 1);
    }
}

/// A name that no entry carries does not resolve.
pub proof fn lemma_lookup_absent(services: Seq<(String, ServiceConfig)>, name: Seq<char>)
    requires
        forall|j: int| 0 <= j < services.len() ==> services[j].0@ != name,
    ensures
        spec_lookup(services, name) is None,
    decreases services.len(),
{
    if services.len() == 0 {
    } else {
        assert forall|j: int| 1 <= j < services.len() implies
            services.drop_first()[j - 1] == services[j] by {}
        lemma_lookup_absent(services.drop_first(), name);
    }
}

/// The error a table construction ends in when a rule references a service
/// name the service map does not carry.
#[derive(Clone, Debug)]
pub enum ConfigError {
    UnknownService { service: String },
}

/// The error a service lookup ends in when the name is absent from the map.
#[derive(Clone, Debug, PartialEq, Eq)]
pub enum RouterError {
    ServiceNotFound,
}

/// An immutable routing registry: the ordered rule table and the service
/// map, validated at build time and never mutated afterwards.
#[derive(Clone, Debug)]
pub struct RouteTable {
    pub routes: Vec<RouteConfig>,
    pub services: Vec<(String, ServiceConfig)>,
}

/// Finds the first entry named `name` in a service map.
fn lookup_in<'a>(
    services: &'a Vec<(String, ServiceConfig)>,
    name: &String,
) -> (r: Result<&'a ServiceConfig, RouterError>)
    ensures
        match r {
            Ok(s) => spec_lookup(services@, name@) == Some(*s),
            Err(e) => spec_lookup(services@, name@) is None && e == RouterError::ServiceNotFound,
        },
{
    let n: usize = services.len();
    let mut k: usize = 0;
    while k < n
        invariant
            n == services@.len(),
            k <= n,
            forall|j: int| 0 <= j < k ==> services@[j].0@ != name@,
        decreases n - k,
    {
        if services[k].0 == *name {
            proof {
                lemma_lookup_found(services@, name@, k as int);
            }
            return Ok(&services[k].1);
        }
        k += 1;
    }
    proof {
        lemma_lookup_absent(services@, name@);
    }
    Err(RouterError::ServiceNotFound)
}

impl RouteTable {
    /// Every rule's service name resolves in the service map. `build`
    /// establishes this; it cannot be broken later because the table is
    /// never mutated.
    pub open spec fn wf(&self) -> bool {
        forall|j: int|
            0 <= j < self.routes@.len()
                ==> spec_lookup(self.services@, self.routes@[j].service@) is Some
    }

    /// Builds the registry from a configuration snapshot. Succeeds exactly
    /// when every rule references a known service; otherwise reports the
    /// first rule whose service name is unknown, and no table exists.
    pub fn build(config: Config) -> (r: Result<RouteTable, ConfigError>)
        ensures
            match r {
                Ok(t) => t.routes == config.routes && t.services == config.services && t.wf(),
                Err(e) => {
                    &&& exists|j: int|
                        0 <= j < config.routes@.len()
                            && spec_lookup(config.services@, config.routes@[j].service@) is None
                    &&& match e {
                        ConfigError::UnknownService { service } => exists|j: int|
                            {
                                &&& 0 <= j < config.routes@.len()
                                &&& spec_lookup(
                                    config.services@,
                                    config.routes@[j].service@,
                                ) is None
                                &&& service@ == config.routes@[j].service@
                                &&& forall|j2: int|
                                    0 <= j2 < j ==> spec_lookup(
                                        config.services@,
                                        config.routes@[j2].service@,
                                    ) is Some
                            },
                    }
                },
            },
    {
        let n: usize = config.routes.len();
        let mut j: usize = 0;
        while j < n
            invariant
                n == config.routes@.len(),
                j <= n,
                forall|j2: int|
                    0 <= j2 < j ==> spec_lookup(
                        config.services@,
                        config.routes@[j2].service@,
                    ) is Some,
            decreases n - j,
        {
            match lookup_in(&config.services, &config.routes[j].service) {
                Ok(_) => {},
                Err(_) => {
                    return Err(ConfigError::UnknownService {
                        service: config.routes[j].service.clone(),
                    });
                },
            }
            j += 1;
        }
        Ok(RouteTable { routes: config.routes, services: config.services })
    }

    /// Scans the rules in table order and returns the index of the first
    /// whose prefix matches `path`, or `None` when no rule matches.
    pub fn find_match(&self, path: &str) -> (r: Option<usize>)
        ensures
            match r {
                Some(i) => i < self.routes@.len() && spec_first_match(self.routes@, path@)
                    == Some(i as int),
                None => spec_first_match(self.routes@, path@) is None,
            },
    {
        let n: usize = self.routes.len();
        let mut i: usize = 0;
        while i < n
            invariant
                n == self.routes@.len(),
                i <= n,
                forall|j: int| 0 <= j < i ==> !prefix_matches(self.routes@[j].path@, path@),
            decreases n - i,
        {
            if starts_with(path, self.routes[i].path.as_str()) {
                proof {
                    lemma_first_match_wins(self.routes@, path@, i as int);
                }
                return Some(i);
            }
            i += 1;
        }
        proof {
            lemma_first_match_none(self.routes@, path@);
        }
        None
    }

    /// Resolves a service name to its descriptor; total for defensive use,
    /// failing with `ServiceNotFound` exactly when the name is absent.
    pub fn lookup<'a>(&'a self, name: &String) -> (r: Result<&'a ServiceConfig, RouterError>)
        ensures
            match r {
                Ok(s) => spec_lookup(self.services@, name@) == Some(*s),
                Err(e) => spec_lookup(self.services@, name@) is None && e
                    == RouterError::ServiceNotFound,
            },
    {
        lookup_in(&self.services, name)
    }
}

} // verus!

