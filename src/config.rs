use vstd::prelude::*;

verus! {

/// Reconnection policy: exponential backoff between `base_delay` and
/// `max_delay` seconds, and a retry budget (`max_retries < 0` means unlimited).
#[derive(Clone, Copy, Debug, PartialEq, Eq, Structural)]
pub struct ConnectionConfig {
    pub base_delay: u64,
    pub max_delay: u64,
    pub max_retries: i32,
}

/// One collector endpoint as configured locally.
#[derive(Clone, Debug)]
pub struct Endpoint {
    pub name: String,
    pub server: String,
    pub secret: String,
    pub enabled: bool,
    /// Per-endpoint policy; the global one applies when absent.
    pub connection: Option<ConnectionConfig>,
}

/// The agent's configuration: the ordered endpoint list and the global policy.
#[derive(Clone, Debug)]
pub struct AppConfig {
    pub endpoints: Vec<Endpoint>,
    pub connection: ConnectionConfig,
}

pub struct EndpointView {
    pub name: Seq<char>,
    pub server: Seq<char>,
    pub secret: Seq<char>,
    pub enabled: bool,
    pub connection: Option<ConnectionConfig>,
}

pub struct AppConfigView {
    pub endpoints: Seq<EndpointView>,
    pub connection: ConnectionConfig,
}

impl View for Endpoint {
    type V = EndpointView;

    open spec fn view(&self) -> EndpointView {
        EndpointView {
            name: self.name@,
            server: self.server@,
            secret: self.secret@,
            enabled: self.enabled,
            connection: self.connection,
        }
    }
}

impl View for AppConfig {
    type V = AppConfigView;

    open spec fn view(&self) -> AppConfigView {
        AppConfigView {
            endpoints: self.endpoints@.map_values(|e: Endpoint| e@),
            connection: self.connection,
        }
    }
}

/// Why an edit of the endpoint list was refused.
#[derive(Clone, Copy, Debug, PartialEq, Eq, Structural)]
pub enum EditError {
    /// Another endpoint already has the requested name.
    AlreadyExists,
    /// No endpoint has the requested name.
    NotFound,
}

pub fn default_base_delay() -> (r: u64)
    ensures
        r == 1,
{
    1
}

pub fn default_max_delay() -> (r: u64)
    ensures
        r == 60,
{
    60
}

pub fn default_max_retries() -> (r: i32)
    ensures
        r == -1,
{
    -1
}

pub fn default_enabled() -> (r: bool)
    ensures
        r,
{
    true
}

pub open spec fn default_connection_spec() -> ConnectionConfig {
    ConnectionConfig { base_delay: 1, max_delay: 60, max_retries: -1i32 }
}

/// The global policy used when the configuration names none.
pub fn default_connection() -> (r: ConnectionConfig)
    ensures
        r == default_connection_spec(),
{
    ConnectionConfig {
        base_delay: default_base_delay(),
        max_delay: default_max_delay(),
        max_retries: default_max_retries(),
    }
}

pub open spec fn effective_connection_spec(e: EndpointView, global: ConnectionConfig) -> ConnectionConfig {
    match e.connection {
        Some(c) => c,
        None => global,
    }
}

/// Index of the first endpoint called `name`, if any.
pub open spec fn position_of(es: Seq<EndpointView>, name: Seq<char>) -> Option<int> {
    if exists|i: int| 0 <= i < es.len() && es[i].name == name {
        let i = choose|i: int|
            0 <= i < es.len() && es[i].name == name && forall|j: int|
                0 <= j < i ==> es[j].name != name;
        Some(i)
    } else {
        None
    }
}

pub fn str_eq(a: &str, b: &str) -> (r: bool)
    ensures
        r == (a@ == b@),
{
    a.to_owned() == b.to_owned()
}

fn option_connection_eq(a: &Option<ConnectionConfig>, b: &Option<ConnectionConfig>) -> (r: bool)
    ensures
        r == (*a == *b),
{
    match (a, b) {
        (Some(x), Some(y)) => *x == *y,
        (None, None) => true,
        _ => false,
    }
}

impl Endpoint {
    /// A fresh copy holding the same values.
    pub fn snapshot(&self) -> (r: Endpoint)
        ensures
            r@ == self@,
    {
        Endpoint {
            name: self.name.clone(),
            server: self.server.clone(),
            secret: self.secret.clone(),
            enabled: self.enabled,
            connection: self.connection,
        }
    }

    /// The endpoint's own policy, else `global`.
    pub fn effective_connection(&self, global: ConnectionConfig) -> (r: ConnectionConfig)
        ensures
            r == effective_connection_spec(self@, global),
    {
        match self.connection {
            Some(c) => c,
            None => global,
        }
    }
}

impl PartialEq for Endpoint {
    fn eq(&self, o: &Endpoint) -> (r: bool) {
        self.name == o.name && self.server == o.server && self.secret == o.secret && self.enabled
            == o.enabled && option_connection_eq(&self.connection, &o.connection)
    }
}

impl vstd::std_specs::cmp::PartialEqSpecImpl for Endpoint {
    open spec fn obeys_eq_spec() -> bool {
        true
    }

    open spec fn eq_spec(&self, o: &Endpoint) -> bool {
        self@ == o@
    }
}

impl PartialEq for AppConfig {
    fn eq(&self, o: &AppConfig) -> (r: bool) {
        if self.connection != o.connection || self.endpoints.len() != o.endpoints.len() {
            proof {
                if self.endpoints.len() != o.endpoints.len() {
                    assert(self@.endpoints.len() != o@.endpoints.len());
                }
            }
            return false;
        }
        let n = self.endpoints.len();
        let mut i: usize = 0;
        while i < n
            invariant
                n == self.endpoints.len(),
                n == o.endpoints.len(),
                i <= n,
                forall|j: int| 0 <= j < i ==> self@.endpoints[j] == o@.endpoints[j],
            decreases n - i,
        {
            if !(self.endpoints[i] == o.endpoints[i]) {
                assert(self@.endpoints[i as int] != o@.endpoints[i as int]);
                return false;
            }
            i = i + 1;
        }
        assert(self@.endpoints =~= o@.endpoints);
        true
    }
}

impl vstd::std_specs::cmp::PartialEqSpecImpl for AppConfig {
    open spec fn obeys_eq_spec() -> bool {
        true
    }

    open spec fn eq_spec(&self, o: &AppConfig) -> bool {
        self@ == o@
    }
}

/// `position_of` is the first index holding `name`.
pub proof fn lemma_position_of_first(es: Seq<EndpointView>, name: Seq<char>, i: int)
    requires
        0 <= i < es.len(),
        es[i].name == name,
        forall|j: int| 0 <= j < i ==> es[j].name != name,
    ensures
        position_of(es, name) == Some(i),
{
    let k = choose|k: int|
        0 <= k < es.len() && es[k].name == name && forall|j: int| 0 <= j < k ==> es[j].name != name;
    assert(0 <= k < es.len() && es[k].name == name && forall|j: int|
        0 <= j < k ==> es[j].name != name);
    if k < i {
        assert(es[k].name != name);
    }
    if k > i {
        assert(es[i].name != name);
    }
}

pub open spec fn with_enabled(e: EndpointView, enabled: bool) -> EndpointView {
    EndpointView { enabled: enabled, ..e }
}

pub open spec fn new_endpoint_spec(
    name: Seq<char>,
    server: Seq<char>,
    secret: Seq<char>,
    enabled: bool,
) -> EndpointView {
    EndpointView { name, server, secret, enabled, connection: None }
}

impl AppConfig {
    /// Index of the first endpoint called `name`.
    pub fn find_endpoint(&self, name: &str) -> (r: Option<usize>)
        ensures
            match position_of(self@.endpoints, name@) {
                Some(k) => 0 <= k < self@.endpoints.len() && r is Some && r->0 == k,
                None => r is None,
            },
    {
        let target = name.to_owned();
        let n = self.endpoints.len();
        let mut i: usize = 0;
        while i < n
            invariant
                n == self.endpoints.len(),
                i <= n,
                target@ == name@,
                forall|j: int| 0 <= j < i ==> self@.endpoints[j].name != name@,
            decreases n - i,
        {
            if self.endpoints[i].name == target {
                proof {
                    lemma_position_of_first(self@.endpoints, name@, i as int);
                }
                return Some(i);
            }
            i = i + 1;
        }
        None
    }

    /// Appends a new endpoint with no policy of its own, unless the name is taken.
    pub fn add_endpoint(
        &mut self,
        name: String,
        server: String,
        secret: String,
        enabled: bool,
    ) -> (r: Result<(), EditError>)
        ensures
            position_of(old(self)@.endpoints, name@) is Some ==> r == Err::<(), EditError>(
                EditError::AlreadyExists,
            ) && final(self)@ == old(self)@,
            position_of(old(self)@.endpoints, name@) is None ==> r == Ok::<(), EditError>(())
                && final(self)@.connection == old(self)@.connection && final(self)@.endpoints
                == old(self)@.endpoints.push(
                new_endpoint_spec(name@, server@, secret@, enabled),
            ),
    {
        if self.find_endpoint(name.as_str()).is_some() {
            return Err(EditError::AlreadyExists);
        }
        let e = Endpoint { name, server, secret, enabled, connection: None };
        self.endpoints.push(e);
        proof {
            assert(self@.endpoints =~= old(self)@.endpoints.push(e@));
        }
        Ok(())
    }

    /// Removes the first endpoint called `name`.
    pub fn remove_endpoint(&mut self, name: &str) -> (r: Result<(), EditError>)
        ensures
            match position_of(old(self)@.endpoints, name@) {
                Some(i) => r == Ok::<(), EditError>(()) && final(self)@.connection == old(
                    self,
                )@.connection && final(self)@.endpoints == old(self)@.endpoints.remove(i),
                None => r == Err::<(), EditError>(EditError::NotFound) && final(self)@ == old(
                    self,
                )@,
            },
    {
        match self.find_endpoint(name) {
            Some(i) => {
                let ghost before = self@.endpoints;
                self.endpoints.remove(i);
                proof {
                    assert(self@.endpoints =~= before.remove(i as int));
                }
                Ok(())
            },
            None => Err(EditError::NotFound),
        }
    }

    /// Sets the `enabled` flag of the first endpoint called `name`.
    pub fn set_enabled(&mut self, name: &str, enabled: bool) -> (r: Result<(), EditError>)
        ensures
            match position_of(old(self)@.endpoints, name@) {
                Some(i) => r == Ok::<(), EditError>(()) && final(self)@.connection == old(
                    self,
                )@.connection && final(self)@.endpoints == old(self)@.endpoints.update(
                    i,
                    with_enabled(old(self)@.endpoints[i], enabled),
                ),
                None => r == Err::<(), EditError>(EditError::NotFound) && final(self)@ == old(
                    self,
                )@,
            },
    {
        match self.find_endpoint(name) {
            Some(i) => {
                let mut e = self.endpoints[i].snapshot();
                e.enabled = enabled;
                self.endpoints.set(i, e);
                proof {
                    assert(self@.endpoints =~= old(self)@.endpoints.update(
                        i as int,
                        with_enabled(old(self)@.endpoints[i as int], enabled),
                    ));
                }
                Ok(())
            },
            None => Err(EditError::NotFound),
        }
    }
}

} // verus!
