use vstd::prelude::*;

use vstd::string::StringExecFns;

use crate::error::MatrixAPIError;

verus! {

/// How to reach one homeserver.
#[derive(Debug)]
pub struct ServerConfig {
    pub server_name: String,
    pub server_url: String,
    /// The reference under which the secret store keeps the access token.
    pub pass_access_token: String,
}

/// The settings of the config file: a default profile name and the named
/// server profiles. Names are unique; the default need not name a profile.
#[derive(Debug)]
pub struct Config {
    default_server: String,
    servers: Vec<(String, ServerConfig)>,
}

/// What a resolution yields: the profile, or the name that matched none.
pub open spec fn resolve(
    servers: Map<Seq<char>, ServerConfig>,
    name: Seq<char>,
) -> Result<ServerConfig, Seq<char>> {
    if servers.contains_key(name) {
        Ok(servers[name])
    } else {
        Err(name)
    }
}

/// The name that a request resolves: the one given, else the default.
pub open spec fn requested_name(default_server: Seq<char>, server: Option<&str>) -> Seq<char> {
    match server {
        Some(s) => s@,
        None => default_server,
    }
}

/// A profile stored under a name resolves to exactly that profile.
pub proof fn lemma_stored_profile_resolves(
    servers: Map<Seq<char>, ServerConfig>,
    name: Seq<char>,
    profile: ServerConfig,
)
    requires
        servers.contains_key(name),
        servers[name] == profile,
    ensures
        resolve(servers, name) == Ok::<ServerConfig, Seq<char>>(profile),
{
}

/// A name that no profile has fails, and the failure carries that name.
pub proof fn lemma_absent_name_fails(servers: Map<Seq<char>, ServerConfig>, name: Seq<char>)
    requires
        !servers.contains_key(name),
    ensures
        resolve(servers, name) == Err::<ServerConfig, Seq<char>>(name),
{
}

fn copy_profile(p: &ServerConfig) -> (r: ServerConfig)
    ensures
        r == *p,
{
    ServerConfig {
        server_name: p.server_name.clone(),
        server_url: p.server_url.clone(),
        pass_access_token: p.pass_access_token.clone(),
    }
}

impl Config {
    /// Profile names are unique.
    pub closed spec fn wf(&self) -> bool {
        forall|i: int, j: int|
            0 <= i < j < self.servers@.len() ==> #[trigger] self.servers@[i].0@
                != #[trigger] self.servers@[j].0@
    }

    pub closed spec fn default_name(&self) -> Seq<char> {
        self.default_server@
    }

    /// The profiles by name.
    pub closed spec fn profiles(&self) -> Map<Seq<char>, ServerConfig> {
        Map::new(
            |k: Seq<char>| exists|i: int| 0 <= i < self.servers@.len() && self.servers@[i].0@ == k,
            |k: Seq<char>|
                self.servers@[choose|i: int| 0 <= i < self.servers@.len() && self.servers@[i].0@ == k].1,
        )
    }

    proof fn lemma_profile_at(&self, i: int)
        requires
            self.wf(),
            0 <= i < self.servers@.len(),
        ensures
            self.profiles().contains_key(self.servers@[i].0@),
            self.profiles()[self.servers@[i].0@] == self.servers@[i].1,
    {
        let k = self.servers@[i].0@;
        assert(self.profiles().contains_key(k));
        let j = choose|j: int| 0 <= j < self.servers@.len() && self.servers@[j].0@ == k;
        assert(i == j);
    }

    /// A config with the given default name and no profiles.
    pub fn new(default_server: String) -> (r: Config)
        ensures
            r.wf(),
            r.default_name() == default_server@,
            r.profiles() == Map::<Seq<char>, ServerConfig>::empty(),
    {
        let r = Config { default_server, servers: Vec::new() };
        assert(r.profiles() =~= Map::<Seq<char>, ServerConfig>::empty());
        r
    }

    pub fn default_server(&self) -> (r: &String)
        ensures
            r@ == self.default_name(),
    {
        &self.default_server
    }

    /// Position of the profile named `name`, if there is one.
    fn position(&self, name: &String) -> (r: Option<usize>)
        requires
            self.wf(),
        ensures
            match r {
                Some(i) => i < self.servers@.len() && self.servers@[i as int].0@ == name@,
                None => !self.profiles().contains_key(name@),
            },
    {
        let mut i: usize = 0;
        while i < self.servers.len()
            invariant
                i <= self.servers@.len(),
                forall|j: int| 0 <= j < i ==> self.servers@[j].0@ != name@,
            decreases self.servers@.len() - i,
        {
            if self.servers[i].0 == *name {
                return Some(i);
            }
            i = i + 1;
        }
        None
    }

    /// Adds the profile `profile` under `name`, in place of any profile that
    /// had that name.
    pub fn insert_server(&mut self, name: String, profile: ServerConfig)
        requires
            old(self).wf(),
        ensures
            final(self).wf(),
            final(self).default_name() == old(self).default_name(),
            final(self).profiles() == old(self).profiles().insert(name@, profile),
    {
        let ghost before = self.profiles();
        let ghost k = name@;
        match self.position(&name) {
            Some(i) => {
                self.servers.set(i, (name, profile));
                assert(self.wf());
                assert forall|key: Seq<char>| #[trigger] self.profiles().contains_key(key)
                    <==> before.insert(k, profile).contains_key(key) by {
                    if before.contains_key(key) {
                        let j = choose|j: int| 0 <= j < old(self).servers@.len() && old(self).servers@[j].0@ == key;
                        assert(self.servers@[j].0@ == key);
                    }
                    if self.profiles().contains_key(key) {
                        let j = choose|j: int| 0 <= j < self.servers@.len() && self.servers@[j].0@ == key;
                        if j != i {
                            assert(old(self).servers@[j].0@ == key);
                        }
                    }
                }
                assert forall|key: Seq<char>| #[trigger] self.profiles().contains_key(key)
                    implies self.profiles()[key] == before.insert(k, profile)[key] by {
                    let j = choose|j: int| 0 <= j < self.servers@.len() && self.servers@[j].0@ == key;
                    self.lemma_profile_at(j);
                    if j != i {
                        old(self).lemma_profile_at(j);
                    }
                }
                assert(self.profiles() =~= before.insert(k, profile));
            },
            None => {
                self.servers.push((name, profile));
                let n = self.servers.len() - 1;
                assert(self.wf());
                assert forall|key: Seq<char>| #[trigger] self.profiles().contains_key(key)
                    <==> before.insert(k, profile).contains_key(key) by {
                    if before.contains_key(key) {
                        let j = choose|j: int| 0 <= j < old(self).servers@.len() && old(self).servers@[j].0@ == key;
                        assert(self.servers@[j].0@ == key);
                    }
                    if key == k {
                        assert(self.servers@[n as int].0@ == key);
                    }
                    if self.profiles().contains_key(key) {
                        let j = choose|j: int| 0 <= j < self.servers@.len() && self.servers@[j].0@ == key;
                        if j != n {
                            assert(old(self).servers@[j].0@ == key);
                        }
                    }
                }
                assert forall|key: Seq<char>| #[trigger] self.profiles().contains_key(key)
                    implies self.profiles()[key] == before.insert(k, profile)[key] by {
                    let j = choose|j: int| 0 <= j < self.servers@.len() && self.servers@[j].0@ == key;
                    self.lemma_profile_at(j);
                    if j != n {
                        old(self).lemma_profile_at(j);
                    }
                }
                assert(self.profiles() =~= before.insert(k, profile));
            },
        }
    }
}

/// Picks the profile named `server`, or the default profile where no name is
/// given. Fails with `ServerNotDefined`, carrying the name, where no profile
/// has it.
pub fn get_server_config(config: &Config, server: Option<&str>) -> (r: Result<ServerConfig, MatrixAPIError>)
    requires
        config.wf(),
    ensures
        match resolve(config.profiles(), requested_name(config.default_name(), server)) {
            Ok(p) => r == Ok::<ServerConfig, MatrixAPIError>(p),
            Err(name) => r matches Err(MatrixAPIError::ServerNotDefined(n)) && n@ == name,
        },
{
    let name = match server {
        Some(s) => String::from_str(s),
        None => config.default_server.clone(),
    };
    match config.position(&name) {
        Some(i) => {
            proof {
                config.lemma_profile_at(i as int);
            }
            Ok(copy_profile(&config.servers[i].1))
        },
        None => Err(MatrixAPIError::ServerNotDefined(name)),
    }
}

} // verus!
