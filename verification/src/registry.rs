//! The shared server and client handles, owned by one registry object the
//! application's composition root passes around. Both are created lazily
//! and at most once; the driver guards the registry with a lock it releases
//! before any network call, and the decisions — when to create, what to
//! connect to, what a missing handle means — are made here.

use vstd::prelude::*;

use crate::config::spec_resolve_port;
use crate::config::resolve_port;
use crate::errors::StoreError;
use crate::text::{spec_digits_of, u16_to_string};

verus! {

/// The supervised external server process: its port, data directory and the
/// runtime it was launched with. `running` models whether the underlying
/// process handle is still held.
#[derive(Debug, Clone, PartialEq)]
pub struct ChromaDBServer {
    pub port: u16,
    pub data_dir: String,
    pub runtime: String,
    pub running: bool,
}

impl ChromaDBServer {
    /// The handle for a server that has just been spawned and passed its
    /// health check.
    pub fn started(port: u16, data_dir: String, runtime: String) -> (r: ChromaDBServer)
        ensures
            r.port == port,
            r.data_dir@ == data_dir@,
            r.runtime@ == runtime@,
            r.running,
    {
        ChromaDBServer { port, data_dir, runtime, running: true }
    }

    /// The port the server listens on.
    pub fn port(&self) -> (r: u16)
        ensures
            r == self.port,
    {
        self.port
    }

    /// The data directory the server stores its collections under.
    pub fn data_dir(&self) -> (r: &String)
        ensures
            r@ == self.data_dir@,
    {
        &self.data_dir
    }

    /// Marks the server stopped and says whether the driver must kill the
    /// underlying process: only on the first stop; stopping an already
    /// stopped handle is a no-op.
    pub fn stop(&mut self) -> (kill: bool)
        ensures
            !final(self).running,
            kill == old(self).running,
            final(self).port == old(self).port,
            final(self).data_dir@ == old(self).data_dir@,
            final(self).runtime@ == old(self).runtime@,
    {
        let was_running = self.running;
        self.running = false;
        was_running
    }
}

/// An active connection to the server at a port, always carrying the
/// explicit non-empty default namespace.
#[derive(Debug, Clone, PartialEq)]
pub struct ClientHandle {
    pub port: u16,
    pub database: String,
}

/// The parameters a client connection is built with: the local URL for the
/// port, and the explicit non-empty default namespace — the client library
/// mishandles an empty namespace as if it were an empty list, so the
/// default must always be supplied.
pub fn client_connect_params(port: u16) -> (r: (String, String))
    ensures
        r.0@ == "http://localhost:"@ + spec_digits_of(port as nat),
        r.1@ == "default_database"@,
        r.1@.len() > 0,
{
    let url = String::from_str("http://localhost:").concat(u16_to_string(port).as_str());
    let database = "default_database".to_owned();
    proof {
        reveal_strlit("default_database");
    }
    (url, database)
}

/// What an operation must do before it can reach the server: nothing, build
/// a client for the already-running server, or start the whole stack first.
#[derive(Clone, Debug, PartialEq, Eq, Structural)]
pub enum EnsurePlan {
    Ready,
    InitClientOnly { port: u16 },
    StartServer { port: u16 },
}

/// The registry of the two shared handles. At most one of each exists per
/// application instance.
#[derive(Debug)]
pub struct Registry {
    server: Option<ChromaDBServer>,
    client: Option<ClientHandle>,
}

impl Registry {
    /// The held server handle.
    pub closed spec fn spec_server(&self) -> Option<ChromaDBServer> {
        self.server
    }

    /// The held client handle.
    pub closed spec fn spec_client(&self) -> Option<ClientHandle> {
        self.client
    }

    /// Well-formed: a held client always carries the non-empty default
    /// namespace.
    pub open spec fn wf(&self) -> bool {
        match self.spec_client() {
            Option::Some(h) => h.database@ == "default_database"@,
            Option::None => true,
        }
    }

    /// An empty registry: nothing has been initialized.
    pub fn new() -> (r: Registry)
        ensures
            r.wf(),
            r.spec_server() is None,
            r.spec_client() is None,
    {
        Registry { server: Option::None, client: Option::None }
    }

    /// Whether the server has been initialized.
    pub fn server_initialized(&self) -> (r: bool)
        ensures
            r == (self.spec_server() is Some),
    {
        match &self.server {
            Option::Some(_) => true,
            Option::None => false,
        }
    }

    /// The running server's port, if a server is held.
    pub fn server_port(&self) -> (r: Option<u16>)
        ensures
            match self.spec_server() {
                Option::Some(s) => r == Option::Some(s.port),
                Option::None => r is None,
            },
    {
        match &self.server {
            Option::Some(s) => Option::Some(s.port),
            Option::None => Option::None,
        }
    }

    /// Installs a freshly started server handle. Initialization is lazy and
    /// happens at most once: when a server is already held, the registry is
    /// left untouched and the caller learns it lost the race.
    pub fn install_server(&mut self, s: ChromaDBServer) -> (installed: bool)
        ensures
            final(self).spec_client() == old(self).spec_client(),
            match old(self).spec_server() {
                Option::Some(_) => !installed && final(self).spec_server() == old(
                    self,
                ).spec_server(),
                Option::None => installed && final(self).spec_server() == Option::Some(s),
            },
    {
        match &self.server {
            Option::Some(_) => false,
            Option::None => {
                self.server = Option::Some(s);
                true
            },
        }
    }

    /// Takes the server handle out for stopping; the registry then holds no
    /// server.
    pub fn take_server(&mut self) -> (r: Option<ChromaDBServer>)
        ensures
            final(self).spec_server() is None,
            final(self).spec_client() == old(self).spec_client(),
            r == old(self).spec_server(),
    {
        self.server.take()
    }

    /// Records the client for the server at `port`. Initialization is lazy
    /// and idempotent: an already-held client is kept, and a new one always
    /// carries the explicit default namespace.
    pub fn init_client(&mut self, port: u16) -> (created: bool)
        requires
            old(self).wf(),
        ensures
            final(self).wf(),
            final(self).spec_server() == old(self).spec_server(),
            match old(self).spec_client() {
                Option::Some(_) => !created && final(self).spec_client() == old(
                    self,
                ).spec_client(),
                Option::None => created && (final(self).spec_client() matches Option::Some(h)
                    && h.port == port && h.database@ == "default_database"@),
            },
    {
        match &self.client {
            Option::Some(_) => false,
            Option::None => {
                proof {
                    reveal_strlit("default_database");
                }
                self.client = Option::Some(
                    ClientHandle { port, database: "default_database".to_owned() },
                );
                true
            },
        }
    }

    /// Drops the client handle, as recovery does before a restart.
    pub fn clear_client(&mut self)
        ensures
            final(self).wf(),
            final(self).spec_client() is None,
            final(self).spec_server() == old(self).spec_server(),
    {
        self.client = Option::None;
    }

    /// The client an operation uses; asking before initialization is the
    /// recoverable `ClientNotInitialized` error that triggers lazy init.
    pub fn get_client(&self) -> (r: Result<&ClientHandle, StoreError>)
        ensures
            match self.spec_client() {
                Option::Some(h) => r is Ok && r->Ok_0 == h,
                Option::None => r is Err && r->Err_0 == StoreError::ClientNotInitialized,
            },
    {
        match &self.client {
            Option::Some(h) => Result::Ok(h),
            Option::None => Result::Err(StoreError::ClientNotInitialized),
        }
    }

    /// What an operation must do before it can reach the server, given the
    /// port override the environment supplies: nothing when a client is
    /// held; only a client init when the server already runs (at its port);
    /// else a full server start at the resolved port.
    pub fn ensure_plan(&self, port_override: &Option<String>) -> (r: EnsurePlan)
        ensures
            match self.spec_client() {
                Option::Some(_) => r == EnsurePlan::Ready,
                Option::None => match self.spec_server() {
                    Option::Some(s) => r == (EnsurePlan::InitClientOnly { port: s.port }),
                    Option::None => (r matches EnsurePlan::StartServer { port } && port as int
                        == spec_resolve_port(
                        match port_override {
                            Option::Some(s) => Option::Some(s@),
                            Option::None => Option::None,
                        },
                    )),
                },
            },
    {
        match &self.client {
            Option::Some(_) => EnsurePlan::Ready,
            Option::None => match &self.server {
                Option::Some(s) => EnsurePlan::InitClientOnly { port: s.port },
                Option::None => EnsurePlan::StartServer { port: resolve_port(port_override) },
            },
        }
    }
}

} // verus!
