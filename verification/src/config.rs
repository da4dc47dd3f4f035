//! Server configuration: bind address, threading mode, worker count.
//!
//! Validation happens once, at construction: the address must be non-empty,
//! and a multi-threaded server must be given at least one worker.

use vstd::prelude::*;

verus! {

/// Which serving mode the acceptor loop runs in.
#[derive(Debug, Clone, Copy, PartialEq, Eq, Structural)]
pub enum ServerType {
    SingleThreaded,
    MultiThreaded,
}

#[derive(Debug, Clone, PartialEq)]
pub struct ServerConfig {
    server_type: ServerType,
    server_addr: String,
    number_threads: usize,
}

impl ServerConfig {
    /// The mode a configuration asks for: `multi_threading` maps to
    /// `MultiThreaded` and nothing else — the match is spelled out so the
    /// flag can never be read inverted.
    pub open spec fn spec_type_for(multi_threading: bool) -> ServerType {
        if multi_threading {
            ServerType::MultiThreaded
        } else {
            ServerType::SingleThreaded
        }
    }

    /// The threading mode, as seen by specifications.
    pub closed spec fn spec_type(self) -> ServerType {
        self.server_type
    }

    /// The bind address, as seen by specifications.
    pub closed spec fn spec_addr(self) -> Seq<char> {
        self.server_addr@
    }

    /// The configured worker count, as seen by specifications.
    pub closed spec fn spec_threads(self) -> usize {
        self.number_threads
    }

    /// A configuration is well formed when its address is non-empty and a
    /// multi-threaded server has at least one worker.
    pub open spec fn wf(self) -> bool {
        &&& self.spec_addr().len() > 0
        &&& self.spec_type() is MultiThreaded ==> self.spec_threads() >= 1
    }

    pub fn new(server_addr: String, multi_threading: bool, number_threads: usize) -> (config: ServerConfig)
        requires
            server_addr@.len() > 0,
            multi_threading ==> number_threads >= 1,
        ensures
            config.wf(),
            config.spec_type() == Self::spec_type_for(multi_threading),
            config.spec_addr() == server_addr@,
            config.spec_threads() == number_threads,
    {
        let server_type: ServerType = match multi_threading {
            true => ServerType::MultiThreaded,
            false => ServerType::SingleThreaded,
        };

        ServerConfig { server_type, server_addr, number_threads }
    }

    pub fn get_server_type(&self) -> (t: ServerType)
        ensures
            t == self.spec_type(),
    {
        self.server_type
    }

    pub fn get_server_address(&self) -> (addr: String)
        ensures
            addr@ == self.spec_addr(),
    {
        self.server_addr.clone()
    }

    pub fn get_number_threads(&self) -> (n: usize)
        ensures
            n == self.spec_threads(),
    {
        self.number_threads
    }
}

} // verus!
