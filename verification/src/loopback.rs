//! A cluster inside one process: a registry of nodes that requests are handed to directly.

use std::collections::HashMap;
use vstd::prelude::*;
use vstd::std_specs::hash::*;
use vstd::string::*;

use crate::text::{concat2, dec, decimal};

verus! {

/// The nodes of a cluster, by their numbers.
pub struct Cluster<R> {
    nodes: HashMap<u64, R>,
}

impl<R> View for Cluster<R> {
    type V = Map<u64, R>;

    closed spec fn view(&self) -> Map<u64, R> {
        self.nodes@
    }
}

impl<R> Cluster<R> {
    /// A cluster without nodes.
    pub fn new() -> (out: Self)
        ensures
            out@ == Map::<u64, R>::empty(),
    {
        Cluster { nodes: HashMap::new() }
    }

    /// Adds a node, or replaces the one with its number.
    pub fn insert(&mut self, id: u64, node: R)
        ensures
            final(self)@ == old(self)@.insert(id, node),
    {
        broadcast use group_hash_axioms;

        self.nodes.insert(id, node);
    }

    /// Takes a node out. It can no longer be reached.
    pub fn remove(&mut self, id: u64)
        ensures
            final(self)@ == old(self)@.remove(id),
    {
        broadcast use group_hash_axioms;

        self.nodes.remove(&id);
    }

    /// The node with a number, or why it cannot be reached.
    pub fn peer(&self, id: u64) -> (out: Result<&R, String>)
        ensures
            match out {
                Ok(node) => self@.contains_key(id) && *node == self@[id],
                Err(text) => !self@.contains_key(id) && text@ == "node "@ + dec(id as nat)
                    + " not in cluster"@,
            },
    {
        broadcast use group_hash_axioms;

        match self.nodes.get(&id) {
            Some(node) => Ok(node),
            None => {
                let mut text: String = concat2("node ", decimal(id).as_str());
                text.append(" not in cluster");
                Err(text)
            },
        }
    }
}

/// A request that records a client's status.
#[derive(Debug, Clone)]
pub struct ClientRequest {
    pub client: String,
    pub serial: u64,
    pub status: String,
}

/// The request that records `status` for `client`.
pub fn make_request(client: &str, serial: u64, status: &str) -> (out: ClientRequest)
    ensures
        out.client@ == client@,
        out.serial == serial,
        out.status@ == status@,
{
    ClientRequest { client: client.to_owned(), serial, status: status.to_owned() }
}

/// The name and the timings of a cluster, in milliseconds.
#[derive(Debug, Clone)]
pub struct Timings {
    pub cluster_name: String,
    pub heartbeat_interval: u64,
    pub election_timeout_min: u64,
    pub election_timeout_max: u64,
}

/// A node that hears nothing for an election timeout missed heartbeats, and timeouts differ.
pub open spec fn sound_timings(t: Timings) -> bool {
    t.heartbeat_interval < t.election_timeout_min && t.election_timeout_min
        < t.election_timeout_max
}

/// The timings of the cluster: short, so that elections are soon over.
pub fn raft_config() -> (out: Timings)
    ensures
        out.cluster_name@ == "spike-toy"@,
        out.heartbeat_interval == 100,
        out.election_timeout_min == 300,
        out.election_timeout_max == 600,
        sound_timings(out),
{
    Timings {
        cluster_name: "spike-toy".to_owned(),
        heartbeat_interval: 100,
        election_timeout_min: 300,
        election_timeout_max: 600,
    }
}

/// What one who waits for a condition does next.
#[derive(Debug, Clone, Copy, PartialEq, Eq, Structural)]
pub enum Wait {
    /// The condition holds.
    Done,
    /// The time is over.
    TimedOut,
    /// Wait for a change, but no longer than this.
    Again(u64),
}

/// What one who waits until `deadline` does at the time `now`. A condition that holds at the
/// deadline still counts.
pub fn wait_step(holds: bool, now: u64, deadline: u64) -> (out: Wait)
    ensures
        out == (if holds {
            Wait::Done
        } else if now >= deadline {
            Wait::TimedOut
        } else {
            Wait::Again((deadline - now) as u64)
        }),
{
    if holds {
        Wait::Done
    } else if now >= deadline {
        Wait::TimedOut
    } else {
        Wait::Again(deadline - now)
    }
}

} // verus!
