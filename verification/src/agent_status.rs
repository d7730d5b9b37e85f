//! The `/agents` status: which subagents are listed as running.

use vstd::prelude::*;
use crate::text::{owned, trim_spec, trim_str};

verus! {

/// What the status reads of a subagent thread.
#[derive(Clone, Debug)]
pub struct AgentEntry {
    pub thread_id: u128,
    pub is_running: bool,
    pub is_closed: bool,
    /// Where the agent sits in the agent tree, when it has a path.
    pub agent_path: Option<String>,
}

/// The agents listed, in order: those running and not closed that have a
/// path, each with its path trimmed.
pub open spec fn active_agents_spec(entries: Seq<AgentEntry>) -> Seq<(u128, Seq<char>)>
    decreases entries.len(),
{
    if entries.len() == 0 {
        Seq::empty()
    } else {
        let before = active_agents_spec(entries.drop_last());
        let e = entries.last();
        if e.is_running && !e.is_closed && e.agent_path is Some {
            before.push((e.thread_id, trim_spec(e.agent_path->0@)))
        } else {
            before
        }
    }
}

/// The agents that the status lists, with their trimmed paths.
pub fn active_agent_paths(entries: &[AgentEntry]) -> (r: Vec<(u128, String)>)
    ensures
        r@.map_values(|p: (u128, String)| (p.0, p.1@)) == active_agents_spec(entries@),
{
    let mut out: Vec<(u128, String)> = Vec::new();
    let mut i: usize = 0;
    proof {
        assert(entries@.take(0) =~= Seq::<AgentEntry>::empty());
        assert(out@.map_values(|p: (u128, String)| (p.0, p.1@)) =~= Seq::<(u128, Seq<char>)>::empty());
    }
    while i < entries.len()
        invariant
            0 <= i <= entries@.len(),
            out@.map_values(|p: (u128, String)| (p.0, p.1@)) == active_agents_spec(entries@.take(i as int)),
        decreases entries@.len() - i,
    {
        let e = &entries[i];
        let ghost before = out@.map_values(|p: (u128, String)| (p.0, p.1@));
        proof {
            assert(entries@.take(i + 1).drop_last() =~= entries@.take(i as int));
            assert(entries@.take(i + 1).last() == *e);
        }
        if e.is_running && !e.is_closed {
            if let Some(path) = &e.agent_path {
                let trimmed = owned(trim_str(path.as_str()));
                out.push((e.thread_id, trimmed));
                proof {
                    assert(out@.map_values(|p: (u128, String)| (p.0, p.1@)) =~= before.push(
                        (e.thread_id, trim_spec(path@)),
                    ));
                }
            }
        }
        i = i + 1;
    }
    proof {
        assert(entries@.take(entries@.len() as int) =~= entries@);
    }
    out
}

} // verus!
