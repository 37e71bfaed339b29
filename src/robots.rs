use vstd::prelude::*;
use vstd::string::*;

use crate::agent::{agent_text, Agent, AgentModel};
use crate::error::RobotsTxtError;

verus! {

/// What a document is: its agent blocks in the order they were added, and
/// the sitemap URL if one is set.
pub struct RobotsTxtModel {
    pub agents: Seq<AgentModel>,
    pub sitemap: Option<Seq<char>>,
}

/// No two agents share a name.
pub open spec fn names_unique(agents: Seq<AgentModel>) -> bool {
    forall|i: int, j: int|
        0 <= i < agents.len() && 0 <= j < agents.len() && i != j ==> agents[i].name
            != agents[j].name
}

/// Some agent is named `name`.
pub open spec fn has_name(agents: Seq<AgentModel>, name: Seq<char>) -> bool {
    exists|i: int| 0 <= i < agents.len() && agents[i].name == name
}

/// The rendered blocks of a sequence of agents, in sequence order, with no
/// blank line between them.
pub open spec fn agents_text(agents: Seq<AgentModel>) -> Seq<char>
    decreases agents.len(),
{
    if agents.len() == 0 {
        Seq::empty()
    } else {
        agents_text(agents.drop_last()) + agent_text(agents.last())
    }
}

/// The sitemap section: a blank line and a `Sitemap` line, or nothing.
pub open spec fn sitemap_text(sitemap: Option<Seq<char>>) -> Seq<char> {
    match sitemap {
        Some(url) => "\nSitemap: "@ + url + "\n"@,
        None => Seq::empty(),
    }
}

/// The full text of a document.
pub open spec fn document_text(d: RobotsTxtModel) -> Seq<char> {
    agents_text(d.agents) + sitemap_text(d.sitemap)
}

/// A `robots.txt` document under construction.
pub struct RobotsTxt {
    agent_block: Vec<Agent>,
    sitemap: Option<String>,
}

impl View for RobotsTxt {
    type V = RobotsTxtModel;

    closed spec fn view(&self) -> RobotsTxtModel {
        RobotsTxtModel {
            agents: self.agent_block@.map_values(|a: Agent| a@),
            sitemap: match self.sitemap {
                Some(s) => Some(s@),
                None => None,
            },
        }
    }
}

impl RobotsTxt {
    /// The document's invariant: agent names are unique.
    pub open spec fn wf(&self) -> bool {
        names_unique(self@.agents)
    }

    /// An empty document: no agents and no sitemap.
    pub fn new() -> (r: RobotsTxt)
        ensures
            r.wf(),
            r@.agents == Seq::<AgentModel>::empty(),
            r@.sitemap is None,
    {
        let r = RobotsTxt { agent_block: Vec::new(), sitemap: None };
        assert(r@.agents =~= Seq::<AgentModel>::empty());
        r
    }

    /// Whether some agent of the document is named `name` (exact,
    /// case-sensitive comparison).
    pub fn has_agent(&self, name: &String) -> (r: bool)
        ensures
            r == has_name(self@.agents, name@),
    {
        let mut i: usize = 0;
        while i < self.agent_block.len()
            invariant
                i <= self.agent_block@.len(),
                forall|k: int| 0 <= k < i ==> self@.agents[k].name != name@,
            decreases self.agent_block@.len() - i,
        {
            let found = self.agent_block[i].name().eq(name);
            assert(self@.agents[i as int] == self.agent_block@[i as int]@);
            if found {
                return true;
            }
            i = i + 1;
        }
        false
    }

    /// Appends `agent` after the agents already held, unless an agent of the
    /// same name is present: then nothing changes and the name is handed back
    /// in `DuplicateAgentName`.
    pub fn add_agent(&mut self, agent: Agent) -> (r: Result<(), RobotsTxtError>)
        requires
            old(self).wf(),
        ensures
            final(self).wf(),
            r is Ok <==> !has_name(old(self)@.agents, agent@.name),
            r is Ok ==> final(self)@.agents == old(self)@.agents.push(agent@),
            r is Ok ==> final(self)@.sitemap == old(self)@.sitemap,
            r matches Err(e) ==> e matches RobotsTxtError::DuplicateAgentName(n) && n@
                == agent@.name,
            r is Err ==> final(self)@ == old(self)@,
    {
        if self.has_agent(agent.name()) {
            let name = agent.name().clone();
            return Err(RobotsTxtError::DuplicateAgentName(name));
        }
        let ghost before = self@;
        let ghost added = agent@;
        self.agent_block.push(agent);
        assert(self@.agents =~= before.agents.push(added));
        Ok(())
    }

    /// Replaces the sitemap URL; `None` removes it. No check is made on the URL.
    pub fn add_sitemap(&mut self, sitemap_path: Option<String>)
        requires
            old(self).wf(),
        ensures
            final(self).wf(),
            final(self)@.agents == old(self)@.agents,
            final(self)@.sitemap == match sitemap_path {
                Some(s) => Some(s@),
                None => None::<Seq<char>>,
            },
    {
        self.sitemap = sitemap_path;
    }

    /// The number of agents held.
    pub fn agent_count(&self) -> (r: usize)
        ensures
            r == self@.agents.len(),
    {
        self.agent_block.len()
    }

    /// The agent at position `i`, in order of addition.
    pub fn agent(&self, i: usize) -> (r: &Agent)
        requires
            i < self@.agents.len(),
        ensures
            r@ == self@.agents[i as int],
    {
        &self.agent_block[i]
    }

    /// The sitemap URL, if set.
    pub fn sitemap(&self) -> (r: Option<&String>)
        ensures
            r matches Some(s) ==> self@.sitemap == Some(s@),
            r is None ==> self@.sitemap is None,
    {
        match &self.sitemap {
            Some(s) => Some(s),
            None => None,
        }
    }

    /// The document's text: each agent block in order of addition, then, if a
    /// sitemap is set, a blank line and its `Sitemap` line. Rendering does not
    /// change the document, and the text depends on the document alone.
    pub fn render(&self) -> (r: String)
        ensures
            r@ == document_text(self@),
    {
        let mut out = String::new();
        let mut i: usize = 0;
        while i < self.agent_block.len()
            invariant
                i <= self.agent_block@.len(),
                out@ == agents_text(self@.agents.subrange(0, i as int)),
            decreases self.agent_block@.len() - i,
        {
            self.agent_block[i].render_into(&mut out);
            proof {
                let ag = self@.agents;
                assert(ag.subrange(0, i + 1).drop_last() =~= ag.subrange(0, i as int));
            }
            i = i + 1;
        }
        assert(self@.agents.subrange(0, i as int) =~= self@.agents);
        match &self.sitemap {
            Some(url) => {
                out.append("\nSitemap: ");
                out.append(url.as_str());
                out.append("\n");
            },
            None => {},
        }
        assert(out@ =~= document_text(self@));
        out
    }
}

/// Setting a sitemap and then clearing it leaves a document whose text is its
/// agent blocks alone: no `Sitemap` line and no blank line after them.
pub proof fn lemma_sitemap_cleared(d: RobotsTxtModel, url: Seq<char>)
    ensures
        ({
            let set = RobotsTxtModel { agents: d.agents, sitemap: Some(url) };
            let cleared = RobotsTxtModel { agents: set.agents, sitemap: None };
            document_text(cleared) == agents_text(d.agents)
        }),
{
    assert(agents_text(d.agents) + Seq::<char>::empty() =~= agents_text(d.agents));
}

/// Once an agent has been added, a later agent of the same name finds its
/// name present, so `add_agent` refuses it and leaves the agents as they were.
pub proof fn lemma_second_add_refused(d: RobotsTxtModel, first: AgentModel, second: AgentModel)
    requires
        first.name == second.name,
    ensures
        has_name(d.agents.push(first), second.name),
{
    assert(d.agents.push(first)[d.agents.len() as int].name == second.name);
}

} // verus!
