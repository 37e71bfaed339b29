use vstd::prelude::*;
use vstd::string::*;

use crate::directive::Directive;

verus! {

/// What an agent block is: its name and its rules in the order they were added.
pub struct AgentModel {
    pub name: Seq<char>,
    pub directives: Seq<Directive>,
}

/// The rendered lines of a sequence of rules, in sequence order.
pub open spec fn directives_text(ds: Seq<Directive>) -> Seq<char>
    decreases ds.len(),
{
    if ds.len() == 0 {
        Seq::empty()
    } else {
        directives_text(ds.drop_last()) + ds.last().line()
    }
}

/// The rendered block of an agent: its `User-agent` line, then its rules.
pub open spec fn agent_text(a: AgentModel) -> Seq<char> {
    "User-agent: "@ + a.name + "\n"@ + directives_text(a.directives)
}

/// One `User-agent` block of a document.
pub struct Agent {
    name: String,
    directives: Vec<Directive>,
}

impl View for Agent {
    type V = AgentModel;

    closed spec fn view(&self) -> AgentModel {
        AgentModel { name: self.name@, directives: self.directives@ }
    }
}

impl Agent {
    /// An agent named `name` with no rules. Any name is accepted here.
    pub fn new(name: String) -> (r: Agent)
        ensures
            r@.name == name@,
            r@.directives == Seq::<Directive>::empty(),
    {
        Agent { name, directives: Vec::new() }
    }

    /// Appends `directive` after the rules already held.
    pub fn add_directive(&mut self, directive: Directive)
        ensures
            final(self)@.name == old(self)@.name,
            final(self)@.directives == old(self)@.directives.push(directive),
    {
        self.directives.push(directive);
    }

    /// The agent's name.
    pub fn name(&self) -> (r: &String)
        ensures
            r@ == self@.name,
    {
        &self.name
    }

    /// The number of rules the agent holds.
    pub fn directive_count(&self) -> (r: usize)
        ensures
            r == self@.directives.len(),
    {
        self.directives.len()
    }

    /// Appends the agent's block to `out`.
    pub fn render_into(&self, out: &mut String)
        ensures
            final(out)@ == old(out)@ + agent_text(self@),
    {
        let ghost start = out@;
        out.append("User-agent: ");
        out.append(self.name.as_str());
        out.append("\n");
        let ghost head = out@;
        let mut i: usize = 0;
        while i < self.directives.len()
            invariant
                i <= self.directives@.len(),
                out@ == head + directives_text(self.directives@.subrange(0, i as int)),
            decreases self.directives@.len() - i,
        {
            let line = self.directives[i].render();
            out.append(line.as_str());
            proof {
                let ds = self.directives@;
                assert(ds.subrange(0, i + 1).drop_last() =~= ds.subrange(0, i as int));
            }
            i = i + 1;
        }
        proof {
            assert(self.directives@.subrange(0, i as int) =~= self.directives@);
        }
        assert(out@ =~= start + agent_text(self@));
    }

    /// The agent's block: its `User-agent` line followed by one line per rule.
    pub fn render(&self) -> (r: String)
        ensures
            r@ == agent_text(self@),
    {
        let mut r = String::new();
        self.render_into(&mut r);
        assert(r@ =~= agent_text(self@));
        r
    }
}

/// Rendering a sequence of rules is rendering each part in turn: rules are
/// neither reordered nor merged.
pub proof fn lemma_directives_text_concat(a: Seq<Directive>, b: Seq<Directive>)
    ensures
        directives_text(a + b) == directives_text(a) + directives_text(b),
    decreases b.len(),
{
    if b.len() == 0 {
        assert(a + b =~= a);
        assert(directives_text(b) =~= Seq::<char>::empty());
        assert(directives_text(a) + directives_text(b) =~= directives_text(a));
    } else {
        lemma_directives_text_concat(a, b.drop_last());
        assert((a + b).drop_last() =~= a + b.drop_last());
        assert((a + b).last() == b.last());
        assert(directives_text(a + b) =~= directives_text(a) + directives_text(b));
    }
}

/// Adding a rule to an agent appends exactly that rule's line to the agent's
/// block, after the lines of the rules added before it.
pub proof fn lemma_add_directive_appends_line(a: AgentModel, d: Directive)
    ensures
        agent_text((AgentModel { name: a.name, directives: a.directives.push(d) })) == agent_text(a)
            + d.line(),
{
    assert(a.directives.push(d).drop_last() =~= a.directives);
    assert(agent_text(AgentModel { name: a.name, directives: a.directives.push(d) }) =~= agent_text(
        a,
    ) + d.line());
}

} // verus!
