//! The fixed catalog of agents and lookups into it.

use vstd::prelude::*;
use crate::models::{Agent, AgentView, agents_view, strings_view, text};

verus! {

/// The model that every agent of the catalog runs on.
pub open spec fn catalog_model() -> Seq<char> {
    "mixtral-8x7b-32768"@
}

/// The catalog, in listing order.
pub open spec fn catalog() -> Seq<AgentView> {
    seq![
        AgentView {
            id: "agent_001"@,
            name: "General Assistant"@,
            description: "A helpful general-purpose AI assistant powered by Groq"@,
            capabilities: seq!["text"@, "conversation"@, "reasoning"@],
            model: catalog_model(),
            system_prompt: "You are a helpful, friendly, and knowledgeable AI assistant. Provide clear, accurate, and concise responses."@,
        },
        AgentView {
            id: "agent_002"@,
            name: "Web3 Expert"@,
            description: "Specialized in blockchain, Web3, and cryptocurrency technologies"@,
            capabilities: seq!["web3"@, "crypto"@, "blockchain"@, "nft"@],
            model: catalog_model(),
            system_prompt: "You are a Web3 and blockchain expert. Help users understand cryptocurrency, NFTs, smart contracts, DeFi, and related technologies. Provide accurate technical information and practical guidance."@,
        },
        AgentView {
            id: "agent_003"@,
            name: "Voice Specialist"@,
            description: "Optimized for natural voice conversations and audio interactions"@,
            capabilities: seq!["voice"@, "audio"@, "conversation"@],
            model: catalog_model(),
            system_prompt: "You are an AI assistant optimized for voice interactions. Respond in a natural, conversational tone suitable for speech. Keep responses concise and easy to understand when spoken aloud."@,
        },
        AgentView {
            id: "agent_004"@,
            name: "Code Assistant"@,
            description: "Expert in programming, software development, and technical problem-solving"@,
            capabilities: seq!["coding"@, "debugging"@, "technical"@],
            model: catalog_model(),
            system_prompt: "You are an expert programming assistant. Help users with code, debugging, architecture, and technical decisions. Provide clear explanations and working code examples."@,
        },
    ]
}

/// The ids of a sequence of agents are pairwise distinct.
pub open spec fn ids_distinct(agents: Seq<AgentView>) -> bool {
    forall|i: int, j: int|
        0 <= i < agents.len() && 0 <= j < agents.len() && i != j ==> agents[i].id != agents[j].id
}

/// Whether the catalog holds an agent with the given id.
pub open spec fn in_catalog(id: Seq<char>) -> bool {
    exists|i: int| 0 <= i < catalog().len() && catalog()[i].id == id
}

/// The catalog entry with the given id (meaningful when `in_catalog(id)`).
pub open spec fn catalog_entry(id: Seq<char>) -> AgentView
    recommends
        in_catalog(id),
{
    catalog()[choose|i: int| 0 <= i < catalog().len() && catalog()[i].id == id]
}

/// The catalog is non-empty and no two of its agents share an id.
pub proof fn lemma_catalog_well_formed()
    ensures
        catalog().len() > 0,
        ids_distinct(catalog()),
{
    reveal_strlit("agent_001");
    reveal_strlit("agent_002");
    reveal_strlit("agent_003");
    reveal_strlit("agent_004");
    let c = catalog();
    assert(c[0].id[8] != c[1].id[8]);
    assert(c[0].id[8] != c[2].id[8]);
    assert(c[0].id[8] != c[3].id[8]);
    assert(c[1].id[8] != c[2].id[8]);
    assert(c[1].id[8] != c[3].id[8]);
    assert(c[2].id[8] != c[3].id[8]);
}

fn push_text(v: &mut Vec<String>, s: &str)
    ensures
        strings_view(final(v)@) == strings_view(old(v)@).push(s@),
{
    v.push(text(s));
    assert(strings_view(v@) =~= strings_view(old(v)@).push(s@));
}

fn make_agent(
    id: &str,
    name: &str,
    description: &str,
    capabilities: Vec<String>,
    system_prompt: &str,
) -> (r: Agent)
    ensures
        r@ == (AgentView {
            id: id@,
            name: name@,
            description: description@,
            capabilities: strings_view(capabilities@),
            model: catalog_model(),
            system_prompt: system_prompt@,
        }),
{
    Agent {
        id: text(id),
        name: text(name),
        description: text(description),
        capabilities,
        model: text("mixtral-8x7b-32768"),
        system_prompt: text(system_prompt),
    }
}

/// Returns the whole catalog, in its fixed order.
pub fn get_agents() -> (r: Vec<Agent>)
    ensures
        agents_view(r@) == catalog(),
{
    let mut agents: Vec<Agent> = Vec::new();

    let mut caps: Vec<String> = Vec::new();
    assert(strings_view(caps@) =~= Seq::<Seq<char>>::empty());
    push_text(&mut caps, "text");
    push_text(&mut caps, "conversation");
    push_text(&mut caps, "reasoning");
    assert(strings_view(caps@) =~= seq!["text"@, "conversation"@, "reasoning"@]);
    agents.push(make_agent(
        "agent_001",
        "General Assistant",
        "A helpful general-purpose AI assistant powered by Groq",
        caps,
        "You are a helpful, friendly, and knowledgeable AI assistant. Provide clear, accurate, and concise responses.",
    ));

    let mut caps: Vec<String> = Vec::new();
    assert(strings_view(caps@) =~= Seq::<Seq<char>>::empty());
    push_text(&mut caps, "web3");
    push_text(&mut caps, "crypto");
    push_text(&mut caps, "blockchain");
    push_text(&mut caps, "nft");
    assert(strings_view(caps@) =~= seq!["web3"@, "crypto"@, "blockchain"@, "nft"@]);
    agents.push(make_agent(
        "agent_002",
        "Web3 Expert",
        "Specialized in blockchain, Web3, and cryptocurrency technologies",
        caps,
        "You are a Web3 and blockchain expert. Help users understand cryptocurrency, NFTs, smart contracts, DeFi, and related technologies. Provide accurate technical information and practical guidance.",
    ));

    let mut caps: Vec<String> = Vec::new();
    assert(strings_view(caps@) =~= Seq::<Seq<char>>::empty());
    push_text(&mut caps, "voice");
    push_text(&mut caps, "audio");
    push_text(&mut caps, "conversation");
    assert(strings_view(caps@) =~= seq!["voice"@, "audio"@, "conversation"@]);
    agents.push(make_agent(
        "agent_003",
        "Voice Specialist",
        "Optimized for natural voice conversations and audio interactions",
        caps,
        "You are an AI assistant optimized for voice interactions. Respond in a natural, conversational tone suitable for speech. Keep responses concise and easy to understand when spoken aloud.",
    ));

    let mut caps: Vec<String> = Vec::new();
    assert(strings_view(caps@) =~= Seq::<Seq<char>>::empty());
    push_text(&mut caps, "coding");
    push_text(&mut caps, "debugging");
    push_text(&mut caps, "technical");
    assert(strings_view(caps@) =~= seq!["coding"@, "debugging"@, "technical"@]);
    agents.push(make_agent(
        "agent_004",
        "Code Assistant",
        "Expert in programming, software development, and technical problem-solving",
        caps,
        "You are an expert programming assistant. Help users with code, debugging, architecture, and technical decisions. Provide clear explanations and working code examples.",
    ));

    assert(agents_view(agents@) =~= catalog());
    agents
}

/// Looks an agent up by id: `Some` of the catalog entry with that id, or
/// `None` when the catalog has none.
pub fn find_agent_by_id(agent_id: &str) -> (r: Option<Agent>)
    ensures
        r is Some <==> in_catalog(agent_id@),
        r matches Some(a) ==> a@ == catalog_entry(agent_id@),
{
    let key = text(agent_id);
    let mut agents = get_agents();
    let ghost all = agents_view(agents@);
    let mut i: usize = 0;
    while i < agents.len()
        invariant
            agents_view(agents@) == all,
            all == catalog(),
            i <= agents@.len(),
            key@ == agent_id@,
            forall|j: int| 0 <= j < i ==> all[j].id != agent_id@,
        decreases agents@.len() - i,
    {
        if agents[i].id == key {
            let found = agents.remove(i);
            proof {
                lemma_catalog_well_formed();
                let k = choose|k: int| 0 <= k < catalog().len() && catalog()[k].id == agent_id@;
                assert(all[i as int].id == agent_id@);
                assert(k == i);
            }
            return Some(found);
        }
        i = i + 1;
    }
    None
}

} // verus!
