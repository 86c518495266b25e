//! The archetype registry: the single source of truth for which modes
//! exist. Built once at startup, read-only afterwards; each archetype
//! binds a name to a system prompt, a model identifier, and a shared
//! provider held in the registry's provider table.

use vstd::prelude::*;

use crate::provider::LLMProvider;

verus! {

/// A named persona/mode: a fixed system prompt, a target model, and the
/// index of its provider in the owning registry's provider table (several
/// archetypes may name the same provider, which models shared ownership
/// of one immutable provider instance).
pub struct Archetype {
    pub name: String,
    pub system_prompt: String,
    pub model_name: String,
    pub provider: usize,
}

impl Archetype {
    /// A valid archetype against a provider table of `n_providers`
    /// entries: non-empty system prompt and model name, and a provider
    /// index that the table holds.
    pub open spec fn valid(self, n_providers: nat) -> bool {
        &&& self.system_prompt@.len() > 0
        &&& self.model_name@.len() > 0
        &&& (self.provider as nat) < n_providers
    }
}

/// The built-in Scout persona's system prompt.
pub open spec fn scout_system_prompt() -> Seq<char> {
    "You are the Scout. You are fast, versatile, and conversational. Perfect for quick questions, brainstorming, and daily dialogue."@
}

/// The built-in Architect persona's system prompt.
pub open spec fn architect_system_prompt() -> Seq<char> {
    "You are the Architect. You are logical, structured, and deep. Ideal for planning, analysis, and complex problem-solving."@
}

/// The first archetype with the given name, scanning front to back.
pub open spec fn lookup_archetypes(entries: Seq<Archetype>, name: Seq<char>) -> Option<Archetype>
    decreases entries.len(),
{
    if entries.len() == 0 {
        None
    } else if entries[0].name@ == name {
        Some(entries[0])
    } else {
        lookup_archetypes(entries.drop_first(), name)
    }
}

/// The mapping from archetype names to archetypes, together with the
/// table of provider instances the archetypes share.
pub struct Registry<P: LLMProvider> {
    pub providers: Vec<P>,
    pub archetypes: Vec<Archetype>,
}

impl<P: LLMProvider> Registry<P> {
    /// A well-formed registry: every archetype is valid against the
    /// provider table, and names are unique keys.
    pub open spec fn wf(self) -> bool {
        &&& forall|i: int|
            0 <= i < self.archetypes@.len() ==> #[trigger] self.archetypes@[i].valid(
                self.providers@.len(),
            )
        &&& forall|i: int, j: int|
            0 <= i < j < self.archetypes@.len() ==> #[trigger] self.archetypes@[i].name@
                != #[trigger] self.archetypes@[j].name@
    }

    /// Whether some archetype in the registry carries the given name.
    pub open spec fn has_archetype(self, name: Seq<char>) -> bool {
        exists|i: int| 0 <= i < self.archetypes@.len() && #[trigger] self.archetypes@[i].name@ == name
    }

    /// The archetype the given name maps to, if any.
    pub open spec fn spec_lookup(self, name: Seq<char>) -> Option<Archetype> {
        lookup_archetypes(self.archetypes@, name)
    }

    /// A registry over the given provider table, with no archetypes yet.
    pub fn with_providers(providers: Vec<P>) -> (r: Registry<P>)
        ensures
            r.wf(),
            r.providers@ == providers@,
            r.archetypes@.len() == 0,
    {
        Registry { providers, archetypes: Vec::new() }
    }

    /// The built-in table of modes, every entry bound to the one given
    /// provider: adding a mode here is all it takes to offer one more.
    pub fn new(provider: P) -> (r: Registry<P>)
        ensures
            r.wf(),
            r.providers@.len() == 1,
            r.providers@[0] == provider,
            r.archetypes@.len() == 2,
            r.archetypes@[0].name@ == "Scout"@,
            r.archetypes@[0].system_prompt@ == scout_system_prompt(),
            r.archetypes@[0].model_name@ == "llama3-8b-8192"@,
            r.archetypes@[0].provider == 0,
            r.archetypes@[1].name@ == "Architect"@,
            r.archetypes@[1].system_prompt@ == architect_system_prompt(),
            r.archetypes@[1].model_name@ == "llama3-70b-8192"@,
            r.archetypes@[1].provider == 0,
    {
        let mut providers: Vec<P> = Vec::new();
        providers.push(provider);
        let mut registry = Self::with_providers(providers);
        proof {
            reveal_strlit("Scout");
            reveal_strlit("Architect");
            reveal_strlit(
                "You are the Scout. You are fast, versatile, and conversational. Perfect for quick questions, brainstorming, and daily dialogue.",
            );
            reveal_strlit(
                "You are the Architect. You are logical, structured, and deep. Ideal for planning, analysis, and complex problem-solving.",
            );
            reveal_strlit("llama3-8b-8192");
            reveal_strlit("llama3-70b-8192");
        }
        let scout_added = registry.add_archetype(
            Archetype {
                name: String::from_str("Scout"),
                system_prompt: String::from_str(
                    "You are the Scout. You are fast, versatile, and conversational. Perfect for quick questions, brainstorming, and daily dialogue.",
                ),
                model_name: String::from_str("llama3-8b-8192"),
                provider: 0,
            },
        );
        let architect_added = registry.add_archetype(
            Archetype {
                name: String::from_str("Architect"),
                system_prompt: String::from_str(
                    "You are the Architect. You are logical, structured, and deep. Ideal for planning, analysis, and complex problem-solving.",
                ),
                model_name: String::from_str("llama3-70b-8192"),
                provider: 0,
            },
        );
        proof {
            assert(scout_added);
            assert("Scout"@.len() == 5);
            assert("Architect"@.len() == 9);
            assert(architect_added);
        }
        registry
    }

    /// Adds one archetype. Refuses (returning `false` and leaving the
    /// registry unchanged) an empty system prompt or model name, a
    /// provider index outside the table, or a name already present.
    pub fn add_archetype(&mut self, archetype: Archetype) -> (added: bool)
        requires
            old(self).wf(),
        ensures
            final(self).wf(),
            final(self).providers@ == old(self).providers@,
            added == (archetype.valid(old(self).providers@.len()) && !old(self).has_archetype(
                archetype.name@,
            )),
            added ==> final(self).archetypes@ == old(self).archetypes@.push(archetype),
            !added ==> final(self).archetypes@ == old(self).archetypes@,
    {
        if archetype.system_prompt.as_str().is_empty()
            || archetype.model_name.as_str().is_empty()
            || archetype.provider >= self.providers.len() {
            return false;
        }
        let n = self.archetypes.len();
        let mut i: usize = 0;
        while i < n
            invariant
                self.archetypes@ == old(self).archetypes@,
                self.providers@ == old(self).providers@,
                old(self).wf(),
                n == self.archetypes@.len(),
                i <= n,
                forall|j: int| 0 <= j < i ==> #[trigger] self.archetypes@[j].name@ != archetype.name@,
            decreases n - i,
        {
            if self.archetypes[i].name == archetype.name {
                proof {
                    assert(self.archetypes@[i as int].name@ == archetype.name@);
                }
                return false;
            }
            i = i + 1;
        }
        self.archetypes.push(archetype);
        true
    }

    /// Looks the name up; `None` is the recoverable "archetype not
    /// found" case, never a crash.
    pub fn get<'a>(&'a self, name: &String) -> (r: Option<&'a Archetype>)
        ensures
            match r {
                Some(a) => self.spec_lookup(name@) == Some(*a),
                None => self.spec_lookup(name@) is None,
            },
    {
        let n = self.archetypes.len();
        let mut i: usize = 0;
        while i < n
            invariant
                n == self.archetypes@.len(),
                i <= n,
                forall|j: int| 0 <= j < i ==> #[trigger] self.archetypes@[j].name@ != name@,
            decreases n - i,
        {
            if self.archetypes[i].name == *name {
                proof {
                    lemma_lookup_hits_first_match(self.archetypes@, name@, i as int);
                }
                return Some(&self.archetypes[i]);
            }
            i = i + 1;
        }
        proof {
            lemma_lookup_misses(self.archetypes@, name@);
        }
        None
    }
}

/// When every entry before `i` carries another name and entry `i` carries
/// `name`, the scan finds entry `i`.
proof fn lemma_lookup_hits_first_match(entries: Seq<Archetype>, name: Seq<char>, i: int)
    requires
        0 <= i < entries.len(),
        entries[i].name@ == name,
        forall|j: int| 0 <= j < i ==> #[trigger] entries[j].name@ != name,
    ensures
        lookup_archetypes(entries, name) == Some(entries[i]),
    decreases i,
{
    if i > 0 {
        lemma_lookup_hits_first_match(entries.drop_first(), name, i - 1);
    }
}

/// When no entry carries `name`, the scan finds nothing.
proof fn lemma_lookup_misses(entries: Seq<Archetype>, name: Seq<char>)
    requires
        forall|j: int| 0 <= j < entries.len() ==> #[trigger] entries[j].name@ != name,
    ensures
        lookup_archetypes(entries, name) is None,
    decreases entries.len(),
{
    if entries.len() > 0 {
        lemma_lookup_misses(entries.drop_first(), name);
    }
}

/// A found archetype is an entry of the registry.
proof fn lemma_lookup_is_entry(entries: Seq<Archetype>, name: Seq<char>)
    requires
        lookup_archetypes(entries, name) is Some,
    ensures
        exists|i: int|
            0 <= i < entries.len() && entries[i] == lookup_archetypes(entries, name)->Some_0
                && #[trigger] entries[i].name@ == name,
    decreases entries.len(),
{
    if entries.len() > 0 && entries[0].name@ != name {
        lemma_lookup_is_entry(entries.drop_first(), name);
        let j = choose|j: int|
            0 <= j < entries.drop_first().len() && entries.drop_first()[j] == lookup_archetypes(
                entries.drop_first(),
                name,
            )->Some_0 && #[trigger] entries.drop_first()[j].name@ == name;
        assert(entries[j + 1] == entries.drop_first()[j]);
    }
}

/// When some entry carries `name`, the scan finds one.
proof fn lemma_lookup_finds(entries: Seq<Archetype>, name: Seq<char>)
    requires
        exists|i: int| 0 <= i < entries.len() && #[trigger] entries[i].name@ == name,
    ensures
        lookup_archetypes(entries, name) is Some,
    decreases entries.len(),
{
    if entries[0].name@ != name {
        let i = choose|i: int| 0 <= i < entries.len() && #[trigger] entries[i].name@ == name;
        assert(entries.drop_first()[i - 1] == entries[i]);
        lemma_lookup_finds(entries.drop_first(), name);
    }
}

/// The name maps to something exactly when some entry carries it.
pub proof fn lemma_lookup_iff_has<P: LLMProvider>(reg: Registry<P>, name: Seq<char>)
    ensures
        reg.spec_lookup(name) is Some <==> reg.has_archetype(name),
        reg.spec_lookup(name) matches Some(a) ==> exists|i: int|
            0 <= i < reg.archetypes@.len() && reg.archetypes@[i] == a
                && #[trigger] reg.archetypes@[i].name@ == name,
{
    if reg.spec_lookup(name) is Some {
        lemma_lookup_is_entry(reg.archetypes@, name);
    }
    if reg.has_archetype(name) {
        lemma_lookup_finds(reg.archetypes@, name);
    }
}

/// In a well-formed registry, looking up any entry's own name finds
/// exactly that entry, and it carries a non-empty system prompt and a
/// non-empty model name.
pub proof fn lemma_registry_entries_found<P: LLMProvider>(reg: Registry<P>, i: int)
    requires
        reg.wf(),
        0 <= i < reg.archetypes@.len(),
    ensures
        reg.spec_lookup(reg.archetypes@[i].name@) == Some(reg.archetypes@[i]),
        reg.archetypes@[i].system_prompt@.len() > 0,
        reg.archetypes@[i].model_name@.len() > 0,
{
    assert(reg.archetypes@[i].valid(reg.providers@.len()));
    lemma_lookup_hits_first_match(reg.archetypes@, reg.archetypes@[i].name@, i);
}

} // verus!
