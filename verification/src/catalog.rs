//! The tool catalog: every capability the agent may be offered.
//!
//! Two sources compose: a fixed local set, and a dynamic set discovered from
//! remote MCP servers (refreshed between runs). A name collision is resolved
//! by precedence — the local tool wins — and is reported by [`ToolCatalog::collisions`]
//! rather than silently dropped.

use vstd::prelude::*;
use crate::strutil::{contains_name, spec_contains_name, str_eq};
use crate::types::ToolDefinition;

verus! {

/// Where a resolved tool's handler lives.
#[derive(Debug, Clone, Copy, PartialEq, Eq, Structural)]
pub enum ToolOrigin {
    /// Index into the catalog's local tools.
    Local { index: usize },
    /// Index into the catalog's remote, MCP-discovered tools.
    Remote { index: usize },
}

pub struct ToolCatalog {
    /// The fixed local tools.
    pub local: Vec<ToolDefinition>,
    /// Tools discovered from remote MCP servers; may change between runs.
    pub remote: Vec<ToolDefinition>,
}

/// The names of a tool list, in order.
pub open spec fn spec_names(defs: Seq<ToolDefinition>) -> Seq<Seq<char>> {
    defs.map_values(|d: ToolDefinition| d.name@)
}

/// The first position holding the given name, if any.
pub open spec fn spec_find_first(names: Seq<Seq<char>>, name: Seq<char>) -> Option<int>
    decreases names.len(),
{
    if names.len() == 0 {
        None
    } else if names.first() == name {
        Some(0)
    } else {
        match spec_find_first(names.drop_first(), name) {
            Some(i) => Some(i + 1),
            None => None,
        }
    }
}

/// What `spec_find_first` returns: the first hit, or proof there is none.
pub proof fn lemma_find_first_props(names: Seq<Seq<char>>, name: Seq<char>)
    ensures
        match spec_find_first(names, name) {
            Some(i) => 0 <= i < names.len() && names[i] == name && (forall|j: int|
                0 <= j < i ==> names[j] != name),
            None => forall|j: int| 0 <= j < names.len() ==> names[j] != name,
        },
    decreases names.len(),
{
    if names.len() != 0 && names.first() != name {
        lemma_find_first_props(names.drop_first(), name);
        match spec_find_first(names.drop_first(), name) {
            Some(i) => {
                assert(names[i + 1] == names.drop_first()[i]);
                assert forall|j: int| 0 <= j < i + 1 implies names[j] != name by {
                    if j > 0 {
                        assert(names.drop_first()[j - 1] == names[j]);
                    }
                }
            },
            None => {
                assert forall|j: int| 0 <= j < names.len() implies names[j] != name by {
                    if j > 0 {
                        assert(names.drop_first()[j - 1] == names[j]);
                    }
                }
            },
        }
    }
}

/// A name found at `k` with no earlier hit is what `spec_find_first` finds.
pub proof fn lemma_find_first_hit(names: Seq<Seq<char>>, name: Seq<char>, k: int)
    requires
        0 <= k < names.len(),
        names[k] == name,
        forall|j: int| 0 <= j < k ==> names[j] != name,
    ensures
        spec_find_first(names, name) == Some(k),
    decreases k,
{
    if k > 0 {
        assert(names.first() != name);
        assert(names.drop_first()[k - 1] == names[k]);
        assert forall|j: int| 0 <= j < k - 1 implies names.drop_first()[j] != name by {
            assert(names.drop_first()[j] == names[j + 1]);
        }
        lemma_find_first_hit(names.drop_first(), name, k - 1);
    }
}

/// Resolution with local precedence: the first local tool of that name,
/// else the first remote one, else nothing.
pub open spec fn spec_resolve(
    local: Seq<ToolDefinition>,
    remote: Seq<ToolDefinition>,
    name: Seq<char>,
) -> Option<ToolOrigin> {
    match spec_find_first(spec_names(local), name) {
        Some(i) => Some(ToolOrigin::Local { index: i as usize }),
        None => match spec_find_first(spec_names(remote), name) {
            Some(i) => Some(ToolOrigin::Remote { index: i as usize }),
            None => None,
        },
    }
}

/// The sublist of `defs` whose names are in `allowed`, order kept.
pub open spec fn spec_filter_allowed(defs: Seq<ToolDefinition>, allowed: Seq<Seq<char>>) -> Seq<
    ToolDefinition,
>
    decreases defs.len(),
{
    if defs.len() == 0 {
        Seq::empty()
    } else {
        let rest = spec_filter_allowed(defs.drop_last(), allowed);
        if spec_contains_name(allowed, defs.last().name@) {
            rest.push(defs.last())
        } else {
            rest
        }
    }
}

/// The remote tools that are advertised: allowed, and not shadowed by a
/// local tool of the same name.
pub open spec fn spec_remote_visible(
    local: Seq<ToolDefinition>,
    remote: Seq<ToolDefinition>,
    allowed: Seq<Seq<char>>,
) -> Seq<ToolDefinition>
    decreases remote.len(),
{
    if remote.len() == 0 {
        Seq::empty()
    } else {
        let rest = spec_remote_visible(local, remote.drop_last(), allowed);
        if spec_contains_name(allowed, remote.last().name@) && spec_find_first(
            spec_names(local),
            remote.last().name@,
        ) is None {
            rest.push(remote.last())
        } else {
            rest
        }
    }
}

/// Everything the catalog advertises for a given allow list: the allowed
/// local tools, then the allowed, unshadowed remote tools, order kept.
pub open spec fn spec_listed(
    local: Seq<ToolDefinition>,
    remote: Seq<ToolDefinition>,
    allowed: Seq<Seq<char>>,
) -> Seq<ToolDefinition> {
    spec_filter_allowed(local, allowed) + spec_remote_visible(local, remote, allowed)
}

/// The names registered from both sources at once: each remote tool's name
/// that a local tool also bears, in remote order.
pub open spec fn spec_collisions(locals: Seq<Seq<char>>, remotes: Seq<Seq<char>>) -> Seq<Seq<char>>
    decreases remotes.len(),
{
    if remotes.len() == 0 {
        Seq::empty()
    } else {
        let rest = spec_collisions(locals, remotes.drop_last());
        if spec_contains_name(locals, remotes.last()) {
            rest.push(remotes.last())
        } else {
            rest
        }
    }
}

/// A copy of one tool definition, equal to the original.
fn clone_def(d: &ToolDefinition) -> (r: ToolDefinition)
    ensures
        r == *d,
{
    ToolDefinition {
        name: d.name.clone(),
        description: d.description.clone(),
        input_schema: d.input_schema.clone(),
    }
}

/// First position of `name` among the definitions, by linear search.
fn find_tool(defs: &Vec<ToolDefinition>, name: &str) -> (r: Option<usize>)
    ensures
        match r {
            Some(i) => spec_find_first(spec_names(defs@), name@) == Some(i as int),
            None => spec_find_first(spec_names(defs@), name@) is None,
        },
{
    let ghost names = spec_names(defs@);
    let mut i: usize = 0;
    while i < defs.len()
        invariant
            i <= defs.len(),
            names == spec_names(defs@),
            forall|j: int| 0 <= j < i ==> names[j] != name@,
        decreases defs.len() - i,
    {
        if str_eq(defs[i].name.as_str(), name) {
            proof {
                lemma_find_first_props(names, name@);
                assert(names[i as int] == name@);
            }
            return Some(i);
        }
        i = i + 1;
    }
    proof {
        lemma_find_first_props(names, name@);
    }
    None
}

impl ToolCatalog {
    /// A catalog with no tools yet.
    pub fn new() -> (r: ToolCatalog)
        ensures
            r.local@.len() == 0,
            r.remote@.len() == 0,
    {
        ToolCatalog { local: Vec::new(), remote: Vec::new() }
    }

    /// Register one local tool; it is appended after the existing ones.
    pub fn register(&mut self, def: ToolDefinition)
        ensures
            final(self).local@ == old(self).local@.push(def),
            final(self).remote@ == old(self).remote@,
    {
        self.local.push(def);
    }

    /// Replace the remote set with the tools freshly discovered from the
    /// MCP integration.
    pub fn set_remote_tools(&mut self, tools: Vec<ToolDefinition>)
        ensures
            final(self).remote@ == tools@,
            final(self).local@ == old(self).local@,
    {
        self.remote = tools;
    }

    /// Resolve a name to its handler, local tools taking precedence.
    pub fn resolve(&self, name: &str) -> (r: Option<ToolOrigin>)
        ensures
            r == spec_resolve(self.local@, self.remote@, name@),
    {
        match find_tool(&self.local, name) {
            Some(i) => Some(ToolOrigin::Local { index: i }),
            None => match find_tool(&self.remote, name) {
                Some(i) => Some(ToolOrigin::Remote { index: i }),
                None => None,
            },
        }
    }

    /// The definitions advertised to the model for a given allow list:
    /// allowed local tools, then allowed remote tools not shadowed by a
    /// local name, order kept.
    pub fn list(&self, allowed: &Vec<String>) -> (r: Vec<ToolDefinition>)
        ensures
            r@ == spec_listed(
                self.local@,
                self.remote@,
                allowed@.map_values(|s: String| s@),
            ),
    {
        let ghost names = allowed@.map_values(|s: String| s@);
        let mut out: Vec<ToolDefinition> = Vec::new();
        let mut i: usize = 0;
        while i < self.local.len()
            invariant
                i <= self.local@.len(),
                names == allowed@.map_values(|s: String| s@),
                out@ == spec_filter_allowed(self.local@.take(i as int), names),
            decreases self.local@.len() - i,
        {
            proof {
                assert(self.local@.take(i + 1).drop_last() =~= self.local@.take(i as int));
            }
            if contains_name(allowed, self.local[i].name.as_str()) {
                out.push(clone_def(&self.local[i]));
            }
            i = i + 1;
        }
        proof {
            assert(self.local@.take(self.local@.len() as int) =~= self.local@);
        }
        let ghost local_part = out@;
        let mut j: usize = 0;
        while j < self.remote.len()
            invariant
                j <= self.remote@.len(),
                names == allowed@.map_values(|s: String| s@),
                local_part == spec_filter_allowed(self.local@, names),
                out@ == local_part + spec_remote_visible(
                    self.local@,
                    self.remote@.take(j as int),
                    names,
                ),
            decreases self.remote@.len() - j,
        {
            proof {
                assert(self.remote@.take(j + 1).drop_last() =~= self.remote@.take(j as int));
            }
            if contains_name(allowed, self.remote[j].name.as_str()) {
                if find_tool(&self.local, self.remote[j].name.as_str()).is_none() {
                    out.push(clone_def(&self.remote[j]));
                }
            }
            j = j + 1;
        }
        proof {
            assert(self.remote@.take(self.remote@.len() as int) =~= self.remote@);
        }
        out
    }

    /// Report every name registered from both sources: the remote tools a
    /// local tool shadows, in remote order. The local tool wins at
    /// resolution; the collision is reported, not silently dropped.
    pub fn collisions(&self) -> (r: Vec<String>)
        ensures
            r@.map_values(|s: String| s@) == spec_collisions(
                spec_names(self.local@),
                spec_names(self.remote@),
            ),
    {
        let ghost locals = spec_names(self.local@);
        let ghost remotes = spec_names(self.remote@);
        let mut local_names: Vec<String> = Vec::new();
        let mut i: usize = 0;
        while i < self.local.len()
            invariant
                i <= self.local@.len(),
                local_names@.map_values(|s: String| s@) == locals.take(i as int),
                locals == spec_names(self.local@),
            decreases self.local@.len() - i,
        {
            let ghost prevn = local_names@.map_values(|s: String| s@);
            local_names.push(self.local[i].name.clone());
            proof {
                assert(locals[i as int] == self.local@[i as int].name@);
                assert(local_names@.map_values(|s: String| s@) =~= prevn.push(
                    self.local@[i as int].name@,
                ));
                assert(prevn.push(locals[i as int]) =~= locals.take(i + 1));
            }
            i = i + 1;
        }
        proof {
            assert(locals.take(locals.len() as int) =~= locals);
        }
        let mut out: Vec<String> = Vec::new();
        let mut j: usize = 0;
        while j < self.remote.len()
            invariant
                j <= self.remote@.len(),
                locals == spec_names(self.local@),
                remotes == spec_names(self.remote@),
                local_names@.map_values(|s: String| s@) == locals,
                out@.map_values(|s: String| s@) == spec_collisions(locals, remotes.take(j as int)),
            decreases self.remote@.len() - j,
    {
            proof {
                assert(remotes.take(j + 1).drop_last() =~= remotes.take(j as int));
                assert(remotes.take(j + 1).last() == remotes[j as int]);
            }
            let ghost prev = out@.map_values(|s: String| s@);
            if contains_name(&local_names, self.remote[j].name.as_str()) {
                out.push(self.remote[j].name.clone());
                proof {
                    assert(out@.map_values(|s: String| s@) =~= prev.push(remotes[j as int]));
                }
            }
            j = j + 1;
        }
        proof {
            assert(remotes.take(remotes.len() as int) =~= remotes);
        }
        out
    }
}

} // verus!
