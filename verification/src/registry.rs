//! The tools that a server offers.
use vstd::prelude::*;

use crate::json::{Json, JsonView};
use crate::text::same;

verus! {

/// What a tool says about itself.
#[derive(Debug, PartialEq, Eq)]
pub struct ToolInfo {
    pub name: String,
    pub description: String,
    pub parameters: Json,
}

/// The content of a [`ToolInfo`].
pub struct InfoView {
    pub name: Seq<char>,
    pub description: Seq<char>,
    pub parameters: JsonView,
}

impl View for ToolInfo {
    type V = InfoView;

    open spec fn view(&self) -> InfoView {
        InfoView {
            name: self.name@,
            description: self.description@,
            parameters: self.parameters@,
        }
    }
}

/// The tools that a server offers, at most one of each name, in the order of their registration.
#[derive(Debug, PartialEq, Eq)]
pub struct ToolRegistry {
    tools: Vec<ToolInfo>,
}

impl View for ToolRegistry {
    type V = Seq<InfoView>;

    closed spec fn view(&self) -> Seq<InfoView> {
        self.tools@.map_values(|t: ToolInfo| t@)
    }
}

/// Whether no two tools have one name.
pub open spec fn distinct_names(tools: Seq<InfoView>) -> bool {
    forall|i: int, j: int|
        0 <= i < j < tools.len() ==> (#[trigger] tools[i]).name != (#[trigger] tools[j]).name
}

/// Where a tool of this name stands, from `i` on.
pub open spec fn position_from(tools: Seq<InfoView>, name: Seq<char>, i: int) -> Option<int>
    decreases tools.len() - i,
{
    if i >= tools.len() {
        None
    } else if tools[i].name == name {
        Some(i)
    } else {
        position_from(tools, name, i + 1)
    }
}

/// The tools with one more: in the place of the one with its name, or at the end.
pub open spec fn with_tool(tools: Seq<InfoView>, tool: InfoView) -> Seq<InfoView> {
    match position_from(tools, tool.name, 0) {
        Some(i) => tools.update(i, tool),
        None => tools.push(tool),
    }
}

/// Whether a tool of this name is offered.
pub open spec fn offers(tools: Seq<InfoView>, name: Seq<char>) -> bool {
    position_from(tools, name, 0) is Some
}

/// Where the first tool of a name stands, or that there is none.
pub proof fn lemma_position(tools: Seq<InfoView>, name: Seq<char>, i: int)
    requires
        0 <= i,
    ensures
        match position_from(tools, name, i) {
            Some(k) => i <= k < tools.len() && tools[k].name == name,
            None => forall|k: int| i <= k < tools.len() ==> (#[trigger] tools[k]).name != name,
        },
    decreases tools.len() - i,
{
    if i < tools.len() {
        lemma_position(tools, name, i + 1);
    }
}

/// A tool is offered exactly where one of the tools has its name.
pub proof fn offered_tools_have_names(tools: Seq<InfoView>, name: Seq<char>)
    ensures
        offers(tools, name) <==> exists|k: int|
            0 <= k < tools.len() && (#[trigger] tools[k]).name == name,
{
    lemma_position(tools, name, 0);
}

/// After a registration, the tool is offered, and so is every tool that was offered before.
pub proof fn registration_adds_one_name(tools: Seq<InfoView>, tool: InfoView, name: Seq<char>)
    ensures
        offers(with_tool(tools, tool), name) <==> offers(tools, name) || name == tool.name,
{
    lemma_position(tools, tool.name, 0);
    lemma_position(tools, name, 0);
    let after = with_tool(tools, tool);
    lemma_position(after, name, 0);
    match position_from(tools, tool.name, 0) {
        Some(i) => {
            assert(after[i] == tool);
            if name == tool.name {
                assert(after[i].name == name);
            } else if offers(tools, name) {
                let k = position_from(tools, name, 0).unwrap();
                assert(after[k] == tools[k]);
            } else {
                assert forall|k: int| 0 <= k < after.len() implies (#[trigger] after[k]).name
                    != name by {
                    if k != i {
                        assert(after[k] == tools[k]);
                    }
                }
            }
        },
        None => {
            assert(after[tools.len() as int] == tool);
            if offers(tools, name) {
                let k = position_from(tools, name, 0).unwrap();
                assert(after[k] == tools[k]);
            } else if name != tool.name {
                assert forall|k: int| 0 <= k < after.len() implies (#[trigger] after[k]).name
                    != name by {
                    if k < tools.len() {
                        assert(after[k] == tools[k]);
                    }
                }
            }
        },
    }
}

/// A registration keeps the names apart.
pub proof fn registration_keeps_names_distinct(tools: Seq<InfoView>, tool: InfoView)
    requires
        distinct_names(tools),
    ensures
        distinct_names(with_tool(tools, tool)),
{
    lemma_position(tools, tool.name, 0);
    let after = with_tool(tools, tool);
    assert forall|i: int, j: int| 0 <= i < j < after.len() implies (#[trigger] after[i]).name != (
    #[trigger] after[j]).name by {
        match position_from(tools, tool.name, 0) {
            Some(k) => {
                assert(tools[i].name != tools[j].name);
                assert(tools[k].name == tool.name);
            },
            None => {
                if j < tools.len() {
                    assert(tools[i].name != tools[j].name);
                }
            },
        }
    }
}

impl ToolRegistry {
    #[verifier::type_invariant]
    spec fn one_of_each_name(&self) -> bool {
        distinct_names(self@)
    }

    /// No tools.
    pub fn new() -> (r: ToolRegistry)
        ensures
            r@ == Seq::<InfoView>::empty(),
    {
        let r = ToolRegistry { tools: Vec::new() };
        assert(r@ =~= Seq::<InfoView>::empty());
        r
    }

    fn position(&self, name: &str) -> (r: Option<usize>)
        ensures
            match r {
                Some(i) => i < self.tools.len() && position_from(self@, name@, 0) == Some(i as int),
                None => position_from(self@, name@, 0) is None,
            },
    {
        let mut i: usize = 0;
        while i < self.tools.len()
            invariant
                i <= self.tools.len(),
                self@.len() == self.tools.len(),
                position_from(self@, name@, 0) == position_from(self@, name@, i as int),
            decreases self.tools.len() - i,
        {
            assert(self@[i as int] == self.tools@[i as int]@);
            if same(self.tools[i].name.as_str(), name) {
                return Some(i);
            }
            i += 1;
        }
        None
    }

    /// Adds a tool, in the place of the one with its name where there is one.
    pub fn register_or_replace(&mut self, tool: ToolInfo)
        ensures
            final(self)@ == with_tool(old(self)@, tool@),
    {
        proof {
            use_type_invariant(&*self);
            registration_keeps_names_distinct(self@, tool@);
        }
        let place = self.position(tool.name.as_str());
        let mut taken = ToolRegistry::new();
        std::mem::swap(self, &mut taken);
        let mut tools = taken.tools;
        let ghost before = tools@.map_values(|t: ToolInfo| t@);
        assert(before =~= old(self)@);
        match place {
            Some(i) => {
                tools.set(i, tool);
                assert(tools@.map_values(|t: ToolInfo| t@) =~= before.update(i as int, tool@));
            },
            None => {
                tools.push(tool);
                assert(tools@.map_values(|t: ToolInfo| t@) =~= before.push(tool@));
            },
        }
        *self = ToolRegistry { tools };
    }

    /// Whether a tool of this name is offered.
    pub fn contains(&self, name: &str) -> (r: bool)
        ensures
            r == offers(self@, name@),
    {
        self.position(name).is_some()
    }

    /// The tools, in the order of their registration.
    pub fn list(&self) -> (r: &Vec<ToolInfo>)
        ensures
            r@.map_values(|t: ToolInfo| t@) == self@,
            distinct_names(self@),
    {
        proof {
            use_type_invariant(self);
        }
        &self.tools
    }
}

} // verus!
