//! Tools the model may call, and the registry that finds and runs them.

use vstd::prelude::*;
use crate::provider::{FunctionDef, Tool, ToolView, function_tool_view};
use crate::text::str_eq;

pub mod current_time;

verus! {

/// Why running a tool failed.
#[derive(Debug)]
pub enum ToolError {
    /// The tool could not read its arguments.
    InvalidArguments(String),
    /// The tool read its arguments and then failed.
    ExecutionFailed(String),
    /// No tool is registered under the name.
    NotFound(String),
}

pub enum ToolErrorView {
    InvalidArguments(Seq<char>),
    ExecutionFailed(Seq<char>),
    NotFound(Seq<char>),
}

impl View for ToolError {
    type V = ToolErrorView;

    open spec fn view(&self) -> ToolErrorView {
        match *self {
            ToolError::InvalidArguments(detail) => ToolErrorView::InvalidArguments(detail@),
            ToolError::ExecutionFailed(detail) => ToolErrorView::ExecutionFailed(detail@),
            ToolError::NotFound(name) => ToolErrorView::NotFound(name@),
        }
    }
}

/// What came of running a tool, as plain text on either side.
pub type Outcome = Result<Seq<char>, ToolErrorView>;

/// The outcome that an execution result stands for.
pub open spec fn outcome_of(r: Result<String, ToolError>) -> Outcome {
    match r {
        Ok(text) => Ok(text@),
        Err(e) => Err(e@),
    }
}

/// A capability the model can invoke by name.
pub trait ToolExecutor: Send + Sync {
    /// The name under which the tool is registered and called.
    fn name(&self) -> &'static str;

    /// The definition that the tool advertises to the model.
    fn definition(&self) -> Tool;

    /// Runs the tool on JSON-encoded arguments.
    fn execute(&self, arguments: &str) -> Result<String, ToolError>;
}

/// `tool`, of whatever kind, can give `name` as its name.
pub open spec fn gives_name<T: ToolExecutor + ?Sized>(tool: &T, name: &'static str) -> bool {
    call_ensures(T::name, (tool,), name)
}

/// `tool`, of whatever kind, can advertise `definition`.
pub open spec fn gives_definition<T: ToolExecutor + ?Sized>(tool: &T, definition: Tool) -> bool {
    call_ensures(T::definition, (tool,), definition)
}

/// `tool`, of whatever kind, can make `result` of `arguments`.
pub open spec fn gives_result<T: ToolExecutor + ?Sized>(
    tool: &T,
    arguments: &str,
    result: Result<String, ToolError>,
) -> bool {
    call_ensures(T::execute, (tool, arguments), result)
}

/// Asks a tool of whatever kind for its name.
fn ask_name<T: ToolExecutor + ?Sized>(tool: &T) -> (r: &'static str)
    ensures
        gives_name::<T>(tool, r),
{
    tool.name()
}

/// Asks a tool of whatever kind for its definition.
fn ask_definition<T: ToolExecutor + ?Sized>(tool: &T) -> (r: Tool)
    ensures
        gives_definition::<T>(tool, r),
{
    tool.definition()
}

/// Runs a tool of whatever kind on `arguments`.
fn ask_result<T: ToolExecutor + ?Sized>(tool: &T, arguments: &str) -> (r: Result<String, ToolError>)
    ensures
        gives_result::<T>(tool, arguments, r),
{
    tool.execute(arguments)
}

/// A boxed tool of any kind is a tool: it does what the tool in the box
/// does. A registry of boxed tools can hold tools of different kinds.
impl ToolExecutor for Box<dyn ToolExecutor> {
    /// The name that the tool in the box gives.
    fn name(&self) -> (r: &'static str)
        ensures
            gives_name::<dyn ToolExecutor>(&**self, r),
    {
        ask_name::<dyn ToolExecutor>(&**self)
    }

    /// The definition that the tool in the box advertises.
    fn definition(&self) -> (r: Tool)
        ensures
            gives_definition::<dyn ToolExecutor>(&**self, r),
    {
        ask_definition::<dyn ToolExecutor>(&**self)
    }

    /// What the tool in the box makes of `arguments`.
    fn execute(&self, arguments: &str) -> (r: Result<String, ToolError>)
        ensures
            gives_result::<dyn ToolExecutor>(&**self, arguments, r),
    {
        ask_result::<dyn ToolExecutor>(&**self, arguments)
    }
}

/// `tool` can give `name` as its name.
pub open spec fn names_itself<T: ToolExecutor>(tool: T, name: Seq<char>) -> bool {
    exists|n: &'static str| n@ == name && #[trigger] call_ensures(T::name, (&tool,), n)
}

/// `tool` can advertise `definition`.
pub open spec fn defines<T: ToolExecutor>(tool: T, definition: Tool) -> bool {
    call_ensures(T::definition, (&tool,), definition)
}

/// Running `tool` on `arguments` can end in `outcome`.
pub open spec fn can_return<T: ToolExecutor>(tool: T, arguments: Seq<char>, outcome: Outcome) -> bool {
    exists|a: &str, r: Result<String, ToolError>|
        a@ == arguments && outcome_of(r) == outcome && #[trigger] call_ensures(T::execute, (&tool, a), r)
}

/// The tools on offer, each under the name it gave when it was registered,
/// in the order in which the names were first registered.
pub struct ToolRegistry<T: ToolExecutor> {
    names: Vec<String>,
    tools: Vec<T>,
}

impl<T: ToolExecutor> ToolRegistry<T> {
    /// The names of the registered tools, in registry order.
    pub closed spec fn names(&self) -> Seq<Seq<char>> {
        self.names@.map_values(|n: String| n@)
    }

    /// The registered tools, in registry order.
    pub closed spec fn entries(&self) -> Seq<T> {
        self.tools@
    }

    /// Every tool has a name, and no name is registered twice.
    pub open spec fn wf(&self) -> bool {
        self.names().len() == self.entries().len() && self.names().no_duplicates()
    }

    /// Whether a tool is registered under `name`.
    pub open spec fn contains(&self, name: Seq<char>) -> bool {
        self.names().contains(name)
    }

    /// Where the tool named `name` stands in registry order.
    pub open spec fn position(&self, name: Seq<char>) -> int {
        self.names().index_of(name)
    }

    /// The positions of those of `names` that are registered, in the order
    /// of `names`; names that are not registered contribute nothing.
    pub open spec fn selected(&self, names: Seq<Seq<char>>) -> Seq<int>
        decreases names.len(),
    {
        if names.len() == 0 {
            Seq::empty()
        } else {
            let rest = self.selected(names.drop_last());
            if self.contains(names.last()) {
                rest.push(self.position(names.last()))
            } else {
                rest
            }
        }
    }

    /// `definitions` holds, in order, a definition of each registered tool.
    pub open spec fn defines_all(&self, definitions: Seq<Tool>) -> bool {
        &&& definitions.len() == self.entries().len()
        &&& forall|i: int|
            0 <= i < definitions.len() ==> defines(self.entries()[i], #[trigger] definitions[i])
    }

    /// `definitions` holds, in the order of `names`, a definition of each
    /// tool that is registered under one of `names`.
    pub open spec fn defines_named(&self, names: Seq<Seq<char>>, definitions: Seq<Tool>) -> bool {
        &&& definitions.len() == self.selected(names).len()
        &&& forall|k: int|
            0 <= k < definitions.len() ==> defines(
                self.entries()[self.selected(names)[k]],
                #[trigger] definitions[k],
            )
    }

    /// Whether executing `name` on `arguments` can end in `outcome`: a
    /// registered tool decides for itself, and a name that is not registered
    /// can only be reported as not found.
    pub open spec fn allows(&self, name: Seq<char>, arguments: Seq<char>, outcome: Outcome) -> bool {
        if self.contains(name) {
            can_return(self.entries()[self.position(name)], arguments, outcome)
        } else {
            outcome == Err::<Seq<char>, ToolErrorView>(ToolErrorView::NotFound(name))
        }
    }

    /// How the registry `self` follows from `before` when `tool` is
    /// registered under `name`: a tool already registered under that name is
    /// replaced where it stands, and a new name goes to the end.
    pub open spec fn follows(&self, before: Self, name: Seq<char>, tool: T) -> bool {
        if before.contains(name) {
            &&& self.names() == before.names()
            &&& self.entries() == before.entries().update(before.position(name), tool)
        } else {
            &&& self.names() == before.names().push(name)
            &&& self.entries() == before.entries().push(tool)
        }
    }

    /// A registered name stands at its position, and in a well-formed
    /// registry nowhere else.
    pub proof fn lemma_position(&self, name: Seq<char>)
        requires
            self.contains(name),
        ensures
            0 <= self.position(name) < self.names().len(),
            self.names()[self.position(name)] == name,
            self.wf() ==> forall|i: int|
                0 <= i < self.names().len() && self.names()[i] == name ==> i == self.position(name),
    {
        let names = self.names();
        let i = choose|i: int| 0 <= i < names.len() && names[i] == name;
        assert(0 <= i < names.len() && names[i] == name);
    }

    /// A registry without tools.
    pub fn new() -> (r: Self)
        ensures
            r.wf(),
            r.names().len() == 0,
            r.entries().len() == 0,
    {
        let r = ToolRegistry { names: Vec::new(), tools: Vec::new() };
        assert(r.names() =~= Seq::empty());
        r
    }

    /// The index of the tool named `name`, if one is registered.
    fn find(&self, name: &str) -> (r: Option<usize>)
        requires
            self.wf(),
        ensures
            match r {
                Some(i) => self.contains(name@) && i as int == self.position(name@) && i < self.entries().len(),
                None => !self.contains(name@),
            },
    {
        let mut i: usize = 0;
        while i < self.names.len()
            invariant
                self.wf(),
                i <= self.names@.len(),
                forall|j: int| 0 <= j < i ==> self.names()[j] != name@,
            decreases self.names@.len() - i,
        {
            if str_eq(self.names[i].as_str(), name) {
                assert(self.names()[i as int] == name@);
                proof {
                    self.lemma_position(name@);
                }
                return Some(i);
            }
            i += 1;
        }
        None
    }

    /// Registers `tool` under the name it gives. A tool already registered
    /// under that name is replaced where it stands; a new name goes to the
    /// end.
    pub fn register(&mut self, tool: T)
        requires
            old(self).wf(),
        ensures
            final(self).wf(),
            exists|name: Seq<char>| #[trigger]
                names_itself(tool, name) && final(self).follows(*old(self), name, tool),
    {
        let name = tool.name();
        let ghost before = *self;
        match self.find(name) {
            Some(i) => {
                self.tools.set(i, tool);
            },
            None => {
                self.names.push(name.to_owned());
                self.tools.push(tool);
                assert(self.names() =~= before.names().push(name@));
            },
        }
        assert(names_itself(tool, name@));
        assert(self.follows(before, name@, tool));
    }

    /// The tool registered under `name`, if there is one.
    pub fn get(&self, name: &str) -> (r: Option<&T>)
        requires
            self.wf(),
        ensures
            match r {
                Some(tool) => self.contains(name@) && *tool == self.entries()[self.position(name@)],
                None => !self.contains(name@),
            },
    {
        match self.find(name) {
            Some(i) => Some(&self.tools[i]),
            None => None,
        }
    }

    /// The definitions of all registered tools, in registry order.
    pub fn definitions(&self) -> (r: Vec<Tool>)
        ensures
            self.defines_all(r@),
    {
        let mut out: Vec<Tool> = Vec::new();
        let mut i: usize = 0;
        while i < self.tools.len()
            invariant
                i <= self.tools@.len(),
                out@.len() == i,
                forall|j: int| 0 <= j < i ==> defines(self.entries()[j], #[trigger] out@[j]),
            decreases self.tools@.len() - i,
        {
            out.push(self.tools[i].definition());
            i += 1;
        }
        out
    }

    /// The definitions of those of `names` that are registered, in the order
    /// of `names`. Names that are not registered are passed over.
    pub fn definitions_for(&self, names: &[String]) -> (r: Vec<Tool>)
        requires
            self.wf(),
        ensures
            self.defines_named(names@.map_values(|n: String| n@), r@),
    {
        let ghost wanted = names@.map_values(|n: String| n@);
        let mut out: Vec<Tool> = Vec::new();
        let mut i: usize = 0;
        assert(wanted.take(0) =~= Seq::empty());
        while i < names.len()
            invariant
                self.wf(),
                i <= names@.len(),
                wanted == names@.map_values(|n: String| n@),
                self.defines_named(wanted.take(i as int), out@),
            decreases names@.len() - i,
        {
            proof {
                assert(wanted.take(i + 1).drop_last() =~= wanted.take(i as int));
                assert(wanted.take(i + 1).last() == names@[i as int]@);
            }
            match self.find(names[i].as_str()) {
                Some(k) => {
                    out.push(self.tools[k].definition());
                },
                None => {},
            }
            i += 1;
        }
        assert(wanted.take(i as int) =~= wanted);
        out
    }

    /// Runs the tool registered under `name` on `arguments`, or reports that
    /// there is none.
    pub fn execute(&self, name: &str, arguments: &str) -> (r: Result<String, ToolError>)
        requires
            self.wf(),
        ensures
            self.allows(name@, arguments@, outcome_of(r)),
            self.contains(name@) ==> call_ensures(
                T::execute,
                (&self.entries()[self.position(name@)], arguments),
                r,
            ),
    {
        match self.find(name) {
            Some(i) => self.tools[i].execute(arguments),
            None => Err(ToolError::NotFound(name.to_owned())),
        }
    }

    /// The names of the registered tools, in registry order.
    pub fn available_tools(&self) -> (r: Vec<&str>)
        ensures
            r@.map_values(|s: &str| s@) == self.names(),
    {
        let mut out: Vec<&str> = Vec::new();
        let mut i: usize = 0;
        while i < self.names.len()
            invariant
                i <= self.names@.len(),
                out@.len() == i,
                forall|j: int| 0 <= j < i ==> out@[j]@ == self.names()[j],
            decreases self.names@.len() - i,
        {
            out.push(self.names[i].as_str());
            i += 1;
        }
        assert(out@.map_values(|s: &str| s@) =~= self.names());
        out
    }
}

/// A definition comes back from the registry as the tool gives it: once
/// `tool` is registered under `name`, any list of all definitions holds, at
/// the tool's position, a definition that the tool itself can give; so where
/// the tool always gives `expected`, that is what the list holds.
pub proof fn law_definition_round_trip<T: ToolExecutor>(
    before: ToolRegistry<T>,
    after: ToolRegistry<T>,
    tool: T,
    name: Seq<char>,
    definitions: Seq<Tool>,
    expected: ToolView,
)
    requires
        before.wf(),
        after.follows(before, name, tool),
        after.defines_all(definitions),
        forall|d: Tool| defines(tool, d) ==> d@ == expected,
    ensures
        after.contains(name),
        0 <= after.position(name) < definitions.len(),
        after.entries()[after.position(name)] == tool,
        definitions[after.position(name)]@ == expected,
{
    if before.contains(name) {
        before.lemma_position(name);
        after.lemma_position(name);
    } else {
        assert(after.names()[before.names().len() as int] == name);
        after.lemma_position(name);
        assert(after.names().no_duplicates()) by {
            assert forall|i: int, j: int|
                0 <= i < after.names().len() && 0 <= j < after.names().len() && i != j implies after.names()[i]
                != after.names()[j] by {
                if i < before.names().len() && j < before.names().len() {
                    assert(before.names()[i] != before.names()[j]);
                } else if i < before.names().len() {
                    assert(before.names().contains(before.names()[i]));
                } else if j < before.names().len() {
                    assert(before.names().contains(before.names()[j]));
                }
            }
        }
    }
    let p = after.position(name);
    assert(defines(after.entries()[p], definitions[p]));
}

/// Names that are not registered are passed over without a failure: from a
/// registry that holds one tool, under the name `known`, a request for
/// `known` and then for another name selects that one tool and nothing
/// else.
pub proof fn law_unknown_names_are_dropped<T: ToolExecutor>(
    registry: ToolRegistry<T>,
    known: Seq<char>,
    unknown: Seq<char>,
    definitions: Seq<Tool>,
)
    requires
        registry.wf(),
        registry.names() == seq![known],
        unknown != known,
        registry.defines_named(seq![known, unknown], definitions),
    ensures
        registry.selected(seq![known, unknown]) == seq![0int],
        definitions.len() == 1,
        defines(registry.entries()[0], definitions[0]),
{
    let asked = seq![known, unknown];
    assert(registry.names()[0] == known);
    registry.lemma_position(known);
    assert(asked.drop_last() =~= seq![known]);
    assert(asked.drop_last().drop_last() =~= Seq::<Seq<char>>::empty());
    assert(registry.selected(asked.drop_last().drop_last()) =~= Seq::<int>::empty());
    assert(registry.selected(asked.drop_last()) =~= seq![0int]);
    assert(registry.selected(asked) =~= seq![0int]);
}

impl ToolRegistry<current_time::CurrentTimeTool> {
    /// The registry of the built-in tools.
    pub fn with_builtins() -> (r: Self)
        ensures
            r.wf(),
            r.names() == seq![current_time::CURRENT_TIME@],
            r.entries() == seq![current_time::CurrentTimeTool],
    {
        let mut registry = ToolRegistry::new();
        registry.register(current_time::CurrentTimeTool);
        assert(registry.names() =~= seq![current_time::CURRENT_TIME@]);
        assert(registry.entries() =~= seq![current_time::CurrentTimeTool]);
        registry
    }
}

impl<T: ToolExecutor> Default for ToolRegistry<T> {
    fn default() -> (r: Self)
        ensures
            r.wf(),
            r.entries().len() == 0,
    {
        ToolRegistry::new()
    }
}

/// The definition of a function tool with the given name, description and
/// argument schema.
pub fn function_tool(name: &str, description: &str, parameters: serde_json::Value) -> (r: Tool)
    ensures
        r@ == function_tool_view(name@, description@, parameters),
{
    Tool {
        tool_type: "function".to_owned(),
        function: FunctionDef {
            name: name.to_owned(),
            description: description.to_owned(),
            parameters,
        },
    }
}

} // verus!
