//! The tool registry: descriptors and handlers keyed by unique tool names.

use vstd::prelude::*;
use crate::args::str_eq;
use crate::schema::{strip_dialect, SchemaDoc};

verus! {

/// What callers are told of a tool.
pub struct ToolDescriptor {
    /// The caller-visible identifier, unique within a registry.
    pub name: String,
    pub description: String,
    pub input_schema: SchemaDoc,
}

/// A tool was registered under a name already taken.
pub struct DuplicateNameError {
    pub name: String,
}

/// No tool is registered under the requested name.
pub struct UnknownToolError {
    pub name: String,
}

/// The descriptor as the registry keeps it: its schema without a dialect tag.
pub open spec fn normalized(d: ToolDescriptor) -> ToolDescriptor {
    ToolDescriptor { input_schema: SchemaDoc { dialect: None, ..d.input_schema }, ..d }
}

/// Some tool in `tools` is named `name` (names compare exactly).
pub open spec fn holds_name(tools: Seq<ToolDescriptor>, name: Seq<char>) -> bool {
    exists|i: int| 0 <= i < tools.len() && tools[i].name@ == name
}

pub open spec fn unique_names(tools: Seq<ToolDescriptor>) -> bool {
    forall|i: int, j: int| 0 <= i < tools.len() && 0 <= j < tools.len() && i != j
        ==> tools[i].name@ != tools[j].name@
}

/// The tool list after registering `d`: `None` where its name is taken.
pub open spec fn registered(tools: Seq<ToolDescriptor>, d: ToolDescriptor) -> Option<Seq<ToolDescriptor>> {
    if holds_name(tools, d.name@) {
        None
    } else {
        Some(tools.push(normalized(d)))
    }
}

/// Tools and their handlers, in registration order.
pub struct Registry<H> {
    tools: Vec<ToolDescriptor>,
    handlers: Vec<H>,
}

impl<H> Registry<H> {
    /// The registered descriptors, in registration order.
    pub closed spec fn tools(&self) -> Seq<ToolDescriptor> {
        self.tools@
    }

    /// The handlers, in the order of `tools`.
    pub closed spec fn handlers(&self) -> Seq<H> {
        self.handlers@
    }

    /// One handler per tool, unique names, and no schema with a dialect tag.
    pub open spec fn wf(&self) -> bool {
        &&& self.tools().len() == self.handlers().len()
        &&& unique_names(self.tools())
        &&& forall|i: int| 0 <= i < self.tools().len() ==> (#[trigger] self.tools()[i]).input_schema.dialect is None
    }

    /// An empty registry.
    pub fn new() -> (r: Self)
        ensures
            r.wf(),
            r.tools().len() == 0,
    {
        Registry { tools: Vec::new(), handlers: Vec::new() }
    }

    fn find(&self, name: &str) -> (r: Option<usize>)
        ensures
            r is None <==> !holds_name(self.tools(), name@),
            r matches Some(i) ==> i < self.tools().len() && self.tools()[i as int].name@ == name@,
    {
        let mut i: usize = 0;
        while i < self.tools.len()
            invariant
                i <= self.tools@.len(),
                forall|k: int| 0 <= k < i ==> self.tools@[k].name@ != name@,
            decreases self.tools@.len() - i,
        {
            if str_eq(self.tools[i].name.as_str(), name) {
                return Some(i);
            }
            i = i + 1;
        }
        None
    }

    /// Adds a tool with its handler. The schema is kept without its dialect
    /// tag. Fails, leaving the registry as it was, where the name is taken.
    pub fn register(&mut self, descriptor: ToolDescriptor, handler: H) -> (r: Result<(), DuplicateNameError>)
        requires
            old(self).wf(),
        ensures
            final(self).wf(),
            r is Ok <==> registered(old(self).tools(), descriptor) is Some,
            r is Ok ==> registered(old(self).tools(), descriptor) == Some(final(self).tools())
                && final(self).handlers() == old(self).handlers().push(handler),
            r matches Err(e) ==> e.name@ == descriptor.name@
                && final(self).tools() == old(self).tools()
                && final(self).handlers() == old(self).handlers(),
    {
        match self.find(descriptor.name.as_str()) {
            Some(_) => Err(DuplicateNameError { name: descriptor.name }),
            None => {
                let d = ToolDescriptor {
                    name: descriptor.name,
                    description: descriptor.description,
                    input_schema: strip_dialect(descriptor.input_schema),
                };
                self.tools.push(d);
                self.handlers.push(handler);
                proof {
                    let t = final(self).tools();
                    assert(t == old(self).tools().push(normalized(descriptor)));
                    assert forall|i: int, j: int| 0 <= i < t.len() && 0 <= j < t.len() && i != j
                        implies t[i].name@ != t[j].name@ by {
                        if i == t.len() - 1 {
                            assert(old(self).tools()[j].name@ != descriptor.name@);
                        } else if j == t.len() - 1 {
                            assert(old(self).tools()[i].name@ != descriptor.name@);
                        }
                    }
                }
                Ok(())
            },
        }
    }

    /// Finds the tool registered under exactly `name`.
    pub fn lookup(&self, name: &str) -> (r: Result<(&ToolDescriptor, &H), UnknownToolError>)
        requires
            self.wf(),
        ensures
            r is Ok <==> holds_name(self.tools(), name@),
            r matches Ok((d, h)) ==> exists|i: int| 0 <= i < self.tools().len()
                && self.tools()[i] == *d && self.handlers()[i] == *h && d.name@ == name@,
            r matches Err(e) ==> e.name@ == name@,
    {
        match self.find(name) {
            Some(i) => Ok((&self.tools[i], &self.handlers[i])),
            None => Err(UnknownToolError { name: String::from_str(name) }),
        }
    }

    /// All descriptors, in registration order, for advertising to callers.
    pub fn list(&self) -> (r: &Vec<ToolDescriptor>)
        ensures
            r@ == self.tools(),
    {
        &self.tools
    }

    /// The number of registered tools.
    pub fn len(&self) -> (r: usize)
        ensures
            r == self.tools().len(),
    {
        self.tools.len()
    }
}

/// Every registered name is found, by it alone, and its schema carries no
/// dialect tag.
pub proof fn lemma_registered_found<H>(reg: Registry<H>, i: int)
    requires
        reg.wf(),
        0 <= i < reg.tools().len(),
    ensures
        holds_name(reg.tools(), reg.tools()[i].name@),
        reg.tools()[i].input_schema.dialect is None,
        forall|j: int| 0 <= j < reg.tools().len() && reg.tools()[j].name@ == reg.tools()[i].name@ ==> j == i,
{
}

/// Registering a second tool under a name already taken fails, and the list
/// then holds that name once, for the first tool (its schema without a
/// dialect tag).
pub proof fn lemma_duplicate_rejected(tools: Seq<ToolDescriptor>, first: ToolDescriptor, second: ToolDescriptor)
    requires
        unique_names(tools),
        !holds_name(tools, first.name@),
        second.name@ == first.name@,
    ensures
        registered(tools, first) == Some(tools.push(normalized(first))),
        registered(tools.push(normalized(first)), second) is None,
        unique_names(tools.push(normalized(first))),
        forall|j: int| 0 <= j < tools.len() + 1 && (#[trigger] tools.push(normalized(first))[j]).name@ == second.name@
            ==> j == tools.len() && tools.push(normalized(first))[j] == normalized(first),
{
    let t = tools.push(normalized(first));
    assert(t[tools.len() as int].name@ == second.name@);
    assert forall|i: int, j: int| 0 <= i < t.len() && 0 <= j < t.len() && i != j
        implies t[i].name@ != t[j].name@ by {
        if i == t.len() - 1 {
            assert(tools[j].name@ != first.name@);
        } else if j == t.len() - 1 {
            assert(tools[i].name@ != first.name@);
        }
    }
}

} // verus!
