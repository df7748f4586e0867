use vstd::prelude::*;
use vstd::string::StringExecFns;

use crate::args::InvocationArgs;
use crate::node::{declares, replies_as, Method, NodeError, NodeKind, Reply};

verus! {

/// An in-process node that holds one string, read by its getter `value` and
/// replaced by its updater `value`.
pub struct ValueNode {
    value: String,
}

impl View for ValueNode {
    type V = Seq<char>;

    closed spec fn view(&self) -> Seq<char> {
        self.value@
    }
}

/// What the getter `name` replies on a node whose string is `state`.
pub open spec fn value_getter(state: Seq<char>, name: Seq<char>) -> Result<Seq<char>, NodeError> {
    if name == "value"@ {
        Ok(state)
    } else {
        Err(NodeError::UnknownMethod)
    }
}

/// The string of a node that held `state` once the updater `name` has run
/// with `args`.
pub open spec fn value_after_update(
    state: Seq<char>,
    name: Seq<char>,
    args: Map<Seq<char>, Seq<char>>,
) -> Seq<char> {
    if name == "value"@ && args.contains_key("value"@) {
        args["value"@]
    } else {
        state
    }
}

/// What the updater `name` replies when it runs with `args`.
pub open spec fn value_updater(name: Seq<char>, args: Map<Seq<char>, Seq<char>>) -> Result<
    Seq<char>,
    NodeError,
> {
    if name != "value"@ {
        Err(NodeError::UnknownMethod)
    } else if !args.contains_key("value"@) {
        Err(NodeError::MissingArgument)
    } else {
        Ok(args["value"@])
    }
}

/// Whether `s` is the name of the node's one getter and updater.
fn is_value_name(s: &str) -> (r: bool)
    ensures
        r == (s@ == "value"@),
{
    let name = String::from_str(s);
    let expected = String::from_str("value");
    name.eq(&expected)
}

impl ValueNode {
    /// A node that holds the empty string.
    pub fn new() -> (r: ValueNode)
        ensures
            r@ == Seq::<char>::empty(),
    {
        ValueNode { value: String::new() }
    }

    pub fn node_kind(&self) -> (r: NodeKind)
        ensures
            r.name@ == "ValueNode"@,
            r.description is None,
    {
        NodeKind::new(String::from_str("ValueNode"), None)
    }

    pub fn getters(&self) -> (r: Vec<Method>)
        ensures
            r@.len() == 1,
            r@[0].name@ == "value"@,
            r@[0].description is None,
            r@[0].arguments@.len() == 0,
    {
        let mut r: Vec<Method> = Vec::new();
        r.push(Method::new(String::from_str("value"), None, Vec::new()));
        r
    }

    pub fn updaters(&self) -> (r: Vec<Method>)
        ensures
            r@.len() == 1,
            r@[0].name@ == "value"@,
            r@[0].description is None,
            r@[0].arguments@.len() == 1,
            r@[0].arguments@[0]@ == "value"@,
    {
        let mut arguments: Vec<String> = Vec::new();
        arguments.push(String::from_str("value"));
        let mut r: Vec<Method> = Vec::new();
        r.push(Method::new(String::from_str("value"), None, arguments));
        r
    }

    /// Runs the getter `name`: `value` replies the current string, any other
    /// name is unknown.
    pub fn do_getter(&self, name: &str, arguments: &InvocationArgs) -> (r: Result<Reply, NodeError>)
        ensures
            replies_as(r, value_getter(self@, name@)),
    {
        if is_value_name(name) {
            Ok(Reply::Str(self.value.clone()))
        } else {
            Err(NodeError::UnknownMethod)
        }
    }

    /// Runs the updater `name`: `value` stores the argument `value` and
    /// replies it; the node is left as it was on any error.
    pub fn do_updater(&mut self, name: &str, arguments: &InvocationArgs) -> (r: Result<
        Reply,
        NodeError,
    >)
        requires
            arguments.wf(),
        ensures
            replies_as(r, value_updater(name@, arguments@)),
            final(self)@ == value_after_update(old(self)@, name@, arguments@),
    {
        if !is_value_name(name) {
            return Err(NodeError::UnknownMethod);
        }
        match arguments.get("value") {
            Some(v) => {
                self.value = v.clone();
                Ok(Reply::Str(self.value.clone()))
            },
            None => Err(NodeError::MissingArgument),
        }
    }
}

/// The getter list names exactly the getters that can be invoked: a getter
/// fails as unknown precisely when the list does not declare it.
pub proof fn lemma_value_getters_declared(state: Seq<char>, name: Seq<char>, getters: Seq<Method>)
    requires
        getters.len() == 1,
        getters[0].name@ == "value"@,
    ensures
        (value_getter(state, name) == Err::<Seq<char>, NodeError>(NodeError::UnknownMethod))
            == !declares(getters, name),
{
}

/// The updater list names exactly the updaters that can be invoked: an
/// updater fails as unknown precisely when the list does not declare it.
pub proof fn lemma_value_updaters_declared(
    name: Seq<char>,
    args: Map<Seq<char>, Seq<char>>,
    updaters: Seq<Method>,
)
    requires
        updaters.len() == 1,
        updaters[0].name@ == "value"@,
    ensures
        (value_updater(name, args) == Err::<Seq<char>, NodeError>(NodeError::UnknownMethod))
            == !declares(updaters, name),
{
}

/// Setting the string with the updater and reading it back with the getter
/// gives the text that was passed, whatever the node held before.
pub proof fn lemma_update_then_get(state: Seq<char>, args: Map<Seq<char>, Seq<char>>)
    requires
        args.contains_key("value"@),
    ensures
        value_updater("value"@, args) == Ok::<Seq<char>, NodeError>(args["value"@]),
        value_getter(value_after_update(state, "value"@, args), "value"@) == Ok::<
            Seq<char>,
            NodeError,
        >(args["value"@]),
{
}

} // verus!
