use vstd::prelude::*;

verus! {

#[verifier::external_type_specification]
#[verifier::external_body]
pub struct ExJsonValue(serde_json::Value);

/// The type identity of a node: a name and an optional description.
pub struct NodeKind {
    pub name: String,
    pub description: Option<String>,
}

impl NodeKind {
    pub fn new(name: String, description: Option<String>) -> (r: NodeKind)
        ensures
            r.name == name,
            r.description == description,
    {
        NodeKind { name, description }
    }
}

/// A callable of a node: its name, an optional description and the names of
/// its formal arguments, in order.
pub struct Method {
    pub name: String,
    pub description: Option<String>,
    pub arguments: Vec<String>,
}

impl Method {
    pub fn new(name: String, description: Option<String>, arguments: Vec<String>) -> (r: Method)
        ensures
            r.name == name,
            r.description == description,
            r.arguments == arguments,
    {
        Method { name, description, arguments }
    }
}

/// Which of a node's two method sets an operation addresses.
#[derive(Clone, Copy, PartialEq, Eq, Structural)]
pub enum Mode {
    Get,
    Update,
}

/// What an invocation returns: a plain string, or a structured value decoded
/// from the text that a foreign object handed back.
pub enum Reply {
    Str(String),
    Json(serde_json::Value),
}

/// The ways in which one request to a node can fail.
#[derive(Clone, Copy, PartialEq, Eq, Structural)]
pub enum NodeError {
    /// The requested getter or updater is not declared by the node.
    UnknownMethod,
    /// A declared argument that the operation needs was not supplied.
    MissingArgument,
    /// The foreign runtime raised an error during the call.
    ForeignInvocation,
    /// The foreign call returned text that is not an encoded value.
    ResultDecode,
    /// An earlier failure left the node's lock unusable.
    LockPoisoned,
}

/// The HTTP status that answers a failed request.
pub open spec fn status_of(e: NodeError) -> u16 {
    match e {
        NodeError::UnknownMethod => 404,
        NodeError::MissingArgument => 400,
        NodeError::ForeignInvocation => 502,
        NodeError::ResultDecode => 500,
        NodeError::LockPoisoned => 500,
    }
}

impl NodeError {
    pub fn status_code(&self) -> (r: u16)
        ensures
            r == status_of(*self),
    {
        match self {
            NodeError::UnknownMethod => 404,
            NodeError::MissingArgument => 400,
            NodeError::ForeignInvocation => 502,
            NodeError::ResultDecode => 500,
            NodeError::LockPoisoned => 500,
        }
    }
}

/// The reply `r` is the string `expect` when that is `Ok`, and the same error
/// otherwise.
pub open spec fn replies_as(r: Result<Reply, NodeError>, expect: Result<Seq<char>, NodeError>) -> bool {
    match (r, expect) {
        (Ok(Reply::Str(s)), Ok(t)) => s@ == t,
        (Err(e), Err(f)) => e == f,
        _ => false,
    }
}

/// Some method of `methods` is called `name`.
pub open spec fn declares(methods: Seq<Method>, name: Seq<char>) -> bool {
    exists|i: int| 0 <= i < methods.len() && #[trigger] methods[i].name@ == name
}

/// No two methods of `methods` share a name.
pub open spec fn names_unique(methods: Seq<Method>) -> bool {
    forall|i: int, j: int|
        0 <= i < j < methods.len() ==> #[trigger] methods[i].name@ != #[trigger] methods[j].name@
}

/// The method that a foreign descriptor tuple stands for.
pub open spec fn method_of(d: (String, Option<String>, Vec<String>)) -> Method {
    Method { name: d.0, description: d.1, arguments: d.2 }
}

/// No descriptor before position `j` has the name of the one at `j`.
pub open spec fn first_of_name(d: Seq<(String, Option<String>, Vec<String>)>, j: int) -> bool {
    forall|k: int| 0 <= k < j ==> #[trigger] d[k].0@ != d[j].0@
}

/// The descriptors lifted into methods in their order, each one dropped when
/// an earlier one has its name.
pub open spec fn lifted(d: Seq<(String, Option<String>, Vec<String>)>) -> Seq<Method>
    decreases d.len(),
{
    if d.len() == 0 {
        Seq::empty()
    } else {
        let before = lifted(d.drop_last());
        if declares(before, d.last().0@) {
            before
        } else {
            before.push(method_of(d.last()))
        }
    }
}

/// Whether `methods` declares a method called `name`.
pub fn find_method(methods: &Vec<Method>, name: &str) -> (r: bool)
    ensures
        r == declares(methods@, name@),
{
    let wanted = String::from_str(name);
    let mut i: usize = 0;
    while i < methods.len()
        invariant
            i <= methods@.len(),
            wanted@ == name@,
            forall|j: int| 0 <= j < i ==> #[trigger] methods@[j].name@ != name@,
        decreases methods@.len() - i,
    {
        if methods[i].name.eq(&wanted) {
            return true;
        }
        i = i + 1;
    }
    false
}

/// Lifts the descriptor tuples that a foreign object reports into methods.
/// Of several tuples with one name only the first is kept, so the names of the
/// result are unique.
pub fn methods_from_descriptors(data: Vec<(String, Option<String>, Vec<String>)>) -> (r: Vec<Method>)
    ensures
        r@ == lifted(data@),
        names_unique(r@),
        forall|i: int|
            0 <= i < r@.len() ==> exists|j: int|
                0 <= j < data@.len() && first_of_name(data@, j) && #[trigger] r@[i]
                    == method_of(#[trigger] data@[j]),
        forall|j: int| 0 <= j < data@.len() ==> declares(r@, #[trigger] data@[j].0@),
{
    let ghost d = data@;
    let mut rest = data;
    let mut out: Vec<Method> = Vec::new();
    while rest.len() > 0
        invariant
            0 <= d.len() - rest@.len(),
            rest@ == d.subrange(d.len() - rest@.len(), d.len() as int),
            out@ == lifted(d.subrange(0, d.len() - rest@.len())),
            names_unique(out@),
            forall|i: int|
                0 <= i < out@.len() ==> exists|j: int|
                    0 <= j < d.len() && first_of_name(d, j) && #[trigger] out@[i]
                        == method_of(#[trigger] d[j]),
            forall|j: int| 0 <= j < d.len() - rest@.len() ==> declares(out@, #[trigger] d[j].0@),
        decreases rest@.len(),
    {
        let ghost k = d.len() - rest@.len();
        let item = rest.remove(0);
        assert(item == d[k]);
        assert(d.subrange(0, k + 1).drop_last() =~= d.subrange(0, k));
        assert(d.subrange(0, k + 1).last() == d[k]);
        let found = find_method(&out, item.0.as_str());
        if !found {
            proof {
                assert forall|m: int| 0 <= m < k implies #[trigger] d[m].0@ != d[k].0@ by {
                    assert(declares(out@, d[m].0@));
                }
            }
            let ghost before = out@;
            out.push(Method { name: item.0, description: item.1, arguments: item.2 });
            proof {
                assert(out@[before.len() as int] == method_of(d[k]));
                assert forall|i: int|
                    0 <= i < out@.len() implies exists|j: int|
                    0 <= j < d.len() && first_of_name(d, j) && #[trigger] out@[i]
                        == method_of(#[trigger] d[j]) by {
                    if i < before.len() {
                        assert(out@[i] == before[i]);
                    } else {
                        assert(first_of_name(d, k));
                    }
                }
                assert forall|j: int| 0 <= j < k + 1 implies declares(out@, #[trigger] d[j].0@) by {
                    if j < k {
                        let i = choose|i: int| 0 <= i < before.len() && #[trigger] before[i].name@ == d[j].0@;
                        assert(out@[i] == before[i]);
                    } else {
                        assert(out@[before.len() as int].name@ == d[j].0@);
                    }
                }
            }
        }
        assert(rest@ =~= d.subrange(d.len() - rest@.len(), d.len() as int));
    }
    assert(d.subrange(0, d.len() as int) =~= d);
    out
}

} // verus!
