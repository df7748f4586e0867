use vstd::prelude::*;

use cpython::{NoArgs, ObjectProtocol, PyDict, PyErr, PyModule, PyObject, Python};

use crate::args::InvocationArgs;
use crate::node::{declares, lifted, methods_from_descriptors, names_unique, Method, Mode, NodeError, NodeKind, Reply};

verus! {

#[verifier::external_type_specification]
#[verifier::external_body]
pub struct ExPyModule(cpython::PyModule);

#[verifier::external_type_specification]
#[verifier::external_body]
pub struct ExPyObject(cpython::PyObject);

#[verifier::external_type_specification]
#[verifier::external_body]
pub struct ExPyErr(cpython::PyErr);

#[verifier::external_type_specification]
#[verifier::external_body]
pub struct ExJsonError(serde_json::Error);

/// Whether `serde_json` accepts `s` as the text of exactly one JSON value.
pub uninterp spec fn is_json_text(s: Seq<char>) -> bool;

/// One step that runs code inside the foreign runtime.
pub enum ForeignStep {
    /// Importing the module of this name.
    Import(Seq<char>),
    /// Reading the attribute of this name from a module.
    Attribute(Seq<char>),
    /// Inserting this text at the front of a list.
    InsertFirst(Seq<char>),
    /// Looking up the class of this name in the extension namespace and
    /// calling it with no arguments.
    Construct(Seq<char>),
    /// Calling the extension function of this name on the node's object.
    Apply(Seq<char>),
    /// Calling the extension function named first on the node's object, the
    /// method name and a dictionary holding exactly the given arguments.
    Invoke(Seq<char>, Seq<char>, Map<Seq<char>, Seq<char>>),
}

/// A step that ran, and whether the foreign code raised.
pub struct ForeignCall {
    pub step: ForeignStep,
    pub raised: bool,
}

/// `step` ran and returned.
pub open spec fn done(step: ForeignStep) -> ForeignCall {
    ForeignCall { step, raised: false }
}

/// `step` ran and raised.
pub open spec fn raised(step: ForeignStep) -> ForeignCall {
    ForeignCall { step, raised: true }
}

/// The foreign runtime of the process. Every operation that runs code inside
/// it borrows this handle mutably, so no two of them ever overlap; the
/// application creates one and shares it behind a lock. The handle records
/// each step run inside the runtime.
pub struct ForeignRuntime {
    log: Ghost<Seq<ForeignCall>>,
}

impl ForeignRuntime {
    pub fn new() -> (r: ForeignRuntime)
        ensures
            r.invoked() == Seq::<ForeignCall>::empty(),
    {
        ForeignRuntime { log: Ghost(Seq::empty()) }
    }

    /// The steps run inside the runtime so far, oldest first.
    pub closed spec fn invoked(&self) -> Seq<ForeignCall> {
        self.log@
    }
}

/// Relies on cpython's `PyModule::import`: imports the module called `name`,
/// and raises when it cannot. It panics on a name holding a NUL character.
#[verifier::external_body]
fn import_module(rt: &mut ForeignRuntime, name: &str) -> (r: Result<PyModule, PyErr>)
    requires
        forall|i: int| 0 <= i < name@.len() ==> name@[i] != '\0',
    ensures
        final(rt).invoked() == old(rt).invoked().push(
            ForeignCall { step: ForeignStep::Import(name@), raised: r is Err },
        ),
{
    let gil = Python::acquire_gil();
    PyModule::import(gil.python(), name)
}

/// Relies on cpython's `PyModule::get`: the attribute `name` of `module`.
#[verifier::external_body]
fn module_attr(rt: &mut ForeignRuntime, module: &PyModule, name: &str) -> (r: Result<PyObject, PyErr>)
    ensures
        final(rt).invoked() == old(rt).invoked().push(
            ForeignCall { step: ForeignStep::Attribute(name@), raised: r is Err },
        ),
{
    let gil = Python::acquire_gil();
    module.get(gil.python(), name)
}

/// Relies on cpython's `ObjectProtocol::call_method`: calls `list.insert(0, item)`.
#[verifier::external_body]
fn insert_first(rt: &mut ForeignRuntime, list: &PyObject, item: &str) -> (r: Result<(), PyErr>)
    ensures
        final(rt).invoked() == old(rt).invoked().push(
            ForeignCall { step: ForeignStep::InsertFirst(item@), raised: r is Err },
        ),
{
    let gil = Python::acquire_gil();
    list.call_method(gil.python(), "insert", (0, item), None).map(|_| ())
}

/// Relies on cpython's `PyModule::call`: calls `module.class_name()`.
#[verifier::external_body]
fn construct(rt: &mut ForeignRuntime, module: &PyModule, class_name: &str) -> (r: Result<PyObject, PyErr>)
    ensures
        final(rt).invoked() == old(rt).invoked().push(
            ForeignCall { step: ForeignStep::Construct(class_name@), raised: r is Err },
        ),
{
    let gil = Python::acquire_gil();
    module.call(gil.python(), class_name, NoArgs, None)
}

/// Relies on cpython's `PyModule::call`: calls `module.function(node)`.
#[verifier::external_body]
fn apply(rt: &mut ForeignRuntime, module: &PyModule, function: &str, node: &PyObject) -> (r: Result<PyObject, PyErr>)
    ensures
        final(rt).invoked() == old(rt).invoked().push(
            ForeignCall { step: ForeignStep::Apply(function@), raised: r is Err },
        ),
{
    let gil = Python::acquire_gil();
    module.call(gil.python(), function, (node,), None)
}

/// Relies on cpython's `PyModule::call`: calls `module.function(node, name,
/// args)`, where `args` is a dictionary built from the pairs of `args`. The
/// values travel as objects, never as source text.
#[verifier::external_body]
fn invoke_with(
    rt: &mut ForeignRuntime,
    module: &PyModule,
    function: &str,
    node: &PyObject,
    name: &str,
    args: &InvocationArgs,
) -> (r: Result<PyObject, PyErr>)
    ensures
        final(rt).invoked() == old(rt).invoked().push(
            ForeignCall { step: ForeignStep::Invoke(function@, name@, args@), raised: r is Err },
        ),
{
    let gil = Python::acquire_gil();
    let py = gil.python();
    let dict = PyDict::new(py);
    for (k, v) in args.entries.iter() {
        dict.set_item(py, k.as_str(), v.as_str())?;
    }
    module.call(py, function, (node, name, dict), None)
}

/// Relies on cpython's `PyObject::extract`: the object as a string.
#[verifier::external_body]
fn extract_text(o: &PyObject) -> (r: Result<String, PyErr>) {
    let gil = Python::acquire_gil();
    o.extract(gil.python())
}

/// Relies on cpython's `PyObject::extract`: the object as a string or `None`.
#[verifier::external_body]
fn extract_optional_text(o: &PyObject) -> (r: Result<Option<String>, PyErr>) {
    let gil = Python::acquire_gil();
    o.extract(gil.python())
}

/// Relies on cpython's `PyObject::extract`: the object as a sequence of
/// `(name, description, argument names)` tuples.
#[verifier::external_body]
fn extract_descriptors(o: &PyObject) -> (r: Result<Vec<(String, Option<String>, Vec<String>)>, PyErr>) {
    let gil = Python::acquire_gil();
    o.extract(gil.python())
}

/// Relies on `serde_json::from_str`: decodes one JSON value, and fails exactly
/// when the text is not one.
#[verifier::external_body]
fn decode_json(text: &str) -> (r: Result<serde_json::Value, serde_json::Error>)
    ensures
        r is Ok == is_json_text(text@),
{
    serde_json::from_str(text)
}

/// Turns the text that a foreign invocation returned into its reply.
pub fn decode_reply(text: &str) -> (r: Result<Reply, NodeError>)
    ensures
        r is Ok == is_json_text(text@),
        r matches Ok(v) ==> v is Json,
        r is Err ==> r == Err::<Reply, NodeError>(NodeError::ResultDecode),
{
    match decode_json(text) {
        Ok(v) => Ok(Reply::Json(v)),
        Err(_) => Err(NodeError::ResultDecode),
    }
}

/// The extension function that lists the methods of a set.
pub open spec fn listing_of(mode: Mode) -> Seq<char> {
    match mode {
        Mode::Get => "node_getters"@,
        Mode::Update => "node_updaters"@,
    }
}

/// The extension function that runs a method of a set.
pub open spec fn invoker_of(mode: Mode) -> Seq<char> {
    match mode {
        Mode::Get => "do_node_getter"@,
        Mode::Update => "do_node_updater"@,
    }
}

/// The log `before` once a load has run every one of its steps: the module
/// path gets `path` first, the extension namespace is imported, and `class`
/// is looked up in it and called with no arguments.
pub open spec fn load_log(before: Seq<ForeignCall>, path: Seq<char>, class: Seq<char>) -> Seq<
    ForeignCall,
> {
    before.push(done(ForeignStep::Import("sys"@))).push(done(ForeignStep::Attribute("path"@))).push(
        done(ForeignStep::InsertFirst(path)),
    ).push(done(ForeignStep::Import("libfledge.nodes"@))).push(done(ForeignStep::Construct(class)))
}

/// Of two steps, `first` runs; `second` runs only when `first` returned and
/// what it returned decoded. The reply is `ForeignInvocation` exactly when a
/// step raised, and `ResultDecode` only when no step raised.
pub open spec fn two_steps_logged(
    r_ok: bool,
    r_err: Option<NodeError>,
    before: Seq<ForeignCall>,
    after: Seq<ForeignCall>,
    first: ForeignStep,
    second: ForeignStep,
) -> bool {
    &&& r_ok ==> after == before.push(done(first)).push(done(second))
    &&& r_err == Some(NodeError::ResultDecode) ==> (after == before.push(done(first)) || after
        == before.push(done(first)).push(done(second)))
    &&& r_err == Some(NodeError::ForeignInvocation) ==> (after == before.push(raised(first))
        || after == before.push(done(first)).push(raised(second)))
    &&& after == before.push(raised(first)) ==> r_err == Some(NodeError::ForeignInvocation)
    &&& after == before.push(done(first)).push(raised(second)) ==> r_err == Some(
        NodeError::ForeignInvocation,
    )
}

/// The error of a reply, if it is one.
pub open spec fn error_of<T>(r: Result<T, NodeError>) -> Option<NodeError> {
    match r {
        Ok(_) => None,
        Err(e) => Some(e),
    }
}

/// What an invocation of the method `name` of the set `mode` leaves in the
/// log and replies: the set is listed; an undeclared name stops there as
/// `UnknownMethod`; a declared one is run once with `name` and `args`
/// verbatim, and its reply decoded.
pub open spec fn invocation_logged(
    r: Result<Reply, NodeError>,
    before: Seq<ForeignCall>,
    after: Seq<ForeignCall>,
    mode: Mode,
    name: Seq<char>,
    args: Map<Seq<char>, Seq<char>>,
) -> bool {
    let first = ForeignStep::Apply(listing_of(mode));
    &&& two_steps_logged(
        r is Ok,
        error_of(r),
        before,
        after,
        first,
        ForeignStep::Invoke(invoker_of(mode), name, args),
    )
    &&& r == Err::<Reply, NodeError>(NodeError::UnknownMethod) ==> after == before.push(done(first))
    &&& r matches Ok(v) ==> v is Json
    &&& r is Err ==> r == Err::<Reply, NodeError>(NodeError::UnknownMethod) || r == Err::<
        Reply,
        NodeError,
    >(NodeError::ForeignInvocation) || r == Err::<Reply, NodeError>(NodeError::ResultDecode)
}

/// A node whose behaviour lives in an object of the foreign runtime.
pub struct PythonNode {
    functions: PyModule,
    object: PyObject,
    search_path: String,
    class_name: String,
}

impl PythonNode {
    /// The search path that the node was loaded with.
    pub closed spec fn search_path(&self) -> Seq<char> {
        self.search_path@
    }

    /// The name of the extension class that the node was loaded from.
    pub closed spec fn class_name(&self) -> Seq<char> {
        self.class_name@
    }

    /// Loads the node: puts `search_path` first on the foreign module path,
    /// imports the extension namespace and instantiates `class_name` in it
    /// with no arguments. `settings` is accepted for the construction contract
    /// but not handed to the foreign constructor.
    pub fn load(
        rt: &mut ForeignRuntime,
        search_path: String,
        class_name: String,
        settings: &serde_json::Value,
    ) -> (r: Result<PythonNode, NodeError>)
        ensures
            r matches Ok(n) ==> n.search_path() == search_path@ && n.class_name() == class_name@,
            r is Ok ==> final(rt).invoked() == load_log(old(rt).invoked(), search_path@, class_name@),
            r is Err ==> r == Err::<PythonNode, NodeError>(NodeError::ForeignInvocation)
                && final(rt).invoked().len() > old(rt).invoked().len()
                && final(rt).invoked().last().raised,
    {
        proof {
            reveal_strlit("sys");
            reveal_strlit("libfledge.nodes");
        }
        let sys = match import_module(rt, "sys") {
            Ok(m) => m,
            Err(_) => return Err(NodeError::ForeignInvocation),
        };
        let path = match module_attr(rt, &sys, "path") {
            Ok(p) => p,
            Err(_) => return Err(NodeError::ForeignInvocation),
        };
        if insert_first(rt, &path, search_path.as_str()).is_err() {
            return Err(NodeError::ForeignInvocation);
        }
        let functions = match import_module(rt, "libfledge.nodes") {
            Ok(m) => m,
            Err(_) => return Err(NodeError::ForeignInvocation),
        };
        let object = match construct(rt, &functions, class_name.as_str()) {
            Ok(o) => o,
            Err(_) => return Err(NodeError::ForeignInvocation),
        };
        Ok(PythonNode { functions, object, search_path, class_name })
    }

    /// The node's kind, as `kind_name` and `kind_description` report it. A
    /// reply of the wrong type is a `ResultDecode` error.
    pub fn node_kind(&self, rt: &mut ForeignRuntime) -> (r: Result<NodeKind, NodeError>)
        ensures
            two_steps_logged(
                r is Ok,
                error_of(r),
                old(rt).invoked(),
                final(rt).invoked(),
                ForeignStep::Apply("kind_name"@),
                ForeignStep::Apply("kind_description"@),
            ),
            r is Err ==> r == Err::<NodeKind, NodeError>(NodeError::ForeignInvocation) || r == Err::<
                NodeKind,
                NodeError,
            >(NodeError::ResultDecode),
    {
        let ghost before = rt.invoked();
        let ghost first = ForeignStep::Apply("kind_name"@);
        let ghost second = ForeignStep::Apply("kind_description"@);
        proof {
            assert(before.push(done(first)).last() != before.push(raised(first)).last());
            assert(before.push(raised(first)).len() != before.push(done(first)).push(raised(second)).len());
            assert(before.push(done(first)).len() != before.push(done(first)).push(raised(second)).len());
            assert(before.push(done(first)).push(done(second)).last()
                != before.push(done(first)).push(raised(second)).last());
        }
        let name = match apply(rt, &self.functions, "kind_name", &self.object) {
            Ok(o) => match extract_text(&o) {
                Ok(s) => s,
                Err(_) => return Err(NodeError::ResultDecode),
            },
            Err(_) => return Err(NodeError::ForeignInvocation),
        };
        let description = match apply(rt, &self.functions, "kind_description", &self.object) {
            Ok(o) => match extract_optional_text(&o) {
                Ok(s) => s,
                Err(_) => return Err(NodeError::ResultDecode),
            },
            Err(_) => return Err(NodeError::ForeignInvocation),
        };
        Ok(NodeKind::new(name, description))
    }

    /// The declared getters or updaters: the foreign descriptors lifted in
    /// order, later repeats of a name dropped. A listing of the wrong shape is
    /// a `ResultDecode` error.
    fn methods(&self, rt: &mut ForeignRuntime, mode: Mode) -> (r: Result<Vec<Method>, NodeError>)
        ensures
            final(rt).invoked() == old(rt).invoked().push(
                ForeignCall {
                    step: ForeignStep::Apply(listing_of(mode)),
                    raised: r == Err::<Vec<Method>, NodeError>(NodeError::ForeignInvocation),
                },
            ),
            r matches Ok(m) ==> names_unique(m@) && exists|d: Seq<(String, Option<String>, Vec<String>)>|
                m@ == lifted(d),
            r is Err ==> r == Err::<Vec<Method>, NodeError>(NodeError::ForeignInvocation) || r
                == Err::<Vec<Method>, NodeError>(NodeError::ResultDecode),
    {
        let listing = match mode {
            Mode::Get => "node_getters",
            Mode::Update => "node_updaters",
        };
        let o = match apply(rt, &self.functions, listing, &self.object) {
            Ok(o) => o,
            Err(_) => return Err(NodeError::ForeignInvocation),
        };
        match extract_descriptors(&o) {
            Ok(d) => Ok(methods_from_descriptors(d)),
            Err(_) => Err(NodeError::ResultDecode),
        }
    }

    pub fn getters(&self, rt: &mut ForeignRuntime) -> (r: Result<Vec<Method>, NodeError>)
        ensures
            final(rt).invoked() == old(rt).invoked().push(
                ForeignCall {
                    step: ForeignStep::Apply("node_getters"@),
                    raised: r == Err::<Vec<Method>, NodeError>(NodeError::ForeignInvocation),
                },
            ),
            r matches Ok(m) ==> names_unique(m@) && exists|d: Seq<(String, Option<String>, Vec<String>)>|
                m@ == lifted(d),
            r is Err ==> r == Err::<Vec<Method>, NodeError>(NodeError::ForeignInvocation) || r
                == Err::<Vec<Method>, NodeError>(NodeError::ResultDecode),
    {
        self.methods(rt, Mode::Get)
    }

    pub fn updaters(&self, rt: &mut ForeignRuntime) -> (r: Result<Vec<Method>, NodeError>)
        ensures
            final(rt).invoked() == old(rt).invoked().push(
                ForeignCall {
                    step: ForeignStep::Apply("node_updaters"@),
                    raised: r == Err::<Vec<Method>, NodeError>(NodeError::ForeignInvocation),
                },
            ),
            r matches Ok(m) ==> names_unique(m@) && exists|d: Seq<(String, Option<String>, Vec<String>)>|
                m@ == lifted(d),
            r is Err ==> r == Err::<Vec<Method>, NodeError>(NodeError::ForeignInvocation) || r
                == Err::<Vec<Method>, NodeError>(NodeError::ResultDecode),
    {
        self.methods(rt, Mode::Update)
    }

    /// Runs the getter or updater `name`: lists the set, refuses an
    /// undeclared name without calling into the object, and otherwise calls
    /// the set's invoker once and decodes its reply.
    fn invoke(&self, rt: &mut ForeignRuntime, mode: Mode, name: &str, args: &InvocationArgs) -> (r:
        Result<Reply, NodeError>)
        ensures
            invocation_logged(r, old(rt).invoked(), final(rt).invoked(), mode, name@, args@),
    {
        let ghost before = rt.invoked();
        let ghost first = ForeignStep::Apply(listing_of(mode));
        let ghost second = ForeignStep::Invoke(invoker_of(mode), name@, args@);
        let declared = match self.methods(rt, mode) {
            Ok(m) => m,
            Err(e) => {
                proof {
                    assert(before.push(raised(first)).len() != before.push(done(first)).push(raised(second)).len());
                    assert(before.push(done(first)).last() != before.push(raised(first)).last());
                }
                return Err(e);
            },
        };
        if checked_invocation(&declared, name).is_err() {
            proof {
                assert(before.push(done(first)).last() != before.push(raised(first)).last());
            }
            return Err(NodeError::UnknownMethod);
        }
        let invoker = match mode {
            Mode::Get => "do_node_getter",
            Mode::Update => "do_node_updater",
        };
        let text = match invoke_with(rt, &self.functions, invoker, &self.object, name, args) {
            Ok(out) => match extract_text(&out) {
                Ok(t) => t,
                Err(_) => {
                    proof {
                        assert(before.push(done(first)).push(done(second)).last()
                            != before.push(done(first)).push(raised(second)).last());
                    }
                    return Err(NodeError::ResultDecode);
                },
            },
            Err(_) => {
                proof {
                    assert(before.push(done(first)).push(raised(second)).last()
                        != before.push(done(first)).push(done(second)).last());
                }
                return Err(NodeError::ForeignInvocation);
            },
        };
        proof {
            assert(before.push(done(first)).push(done(second)).last()
                != before.push(done(first)).push(raised(second)).last());
        }
        decode_reply(text.as_str())
    }

    /// Runs the getter `name` with `arguments`.
    pub fn do_getter(&self, rt: &mut ForeignRuntime, name: &str, arguments: &InvocationArgs) -> (r:
        Result<Reply, NodeError>)
        ensures
            invocation_logged(r, old(rt).invoked(), final(rt).invoked(), Mode::Get, name@, arguments@),
    {
        self.invoke(rt, Mode::Get, name, arguments)
    }

    /// Runs the updater `name` with `arguments`.
    pub fn do_updater(&mut self, rt: &mut ForeignRuntime, name: &str, arguments: &InvocationArgs) -> (r:
        Result<Reply, NodeError>)
        ensures
            invocation_logged(r, old(rt).invoked(), final(rt).invoked(), Mode::Update, name@, arguments@),
    {
        self.invoke(rt, Mode::Update, name, arguments)
    }
}

/// Whether an invocation of `name` may go ahead, given the declared methods:
/// an undeclared name is an `UnknownMethod` error.
pub fn checked_invocation(declared: &Vec<Method>, name: &str) -> (r: Result<(), NodeError>)
    ensures
        r is Ok == declares(declared@, name@),
        r is Err ==> r == Err::<(), NodeError>(NodeError::UnknownMethod),
{
    if crate::node::find_method(declared, name) {
        Ok(())
    } else {
        Err(NodeError::UnknownMethod)
    }
}

} // verus!
