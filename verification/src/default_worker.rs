use crate::error::Error;
use crate::worker::{InnerWorker, Platform, Worker};
use crate::ModuleId;
use serde_json::Value;
use std::collections::HashMap;
use std::time::Duration;
use vstd::prelude::*;

verus! {

/// A JSON value of `serde_json`. The library carries such values between the
/// caller and the interpreter and never looks inside one.
#[verifier::external_type_specification]
#[verifier::external_body]
pub struct ExValue(Value);

/// The source of a module: the name it is loaded under, and its text.
#[derive(Debug, Clone, PartialEq, Eq)]
pub struct Module {
    filename: String,
    contents: String,
}

impl Module {
    /// The name that the module is loaded under.
    pub closed spec fn spec_filename(self) -> Seq<char> {
        self.filename@
    }

    /// The text of the module.
    pub closed spec fn spec_contents(self) -> Seq<char> {
        self.contents@
    }

    /// A module with the given name and text.
    pub fn new(filename: &str, contents: &str) -> (module: Self)
        ensures
            module.spec_filename() == filename@,
            module.spec_contents() == contents@,
    {
        Module { filename: filename.to_owned(), contents: contents.to_owned() }
    }

    /// The name that the module is loaded under.
    pub fn filename(&self) -> (name: &str)
        ensures
            name@ == self.spec_filename(),
    {
        self.filename.as_str()
    }

    /// The text of the module.
    pub fn contents(&self) -> (text: &str)
        ensures
            text@ == self.spec_contents(),
    {
        self.contents.as_str()
    }
}

/// What an interpreter of the default binding is built from. `S` is the
/// interpreter's store for array buffers that several interpreters share.
#[derive(Default)]
pub struct DefaultWorkerOptions<S> {
    /// The function to call as a module's entrypoint where the module names none.
    pub default_entrypoint: Option<String>,
    /// How long the interpreter lets one operation run.
    pub timeout: Duration,
    /// A snapshot for the interpreter to start from.
    pub startup_snapshot: Option<&'static [u8]>,
    /// The store through which interpreters on several threads share data.
    pub shared_array_buffer_store: Option<S>,
}

impl<S: Clone> Clone for DefaultWorkerOptions<S> {
    fn clone(&self) -> (copy: Self)
        ensures
            copy.default_entrypoint == self.default_entrypoint,
            copy.timeout == self.timeout,
            copy.startup_snapshot == self.startup_snapshot,
            copy.shared_array_buffer_store is Some <==> self.shared_array_buffer_store is Some,
    {
        DefaultWorkerOptions {
            default_entrypoint: self.default_entrypoint.clone(),
            timeout: self.timeout,
            startup_snapshot: self.startup_snapshot,
            shared_array_buffer_store: self.shared_array_buffer_store.clone(),
        }
    }
}

/// What can be asked of a worker of the default binding.
pub enum DefaultWorkerQuery {
    /// Evaluate a piece of code.
    Eval(String),
    /// Load a module as the main module.
    LoadMainModule(Module),
    /// Load a module as a side module.
    LoadModule(Module),
    /// Call the entrypoint of a loaded module.
    CallEntrypoint(ModuleId, Vec<Value>),
    /// Call a function by name, in a loaded module or at the top level.
    CallFunction(Option<ModuleId>, String, Vec<Value>),
    /// Read a value by name, in a loaded module or at the top level.
    GetValue(Option<ModuleId>, String),
}

/// What a worker of the default binding answers.
pub enum DefaultWorkerResponse {
    /// A value.
    Value(Value),
    /// The identifier of a module that was loaded.
    ModuleId(ModuleId),
    /// Success, with nothing to hand back.
    Done(()),
    /// A failure, of the interpreter or of the dispatch.
    Error(Error),
}

/// The script interpreter that the default binding drives.
pub trait ScriptEngine: Send + Sized {
    /// An interpreter instance.
    type Runtime;

    /// A module that an interpreter instance has loaded.
    type Handle;

    /// The interpreter's store for shared array buffers.
    type BufferStore: Clone + Send + 'static;

    /// Builds an interpreter instance.
    fn start(options: DefaultWorkerOptions<Self::BufferStore>) -> Result<Self::Runtime, Error>;

    /// Evaluates a piece of code.
    fn eval(runtime: &mut Self::Runtime, code: &str) -> Result<Value, Error>;

    /// Loads a module, and gives the identifier that the instance assigned to
    /// it together with the module's handle.
    fn load_module(
        runtime: &mut Self::Runtime,
        module: &Module,
    ) -> Result<(ModuleId, Self::Handle), Error>;

    /// Calls the entrypoint of a loaded module.
    fn call_entrypoint(
        runtime: &mut Self::Runtime,
        module: &Self::Handle,
        args: &Vec<Value>,
    ) -> Result<Value, Error>;

    /// Calls a function by name, in `module` or at the top level.
    fn call_function(
        runtime: &mut Self::Runtime,
        module: Option<&Self::Handle>,
        name: &str,
        args: &Vec<Value>,
    ) -> Result<Value, Error>;

    /// Reads a value by name, in `module` or at the top level.
    fn get_value(
        runtime: &mut Self::Runtime,
        module: Option<&Self::Handle>,
        name: &str,
    ) -> Result<Value, Error>;
}

/// The module that a query is scoped to, where it names one.
pub open spec fn scope_of(query: DefaultWorkerQuery) -> Option<ModuleId> {
    match query {
        DefaultWorkerQuery::CallEntrypoint(id, _) => Some(id),
        DefaultWorkerQuery::CallFunction(scope, _, _) => scope,
        DefaultWorkerQuery::GetValue(scope, _) => scope,
        _ => None,
    }
}

/// Whether `query` is scoped to a module that is not among the `loaded` ones.
pub open spec fn names_unknown_module(query: DefaultWorkerQuery, loaded: Set<ModuleId>) -> bool {
    scope_of(query) matches Some(id) && !loaded.contains(id)
}

/// Whether `response` is the error that stands for a module that was never
/// loaded.
pub open spec fn is_module_not_found(response: DefaultWorkerResponse) -> bool {
    response matches DefaultWorkerResponse::Error(Error::Runtime(text)) && text@
        == "Module not found"@
}

/// The response to a query that names a module which is not loaded.
pub fn module_not_found() -> (response: DefaultWorkerResponse)
    ensures
        is_module_not_found(response),
{
    DefaultWorkerResponse::Error(Error::Runtime("Module not found".to_owned()))
}

/// Finds the handle that a scope stands for: none at the top level, the
/// module's own where the module is loaded.
pub fn resolve<'a, H>(
    modules: &'a HashMap<ModuleId, H>,
    scope: Option<ModuleId>,
) -> (found: Result<Option<&'a H>, DefaultWorkerResponse>)
    ensures
        match scope {
            None => found == Ok::<Option<&H>, DefaultWorkerResponse>(None),
            Some(id) => if modules@.contains_key(id) {
                found == Ok::<Option<&H>, DefaultWorkerResponse>(Some(&modules@[id]))
            } else {
                found matches Err(response) && is_module_not_found(response)
            },
        },
{
    broadcast use vstd::std_specs::hash::group_hash_axioms;

    match scope {
        None => Ok(None),
        Some(id) => match modules.get(&id) {
            Some(handle) => Ok(Some(handle)),
            None => Err(module_not_found()),
        },
    }
}

/// The response that carries what a call into the interpreter gave.
pub fn value_response(outcome: Result<Value, Error>) -> (response: DefaultWorkerResponse)
    ensures
        response == match outcome {
            Ok(value) => DefaultWorkerResponse::Value(value),
            Err(e) => DefaultWorkerResponse::Error(e),
        },
{
    match outcome {
        Ok(value) => DefaultWorkerResponse::Value(value),
        Err(e) => DefaultWorkerResponse::Error(e),
    }
}

/// Enters a module that was loaded into the table, and answers with its
/// identifier; a load that failed leaves the table as it was.
pub fn record_module<H>(
    modules: &mut HashMap<ModuleId, H>,
    outcome: Result<(ModuleId, H), Error>,
) -> (response: DefaultWorkerResponse)
    ensures
        match outcome {
            Ok((id, handle)) => response == DefaultWorkerResponse::ModuleId(id) && final(modules)@
                == old(modules)@.insert(id, handle),
            Err(e) => response == DefaultWorkerResponse::Error(e) && final(modules)@
                == old(modules)@,
        },
{
    broadcast use vstd::std_specs::hash::group_hash_axioms;

    match outcome {
        Ok((id, handle)) => {
            modules.insert(id, handle);
            DefaultWorkerResponse::ModuleId(id)
        },
        Err(e) => DefaultWorkerResponse::Error(e),
    }
}

/// Whether `after` is `before` with a module entered under `id`.
pub open spec fn entered<H>(before: Map<ModuleId, H>, after: Map<ModuleId, H>, id: ModuleId) -> bool {
    exists|handle: H| after == #[trigger] before.insert(id, handle)
}

/// What a worker of the default binding may answer to `query`, and what
/// becomes of its table of modules, `before` the query and `after` it.
///
/// A query scoped to a module that is not loaded is answered with the error
/// for that, and nothing changes. A load that succeeds enters one module into
/// the table and answers with its identifier. Every other query leaves the
/// table alone and is answered with a value or an error.
pub open spec fn answers<H>(
    query: DefaultWorkerQuery,
    before: Map<ModuleId, H>,
    after: Map<ModuleId, H>,
    response: DefaultWorkerResponse,
) -> bool {
    if query is LoadMainModule || query is LoadModule {
        match response {
            DefaultWorkerResponse::ModuleId(id) => entered(before, after, id),
            DefaultWorkerResponse::Error(_) => after == before,
            _ => false,
        }
    } else {
        &&& after == before
        &&& if names_unknown_module(query, before.dom()) {
            is_module_not_found(response)
        } else {
            response is Value || response is Error
        }
    }
}

/// Has the interpreter load a module, and enters it into the table.
fn load<E: ScriptEngine>(
    runtime: &mut E::Runtime,
    modules: &mut HashMap<ModuleId, E::Handle>,
    module: &Module,
) -> (response: DefaultWorkerResponse)
    ensures
        match response {
            DefaultWorkerResponse::ModuleId(id) => entered(old(modules)@, final(modules)@, id),
            DefaultWorkerResponse::Error(_) => final(modules)@ == old(modules)@,
            _ => false,
        },
{
    let outcome = E::load_module(runtime, module);
    record_module(modules, outcome)
}

/// Answers one query with the interpreter `runtime` and the table `modules`
/// of the modules that it has loaded.
pub fn dispatch<E: ScriptEngine>(
    runtime: &mut E::Runtime,
    modules: &mut HashMap<ModuleId, E::Handle>,
    query: DefaultWorkerQuery,
) -> (response: DefaultWorkerResponse)
    ensures
        answers(query, old(modules)@, final(modules)@, response),
        names_unknown_module(query, old(modules)@.dom()) ==> *final(runtime) == *old(runtime),
{
    match query {
        DefaultWorkerQuery::Eval(code) => value_response(E::eval(runtime, code.as_str())),
        DefaultWorkerQuery::LoadMainModule(module) => load::<E>(runtime, modules, &module),
        DefaultWorkerQuery::LoadModule(module) => load::<E>(runtime, modules, &module),
        DefaultWorkerQuery::CallEntrypoint(id, args) => match resolve(modules, Some(id)) {
            Ok(Some(handle)) => value_response(E::call_entrypoint(runtime, handle, &args)),
            Ok(None) => module_not_found(),
            Err(response) => response,
        },
        DefaultWorkerQuery::CallFunction(scope, name, args) => match resolve(modules, scope) {
            Ok(handle) => value_response(E::call_function(runtime, handle, name.as_str(), &args)),
            Err(response) => response,
        },
        DefaultWorkerQuery::GetValue(scope, name) => match resolve(modules, scope) {
            Ok(handle) => value_response(E::get_value(runtime, handle, name.as_str())),
            Err(response) => response,
        },
    }
}

/// A query that names a module which is not loaded is answered with the
/// error for that, whatever the interpreter would have done with it, and the
/// table of modules stays as it was.
pub proof fn lemma_unknown_module_is_refused<H>(
    query: DefaultWorkerQuery,
    before: Map<ModuleId, H>,
    after: Map<ModuleId, H>,
    response: DefaultWorkerResponse,
)
    requires
        answers(query, before, after, response),
        names_unknown_module(query, before.dom()),
    ensures
        is_module_not_found(response),
        after == before,
{
}

/// What a caller who asked for a value gets out of a response.
pub open spec fn is_value_of(result: Result<Value, Error>, response: DefaultWorkerResponse) -> bool {
    match response {
        DefaultWorkerResponse::Value(value) => result == Ok::<Value, Error>(value),
        DefaultWorkerResponse::Error(e) => result == Err::<Value, Error>(e),
        _ => result matches Err(Error::Runtime(text)) && text@
            == "Unexpected response from the worker"@,
    }
}

/// What a caller who loaded a module gets out of a response.
pub open spec fn is_module_id_of(
    result: Result<ModuleId, Error>,
    response: DefaultWorkerResponse,
) -> bool {
    match response {
        DefaultWorkerResponse::ModuleId(id) => result == Ok::<ModuleId, Error>(id),
        DefaultWorkerResponse::Error(e) => result == Err::<ModuleId, Error>(e),
        _ => result matches Err(Error::Runtime(text)) && text@
            == "Unexpected response from the worker"@,
    }
}

/// Reads a response as the value that was asked for.
pub fn value_of(response: DefaultWorkerResponse) -> (result: Result<Value, Error>)
    ensures
        is_value_of(result, response),
{
    match response {
        DefaultWorkerResponse::Value(value) => Ok(value),
        DefaultWorkerResponse::Error(e) => Err(e),
        _ => Err(Error::Runtime("Unexpected response from the worker".to_owned())),
    }
}

/// Reads a response as the identifier of the module that was loaded.
pub fn module_id_of(response: DefaultWorkerResponse) -> (result: Result<ModuleId, Error>)
    ensures
        is_module_id_of(result, response),
{
    match response {
        DefaultWorkerResponse::ModuleId(id) => Ok(id),
        DefaultWorkerResponse::Error(e) => Err(e),
        _ => Err(Error::Runtime("Unexpected response from the worker".to_owned())),
    }
}

/// Every script engine can be run by a worker: its worker keeps, beside the
/// interpreter, the table of the modules that it has loaded, starts with an
/// empty one, and answers the queries of the default binding.
impl<E: ScriptEngine> InnerWorker for E {
    type Runtime = (E::Runtime, HashMap<ModuleId, E::Handle>);

    type RuntimeOptions = DefaultWorkerOptions<E::BufferStore>;

    type Query = DefaultWorkerQuery;

    type Response = DefaultWorkerResponse;

    fn init_runtime(options: Self::RuntimeOptions) -> (result: Result<Self::Runtime, Error>)
        ensures
            result matches Ok(runtime) ==> runtime.1@ == Map::<ModuleId, E::Handle>::empty(),
    {
        match E::start(options) {
            Ok(runtime) => Ok((runtime, HashMap::new())),
            Err(e) => Err(e),
        }
    }

    fn handle_query(runtime: &mut Self::Runtime, query: Self::Query) -> (response: Self::Response)
        ensures
            answers(query, old(runtime).1@, final(runtime).1@, response),
            names_unknown_module(query, old(runtime).1@.dom()) ==> final(runtime).0 == old(runtime).0,
    {
        dispatch::<E>(&mut runtime.0, &mut runtime.1, query)
    }
}

/// A worker of the default binding, with one call for each kind of query.
pub struct DefaultWorker<E: ScriptEngine, P: Platform>(Worker<E, P>);

impl<E: ScriptEngine, P: Platform> DefaultWorker<E, P> {
    /// The worker underneath.
    pub closed spec fn worker(self) -> Worker<E, P> {
        self.0
    }

    /// Starts a worker with an interpreter built from `options`.
    pub fn new(options: DefaultWorkerOptions<E::BufferStore>) -> (result: Result<Self, Error>)
        ensures
            result matches Ok(made) ==> made.worker().is_live(),
    {
        match Worker::new(options) {
            Ok(worker) => Ok(DefaultWorker(worker)),
            Err(e) => Err(e),
        }
    }

    /// Sends one query and reads the response as a value.
    fn ask_value(&self, query: DefaultWorkerQuery) -> (result: Result<Value, Error>)
        ensures
            !self.worker().is_live() ==> result == Err::<Value, Error>(Error::WorkerHasStopped),
    {
        match self.0.send_and_await(query) {
            Ok(response) => value_of(response),
            Err(e) => Err(e),
        }
    }

    /// Sends one query and reads the response as a module's identifier.
    fn ask_module_id(&self, query: DefaultWorkerQuery) -> (result: Result<ModuleId, Error>)
        ensures
            !self.worker().is_live() ==> result == Err::<ModuleId, Error>(Error::WorkerHasStopped),
    {
        match self.0.send_and_await(query) {
            Ok(response) => module_id_of(response),
            Err(e) => Err(e),
        }
    }

    /// Evaluates a piece of code and gives its value.
    pub fn eval(&self, code: String) -> (result: Result<Value, Error>)
        ensures
            !self.worker().is_live() ==> result == Err::<Value, Error>(Error::WorkerHasStopped),
    {
        self.ask_value(DefaultWorkerQuery::Eval(code))
    }

    /// Loads a module as the main module and gives its identifier.
    pub fn load_main_module(&self, module: Module) -> (result: Result<ModuleId, Error>)
        ensures
            !self.worker().is_live() ==> result == Err::<ModuleId, Error>(Error::WorkerHasStopped),
    {
        self.ask_module_id(DefaultWorkerQuery::LoadMainModule(module))
    }

    /// Loads a module as a side module and gives its identifier.
    pub fn load_module(&self, module: Module) -> (result: Result<ModuleId, Error>)
        ensures
            !self.worker().is_live() ==> result == Err::<ModuleId, Error>(Error::WorkerHasStopped),
    {
        self.ask_module_id(DefaultWorkerQuery::LoadModule(module))
    }

    /// Calls the entrypoint of the module `id` and gives what it returned.
    pub fn call_entrypoint(&self, id: ModuleId, args: Vec<Value>) -> (result: Result<Value, Error>)
        ensures
            !self.worker().is_live() ==> result == Err::<Value, Error>(Error::WorkerHasStopped),
    {
        self.ask_value(DefaultWorkerQuery::CallEntrypoint(id, args))
    }

    /// Calls the function `name`, in the module `module_context` or at the
    /// top level, and gives what it returned.
    pub fn call_function(
        &self,
        module_context: Option<ModuleId>,
        name: String,
        args: Vec<Value>,
    ) -> (result: Result<Value, Error>)
        ensures
            !self.worker().is_live() ==> result == Err::<Value, Error>(Error::WorkerHasStopped),
    {
        self.ask_value(DefaultWorkerQuery::CallFunction(module_context, name, args))
    }

    /// Reads the value `name`, in the module `module_context` or at the top
    /// level.
    pub fn get_value(
        &self,
        module_context: Option<ModuleId>,
        name: String,
    ) -> (result: Result<Value, Error>)
        ensures
            !self.worker().is_live() ==> result == Err::<Value, Error>(Error::WorkerHasStopped),
    {
        self.ask_value(DefaultWorkerQuery::GetValue(module_context, name))
    }
}

} // verus!
