use script_worker::default_worker::{
    dispatch, module_id_of, module_not_found, record_module, resolve, value_of, value_response,
    DefaultWorker, DefaultWorkerOptions, DefaultWorkerQuery, DefaultWorkerResponse, Module,
    ScriptEngine,
};
use script_worker::error::Error;
use script_worker::pool::WorkerPool;
use script_worker::worker::{InnerWorker, Platform, Worker};
use script_worker::ModuleId;
use serde_json::Value;
use std::collections::HashMap;
use std::sync::mpsc::{channel, Receiver};
use std::time::Duration;
use threadpool::ThreadPool;

struct Threads;

struct Running {
    _pool: ThreadPool,
    done: Receiver<()>,
}

impl Platform for Threads {
    type Thread = Running;

    fn init(_n_threads: u32) {}

    fn spawn<F>(body: F) -> Self::Thread
    where
        F: FnOnce() + Send + 'static,
    {
        let pool = ThreadPool::new(1);
        let (tx, done) = channel();
        pool.execute(move || {
            body();
            let _ = tx.send(());
        });
        Running { _pool: pool, done }
    }

    fn join(thread: Self::Thread) -> Result<(), Option<String>> {
        thread.done.recv().map_err(|_| None)
    }
}

/// An interpreter small enough to read: it adds integers, keeps the text of
/// the modules it was given, and echoes the first argument of a call.
struct Toy;

struct ToyRuntime {
    calls: usize,
    next_id: ModuleId,
    entrypoint: Option<String>,
}

struct ToyModule {
    name: String,
    text: String,
}

fn touch(runtime: &mut ToyRuntime) {
    runtime.calls += 1;
}

impl ScriptEngine for Toy {
    type Runtime = ToyRuntime;
    type Handle = ToyModule;
    type BufferStore = ();

    fn start(options: DefaultWorkerOptions<()>) -> Result<ToyRuntime, Error> {
        if options.timeout == Duration::from_secs(0) && options.default_entrypoint.is_none() {
            return Err(Error::Runtime("an interpreter needs a timeout".to_string()));
        }
        Ok(ToyRuntime { calls: 0, next_id: 0, entrypoint: options.default_entrypoint })
    }

    fn eval(runtime: &mut ToyRuntime, code: &str) -> Result<Value, Error> {
        touch(runtime);
        let mut sum: i64 = 0;
        for term in code.split('+') {
            match term.trim().parse::<i64>() {
                Ok(n) => sum += n,
                Err(_) => return Err(Error::Runtime(format!("cannot evaluate `{}`", code))),
            }
        }
        Ok(Value::from(sum))
    }

    fn load_module(runtime: &mut ToyRuntime, module: &Module) -> Result<(ModuleId, ToyModule), Error> {
        touch(runtime);
        if module.contents().contains("syntax error") {
            return Err(Error::Runtime(format!("{} does not parse", module.filename())));
        }
        let id = runtime.next_id;
        runtime.next_id += 1;
        Ok((id, ToyModule { name: module.filename().to_string(), text: module.contents().to_string() }))
    }

    fn call_entrypoint(runtime: &mut ToyRuntime, module: &ToyModule, args: &Vec<Value>) -> Result<Value, Error> {
        touch(runtime);
        if module.text.contains("export default") || runtime.entrypoint.is_some() {
            Ok(args.first().cloned().unwrap_or(Value::Null))
        } else {
            Err(Error::Runtime(format!("{} has no entrypoint", module.name)))
        }
    }

    fn call_function(
        runtime: &mut ToyRuntime,
        module: Option<&ToyModule>,
        name: &str,
        args: &Vec<Value>,
    ) -> Result<Value, Error> {
        touch(runtime);
        let scope = module.map(|m| m.name.clone()).unwrap_or_else(|| "global".to_string());
        Ok(Value::from(format!("{}::{}/{}", scope, name, args.len())))
    }

    fn get_value(runtime: &mut ToyRuntime, module: Option<&ToyModule>, name: &str) -> Result<Value, Error> {
        touch(runtime);
        match module {
            Some(m) if m.text.contains(name) => Ok(Value::from(format!("{} of {}", name, m.name))),
            Some(m) => Err(Error::Runtime(format!("{} has no {}", m.name, name))),
            None => Ok(Value::from(format!("global {}", name))),
        }
    }
}

fn options() -> DefaultWorkerOptions<()> {
    DefaultWorkerOptions {
        default_entrypoint: None,
        timeout: Duration::from_secs(5),
        startup_snapshot: None,
        shared_array_buffer_store: None,
    }
}

fn fresh() -> (ToyRuntime, HashMap<ModuleId, ToyModule>) {
    (ToyRuntime { calls: 0, next_id: 0, entrypoint: None }, HashMap::new())
}

fn echo_module() -> Module {
    Module::new("echo.js", "export default (x) => x; export const answer = 42;")
}

fn expect_value(response: DefaultWorkerResponse) -> Value {
    match response {
        DefaultWorkerResponse::Value(v) => v,
        DefaultWorkerResponse::Error(e) => panic!("error: {:?}", e),
        _ => panic!("no value"),
    }
}

fn expect_error(response: DefaultWorkerResponse) -> Error {
    match response {
        DefaultWorkerResponse::Error(e) => e,
        _ => panic!("no error"),
    }
}

fn expect_id(response: DefaultWorkerResponse) -> ModuleId {
    match response {
        DefaultWorkerResponse::ModuleId(id) => id,
        _ => panic!("no module id"),
    }
}

fn not_found() -> Error {
    Error::Runtime("Module not found".to_string())
}

#[test]
fn code_is_evaluated() {
    let (mut rt, mut modules) = fresh();
    let response = dispatch::<Toy>(&mut rt, &mut modules, DefaultWorkerQuery::Eval("2 + 2".to_string()));
    assert_eq!(expect_value(response), Value::from(4));
    assert!(modules.is_empty());
}

#[test]
fn an_error_of_the_interpreter_is_a_response() {
    let (mut rt, mut modules) = fresh();
    let response = dispatch::<Toy>(&mut rt, &mut modules, DefaultWorkerQuery::Eval("two".to_string()));
    assert_eq!(expect_error(response), Error::Runtime("cannot evaluate `two`".to_string()));
}

#[test]
fn a_loaded_module_is_entered_into_the_table() {
    let (mut rt, mut modules) = fresh();
    let first = dispatch::<Toy>(&mut rt, &mut modules, DefaultWorkerQuery::LoadMainModule(echo_module()));
    assert_eq!(expect_id(first), 0);
    let second = dispatch::<Toy>(
        &mut rt,
        &mut modules,
        DefaultWorkerQuery::LoadModule(Module::new("side.js", "export const side = 1;")),
    );
    assert_eq!(expect_id(second), 1);
    assert_eq!(modules.len(), 2);
    assert_eq!(modules[&0].name, "echo.js");
    assert_eq!(modules[&1].name, "side.js");
}

#[test]
fn a_module_that_does_not_load_leaves_the_table_alone() {
    let (mut rt, mut modules) = fresh();
    expect_id(dispatch::<Toy>(&mut rt, &mut modules, DefaultWorkerQuery::LoadModule(echo_module())));
    let response = dispatch::<Toy>(
        &mut rt,
        &mut modules,
        DefaultWorkerQuery::LoadModule(Module::new("bad.js", "syntax error here")),
    );
    assert_eq!(expect_error(response), Error::Runtime("bad.js does not parse".to_string()));
    assert_eq!(modules.len(), 1);
    assert!(modules.contains_key(&0));
}

#[test]
fn the_entrypoint_of_a_loaded_module_is_called() {
    let (mut rt, mut modules) = fresh();
    let id = expect_id(dispatch::<Toy>(&mut rt, &mut modules, DefaultWorkerQuery::LoadMainModule(echo_module())));
    let response = dispatch::<Toy>(
        &mut rt,
        &mut modules,
        DefaultWorkerQuery::CallEntrypoint(id, vec![Value::from("x")]),
    );
    assert_eq!(expect_value(response), Value::from("x"));
}

#[test]
fn a_module_that_was_never_loaded_is_not_found() {
    let (mut rt, mut modules) = fresh();
    expect_id(dispatch::<Toy>(&mut rt, &mut modules, DefaultWorkerQuery::LoadModule(echo_module())));
    let calls = rt.calls;

    let response = dispatch::<Toy>(&mut rt, &mut modules, DefaultWorkerQuery::CallEntrypoint(7, vec![]));
    assert_eq!(expect_error(response), not_found());
    let response = dispatch::<Toy>(
        &mut rt,
        &mut modules,
        DefaultWorkerQuery::CallFunction(Some(1), "f".to_string(), vec![]),
    );
    assert_eq!(expect_error(response), not_found());
    let response = dispatch::<Toy>(
        &mut rt,
        &mut modules,
        DefaultWorkerQuery::GetValue(Some(usize::MAX), "answer".to_string()),
    );
    assert_eq!(expect_error(response), not_found());

    // The interpreter was not asked, and the table is as it was.
    assert_eq!(rt.calls, calls);
    assert_eq!(modules.len(), 1);
    assert!(modules.contains_key(&0));

    // A query that names a loaded module is still answered.
    let response = dispatch::<Toy>(
        &mut rt,
        &mut modules,
        DefaultWorkerQuery::GetValue(Some(0), "answer".to_string()),
    );
    assert_eq!(expect_value(response), Value::from("answer of echo.js"));
}

#[test]
fn a_function_is_called_in_a_module_or_at_the_top_level() {
    let (mut rt, mut modules) = fresh();
    let id = expect_id(dispatch::<Toy>(&mut rt, &mut modules, DefaultWorkerQuery::LoadModule(echo_module())));
    let scoped = dispatch::<Toy>(
        &mut rt,
        &mut modules,
        DefaultWorkerQuery::CallFunction(Some(id), "f".to_string(), vec![Value::Null, Value::Null]),
    );
    assert_eq!(expect_value(scoped), Value::from("echo.js::f/2"));
    let global = dispatch::<Toy>(
        &mut rt,
        &mut modules,
        DefaultWorkerQuery::CallFunction(None, "g".to_string(), vec![]),
    );
    assert_eq!(expect_value(global), Value::from("global::g/0"));
}

#[test]
fn a_value_is_read_in_a_module_or_at_the_top_level() {
    let (mut rt, mut modules) = fresh();
    let id = expect_id(dispatch::<Toy>(&mut rt, &mut modules, DefaultWorkerQuery::LoadModule(echo_module())));
    let scoped = dispatch::<Toy>(&mut rt, &mut modules, DefaultWorkerQuery::GetValue(Some(id), "answer".to_string()));
    assert_eq!(expect_value(scoped), Value::from("answer of echo.js"));
    let missing = dispatch::<Toy>(&mut rt, &mut modules, DefaultWorkerQuery::GetValue(Some(id), "nothing".to_string()));
    assert_eq!(expect_error(missing), Error::Runtime("echo.js has no nothing".to_string()));
    let global = dispatch::<Toy>(&mut rt, &mut modules, DefaultWorkerQuery::GetValue(None, "answer".to_string()));
    assert_eq!(expect_value(global), Value::from("global answer"));
}

#[test]
fn handle_query_is_the_dispatch() {
    let mut runtime = <Toy as InnerWorker>::init_runtime(options()).unwrap();
    assert!(runtime.1.is_empty());
    let id = expect_id(<Toy as InnerWorker>::handle_query(
        &mut runtime,
        DefaultWorkerQuery::LoadMainModule(echo_module()),
    ));
    assert_eq!(id, 0);
    assert!(runtime.1.contains_key(&0));
    let response = <Toy as InnerWorker>::handle_query(&mut runtime, DefaultWorkerQuery::CallEntrypoint(1, vec![]));
    assert_eq!(expect_error(response), not_found());
}

#[test]
fn an_interpreter_that_cannot_be_built_gives_its_error() {
    let bad = DefaultWorkerOptions::<()>::default();
    match <Toy as InnerWorker>::init_runtime(bad) {
        Err(e) => assert_eq!(e, Error::Runtime("an interpreter needs a timeout".to_string())),
        Ok(_) => panic!("an interpreter was built"),
    }
    match DefaultWorker::<Toy, Threads>::new(DefaultWorkerOptions::default()) {
        Err(e) => assert_eq!(e, Error::Runtime("an interpreter needs a timeout".to_string())),
        Ok(_) => panic!("a worker was made"),
    }
}

#[test]
fn a_scope_is_resolved_against_the_table() {
    let mut modules: HashMap<ModuleId, &str> = HashMap::new();
    modules.insert(4, "four");
    assert!(matches!(resolve(&modules, None), Ok(None)));
    assert!(matches!(resolve(&modules, Some(4)), Ok(Some(&"four"))));
    match resolve(&modules, Some(5)) {
        Err(response) => assert_eq!(expect_error(response), not_found()),
        Ok(_) => panic!("found"),
    }
    let empty: HashMap<ModuleId, &str> = HashMap::new();
    assert!(matches!(resolve(&empty, None), Ok(None)));
    assert!(resolve(&empty, Some(0)).is_err());
}

#[test]
fn the_response_for_a_missing_module_has_its_text() {
    assert_eq!(expect_error(module_not_found()), not_found());
}

#[test]
fn an_outcome_becomes_a_response() {
    assert_eq!(expect_value(value_response(Ok(Value::from(9)))), Value::from(9));
    assert_eq!(
        expect_error(value_response(Err(Error::Runtime("no".to_string())))),
        Error::Runtime("no".to_string())
    );
}

#[test]
fn a_load_is_recorded() {
    let mut modules: HashMap<ModuleId, &str> = HashMap::new();
    assert_eq!(expect_id(record_module(&mut modules, Ok((3, "three")))), 3);
    assert_eq!(modules.get(&3), Some(&"three"));
    assert_eq!(expect_id(record_module(&mut modules, Ok((3, "again")))), 3);
    assert_eq!(modules.get(&3), Some(&"again"));
    assert_eq!(modules.len(), 1);
    let failed = record_module(&mut modules, Err(Error::Runtime("no".to_string())));
    assert_eq!(expect_error(failed), Error::Runtime("no".to_string()));
    assert_eq!(modules.len(), 1);
}

#[test]
fn a_response_is_read_as_a_value() {
    assert_eq!(value_of(DefaultWorkerResponse::Value(Value::from(1))), Ok(Value::from(1)));
    assert_eq!(
        value_of(DefaultWorkerResponse::Error(Error::WorkerHasStopped)),
        Err(Error::WorkerHasStopped)
    );
    let unexpected = Err(Error::Runtime("Unexpected response from the worker".to_string()));
    assert_eq!(value_of(DefaultWorkerResponse::ModuleId(1)), unexpected);
    assert_eq!(value_of(DefaultWorkerResponse::Done(())), unexpected);
}

#[test]
fn a_response_is_read_as_a_module_id() {
    assert_eq!(module_id_of(DefaultWorkerResponse::ModuleId(8)), Ok(8));
    assert_eq!(
        module_id_of(DefaultWorkerResponse::Error(Error::Runtime("no".to_string()))),
        Err(Error::Runtime("no".to_string()))
    );
    let unexpected = Err(Error::Runtime("Unexpected response from the worker".to_string()));
    assert_eq!(module_id_of(DefaultWorkerResponse::Value(Value::Null)), unexpected);
    assert_eq!(module_id_of(DefaultWorkerResponse::Done(())), unexpected);
}

#[test]
fn a_module_keeps_its_name_and_text() {
    let module = Module::new("a.js", "export const a = 1;");
    assert_eq!(module.filename(), "a.js");
    assert_eq!(module.contents(), "export const a = 1;");
    assert_eq!(module.clone(), module);
}

#[test]
fn options_start_empty_and_are_copied_whole() {
    let empty = DefaultWorkerOptions::<u8>::default();
    assert_eq!(empty.default_entrypoint, None);
    assert_eq!(empty.timeout, Duration::default());
    assert!(empty.startup_snapshot.is_none());
    assert!(empty.shared_array_buffer_store.is_none());

    static SNAPSHOT: [u8; 3] = [1, 2, 3];
    let full = DefaultWorkerOptions {
        default_entrypoint: Some("main".to_string()),
        timeout: Duration::from_millis(1500),
        startup_snapshot: Some(&SNAPSHOT[..]),
        shared_array_buffer_store: Some(7u8),
    };
    let copy = full.clone();
    assert_eq!(copy.default_entrypoint, Some("main".to_string()));
    assert_eq!(copy.timeout, Duration::from_millis(1500));
    assert_eq!(copy.startup_snapshot, Some(&SNAPSHOT[..]));
    assert_eq!(copy.shared_array_buffer_store, Some(7u8));
}

#[test]
fn a_default_worker_answers_each_kind_of_call() {
    let worker = DefaultWorker::<Toy, Threads>::new(options()).unwrap();
    assert_eq!(worker.eval("5 + 5".to_string()), Ok(Value::from(10)));
    assert_eq!(
        worker.eval("five".to_string()),
        Err(Error::Runtime("cannot evaluate `five`".to_string()))
    );
    let main = worker.load_main_module(echo_module()).unwrap();
    let side = worker.load_module(Module::new("side.js", "export const side = 1;")).unwrap();
    assert_eq!((main, side), (0, 1));
    assert_eq!(worker.call_entrypoint(main, vec![Value::from("x")]), Ok(Value::from("x")));
    assert_eq!(
        worker.call_entrypoint(side, vec![]),
        Err(Error::Runtime("side.js has no entrypoint".to_string()))
    );
    assert_eq!(worker.call_entrypoint(9, vec![]), Err(not_found()));
    assert_eq!(
        worker.call_function(Some(side), "f".to_string(), vec![Value::Null]),
        Ok(Value::from("side.js::f/1"))
    );
    assert_eq!(worker.call_function(None, "f".to_string(), vec![]), Ok(Value::from("global::f/0")));
    assert_eq!(worker.call_function(Some(9), "f".to_string(), vec![]), Err(not_found()));
    assert_eq!(worker.get_value(Some(main), "answer".to_string()), Ok(Value::from("answer of echo.js")));
    assert_eq!(worker.get_value(None, "answer".to_string()), Ok(Value::from("global answer")));
    assert_eq!(worker.get_value(Some(9), "answer".to_string()), Err(not_found()));
    assert_eq!(
        worker.load_module(Module::new("bad.js", "syntax error")),
        Err(Error::Runtime("bad.js does not parse".to_string()))
    );
    // The worker is still there after every refusal.
    assert_eq!(worker.eval("1 + 2 + 3".to_string()), Ok(Value::from(6)));
}

#[test]
fn the_default_entrypoint_reaches_the_interpreter() {
    let mut with_entrypoint = options();
    with_entrypoint.default_entrypoint = Some("main".to_string());
    let worker = DefaultWorker::<Toy, Threads>::new(with_entrypoint).unwrap();
    let id = worker.load_module(Module::new("plain.js", "const a = 1;")).unwrap();
    assert_eq!(worker.call_entrypoint(id, vec![Value::from(3)]), Ok(Value::from(3)));
}

#[test]
fn a_pool_of_one_from_start_to_shutdown() {
    let mut pool = WorkerPool::<Toy, Threads>::new(options(), 1).unwrap();
    assert_eq!(pool.len(), 1);

    let response = pool.send_and_await(DefaultWorkerQuery::Eval("2 + 2".to_string())).unwrap();
    assert_eq!(expect_value(response), Value::from(4));

    let response = pool.send_and_await(DefaultWorkerQuery::LoadModule(echo_module())).unwrap();
    let id = expect_id(response);
    let response = pool
        .send_and_await(DefaultWorkerQuery::CallEntrypoint(id, vec![Value::from("x")]))
        .unwrap();
    assert_eq!(expect_value(response), Value::from("x"));

    let stopped = pool.shutdown();
    assert_eq!(stopped.len(), 1);
    assert!(matches!(
        stopped[0].send(DefaultWorkerQuery::Eval("2 + 2".to_string())),
        Err(Error::WorkerHasStopped)
    ));
}

#[test]
fn modules_belong_to_the_worker_that_loaded_them() {
    let pool = WorkerPool::<Toy, Threads>::new(options(), 2).unwrap();
    let first = pool.worker_by_id(0).unwrap();
    let second = pool.worker_by_id(1).unwrap();
    let id = expect_id(first.send_and_await(DefaultWorkerQuery::LoadModule(echo_module())).unwrap());
    let here = first.send_and_await(DefaultWorkerQuery::GetValue(Some(id), "answer".to_string())).unwrap();
    assert_eq!(expect_value(here), Value::from("answer of echo.js"));
    let there = second.send_and_await(DefaultWorkerQuery::GetValue(Some(id), "answer".to_string())).unwrap();
    assert_eq!(expect_error(there), not_found());
    // The second worker goes on after the refusal.
    let after = second.send_and_await(DefaultWorkerQuery::Eval("20 + 22".to_string())).unwrap();
    assert_eq!(expect_value(after), Value::from(42));
    pool.shutdown();
}

#[test]
fn a_worker_is_generic_over_the_interpreter() {
    let mut worker = Worker::<Toy, Threads>::new(options()).unwrap();
    let response = worker.send_and_await(DefaultWorkerQuery::Eval("1 + 1".to_string())).unwrap();
    assert_eq!(expect_value(response), Value::from(2));
    worker.shutdown();
}
