use std::sync::atomic::AtomicBool;
use std::sync::atomic::AtomicUsize;
use std::sync::atomic::Ordering;
use std::sync::Arc;
use std::time::Duration;

use serenity::client::bridge::gateway::GatewayIntents;
use serenity::client::bridge::gateway::ShardId;
use serenity::client::bridge::gateway::ShardManager;
use serenity::client::bridge::gateway::ShardManagerMonitor;
use serenity::client::bridge::gateway::ShardManagerOptions;
use serenity::client::bridge::gateway::ShardMessenger;
use serenity::client::bridge::gateway::ShardRunnerInfo;
use serenity::framework::Framework;
use serenity::framework::StandardFramework;
use serenity::futures::channel::mpsc;
use serenity::futures::future::BoxFuture;
use serenity::futures::FutureExt;
use serenity::futures::StreamExt;
use serenity::gateway::ConnectionStage;
use serenity::prelude::TypeMap;
use serenity::CacheAndHttp;
use serenity_ctrlc::deliver;
use serenity_ctrlc::Bridge;
use serenity_ctrlc::DefaultBridge;
use serenity_ctrlc::Disconnector;
use serenity_ctrlc::SignalError;
use serenity_ctrlc::Watch;
use tokio::runtime::Handle;
use tokio::runtime::Runtime;
use tokio::sync::Mutex;
use tokio::sync::RwLock;

/// A shard manager as a client builds it, with no shard started.
fn shard_manager(runtime: &Runtime) -> (Arc<Mutex<ShardManager>>, ShardManagerMonitor) {
    let data = Arc::new(RwLock::new(TypeMap::new()));
    let framework: Arc<Box<dyn Framework + Send + Sync>> =
        Arc::new(Box::new(StandardFramework::new()));
    let ws_url = Arc::new(Mutex::new(String::from("wss://gateway.invalid")));
    let cache_and_http = Arc::new(CacheAndHttp::default());
    runtime.block_on(ShardManager::new(ShardManagerOptions {
        data: &data,
        event_handler: &None,
        raw_event_handler: &None,
        framework: &framework,
        shard_index: 0,
        shard_init: 0,
        shard_total: 0,
        ws_url: &ws_url,
        cache_and_http: &cache_and_http,
        intents: GatewayIntents::empty(),
    }))
}

/// Puts a shard runner into the manager's books that acknowledges a shutdown
/// as a real one does, and counts the shutdown messages it was sent.
fn add_runner(
    runtime: &Runtime,
    manager: &Arc<Mutex<ShardManager>>,
    monitor: &ShardManagerMonitor,
    id: u64,
) -> Arc<AtomicUsize> {
    let (tx, mut rx) = mpsc::unbounded();
    let runners = runtime.block_on(manager.lock()).runners.clone();
    runtime.block_on(runners.lock()).insert(
        ShardId(id),
        ShardRunnerInfo {
            latency: None,
            runner_tx: ShardMessenger::new(tx),
            stage: ConnectionStage::Connected,
        },
    );
    let told = Arc::new(AtomicUsize::new(0));
    let counter = told.clone();
    let acknowledge = monitor.shutdown.clone();
    runtime.spawn(async move {
        while rx.next().await.is_some() {
            counter.fetch_add(1, Ordering::SeqCst);
            let _ = acknowledge.unbounded_send(ShardId(id));
        }
    });
    told
}

fn running(runtime: &Runtime, manager: &Arc<Mutex<ShardManager>>) -> usize {
    let runners = runtime.block_on(manager.lock()).runners.clone();
    let count = runtime.block_on(runners.lock()).len();
    count
}

#[test]
fn from_upgrade_keeps_the_reference_it_was_given() {
    let runtime = Runtime::new().unwrap();
    let (manager, _monitor) = shard_manager(&runtime);
    let handle = Disconnector::from_upgrade(Some(manager.clone()));
    let inner = handle.expect("a strong reference gives a handle").into_shard_manager();
    assert!(Arc::ptr_eq(&inner, &manager));
}

#[test]
fn from_upgrade_of_nothing_is_nothing() {
    assert!(Disconnector::from_upgrade(None).is_none());
}

#[test]
fn resolve_is_present_while_the_target_lives() {
    let runtime = Runtime::new().unwrap();
    let (manager, _monitor) = shard_manager(&runtime);
    let bridge = DefaultBridge::new(Watch::new(runtime.handle().clone(), &manager));
    let handle = bridge.watch().resolve().expect("the shard manager is alive");
    assert!(Arc::ptr_eq(&handle.into_shard_manager(), &manager));
}

#[test]
fn bridge_does_not_keep_the_target_alive() {
    let runtime = Runtime::new().unwrap();
    let (manager, monitor) = shard_manager(&runtime);
    let before = Arc::strong_count(&manager);
    let bridge = DefaultBridge::new(Watch::new(runtime.handle().clone(), &manager));
    assert_eq!(Arc::strong_count(&manager), before);
    drop(monitor);
    drop(manager);
    assert!(bridge.watch().resolve().is_none());
    assert_eq!(bridge.fire(), Some(false));
}

#[test]
fn default_routine_stops_a_live_target() {
    let runtime = Runtime::new().unwrap();
    let (manager, monitor) = shard_manager(&runtime);
    let told = add_runner(&runtime, &manager, &monitor, 0);
    assert_eq!(running(&runtime, &manager), 1);
    let bridge = DefaultBridge::new(Watch::new(runtime.handle().clone(), &manager));
    assert_eq!(bridge.fire(), Some(true));
    assert_eq!(running(&runtime, &manager), 0);
    assert_eq!(told.load(Ordering::SeqCst), 1);
}

#[test]
fn completion_is_over_when_fire_returns() {
    let runtime = Runtime::new().unwrap();
    let (manager, _monitor) = shard_manager(&runtime);
    let done = Arc::new(AtomicBool::new(false));
    let flag = done.clone();
    let mut bridge = Bridge::new(Watch::new(runtime.handle().clone(), &manager), move |_handle| {
        let flag = flag.clone();
        async move {
            tokio::time::sleep(Duration::from_millis(200)).await;
            flag.store(true, Ordering::SeqCst);
            7u32
        }
    });
    let output = bridge.fire();
    assert!(done.load(Ordering::SeqCst));
    assert_eq!(output, Some(7));
}

#[test]
fn default_routine_does_nothing_without_a_target() {
    let runtime = Runtime::new().unwrap();
    let (manager, monitor) = shard_manager(&runtime);
    let told = add_runner(&runtime, &manager, &monitor, 0);
    let bridge = DefaultBridge::new(Watch::new(runtime.handle().clone(), &manager));
    assert!(matches!(bridge.complete(None), Ok(false)));
    assert_eq!(running(&runtime, &manager), 1);
    assert_eq!(told.load(Ordering::SeqCst), 0);
}

#[test]
fn repeated_interrupts_leave_the_target_stopped() {
    let runtime = Runtime::new().unwrap();
    let (manager, monitor) = shard_manager(&runtime);
    let first = add_runner(&runtime, &manager, &monitor, 0);
    let second = add_runner(&runtime, &manager, &monitor, 1);
    let bridge = DefaultBridge::new(Watch::new(runtime.handle().clone(), &manager));
    assert_eq!(bridge.fire(), Some(true));
    assert_eq!(running(&runtime, &manager), 0);
    assert_eq!(bridge.fire(), Some(true));
    assert_eq!(bridge.fire(), Some(true));
    assert_eq!(running(&runtime, &manager), 0);
    assert_eq!(first.load(Ordering::SeqCst), 1);
    assert_eq!(second.load(Ordering::SeqCst), 1);
}

#[test]
fn interrupt_after_a_manual_shutdown_is_harmless() {
    let runtime = Runtime::new().unwrap();
    let (manager, monitor) = shard_manager(&runtime);
    let told = add_runner(&runtime, &manager, &monitor, 0);
    runtime.block_on(async { manager.lock().await.shutdown_all().await });
    assert_eq!(running(&runtime, &manager), 0);
    let bridge = DefaultBridge::new(Watch::new(runtime.handle().clone(), &manager));
    assert_eq!(bridge.fire(), Some(true));
    assert_eq!(running(&runtime, &manager), 0);
    assert_eq!(told.load(Ordering::SeqCst), 1);
}

#[test]
fn disconnect_some_says_whether_it_disconnected() {
    let runtime = Runtime::new().unwrap();
    let (manager, monitor) = shard_manager(&runtime);
    let told = add_runner(&runtime, &manager, &monitor, 0);
    assert!(matches!(Disconnector::disconnect_some(None, runtime.handle()), Ok(false)));
    assert_eq!(running(&runtime, &manager), 1);
    let handle = Disconnector::from_upgrade(Some(manager.clone()));
    assert!(matches!(Disconnector::disconnect_some(handle, runtime.handle()), Ok(true)));
    assert_eq!(running(&runtime, &manager), 0);
    assert_eq!(told.load(Ordering::SeqCst), 1);
}

#[test]
fn disconnect_lets_the_lock_go() {
    let runtime = Runtime::new().unwrap();
    let (manager, _monitor) = shard_manager(&runtime);
    let handle = Disconnector::from_upgrade(Some(manager.clone())).unwrap();
    assert!(handle.disconnect(runtime.handle()).is_ok());
    assert!(manager.try_lock().is_ok());
}

/// A routine that notes in `seen` whether it was given a handle, and whose
/// work disconnects with the handle if there is one.
fn recording(
    seen: &Arc<std::sync::Mutex<Vec<bool>>>,
) -> impl FnMut(Option<Disconnector>) -> BoxFuture<'static, ()> + Send + 'static {
    let seen = seen.clone();
    move |handle: Option<Disconnector>| {
        seen.lock().unwrap().push(handle.is_some());
        let work = async move {
            if let Some(disconnector) = handle {
                let target = disconnector.into_shard_manager();
                target.lock().await.shutdown_all().await;
            }
        };
        work.boxed()
    }
}

#[test]
fn custom_routine_is_told_whether_the_target_is_there() {
    let runtime = Runtime::new().unwrap();
    let seen = Arc::new(std::sync::Mutex::new(Vec::new()));

    let (manager, monitor) = shard_manager(&runtime);
    let mut bridge =
        Bridge::new(Watch::new(runtime.handle().clone(), &manager), recording(&seen));
    drop(monitor);
    drop(manager);
    assert!(bridge.fire().is_some());
    assert_eq!(*seen.lock().unwrap(), vec![false]);

    let (manager, monitor) = shard_manager(&runtime);
    let told = add_runner(&runtime, &manager, &monitor, 0);
    let mut bridge =
        Bridge::new(Watch::new(runtime.handle().clone(), &manager), recording(&seen));
    assert!(bridge.fire().is_some());
    assert_eq!(*seen.lock().unwrap(), vec![false, true]);
    assert_eq!(running(&runtime, &manager), 0);
    assert_eq!(told.load(Ordering::SeqCst), 1);
}

#[test]
fn failure_of_the_routine_reaches_the_caller() {
    let runtime = Runtime::new().unwrap();
    let (manager, _monitor) = shard_manager(&runtime);
    let mut bridge = Bridge::new(
        Watch::new(runtime.handle().clone(), &manager),
        |_handle: Option<Disconnector>| {
            std::future::ready(Err::<(), String>(String::from("could not say goodbye")))
        },
    );
    assert_eq!(bridge.fire(), Some(Err(String::from("could not say goodbye"))));
}

#[test]
fn complete_hands_the_routine_what_it_was_given() {
    let runtime = Runtime::new().unwrap();
    let (manager, _monitor) = shard_manager(&runtime);
    let mut bridge = Bridge::new(
        Watch::new(runtime.handle().clone(), &manager),
        |handle: Option<Disconnector>| std::future::ready(handle.is_some()),
    );
    assert!(matches!(bridge.complete(None), Ok(false)));
    let handle = Disconnector::from_upgrade(Some(manager.clone()));
    assert!(matches!(bridge.complete(handle), Ok(true)));
    assert_eq!(bridge.fire(), Some(true));
}

#[test]
fn routine_keeps_its_state_between_interrupts() {
    let runtime = Runtime::new().unwrap();
    let (manager, _monitor) = shard_manager(&runtime);
    let mut count = 0u32;
    let mut bridge = Bridge::new(Watch::new(runtime.handle().clone(), &manager), move |_handle| {
        count += 1;
        std::future::ready(count)
    });
    assert_eq!(bridge.fire(), Some(1));
    assert_eq!(bridge.fire(), Some(2));
    assert_eq!(bridge.fire(), Some(3));
}

#[test]
fn watch_without_a_runtime_is_refused() {
    let runtime = Runtime::new().unwrap();
    let (manager, _monitor) = shard_manager(&runtime);
    assert!(matches!(Watch::current(&manager), Err(SignalError::NoRuntime)));
}

#[test]
fn watch_takes_the_current_runtime() {
    let runtime = Runtime::new().unwrap();
    let (manager, monitor) = shard_manager(&runtime);
    let told = add_runner(&runtime, &manager, &monitor, 0);
    let watch = {
        let _guard = runtime.enter();
        Watch::current(&manager).expect("a runtime is current")
    };
    let handle = watch.resolve().expect("the shard manager is alive");
    assert!(handle.disconnect(watch.runtime()).is_ok());
    assert_eq!(running(&runtime, &manager), 0);
    assert_eq!(told.load(Ordering::SeqCst), 1);
}

#[test]
fn lookup_that_found_nothing_gives_no_watch() {
    let runtime = Runtime::new().unwrap();
    let (manager, _monitor) = shard_manager(&runtime);
    let lookup = Handle::try_current();
    assert!(lookup.is_err());
    assert!(matches!(Watch::from_lookup(lookup, &manager), Err(SignalError::NoRuntime)));
}

#[test]
fn lookup_that_found_a_runtime_gives_a_watch_on_it() {
    let runtime = Runtime::new().unwrap();
    let (manager, monitor) = shard_manager(&runtime);
    let told = add_runner(&runtime, &manager, &monitor, 0);
    let lookup = {
        let _guard = runtime.enter();
        Handle::try_current()
    };
    let watch = Watch::from_lookup(lookup, &manager).expect("a runtime was found");
    let handle = watch.resolve().expect("the shard manager is alive");
    assert!(Arc::ptr_eq(&handle.into_shard_manager(), &manager));
    assert!(matches!(
        Disconnector::disconnect_some(watch.resolve(), watch.runtime()),
        Ok(true)
    ));
    assert_eq!(running(&runtime, &manager), 0);
    assert_eq!(told.load(Ordering::SeqCst), 1);
}

#[test]
fn disconnect_inside_a_task_hands_the_handle_back() {
    let runtime = Runtime::new().unwrap();
    let (manager, monitor) = shard_manager(&runtime);
    let told = add_runner(&runtime, &manager, &monitor, 0);
    let handle = Disconnector::from_upgrade(Some(manager.clone())).unwrap();
    let blocking = runtime.handle().clone();
    let unused = runtime.block_on(async move { handle.disconnect(&blocking) });
    let unused = unused.expect_err("a thread inside a runtime is not blocked");
    assert!(Arc::ptr_eq(&unused.into_shard_manager(), &manager));
    assert_eq!(running(&runtime, &manager), 1);
    assert_eq!(told.load(Ordering::SeqCst), 0);
}

#[test]
fn disconnect_some_inside_a_task_hands_the_handle_back() {
    let runtime = Runtime::new().unwrap();
    let (manager, monitor) = shard_manager(&runtime);
    let told = add_runner(&runtime, &manager, &monitor, 0);
    let handle = Disconnector::from_upgrade(Some(manager.clone()));
    let blocking = runtime.handle().clone();
    let (absent, present) = runtime.block_on(async move {
        (
            Disconnector::disconnect_some(None, &blocking),
            Disconnector::disconnect_some(handle, &blocking),
        )
    });
    assert!(matches!(absent, Ok(false)));
    let unused = present.expect_err("a thread inside a runtime is not blocked");
    assert!(Arc::ptr_eq(&unused.into_shard_manager(), &manager));
    assert_eq!(running(&runtime, &manager), 1);
    assert_eq!(told.load(Ordering::SeqCst), 0);
}

#[test]
fn thread_with_a_current_runtime_is_not_blocked() {
    let runtime = Runtime::new().unwrap();
    let (manager, _monitor) = shard_manager(&runtime);
    let handle = Disconnector::from_upgrade(Some(manager.clone())).unwrap();
    let unused = {
        let _guard = runtime.enter();
        handle.disconnect(runtime.handle())
    };
    let unused = unused.expect_err("a runtime is current on the thread");
    assert!(unused.disconnect(runtime.handle()).is_ok());
}

#[test]
fn default_bridge_inside_a_task_does_nothing() {
    let runtime = Runtime::new().unwrap();
    let (manager, monitor) = shard_manager(&runtime);
    let told = add_runner(&runtime, &manager, &monitor, 0);
    let mut bridge = DefaultBridge::new(Watch::new(runtime.handle().clone(), &manager));
    let handle = Disconnector::from_upgrade(Some(manager.clone()));
    let (fired, completed, delivered, bridge) = runtime.block_on(async move {
        let fired = bridge.fire();
        let completed = bridge.complete(handle);
        let delivered = deliver(&mut bridge);
        (fired, completed, delivered, bridge)
    });
    assert_eq!(fired, None);
    let unused = completed.expect_err("a thread inside a runtime is not blocked");
    assert!(Arc::ptr_eq(&unused.into_shard_manager(), &manager));
    assert!(!delivered);
    assert_eq!(running(&runtime, &manager), 1);
    assert_eq!(told.load(Ordering::SeqCst), 0);
    assert_eq!(bridge.fire(), Some(true));
    assert_eq!(running(&runtime, &manager), 0);
}

#[test]
fn bridge_inside_a_task_does_not_call_the_routine() {
    let runtime = Runtime::new().unwrap();
    let (manager, _monitor) = shard_manager(&runtime);
    let calls = Arc::new(AtomicUsize::new(0));
    let count = calls.clone();
    let mut bridge = Bridge::new(
        Watch::new(runtime.handle().clone(), &manager),
        move |handle: Option<Disconnector>| {
            count.fetch_add(1, Ordering::SeqCst);
            std::future::ready(handle.is_some())
        },
    );
    let handle = Disconnector::from_upgrade(Some(manager.clone()));
    let (fired, completed, delivered, mut bridge) = runtime.block_on(async move {
        let fired = bridge.fire();
        let completed = bridge.complete(handle);
        let delivered = deliver(&mut bridge);
        (fired, completed, delivered, bridge)
    });
    assert_eq!(fired, None);
    let unused = completed.expect_err("a thread inside a runtime is not blocked");
    let unused = unused.expect("the handle that was given comes back");
    assert!(Arc::ptr_eq(&unused.into_shard_manager(), &manager));
    assert!(!delivered);
    assert_eq!(calls.load(Ordering::SeqCst), 0);
    assert_eq!(bridge.fire(), Some(true));
    assert_eq!(calls.load(Ordering::SeqCst), 1);
}

#[test]
fn deliver_runs_the_handler_on_a_thread_that_can_block() {
    let runtime = Runtime::new().unwrap();
    let (manager, monitor) = shard_manager(&runtime);
    let told = add_runner(&runtime, &manager, &monitor, 0);
    let mut bridge = DefaultBridge::new(Watch::new(runtime.handle().clone(), &manager));
    assert!(deliver(&mut bridge));
    assert_eq!(running(&runtime, &manager), 0);
    assert_eq!(told.load(Ordering::SeqCst), 1);
    let calls = Arc::new(AtomicUsize::new(0));
    let count = calls.clone();
    let mut bridge = Bridge::new(
        Watch::new(runtime.handle().clone(), &manager),
        move |_handle: Option<Disconnector>| {
            count.fetch_add(1, Ordering::SeqCst);
            std::future::ready(())
        },
    );
    assert!(deliver(&mut bridge));
    assert!(deliver(&mut bridge));
    assert_eq!(calls.load(Ordering::SeqCst), 2);
}

#[test]
fn work_of_a_routine_that_tries_to_block_gets_its_handle_back() {
    let runtime = Runtime::new().unwrap();
    let (manager, monitor) = shard_manager(&runtime);
    let told = add_runner(&runtime, &manager, &monitor, 0);
    let blocking = runtime.handle().clone();
    let mut bridge = Bridge::new(
        Watch::new(runtime.handle().clone(), &manager),
        move |handle: Option<Disconnector>| {
            let blocking = blocking.clone();
            async move {
                match handle.map(|disconnector| disconnector.disconnect(&blocking)) {
                    Some(Err(unused)) => {
                        unused.into_shard_manager().lock().await.shutdown_all().await;
                        "awaited"
                    },
                    Some(Ok(())) => "blocked",
                    None => "absent",
                }
            }
        },
    );
    assert_eq!(bridge.fire(), Some("awaited"));
    assert_eq!(running(&runtime, &manager), 0);
    assert_eq!(told.load(Ordering::SeqCst), 1);
}

#[test]
fn routine_that_tries_to_block_when_called_gets_its_handle_back() {
    let runtime = Runtime::new().unwrap();
    let (manager, monitor) = shard_manager(&runtime);
    let told = add_runner(&runtime, &manager, &monitor, 0);
    let blocking = runtime.handle().clone();
    let target = manager.clone();
    let mut bridge = Bridge::new(
        Watch::new(runtime.handle().clone(), &manager),
        move |handle: Option<Disconnector>| {
            let unused = match Disconnector::disconnect_some(handle, &blocking) {
                Err(unused) => Arc::ptr_eq(&unused.into_shard_manager(), &target),
                Ok(_) => false,
            };
            std::future::ready(unused)
        },
    );
    assert_eq!(bridge.fire(), Some(true));
    assert_eq!(running(&runtime, &manager), 1);
    assert_eq!(told.load(Ordering::SeqCst), 0);
}

#[test]
fn routine_is_called_with_the_runtime_in_place() {
    let runtime = Runtime::new().unwrap();
    let (manager, _monitor) = shard_manager(&runtime);
    let spawned = Arc::new(AtomicBool::new(false));
    let flag = spawned.clone();
    let mut bridge = Bridge::new(
        Watch::new(runtime.handle().clone(), &manager),
        move |_handle: Option<Disconnector>| {
            let flag = flag.clone();
            let task = tokio::spawn(async move { flag.store(true, Ordering::SeqCst) });
            let nap = tokio::time::sleep(Duration::from_millis(50));
            async move {
                nap.await;
                task.await.is_ok() && Handle::try_current().is_ok()
            }
        },
    );
    assert!(Handle::try_current().is_err());
    assert_eq!(bridge.fire(), Some(true));
    assert!(spawned.load(Ordering::SeqCst));
    assert!(Handle::try_current().is_err());
    assert_eq!(bridge.complete(None).ok(), Some(true));
}
