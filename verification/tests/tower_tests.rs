use std::future::{pending, ready};
use std::time::Duration;

use scope_spawn::tower_scope_spawn::layer::ScopeSpawnLayer;
use scope_spawn::tower_scope_spawn::service::{scoped_call, ScopeSpawnService, WithScope};
use scope_spawn::spawn_scope::ScopedSpawn;
use scope_spawn::tower_spawn_scope;
use scope_spawn::tower_spawn_scope::layer::SpawnScopeLayer;
use tokio::sync::oneshot::channel;
use tokio::runtime::Handle;
use tokio::time::{sleep, timeout};

fn runtime() -> tokio::runtime::Runtime {
    tokio::runtime::Builder::new_multi_thread().enable_all().build().unwrap()
}

#[test]
fn service_test_cancellation_on_drop() {
    runtime().block_on(async {
        let mut received: Option<WithScope<&str>> = None;
        let fut = scoped_call("request", |w: WithScope<&str>| {
            received = Some(w);
            ready(())
        });
        let with_scope_req = received.unwrap();
        assert_eq!(with_scope_req.request, "request");
        let _inner_service_scope = with_scope_req.scope;

        let scope_from_fut = fut.scope();
        let (tx, rx) = channel::<()>();
        scope_from_fut.spawn(&Handle::current(), async move {
            let _guard = tx;
            sleep(Duration::from_millis(200)).await;
        });

        drop(fut);

        match timeout(Duration::from_millis(100), rx).await {
            Ok(resp) => assert!(resp.is_err()),
            Err(_) => panic!("Task should have been cancelled!"),
        }
    });
}

#[test]
#[should_panic]
fn service_test_no_cancellation_on_no_drop() {
    runtime().block_on(async {
        let mut received: Option<WithScope<&str>> = None;
        let fut = scoped_call("request", |w: WithScope<&str>| {
            received = Some(w);
            ready(())
        });
        let _inner_service_scope = received.unwrap().scope;

        let scope_from_fut = fut.scope();
        let (tx, rx) = channel::<()>();
        scope_from_fut.spawn(&Handle::current(), async move {
            sleep(Duration::from_millis(200)).await;
            let _ = tx.send(());
        });

        match timeout(Duration::from_millis(100), rx).await {
            Ok(resp) => assert!(resp.is_err()),
            Err(_) => panic!("Task was not cancelled!"),
        }
    });
}

#[test]
fn test_cancellation_on_completion() {
    runtime().block_on(async {
        let mut received: Option<WithScope<u8>> = None;
        let fut = scoped_call(7u8, |w: WithScope<u8>| {
            received = Some(w);
            ready(())
        });
        let scope_from_service = received.unwrap().scope;

        let (tx, rx) = channel::<()>();
        scope_from_service.spawn(&Handle::current(), async move {
            let _guard = tx;
            sleep(Duration::from_millis(200)).await;
        });

        let (inner, scope) = fut.into_parts();
        inner.await;
        drop(scope);

        match timeout(Duration::from_millis(100), rx).await {
            Ok(resp) => assert!(resp.is_err()),
            Err(_) => panic!("Task should have been cancelled after completion!"),
        }
    });
}

#[test]
fn scoped_call_hands_the_inner_service_the_same_scope() {
    runtime().block_on(async {
        let mut received: Option<WithScope<u8>> = None;
        let fut = scoped_call(1u8, |w: WithScope<u8>| {
            received = Some(w);
            ready(5u8)
        });
        let with_scope = received.unwrap();
        let handle = with_scope.scope.spawn(&Handle::current(), pending::<u8>());
        fut.scope().cancel();
        assert_eq!(handle.await.unwrap(), None);
        let (inner, _scope) = fut.into_parts();
        assert_eq!(inner.await, 5u8);
    });
}

#[test]
fn scope_spawn_layer_wraps_the_service() {
    let layer = ScopeSpawnLayer::new();
    let service: ScopeSpawnService<u32> = layer.layer(17u32);
    assert_eq!(service.into_inner(), 17);
    let mut other = ScopeSpawnService::new(3u32);
    *other.inner_mut() = 4;
    assert_eq!(other.into_inner(), 4);
}

#[test]
fn spawn_scope_layer_wraps_the_service() {
    let layer = SpawnScopeLayer::new();
    let mut service = layer.layer(9u32);
    assert_eq!(*service.inner_mut(), 9);
    let _copy = service.clone();
}

#[test]
fn spawn_scope_service_test_cancellation_on_drop() {
    runtime().block_on(async {
        let mut service = tower_spawn_scope::service::SpawnScopeService::new(ready::<()>);
        let inner_future = (service.inner_mut())(());
        let fut = tower_spawn_scope::service::ScopeFuture::new(inner_future);
        let scope = fut.scope_ref();
        let (tx, rx) = channel::<()>();
        scope.spawn(&Handle::current(), async move {
            let _guard = tx;
            sleep(Duration::from_secs(100)).await;
        });

        drop(fut);

        match timeout(Duration::from_millis(100), rx).await {
            Ok(resp) => assert!(resp.is_err()),
            Err(_) => panic!("Task should have been cancelled!"),
        }
    });
}

#[test]
fn layer_test_cancellation_on_drop() {
    runtime().block_on(async {
        let mut service = ScopeSpawnLayer::new().layer(Vec::<WithScope<&str>>::new());
        let fut = scoped_call("request", |w: WithScope<&str>| {
            service.inner_mut().push(w);
            ready(())
        });
        let received = service.into_inner();
        assert_eq!(received.len(), 1);
        assert_eq!(received[0].request, "request");

        let scope_from_fut = fut.scope();
        let (tx, rx) = channel::<()>();
        scope_from_fut.spawn(&Handle::current(), async move {
            let _guard = tx;
            sleep(Duration::from_millis(200)).await;
        });

        drop(fut);

        match timeout(Duration::from_millis(100), rx).await {
            Ok(resp) => assert!(resp.is_err()),
            Err(_) => panic!("Task should have been cancelled!"),
        }
        drop(received);
    });
}

#[test]
#[should_panic]
fn layer_test_no_cancellation_on_no_drop() {
    runtime().block_on(async {
        let mut service = ScopeSpawnLayer::new().layer(Vec::<WithScope<&str>>::new());
        let fut = scoped_call("request", |w: WithScope<&str>| {
            service.inner_mut().push(w);
            ready(())
        });
        let _received = service.into_inner();

        let scope_from_fut = fut.scope();
        let (tx, rx) = channel::<()>();
        scope_from_fut.spawn(&Handle::current(), async move {
            sleep(Duration::from_millis(200)).await;
            let _ = tx.send(());
        });

        match timeout(Duration::from_millis(100), rx).await {
            Ok(resp) => assert!(resp.is_err()),
            Err(_) => panic!("Task was not cancelled!"),
        }
    });
}
