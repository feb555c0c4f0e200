use std::sync::atomic::AtomicUsize;
use std::sync::atomic::Ordering;
use std::sync::Arc;
use std::sync::Mutex;

use rustdiscordapi::Command;
use rustdiscordapi::CommandRouter;
use rustdiscordapi::CustomError;

/// A handler that records every argument string it was invoked with.
struct Recorder {
    label: &'static str,
    calls: Arc<Mutex<Vec<(String, String)>>>,
}

impl Command for Recorder {
    fn execute(
        &self,
        _client: &reqwest::Client,
        _token: &str,
        _channel_id: &str,
        args: &str,
    ) -> Result<(), CustomError> {
        self.calls.lock().unwrap().push((self.label.to_string(), args.to_string()));
        Ok(())
    }
}

/// A handler that counts invocations and always succeeds.
struct Counter {
    count: Arc<AtomicUsize>,
}

impl Command for Counter {
    fn execute(
        &self,
        _client: &reqwest::Client,
        _token: &str,
        _channel_id: &str,
        _args: &str,
    ) -> Result<(), CustomError> {
        self.count.fetch_add(1, Ordering::SeqCst);
        Ok(())
    }
}

/// A handler that always fails with a fixed message.
struct Failing;

impl Command for Failing {
    fn execute(
        &self,
        _client: &reqwest::Client,
        _token: &str,
        _channel_id: &str,
        _args: &str,
    ) -> Result<(), CustomError> {
        Err(CustomError::new("boom"))
    }
}

#[test]
fn dispatch_passes_argument_remainder() {
    let calls = Arc::new(Mutex::new(Vec::new()));
    let mut router = CommandRouter::new();
    router.register_command("!echo", Recorder { label: "echo", calls: calls.clone() });

    let client = reqwest::Client::new();
    let r = router.dispatch(&client, "token", "42", "!echo hello world");
    assert!(r.is_ok());
    assert_eq!(
        calls.lock().unwrap().as_slice(),
        &[("echo".to_string(), "hello world".to_string())]
    );
}

#[test]
fn dispatch_bare_name_gives_empty_arguments() {
    let calls = Arc::new(Mutex::new(Vec::new()));
    let mut router = CommandRouter::new();
    router.register_command("!ping", Recorder { label: "ping", calls: calls.clone() });

    let client = reqwest::Client::new();
    let r = router.dispatch(&client, "token", "42", "!ping");
    assert!(r.is_ok());
    assert_eq!(calls.lock().unwrap().as_slice(), &[("ping".to_string(), String::new())]);
}

#[test]
fn reregistering_replaces_the_handler() {
    let calls = Arc::new(Mutex::new(Vec::new()));
    let mut router = CommandRouter::new();
    router.register_command("!cmd", Recorder { label: "first", calls: calls.clone() });
    router.register_command("!cmd", Recorder { label: "second", calls: calls.clone() });

    let client = reqwest::Client::new();
    let r = router.dispatch(&client, "token", "42", "!cmd data");
    assert!(r.is_ok());
    assert_eq!(
        calls.lock().unwrap().as_slice(),
        &[("second".to_string(), "data".to_string())]
    );
}

#[test]
fn unregistered_command_succeeds_without_invocation() {
    let count = Arc::new(AtomicUsize::new(0));
    let mut router = CommandRouter::new();
    router.register_command("!ping", Counter { count: count.clone() });

    let client = reqwest::Client::new();
    let r = router.dispatch(&client, "token", "42", "!pong anything");
    assert!(r.is_ok());
    assert_eq!(count.load(Ordering::SeqCst), 0);
}

#[test]
fn dispatch_on_empty_registry_succeeds() {
    let router: CommandRouter<Counter> = CommandRouter::new();
    let client = reqwest::Client::new();
    assert!(router.dispatch(&client, "token", "42", "!anything").is_ok());
}

#[test]
fn handler_error_surfaces_unchanged() {
    let mut router = CommandRouter::new();
    router.register_command("!fail", Failing);

    let client = reqwest::Client::new();
    let r = router.dispatch(&client, "token", "42", "!fail now");
    assert_eq!(r.unwrap_err().message(), "boom");
}

#[test]
fn interleaved_dispatches_do_not_interfere() {
    let calls = Arc::new(Mutex::new(Vec::new()));
    let mut router = CommandRouter::new();
    router.register_command("!a", Recorder { label: "a", calls: calls.clone() });
    router.register_command("!b", Recorder { label: "b", calls: calls.clone() });

    let client = reqwest::Client::new();
    assert!(router.dispatch(&client, "token", "1", "!a one").is_ok());
    assert!(router.dispatch(&client, "token", "2", "!b two").is_ok());
    assert!(router.dispatch(&client, "token", "1", "!a three").is_ok());

    let seen = calls.lock().unwrap();
    assert_eq!(
        seen.as_slice(),
        &[
            ("a".to_string(), "one".to_string()),
            ("b".to_string(), "two".to_string()),
            ("a".to_string(), "three".to_string()),
        ]
    );
}

#[test]
fn concurrent_dispatches_complete_independently() {
    let a_args = Arc::new(Mutex::new(Vec::new()));
    let b_args = Arc::new(Mutex::new(Vec::new()));
    let mut router = CommandRouter::new();
    router.register_command("!a", Recorder { label: "a", calls: a_args.clone() });
    router.register_command("!b", Recorder { label: "b", calls: b_args.clone() });
    let router = Arc::new(router);
    let client = Arc::new(reqwest::Client::new());

    let rt = tokio::runtime::Builder::new_current_thread().build().unwrap();
    rt.block_on(async {
        let mut joins = Vec::new();
        for i in 0..16usize {
            let router = router.clone();
            let client = client.clone();
            joins.push(tokio::task::spawn_blocking(move || {
                let text = if i % 2 == 0 {
                    format!("!a payload-a-{}", i)
                } else {
                    format!("!b payload-b-{}", i)
                };
                router.dispatch(&client, "token", "42", &text)
            }));
        }
        for j in joins {
            assert!(j.await.unwrap().is_ok());
        }
    });

    let a_seen = a_args.lock().unwrap();
    let b_seen = b_args.lock().unwrap();
    assert_eq!(a_seen.len(), 8);
    assert_eq!(b_seen.len(), 8);
    for (label, args) in a_seen.iter() {
        assert_eq!(label, "a");
        assert!(args.starts_with("payload-a-"));
    }
    for (label, args) in b_seen.iter() {
        assert_eq!(label, "b");
        assert!(args.starts_with("payload-b-"));
    }
}

#[test]
fn ping_scenario_counts_two_of_three() {
    let count = Arc::new(AtomicUsize::new(0));
    let mut router = CommandRouter::new();
    router.register_command("!ping", Counter { count: count.clone() });

    let client = reqwest::Client::new();
    assert!(router.dispatch(&client, "token", "42", "!ping").is_ok());
    assert!(router.dispatch(&client, "token", "42", "!ping extra").is_ok());
    assert!(router.dispatch(&client, "token", "42", "!pong").is_ok());
    assert_eq!(count.load(Ordering::SeqCst), 2);
}
