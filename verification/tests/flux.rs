use appnut::flux::Flux;
use appnut::store::{StateStore, SubscriptionId};

fn json<T: serde::Serialize>(v: T) -> Vec<u8> {
    serde_json::to_vec(&v).unwrap()
}

/// What a handler is given: the store, through which every write also
/// records the subscriptions it notifies.
struct Ctx<'a> {
    store: &'a mut StateStore,
    notified: &'a mut Vec<(String, SubscriptionId)>,
}

impl<'a> Ctx<'a> {
    fn set(&mut self, path: &str, bytes: Vec<u8>) {
        for id in self.store.set_bytes(path, bytes) {
            self.notified.push((path.to_string(), id));
        }
    }

    fn get(&self, path: &str) -> Option<Vec<u8>> {
        self.store.get(path)
    }
}

type Handler = Box<dyn Fn(&str, &[u8], &mut Ctx)>;

/// Registers handlers and delivers requests the way the engine's runner
/// does: to every handler `route` names, in order.
struct Engine {
    flux: Flux,
    handlers: Vec<Handler>,
    notified: Vec<(String, SubscriptionId)>,
}

impl Engine {
    fn new() -> Self {
        Engine { flux: Flux::new(), handlers: Vec::new(), notified: Vec::new() }
    }

    fn on(&mut self, pattern: &str, handler: impl Fn(&str, &[u8], &mut Ctx) + 'static) {
        self.flux.on(pattern);
        self.handlers.push(Box::new(handler));
    }

    fn emit(&mut self, path: &str, payload: &[u8]) {
        for i in self.flux.route(path) {
            let mut ctx = Ctx { store: self.flux.store_mut(), notified: &mut self.notified };
            (self.handlers[i])(path, payload, &mut ctx);
        }
    }

    fn notified_to(&self, id: SubscriptionId) -> Vec<String> {
        self.notified.iter().filter(|(_, n)| *n == id).map(|(p, _)| p.clone()).collect()
    }
}

// ========================================================================
// Construction
// ========================================================================

#[test]
fn new_creates_empty_flux() {
    let flux = Flux::new();
    assert!(flux.is_empty());
    assert_eq!(flux.len(), 0);
    assert!(flux.get("anything").is_none());
}

#[test]
fn default_creates_empty_flux() {
    let flux = Flux::default();
    assert!(flux.is_empty());
}

// ========================================================================
// State: get / contains / len
// ========================================================================

#[test]
fn get_after_store_set() {
    let mut flux = Flux::new();
    flux.store_mut().set_bytes("counter", json(42u32));

    let bytes = flux.get("counter").unwrap();
    let v: u32 = serde_json::from_slice(&bytes).unwrap();
    assert_eq!(v, 42);
}

#[test]
fn contains_after_set() {
    let mut flux = Flux::new();
    flux.store_mut().set_bytes("auth/state", json(1u32));

    assert!(flux.contains("auth/state"));
    assert!(!flux.contains("auth/terms"));
}

#[test]
fn len_tracks_entries() {
    let mut flux = Flux::new();
    assert_eq!(flux.len(), 0);

    flux.store_mut().set_bytes("a", json(1u32));
    flux.store_mut().set_bytes("b", json(2u32));
    assert_eq!(flux.len(), 2);
}

// ========================================================================
// State: scan
// ========================================================================

#[test]
fn scan_children() {
    let mut flux = Flux::new();
    flux.store_mut().set_bytes("items/1", json("a"));
    flux.store_mut().set_bytes("items/2", json("b"));
    flux.store_mut().set_bytes("items/3", json("c"));
    flux.store_mut().set_bytes("other", json("x"));

    let results = flux.scan("items");
    assert_eq!(results.len(), 3);
}

#[test]
fn scan_empty() {
    let flux = Flux::new();
    assert!(flux.scan("anything").is_empty());
}

// ========================================================================
// State: snapshot
// ========================================================================

#[test]
fn snapshot_returns_all_entries() {
    let mut flux = Flux::new();
    flux.store_mut().set_bytes("a", json(1u32));
    flux.store_mut().set_bytes("b", json(2u32));

    let snap = flux.snapshot();
    assert_eq!(snap.len(), 2);
}

// ========================================================================
// Emit + Handler
// ========================================================================

#[test]
fn emit_routes_to_handler() {
    let mut engine = Engine::new();
    let called = std::rc::Rc::new(std::cell::Cell::new(0u64));
    let c = called.clone();
    engine.on("ping", move |_, _, _| c.set(c.get() + 1));

    engine.emit("ping", &[]);
    assert_eq!(called.get(), 1);
}

#[test]
fn emit_no_handler_is_silent() {
    let mut engine = Engine::new();
    engine.emit("nonexistent", &[]);
    assert!(engine.flux.route("nonexistent").is_empty());
}

#[test]
fn handler_sets_state() {
    let mut engine = Engine::new();
    engine.on("auth/login", |_, _, store| {
        store.set("auth/state", json("authenticated"));
    });

    engine.emit("auth/login", &[]);

    let bytes = engine.flux.get("auth/state").unwrap();
    let v: String = serde_json::from_slice(&bytes).unwrap();
    assert_eq!(v, "authenticated");
}

#[test]
fn handler_sets_multiple_states() {
    let mut engine = Engine::new();
    engine.on("app/initialize", |_, _, store| {
        store.set("auth/state", json("unauthenticated"));
        store.set("auth/terms", json(false));
        store.set("app/route", json("/onboarding"));
    });

    engine.emit("app/initialize", &[]);

    let v: String = serde_json::from_slice(&engine.flux.get("auth/state").unwrap()).unwrap();
    assert_eq!(v, "unauthenticated");

    let v: bool = serde_json::from_slice(&engine.flux.get("auth/terms").unwrap()).unwrap();
    assert!(!v);

    let v: String = serde_json::from_slice(&engine.flux.get("app/route").unwrap()).unwrap();
    assert_eq!(v, "/onboarding");
}

#[test]
fn handler_reads_and_updates_state() {
    let mut engine = Engine::new();
    engine.flux.store_mut().set_bytes("counter", json(0u32));

    engine.on("increment", |_, _, store| {
        let current: u32 = store
            .get("counter")
            .and_then(|bytes| serde_json::from_slice(&bytes).ok())
            .unwrap_or(0);
        store.set("counter", json(current + 1));
    });

    engine.emit("increment", &[]);
    engine.emit("increment", &[]);
    engine.emit("increment", &[]);

    let v: u32 = serde_json::from_slice(&engine.flux.get("counter").unwrap()).unwrap();
    assert_eq!(v, 3);
}

#[test]
fn emit_prebuilt_bytes() {
    let mut engine = Engine::new();
    let called = std::rc::Rc::new(std::cell::Cell::new(0u64));
    let c = called.clone();
    engine.on("test", move |_, payload, _| {
        let v: u32 = serde_json::from_slice(payload).unwrap();
        assert_eq!(v, 42);
        c.set(c.get() + 1);
    });

    let bytes = serde_json::to_vec(&42u32).unwrap();
    engine.emit("test", &bytes);
    assert_eq!(called.get(), 1);
}

// ========================================================================
// Subscribe / unsubscribe through the engine
// ========================================================================

#[test]
fn app_unsubscribe_stops_notifications() {
    let mut flux = Flux::new();
    let id = flux.subscribe("auth/state");

    let notified = flux.store_mut().set_bytes("auth/state", json("x"));
    assert_eq!(notified.iter().filter(|n| **n == id).count(), 1);

    flux.unsubscribe("auth/state", id);
    let notified = flux.store_mut().set_bytes("auth/state", json("x"));
    assert_eq!(notified.iter().filter(|n| **n == id).count(), 0);
}

#[test]
fn app_subscribe_receives_correct_value() {
    let mut flux = Flux::new();
    let id = flux.subscribe("auth/state");
    let bytes = json("authenticated");
    let notified = flux.store_mut().set_bytes("auth/state", bytes.clone());
    assert!(notified.contains(&id));
    let s: String = serde_json::from_slice(&bytes).unwrap();
    assert_eq!(s, "authenticated");
}

// ========================================================================
// has_handler
// ========================================================================

#[test]
fn has_handler_check() {
    let mut flux = Flux::new();
    flux.on("auth/login");

    assert!(flux.has_handler("auth/login"));
    assert!(!flux.has_handler("auth/logout"));
}

#[test]
fn has_handler_wildcard() {
    let mut flux = Flux::new();
    flux.on("auth/#");

    assert!(flux.has_handler("auth/login"));
    assert!(flux.has_handler("auth/deep/path"));
    assert!(!flux.has_handler("home/devices"));
}

#[test]
fn route_lists_every_matching_handler_in_order() {
    let mut flux = Flux::new();
    flux.on("auth/#");
    flux.on("home/+");
    flux.on("auth/login");
    flux.on("#");
    assert_eq!(flux.route("auth/login"), vec![0, 2, 3]);
    assert_eq!(flux.route("home/x"), vec![1, 3]);
    assert_eq!(flux.route("home/x/y"), vec![3]);
}

#[test]
fn subscribe_notified_by_handler_set() {
    let mut engine = Engine::new();
    let id = engine.flux.subscribe("auth/state");
    engine.on("auth/login", |_, _, store| {
        store.set("auth/state", json("authenticated"));
    });

    engine.emit("auth/login", &[]);
    assert_eq!(engine.notified_to(id).len(), 1);
}

#[test]
fn subscribe_wildcard_catches_handler_updates() {
    let mut engine = Engine::new();
    let id = engine.flux.subscribe("#");
    engine.on("app/initialize", |_, _, store| {
        store.set("auth/state", json("unauthenticated"));
        store.set("auth/terms", json(false));
        store.set("app/route", json("/onboarding"));
    });

    engine.emit("app/initialize", &[]);

    let paths = engine.notified_to(id);
    assert_eq!(paths.len(), 3);
    assert!(paths.contains(&"auth/state".to_string()));
    assert!(paths.contains(&"auth/terms".to_string()));
    assert!(paths.contains(&"app/route".to_string()));
}

#[test]
fn full_flow_initialize_accept_terms_login() {
    let mut engine = Engine::new();
    engine.on("app/initialize", |_, _, store| {
        store.set("auth/state", br#"{"phase":"unauthenticated","busy":false}"#.to_vec());
        store.set("auth/terms", br#"{"accepted":false}"#.to_vec());
        store.set("app/route", json("/onboarding"));
    });
    engine.on("auth/accept-terms", |_, payload, store| {
        let req: serde_json::Value = serde_json::from_slice(payload).unwrap();
        let accepted = req["accepted"].as_bool().unwrap();
        store.set("auth/terms", format!("{{\"accepted\":{}}}", accepted).into_bytes());
        if accepted {
            store.set("app/route", json("/login"));
        }
    });
    engine.on("auth/login", |_, _, store| {
        store.set("auth/state", br#"{"phase":"authenticated","busy":false}"#.to_vec());
        store.set("app/route", json("/home"));
    });
    let watcher = engine.flux.subscribe("#");

    // 1. Initialize
    engine.emit("app/initialize", &[]);

    let auth: serde_json::Value = serde_json::from_slice(&engine.flux.get("auth/state").unwrap()).unwrap();
    assert_eq!(auth["phase"], "unauthenticated");

    let terms: serde_json::Value = serde_json::from_slice(&engine.flux.get("auth/terms").unwrap()).unwrap();
    assert!(!terms["accepted"].as_bool().unwrap());

    let route: String = serde_json::from_slice(&engine.flux.get("app/route").unwrap()).unwrap();
    assert_eq!(route, "/onboarding");

    // 2. Accept terms
    engine.emit("auth/accept-terms", br#"{"accepted":true}"#);

    let terms: serde_json::Value = serde_json::from_slice(&engine.flux.get("auth/terms").unwrap()).unwrap();
    assert!(terms["accepted"].as_bool().unwrap());

    let route: String = serde_json::from_slice(&engine.flux.get("app/route").unwrap()).unwrap();
    assert_eq!(route, "/login");

    // 3. Login
    engine.emit("auth/login", &[]);

    let auth: serde_json::Value = serde_json::from_slice(&engine.flux.get("auth/state").unwrap()).unwrap();
    assert_eq!(auth["phase"], "authenticated");

    let route: String = serde_json::from_slice(&engine.flux.get("app/route").unwrap()).unwrap();
    assert_eq!(route, "/home");

    assert!(engine.notified_to(watcher).len() >= 7);
}

#[test]
fn first_subscription_id_is_one() {
    let mut flux = Flux::new();
    assert_eq!(flux.subscribe("#"), SubscriptionId(1));
}
