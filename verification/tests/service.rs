use bus_channels::service::{
    Action, ActionCallback, Context, ContextError, Event, EventCallback, EventType, Service,
};
use bus_channels::registry::Registry;
use bytes::Bytes;

fn echo(ctx: Context) -> Option<Bytes> {
    Some(ctx.params)
}

fn silent(_ctx: Context) -> Option<Bytes> {
    None
}

fn fixed(_ctx: Context) -> Option<Bytes> {
    Some(Bytes::from(vec![7u8, 8, 9]))
}

fn drop_it(_ctx: Context) {}

fn drop_it_too(ctx: Context) {
    if ctx.level > 1000 {
        panic!("call chain too deep: {}", ctx.level);
    }
}

fn request(id: &str) -> Context {
    Context {
        id: id.to_string(),
        broker: "broker-1".to_string(),
        node_id: "nodeA".to_string(),
        action: Some("math.add".to_string()),
        event: None,
        event_name: None,
        event_type: None,
        event_groups: Vec::new(),
        caller: "gateway".to_string(),
        request_id: "req-1".to_string(),
        parent_id: String::new(),
        params: Bytes::from(vec![1u8, 2, 3]),
        meta: Bytes::new(),
        locals: Bytes::new(),
        level: 1,
    }
}

type Registered = Service<ActionCallback, EventCallback>;

#[test]
fn new_service_is_bare() {
    let s = Registered::new("math");
    assert_eq!(s.service_name(), "math");
    assert_eq!(s.service_version(), None);
    assert_eq!(s.action_count(), 0);
    assert_eq!(s.event_count(), 0);
    assert!(s.find_action("add").is_none());
    assert!(s.find_event("user.created").is_none());
}

#[test]
fn default_service_has_no_name() {
    let s = Registered::default();
    assert_eq!(s.service_name(), "");
    assert_eq!(s.service_version(), None);
    assert_eq!(s.action_count(), 0);
    assert_eq!(s.event_count(), 0);
}

#[test]
fn version_is_recorded() {
    let s = Registered::new("math").version(2);
    assert_eq!(s.service_version(), Some(2));
    assert_eq!(s.service_name(), "math");
    let s = s.version(-3);
    assert_eq!(s.service_version(), Some(-3));
}

#[test]
fn registered_action_is_found_and_callable() {
    let s = Registered::new("math").action(Action::new("add", echo as ActionCallback));
    assert_eq!(s.action_count(), 1);
    let cb = s.find_action("add").expect("registered");
    assert_eq!(cb(request("a")), Some(Bytes::from(vec![1u8, 2, 3])));
    assert!(s.find_action("sub").is_none());
    assert!(s.find_event("add").is_none());
}

#[test]
fn second_registration_of_a_name_wins() {
    let s = Registered::new("math")
        .action(Action::new("add", silent as ActionCallback))
        .action(Action::new("add", fixed as ActionCallback));
    assert_eq!(s.action_count(), 1);
    let cb = s.find_action("add").expect("registered");
    assert_eq!(cb(request("a")), Some(Bytes::from(vec![7u8, 8, 9])));
}

#[test]
fn second_registration_keeps_the_other_names() {
    let s = Registered::new("math")
        .action(Action::new("add", silent as ActionCallback))
        .action(Action::new("sub", echo as ActionCallback))
        .action(Action::new("add", fixed as ActionCallback));
    assert_eq!(s.action_count(), 2);
    assert_eq!((s.find_action("sub").unwrap())(request("a")), Some(Bytes::from(vec![1u8, 2, 3])));
    assert_eq!((s.find_action("add").unwrap())(request("a")), Some(Bytes::from(vec![7u8, 8, 9])));
}

#[test]
fn second_event_registration_wins() {
    let s = Registered::new("users")
        .event(Event::new("user.created", drop_it as EventCallback))
        .event(Event::new("user.created", drop_it_too as EventCallback));
    assert_eq!(s.event_count(), 1);
    let cb = *s.find_event("user.created").expect("registered");
    assert!(cb == drop_it_too as EventCallback);
    assert!(cb != drop_it as EventCallback);
}

#[test]
fn action_and_event_order_is_irrelevant() {
    let a = Registered::new("users")
        .action(Action::new("get", echo as ActionCallback))
        .event(Event::new("user.created", drop_it as EventCallback));
    let b = Registered::new("users")
        .event(Event::new("user.created", drop_it as EventCallback))
        .action(Action::new("get", echo as ActionCallback));
    for s in [&a, &b] {
        assert_eq!(s.action_count(), 1);
        assert_eq!(s.event_count(), 1);
        assert!(*s.find_action("get").unwrap() == echo as ActionCallback);
        assert!(*s.find_event("user.created").unwrap() == drop_it as EventCallback);
        assert!(s.find_action("user.created").is_none());
        assert!(s.find_event("get").is_none());
    }
}

#[test]
fn distinct_actions_in_either_order() {
    let a = Registered::new("math")
        .action(Action::new("add", echo as ActionCallback))
        .action(Action::new("sub", fixed as ActionCallback));
    let b = Registered::new("math")
        .action(Action::new("sub", fixed as ActionCallback))
        .action(Action::new("add", echo as ActionCallback));
    for s in [&a, &b] {
        assert_eq!(s.action_count(), 2);
        assert!(*s.find_action("add").unwrap() == echo as ActionCallback);
        assert!(*s.find_action("sub").unwrap() == fixed as ActionCallback);
    }
}

#[test]
fn names_differ_by_case_and_prefix() {
    let s = Registered::new("math")
        .action(Action::new("add", echo as ActionCallback))
        .action(Action::new("Add", fixed as ActionCallback))
        .action(Action::new("ad", silent as ActionCallback))
        .action(Action::new("", silent as ActionCallback));
    assert_eq!(s.action_count(), 4);
    assert!(*s.find_action("add").unwrap() == echo as ActionCallback);
    assert!(*s.find_action("Add").unwrap() == fixed as ActionCallback);
    assert!(*s.find_action("ad").unwrap() == silent as ActionCallback);
    assert!(s.find_action("").is_some());
    assert!(s.find_action("addd").is_none());
}

#[test]
fn well_formed_request_validates() {
    assert_eq!(request("abc").validate(), Ok(()));
}

#[test]
fn well_formed_event_validates() {
    let mut ctx = request("abc");
    ctx.action = None;
    ctx.event = Some("user.created".to_string());
    ctx.event_name = Some("user.created".to_string());
    ctx.event_type = Some(EventType::Broadcast);
    ctx.event_groups = vec!["mail".to_string(), "audit".to_string()];
    ctx.level = 3;
    assert_eq!(ctx.validate(), Ok(()));
}

#[test]
fn empty_id_is_rejected() {
    let mut ctx = request("");
    assert_eq!(ctx.validate(), Err(ContextError::EmptyId));
    ctx.node_id = String::new();
    assert_eq!(ctx.validate(), Err(ContextError::EmptyId));
}

#[test]
fn empty_node_id_is_rejected() {
    let mut ctx = request("abc");
    ctx.node_id = String::new();
    assert_eq!(ctx.validate(), Err(ContextError::EmptyNodeId));
}

#[test]
fn empty_request_id_is_rejected() {
    let mut ctx = request("abc");
    ctx.request_id = String::new();
    assert_eq!(ctx.validate(), Err(ContextError::EmptyRequestId));
}

#[test]
fn level_below_one_is_rejected() {
    let mut ctx = request("abc");
    ctx.level = 0;
    assert_eq!(ctx.validate(), Err(ContextError::LevelTooLow));
    ctx.level = i32::MIN;
    assert_eq!(ctx.validate(), Err(ContextError::LevelTooLow));
    ctx.level = i32::MAX;
    assert_eq!(ctx.validate(), Ok(()));
}

#[test]
fn missing_target_is_rejected() {
    let mut ctx = request("abc");
    ctx.action = None;
    assert_eq!(ctx.validate(), Err(ContextError::NoTarget));
}

#[test]
fn double_target_is_rejected() {
    let mut ctx = request("abc");
    ctx.event = Some("user.created".to_string());
    assert_eq!(ctx.validate(), Err(ContextError::TwoTargets));
}

#[test]
fn empty_parent_is_a_root_call() {
    let ctx = request("abc");
    assert!(ctx.parent_id.is_empty());
    assert_eq!(ctx.validate(), Ok(()));
}

#[test]
fn nested_call_continues_its_parent() {
    let parent = request("p");
    let mut child = request("c");
    child.parent_id = "p".to_string();
    child.level = 2;
    assert!(child.continues(&parent));
    assert!(!parent.continues(&child));
    child.level = 1;
    assert!(child.continues(&parent));
    child.request_id = "req-2".to_string();
    assert!(!child.continues(&parent));
}

#[test]
fn event_types_are_distinct() {
    assert_ne!(EventType::Emit, EventType::Broadcast);
    assert_eq!(EventType::Emit, EventType::Emit);
}

#[test]
fn registry_holds_each_name_once() {
    let r: Registry<u32> = Registry::new();
    assert_eq!(r.len(), 0);
    assert!(r.get("a").is_none());
    let r = r.insert("a".to_string(), 1).insert("b".to_string(), 2).insert("a".to_string(), 3);
    assert_eq!(r.len(), 2);
    assert_eq!(r.get("a"), Some(&3));
    assert_eq!(r.get("b"), Some(&2));
    assert!(r.get("c").is_none());
    let r = r.insert("b".to_string(), 4);
    assert_eq!(r.len(), 2);
    assert_eq!(r.get("a"), Some(&3));
    assert_eq!(r.get("b"), Some(&4));
}
