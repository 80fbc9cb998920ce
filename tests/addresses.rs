use std::cell::{Cell, RefCell};
use std::collections::HashSet;

use forwarder_addresses::address::{Address, LOCAL};
use forwarder_addresses::bundle::{Addresses, BundleError};
use forwarder_addresses::label::{label, roles, Ftype, Role};

fn addr(tt: u8, s: &str) -> Address {
    Address::new(tt, s.as_bytes().to_vec())
}

fn is_random_local(a: &Address) -> bool {
    a.tt == LOCAL
        && a.inner.len() == 32
        && a.inner.iter().all(|b| b.is_ascii_digit() || (b'a'..=b'f').contains(b))
}

fn bundle_vec(b: &Addresses) -> Vec<Address> {
    vec![
        b.main_remote().clone(),
        b.main_internal().clone(),
        b.heartbeat().clone(),
        b.completion_callback().clone(),
    ]
}

#[test]
fn labels_of_static_forwarder() {
    assert_eq!(label(Ftype::Static, Role::MainRemote), "RemoteForwarder.static.main_remote");
    assert_eq!(label(Ftype::Static, Role::MainInternal), "RemoteForwarder.static.main_internal");
    assert_eq!(label(Ftype::Static, Role::Heartbeat), "RemoteForwarder.static.heartbeat");
    assert_eq!(label(Ftype::Static, Role::Child), "RemoteForwarder.static.child");
}

#[test]
fn labels_of_ephemeral_forwarder() {
    assert_eq!(label(Ftype::Ephemeral, Role::MainRemote), "RemoteForwarder.ephemeral.main_remote");
    assert_eq!(label(Ftype::Ephemeral, Role::Child), "RemoteForwarder.ephemeral.child");
}

#[test]
fn kind_and_role_tags() {
    assert_eq!(Ftype::Static.str(), "static");
    assert_eq!(Ftype::Ephemeral.str(), "ephemeral");
    assert_eq!(Role::MainRemote.str(), "main_remote");
    assert_eq!(Role::MainInternal.str(), "main_internal");
    assert_eq!(Role::Heartbeat.str(), "heartbeat");
    assert_eq!(Role::Child.str(), "child");
}

#[test]
fn roles_come_in_allocation_order() {
    assert_eq!(roles(), vec![Role::MainRemote, Role::MainInternal, Role::Heartbeat, Role::Child]);
}

#[test]
fn labels_of_two_kinds_differ_in_the_tag_only() {
    for role in roles() {
        let a = label(Ftype::Static, role);
        let b = label(Ftype::Ephemeral, role);
        let pa: Vec<&str> = a.split('.').collect();
        let pb: Vec<&str> = b.split('.').collect();
        assert_eq!(pa.len(), 3);
        assert_eq!(pb.len(), 3);
        assert_eq!(pa[0], pb[0]);
        assert_eq!(pa[2], pb[2]);
        assert_ne!(pa[1], pb[1]);
        assert_eq!(pa[1], "static");
        assert_eq!(pb[1], "ephemeral");
    }
}

#[test]
fn label_is_deterministic() {
    for ftype in [Ftype::Static, Ftype::Ephemeral] {
        for role in roles() {
            assert_eq!(label(ftype, role), label(ftype, role));
        }
    }
}

#[test]
fn labels_are_all_different() {
    let mut seen = HashSet::new();
    for ftype in [Ftype::Static, Ftype::Ephemeral] {
        for role in roles() {
            assert!(seen.insert(label(ftype, role)));
        }
    }
    assert_eq!(seen.len(), 8);
}

#[test]
fn generate_gives_four_distinct_random_local_addresses() {
    for ftype in [Ftype::Static, Ftype::Ephemeral] {
        let b = Addresses::generate(ftype);
        let v = bundle_vec(&b);
        for a in &v {
            assert!(is_random_local(a));
        }
        for i in 0..4 {
            for j in 0..4 {
                if i != j {
                    assert_ne!(v[i], v[j]);
                }
            }
        }
    }
}

#[test]
fn many_forwarders_get_distinct_addresses() {
    let n = 100;
    let mut seen: HashSet<(u8, Vec<u8>)> = HashSet::new();
    for k in 0..n {
        let ftype = if k % 2 == 0 { Ftype::Static } else { Ftype::Ephemeral };
        let b = Addresses::generate(ftype);
        for a in bundle_vec(&b) {
            assert!(seen.insert((a.tt, a.inner.clone())));
        }
    }
    assert_eq!(seen.len(), 4 * n);
}

#[test]
fn generate_with_asks_for_the_labels_in_role_order() {
    let hints = RefCell::new(Vec::new());
    let alloc = |hint: String| {
        let n = hints.borrow().len();
        hints.borrow_mut().push(hint);
        Some(addr(LOCAL, &format!("a{}", n)))
    };
    let b = Addresses::generate_with(Ftype::Static, alloc).unwrap();
    assert_eq!(
        hints.into_inner(),
        vec![
            "RemoteForwarder.static.main_remote".to_string(),
            "RemoteForwarder.static.main_internal".to_string(),
            "RemoteForwarder.static.heartbeat".to_string(),
            "RemoteForwarder.static.child".to_string(),
        ]
    );
    assert_eq!(*b.main_remote(), addr(LOCAL, "a0"));
    assert_eq!(*b.main_internal(), addr(LOCAL, "a1"));
    assert_eq!(*b.heartbeat(), addr(LOCAL, "a2"));
    assert_eq!(*b.completion_callback(), addr(LOCAL, "a3"));
}

#[test]
fn generate_with_asks_the_same_labels_for_the_same_kind() {
    let record = |kind: Ftype| {
        let hints = RefCell::new(Vec::new());
        let alloc = |hint: String| {
            let n = hints.borrow().len();
            hints.borrow_mut().push(hint);
            Some(addr(LOCAL, &format!("b{}", n)))
        };
        Addresses::generate_with(kind, alloc).unwrap();
        hints.into_inner()
    };
    assert_eq!(record(Ftype::Ephemeral), record(Ftype::Ephemeral));
    let stat = record(Ftype::Static);
    let eph = record(Ftype::Ephemeral);
    for i in 0..4 {
        assert_eq!(stat[i].replacen(".static.", ".ephemeral.", 1), eph[i]);
    }
}

#[test]
fn allocator_failing_on_third_request_gives_no_bundle() {
    let calls = Cell::new(0u32);
    let alloc = |_hint: String| {
        let n = calls.get() + 1;
        calls.set(n);
        if n == 3 {
            None
        } else {
            Some(addr(LOCAL, &format!("a{}", n)))
        }
    };
    let r = Addresses::generate_with(Ftype::Static, alloc);
    assert!(matches!(r, Err(BundleError::Exhausted(Role::Heartbeat))));
    assert_eq!(calls.get(), 3);
}

#[test]
fn allocator_failing_at_once_gives_no_bundle() {
    let calls = Cell::new(0u32);
    let alloc = |_hint: String| {
        calls.set(calls.get() + 1);
        None
    };
    let r = Addresses::generate_with(Ftype::Ephemeral, alloc);
    assert!(matches!(r, Err(BundleError::Exhausted(Role::MainRemote))));
    assert_eq!(calls.get(), 1);
}

#[test]
fn allocator_repeating_itself_is_kept_as_returned() {
    let calls = Cell::new(0u32);
    let alloc = |_hint: String| {
        calls.set(calls.get() + 1);
        Some(addr(LOCAL, "same"))
    };
    let b = Addresses::generate_with(Ftype::Static, alloc).unwrap();
    assert_eq!(calls.get(), 4);
    for a in bundle_vec(&b) {
        assert_eq!(a, addr(LOCAL, "same"));
    }
}

#[test]
fn allocator_failing_on_last_request_gives_no_bundle() {
    let hints = RefCell::new(Vec::new());
    let alloc = |hint: String| {
        let last = hint.ends_with(".child");
        hints.borrow_mut().push(hint);
        if last {
            None
        } else {
            Some(addr(LOCAL, &format!("a{}", hints.borrow().len())))
        }
    };
    let r = Addresses::generate_with(Ftype::Ephemeral, alloc);
    assert!(matches!(r, Err(BundleError::Exhausted(Role::Child))));
    assert_eq!(hints.into_inner().len(), 4);
}

#[test]
fn address_equality_reads_type_and_bytes() {
    assert!(addr(0, "abc").same(&addr(0, "abc")));
    assert!(!addr(0, "abc").same(&addr(1, "abc")));
    assert!(!addr(0, "abc").same(&addr(0, "abd")));
    assert!(!addr(0, "abc").same(&addr(0, "ab")));
    assert_eq!(addr(2, ""), addr(2, ""));
}
