use arc_trace::handle::ArcTrace;
use arc_trace::registry::Registry;
use std::cell::RefCell;
use std::ops::Deref;
use std::rc::{Rc, Weak};

type Shared = Rc<RefCell<Registry>>;

/// A handle that duplicates on `clone` and releases its id when dropped.
struct Scoped<T> {
    handle: ArcTrace<T>,
    registry: Shared,
}

impl<T> Scoped<T> {
    fn new(value: T, name: &str, registry: &Shared) -> Self {
        let handle = ArcTrace::new(value, name.to_string(), &mut registry.borrow_mut());
        Scoped { handle, registry: registry.clone() }
    }
}

impl<T> Clone for Scoped<T> {
    fn clone(&self) -> Self {
        let handle = self.handle.duplicate(&mut self.registry.borrow_mut());
        Scoped { handle, registry: self.registry.clone() }
    }
}

impl<T> Drop for Scoped<T> {
    fn drop(&mut self) {
        self.handle.release(&mut self.registry.borrow_mut());
    }
}

impl<T> Deref for Scoped<T> {
    type Target = T;

    fn deref(&self) -> &T {
        &self.handle
    }
}

#[derive(Clone)]
struct Foo {
    bar: Scoped<RefCell<Option<Bar>>>,
}

#[derive(Clone)]
struct Bar {
    foo: Scoped<RefCell<Option<Foo>>>,
}

fn live_ids(registry: &Shared, tracer: usize) -> Vec<u64> {
    registry.borrow().tracer(tracer).live_ids()
}

#[test]
fn owning_cycle_leaves_one_live_id_per_tracer() {
    let registry: Shared = Rc::new(RefCell::new(Registry::new()));
    {
        let a = Foo { bar: Scoped::new(RefCell::new(None), "foo", &registry) };
        let b = Bar { foo: Scoped::new(RefCell::new(None), "bar", &registry) };
        *a.bar.borrow_mut() = Some(b.clone());
        *b.foo.borrow_mut() = Some(a.clone());
        assert_eq!(live_ids(&registry, 0), vec![0, 1]);
        assert_eq!(live_ids(&registry, 1), vec![0, 1]);
    }
    assert_eq!(registry.borrow().len(), 2);
    assert_eq!(live_ids(&registry, 0), vec![1]);
    assert_eq!(live_ids(&registry, 1), vec![1]);
}

struct Parent {
    child: Scoped<RefCell<Option<Child>>>,
}

#[derive(Clone)]
struct Child {
    parent: Scoped<RefCell<Weak<Parent>>>,
}

#[test]
fn weak_back_reference_leaves_no_live_id() {
    let registry: Shared = Rc::new(RefCell::new(Registry::new()));
    {
        let a = Rc::new(Parent { child: Scoped::new(RefCell::new(None), "parent", &registry) });
        let b = Child { parent: Scoped::new(RefCell::new(Weak::new()), "child", &registry) };
        *a.child.borrow_mut() = Some(b.clone());
        *b.parent.borrow_mut() = Rc::downgrade(&a);
        assert_eq!(live_ids(&registry, 0), vec![0]);
        assert_eq!(live_ids(&registry, 1), vec![0, 1]);
    }
    assert_eq!(registry.borrow().len(), 2);
    assert!(live_ids(&registry, 0).is_empty());
    assert!(live_ids(&registry, 1).is_empty());
}
