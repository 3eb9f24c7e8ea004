use foreign_types::{Borrowed, ForeignType, ForeignTypeRef, Owned, RawHandle, ResourceKind};
use std::sync::Mutex;

// A foreign interface with one kind of resource, that records what is asked
// of it.

#[derive(Debug)]
pub enum FOO {}

static READ: Mutex<Vec<usize>> = Mutex::new(Vec::new());
static FREED: Mutex<Vec<usize>> = Mutex::new(Vec::new());

fn foo_len(foo: RawHandle<FOO>) -> usize {
    READ.lock().unwrap().push(foo.addr());
    foo.addr() % 100
}

fn foo_free(foo: RawHandle<FOO>) {
    FREED.lock().unwrap().push(foo.addr());
}

fn read() -> Vec<usize> {
    READ.lock().unwrap().clone()
}

fn freed() -> Vec<usize> {
    FREED.lock().unwrap().clone()
}

pub enum FooKind {}

impl ResourceKind for FooKind {
    type CType = FOO;

    fn release(handle: RawHandle<FOO>) {
        foo_free(handle)
    }
}

type Foo = Owned<FooKind>;
type FooRef = Borrowed<FooKind>;

trait FooOps {
    fn len(&self) -> usize;
}

impl FooOps for FooRef {
    fn len(&self) -> usize {
        foo_len(self.as_ptr())
    }
}

#[test]
fn foo_is_read_through_its_owner_and_freed_once() {
    let foo_handle = RawHandle::<FOO>::from_addr(0x1042);
    let foo = Foo::from_ptr(foo_handle);
    assert!(freed().is_empty());

    assert_eq!(foo.len(), 0x1042 % 100);
    assert_eq!(read(), vec![0x1042]);
    assert!(freed().is_empty());

    foo.release();
    assert_eq!(freed(), vec![0x1042]);
    assert_eq!(read(), vec![0x1042]);
}
