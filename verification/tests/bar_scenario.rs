use foreign_types::{
    Borrowed, ExclusiveView, ForeignType, ForeignTypeRef, Owned, RawHandle, ResourceKind,
    SharedView,
};
use std::sync::Mutex;

// A foreign interface with two kinds of resource, where a BAR holds a FOO and
// hands out a view of it.

#[derive(Debug)]
pub enum FOO {}

#[derive(Debug)]
pub enum BAR {}

static FOO_FREED: Mutex<Vec<usize>> = Mutex::new(Vec::new());
static BAR_FREED: Mutex<Vec<usize>> = Mutex::new(Vec::new());

fn foo_free(foo: RawHandle<FOO>) {
    FOO_FREED.lock().unwrap().push(foo.addr());
}

fn bar_free(bar: RawHandle<BAR>) {
    BAR_FREED.lock().unwrap().push(bar.addr());
}

fn bar_get_foo(bar: RawHandle<BAR>) -> RawHandle<FOO> {
    RawHandle::from_addr(bar.addr() + 16)
}

fn foo_freed() -> Vec<usize> {
    FOO_FREED.lock().unwrap().clone()
}

fn bar_freed() -> Vec<usize> {
    BAR_FREED.lock().unwrap().clone()
}

pub enum FooKind {}

pub enum BarKind {}

impl ResourceKind for FooKind {
    type CType = FOO;

    fn release(handle: RawHandle<FOO>) {
        foo_free(handle)
    }
}

impl ResourceKind for BarKind {
    type CType = BAR;

    fn release(handle: RawHandle<BAR>) {
        bar_free(handle)
    }
}

type FooRef = Borrowed<FooKind>;
type Bar = Owned<BarKind>;
type BarRef = Borrowed<BarKind>;

// The interface says that `bar_get_foo` returns a view into the BAR that it
// is given, and that the FOO may be changed through it: one accessor for any
// view of a BAR, one for an exclusive view.

trait BarRead {
    fn foo(&self) -> SharedView<'_, FooRef>;
}

trait BarWrite {
    fn foo_mut(&mut self) -> ExclusiveView<'_, FooRef>;
}

impl BarRead for BarRef {
    fn foo(&self) -> SharedView<'_, FooRef> {
        FooRef::from_ptr(bar_get_foo(self.as_ptr()))
    }
}

impl BarWrite for ExclusiveView<'_, BarRef> {
    fn foo_mut(&mut self) -> ExclusiveView<'_, FooRef> {
        FooRef::from_ptr_mut(bar_get_foo(self.as_ptr()))
    }
}

#[test]
fn bar_hands_out_a_view_of_its_foo() {
    let bar_handle = RawHandle::<BAR>::from_addr(0x2000);
    let mut bar = Bar::from_ptr(bar_handle);

    {
        let foo = bar.foo();
        assert_eq!(foo.as_ptr(), bar_get_foo(bar_handle));
        assert_eq!(foo.as_ptr().addr(), 0x2010);
        let again = bar.foo();
        assert_eq!(again.as_ptr(), foo.as_ptr());
    }
    {
        let mut exclusive = bar.borrow_mut();
        let foo = exclusive.foo_mut();
        assert_eq!(foo.as_ptr(), bar_get_foo(bar_handle));
    }
    assert!(foo_freed().is_empty());
    assert!(bar_freed().is_empty());

    bar.release();
    assert_eq!(bar_freed(), vec![0x2000]);
    assert!(foo_freed().is_empty());
}
