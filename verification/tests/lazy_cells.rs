use std::cell::Cell;

use pytype_bridge::runtime::{PyAny, Python};
use pytype_bridge::type_object::{LazyHeapType, LazyStaticType, PyTypeInfo};
use pytype_bridge::types::{PyType, OBJECT_TYPE_ADDR, TYPE_TYPE_ADDR};

#[test]
fn heap_cell_returns_the_same_address_every_time() {
    let mut cell = LazyHeapType::new();
    let first = cell.get_or_init(|_py: Python| 0xA11C);
    let second = cell.get_or_init(|_py: Python| 0xBEEF);
    let third = cell.get_or_init(|_py: Python| 0xF00D);
    assert_eq!(first, 0xA11C);
    assert_eq!(second, first);
    assert_eq!(third, first);
}

#[test]
fn heap_cell_runs_the_constructor_exactly_once() {
    let counter = Cell::new(0u32);
    let mut cell = LazyHeapType::new();
    for _ in 0..5 {
        let got = cell.get_or_init(|_py: Python| {
            counter.set(counter.get() + 1);
            0x7000
        });
        assert_eq!(got, 0x7000);
    }
    assert_eq!(counter.get(), 1);
}

#[test]
fn static_cell_synthesizes_from_the_descriptor() {
    let mut cell = LazyStaticType::new();
    let record = cell.get_or_init::<PyType>();
    assert_eq!(record.addr, TYPE_TYPE_ADDR);
    assert_eq!(record.name, "type");
    assert_eq!(record.module, None);
    assert_eq!(record.flags, <PyType as PyTypeInfo>::flags());
    assert_eq!(record.base_addr, OBJECT_TYPE_ADDR);
}

#[test]
fn static_cell_returns_the_same_record_every_time() {
    let mut cell = LazyStaticType::new();
    let first_addr = cell.get_or_init::<PyAny>().addr;
    let first_name = cell.get_or_init::<PyAny>().name;
    let again = cell.get_or_init::<PyAny>();
    assert_eq!(again.addr, first_addr);
    assert_eq!(again.name, first_name);
    assert_eq!(first_addr, OBJECT_TYPE_ADDR);
}

#[test]
fn static_cell_keeps_the_first_type_it_published() {
    // A cell belongs to one class; even a later accessor naming another
    // descriptor sees the record the first call published.
    let mut cell = LazyStaticType::new();
    let first_addr = cell.get_or_init::<PyType>().addr;
    let second = cell.get_or_init::<PyAny>();
    assert_eq!(second.addr, first_addr);
    assert_eq!(second.name, "type");
}
