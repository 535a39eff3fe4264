use std::marker::PhantomData;

use dyn_sized::layout::{align_of_val, size_of_val};
use dyn_sized::memory::{Block, Object, TextBlock};
use dyn_sized::protocol::{Composite, DynSized, Interface, NoMeta, PtrExt, PtrMutExt, WrapSized};
use dyn_sized::repr::{SliceRef, StrRef, ThinRef, TraitObject, Vtable};

fn slice_handle<T>(s: &[T]) -> SliceRef<T> {
    SliceRef { data: s.as_ptr() as usize, len: s.len(), marker: PhantomData }
}

fn str_handle(s: &str) -> StrRef {
    StrRef { data: s.as_ptr() as usize, len: s.len() }
}

#[test]
fn test_slice() {
    let slice = &[1, 2, 3] as &[i32];
    let (len, ptr) = <[i32] as DynSized>::disassemble(slice_handle(slice));
    let new_slice = <[i32] as DynSized>::assemble(len, ptr);
    let block = Block::new(ptr, slice.to_vec());
    for i in 0..slice.len() {
        assert_eq!(block.read(new_slice, i), Some(&slice[i]));
    }
    assert_eq!(block.read(new_slice, 3), None);
    assert_eq!(new_slice.len, slice.len());
    assert_eq!(new_slice.data, slice.as_ptr() as usize);
}

#[test]
fn test_str() {
    let s = "Yolo123";
    let (len, ptr) = <str as DynSized>::disassemble(str_handle(s));
    let new_s = <str as DynSized>::assemble(len, ptr);
    let block = TextBlock::new(s.as_ptr() as usize, s);
    assert_eq!(block.read(new_s), Some(s));
}

#[allow(non_snake_case)]
#[test]
fn test_derive_DynSized() {
    struct MyBorrow;
    let vtable = Vtable(0x4000);
    let handle = <Interface<MyBorrow> as DynSized>::assemble(vtable, 0x1000);
    let (meta, data) = <Interface<MyBorrow> as DynSized>::disassemble(handle);
    assert_eq!(meta, vtable);
    assert_eq!(data, 0x1000);
}

#[allow(non_snake_case)]
#[test]
fn test_PtrExt() {
    let slice: &mut [i32] = &mut [1, 2, 3];
    let handle = slice_handle(slice);

    let len: <[i32] as DynSized>::Meta = handle.meta();
    assert_eq!(len, 3usize);
    let len: <[i32] as DynSized>::Meta = <[i32] as DynSized>::disassemble(handle).0;
    assert_eq!(len, 3usize);
    let len: <[i32] as DynSized>::Meta = <[i32] as DynSized>::disassemble_mut(handle).0;
    assert_eq!(len, 3usize);
    let len: <[i32] as DynSized>::Meta = PtrExt::meta(&handle);
    assert_eq!(len, 3usize);

    let addr = slice.as_ptr() as usize;
    let data: usize = handle.data();
    assert_eq!(addr, data);
    let data: usize = <[i32] as DynSized>::disassemble(handle).1;
    assert_eq!(addr, data);
    let data: usize = PtrExt::data(&handle);
    assert_eq!(addr, data);
    let data: usize = <[i32] as DynSized>::disassemble_mut(handle).1;
    assert_eq!(addr, data);

    let data: usize = handle.data_mut();
    assert_eq!(addr, data);
    let data: usize = <[i32] as DynSized>::assemble_mut(3, addr).data_mut();
    assert_eq!(addr, data);
}

#[allow(dead_code)]
struct MyStruct<T> {
    x: usize,
    value: T,
}

#[test]
fn slice() {
    let my_struct = MyStruct { x: 0, value: [1i32, 2, 3, 4] };
    let addr = std::ptr::from_ref(&my_struct) as usize;
    let my_struct_ptr = SliceRef::<i32> { data: addr, len: 4, marker: PhantomData };

    assert_eq!(<Composite<usize, [i32]> as DynSized>::disassemble(my_struct_ptr).0, 4);
    assert_eq!(&my_struct.value, &[1, 2, 3, 4]);
    assert_eq!(<Composite<usize, [i32]> as DynSized>::disassemble(my_struct_ptr).1, addr);

    let assembled = <Composite<usize, [i32]> as DynSized>::assemble(4usize, addr);

    assert_eq!((assembled.data, assembled.len), (my_struct_ptr.data, my_struct_ptr.len));
}

trait Foo {
    fn foo(&self) -> i32;
}

impl Foo for i32 {
    fn foo(&self) -> i32 {
        *self + 1
    }
}

#[test]
fn trait_object() {
    let my_struct = MyStruct { x: 5, value: 3i32 };
    let object = Object::new(std::ptr::from_ref(&my_struct.value) as usize, Vtable(0x8000), my_struct.value);
    let handle = <Interface<dyn Foo> as DynSized>::assemble(object.vtable, object.addr);
    assert_eq!(object.resolve(handle).map(|v| v.foo()), Some(4));
}

#[test]
fn array_scenario() {
    let elems = vec![10u32, 20, 30];
    let block = Block::new(0x2000, elems);
    let handle = <[u32] as DynSized>::assemble(3, 0x2000);
    assert_eq!(handle.meta(), 3);
    assert_eq!(handle.data(), 0x2000);
    assert_eq!(block.read(handle, 1), Some(&20));
    assert_eq!(block.as_ref().len, 3);
    assert_eq!(block.as_ref().data, 0x2000);
}

#[test]
fn array_read_refused_off_block() {
    let block = Block::new(0x2000, vec![10u32, 20, 30]);
    assert_eq!(block.read(<[u32] as DynSized>::assemble(3, 0x2004), 0), None);
    assert_eq!(block.read(<[u32] as DynSized>::assemble(4, 0x2000), 0), None);
    assert_eq!(block.read(<[u32] as DynSized>::assemble(2, 0x2000), 2), None);
    assert_eq!(block.read(<[u32] as DynSized>::assemble(2, 0x2000), 1), Some(&20));
    assert_eq!(block.read(<[u32] as DynSized>::assemble(0, 0x2000), 0), None);
}

#[test]
fn text_scenario() {
    let text = TextBlock::new(0x3000, "ok");
    let handle = <str as DynSized>::assemble(2, 0x3000);
    assert_eq!(handle.meta(), 2);
    assert_eq!(handle.data(), 0x3000);
    assert_eq!(handle.data_mut(), 0x3000);
    assert_eq!(text.read(handle), Some("ok"));
    assert_eq!(text.as_ref(), handle);
}

#[test]
fn text_meta_is_byte_length() {
    let text = TextBlock::new(0x3000, "h\u{e9}!");
    assert_eq!(text.as_ref().len, 4);
    assert_eq!(text.read(<str as DynSized>::assemble(3, 0x3000)), None);
    assert_eq!(text.read(<str as DynSized>::assemble(4, 0x3001)), None);
    let (len, data) = <str as DynSized>::disassemble(text.as_ref());
    assert_eq!(text.read(<str as DynSized>::assemble(len, data)), Some("h\u{e9}!"));
}

#[test]
fn wrapped_scenario() {
    let value = WrapSized(7i32);
    let handle = <WrapSized<i32> as DynSized>::assemble(NoMeta, std::ptr::from_ref(&value) as usize);
    assert_eq!(handle.meta(), NoMeta);
    assert_eq!(handle.data(), std::ptr::from_ref(&value) as usize);
    assert_eq!(handle.data_mut(), std::ptr::from_ref(&value) as usize);
    assert_eq!(size_of_val::<WrapSized<i32>>(NoMeta), 4);
    assert_eq!(align_of_val::<WrapSized<i32>>(NoMeta), std::mem::align_of::<i32>());
    let null: ThinRef<WrapSized<i32>> = <WrapSized<i32> as DynSized>::assemble(NoMeta, 0);
    assert_eq!(<WrapSized<i32> as DynSized>::disassemble(null), (NoMeta, 0));
}

#[test]
fn layout_from_meta() {
    assert_eq!(size_of_val::<[i32]>(3), 12);
    assert_eq!(align_of_val::<[i32]>(3), 4);
    assert_eq!(size_of_val::<[u64]>(0), 0);
    assert_eq!(size_of_val::<str>(5), 5);
    assert_eq!(align_of_val::<str>(5), 1);
    assert_eq!(size_of_val::<WrapSized<u64>>(NoMeta), 8);
}

trait Shape {
    fn area(&self) -> u64;
}

struct Circle {
    radius: u64,
}

impl Shape for Circle {
    fn area(&self) -> u64 {
        3 * self.radius * self.radius
    }
}

#[test]
fn interface_scenario() {
    let circle = Circle { radius: 2 };
    let direct = circle.area();
    let object = Object::new(0x5000, Vtable(0x9000), circle);
    let handle = <Interface<dyn Shape> as DynSized>::assemble(Vtable(0x9000), 0x5000);
    assert_eq!(object.resolve(handle).map(|c| c.area()), Some(direct));
    assert_eq!(object.as_ref(), handle);
    let wrong = <Interface<dyn Shape> as DynSized>::assemble(Vtable(0x9008), 0x5000);
    assert!(object.resolve(wrong).is_none());
}

#[test]
fn trait_object_parts() {
    let t = TraitObject::construct(Vtable(0x10), 0x20);
    assert_eq!(t.data(), 0x20);
    assert_eq!(t.vtable(), Vtable(0x10));
    assert_eq!(t, TraitObject { data: 0x20, vtable: 0x10 });
}

#[test]
fn round_trip_each_category() {
    let s = <[u8] as DynSized>::assemble(7, 0x40);
    assert_eq!(<[u8] as DynSized>::disassemble(s), (7, 0x40));
    let t = <str as DynSized>::assemble(9, 0x50);
    assert_eq!(<str as DynSized>::disassemble(t), (9, 0x50));
    let w = <WrapSized<u8> as DynSized>::assemble(NoMeta, 0x60);
    assert_eq!(<WrapSized<u8> as DynSized>::disassemble(w), (NoMeta, 0x60));
    let i = <Interface<dyn Shape> as DynSized>::assemble(Vtable(0x70), 0x80);
    assert_eq!(<Interface<dyn Shape> as DynSized>::disassemble(i), (Vtable(0x70), 0x80));
    let c = <Composite<u32, str> as DynSized>::assemble(3, 0x90);
    assert_eq!(<Composite<u32, str> as DynSized>::disassemble(c), (3, 0x90));
}

#[test]
fn protocol_reflectors() {
    let p = <[u16] as DynSized>::assemble(5, 0x100);
    assert_eq!(<[u16] as DynSized>::meta(p), 5);
    assert_eq!(<[u16] as DynSized>::data(p), 0x100);
    assert_eq!(<[u16] as DynSized>::data_mut(p), 0x100);
    let o = <Interface<dyn Foo> as DynSized>::assemble(Vtable(0x30), 0x200);
    assert_eq!(<Interface<dyn Foo> as DynSized>::meta(o), Vtable(0x30));
    assert_eq!(<Interface<dyn Foo> as DynSized>::data(o), 0x200);
}
