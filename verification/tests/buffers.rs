use render_core::instance_ctx::InstanceCtx;
use render_core::vertex_ctx::VertexCtx;
use std::cell::{Cell, RefCell};

/// A stand-in for a GPU buffer: which allocation it is, and its size.
#[derive(Clone, Copy, Debug, PartialEq, Eq)]
struct Buf {
    id: u32,
    capacity: u32,
}

fn items(n: u32) -> Vec<u32> {
    (0..n).collect()
}

#[test]
fn vertex_ctx_starts_empty() {
    let ctx: VertexCtx<u32, Buf> = VertexCtx::new(1024, |cap| Buf { id: 0, capacity: cap });
    assert_eq!(ctx.capacity, 1024);
    assert_eq!(ctx.count, 0);
    assert!(ctx.verts.is_empty());
    assert_eq!(ctx.buf, Buf { id: 0, capacity: 1024 });
}

#[test]
fn vertex_ctx_sync_keeps_buffer_while_items_fit() {
    let made = Cell::new(0u32);
    let alloc = |cap: u32| {
        made.set(made.get() + 1);
        Buf { id: made.get(), capacity: cap }
    };
    let mut ctx: VertexCtx<u32, Buf> = VertexCtx::new(4, alloc);
    let first = ctx.buf;
    let uploaded = ctx.sync(items(3), alloc, |b: &Buf, v: &Vec<u32>| (*b, v.clone()));
    assert_eq!(ctx.buf, first);
    assert_eq!(ctx.capacity, 4);
    assert_eq!(ctx.count, 3);
    assert_eq!(ctx.verts, vec![0, 1, 2]);
    assert_eq!(uploaded, (first, vec![0, 1, 2]));
    ctx.sync(items(4), alloc, |_: &Buf, _: &Vec<u32>| ());
    assert_eq!(ctx.buf, first);
    assert_eq!(ctx.count, 4);
    assert_eq!(made.get(), 1);
}

#[test]
fn vertex_ctx_sync_grows_to_next_power_of_two() {
    let made = Cell::new(0u32);
    let alloc = |cap: u32| {
        made.set(made.get() + 1);
        Buf { id: made.get(), capacity: cap }
    };
    let mut ctx: VertexCtx<u32, Buf> = VertexCtx::new(4, alloc);
    let uploaded = ctx.sync(items(5), alloc, |b: &Buf, v: &Vec<u32>| (*b, v.len()));
    assert_eq!(ctx.capacity, 8);
    assert_eq!(ctx.count, 5);
    assert_eq!(ctx.buf, Buf { id: 2, capacity: 8 });
    assert_eq!(uploaded, (Buf { id: 2, capacity: 8 }, 5));
    ctx.sync(items(100), alloc, |_: &Buf, _: &Vec<u32>| ());
    assert_eq!(ctx.capacity, 128);
    assert_eq!(ctx.buf, Buf { id: 3, capacity: 128 });
}

#[test]
fn vertex_ctx_never_shrinks() {
    let made = Cell::new(0u32);
    let alloc = |cap: u32| {
        made.set(made.get() + 1);
        Buf { id: made.get(), capacity: cap }
    };
    let mut ctx: VertexCtx<u32, Buf> = VertexCtx::new(2, alloc);
    ctx.sync(items(50), alloc, |_: &Buf, _: &Vec<u32>| ());
    let big = ctx.buf;
    ctx.sync(items(0), alloc, |_: &Buf, _: &Vec<u32>| ());
    assert_eq!(ctx.capacity, 64);
    assert_eq!(ctx.count, 0);
    assert!(ctx.verts.is_empty());
    assert_eq!(ctx.buf, big);
}

#[test]
fn vertex_ctx_every_sync_is_a_full_rewrite() {
    let log: RefCell<Vec<Vec<u32>>> = RefCell::new(Vec::new());
    let alloc = |cap: u32| Buf { id: cap, capacity: cap };
    let mut ctx: VertexCtx<u32, Buf> = VertexCtx::new(8, alloc);
    ctx.sync(vec![7, 8, 9], alloc, |_: &Buf, v: &Vec<u32>| log.borrow_mut().push(v.clone()));
    ctx.sync(vec![1], alloc, |_: &Buf, v: &Vec<u32>| log.borrow_mut().push(v.clone()));
    assert_eq!(*log.borrow(), vec![vec![7, 8, 9], vec![1]]);
    assert_eq!(ctx.verts, vec![1]);
}

#[test]
fn capacity_law_over_a_run_of_syncs() {
    let made = Cell::new(0u32);
    let alloc = |cap: u32| {
        made.set(made.get() + 1);
        Buf { id: made.get(), capacity: cap }
    };
    let mut ctx: VertexCtx<u32, Buf> = VertexCtx::new(256, alloc);
    let counts = [10u32, 256, 257, 300, 512, 513, 2, 1024, 1025, 0, 4000, 4096, 4097];
    for n in counts {
        let before_cap = ctx.capacity;
        let before_buf = ctx.buf;
        ctx.sync(items(n), alloc, |_: &Buf, _: &Vec<u32>| ());
        assert!(ctx.capacity >= ctx.count);
        assert_eq!(ctx.count, n);
        assert!(ctx.capacity.is_power_of_two());
        assert!(ctx.capacity >= before_cap);
        assert_eq!(ctx.buf.capacity, ctx.capacity);
        assert_eq!(ctx.buf != before_buf, n > before_cap);
    }
    assert_eq!(ctx.capacity, 8192);
    // 256 -> 512 -> 1024 -> 2048 -> 4096 -> 8192, and the initial buffer
    assert_eq!(made.get(), 6);
}

#[test]
fn capacity_that_is_no_power_of_two_stays_until_growth() {
    let alloc = |cap: u32| Buf { id: cap, capacity: cap };
    let mut ctx: VertexCtx<u32, Buf> = VertexCtx::new(100, alloc);
    ctx.sync(items(50), alloc, |_: &Buf, _: &Vec<u32>| ());
    assert_eq!(ctx.capacity, 100);
    ctx.sync(items(101), alloc, |_: &Buf, _: &Vec<u32>| ());
    assert_eq!(ctx.capacity, 128);
}

#[test]
fn zero_capacity_grows_on_first_item() {
    let alloc = |cap: u32| Buf { id: cap, capacity: cap };
    let mut ctx: VertexCtx<u32, Buf> = VertexCtx::new(0, alloc);
    ctx.sync(items(0), alloc, |_: &Buf, _: &Vec<u32>| ());
    assert_eq!(ctx.capacity, 0);
    ctx.sync(items(1), alloc, |_: &Buf, _: &Vec<u32>| ());
    assert_eq!(ctx.capacity, 1);
    assert_eq!(ctx.buf, Buf { id: 1, capacity: 1 });
}

#[test]
fn instance_ctx_starts_empty() {
    let ctx: InstanceCtx<u8, Buf> = InstanceCtx::new(256, |cap| Buf { id: 0, capacity: cap });
    assert_eq!(ctx.capacity, 256);
    assert_eq!(ctx.count, 0);
    assert!(ctx.instances.is_empty());
    assert_eq!(ctx.buff, Buf { id: 0, capacity: 256 });
}

#[test]
fn instance_ctx_ensure_capacity_follows_the_mirror() {
    let alloc = |cap: u32| Buf { id: cap, capacity: cap };
    let mut ctx: InstanceCtx<u8, Buf> = InstanceCtx::new(2, alloc);
    ctx.instances.push(1);
    ctx.instances.push(2);
    ctx.ensure_capacity(alloc);
    assert_eq!(ctx.count, 2);
    assert_eq!(ctx.capacity, 2);
    assert_eq!(ctx.buff, Buf { id: 2, capacity: 2 });
    ctx.instances.push(3);
    ctx.ensure_capacity(alloc);
    assert_eq!(ctx.count, 3);
    assert_eq!(ctx.capacity, 4);
    assert_eq!(ctx.buff, Buf { id: 4, capacity: 4 });
}

#[test]
fn instance_ctx_sync_replaces_buffer_only_on_growth() {
    let made = Cell::new(0u32);
    let alloc = |cap: u32| {
        made.set(made.get() + 1);
        Buf { id: made.get(), capacity: cap }
    };
    let mut ctx: InstanceCtx<u32, Buf> = InstanceCtx::new(256, alloc);
    let first = ctx.buff;
    let seen = ctx.sync_instances(items(8), alloc, |b: &Buf, v: &Vec<u32>| (*b, v.len()));
    assert_eq!(seen, (first, 8));
    assert_eq!(ctx.count, 8);
    assert_eq!(ctx.capacity, 256);
    let seen = ctx.sync_instances(items(300), alloc, |b: &Buf, v: &Vec<u32>| (*b, v.len()));
    assert_eq!(ctx.capacity, 512);
    assert_eq!(seen, (Buf { id: 2, capacity: 512 }, 300));
    assert_eq!(ctx.instances.len(), 300);
    assert_eq!(made.get(), 2);
}
