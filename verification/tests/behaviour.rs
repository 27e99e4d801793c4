use my_vec::growth::UNBOUNDED;
use my_vec::MyVec;
use std::cell::Cell;
use std::rc::Rc;

struct Counted {
    id: usize,
    drops: Rc<Cell<usize>>,
}

impl Drop for Counted {
    fn drop(&mut self) {
        self.drops.set(self.drops.get() + 1);
    }
}

#[test]
fn new_array_is_empty_and_reserves_nothing() {
    let v = MyVec::<u32>::new();
    assert_eq!(0, v.cap());
    assert_eq!(0, v.length());
    assert_eq!(None, v.get(0));
}

#[test]
fn unbounded_is_the_largest_count() {
    assert_eq!(usize::MAX, UNBOUNDED);
    assert_eq!(UNBOUNDED, MyVec::<()>::new().cap());
}

#[test]
fn capacity_is_the_next_power_of_two() {
    let mut v = MyVec::<u64>::new();
    let mut k: usize = 0;
    while k < 1000 {
        v.push(k as u64);
        k += 1;
        assert_eq!(k, v.length());
        assert_eq!(k.next_power_of_two(), v.cap());
    }
    assert_eq!(1024, v.cap());
}

#[test]
fn capacity_doubles_step_by_step() {
    let mut v = MyVec::<u8>::new();
    let expected: [usize; 9] = [1, 2, 4, 4, 8, 8, 8, 8, 16];
    for (i, cap) in expected.iter().enumerate() {
        v.push(i as u8);
        assert_eq!(*cap, v.cap());
        assert_eq!(i + 1, v.length());
    }
}

#[test]
fn pops_give_the_pushes_back_in_reverse() {
    let vals: Vec<i32> = vec![7, -3, 0, 42, 42, 9, 100, -100];
    let mut v = MyVec::<i32>::new();
    for x in vals.iter() {
        v.push(*x);
    }
    let mut i: usize = vals.len();
    while i > 0 {
        i -= 1;
        assert_eq!(Some(vals[i]), v.pop());
        assert_eq!(i, v.length());
    }
    assert_eq!(None, v.pop());
    assert_eq!(None, v.pop());
    assert_eq!(0, v.length());
    assert_eq!(8, v.cap());
}

#[test]
fn pop_on_empty_array_changes_nothing() {
    let mut v = MyVec::<u32>::new();
    assert_eq!(None, v.pop());
    assert_eq!(0, v.length());
    assert_eq!(0, v.cap());
}

#[test]
fn push_after_pop_reuses_the_slots() {
    let mut v = MyVec::<u32>::new();
    v.push(1);
    v.push(2);
    v.push(3);
    assert_eq!(4, v.cap());
    assert_eq!(Some(3), v.pop());
    assert_eq!(Some(2), v.pop());
    v.push(20);
    v.push(30);
    assert_eq!(4, v.cap());
    v.push(40);
    assert_eq!(4, v.cap());
    v.push(50);
    assert_eq!(8, v.cap());
    assert_eq!(Some(&1), v.get(0));
    assert_eq!(Some(&20), v.get(1));
    assert_eq!(Some(&30), v.get(2));
    assert_eq!(Some(&40), v.get(3));
    assert_eq!(Some(&50), v.get(4));
    assert_eq!(None, v.get(5));
}

#[test]
fn get_is_absent_from_length_on() {
    let mut v = MyVec::<u32>::new();
    v.push(5);
    v.push(6);
    v.push(7);
    assert_eq!(Some(&7), v.get(2));
    assert_eq!(None, v.get(3));
    assert_eq!(None, v.get(4));
    assert_eq!(None, v.get(usize::MAX));
    assert_eq!(None, v.get_mut(3));
    assert_eq!(None, v.get_mut(usize::MAX));
    v.pop();
    assert_eq!(None, v.get(2));
    assert_eq!(Some(&6), v.get(1));
}

#[test]
fn get_yields_the_value_last_stored() {
    let mut v = MyVec::<u32>::new();
    v.push(1);
    v.push(2);
    v.push(3);
    if let Some(slot) = v.get_mut(1) {
        *slot = 20;
    }
    assert_eq!(Some(&20), v.get(1));
    v[1] = 21;
    assert_eq!(Some(&21), v.get(1));
    *v.get_mut(1).unwrap() += 1;
    assert_eq!(22, v[1]);
    assert_eq!(Some(&1), v.get(0));
    assert_eq!(Some(&3), v.get(2));
    assert_eq!(3, v.length());
    assert_eq!(4, v.cap());
}

#[test]
fn operator_and_get_agree_in_range() {
    let mut v = MyVec::<u32>::new();
    for x in 0..10u32 {
        v.push(x * x);
    }
    for i in 0..10usize {
        assert_eq!(v.get(i), Some(&v[i]));
        assert_eq!((i * i) as u32, v[i]);
    }
}

#[test]
fn reserved_capacity_is_kept_until_full() {
    let mut v = MyVec::<u32>::with_capacity(16);
    assert_eq!(16, v.cap());
    assert_eq!(0, v.length());
    assert_eq!(None, v.get(0));
    for x in 0..16u32 {
        v.push(x);
        assert_eq!(16, v.cap());
    }
    assert_eq!(16, v.length());
    v.push(16);
    assert_eq!(32, v.cap());
    assert_eq!(17, v.length());
    assert_eq!(Some(&16), v.get(16));
    assert_eq!(Some(&0), v.get(0));
}

#[test]
fn reserving_nothing_is_like_new() {
    let mut v = MyVec::<u32>::with_capacity(0);
    assert_eq!(0, v.cap());
    assert_eq!(0, v.length());
    v.push(9);
    assert_eq!(1, v.cap());
    assert_eq!(Some(9), v.pop());
    assert_eq!(1, v.cap());
}

#[test]
fn reserved_capacity_of_three_doubles_to_six() {
    let mut v = MyVec::<u16>::with_capacity(3);
    v.push(1);
    v.push(2);
    v.push(3);
    assert_eq!(3, v.cap());
    v.push(4);
    assert_eq!(6, v.cap());
}

#[test]
fn zero_sized_elements_never_take_slots() {
    let mut v = MyVec::<()>::new();
    for k in 1..=100usize {
        v.push(());
        assert_eq!(UNBOUNDED, v.cap());
        assert_eq!(k, v.length());
    }
    for k in (0..100usize).rev() {
        assert_eq!(Some(()), v.pop());
        assert_eq!(UNBOUNDED, v.cap());
        assert_eq!(k, v.length());
    }
    assert_eq!(None, v.pop());
    assert_eq!(Some(&()), {
        v.push(());
        v.get(0)
    });
    assert_eq!(None, v.get(1));
}

#[test]
fn zero_sized_elements_with_reserved_capacity() {
    let mut v = MyVec::<()>::with_capacity(4);
    assert_eq!(UNBOUNDED, v.cap());
    assert_eq!(0, v.length());
    for _ in 0..5 {
        v.push(());
    }
    assert_eq!(UNBOUNDED, v.cap());
    assert_eq!(5, v.length());
}

#[test]
fn every_element_is_finalized_once() {
    let drops = Rc::new(Cell::new(0usize));
    {
        let mut v = MyVec::<Counted>::new();
        for id in 0..10usize {
            v.push(Counted { id, drops: drops.clone() });
        }
        assert_eq!(16, v.cap());
        assert_eq!(0, drops.get());
        let last = v.pop().unwrap();
        assert_eq!(9, last.id);
        assert_eq!(0, drops.get());
        drop(last);
        assert_eq!(1, drops.get());
        let before = v.pop().unwrap();
        assert_eq!(8, before.id);
        drop(before);
        assert_eq!(2, drops.get());
        assert_eq!(8, v.length());
        assert_eq!(7, v[7].id);
    }
    assert_eq!(10, drops.get());
}

#[test]
fn an_emptied_array_finalizes_nothing_more() {
    let drops = Rc::new(Cell::new(0usize));
    {
        let mut v = MyVec::<Counted>::with_capacity(2);
        v.push(Counted { id: 0, drops: drops.clone() });
        v.push(Counted { id: 1, drops: drops.clone() });
        v.push(Counted { id: 2, drops: drops.clone() });
        assert_eq!(4, v.cap());
        while let Some(c) = v.pop() {
            drop(c);
        }
        assert_eq!(3, drops.get());
    }
    assert_eq!(3, drops.get());
}
