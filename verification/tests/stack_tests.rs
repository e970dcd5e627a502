use smsflib::classic::ClassicStack;
use smsflib::dynamic_sized::DynamicSizedStack;
use smsflib::error::StackError;
use smsflib::stack_traits::BasicStackOperations;
use smsflib::stack_traits::InPlaceFnApplication;

#[test]
fn classic_new_and_getters() {
    let stack = ClassicStack::<i64>::new(1, 2, 3, 4);
    assert_eq!(*stack.x(), 1);
    assert_eq!(*stack.y(), 2);
    assert_eq!(*stack.z(), 3);
    assert_eq!(*stack.t(), 4);
}

#[test]
fn classic_new_zero() {
    let stack = ClassicStack::<i64>::new_zero();
    assert_eq!(*stack.x(), 0);
    assert_eq!(*stack.y(), 0);
    assert_eq!(*stack.z(), 0);
    assert_eq!(*stack.t(), 0);
}

#[test]
fn classic_rotate_up_once() {
    let mut stack = ClassicStack::<i64>::new(1, 2, 3, 4);
    let res = stack.rotate_up();
    assert_eq!(res, Ok(()));
    assert_eq!(*stack.x(), 4);
    assert_eq!(*stack.y(), 1);
    assert_eq!(*stack.z(), 2);
    assert_eq!(*stack.t(), 3);
}

#[test]
fn classic_rotate_up_four_times_restores() {
    let mut stack = ClassicStack::<i64>::new(1, 2, 3, 4);
    for _ in 0..4 {
        let res = stack.rotate_up();
        assert_eq!(res, Ok(()));
    }
    assert_eq!(*stack.x(), 1);
    assert_eq!(*stack.y(), 2);
    assert_eq!(*stack.z(), 3);
    assert_eq!(*stack.t(), 4);
}

#[test]
fn classic_rotate_down_once() {
    let mut stack = ClassicStack::<i64>::new(1, 2, 3, 4);
    let res = stack.rotate_down();
    assert_eq!(res, Ok(()));
    assert_eq!(*stack.x(), 2);
    assert_eq!(*stack.y(), 3);
    assert_eq!(*stack.z(), 4);
    assert_eq!(*stack.t(), 1);
}

#[test]
fn classic_rotate_down_four_times_restores() {
    let mut stack = ClassicStack::<i64>::new(1, 2, 3, 4);
    for _ in 0..4 {
        let res = stack.rotate_down();
        assert_eq!(res, Ok(()));
    }
    assert_eq!(*stack.x(), 1);
    assert_eq!(*stack.y(), 2);
    assert_eq!(*stack.z(), 3);
    assert_eq!(*stack.t(), 4);
}

#[test]
fn classic_swap_once() {
    let mut stack = ClassicStack::<i64>::new(1, 2, 3, 4);
    let res = stack.swap();
    assert_eq!(res, Ok(()));
    assert_eq!(*stack.x(), 2);
    assert_eq!(*stack.y(), 1);
    assert_eq!(*stack.z(), 3);
    assert_eq!(*stack.t(), 4);
}

#[test]
fn classic_swap_twice_restores() {
    let mut stack = ClassicStack::<i64>::new(1, 2, 3, 4);
    for _ in 0..2 {
        let res = stack.swap();
        assert_eq!(res, Ok(()));
    }
    assert_eq!(*stack.x(), 1);
    assert_eq!(*stack.y(), 2);
    assert_eq!(*stack.z(), 3);
    assert_eq!(*stack.t(), 4);
}

#[test]
fn classic_drop_duplicates_t() {
    let mut stack = ClassicStack::<i64>::new(1, 2, 3, 4);
    let res = stack.drop();
    assert_eq!(res, Ok(()));
    assert_eq!(*stack.x(), 2);
    assert_eq!(*stack.y(), 3);
    assert_eq!(*stack.z(), 4);
    assert_eq!(*stack.t(), 4);
}

#[test]
fn classic_pop_returns_x() {
    let mut stack = ClassicStack::<i64>::new(1, 2, 3, 4);
    let res = stack.pop();
    assert_eq!(res, Ok(1));
    assert_eq!(*stack.x(), 2);
    assert_eq!(*stack.y(), 3);
    assert_eq!(*stack.z(), 4);
    assert_eq!(*stack.t(), 4);
}

#[test]
fn classic_push_discards_t() {
    let mut stack = ClassicStack::<i64>::new(1, 2, 3, 4);
    let res = stack.push(10);
    assert_eq!(res, Ok(()));
    assert_eq!(*stack.x(), 10);
    assert_eq!(*stack.y(), 1);
    assert_eq!(*stack.z(), 2);
    assert_eq!(*stack.t(), 3);
}

#[test]
fn classic_push_then_pop_returns_value() {
    let mut stack = ClassicStack::<i64>::new(1, 2, 3, 4);
    let res = stack.push(10);
    assert_eq!(res, Ok(()));
    let popped = stack.pop();
    assert_eq!(popped, Ok(10));
    // X, Y and Z are restored; T now holds the old Z value, because the
    // push discarded the old T and the pop duplicated what was below it.
    assert_eq!(*stack.x(), 1);
    assert_eq!(*stack.y(), 2);
    assert_eq!(*stack.z(), 3);
    assert_eq!(*stack.t(), 3);
}

#[test]
fn classic_clear_zeroes_registers() {
    let mut stack = ClassicStack::<i64>::new(1, 2, 3, 4);
    let res = stack.clear();
    assert_eq!(res, Ok(()));
    assert_eq!(*stack.x(), 0);
    assert_eq!(*stack.y(), 0);
    assert_eq!(*stack.z(), 0);
    assert_eq!(*stack.t(), 0);
}

#[test]
fn classic_unary_fn_in_place() {
    let mut stack = ClassicStack::<i64>::new(1, 2, 3, 4);
    let res = stack.unary_fn_in_place(|x: i64| x + 10);
    assert_eq!(res, Ok(()));
    assert_eq!(*stack.x(), 11);
    assert_eq!(*stack.y(), 2);
    assert_eq!(*stack.z(), 3);
    assert_eq!(*stack.t(), 4);
}

#[test]
fn classic_binary_fn_first_arg() {
    let mut stack = ClassicStack::<i64>::new(100, 10, 3, 4);
    let res = stack.binary_fn_in_place_first_arg(|x: i64, y: i64| x - y);
    assert_eq!(res, Ok(()));
    assert_eq!(*stack.x(), 90);
    assert_eq!(*stack.y(), 3);
    assert_eq!(*stack.z(), 4);
    assert_eq!(*stack.t(), 4);
}

#[test]
fn classic_binary_fn_second_arg() {
    let mut stack = ClassicStack::<i64>::new(10, 100, 3, 4);
    let res = stack.binary_fn_in_place_second_arg(|x: i64, y: i64| y - x);
    assert_eq!(res, Ok(()));
    assert_eq!(*stack.x(), 90);
    assert_eq!(*stack.y(), 3);
    assert_eq!(*stack.z(), 4);
    assert_eq!(*stack.t(), 4);
}

#[test]
fn dynamic_new_is_empty() {
    let stack = DynamicSizedStack::<i64>::new();
    assert_eq!(stack.len(), 0);
    assert_eq!(stack.is_empty(), true);
    assert_eq!(stack.get(0), None);
    assert_eq!(stack.get(1), None);
}

#[test]
fn dynamic_default_is_empty() {
    let stack = DynamicSizedStack::<i64>::default();
    assert_eq!(stack.len(), 0);
    assert_eq!(stack.is_empty(), true);
}

#[test]
fn dynamic_clone_from_slice_order() {
    let stack = DynamicSizedStack::<i64>::clone_from_slice(&[1, 2, 3]);
    assert_eq!(stack.len(), 3);
    assert_eq!(stack.get(0), Some(&3));
    assert_eq!(stack.get(1), Some(&2));
    assert_eq!(stack.get(2), Some(&1));
}

#[test]
fn dynamic_push_then_pop_returns_value() {
    let mut stack = DynamicSizedStack::<i64>::new();
    assert_eq!(stack.push(1), Ok(()));
    assert_eq!(stack.push(2), Ok(()));
    assert_eq!(stack.is_empty(), false);
    assert_eq!(stack.len(), 2);
    assert_eq!(stack.get(0), Some(&2));
    assert_eq!(stack.get(1), Some(&1));
    let popped = stack.pop();
    assert_eq!(popped, Ok(2));
    assert_eq!(stack.len(), 1);
    assert_eq!(stack.get(0), Some(&1));
}

#[test]
fn dynamic_pop_shifts_down() {
    let mut stack = DynamicSizedStack::<i64>::clone_from_slice(&[4, 3, 2, 1]);
    let res = stack.pop();
    assert_eq!(res, Ok(1));
    assert_eq!(stack.len(), 3);
    assert_eq!(stack.get(0), Some(&2));
    assert_eq!(stack.get(1), Some(&3));
    assert_eq!(stack.get(2), Some(&4));
}

#[test]
fn dynamic_pop_empty_fails() {
    let mut stack = DynamicSizedStack::<i64>::new();
    let res = stack.pop();
    assert_eq!(
        res,
        Err(StackError::NotEnoughOperands { num_required: 1, num_available: 0 })
    );
    assert_eq!(stack.is_empty(), true);
}

#[test]
fn dynamic_drop_discards_top() {
    let mut stack = DynamicSizedStack::<i64>::clone_from_slice(&[3, 2, 1]);
    let res = stack.drop();
    assert_eq!(res, Ok(()));
    assert_eq!(stack.len(), 2);
    assert_eq!(stack.get(0), Some(&2));
    assert_eq!(stack.get(1), Some(&3));
}

#[test]
fn dynamic_drop_empty_fails() {
    let mut stack = DynamicSizedStack::<i64>::new();
    let res = stack.drop();
    assert_eq!(
        res,
        Err(StackError::NotEnoughOperands { num_required: 1, num_available: 0 })
    );
    assert_eq!(stack.is_empty(), true);
}

#[test]
fn dynamic_rotate_up_moves_bottom_to_top() {
    let mut stack = DynamicSizedStack::<i64>::clone_from_slice(&[6, 5, 4, 3, 2, 1]);
    let res = stack.rotate_up();
    assert_eq!(res, Ok(()));
    assert_eq!(stack.len(), 6);
    assert_eq!(stack.get(0), Some(&6));
    assert_eq!(stack.get(1), Some(&1));
    assert_eq!(stack.get(2), Some(&2));
    assert_eq!(stack.get(3), Some(&3));
    assert_eq!(stack.get(4), Some(&4));
    assert_eq!(stack.get(5), Some(&5));
}

#[test]
fn dynamic_rotate_down_moves_top_to_bottom() {
    let mut stack = DynamicSizedStack::<i64>::clone_from_slice(&[6, 5, 4, 3, 2, 1]);
    let res = stack.rotate_down();
    assert_eq!(res, Ok(()));
    assert_eq!(stack.len(), 6);
    assert_eq!(stack.get(0), Some(&2));
    assert_eq!(stack.get(1), Some(&3));
    assert_eq!(stack.get(2), Some(&4));
    assert_eq!(stack.get(3), Some(&5));
    assert_eq!(stack.get(4), Some(&6));
    assert_eq!(stack.get(5), Some(&1));
}

#[test]
fn dynamic_rotate_up_len_times_restores() {
    let mut stack = DynamicSizedStack::<i64>::clone_from_slice(&[6, 5, 4, 3, 2, 1]);
    for _ in 0..6 {
        let res = stack.rotate_up();
        assert_eq!(res, Ok(()));
    }
    for idx in 0..6 {
        assert_eq!(stack.get(idx), Some(&(idx as i64 + 1)));
    }
}

#[test]
fn dynamic_rotate_down_len_times_restores() {
    let mut stack = DynamicSizedStack::<i64>::clone_from_slice(&[6, 5, 4, 3, 2, 1]);
    for _ in 0..6 {
        let res = stack.rotate_down();
        assert_eq!(res, Ok(()));
    }
    for idx in 0..6 {
        assert_eq!(stack.get(idx), Some(&(idx as i64 + 1)));
    }
}

#[test]
fn dynamic_rotate_noop_on_empty_and_single() {
    let mut empty = DynamicSizedStack::<i64>::new();
    assert_eq!(empty.rotate_up(), Ok(()));
    assert_eq!(empty.is_empty(), true);
    assert_eq!(empty.rotate_down(), Ok(()));
    assert_eq!(empty.is_empty(), true);

    let mut single = DynamicSizedStack::<i64>::clone_from_slice(&[1]);
    assert_eq!(single.rotate_up(), Ok(()));
    assert_eq!(single.len(), 1);
    assert_eq!(single.get(0), Some(&1));
    assert_eq!(single.rotate_down(), Ok(()));
    assert_eq!(single.len(), 1);
    assert_eq!(single.get(0), Some(&1));
}

#[test]
fn dynamic_swap_exchanges_top_two() {
    let mut stack = DynamicSizedStack::<i64>::clone_from_slice(&[4, 3, 2, 1]);
    let res = stack.swap();
    assert_eq!(res, Ok(()));
    assert_eq!(stack.len(), 4);
    assert_eq!(stack.get(0), Some(&2));
    assert_eq!(stack.get(1), Some(&1));
    assert_eq!(stack.get(2), Some(&3));
    assert_eq!(stack.get(3), Some(&4));
}

#[test]
fn dynamic_swap_twice_restores() {
    let mut stack = DynamicSizedStack::<i64>::clone_from_slice(&[4, 3, 2, 1]);
    for _ in 0..2 {
        assert_eq!(stack.swap(), Ok(()));
    }
    assert_eq!(stack.get(0), Some(&1));
    assert_eq!(stack.get(1), Some(&2));
    assert_eq!(stack.get(2), Some(&3));
    assert_eq!(stack.get(3), Some(&4));
}

#[test]
fn dynamic_swap_underflow_fails() {
    let mut stack = DynamicSizedStack::<i64>::clone_from_slice(&[1]);
    let res = stack.swap();
    assert_eq!(
        res,
        Err(StackError::NotEnoughOperands { num_required: 2, num_available: 1 })
    );
    assert_eq!(stack.len(), 1);
    assert_eq!(stack.get(0), Some(&1));

    let mut empty = DynamicSizedStack::<i64>::new();
    assert_eq!(
        empty.swap(),
        Err(StackError::NotEnoughOperands { num_required: 2, num_available: 0 })
    );
    assert_eq!(empty.is_empty(), true);
}

#[test]
fn dynamic_clear_empties() {
    let mut stack = DynamicSizedStack::<i64>::clone_from_slice(&[1, 1, 1]);
    let res = stack.clear();
    assert_eq!(res, Ok(()));
    assert_eq!(stack.is_empty(), true);
}

#[test]
fn dynamic_unary_fn_in_place() {
    let mut stack = DynamicSizedStack::<i64>::clone_from_slice(&[3, 2, 1]);
    let res = stack.unary_fn_in_place(|x: i64| x + 10);
    assert_eq!(res, Ok(()));
    assert_eq!(stack.len(), 3);
    assert_eq!(stack.get(0), Some(&11));
    assert_eq!(stack.get(1), Some(&2));
    assert_eq!(stack.get(2), Some(&3));
}

#[test]
fn dynamic_unary_fn_empty_fails() {
    let mut stack = DynamicSizedStack::<i64>::new();
    let res = stack.unary_fn_in_place(|x: i64| x + 10);
    assert_eq!(
        res,
        Err(StackError::NotEnoughOperands { num_required: 1, num_available: 0 })
    );
    assert_eq!(stack.is_empty(), true);
}

#[test]
fn dynamic_binary_fn_first_arg() {
    let mut stack = DynamicSizedStack::<i64>::clone_from_slice(&[3, 2, 10]);
    let res = stack.binary_fn_in_place_first_arg(|x: i64, y: i64| x * y);
    assert_eq!(res, Ok(()));
    assert_eq!(stack.len(), 2);
    assert_eq!(stack.get(0), Some(&20));
    assert_eq!(stack.get(1), Some(&3));
}

#[test]
fn dynamic_binary_fn_first_arg_underflow() {
    let mut stack = DynamicSizedStack::<i64>::clone_from_slice(&[10]);
    let res = stack.binary_fn_in_place_first_arg(|x: i64, y: i64| x * y);
    assert_eq!(
        res,
        Err(StackError::NotEnoughOperands { num_required: 2, num_available: 1 })
    );
    assert_eq!(stack.len(), 1);
    assert_eq!(stack.get(0), Some(&10));
}

#[test]
fn dynamic_binary_fn_second_arg() {
    let mut stack = DynamicSizedStack::<i64>::clone_from_slice(&[3, 20, 10]);
    let res = stack.binary_fn_in_place_second_arg(|x: i64, y: i64| y / x);
    assert_eq!(res, Ok(()));
    assert_eq!(stack.len(), 2);
    assert_eq!(stack.get(0), Some(&2));
    assert_eq!(stack.get(1), Some(&3));
}

#[test]
fn dynamic_binary_fn_second_arg_underflow() {
    let mut stack = DynamicSizedStack::<i64>::clone_from_slice(&[10]);
    let res = stack.binary_fn_in_place_second_arg(|x: i64, y: i64| y / x);
    assert_eq!(
        res,
        Err(StackError::NotEnoughOperands { num_required: 2, num_available: 1 })
    );
    assert_eq!(stack.len(), 1);
    assert_eq!(stack.get(0), Some(&10));
}
