use gridsim::utils::numerics::{AbsDiff, Clamp};

#[test]
fn abs_diff_of_unsigned_values() {
    assert_eq!(<u8 as AbsDiff<u8, u8>>::abs_diff(&3, 250), 247);
    assert_eq!(<u8 as AbsDiff<u8, u8>>::abs_diff(&250, 3), 247);
    assert_eq!(<u8 as AbsDiff<u8, u8>>::abs_diff(&0, 255), 255);
    assert_eq!(<u32 as AbsDiff<u32, u32>>::abs_diff(&7, 7), 0);
    assert_eq!(<u32 as AbsDiff<u32, u32>>::abs_diff(&0, u32::MAX), u32::MAX);
    assert_eq!(<u64 as AbsDiff<u64, u64>>::abs_diff(&u64::MAX, 1), u64::MAX - 1);
    assert_eq!(<u128 as AbsDiff<u128, u128>>::abs_diff(&1, u128::MAX), u128::MAX - 1);
    assert_eq!(<usize as AbsDiff<usize, usize>>::abs_diff(&499, 0), 499);
    assert_eq!(<usize as AbsDiff<usize, usize>>::abs_diff(&0, 499), 499);
}

#[test]
fn abs_diff_of_signed_values() {
    assert_eq!(<i8 as AbsDiff<i8, i8>>::abs_diff(&-3, 100), 103);
    assert_eq!(<i8 as AbsDiff<i8, i8>>::abs_diff(&100, -3), 103);
    assert_eq!(<i8 as AbsDiff<i8, i8>>::abs_diff(&-128, -1), 127);
    assert_eq!(<i8 as AbsDiff<i8, i8>>::abs_diff(&127, 0), 127);
    assert_eq!(<i32 as AbsDiff<i32, i32>>::abs_diff(&-5, -5), 0);
    assert_eq!(<i32 as AbsDiff<i32, i32>>::abs_diff(&i32::MIN, -1), i32::MAX);
    assert_eq!(<i64 as AbsDiff<i64, i64>>::abs_diff(&-10, 10), 20);
    assert_eq!(<i128 as AbsDiff<i128, i128>>::abs_diff(&10, -10), 20);
}

#[test]
fn abs_diff_with_a_borrowed_operand() {
    assert_eq!(<u8 as AbsDiff<&u8, u8>>::abs_diff(&3, &250), 247);
    assert_eq!(<i8 as AbsDiff<&i8, i8>>::abs_diff(&-3, &100), 103);
    assert_eq!(<u32 as AbsDiff<&u32, u32>>::abs_diff(&9, &4), 5);
    assert_eq!(<i32 as AbsDiff<&i32, i32>>::abs_diff(&4, &9), 5);
    assert_eq!(<u64 as AbsDiff<&u64, u64>>::abs_diff(&0, &u64::MAX), u64::MAX);
    assert_eq!(<i64 as AbsDiff<&i64, i64>>::abs_diff(&-1, &(i64::MAX - 1)), i64::MAX);
    assert_eq!(<u128 as AbsDiff<&u128, u128>>::abs_diff(&5, &5), 0);
    assert_eq!(<i128 as AbsDiff<&i128, i128>>::abs_diff(&-7, &-9), 2);
    assert_eq!(<usize as AbsDiff<&usize, usize>>::abs_diff(&494, &499), 5);
}

#[test]
fn clamp_holds_a_value_in_its_range() {
    assert_eq!(<i32 as Clamp<i32, i32, i32>>::clamp(&-1, 0, 499), 0);
    assert_eq!(<i32 as Clamp<i32, i32, i32>>::clamp(&0, 0, 499), 0);
    assert_eq!(<i32 as Clamp<i32, i32, i32>>::clamp(&250, 0, 499), 250);
    assert_eq!(<i32 as Clamp<i32, i32, i32>>::clamp(&499, 0, 499), 499);
    assert_eq!(<i32 as Clamp<i32, i32, i32>>::clamp(&500, 0, 499), 499);
    assert_eq!(<i32 as Clamp<i32, i32, i32>>::clamp(&i32::MIN, -5, 5), -5);
    assert_eq!(<i32 as Clamp<i32, i32, i32>>::clamp(&i32::MAX, -5, 5), 5);
}

#[test]
fn clamp_of_each_integer_type() {
    assert_eq!(<u8 as Clamp<u8, u8, u8>>::clamp(&200, 10, 20), 20);
    assert_eq!(<i8 as Clamp<i8, i8, i8>>::clamp(&-100, -10, 20), -10);
    assert_eq!(<u32 as Clamp<u32, u32, u32>>::clamp(&15, 10, 20), 15);
    assert_eq!(<u64 as Clamp<u64, u64, u64>>::clamp(&u64::MAX, 0, 7), 7);
    assert_eq!(<i64 as Clamp<i64, i64, i64>>::clamp(&i64::MIN, -7, 7), -7);
    assert_eq!(<u128 as Clamp<u128, u128, u128>>::clamp(&0, 3, 9), 3);
    assert_eq!(<i128 as Clamp<i128, i128, i128>>::clamp(&-1, 0, 429), 0);
    assert_eq!(<i128 as Clamp<i128, i128, i128>>::clamp(&430, 0, 429), 429);
    assert_eq!(<usize as Clamp<usize, usize, usize>>::clamp(&600, 0, 499), 499);
}

#[test]
fn clamp_with_borrowed_bounds() {
    assert_eq!(<i32 as Clamp<i32, &i32, &i32>>::clamp(&17, &0, &10), 10);
    assert_eq!(<i32 as Clamp<i32, &i32, &i32>>::clamp(&-17, &0, &10), 0);
    assert_eq!(<i32 as Clamp<i32, &i32, &i32>>::clamp(&7, &0, &10), 7);
    assert_eq!(<u8 as Clamp<u8, &u8, &u8>>::clamp(&255, &1, &2), 2);
    assert_eq!(<i8 as Clamp<i8, &i8, &i8>>::clamp(&-128, &1, &2), 1);
    assert_eq!(<u32 as Clamp<u32, &u32, &u32>>::clamp(&5, &5, &5), 5);
    assert_eq!(<u64 as Clamp<u64, &u64, &u64>>::clamp(&9, &0, &8), 8);
    assert_eq!(<i64 as Clamp<i64, &i64, &i64>>::clamp(&-9, &-8, &8), -8);
    assert_eq!(<u128 as Clamp<u128, &u128, &u128>>::clamp(&4, &0, &8), 4);
    assert_eq!(<i128 as Clamp<i128, &i128, &i128>>::clamp(&40, &0, &8), 8);
    assert_eq!(<usize as Clamp<usize, &usize, &usize>>::clamp(&3, &4, &8), 4);
}

#[test]
fn clamp_tests_the_lower_bound_first() {
    assert_eq!(<i32 as Clamp<i32, i32, i32>>::clamp(&5, 10, 0), 10);
    assert_eq!(<i32 as Clamp<i32, i32, i32>>::clamp(&20, 10, 0), 0);
    assert_eq!(<i32 as Clamp<i32, i32, i32>>::clamp(&10, 10, 0), 0);
}
