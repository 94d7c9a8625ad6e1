use sub_array::SubArray;

#[test]
fn appending_through_a_window_changes_the_source() {
    let mut arr: [String; 3] = [String::from("baz"), String::from("qux"), String::from("foo")];
    let sub: &mut [String; 1] = arr.sub_array_mut(2);
    sub[0].push_str("bar");
    assert_eq!(
        arr,
        [String::from("baz"), String::from("qux"), String::from("foobar")]
    );
}

#[test]
fn filling_an_array_window_by_window() {
    let foo: u16 = 42;
    let bar: u32 = 0x1234;
    let baz: u32 = 0x5678;

    let mut arr = [0_u8; 10];
    *arr.sub_array_mut::<2>(0) = foo.to_be_bytes();
    *arr.sub_array_mut::<4>(2) = bar.to_be_bytes();
    *arr.sub_array_mut::<4>(6) = baz.to_be_bytes();

    assert_eq!(arr, [0, 42, 0x0, 0x0, 0x12, 0x34, 0x0, 0x0, 0x56, 0x78]);
}

#[test]
fn writing_one_element_leaves_the_others() {
    let mut arr = [1, 2, 3, 4, 5_u8];
    let sub: &mut [u8; 3] = arr.sub_array_mut(1);
    sub[1] = 30;
    assert_eq!(arr, [1, 2, 30, 4, 5]);
    assert_eq!(arr.sub_array_ref::<3>(1), &[2, 30, 4]);
}

#[test]
fn writing_through_a_slice_window() {
    let mut data = vec![1, 2, 3, 4, 5, 6_i64];
    let slice: &mut [i64] = &mut data;
    let sub: &mut [i64; 2] = slice.sub_array_mut(4);
    *sub = [-5, -6];
    assert_eq!(data, vec![1, 2, 3, 4, -5, -6]);
}

#[test]
fn untouched_mutable_window_leaves_the_source() {
    let mut arr = [7, 8, 9_u8];
    let sub: &mut [u8; 2] = arr.sub_array_mut(1);
    assert_eq!(sub, &mut [8, 9]);
    assert_eq!(arr, [7, 8, 9]);
}

#[derive(Debug, PartialEq, Eq)]
struct Token(u32);

#[test]
fn swapping_elements_that_cannot_be_cloned() {
    let mut arr = [Token(1), Token(2), Token(3), Token(4)];
    let sub: &mut [Token; 2] = arr.sub_array_mut(2);
    sub.swap(0, 1);
    assert_eq!(arr, [Token(1), Token(2), Token(4), Token(3)]);
}

fn second_pair<A: SubArray>(source: &A) -> &[A::Item; 2] {
    source.sub_array_ref(2)
}

fn second_pair_mut<A: SubArray>(source: &mut A) -> &mut [A::Item; 2] {
    source.sub_array_mut(2)
}

#[test]
fn reading_through_a_mutable_reference() {
    let mut arr = [1, 2, 3, 4, 5_u8];
    let handle: &mut [u8; 5] = &mut arr;
    assert_eq!(second_pair::<&mut [u8; 5]>(&handle), &[3, 4]);
}

#[test]
fn writing_through_a_mutable_reference() {
    let mut arr = [1, 2, 3, 4, 5_u8];
    let mut handle: &mut [u8; 5] = &mut arr;
    let sub = second_pair_mut::<&mut [u8; 5]>(&mut handle);
    assert_eq!(sub, &mut [3, 4]);
    sub[0] = 33;
    assert_eq!(arr, [1, 2, 33, 4, 5]);
}

#[test]
fn writing_through_two_levels_of_reference() {
    let mut arr = [1, 2, 3, 4_u16];
    let mut inner: &mut [u16; 4] = &mut arr;
    let mut outer: &mut &mut [u16; 4] = &mut inner;
    let sub = second_pair_mut::<&mut &mut [u16; 4]>(&mut outer);
    *sub = [30, 40];
    assert_eq!(arr, [1, 2, 30, 40]);
}
