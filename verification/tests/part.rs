use persevere::limits::MiB;
use persevere::part::{ByteRange, Part};
use persevere::plan::Plan;
use persevere::report::range_header;

#[test]
fn parts_start_where_the_part_before_ends() {
    let plan = Plan { object_size: 12 * MiB, part_size: 5 * MiB, part_count: 3 };
    assert_eq!(plan.part(1), Part { number: 1, offset: 0, length: 5 * MiB });
    assert_eq!(plan.part(2), Part { number: 2, offset: 5 * MiB, length: 5 * MiB });
    assert_eq!(plan.part(3), Part { number: 3, offset: 10 * MiB, length: 2 * MiB });
}

#[test]
fn parts_tile_the_object() {
    let plan = Plan { object_size: 1003, part_size: 10, part_count: 101 };
    let mut next_offset = 0;
    for number in 1..=plan.part_count {
        let part = plan.part(number);
        assert_eq!(part.number, number);
        assert_eq!(part.offset, next_offset);
        assert!(part.length >= 1);
        assert!(part.length <= plan.part_size);
        next_offset = part.offset + part.length;
    }
    assert_eq!(next_offset, plan.object_size);
}

#[test]
fn last_part_of_a_multiple_is_a_full_part() {
    let plan = Plan { object_size: 40, part_size: 10, part_count: 4 };
    assert_eq!(plan.part(4), Part { number: 4, offset: 30, length: 10 });
    assert_eq!(plan.part(3).length, plan.part(4).length);
}

#[test]
fn last_part_of_a_non_multiple_is_strictly_shorter() {
    let plan = Plan { object_size: 41, part_size: 10, part_count: 5 };
    assert_eq!(plan.part(5), Part { number: 5, offset: 40, length: 1 });
    let plan = Plan { object_size: 49, part_size: 10, part_count: 5 };
    assert_eq!(plan.part(5), Part { number: 5, offset: 40, length: 9 });
    assert!(plan.part(5).length < plan.part(4).length);
}

#[test]
fn single_part_holds_the_whole_object() {
    let plan = Plan { object_size: 7, part_size: 10, part_count: 1 };
    assert_eq!(plan.part(1), Part { number: 1, offset: 0, length: 7 });
    let plan = Plan { object_size: u64::MAX, part_size: u64::MAX, part_count: 1 };
    assert_eq!(plan.part(1), Part { number: 1, offset: 0, length: u64::MAX });
}

#[test]
fn bytes_through_adds_up_the_parts() {
    let plan = Plan { object_size: 41, part_size: 10, part_count: 5 };
    assert_eq!(plan.bytes_through(0), 0);
    assert_eq!(plan.bytes_through(1), 10);
    assert_eq!(plan.bytes_through(4), 40);
    assert_eq!(plan.bytes_through(5), 41);
    let plan = Plan { object_size: 40, part_size: 10, part_count: 4 };
    assert_eq!(plan.bytes_through(4), 40);
}

#[test]
fn byte_range_of_a_full_part_ends_at_its_last_byte() {
    let plan = Plan { object_size: 12 * MiB, part_size: 5 * MiB, part_count: 3 };
    assert_eq!(plan.byte_range(1), ByteRange { first: 0, last: 5 * MiB - 1 });
    assert_eq!(plan.byte_range(2), ByteRange { first: 5 * MiB, last: 10 * MiB - 1 });
}

#[test]
fn byte_range_of_a_short_last_part_is_cut_at_the_object_end() {
    let plan = Plan { object_size: 12 * MiB, part_size: 5 * MiB, part_count: 3 };
    assert_eq!(plan.byte_range(3), ByteRange { first: 10 * MiB, last: 12 * MiB - 1 });
    let plan = Plan { object_size: 41, part_size: 10, part_count: 5 };
    assert_eq!(plan.byte_range(5), ByteRange { first: 40, last: 40 });
}

#[test]
fn byte_range_at_the_exact_multiple_is_not_cut() {
    // The object is an exact multiple of the part size: the bound of the
    // last part is the object's last byte without being cut back.
    let plan = Plan { object_size: 40, part_size: 10, part_count: 4 };
    assert_eq!(plan.byte_range(4), ByteRange { first: 30, last: 39 });
    let plan = Plan { object_size: 10 * MiB, part_size: 5 * MiB, part_count: 2 };
    assert_eq!(plan.byte_range(2), ByteRange { first: 5 * MiB, last: 10 * MiB - 1 });
}

#[test]
fn byte_range_one_byte_short_of_a_full_part_keeps_its_bound() {
    // The last part is one byte short of a full part: the bound equals the
    // object's size and is left as it is.
    let plan = Plan { object_size: 39, part_size: 10, part_count: 4 };
    assert_eq!(plan.part(4), Part { number: 4, offset: 30, length: 9 });
    assert_eq!(plan.byte_range(4), ByteRange { first: 30, last: 39 });
    // Two bytes short: the bound is cut back to the last byte.
    let plan = Plan { object_size: 38, part_size: 10, part_count: 4 };
    assert_eq!(plan.byte_range(4), ByteRange { first: 30, last: 37 });
}

#[test]
fn byte_range_does_not_overflow_with_huge_parts() {
    let plan = Plan { object_size: 10, part_size: u64::MAX, part_count: 1 };
    assert_eq!(plan.byte_range(1), ByteRange { first: 0, last: 9 });
    let plan = Plan { object_size: u64::MAX, part_size: u64::MAX - 1, part_count: 2 };
    assert_eq!(plan.part(2), Part { number: 2, offset: u64::MAX - 1, length: 1 });
    assert_eq!(plan.byte_range(2), ByteRange { first: u64::MAX - 1, last: u64::MAX - 1 });
}

#[test]
fn range_header_names_both_bounds_in_decimal() {
    assert_eq!(range_header(&ByteRange { first: 0, last: 5_242_879 }), "bytes=0-5242879");
    assert_eq!(
        range_header(&ByteRange { first: 104_857_600, last: 209_715_199 }),
        "bytes=104857600-209715199"
    );
    assert_eq!(
        range_header(&ByteRange { first: u64::MAX, last: u64::MAX }),
        "bytes=18446744073709551615-18446744073709551615"
    );
}
