use ehce::numbers::range_model::{RangeError, RangeInclusiveModel};
use ehce::numbers::uint_range::{BadValueError, UIntInRange};
use ehce::numbers::validated::in_range::{
    is_numeric_type, AtLeast, AtLeastExclusive, ConstOpenExclusiveMinRange,
    ConstOpenInclusiveMinRange, ConstRangeInclusive, InConstRangeInclusive, InRange, RangeBound,
    SchemaBound, ValidateRange,
};
use ehce::numbers::validated::{Validated, ValueValidator};

type Percent = UIntInRange<u8, 0, 100>;

#[test]
fn uint_in_range_accepts_bounds() {
    assert_eq!(Percent::try_new(0).unwrap().get(), 0);
    assert_eq!(Percent::try_new(100).unwrap().get(), 100);
    assert_eq!(Percent::try_new(42).unwrap().get(), 42);
}

#[test]
fn uint_in_range_rejects_outside() {
    let err = UIntInRange::<u32, 5, 10>::try_new(11).unwrap_err();
    assert_eq!(err, BadValueError(11, 5, 10));
    assert_eq!(err.message(), "Value must be between 5 and 10, but got: 11");
    let err = UIntInRange::<u32, 5, 10>::try_new(4).unwrap_err();
    assert_eq!(err, BadValueError(4, 5, 10));
}

#[test]
fn uint_in_range_min_max() {
    assert_eq!(UIntInRange::<u16, 3, 9>::min().get(), 3);
    assert_eq!(UIntInRange::<u16, 3, 9>::max().get(), 9);
}

#[test]
fn uint_in_range_schema_bounds() {
    assert_eq!(UIntInRange::<u8, 1, 7>::schema_bounds(Some("integer")), Some((1, 7)));
    assert_eq!(UIntInRange::<u8, 1, 7>::schema_bounds(Some("number")), Some((1, 7)));
    assert_eq!(UIntInRange::<u8, 1, 7>::schema_bounds(Some("string")), None);
    assert_eq!(UIntInRange::<u8, 1, 7>::schema_bounds(None), None);
}

#[test]
fn range_ascending_walk() {
    let r = RangeInclusiveModel::<i32>::try_new(0, 10, 2).unwrap();
    assert_eq!(*r.from(), 0);
    assert_eq!(*r.to(), 10);
    assert_eq!(*r.step(), 2);
    assert_eq!(r.len(), 5);
    assert_eq!(r.iter(), vec![0, 2, 4, 6, 8, 10]);
    assert!(r.contains(&4));
    assert!(!r.contains(&5));
    assert!(!r.contains(&12));
    assert!(!r.contains(&-2));
}

#[test]
fn range_descending_walk() {
    let r = RangeInclusiveModel::<i64>::try_new(9, -3, 3).unwrap();
    assert_eq!(r.len(), 4);
    assert_eq!(r.iter(), vec![9, 6, 3, 0, -3]);
    assert!(r.contains(&0));
    assert!(!r.contains(&1));
}

#[test]
fn range_single_value() {
    let r = RangeInclusiveModel::<u8>::single(7);
    assert_eq!(r.len(), 0);
    assert_eq!(r.iter(), vec![7]);
    assert!(r.contains(&7));
    assert!(!r.contains(&8));
}

#[test]
fn range_every_walked_element_is_contained() {
    let r = RangeInclusiveModel::<i16>::try_new(-20, 25, 5).unwrap();
    let elements = r.iter();
    assert_eq!(elements.len(), 10);
    for e in &elements {
        assert!(r.contains(e));
    }
    for e in -30i16..30 {
        assert_eq!(r.contains(&e), elements.contains(&e));
    }
}

#[test]
fn range_rejects_bad_step() {
    match RangeInclusiveModel::<i32>::try_new(0, 10, 0) {
        Err(RangeError::StepNotPositive) => {}
        other => panic!("unexpected {:?}", other),
    }
    match RangeInclusiveModel::<i32>::try_new(0, 10, -2) {
        Err(e) => assert_eq!(e.message(), "Step must be greater than zero"),
        Ok(_) => panic!("negative step accepted"),
    }
    match RangeInclusiveModel::<i32>::try_new(10, 0, 3) {
        Err(RangeError::StepDoesNotDivide { step, min, max }) => {
            assert_eq!((step, min, max), (3, 0, 10));
        }
        other => panic!("unexpected {:?}", other),
    }
    let e = RangeInclusiveModel::<i32>::try_new(10, 0, 3).unwrap_err();
    assert_eq!(e.message(), "Range step 3 does not evenly divide the range from 0 to 10");
}

type Small = InConstRangeInclusive<1, 10>;

#[test]
fn in_range_inclusive_messages() {
    assert!(<Small as ValueValidator<i32>>::validate(&1).is_ok());
    assert!(<Small as ValueValidator<i32>>::validate(&10).is_ok());
    assert_eq!(
        <Small as ValueValidator<i32>>::validate(&0).unwrap_err(),
        "Value must be at least 1, but got: 0"
    );
    assert_eq!(
        <Small as ValueValidator<i32>>::validate(&11).unwrap_err(),
        "Value must be at most 10, but got: 11"
    );
}

#[test]
fn in_range_negative_bound_from_bits() {
    // -5 as the two's-complement bit pattern of an i64
    const MINUS_FIVE: u64 = (-5i64) as u64;
    type FromMinusFive = InConstRangeInclusive<MINUS_FIVE, 5>;
    assert!(<FromMinusFive as ValueValidator<i8>>::validate(&-5).is_ok());
    assert_eq!(
        <FromMinusFive as ValueValidator<i8>>::validate(&-6).unwrap_err(),
        "Value must be at least -5, but got: -6"
    );
    assert_eq!(ConstRangeInclusive::<MINUS_FIVE, 5>::format_range(), "[-5, 5]");
}

#[test]
fn in_range_open_bounds() {
    assert!(<AtLeast<3> as ValueValidator<u32>>::validate(&3).is_ok());
    assert_eq!(
        <AtLeast<3> as ValueValidator<u32>>::validate(&2).unwrap_err(),
        "Value must be at least 3, but got: 2"
    );
    assert_eq!(
        <AtLeastExclusive<3> as ValueValidator<u32>>::validate(&3).unwrap_err(),
        "Value must be greater than 3, but got: 3"
    );
    assert!(<AtLeastExclusive<3> as ValueValidator<u32>>::validate(&4).is_ok());
}

#[test]
fn range_formats() {
    assert_eq!(ConstRangeInclusive::<0, 10>::format_range(), "[0, 10]");
    assert_eq!(ConstOpenInclusiveMinRange::<2>::format_range(), "[2, ∞)");
    assert_eq!(ConstOpenExclusiveMinRange::<0>::format_range(), "(0, ∞)");
    assert_eq!(
        ConstRangeInclusive::<0, 10>::get_range(),
        (RangeBound::Included(0), RangeBound::Included(10))
    );
    assert_eq!(<Small as ValueValidator<u8>>::debug(), "InRange<[1, 10]>");
    assert_eq!(<Small as ValueValidator<u8>>::schema_name(), "InRange[1, 10]");
}

#[test]
fn in_range_schema_bounds() {
    assert_eq!(
        InRange::<ConstRangeInclusive<1, 10>>::schema_bounds(Some("number")),
        vec![SchemaBound::Minimum(1), SchemaBound::Maximum(10)]
    );
    assert_eq!(
        InRange::<ConstOpenExclusiveMinRange<0>>::schema_bounds(Some("integer")),
        vec![SchemaBound::ExclusiveMinimum(0)]
    );
    assert_eq!(InRange::<ConstRangeInclusive<1, 10>>::schema_bounds(Some("object")), vec![]);
    assert_eq!(InRange::<ConstRangeInclusive<1, 10>>::schema_bounds(None), vec![]);
    assert!(is_numeric_type("number"));
    assert!(!is_numeric_type("Number"));
}

#[test]
fn validated_wraps_passing_values() {
    let v = Validated::<i32, (Small,)>::new(5).unwrap();
    assert_eq!(*v.value(), 5);
    let err = Validated::<i32, (Small,)>::new(50).err().unwrap();
    assert_eq!(err, "Value must be at most 10, but got: 50");
    let any = Validated::<i32, ()>::new(-1000).unwrap();
    assert_eq!(*any.value(), -1000);
}

#[test]
fn validated_tuple_reports_first_failure() {
    type Both = (AtLeast<2>, InConstRangeInclusive<0, 5>);
    assert_eq!(
        Validated::<u16, Both>::new(1).err().unwrap(),
        "Value must be at least 2, but got: 1"
    );
    assert_eq!(
        Validated::<u16, Both>::new(6).err().unwrap(),
        "Value must be at most 5, but got: 6"
    );
    assert_eq!(*Validated::<u16, Both>::new(3).unwrap().value(), 3);
    assert_eq!(<Both as ValueValidator<u16>>::debug(), "(InRange<[2, ∞)>, InRange<[0, 5]>)");
}

#[test]
fn validated_copies_and_derefs() {
    let v = Validated::<i32, (Small,)>::new(7).unwrap();
    let w = v;
    let c = v.clone();
    assert_eq!(*w, 7);
    assert_eq!(*c.value(), 7);
}

#[test]
fn huge_bounds_print_as_their_float() {
    assert_eq!(ConstRangeInclusive::<0, 9007199254740993>::format_range(), "[0, 9007199254740992]");
    assert_eq!(ConstOpenInclusiveMinRange::<{ i64::MAX as u64 }>::format_range(), "[9223372036854776000, ∞)");
    assert_eq!(ehce::numbers::validated::in_range::f64_value(123), 123);
    let samples: [i64; 12] = [
        0,
        -7,
        9007199254740993,
        9007199254740995,
        -9007199254740993,
        i64::MAX,
        i64::MIN,
        1234567890123456789,
        -987654321987654321,
        18014398509481985,
        4611686018427387904,
        9007199254740992 * 3 + 1,
    ];
    for n in samples {
        let shown = ehce::numbers::validated::in_range::f64_value(n);
        assert_eq!(shown.to_string(), format!("{}", n as f64), "for {}", n);
    }
}

#[test]
fn bounds_print_as_their_float_across_magnitudes() {
    let mut state: u64 = 0x9e37_79b9_7f4a_7c15;
    for i in 0..20000u32 {
        state = state.wrapping_mul(6364136223846793005).wrapping_add(1442695040888963407);
        let n = (state as i64) >> (i % 12);
        let shown = ehce::numbers::validated::in_range::f64_value(n);
        assert_eq!(shown.to_string(), format!("{}", n as f64), "for {}", n);
    }
}

#[test]
fn decimal_of_extremes() {
    let mut s = String::new();
    ehce::numbers::text::push_decimal(&mut s, i128::MIN);
    assert_eq!(s, i128::MIN.to_string());
    let mut t = String::from("x");
    ehce::numbers::text::push_decimal(&mut t, i128::MAX);
    assert_eq!(t, format!("x{}", i128::MAX));
}
