use polyline_simplify::{from_internal, to_internal, Coord, LineString, Pos};

#[test]
fn to_internal_copies_each_pair_verbatim() {
    let sequence = vec![
        Pos { x: 1.5, y: -2.25 },
        Pos { x: 3.0, y: 4.0 },
        Pos { x: -7.125, y: 0.0 },
    ];
    let path = to_internal(&sequence);
    assert_eq!(
        path,
        LineString(vec![
            Coord { x: 1.5, y: -2.25 },
            Coord { x: 3.0, y: 4.0 },
            Coord { x: -7.125, y: 0.0 },
        ])
    );
}

#[test]
fn to_internal_does_not_swap_axes() {
    let path = to_internal(&vec![Pos { x: 10.0, y: 20.0 }]);
    assert_eq!(path.0.len(), 1);
    assert_eq!(path.0[0].x, 10.0);
    assert_eq!(path.0[0].y, 20.0);
}

#[test]
fn to_internal_accepts_an_empty_sequence() {
    let sequence: Vec<Pos<f64>> = Vec::new();
    let path = to_internal(&sequence);
    assert!(path.0.is_empty());
}

#[test]
fn to_internal_accepts_a_single_point() {
    let path = to_internal(&vec![Pos { x: 0.5, y: 0.25 }]);
    assert_eq!(path, LineString(vec![Coord { x: 0.5, y: 0.25 }]));
}

#[test]
fn to_internal_leaves_its_input_alone() {
    let sequence = vec![Pos { x: 1.0, y: 2.0 }, Pos { x: 3.0, y: 4.0 }];
    let _ = to_internal(&sequence);
    assert_eq!(sequence, vec![Pos { x: 1.0, y: 2.0 }, Pos { x: 3.0, y: 4.0 }]);
}

#[test]
fn from_internal_keeps_path_order() {
    let path = LineString::new(vec![
        Coord { x: 3.0, y: 30.0 },
        Coord { x: 1.0, y: 10.0 },
        Coord { x: 2.0, y: 20.0 },
    ]);
    let sequence = from_internal(&path);
    assert_eq!(
        sequence,
        vec![
            Pos { x: 3.0, y: 30.0 },
            Pos { x: 1.0, y: 10.0 },
            Pos { x: 2.0, y: 20.0 },
        ]
    );
}

#[test]
fn from_internal_accepts_an_empty_path() {
    let path: LineString<f64> = LineString::new(Vec::new());
    assert!(from_internal(&path).is_empty());
}

#[test]
fn line_string_new_wraps_the_coordinates_untouched() {
    let coords = vec![Coord { x: 1.0, y: 2.0 }, Coord { x: 1.0, y: 2.0 }];
    let path = LineString::new(coords);
    assert_eq!(path.0, vec![Coord { x: 1.0, y: 2.0 }, Coord { x: 1.0, y: 2.0 }]);
}

#[test]
fn round_trip_of_no_points() {
    let sequence: Vec<Pos<f64>> = Vec::new();
    assert_eq!(from_internal(&to_internal(&sequence)), sequence);
}

#[test]
fn round_trip_of_one_point() {
    let sequence: Vec<Pos<f64>> = vec![Pos { x: -0.0, y: 1e300 }];
    let back = from_internal(&to_internal(&sequence));
    assert_eq!(back.len(), 1);
    assert_eq!(back[0].x.to_bits(), (-0.0f64).to_bits());
    assert_eq!(back[0].y.to_bits(), 1e300f64.to_bits());
}

#[test]
fn round_trip_of_many_points() {
    let mut sequence: Vec<Pos<f64>> = Vec::new();
    let mut i = 0;
    while i < 1000 {
        sequence.push(Pos { x: i as f64 * 0.1, y: 1000.0 - i as f64 });
        i += 1;
    }
    assert_eq!(from_internal(&to_internal(&sequence)), sequence);
}

#[test]
fn round_trip_from_the_inside() {
    let path = LineString::new(vec![Coord { x: 4.0, y: 5.0 }, Coord { x: 6.0, y: 7.0 }]);
    let again = to_internal(&from_internal(&path));
    assert_eq!(again, path);
}

#[test]
fn non_finite_coordinates_pass_through_unchanged() {
    let odd_nan = f64::from_bits(0x7ff8_0000_0000_beef);
    let sequence = vec![
        Pos { x: odd_nan, y: f64::INFINITY },
        Pos { x: f64::NEG_INFINITY, y: f64::NAN },
    ];
    let path = to_internal(&sequence);
    assert_eq!(path.0[0].x.to_bits(), 0x7ff8_0000_0000_beef);
    assert_eq!(path.0[0].y, f64::INFINITY);
    assert_eq!(path.0[1].x, f64::NEG_INFINITY);
    assert!(path.0[1].y.is_nan());
    let back = from_internal(&path);
    assert_eq!(back.len(), 2);
    assert_eq!(back[0].x.to_bits(), 0x7ff8_0000_0000_beef);
    assert_eq!(back[0].y, f64::INFINITY);
    assert_eq!(back[1].x, f64::NEG_INFINITY);
    assert_eq!(back[1].y.to_bits(), f64::NAN.to_bits());
}

#[test]
fn conversions_do_not_depend_on_the_coordinate_type() {
    let sequence: Vec<Pos<i32>> = vec![Pos { x: 1, y: -1 }, Pos { x: i32::MAX, y: i32::MIN }];
    let path = to_internal(&sequence);
    assert_eq!(
        path,
        LineString(vec![Coord { x: 1, y: -1 }, Coord { x: i32::MAX, y: i32::MIN }])
    );
    assert_eq!(from_internal(&path), sequence);
}

#[test]
fn points_are_copied_by_value() {
    let p = Pos { x: 1.0, y: 2.0 };
    let q = p;
    let r = p.clone();
    assert_eq!(p, q);
    assert_eq!(p, r);
    let c = Coord { x: 1.0, y: 2.0 };
    let d = c;
    assert_eq!(c, d.clone());
}
