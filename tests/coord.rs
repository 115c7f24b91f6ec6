use board_game::coord::Coord;

type Coord3 = Coord<3, 3>;
type Coord8 = Coord<8, 8>;

#[test]
fn coord3_from_xy_index() {
    assert_eq!(Coord3::from_xy(2, 2).index(), 8);
    assert_eq!(Coord3::from_xy(1, 0).index(), 1);
    assert_eq!(Coord3::from_xy(0, 1).index(), 3);
}

#[test]
fn coord3_from_index_xy() {
    let c = Coord3::from_index(4);
    assert_eq!(c.x(), 1);
    assert_eq!(c.y(), 1);
    let d = Coord3::from_index(5);
    assert_eq!((d.x(), d.y()), (2, 1));
}

#[test]
fn coord3_distances() {
    let a = Coord3::from_xy(0, 0);
    let b = Coord3::from_xy(2, 2);
    assert_eq!(a.manhattan_distance(b), 4);
    assert_eq!(a.diagonal_distance(b), 2);
    let c = Coord3::from_xy(2, 1);
    assert_eq!(a.manhattan_distance(c), 3);
    assert_eq!(c.diagonal_distance(a), 2);
    assert_eq!(c.manhattan_distance(c), 0);
}

#[test]
fn coord_all_row_major() {
    let all = Coord3::all();
    assert_eq!(all.len(), 9);
    for (i, c) in all.iter().enumerate() {
        assert_eq!(c.index() as usize, i);
    }
    assert_eq!((all[5].x(), all[5].y()), (2, 1));
    assert_eq!(Coord8::all().len(), 64);
    assert_eq!(Coord::<16, 16>::all().len(), 256);
}

#[test]
fn coord_cast_and_dense_index() {
    let c = Coord3::from_xy(2, 1);
    let d: Coord8 = c.cast();
    assert_eq!((d.x(), d.y()), (2, 1));
    assert_eq!(d.index(), 10);
    assert_eq!(c.dense_index(5), 7);
    assert_eq!(d.dense_index(8), 10);
}

#[test]
fn coord_valid_for_size() {
    let c = Coord8::from_xy(4, 2);
    assert!(c.valid_for_size(5));
    assert!(!c.valid_for_size(4));
    assert!(!Coord8::from_xy(1, 6).valid_for_size(6));
}
