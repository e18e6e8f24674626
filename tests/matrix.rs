use led_tictactoe::matrix::{pixel_position, xy, Rgb, MATRIX_LENGTH};

#[test]
fn test_xy_function() {
    let arr: Vec<usize> = (0..256).collect();
    assert!(arr[xy(0, 0)] == arr[0]);
    assert!(arr[xy(0, 1)] == arr[1]);
    assert!(arr[xy(0, 15)] == arr[15]);
    assert!(arr[xy(1, 15)] == arr[16]);
    assert!(arr[xy(1, 0)] == arr[31]);
}

#[test]
fn game_rendering_test_xy_function() {
    let arr: Vec<usize> = (0..256).collect();
    assert!(arr[xy(0, 0)] == arr[0]);
    assert!(arr[xy(0, 1)] == arr[1]);
    assert!(arr[xy(0, 15)] == arr[15]);
    assert!(arr[xy(1, 15)] == arr[16]);
    assert!(arr[xy(1, 0)] == arr[31]);
}

#[test]
fn serpentine_mapping_is_a_bijection() {
    let mut seen = vec![false; MATRIX_LENGTH];
    for x in 0..16 {
        for y in 0..16 {
            let i = xy(x, y);
            assert!(i < MATRIX_LENGTH);
            assert!(!seen[i]);
            seen[i] = true;
            assert_eq!(pixel_position(i), (x, y));
        }
    }
    assert!(seen.iter().all(|s| *s));
}

#[test]
fn serpentine_odd_columns_run_up() {
    assert_eq!(xy(2, 0), 32);
    assert_eq!(xy(3, 0), 63);
    assert_eq!(xy(15, 15), 240);
    assert_eq!(xy(15, 0), 255);
    assert_eq!(pixel_position(47), (2, 15));
    assert_eq!(pixel_position(48), (3, 15));
}

#[test]
fn colour_arithmetic() {
    let a = Rgb::new(250, 10, 0);
    assert_eq!(a.saturating_add(Rgb::new(10, 5, 0)), Rgb::new(255, 15, 0));
    assert_eq!(Rgb::new(0, 100, 255).scale(10), Rgb::new(0, 3, 10));
    assert_eq!(Rgb::new(5, 0, 5).scale(255), Rgb::new(5, 0, 5));
    assert_eq!(Rgb::new(5, 0, 5).scale(0), Rgb::black());
    assert_eq!(Rgb::new(10, 0, 0).blend(Rgb::new(0, 100, 0), 255), Rgb::new(10, 0, 0));
    assert_eq!(Rgb::new(10, 0, 0).blend(Rgb::new(0, 100, 0), 0), Rgb::new(0, 100, 0));
    assert_eq!(Rgb::new(10, 0, 0).blend(Rgb::new(0, 100, 0), 51), Rgb::new(2, 80, 0));
}
