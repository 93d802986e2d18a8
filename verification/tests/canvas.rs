use pathtracer::canvas::Canvas;

#[test]
fn a_new_canvas_is_black_and_knows_its_size() {
    let canvas = Canvas::new(3, 2);
    assert_eq!(canvas.width(), 3);
    assert_eq!(canvas.height(), 2);
    assert_eq!(canvas.data(), &vec![0u8; 18]);
}

#[test]
fn a_canvas_without_pixels_holds_nothing() {
    let canvas = Canvas::new(0, 7);
    assert_eq!(canvas.width(), 0);
    assert_eq!(canvas.height(), 7);
    assert!(canvas.data().is_empty());
}

#[test]
fn drawing_sets_the_three_channels_of_one_pixel() {
    let mut canvas = Canvas::new(3, 2);
    canvas.draw(1, 0, [10, 20, 30]);
    canvas.draw(2, 1, [40, 50, 60]);
    canvas.draw(0, 0, [1, 2, 3]);
    let expected: Vec<u8> = vec![1, 2, 3, 10, 20, 30, 0, 0, 0, 0, 0, 0, 0, 0, 0, 40, 50, 60];
    assert_eq!(canvas.data(), &expected);
    assert_eq!(canvas.width(), 3);
    assert_eq!(canvas.height(), 2);
}

#[test]
fn drawing_twice_keeps_the_later_colour() {
    let mut canvas = Canvas::new(2, 2);
    canvas.draw(1, 1, [9, 9, 9]);
    canvas.draw(1, 1, [7, 8, 9]);
    let expected: Vec<u8> = vec![0, 0, 0, 0, 0, 0, 0, 0, 0, 7, 8, 9];
    assert_eq!(canvas.data(), &expected);
}
