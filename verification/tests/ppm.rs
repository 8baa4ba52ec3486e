use raytracer::color::Rgb;
use raytracer::decimal::decimal_string;
use raytracer::writer::Writer;

#[test]
fn decimal_endpoints() {
    assert_eq!(decimal_string(0).as_str(), "0");
    assert_eq!(decimal_string(9).as_str(), "9");
    assert_eq!(decimal_string(10).as_str(), "10");
    assert_eq!(decimal_string(255).as_str(), "255");
    assert_eq!(decimal_string(1280).as_str(), "1280");
    assert_eq!(decimal_string(4294967295).as_str(), "4294967295");
}

#[test]
fn pixel_text() {
    assert_eq!(Rgb::new(0, 0, 0).to_text().as_str(), "0 0 0");
    assert_eq!(Rgb::new(255, 255, 255).to_text().as_str(), "255 255 255");
    assert_eq!(Rgb::new(7, 42, 199).to_text().as_str(), "7 42 199");
}

#[test]
fn header_text() {
    assert_eq!(Writer::metadata(1280, 720).as_str(), "P3\n1280 720\n255\n");
    assert_eq!(Writer::metadata(2, 1).as_str(), "P3\n2 1\n255\n");
    assert_eq!(Writer::metadata(1, 1).as_str(), "P3\n1 1\n255\n");
}

#[test]
fn stream_empty() {
    let writer = Writer::new(3, 2);
    let contents = writer.contents();
    assert_eq!(contents.as_str(), "P3\n3 2\n255\n");
    assert_eq!(contents.lines().count(), 3);
}

#[test]
fn stream_two_pixels() {
    let mut writer = Writer::new(2, 1);
    writer.add(Rgb::new(128, 179, 255));
    writer.add(Rgb::new(0, 0, 0));
    let contents = writer.contents();
    assert_eq!(contents.as_str(), "P3\n2 1\n255\n128 179 255\n0 0 0\n");
    assert_eq!(contents.lines().count(), 5);
}

#[test]
fn stream_keeps_order() {
    let mut writer = Writer::new(1, 3);
    writer.add(Rgb::new(1, 2, 3));
    writer.add(Rgb::new(4, 5, 6));
    writer.add(Rgb::new(7, 8, 9));
    let contents = writer.contents();
    let lines: Vec<&str> = contents.lines().collect();
    assert_eq!(lines, vec!["P3", "1 3", "255", "1 2 3", "4 5 6", "7 8 9"]);
}
