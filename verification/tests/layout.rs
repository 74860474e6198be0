use ddlm::buffer::Buffer;
use ddlm::layout::{
    centered_offset, password_field, password_label_offset, title_offset, username_field,
    username_label_offset, welcome_offset,
};

#[test]
fn box_is_centered() {
    assert_eq!(centered_offset((1920, 1080), (1024, 128)), (448, 476));
    assert_eq!(centered_offset((1025, 129), (1024, 128)), (0, 0));
    assert_eq!(centered_offset((1024, 128), (1024, 128)), (0, 0));
}

#[test]
fn fields_sit_right_of_the_labels() {
    assert_eq!(username_field((1920, 1080), (1024, 128)), (864, 500, 576, 32));
    assert_eq!(password_field((1920, 1080), (1024, 128)), (864, 540, 576, 32));
}

#[test]
fn welcome_line_position() {
    assert_eq!(welcome_offset((1920, 1080)), (660, 32));
}

#[test]
fn fields_are_accepted_by_the_screen_buffer() {
    let screen = (1280, 720);
    let mut bytes = vec![0u8; 4 * 1280 * 720];
    let mut b = Buffer::new(&mut bytes[..], screen);
    assert!(b.subdimensions(username_field(screen, (1024, 128))).is_ok());
    assert!(b.subdimensions(password_field(screen, (1024, 128))).is_ok());
    let (x, y) = centered_offset(screen, (1024, 128));
    assert!(b.subdimensions((x, y, 1024, 128)).is_ok());
    assert!(b.offset(welcome_offset(screen)).is_ok());
}

#[test]
fn fields_of_a_short_box() {
    assert_eq!(username_field((1920, 1080), (1024, 40)), (864, 544, 576, 32));
    assert_eq!(password_field((1920, 1080), (1024, 40)), (864, 584, 576, 32));
}

#[test]
fn labels_stand_left_of_fields() {
    assert_eq!(title_offset(), (32, 24));
    assert_eq!(username_label_offset(), (256, 24));
    assert_eq!(password_label_offset(), (256, 64));
}

#[test]
fn box_filling_the_screen_is_accepted() {
    let mut bytes = vec![0u8; 4 * 1024 * 128];
    let mut b = Buffer::new(&mut bytes[..], (1024, 128));
    let (x, y) = centered_offset((1024, 128), (1024, 128));
    assert!(b.subdimensions((x, y, 1024, 128)).is_ok());
    assert!(b.subdimensions(password_field((1024, 128), (1024, 128))).is_ok());
}
