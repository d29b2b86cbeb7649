use opengl_graphics::error::Error;

#[test]
fn an_io_error_is_kept_as_it_is() {
    let inner = std::io::Error::new(std::io::ErrorKind::NotFound, "no such font");
    let Error::IoError(kept) = Error::from(inner);
    assert_eq!(kept.kind(), std::io::ErrorKind::NotFound);
    assert_eq!(kept.to_string(), "no such font");
}
