use gfx_runtime::gl::Error;

#[test]
fn error_codes_are_decoded() {
    assert_eq!(Error::from_error_code(0), Error::NoError);
    assert_eq!(Error::from_error_code(0x0500), Error::InvalidEnum);
    assert_eq!(Error::from_error_code(0x0501), Error::InvalidValue);
    assert_eq!(Error::from_error_code(0x0502), Error::InvalidOperation);
    assert_eq!(Error::from_error_code(0x0506), Error::InvalidFramebufferOperation);
    assert_eq!(Error::from_error_code(0x0505), Error::OutOfMemory);
    assert_eq!(Error::from_error_code(0x1234), Error::UnknownError);
}
