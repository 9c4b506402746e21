use seven_zip::status::{SZ_ERROR_FAIL, SZ_ERROR_MEM};

#[test]
fn status_codes_are_those_of_the_sdk() {
    assert_eq!(SZ_ERROR_MEM, lzma_sdk_sys::SZ_ERROR_MEM as i32);
    assert_eq!(SZ_ERROR_FAIL, lzma_sdk_sys::SZ_ERROR_FAIL as i32);
    assert_ne!(SZ_ERROR_MEM, lzma_sdk_sys::SZ_OK as i32);
    assert_ne!(SZ_ERROR_FAIL, lzma_sdk_sys::SZ_OK as i32);
}
