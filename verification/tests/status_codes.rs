//! The status-code discipline: one distinguished success value, nonzero
//! failure categories with the error bit, never renumbered.

use uefi_boot::status::ERROR_BIT;
use uefi_boot::status::STATUS_INVALID_PARAMETER;
use uefi_boot::status::STATUS_OUT_OF_RESOURCES;
use uefi_boot::status::STATUS_SUCCESS;
use uefi_boot::status::Status;

#[test]
fn zero_is_the_single_success_value() {
    assert_eq!(STATUS_SUCCESS, 0);
    assert!(Status(STATUS_SUCCESS).is_success());
    assert!(!Status(STATUS_SUCCESS).is_error());
    assert!(!Status(1).is_success());
    assert!(!Status(STATUS_OUT_OF_RESOURCES).is_success());
}

#[test]
fn error_codes_carry_the_error_bit() {
    assert_eq!(ERROR_BIT, 1 << 63);
    assert_eq!(STATUS_INVALID_PARAMETER, ERROR_BIT | 2);
    assert_eq!(STATUS_OUT_OF_RESOURCES, ERROR_BIT | 9);
    assert!(Status(STATUS_INVALID_PARAMETER).is_error());
    assert!(Status(STATUS_OUT_OF_RESOURCES).is_error());
    // a warning keeps the bit clear and is still not success
    assert!(!Status(3).is_error());
    assert!(!Status(3).is_success());
}
