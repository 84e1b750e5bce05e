use pe_headers::error::Error;
use pe_headers::pe::characteristic::has_flag;
use pe_headers::pe::characteristic::is_dll;
use pe_headers::pe::characteristic::is_exe;
use pe_headers::pe::characteristic::validate;
use pe_headers::pe::characteristic::IMAGE_FILE_32BIT_MACHINE;
use pe_headers::pe::characteristic::IMAGE_FILE_AGGRESSIVE_WS_TRIM;
use pe_headers::pe::characteristic::IMAGE_FILE_BYTES_REVERSED_HI;
use pe_headers::pe::characteristic::IMAGE_FILE_BYTES_REVERSED_LO;
use pe_headers::pe::characteristic::IMAGE_FILE_DEBUG_STRIPPED;
use pe_headers::pe::characteristic::IMAGE_FILE_DLL;
use pe_headers::pe::characteristic::IMAGE_FILE_EXECUTABLE_IMAGE;
use pe_headers::pe::characteristic::IMAGE_FILE_LARGE_ADDRESS_AWARE;
use pe_headers::pe::characteristic::IMAGE_FILE_LINE_NUMS_STRIPPED;
use pe_headers::pe::characteristic::IMAGE_FILE_LOCAL_SYMS_STRIPPED;
use pe_headers::pe::characteristic::IMAGE_FILE_NET_RUN_FROM_SWAP;
use pe_headers::pe::characteristic::IMAGE_FILE_RELOCS_STRIPPED;
use pe_headers::pe::characteristic::IMAGE_FILE_REMOVABLE_RUN_FROM_SWAP;
use pe_headers::pe::characteristic::IMAGE_FILE_SYSTEM;
use pe_headers::pe::characteristic::IMAGE_FILE_UP_SYSTEM_ONLY;
use pe_headers::pe::characteristic::RESERVED;

const ALL_FLAGS: [u16; 16] = [
    IMAGE_FILE_RELOCS_STRIPPED,
    IMAGE_FILE_EXECUTABLE_IMAGE,
    IMAGE_FILE_LINE_NUMS_STRIPPED,
    IMAGE_FILE_LOCAL_SYMS_STRIPPED,
    IMAGE_FILE_AGGRESSIVE_WS_TRIM,
    IMAGE_FILE_LARGE_ADDRESS_AWARE,
    RESERVED,
    IMAGE_FILE_BYTES_REVERSED_LO,
    IMAGE_FILE_32BIT_MACHINE,
    IMAGE_FILE_DEBUG_STRIPPED,
    IMAGE_FILE_REMOVABLE_RUN_FROM_SWAP,
    IMAGE_FILE_NET_RUN_FROM_SWAP,
    IMAGE_FILE_SYSTEM,
    IMAGE_FILE_DLL,
    IMAGE_FILE_UP_SYSTEM_ONLY,
    IMAGE_FILE_BYTES_REVERSED_HI,
];

fn message_of(e: Error) -> String {
    let Error::Malformed(m) = e;
    m
}

#[test]
fn is_dll_depends_on_one_bit_only() {
    assert!(is_dll(0x2000));
    assert!(is_dll(0xffff));
    assert!(is_dll(0x2000 | 0x0102));
    assert!(!is_dll(0x0000));
    // Every bit set except the DLL bit.
    assert!(!is_dll(0xdfff));
}

#[test]
fn is_exe_depends_on_one_bit_only() {
    assert!(is_exe(0x0002));
    assert!(is_exe(0xffff));
    assert!(!is_exe(0x0000));
    assert!(!is_exe(0xfffd));
}

#[test]
fn has_flag_on_every_defined_constant() {
    for flag in ALL_FLAGS {
        assert!(has_flag(0xffff, flag));
        assert!(!has_flag(0x0000, flag));
        assert!(has_flag(flag, flag));
    }
}

#[test]
fn has_flag_requires_every_bit_of_the_flag() {
    // A multi-bit flag is contained only when both bits are.
    assert!(has_flag(0x2003, 0x2001));
    assert!(!has_flag(0x2002, 0x2001));
    // The empty flag is contained in anything.
    assert!(has_flag(0x0000, 0x0000));
    assert!(has_flag(0xffff, 0x0000));
}

#[test]
fn validate_image_accepts_executable() {
    assert!(validate(IMAGE_FILE_EXECUTABLE_IMAGE, true).is_ok());
    assert!(validate(IMAGE_FILE_EXECUTABLE_IMAGE | IMAGE_FILE_DLL, true).is_ok());
}

#[test]
fn validate_image_reports_linker_error() {
    let e = validate(0x0000, true).unwrap_err();
    assert_eq!(
        message_of(e),
        "If IMAGE_FILE_EXECUTABLE_IMAGE is not set, it indicates a linker error."
    );
}

#[test]
fn validate_image_rejects_deprecated_bits() {
    let e = validate(IMAGE_FILE_EXECUTABLE_IMAGE | IMAGE_FILE_LINE_NUMS_STRIPPED, true)
        .unwrap_err();
    assert_eq!(
        message_of(e),
        "IMAGE_FILE_LINE_NUMS_STRIPPED is deprecated and should be zero."
    );
}

#[test]
fn validate_object_accepts_unchecked_bits() {
    assert!(validate(0x0000, false).is_ok());
    assert!(validate(
        IMAGE_FILE_LARGE_ADDRESS_AWARE | IMAGE_FILE_32BIT_MACHINE | IMAGE_FILE_DLL,
        false
    )
    .is_ok());
}

#[test]
fn validate_object_collects_two_violations() {
    // Bits 0x0001 and 0x0004: exactly two violation lines, in rule order.
    let e = validate(0x0005, false).unwrap_err();
    let msg = message_of(e);
    assert_eq!(msg.lines().count(), 2);
    assert_eq!(
        msg,
        "IMAGE_FILE_RELOCS_STRIPPED is image only.\n\
         IMAGE_FILE_LINE_NUMS_STRIPPED is deprecated and should be zero."
    );
}

#[test]
fn validate_object_collects_every_violation_in_order() {
    let e = validate(0xffff, false).unwrap_err();
    let msg = message_of(e);
    assert_eq!(msg.lines().count(), 7);
    assert_eq!(
        msg,
        "IMAGE_FILE_RELOCS_STRIPPED is image only.\n\
         IMAGE_FILE_EXECUTABLE_IMAGE is image only.\n\
         IMAGE_FILE_LINE_NUMS_STRIPPED is deprecated and should be zero.\n\
         IMAGE_FILE_LOCAL_SYMS_STRIPPED is deprecated and should be zero.\n\
         IMAGE_FILE_AGGRESSIVE_WS_TRIM is deprecated and must be zero.\n\
         IMAGE_FILE_BYTES_REVERSED_LO is deprecated and should be zero.\n\
         IMAGE_FILE_BYTES_REVERSED_HI is deprecated and should be zero."
    );
}

#[test]
fn validate_object_rejects_executable_bit() {
    let e = validate(IMAGE_FILE_EXECUTABLE_IMAGE, false).unwrap_err();
    assert_eq!(message_of(e), "IMAGE_FILE_EXECUTABLE_IMAGE is image only.");
}

#[test]
fn validate_object_rejects_relocs_stripped() {
    let e = validate(IMAGE_FILE_RELOCS_STRIPPED, false).unwrap_err();
    assert_eq!(message_of(e), "IMAGE_FILE_RELOCS_STRIPPED is image only.");
}
