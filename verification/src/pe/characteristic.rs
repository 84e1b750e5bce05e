use vstd::prelude::*;
use vstd::string::StringExecFns;

use crate::error::Error;
use crate::error::msg_of;

verus! {

pub const IMAGE_FILE_RELOCS_STRIPPED: u16 = 0x0001;

pub const IMAGE_FILE_EXECUTABLE_IMAGE: u16 = 0x0002;

pub const IMAGE_FILE_LINE_NUMS_STRIPPED: u16 = 0x0004;

pub const IMAGE_FILE_LOCAL_SYMS_STRIPPED: u16 = 0x0008;

pub const IMAGE_FILE_AGGRESSIVE_WS_TRIM: u16 = 0x0010;

pub const IMAGE_FILE_LARGE_ADDRESS_AWARE: u16 = 0x0020;

pub const RESERVED: u16 = 0x0040;

pub const IMAGE_FILE_BYTES_REVERSED_LO: u16 = 0x0080;

pub const IMAGE_FILE_32BIT_MACHINE: u16 = 0x0100;

pub const IMAGE_FILE_DEBUG_STRIPPED: u16 = 0x0200;

pub const IMAGE_FILE_REMOVABLE_RUN_FROM_SWAP: u16 = 0x0400;

pub const IMAGE_FILE_NET_RUN_FROM_SWAP: u16 = 0x0800;

pub const IMAGE_FILE_SYSTEM: u16 = 0x1000;

pub const IMAGE_FILE_DLL: u16 = 0x2000;

pub const IMAGE_FILE_UP_SYSTEM_ONLY: u16 = 0x4000;

pub const IMAGE_FILE_BYTES_REVERSED_HI: u16 = 0x8000;

/// Membership of one flag in a characteristics bitmask: every bit of the flag
/// is set in the mask.
pub open spec fn spec_has_flag(flag: u16, characteristics: u16) -> bool {
    characteristics & flag == flag
}

/// The descriptions of every rule the characteristics value violates in the
/// given context, in fixed rule order.
pub open spec fn violation_msgs(characteristics: u16, is_image: bool) -> Seq<Seq<char>> {
    (if is_image && !spec_has_flag(IMAGE_FILE_EXECUTABLE_IMAGE, characteristics) {
        seq!["If IMAGE_FILE_EXECUTABLE_IMAGE is not set, it indicates a linker error."@]
    } else {
        Seq::<Seq<char>>::empty()
    }) + (if !is_image && spec_has_flag(IMAGE_FILE_RELOCS_STRIPPED, characteristics) {
        seq!["IMAGE_FILE_RELOCS_STRIPPED is image only."@]
    } else {
        Seq::<Seq<char>>::empty()
    }) + (if !is_image && spec_has_flag(IMAGE_FILE_EXECUTABLE_IMAGE, characteristics) {
        seq!["IMAGE_FILE_EXECUTABLE_IMAGE is image only."@]
    } else {
        Seq::<Seq<char>>::empty()
    }) + (if spec_has_flag(IMAGE_FILE_LINE_NUMS_STRIPPED, characteristics) {
        seq!["IMAGE_FILE_LINE_NUMS_STRIPPED is deprecated and should be zero."@]
    } else {
        Seq::<Seq<char>>::empty()
    }) + (if spec_has_flag(IMAGE_FILE_LOCAL_SYMS_STRIPPED, characteristics) {
        seq!["IMAGE_FILE_LOCAL_SYMS_STRIPPED is deprecated and should be zero."@]
    } else {
        Seq::<Seq<char>>::empty()
    }) + (if spec_has_flag(IMAGE_FILE_AGGRESSIVE_WS_TRIM, characteristics) {
        seq!["IMAGE_FILE_AGGRESSIVE_WS_TRIM is deprecated and must be zero."@]
    } else {
        Seq::<Seq<char>>::empty()
    }) + (if spec_has_flag(IMAGE_FILE_BYTES_REVERSED_LO, characteristics) {
        seq!["IMAGE_FILE_BYTES_REVERSED_LO is deprecated and should be zero."@]
    } else {
        Seq::<Seq<char>>::empty()
    }) + (if spec_has_flag(IMAGE_FILE_BYTES_REVERSED_HI, characteristics) {
        seq!["IMAGE_FILE_BYTES_REVERSED_HI is deprecated and should be zero."@]
    } else {
        Seq::<Seq<char>>::empty()
    })
}

/// The violation descriptions joined into one diagnostic, newline-separated.
pub open spec fn join_lines(msgs: Seq<Seq<char>>) -> Seq<char>
    decreases msgs.len(),
{
    if msgs.len() == 0 {
        Seq::<char>::empty()
    } else if msgs.len() == 1 {
        msgs[0]
    } else {
        join_lines(msgs.drop_last()) + "\n"@ + msgs.last()
    }
}

/// Whether one flag is wholly contained in a characteristics value.
pub fn has_flag(characteristics: u16, flag: u16) -> (r: bool)
    ensures
        r == spec_has_flag(flag, characteristics),
{
    characteristics & flag == flag
}

/// Whether the DLL bit is set.
pub fn is_dll(characteristics: u16) -> (r: bool)
    ensures
        r == spec_has_flag(IMAGE_FILE_DLL, characteristics),
{
    has_flag(characteristics, IMAGE_FILE_DLL)
}

/// Whether the executable-image bit is set.
pub fn is_exe(characteristics: u16) -> (r: bool)
    ensures
        r == spec_has_flag(IMAGE_FILE_EXECUTABLE_IMAGE, characteristics),
{
    has_flag(characteristics, IMAGE_FILE_EXECUTABLE_IMAGE)
}

/// Validate the characteristics.
///
/// `is_image` being `true` indicates the characteristics is in a `PE`,
/// being `false` indicates the characteristics is in a `Coff`.
///
/// Every applicable rule is evaluated; if any is violated, the one error
/// returned carries every violation's description, newline-separated, in
/// fixed rule order.
#[verifier::rlimit(100)]
pub fn validate(characteristics: u16, is_image: bool) -> (r: Result<(), Error>)
    ensures
        r is Ok <==> violation_msgs(characteristics, is_image).len() == 0,
        r matches Err(e) ==> msg_of(e) == join_lines(violation_msgs(characteristics, is_image)),
{
    let mut error_messages: Vec<&'static str> = Vec::new();
    if is_image {
        if !has_flag(characteristics, IMAGE_FILE_EXECUTABLE_IMAGE) {
            error_messages.push(
                "If IMAGE_FILE_EXECUTABLE_IMAGE is not set, it indicates a linker error.",
            );
        }
    } else {
        if has_flag(characteristics, IMAGE_FILE_RELOCS_STRIPPED) {
            error_messages.push("IMAGE_FILE_RELOCS_STRIPPED is image only.");
        }
        if has_flag(characteristics, IMAGE_FILE_EXECUTABLE_IMAGE) {
            error_messages.push("IMAGE_FILE_EXECUTABLE_IMAGE is image only.");
        }
    }
    if has_flag(characteristics, IMAGE_FILE_LINE_NUMS_STRIPPED) {
        error_messages.push("IMAGE_FILE_LINE_NUMS_STRIPPED is deprecated and should be zero.");
    }
    if has_flag(characteristics, IMAGE_FILE_LOCAL_SYMS_STRIPPED) {
        error_messages.push("IMAGE_FILE_LOCAL_SYMS_STRIPPED is deprecated and should be zero.");
    }
    if has_flag(characteristics, IMAGE_FILE_AGGRESSIVE_WS_TRIM) {
        error_messages.push("IMAGE_FILE_AGGRESSIVE_WS_TRIM is deprecated and must be zero.");
    }
    if has_flag(characteristics, IMAGE_FILE_BYTES_REVERSED_LO) {
        error_messages.push("IMAGE_FILE_BYTES_REVERSED_LO is deprecated and should be zero.");
    }
    if has_flag(characteristics, IMAGE_FILE_BYTES_REVERSED_HI) {
        error_messages.push("IMAGE_FILE_BYTES_REVERSED_HI is deprecated and should be zero.");
    }
    proof {
        assert(error_messages@.map_values(|m: &'static str| m@) =~= violation_msgs(
            characteristics,
            is_image,
        ));
    }
    if error_messages.len() == 0 {
        Ok(())
    } else {
        let mut joined: String = error_messages[0].to_owned();
        let ghost gmsgs = error_messages@.map_values(|m: &'static str| m@);
        proof {
            assert(gmsgs.take(1) =~= seq![gmsgs[0]]);
        }
        let mut i: usize = 1;
        while i < error_messages.len()
            invariant
                1 <= i <= error_messages.len(),
                gmsgs == error_messages@.map_values(|m: &'static str| m@),
                joined@ == join_lines(gmsgs.take(i as int)),
            decreases error_messages.len() - i,
        {
            joined.append("\n");
            joined.append(error_messages[i]);
            proof {
                assert(gmsgs.take(i as int + 1).drop_last() =~= gmsgs.take(i as int));
                assert(gmsgs.take(i as int + 1).last() == gmsgs[i as int]);
            }
            i += 1;
        }
        proof {
            assert(gmsgs.take(gmsgs.len() as int) =~= gmsgs);
        }
        Err(Error::Malformed(joined))
    }
}

/// Whether the DLL bit is recognized depends only on that bit: any two
/// characteristics values agreeing on bit `0x2000` agree on `is_dll`, and the
/// test holds exactly when the bit is set.
pub proof fn lemma_is_dll_bit(c1: u16, c2: u16)
    requires
        c1 & IMAGE_FILE_DLL == c2 & IMAGE_FILE_DLL,
    ensures
        spec_has_flag(IMAGE_FILE_DLL, c1) == spec_has_flag(IMAGE_FILE_DLL, c2),
        spec_has_flag(IMAGE_FILE_DLL, c1) <==> c1 & IMAGE_FILE_DLL != 0,
{
    assert((c1 & 0x2000u16 == 0x2000u16) <==> (c1 & 0x2000u16 != 0u16)) by (bit_vector);
}

/// An object-file (non-image) characteristics value has a violation exactly
/// when the relocations-stripped or executable-image bit is set, or any of
/// the five deprecated bits is set.
pub proof fn lemma_validate_object(c: u16)
    ensures
        violation_msgs(c, false).len() > 0 <==> (c & IMAGE_FILE_RELOCS_STRIPPED != 0 || c
            & IMAGE_FILE_EXECUTABLE_IMAGE != 0 || c & IMAGE_FILE_LINE_NUMS_STRIPPED != 0 || c
            & IMAGE_FILE_LOCAL_SYMS_STRIPPED != 0 || c & IMAGE_FILE_AGGRESSIVE_WS_TRIM != 0 || c
            & IMAGE_FILE_BYTES_REVERSED_LO != 0 || c & IMAGE_FILE_BYTES_REVERSED_HI != 0),
{
    assert((c & 0x0001u16 == 0x0001u16) <==> (c & 0x0001u16 != 0u16)) by (bit_vector);
    assert((c & 0x0002u16 == 0x0002u16) <==> (c & 0x0002u16 != 0u16)) by (bit_vector);
    assert((c & 0x0004u16 == 0x0004u16) <==> (c & 0x0004u16 != 0u16)) by (bit_vector);
    assert((c & 0x0008u16 == 0x0008u16) <==> (c & 0x0008u16 != 0u16)) by (bit_vector);
    assert((c & 0x0010u16 == 0x0010u16) <==> (c & 0x0010u16 != 0u16)) by (bit_vector);
    assert((c & 0x0080u16 == 0x0080u16) <==> (c & 0x0080u16 != 0u16)) by (bit_vector);
    assert((c & 0x8000u16 == 0x8000u16) <==> (c & 0x8000u16 != 0u16)) by (bit_vector);
}

/// An image characteristics value whose deprecated bits are all clear has a
/// violation exactly when the executable-image bit is clear.  (With a
/// deprecated bit set, an image value fails validation even with the
/// executable-image bit set, so those inputs are left out.)
pub proof fn lemma_validate_image(c: u16)
    requires
        c & IMAGE_FILE_EXECUTABLE_IMAGE == IMAGE_FILE_EXECUTABLE_IMAGE ==> (c
            & IMAGE_FILE_LINE_NUMS_STRIPPED == 0 && c & IMAGE_FILE_LOCAL_SYMS_STRIPPED == 0 && c
            & IMAGE_FILE_AGGRESSIVE_WS_TRIM == 0 && c & IMAGE_FILE_BYTES_REVERSED_LO == 0 && c
            & IMAGE_FILE_BYTES_REVERSED_HI == 0),
    ensures
        violation_msgs(c, true).len() > 0 <==> c & IMAGE_FILE_EXECUTABLE_IMAGE == 0,
{
    assert((c & 0x0002u16 == 0x0002u16) <==> (c & 0x0002u16 != 0u16)) by (bit_vector);
    assert((c & 0x0004u16 == 0x0004u16) <==> (c & 0x0004u16 != 0u16)) by (bit_vector);
    assert((c & 0x0008u16 == 0x0008u16) <==> (c & 0x0008u16 != 0u16)) by (bit_vector);
    assert((c & 0x0010u16 == 0x0010u16) <==> (c & 0x0010u16 != 0u16)) by (bit_vector);
    assert((c & 0x0080u16 == 0x0080u16) <==> (c & 0x0080u16 != 0u16)) by (bit_vector);
    assert((c & 0x8000u16 == 0x8000u16) <==> (c & 0x8000u16 != 0u16)) by (bit_vector);
}

} // verus!
