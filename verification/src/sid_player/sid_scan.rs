//! Which directory entries are SID tunes, and how fixed-width name fields
//! read as text.
use vstd::prelude::*;
use vstd::string::StringSliceAdditionalSpecFns;
use crate::outside::utf8_str;
use crate::mbsid::usb_patch::{ends_with_ext, has_extension};

verus! {

/// Most `.SID` files listed from the root directory.
pub const MAX_SIDS: usize = 64;

/// The extension ".SID".
pub open spec fn sid_ext() -> Seq<u8> {
    seq![0x2Eu8, 0x53u8, 0x49u8, 0x44u8]
}

/// Whether a file name ends in `.SID`, in any letter case.
pub fn is_sid_name(name_bytes: &[u8]) -> (r: bool)
    ensures
        r == has_extension(name_bytes@, sid_ext()),
{
    ends_with_ext(name_bytes, 0x2E, 0x53, 0x49, 0x44)
}

/// The length of the text in a NUL-terminated field: up to the first NUL,
/// or the whole field when there is none.
pub open spec fn nul_len(s: Seq<u8>) -> int {
    if exists|i: int| 0 <= i < s.len() && s[i] == 0 {
        choose|i: int| 0 <= i < s.len() && s[i] == 0 && forall|j: int| 0 <= j < i ==> s[j] != 0
    } else {
        s.len() as int
    }
}

/// The text of a NUL-terminated fixed-width field (a PSID name, author or
/// release string): the bytes before the first NUL, or `?` when they are not
/// valid UTF-8.
pub fn trim_ascii(s: &[u8]) -> (t: &str)
    ensures
        vstd::utf8::valid_utf8(s@.take(nul_len(s@))) ==> t.spec_bytes() == s@.take(nul_len(s@)),
        !vstd::utf8::valid_utf8(s@.take(nul_len(s@))) ==> t@ == "?"@,
{
    let mut end: usize = 0;
    while end < s.len() && s[end] != 0
        invariant
            end <= s@.len(),
            forall|j: int| 0 <= j < end ==> s@[j] != 0,
        decreases s@.len() - end,
    {
        end = end + 1;
    }
    proof {
        if end < s@.len() {
            assert(0 <= end < s@.len() && s@[end as int] == 0);
            let i = choose|i: int| 0 <= i < s@.len() && s@[i] == 0 && forall|j: int| 0 <= j < i ==> s@[j] != 0;
            assert(i == end) by {
                if i < end {
                    assert(s@[i] != 0);
                } else if i > end {
                    assert(s@[end as int] != 0);
                }
            }
        }
    }
    let head = &s[0..end];
    assert(head@ =~= s@.take(end as int));
    match utf8_str(head) {
        Some(t) => t,
        None => "?",
    }
}

} // verus!
