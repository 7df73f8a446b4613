//! Classification of usb devices: the interface-type, mass-storage-subtype
//! and scsi-type tables, keyed by the numeric strings the kernel exposes.

use crate::strutil::str_chars;
use vstd::prelude::*;

verus! {

/// Whether `c` is a decimal digit.
pub open spec fn is_digit(c: char) -> bool {
    '0' <= c && c <= '9'
}

/// The value of a digit string, most significant first.
pub open spec fn digits_value(s: Seq<char>) -> int
    decreases s.len(),
{
    if s.len() == 0 {
        0
    } else {
        digits_value(s.drop_last()) * 10 + (s.last() as int - '0' as int)
    }
}

/// Whether every character is a decimal digit.
pub open spec fn all_digits(s: Seq<char>) -> bool {
    forall|i: int| 0 <= i < s.len() ==> is_digit(s[i])
}

/// What parsing a signed decimal integer yields: an optional sign, then at
/// least one digit and nothing else, with the value in range.
pub open spec fn parse_i32_spec(s: Seq<char>) -> Option<i32> {
    let sign_neg = s.len() > 0 && s[0] == '-';
    let digits = if s.len() > 0 && (s[0] == '-' || s[0] == '+') {
        s.drop_first()
    } else {
        s
    };
    if digits.len() == 0 || !all_digits(digits) {
        None
    } else {
        let v = if sign_neg {
            -digits_value(digits)
        } else {
            digits_value(digits)
        };
        if i32::MIN <= v <= i32::MAX {
            Some(v as i32)
        } else {
            None
        }
    }
}

proof fn lemma_digits_value_nonneg(s: Seq<char>)
    requires
        all_digits(s),
    ensures
        digits_value(s) >= 0,
    decreases s.len(),
{
    if s.len() > 0 {
        assert(all_digits(s.drop_last()));
        lemma_digits_value_nonneg(s.drop_last());
        assert(is_digit(s.last()));
    }
}

proof fn lemma_digits_value_grows(s: Seq<char>, k: int)
    requires
        all_digits(s),
        0 <= k <= s.len(),
    ensures
        digits_value(s) >= digits_value(s.subrange(0, k)),
    decreases s.len() - k,
{
    if k < s.len() {
        lemma_digits_value_grows(s, k + 1);
        let a = s.subrange(0, k);
        let b = s.subrange(0, k + 1);
        assert(b.drop_last() =~= a);
        assert(b.last() == s[k]);
        assert(all_digits(a));
        lemma_digits_value_nonneg(a);
        assert(is_digit(s[k]));
        assert(digits_value(b) == digits_value(a) * 10 + (s[k] as int - '0' as int));
        assert(digits_value(b) >= digits_value(a));
    } else {
        assert(s.subrange(0, k) =~= s);
    }
}

/// Parse a signed decimal integer, exactly as the specification says.
pub fn parse_i32(s: &str) -> (r: Option<i32>)
    ensures
        r == parse_i32_spec(s@),
{
    let v = str_chars(s);
    if v.len() == 0 {
        return None;
    }
    let first = v[0];
    let neg = first == '-';
    let start: usize = if first == '-' || first == '+' {
        1
    } else {
        0
    };
    let ghost digits = if s@.len() > 0 && (s@[0] == '-' || s@[0] == '+') {
        s@.drop_first()
    } else {
        s@
    };
    proof {
        assert(digits =~= v@.subrange(start as int, v@.len() as int));
    }
    if v.len() == start {
        return None;
    }
    let mut acc: i64 = 0;
    let mut i: usize = start;
    while i < v.len()
        invariant
            v@ == s@,
            start <= i <= v@.len(),
            start <= 1,
            digits == (if s@.len() > 0 && (s@[0] == '-' || s@[0] == '+') {
                s@.drop_first()
            } else {
                s@
            }),
            neg == (s@.len() > 0 && s@[0] == '-'),
            digits =~= v@.subrange(start as int, v@.len() as int),
            all_digits(v@.subrange(start as int, i as int)),
            acc == digits_value(v@.subrange(start as int, i as int)),
            0 <= acc <= 2147483648i64,
        decreases v.len() - i,
    {
        let c = v[i];
        if c < '0' || c > '9' {
            proof {
                assert(digits[i - start] == v@[i as int]);
                assert(!is_digit(digits[i - start]));
                assert(!all_digits(digits));
                assert(parse_i32_spec(s@) is None);
            }
            return None;
        }
        let d: i64 = (c as u32 as i64) - ('0' as u32 as i64);
        proof {
            assert('0' <= c && c <= '9');
            assert(0 <= d <= 9) by {
                assert(c as u32 >= '0' as u32 && c as u32 <= '9' as u32);
            }
        }
        acc = acc * 10 + d;
        proof {
            let a = v@.subrange(start as int, i as int);
            let b = v@.subrange(start as int, i + 1);
            assert(b.drop_last() =~= a);
            assert(b.last() == v@[i as int]);
            assert(acc == digits_value(b));
            assert(all_digits(b));
        }
        i = i + 1;
        if acc > 2147483648i64 {
            proof {
                let pre = v@.subrange(start as int, i as int);
                assert(acc == digits_value(pre));
                if all_digits(digits) {
                    lemma_digits_value_grows(digits, i - start);
                    assert(digits.subrange(0, i - start) =~= pre);
                    assert(digits_value(digits) >= acc);
                    assert(parse_i32_spec(s@) is None);
                } else {
                    assert(parse_i32_spec(s@) is None);
                }
            }
            return None;
        }
    }
    proof {
        assert(v@.subrange(start as int, v@.len() as int) =~= digits);
        assert(acc == digits_value(digits));
        assert(all_digits(digits));
    }
    if neg {
        let value: i64 = -acc;
        proof {
            assert(value >= i32::MIN as i64);
            assert(value <= 0);
        }
        Some(value as i32)
    } else {
        if acc > 2147483647i64 {
            return None;
        }
        Some(acc as i32)
    }
}

/// The usb builtin command: device classification by the kernel's numeric
/// attributes.
pub struct UsbId;

impl UsbId {
    /// The interface type a usb interface class declares.
    pub fn usb_iftype(if_class_num: i32) -> (r: Option<&'static str>)
        ensures
            if_class_num == 1 ==> (r matches Some(s) && s@ == "audio"@),
            if_class_num == 3 ==> (r matches Some(s) && s@ == "hid"@),
            if_class_num == 5 ==> (r matches Some(s) && s@ == "Physical"@),
            if_class_num == 6 ==> (r matches Some(s) && s@ == "media"@),
            if_class_num == 7 ==> (r matches Some(s) && s@ == "printer"@),
            if_class_num == 8 ==> (r matches Some(s) && s@ == "storage"@),
            if_class_num == 9 ==> (r matches Some(s) && s@ == "hub"@),
            if_class_num == 14 ==> (r matches Some(s) && s@ == "video"@),
            if_class_num == 255 ==> (r matches Some(s) && s@ == "generic"@),
            !(if_class_num == 1 || if_class_num == 3 || if_class_num == 5 || if_class_num == 6
                || if_class_num == 7 || if_class_num == 8 || if_class_num == 9 || if_class_num
                == 14 || if_class_num == 255) ==> r is None,
    {
        if if_class_num == 1 {
            Some("audio")
        } else if if_class_num == 3 {
            Some("hid")
        } else if if_class_num == 5 {
            Some("Physical")
        } else if if_class_num == 6 {
            Some("media")
        } else if if_class_num == 7 {
            Some("printer")
        } else if if_class_num == 8 {
            Some("storage")
        } else if if_class_num == 9 {
            Some("hub")
        } else if if_class_num == 14 {
            Some("video")
        } else if if_class_num == 255 {
            Some("generic")
        } else {
            None
        }
    }

    /// The mass-storage subtype a numeric interface subclass string
    /// declares; the protocol out-parameter keeps the matched number, or 0.
    pub fn usb_mass_storage_ifsubtype(from: &str, protocol: &mut i32) -> (r: Option<
        &'static str,
    >)
        ensures
            ({
                let p = parse_i32_spec(from@);
                &&& p == Some(1i32) ==> *final(protocol) == 1 && (r matches Some(s) && s@
                    == "rbc"@)
                &&& p == Some(2i32) ==> *final(protocol) == 2 && (r matches Some(s) && s@
                    == "atapi"@)
                &&& p == Some(3i32) ==> *final(protocol) == 3 && (r matches Some(s) && s@
                    == "tape"@)
                &&& p == Some(4i32) ==> *final(protocol) == 4 && (r matches Some(s) && s@
                    == "floppy"@)
                &&& p == Some(6i32) ==> *final(protocol) == 6 && (r matches Some(s) && s@
                    == "scsi"@)
                &&& p == Some(0i32) ==> *final(protocol) == 0 && (r matches Some(s) && s@
                    == "generic"@)
                &&& !(p == Some(1i32) || p == Some(2i32) || p == Some(3i32) || p == Some(4i32)
                    || p == Some(6i32) || p == Some(0i32)) ==> *final(protocol) == 0 && (
                r matches Some(s) && s@ == "generic"@)
            }),
    {
        *protocol = 0;
        match parse_i32(from) {
            Some(num) => {
                if num == 1 {
                    *protocol = 1;
                    Some("rbc")
                } else if num == 2 {
                    *protocol = 2;
                    Some("atapi")
                } else if num == 3 {
                    *protocol = 3;
                    Some("tape")
                } else if num == 4 {
                    *protocol = 4;
                    Some("floppy")
                } else if num == 6 {
                    *protocol = 6;
                    Some("scsi")
                } else if num == 0 {
                    *protocol = 0;
                    Some("generic")
                } else {
                    Some("generic")
                }
            }
            None => Some("generic"),
        }
    }

    /// The scsi device type a numeric type string declares; an unparsable
    /// string declares nothing.
    pub fn scsi_type(from: &str) -> (r: Option<&'static str>)
        ensures
            ({
                let p = parse_i32_spec(from@);
                &&& p is None ==> r is None
                &&& (p == Some(0i32) || p == Some(14i32)) ==> (r matches Some(s) && s@ == "disk"@)
                &&& p == Some(1i32) ==> (r matches Some(s) && s@ == "tape"@)
                &&& (p == Some(4i32) || p == Some(7i32) || p == Some(15i32)) ==> (r matches Some(s)
                    && s@ == "optical"@)
                &&& p == Some(5i32) ==> (r matches Some(s) && s@ == "cd"@)
                &&& (p matches Some(n) && !(n == 0 || n == 14 || n == 1 || n == 4 || n == 7 || n
                    == 15 || n == 5)) ==> (r matches Some(s) && s@ == "generic"@)
            }),
    {
        match parse_i32(from) {
            Some(num) => {
                if num == 0 || num == 14 {
                    Some("disk")
                } else if num == 1 {
                    Some("tape")
                } else if num == 4 || num == 7 || num == 15 {
                    Some("optical")
                } else if num == 5 {
                    Some("cd")
                } else {
                    Some("generic")
                }
            }
            None => None,
        }
    }
}



} // verus!
