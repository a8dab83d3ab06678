//! Device ids as numbers: reading the hexadecimal text of an id, and the
//! record of the device that was connected last.

use vstd::prelude::*;
use vstd::string::*;
use crate::device::{text_of, DeviceInfo, DeviceInfoView};
use crate::setting::{AppSettings, AppSettingsView, LastConnectedDevice};

verus! {

/// The value of a hexadecimal digit, small or capital.
pub open spec fn hex_digit_value(c: char) -> Option<int> {
    if '0' <= c && c <= '9' {
        Some((c as u32) - ('0' as u32))
    } else if 'a' <= c && c <= 'f' {
        Some((c as u32) - ('a' as u32) + 10)
    } else if 'A' <= c && c <= 'F' {
        Some((c as u32) - ('A' as u32) + 10)
    } else {
        None
    }
}

/// Whether every character is a hexadecimal digit.
pub open spec fn all_hex(digits: Seq<char>) -> bool {
    forall|i: int| 0 <= i < digits.len() ==> hex_digit_value(#[trigger] digits[i]) is Some
}

/// The number that a text of hexadecimal digits writes.
pub open spec fn hex_value(digits: Seq<char>) -> int
    decreases digits.len(),
{
    if digits.len() == 0 {
        0
    } else {
        hex_value(digits.drop_last()) * 16 + match hex_digit_value(digits.last()) {
            Some(v) => v,
            None => 0,
        }
    }
}

/// The digits of an id: the text without a plus sign at its beginning.
pub open spec fn id_digits(text: Seq<char>) -> Seq<char> {
    if text.len() > 0 && text[0] == '+' {
        text.skip(1)
    } else {
        text
    }
}

/// The number of an id written in hexadecimal: the value of its digits,
/// where it has at least one digit, nothing but digits after an optional
/// plus sign, and a value of at most sixteen bits; zero otherwise.
pub open spec fn id_value(text: Seq<char>) -> u16 {
    let digits = id_digits(text);
    if digits.len() > 0 && all_hex(digits) && hex_value(digits) <= 0xffff {
        hex_value(digits) as u16
    } else {
        0
    }
}

fn digit_value(c: char) -> (value: Option<u32>)
    ensures
        match value {
            Some(v) => hex_digit_value(c) == Some(v as int) && v < 16,
            None => hex_digit_value(c) is None,
        },
{
    if '0' <= c && c <= '9' {
        Some((c as u32) - ('0' as u32))
    } else if 'a' <= c && c <= 'f' {
        Some((c as u32) - ('a' as u32) + 10)
    } else if 'A' <= c && c <= 'F' {
        Some((c as u32) - ('A' as u32) + 10)
    } else {
        None
    }
}

proof fn lemma_hex_value_grows(digits: Seq<char>, n: int)
    requires
        0 <= n <= digits.len(),
    ensures
        0 <= hex_value(digits.take(n)) <= hex_value(digits),
    decreases digits.len() - n,
{
    lemma_hex_value_nonnegative(digits.take(n));
    if n < digits.len() {
        let longer = digits.take(n + 1);
        assert(longer.drop_last() =~= digits.take(n));
        lemma_hex_value_grows(digits, n + 1);
    } else {
        assert(digits.take(n) =~= digits);
    }
}

proof fn lemma_hex_value_nonnegative(digits: Seq<char>)
    ensures
        hex_value(digits) >= 0,
    decreases digits.len(),
{
    if digits.len() > 0 {
        lemma_hex_value_nonnegative(digits.drop_last());
    }
}

/// Reads the number of an id written in hexadecimal; zero where the text is
/// no such number.
pub fn parse_id(text: &str) -> (value: u16)
    ensures
        value == id_value(text@),
{
    let n = text.unicode_len();
    let start: usize = if n > 0 && text.get_char(0) == '+' {
        1
    } else {
        0
    };
    let ghost digits = id_digits(text@);
    assert(digits =~= text@.skip(start as int));
    if start >= n {
        return 0;
    }
    let mut value: u32 = 0;
    let mut i: usize = start;
    assert(digits.take(0) =~= Seq::<char>::empty());
    while i < n
        invariant
            start <= i <= n,
            n == text@.len(),
            digits == text@.skip(start as int),
            digits == id_digits(text@),
            digits.len() == n - start,
            forall|k: int| 0 <= k < i - start ==> hex_digit_value(#[trigger] digits[k]) is Some,
            value <= 0xffff,
            value == hex_value(digits.take(i - start)),
        decreases n - i,
    {
        let c = text.get_char(i);
        assert(digits[i - start] == c);
        let digit = match digit_value(c) {
            Some(digit) => digit,
            None => {
                return 0;
            },
        };
        proof {
            let longer = digits.take(i - start + 1);
            assert(longer.drop_last() =~= digits.take(i - start));
            assert(longer.last() == c);
        }
        let next: u32 = value * 16 + digit;
        if next > 0xffff {
            proof {
                lemma_hex_value_grows(digits, i - start + 1);
            }
            return 0;
        }
        value = next;
        i += 1;
    }
    proof {
        assert(digits.take(n - start) =~= digits);
    }
    value as u16
}

/// The number of an optional id; zero where it is not known.
pub open spec fn optional_id_value(id: Option<Seq<char>>) -> u16 {
    match id {
        Some(text) => id_value(text),
        None => 0,
    }
}

/// The record of a device by its numeric ids.
pub open spec fn last_connected_of(device: DeviceInfoView) -> LastConnectedDevice {
    LastConnectedDevice {
        vid: id_value(device.vendor_id),
        pid: optional_id_value(device.product_id),
        sub_pid: optional_id_value(device.sub_product_id),
    }
}

fn optional_id(id: &Option<String>) -> (value: u16)
    ensures
        value == optional_id_value(text_of(*id)),
{
    match id {
        Some(text) => parse_id(text.as_str()),
        None => 0,
    }
}

/// Notes in the settings which device is connected, by its numeric ids, or
/// that none is.
pub fn update_last_connected_device_setting(
    settings: &mut AppSettings,
    device_info: Option<&DeviceInfo>,
)
    ensures
        final(settings)@ == (AppSettingsView {
            last_connected_device: match device_info {
                Some(device) => Some(last_connected_of(device@)),
                None => None,
            },
            ..old(settings)@
        }),
{
    settings.last_connected_device = match device_info {
        Some(device) => Some(
            LastConnectedDevice {
                vid: parse_id(device.vendor_id.as_str()),
                pid: optional_id(&device.product_id),
                sub_pid: optional_id(&device.sub_product_id),
            },
        ),
        None => None,
    };
}

} // verus!
