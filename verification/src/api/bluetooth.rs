//! The Bluetooth fallback: where a device's metadata lies, which hardware
//! address it names, and what battery level the Bluetooth utility reports for
//! that address.

use crate::controller::{clamp_capacity, HidDeviceInfo, FULL_CAPACITY};
use crate::text::{
    contains, has_pattern, has_prefix, lines, parse_unsigned, read_unsigned, rows, split,
    split_bytes, split_lines, starts_with, str_starts_with, text_starts_with, copy_range, SPACE,
};
use vstd::prelude::*;
use vstd::string::*;

verus! {

/// The byte that parts a key from its value in a metadata line.
pub const EQUALS_SIGN: u8 = 61;

/// The device nodes of raw HID devices begin with this.
pub open spec fn hidraw_node_prefix() -> Seq<char> {
    "/dev/hidraw"@
}

/// The prefix of a device node that the class directory replaces.
pub open spec fn dev_prefix() -> Seq<char> {
    "/dev"@
}

/// The key whose value is the Bluetooth hardware address.
pub open spec fn uniq_key() -> Seq<u8> {
    "HID_UNIQ".spec_bytes()
}

/// The words that mark the line with the battery level.
pub open spec fn battery_label() -> Seq<u8> {
    "Battery Percentage".spec_bytes()
}

/// The metadata file of a raw HID device node: the node's path with its
/// `/dev` prefix replaced by the class directory, and the file's place below
/// it. Paths that are no raw HID device node have none.
pub open spec fn uevent_path_of(path: Seq<char>) -> Option<Seq<char>> {
    if text_starts_with(path, hidraw_node_prefix()) {
        Some("/sys/class/hidraw"@ + path.skip(dev_prefix().len() as int) + "/device/uevent"@)
    } else {
        None
    }
}

/// The address that one metadata line gives: the text between the first and
/// the second equals sign of a line that begins with the key.
pub open spec fn address_on_line(line: Seq<u8>) -> Option<Seq<u8>> {
    if starts_with(line, uniq_key()) && split(line, EQUALS_SIGN).len() >= 2 {
        Some(split(line, EQUALS_SIGN)[1])
    } else {
        None
    }
}

/// The address that the last of the lines to give one gives.
pub open spec fn last_address(ls: Seq<Seq<u8>>) -> Option<Seq<u8>>
    decreases ls.len(),
{
    if ls.len() == 0 {
        None
    } else {
        match address_on_line(ls.last()) {
            Some(a) => Some(a),
            None => last_address(ls.drop_last()),
        }
    }
}

/// The Bluetooth hardware address in a device's metadata, empty where the
/// metadata names none.
pub open spec fn bluetooth_address(uevent: Seq<u8>) -> Seq<u8> {
    match last_address(lines(uevent)) {
        Some(a) => a,
        None => Seq::empty(),
    }
}

/// The battery level that one line of the utility's output gives. The line
/// holds the label, and its third word, after two characters that are passed
/// over, is the level as one byte in hexadecimal. Levels above 100 count as
/// 100.
pub open spec fn percentage_on_line(line: Seq<u8>) -> Option<u8> {
    let words = split(line, SPACE);
    if contains(line, battery_label()) && words.len() >= 3 && words[2].len() >= 2 {
        match parse_unsigned(words[2].skip(2), 16, 255) {
            Some(v) => Some(clamp_capacity(v as int)),
            None => None,
        }
    } else {
        None
    }
}

/// The battery level that the last of the lines to give one gives.
pub open spec fn last_percentage(ls: Seq<Seq<u8>>) -> Option<u8>
    decreases ls.len(),
{
    if ls.len() == 0 {
        None
    } else {
        match percentage_on_line(ls.last()) {
            Some(p) => Some(p),
            None => last_percentage(ls.drop_last()),
        }
    }
}

/// The battery level in the utility's output, 0 where the output gives none.
pub open spec fn battery_percentage(info: Seq<u8>) -> u8 {
    match last_percentage(lines(info)) {
        Some(p) => p,
        None => 0,
    }
}

/// Every battery level read from the utility's output is a percentage.
pub proof fn lemma_battery_percentage_bounded(info: Seq<u8>)
    ensures
        battery_percentage(info) <= FULL_CAPACITY,
{
    lemma_last_percentage_bounded(lines(info));
}

proof fn lemma_last_percentage_bounded(ls: Seq<Seq<u8>>)
    ensures
        last_percentage(ls) matches Some(p) ==> p <= FULL_CAPACITY,
    decreases ls.len(),
{
    if ls.len() > 0 {
        lemma_last_percentage_bounded(ls.drop_last());
    }
}

/// Where the metadata of a device lies, if its path is that of a raw HID
/// device node.
pub fn uevent_path(device_info: &HidDeviceInfo) -> (r: Option<String>)
    ensures
        r is Some <==> uevent_path_of(device_info@.path) is Some,
        r is Some ==> r.unwrap()@ == uevent_path_of(device_info@.path).unwrap(),
{
    let path = device_info.path.as_str();
    if !str_starts_with(path, "/dev/hidraw") {
        return None;
    }
    proof {
        reveal_strlit("/dev/hidraw");
        reveal_strlit("/dev");
    }
    let n = path.unicode_len();
    let rest = path.substring_char(4, n);
    let mut out = String::from_str("/sys/class/hidraw");
    out.append(rest);
    out.append("/device/uevent");
    proof {
        assert(path@.subrange(4, n as int) =~= path@.skip(4));
    }
    Some(out)
}

/// Reads the address that a metadata line gives.
fn line_address(line: &[u8]) -> (r: Option<Vec<u8>>)
    ensures
        r is Some <==> address_on_line(line@) is Some,
        r is Some ==> r.unwrap()@ == address_on_line(line@).unwrap(),
{
    if !has_prefix(line, "HID_UNIQ".as_bytes()) {
        return None;
    }
    let pieces = split_bytes(line, EQUALS_SIGN);
    if pieces.len() < 2 {
        return None;
    }
    assert(rows(pieces@)[1] == pieces@[1]@);
    let piece = &pieces[1];
    let out = copy_range(piece.as_slice(), 0, piece.len());
    assert(out@ =~= piece@);
    Some(out)
}

/// Extracts the Bluetooth hardware address from the text of a device's
/// metadata file. The last line that gives an address decides; without one
/// the address is empty.
pub fn get_bluetooth_address(uevent: &[u8]) -> (r: Vec<u8>)
    ensures
        r@ == bluetooth_address(uevent@),
{
    let all = split_lines(uevent);
    let mut address: Vec<u8> = Vec::new();
    let ghost mut found: Option<Seq<u8>> = None;
    let mut i: usize = 0;
    assert(rows(all@).take(0) =~= Seq::<Seq<u8>>::empty());
    while i < all.len()
        invariant
            i <= all@.len(),
            rows(all@) == lines(uevent@),
            found == last_address(rows(all@).take(i as int)),
            address@ == (match found {
                Some(a) => a,
                None => Seq::<u8>::empty(),
            }),
        decreases all@.len() - i,
    {
        proof {
            let next = rows(all@).take(i + 1);
            assert(next.drop_last() =~= rows(all@).take(i as int));
            assert(next.last() == all@[i as int]@);
        }
        match line_address(all[i].as_slice()) {
            Some(a) => {
                address = a;
                proof {
                    found = Some(a@);
                }
            },
            None => {},
        }
        i += 1;
    }
    assert(rows(all@).take(i as int) =~= rows(all@));
    address
}

/// Reads the battery level that a line of the utility's output gives.
fn line_percentage(line: &[u8]) -> (r: Option<u8>)
    ensures
        r == percentage_on_line(line@),
{
    if !has_pattern(line, "Battery Percentage".as_bytes()) {
        return None;
    }
    let words = split_bytes(line, SPACE);
    if words.len() < 3 {
        return None;
    }
    assert(rows(words@)[2] == words@[2]@);
    let word = &words[2];
    if word.len() < 2 {
        return None;
    }
    let digits = copy_range(word.as_slice(), 2, word.len());
    assert(digits@ =~= word@.skip(2));
    match read_unsigned(digits.as_slice(), 16, 255) {
        Some(v) => Some(
            if v >= FULL_CAPACITY as u32 {
                FULL_CAPACITY
            } else {
                v as u8
            },
        ),
        None => None,
    }
}

/// Reads the battery level from the output of the Bluetooth utility's info
/// command. The last line that gives a level decides; without one the level
/// is 0.
pub fn get_battery_percentage(info: &[u8]) -> (r: u8)
    ensures
        r == battery_percentage(info@),
        r <= FULL_CAPACITY,
{
    let all = split_lines(info);
    let mut percentage: u8 = 0;
    let ghost mut found: Option<u8> = None;
    let mut i: usize = 0;
    assert(rows(all@).take(0) =~= Seq::<Seq<u8>>::empty());
    while i < all.len()
        invariant
            i <= all@.len(),
            rows(all@) == lines(info@),
            found == last_percentage(rows(all@).take(i as int)),
            percentage == (match found {
                Some(p) => p,
                None => 0u8,
            }),
        decreases all@.len() - i,
    {
        proof {
            let next = rows(all@).take(i + 1);
            assert(next.drop_last() =~= rows(all@).take(i as int));
            assert(next.last() == all@[i as int]@);
        }
        match line_percentage(all[i].as_slice()) {
            Some(p) => {
                percentage = p;
                proof {
                    found = Some(p);
                }
            },
            None => {},
        }
        i += 1;
    }
    proof {
        assert(rows(all@).take(i as int) =~= rows(all@));
        lemma_battery_percentage_bounded(info@);
    }
    percentage
}

} // verus!
