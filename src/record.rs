//! The two forms of the result: the exact code units of each value, and the
//! same values decoded to text with ill-formed sequences replaced.

use vstd::prelude::*;
use crate::field::{field_value, strip_trailing_nuls, FIELD_COUNT};

verus! {

/// The character that stands for an ill-formed UTF-16 sequence.
pub const REPLACEMENT_CHARACTER: char = '\u{FFFD}';

pub open spec fn is_high_surrogate(u: u16) -> bool {
    0xD800 <= u < 0xDC00
}

pub open spec fn is_low_surrogate(u: u16) -> bool {
    0xDC00 <= u < 0xE000
}

/// Decodes UTF-16 code units: a unit outside the surrogate range is its own
/// character, a high surrogate directly followed by a low one is the
/// supplementary character they encode, and every other surrogate becomes
/// the replacement character.
pub open spec fn decode_utf16_lossy(s: Seq<u16>) -> Seq<char>
    decreases s.len(),
{
    if s.len() == 0 {
        Seq::empty()
    } else if s.len() >= 2 && is_high_surrogate(s[0]) && is_low_surrogate(s[1]) {
        seq![(0x1_0000 + (s[0] - 0xD800) * 0x400 + (s[1] - 0xDC00)) as u32 as char]
            + decode_utf16_lossy(s.subrange(2, s.len() as int))
    } else if is_high_surrogate(s[0]) || is_low_surrogate(s[0]) {
        seq![REPLACEMENT_CHARACTER] + decode_utf16_lossy(s.drop_first())
    } else {
        seq![s[0] as u32 as char] + decode_utf16_lossy(s.drop_first())
    }
}

/// Relies on `String::from_utf16_lossy`: decoding UTF-16 with each unpaired
/// surrogate replaced by U+FFFD.
#[verifier::external_body]
fn utf16_to_string_lossy(units: &Vec<u16>) -> (r: String)
    ensures
        r@ == decode_utf16_lossy(units@),
{
    String::from_utf16_lossy(units)
}

/// What a lookup found, as code units.
pub open spec fn found_units(found: Option<Vec<u16>>) -> Option<Seq<u16>> {
    match found {
        Some(v) => Some(v@),
        None => None,
    }
}

/// Twelve empty values.
pub open spec fn empty_values<T>() -> Seq<Seq<T>> {
    Seq::new(FIELD_COUNT as nat, |i: int| Seq::<T>::empty())
}

/// Version information of a file, each value as the exact UTF-16 code units
/// that the resource holds (trailing NULs removed), well-formed or not.
#[derive(Clone, Debug, PartialEq, Eq, PartialOrd, Ord, Hash)]
#[non_exhaustive]
pub struct VersionInfoOs {
    /// The comments associated with the file.
    pub comments: Vec<u16>,
    /// The name of the company that produced the file.
    pub company_name: Vec<u16>,
    /// The description of the file.
    pub file_description: Vec<u16>,
    /// The file version number.
    pub file_version: Vec<u16>,
    /// The internal name of the file, if one exists.
    pub internal_name: Vec<u16>,
    /// The copyright notices that apply to the file.
    pub legal_copyright: Vec<u16>,
    /// The trademarks and registered trademarks that apply to the file.
    pub legal_trademarks: Vec<u16>,
    /// The name the file was created with.
    pub original_filename: Vec<u16>,
    /// The name of the product this file is distributed with.
    pub product_name: Vec<u16>,
    /// The version of the product this file is distributed with.
    pub product_version: Vec<u16>,
    /// The private build information for the file.
    pub private_build: Vec<u16>,
    /// The special build information for the file.
    pub special_build: Vec<u16>,
}

/// Version information of a file, each value decoded to text; an ill-formed
/// UTF-16 sequence becomes the replacement character.
#[derive(Clone, Debug, PartialEq, Eq, PartialOrd, Ord, Hash)]
#[non_exhaustive]
pub struct VersionInfo {
    /// The comments associated with the file.
    pub comments: String,
    /// The name of the company that produced the file.
    pub company_name: String,
    /// The description of the file.
    pub file_description: String,
    /// The file version number.
    pub file_version: String,
    /// The internal name of the file, if one exists.
    pub internal_name: String,
    /// The copyright notices that apply to the file.
    pub legal_copyright: String,
    /// The trademarks and registered trademarks that apply to the file.
    pub legal_trademarks: String,
    /// The name the file was created with.
    pub original_filename: String,
    /// The name of the product this file is distributed with.
    pub product_name: String,
    /// The version of the product this file is distributed with.
    pub product_version: String,
    /// The private build information for the file.
    pub private_build: String,
    /// The special build information for the file.
    pub special_build: String,
}

impl VersionInfoOs {
    /// The values in the fixed field order.
    pub open spec fn values(&self) -> Seq<Seq<u16>> {
        seq![
            self.comments@,
            self.company_name@,
            self.file_description@,
            self.file_version@,
            self.internal_name@,
            self.legal_copyright@,
            self.legal_trademarks@,
            self.original_filename@,
            self.product_name@,
            self.product_version@,
            self.private_build@,
            self.special_build@,
        ]
    }

    /// The record built from the twelve lookups of one string table, given
    /// in the fixed field order: each value is what was found without its
    /// trailing NULs, or empty where nothing was found.
    pub fn from_lookups(found: &Vec<Option<Vec<u16>>>) -> (r: VersionInfoOs)
        requires
            found@.len() == FIELD_COUNT,
        ensures
            r.values() == Seq::new(
                FIELD_COUNT as nat,
                |i: int| field_value(found_units(found@[i])),
            ),
    {
        let r = VersionInfoOs {
            comments: value_of(&found[0]),
            company_name: value_of(&found[1]),
            file_description: value_of(&found[2]),
            file_version: value_of(&found[3]),
            internal_name: value_of(&found[4]),
            legal_copyright: value_of(&found[5]),
            legal_trademarks: value_of(&found[6]),
            original_filename: value_of(&found[7]),
            product_name: value_of(&found[8]),
            product_version: value_of(&found[9]),
            private_build: value_of(&found[10]),
            special_build: value_of(&found[11]),
        };
        assert(r.values() =~= Seq::new(
            FIELD_COUNT as nat,
            |i: int| field_value(found_units(found@[i])),
        ));
        r
    }

    /// Whether the record carries a file version, the sign that its string
    /// table held usable data.
    pub fn has_file_version(&self) -> (r: bool)
        ensures
            r == (self.file_version@.len() > 0),
    {
        self.file_version.len() > 0
    }
}

impl Default for VersionInfoOs {
    /// The record with every value empty.
    fn default() -> (r: VersionInfoOs)
        ensures
            r.values() == empty_values::<u16>(),
    {
        let r = VersionInfoOs {
            comments: Vec::new(),
            company_name: Vec::new(),
            file_description: Vec::new(),
            file_version: Vec::new(),
            internal_name: Vec::new(),
            legal_copyright: Vec::new(),
            legal_trademarks: Vec::new(),
            original_filename: Vec::new(),
            product_name: Vec::new(),
            product_version: Vec::new(),
            private_build: Vec::new(),
            special_build: Vec::new(),
        };
        assert(r.values() =~= empty_values::<u16>());
        r
    }
}

fn value_of(found: &Option<Vec<u16>>) -> (r: Vec<u16>)
    ensures
        r@ == field_value(found_units(*found)),
{
    match found {
        Some(units) => strip_trailing_nuls(units.as_slice()),
        None => Vec::new(),
    }
}

impl VersionInfo {
    /// The values in the fixed field order.
    pub open spec fn values(&self) -> Seq<Seq<char>> {
        seq![
            self.comments@,
            self.company_name@,
            self.file_description@,
            self.file_version@,
            self.internal_name@,
            self.legal_copyright@,
            self.legal_trademarks@,
            self.original_filename@,
            self.product_name@,
            self.product_version@,
            self.private_build@,
            self.special_build@,
        ]
    }

    /// Decodes each value of `info`, replacing ill-formed sequences.
    pub fn from_os(info: &VersionInfoOs) -> (r: VersionInfo)
        ensures
            r.values() == info.values().map_values(|v: Seq<u16>| decode_utf16_lossy(v)),
    {
        let r = VersionInfo {
            comments: utf16_to_string_lossy(&info.comments),
            company_name: utf16_to_string_lossy(&info.company_name),
            file_description: utf16_to_string_lossy(&info.file_description),
            file_version: utf16_to_string_lossy(&info.file_version),
            internal_name: utf16_to_string_lossy(&info.internal_name),
            legal_copyright: utf16_to_string_lossy(&info.legal_copyright),
            legal_trademarks: utf16_to_string_lossy(&info.legal_trademarks),
            original_filename: utf16_to_string_lossy(&info.original_filename),
            product_name: utf16_to_string_lossy(&info.product_name),
            product_version: utf16_to_string_lossy(&info.product_version),
            private_build: utf16_to_string_lossy(&info.private_build),
            special_build: utf16_to_string_lossy(&info.special_build),
        };
        assert(r.values() =~= info.values().map_values(|v: Seq<u16>| decode_utf16_lossy(v)));
        r
    }
}

impl Default for VersionInfo {
    /// The record with every value empty.
    fn default() -> (r: VersionInfo)
        ensures
            r.values() == empty_values::<char>(),
    {
        let r = VersionInfo {
            comments: String::new(),
            company_name: String::new(),
            file_description: String::new(),
            file_version: String::new(),
            internal_name: String::new(),
            legal_copyright: String::new(),
            legal_trademarks: String::new(),
            original_filename: String::new(),
            product_name: String::new(),
            product_version: String::new(),
            private_build: String::new(),
            special_build: String::new(),
        };
        assert(r.values() =~= empty_values::<char>());
        r
    }
}

} // verus!
