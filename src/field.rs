//! The twelve named string values of a version resource, the structured paths
//! under which they are looked up, and the normalisation of what comes back.

use vstd::prelude::*;

verus! {

/// One of the fixed string values that a version resource may hold.
#[derive(Clone, Copy, Debug, PartialEq, Eq, PartialOrd, Ord, Hash)]
pub enum FieldName {
    Comments,
    CompanyName,
    FileDescription,
    FileVersion,
    InternalName,
    LegalCopyright,
    LegalTrademarks,
    OriginalFilename,
    ProductName,
    ProductVersion,
    PrivateBuild,
    SpecialBuild,
}

/// How many named values there are.
pub const FIELD_COUNT: usize = 12;

/// The field at position `i` of the fixed order (comments first, special build last).
pub open spec fn field_at(i: int) -> FieldName {
    if i == 0 {
        FieldName::Comments
    } else if i == 1 {
        FieldName::CompanyName
    } else if i == 2 {
        FieldName::FileDescription
    } else if i == 3 {
        FieldName::FileVersion
    } else if i == 4 {
        FieldName::InternalName
    } else if i == 5 {
        FieldName::LegalCopyright
    } else if i == 6 {
        FieldName::LegalTrademarks
    } else if i == 7 {
        FieldName::OriginalFilename
    } else if i == 8 {
        FieldName::ProductName
    } else if i == 9 {
        FieldName::ProductVersion
    } else if i == 10 {
        FieldName::PrivateBuild
    } else {
        FieldName::SpecialBuild
    }
}

/// UTF-16 code units of an ASCII text.
pub open spec fn ascii_units(s: Seq<char>) -> Seq<u16> {
    s.map_values(|c: char| c as u16)
}

impl FieldName {
    /// The key under which the value is stored in a string table.
    pub open spec fn key(self) -> Seq<char> {
        match self {
            FieldName::Comments => "Comments"@,
            FieldName::CompanyName => "CompanyName"@,
            FieldName::FileDescription => "FileDescription"@,
            FieldName::FileVersion => "FileVersion"@,
            FieldName::InternalName => "InternalName"@,
            FieldName::LegalCopyright => "LegalCopyright"@,
            FieldName::LegalTrademarks => "LegalTrademarks"@,
            FieldName::OriginalFilename => "OriginalFilename"@,
            FieldName::ProductName => "ProductName"@,
            FieldName::ProductVersion => "ProductVersion"@,
            FieldName::PrivateBuild => "PrivateBuild"@,
            FieldName::SpecialBuild => "SpecialBuild"@,
        }
    }

    /// The field at position `i` of the fixed order.
    pub fn at(i: usize) -> (r: FieldName)
        requires
            i < FIELD_COUNT,
        ensures
            r == field_at(i as int),
    {
        if i == 0 {
            FieldName::Comments
        } else if i == 1 {
            FieldName::CompanyName
        } else if i == 2 {
            FieldName::FileDescription
        } else if i == 3 {
            FieldName::FileVersion
        } else if i == 4 {
            FieldName::InternalName
        } else if i == 5 {
            FieldName::LegalCopyright
        } else if i == 6 {
            FieldName::LegalTrademarks
        } else if i == 7 {
            FieldName::OriginalFilename
        } else if i == 8 {
            FieldName::ProductName
        } else if i == 9 {
            FieldName::ProductVersion
        } else if i == 10 {
            FieldName::PrivateBuild
        } else {
            FieldName::SpecialBuild
        }
    }

    /// The key under which the value is stored in a string table.
    pub fn key_str(self) -> (r: &'static str)
        ensures
            r@ == self.key(),
    {
        match self {
            FieldName::Comments => "Comments",
            FieldName::CompanyName => "CompanyName",
            FieldName::FileDescription => "FileDescription",
            FieldName::FileVersion => "FileVersion",
            FieldName::InternalName => "InternalName",
            FieldName::LegalCopyright => "LegalCopyright",
            FieldName::LegalTrademarks => "LegalTrademarks",
            FieldName::OriginalFilename => "OriginalFilename",
            FieldName::ProductName => "ProductName",
            FieldName::ProductVersion => "ProductVersion",
            FieldName::PrivateBuild => "PrivateBuild",
            FieldName::SpecialBuild => "SpecialBuild",
        }
    }
}

/// The lowercase hexadecimal digit for `d` (below sixteen), as a code unit.
pub open spec fn hex_digit(d: int) -> u16 {
    if d < 10 {
        (0x30 + d) as u16
    } else {
        (0x61 + d - 10) as u16
    }
}

/// The last `n` hexadecimal digits of `x`, most significant first.
pub open spec fn hex_digits(x: nat, n: nat) -> Seq<u16>
    decreases n,
{
    if n == 0 {
        Seq::empty()
    } else {
        hex_digits(x / 16, (n - 1) as nat).push(hex_digit((x % 16) as int))
    }
}

/// `\VarFileInfo\Translation`, terminated by a NUL unit.
pub open spec fn translation_path_spec() -> Seq<u16> {
    ascii_units("\\VarFileInfo\\Translation"@).push(0)
}

/// `\StringFileInfo\<id as 8 lowercase hex digits>\<key>`, terminated by a NUL unit.
pub open spec fn field_path_spec(field: FieldName, id: u32) -> Seq<u16> {
    (ascii_units("\\StringFileInfo\\"@) + hex_digits(id as nat, 8) + ascii_units("\\"@)
        + ascii_units(field.key())).push(0)
}

/// `s` without its trailing NUL units.
pub open spec fn strip_nuls_spec(s: Seq<u16>) -> Seq<u16>
    decreases s.len(),
{
    if s.len() > 0 && s.last() == 0 {
        strip_nuls_spec(s.drop_last())
    } else {
        s
    }
}

/// The value of a field from what its lookup found: empty when nothing was
/// found, else the units found without their trailing NULs.
pub open spec fn field_value(found: Option<Seq<u16>>) -> Seq<u16> {
    match found {
        Some(s) => strip_nuls_spec(s),
        None => Seq::empty(),
    }
}

fn push_ascii(out: &mut Vec<u16>, s: &str)
    ensures
        final(out)@ == old(out)@ + ascii_units(s@),
{
    let n = s.unicode_len();
    let mut i: usize = 0;
    while i < n
        invariant
            n == s@.len(),
            i <= n,
            out@ == old(out)@ + ascii_units(s@.subrange(0, i as int)),
        decreases n - i,
    {
        let c = s.get_char(i);
        out.push(c as u16);
        i = i + 1;
        assert(s@.subrange(0, i as int) =~= s@.subrange(0, i - 1).push(c));
        assert(ascii_units(s@.subrange(0, i as int)) =~= ascii_units(s@.subrange(0, i - 1)).push(
            c as u16,
        ));
    }
    assert(s@.subrange(0, n as int) =~= s@);
}

fn push_hex(out: &mut Vec<u16>, x: u32, n: usize)
    ensures
        final(out)@ == old(out)@ + hex_digits(x as nat, n as nat),
    decreases n,
{
    if n == 0 {
        assert(old(out)@ + hex_digits(x as nat, 0) =~= old(out)@);
    } else {
        push_hex(out, x / 16, n - 1);
        let d: u32 = x % 16;
        let unit: u16 = if d < 10 {
            (0x30 + d) as u16
        } else {
            (0x61 + d - 10) as u16
        };
        out.push(unit);
        assert(out@ =~= old(out)@ + hex_digits(x as nat, n as nat));
    }
}

/// The NUL-terminated lookup path of the declared translations.
pub fn translation_path() -> (r: Vec<u16>)
    ensures
        r@ == translation_path_spec(),
{
    let mut path: Vec<u16> = Vec::new();
    push_ascii(&mut path, "\\VarFileInfo\\Translation");
    path.push(0);
    assert(path@ =~= translation_path_spec());
    path
}

/// The NUL-terminated lookup path of `field` in the string table of translation `id`.
pub fn field_path(field: FieldName, id: u32) -> (r: Vec<u16>)
    ensures
        r@ == field_path_spec(field, id),
{
    let mut path: Vec<u16> = Vec::new();
    push_ascii(&mut path, "\\StringFileInfo\\");
    push_hex(&mut path, id, 8);
    push_ascii(&mut path, "\\");
    push_ascii(&mut path, field.key_str());
    path.push(0);
    assert(path@ =~= field_path_spec(field, id));
    path
}

proof fn lemma_strip_prefix(s: Seq<u16>, end: int)
    requires
        0 < end <= s.len(),
        s[end - 1] == 0,
    ensures
        strip_nuls_spec(s.subrange(0, end)) == strip_nuls_spec(s.subrange(0, end - 1)),
{
    assert(s.subrange(0, end).drop_last() =~= s.subrange(0, end - 1));
}

/// `units` without its trailing NUL units (each last unit that is zero is
/// removed, until the last is not zero or nothing is left).
pub fn strip_trailing_nuls(units: &[u16]) -> (r: Vec<u16>)
    ensures
        r@ == strip_nuls_spec(units@),
{
    let mut end: usize = units.len();
    assert(units@.subrange(0, end as int) =~= units@);
    while end > 0 && units[end - 1] == 0
        invariant
            end <= units@.len(),
            strip_nuls_spec(units@.subrange(0, end as int)) == strip_nuls_spec(units@),
        decreases end,
    {
        proof {
            lemma_strip_prefix(units@, end as int);
        }
        end = end - 1;
    }
    let mut out: Vec<u16> = Vec::new();
    let mut i: usize = 0;
    while i < end
        invariant
            end <= units@.len(),
            i <= end,
            out@ == units@.subrange(0, i as int),
        decreases end - i,
    {
        out.push(units[i]);
        i = i + 1;
        assert(out@ =~= units@.subrange(0, i as int));
    }
    assert(strip_nuls_spec(out@) == out@);
    out
}

/// Stripping trailing NULs twice strips no more than once.
pub proof fn lemma_strip_idempotent(s: Seq<u16>)
    ensures
        strip_nuls_spec(strip_nuls_spec(s)) == strip_nuls_spec(s),
    decreases s.len(),
{
    if s.len() > 0 && s.last() == 0 {
        lemma_strip_idempotent(s.drop_last());
    }
}

/// A value made of NUL units only strips to the empty value.
pub proof fn lemma_strip_all_nuls(s: Seq<u16>)
    requires
        forall|i: int| 0 <= i < s.len() ==> s[i] == 0,
    ensures
        strip_nuls_spec(s) == Seq::<u16>::empty(),
    decreases s.len(),
{
    if s.len() > 0 {
        lemma_strip_all_nuls(s.drop_last());
    }
}

} // verus!
