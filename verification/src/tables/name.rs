//! The naming (`name`) table.
//!
//! Records are decoded in table order until the first structurally invalid
//! record (an unrecognized platform id, or text bytes that reach past the
//! table); duplicates are preserved.  A record whose text bytes do not
//! decode keeps its place with an empty string.

use vstd::prelude::*;

use crate::bytes::{be_u16_at, copy_range, read_u16};
use crate::directory::{windows_language_name, windows_language_tag};
use crate::text::{decode_name_text, spec_name_text};

verus! {

/// A standard semantic role of a name record, with `Unknown` for every
/// unrecognized raw id.
#[derive(Clone, Copy, Debug, PartialEq, Eq, Structural)]
pub enum NameId {
    CopyrightNotice,
    Family,
    Subfamily,
    UniqueId,
    FullName,
    Version,
    PostScriptName,
    Trademark,
    Manufacturer,
    Designer,
    Description,
    VendorUrl,
    DesignerUrl,
    License,
    LicenseUrl,
    TypographicFamily,
    TypographicSubFamily,
    CompatibleFull,
    SampleText,
    PostScriptCID,
    WWSFamily,
    WWSSubFamily,
    LightBackgroundPalette,
    DarkBackgroundPalette,
    VariationsPostScriptNamePrefix,
    Unknown,
}

/// The platform a name record was written for.
#[derive(Clone, Copy, Debug, PartialEq, Eq, Structural)]
pub enum PlatformId {
    Unicode,
    Macintosh,
    Iso,
    Windows,
    Custom,
}

/// A decoded name record.
#[derive(Clone, Debug, PartialEq)]
pub struct NameRecord {
    /// The record's platform.
    pub platform_id: PlatformId,
    /// The language tag resolved for the record's platform and language id.
    pub language_id: String,
    /// The record's semantic role.
    pub name_id: NameId,
    /// The record's text, decoded per the platform encoding rule.
    pub name: String,
}

/// The mathematical value of a decoded name record.
#[verifier::ext_equal]
pub ghost struct NameRecordView {
    pub platform_id: PlatformId,
    pub language_id: Seq<char>,
    pub name_id: NameId,
    pub name: Seq<char>,
}

impl View for NameRecord {
    type V = NameRecordView;

    open spec fn view(&self) -> NameRecordView {
        NameRecordView {
            platform_id: self.platform_id,
            language_id: self.language_id@,
            name_id: self.name_id,
            name: self.name@,
        }
    }
}

/// A decoded naming table: the records in table order.
#[derive(Clone, Debug, PartialEq)]
pub struct Table {
    pub names: Vec<NameRecord>,
}

/// The mathematical values of a record list.
pub open spec fn spec_views(names: Seq<NameRecord>) -> Seq<NameRecordView> {
    names.map_values(|r: NameRecord| r@)
}

impl View for Table {
    type V = Seq<NameRecordView>;

    open spec fn view(&self) -> Seq<NameRecordView> {
        spec_views(self.names@)
    }
}

/// The platform for a raw platform id; five are defined, anything else
/// fails the record.
pub open spec fn spec_platform_id(n: int) -> Option<PlatformId> {
    if n == 0 {
        Some(PlatformId::Unicode)
    } else if n == 1 {
        Some(PlatformId::Macintosh)
    } else if n == 2 {
        Some(PlatformId::Iso)
    } else if n == 3 {
        Some(PlatformId::Windows)
    } else if n == 4 {
        Some(PlatformId::Custom)
    } else {
        None
    }
}

/// The semantic role for a raw name id.  Total: 15 is reserved and every
/// id above 25 is unassigned, so both decode to `Unknown`.
pub open spec fn spec_name_id(n: int) -> NameId {
    if n == 0 {
        NameId::CopyrightNotice
    } else if n == 1 {
        NameId::Family
    } else if n == 2 {
        NameId::Subfamily
    } else if n == 3 {
        NameId::UniqueId
    } else if n == 4 {
        NameId::FullName
    } else if n == 5 {
        NameId::Version
    } else if n == 6 {
        NameId::PostScriptName
    } else if n == 7 {
        NameId::Trademark
    } else if n == 8 {
        NameId::Manufacturer
    } else if n == 9 {
        NameId::Designer
    } else if n == 10 {
        NameId::Description
    } else if n == 11 {
        NameId::VendorUrl
    } else if n == 12 {
        NameId::DesignerUrl
    } else if n == 13 {
        NameId::License
    } else if n == 14 {
        NameId::LicenseUrl
    } else if n == 16 {
        NameId::TypographicFamily
    } else if n == 17 {
        NameId::TypographicSubFamily
    } else if n == 18 {
        NameId::CompatibleFull
    } else if n == 19 {
        NameId::SampleText
    } else if n == 20 {
        NameId::PostScriptCID
    } else if n == 21 {
        NameId::WWSFamily
    } else if n == 22 {
        NameId::WWSSubFamily
    } else if n == 23 {
        NameId::LightBackgroundPalette
    } else if n == 24 {
        NameId::DarkBackgroundPalette
    } else if n == 25 {
        NameId::VariationsPostScriptNamePrefix
    } else {
        NameId::Unknown
    }
}

/// Whether a record's text is stored as UTF-16: the Unicode platform, or
/// Windows with a Unicode-compatible encoding id (symbol or BMP).  This is
/// the record-view predicate of the directory collaborator and is kept
/// exactly as that collaborator defines it.
pub open spec fn spec_is_unicode(platform: PlatformId, encoding: int) -> bool {
    platform == PlatformId::Unicode || (platform == PlatformId::Windows && (encoding == 0
        || encoding == 1))
}

/// The Windows language id whose tag stands for this record: Windows
/// records carry one directly, the default Macintosh Roman/English record
/// maps to US English, and everything else resolves to the unknown tag.
pub open spec fn spec_language_code(platform: PlatformId, encoding: int, language: int) -> int {
    if platform == PlatformId::Windows {
        language
    } else if platform == PlatformId::Macintosh && encoding == 0 && language == 0 {
        0x0409
    } else {
        0
    }
}

/// The record-array start and string-storage start of a name table, or
/// `None` when the header itself is malformed (bad version, truncated
/// language-tag area, record array or storage past the end).
pub open spec fn spec_name_layout(d: Seq<u8>) -> Option<(int, int)> {
    if d.len() < 6 {
        None
    } else {
        let version = be_u16_at(d, 0);
        let count = be_u16_at(d, 2);
        let storage_offset = be_u16_at(d, 4);
        if version != 0 && version != 1 {
            None
        } else if version == 1 && d.len() < 8 {
            None
        } else if version == 1 && be_u16_at(d, 6) * 4 > 65535 {
            None
        } else {
            let rs = if version == 0 {
                6
            } else {
                8 + 4 * be_u16_at(d, 6)
            };
            if rs + 12 * count > d.len() {
                None
            } else {
                let re = rs + 12 * count;
                let ss = if storage_offset > re {
                    storage_offset
                } else {
                    re
                };
                if ss > d.len() {
                    None
                } else {
                    Some((rs, ss))
                }
            }
        }
    }
}

/// Whether the record at `base` is structurally valid: a defined platform
/// id, and text bytes that lie inside the table.
pub open spec fn spec_record_valid(d: Seq<u8>, base: int, ss: int) -> bool {
    spec_platform_id(be_u16_at(d, base)) is Some && ss + be_u16_at(d, base + 10) + be_u16_at(
        d,
        base + 8,
    ) <= d.len()
}

/// The raw text bytes of the record at `base`: `length` bytes at `offset`
/// into the string storage.
pub open spec fn spec_record_name_bytes(d: Seq<u8>, base: int, ss: int) -> Seq<u8> {
    d.subrange(
        ss + be_u16_at(d, base + 10),
        ss + be_u16_at(d, base + 10) + be_u16_at(d, base + 8),
    )
}

/// The decoded value of the (valid) record at `base`.
pub open spec fn spec_record_view(d: Seq<u8>, base: int, ss: int) -> NameRecordView {
    let platform = spec_platform_id(be_u16_at(d, base)).unwrap();
    let encoding = be_u16_at(d, base + 2);
    let language = be_u16_at(d, base + 4);
    NameRecordView {
        platform_id: platform,
        language_id: windows_language_tag(
            spec_language_code(platform, encoding, language) as u16,
        ),
        name_id: spec_name_id(be_u16_at(d, base + 6)),
        name: spec_name_text(
            spec_record_name_bytes(d, base, ss),
            spec_is_unicode(platform, encoding),
        ),
    }
}

/// The records from index `i` on, in table order, stopping at the first
/// structurally invalid one.
pub open spec fn spec_records(d: Seq<u8>, rs: int, ss: int, i: int, count: int) -> Seq<
    NameRecordView,
>
    decreases count - i,
{
    if i >= count {
        Seq::<NameRecordView>::empty()
    } else if !spec_record_valid(d, rs + 12 * i, ss) {
        Seq::<NameRecordView>::empty()
    } else {
        seq![spec_record_view(d, rs + 12 * i, ss)] + spec_records(d, rs, ss, i + 1, count)
    }
}

/// The decode of a `name` table slice: `None` when the header is malformed,
/// else the decoded records.
pub open spec fn spec_parse_name(d: Seq<u8>) -> Option<Seq<NameRecordView>> {
    match spec_name_layout(d) {
        None => None,
        Some((rs, ss)) => Some(spec_records(d, rs, ss, 0, be_u16_at(d, 2))),
    }
}

impl Table {
    /// Decodes an optional `name` table.  `None` in, or a malformed header,
    /// degrades to `None`; an absent table is reported by the caller as an
    /// empty record list, never as a failure.
    #[verifier::loop_isolation(false)]
    pub fn new(data: Option<&Vec<u8>>) -> (r: Option<Table>)
        ensures
            match data {
                Some(d) => match spec_parse_name(d@) {
                    Some(s) => r matches Some(t) && t@ == s,
                    None => r is None,
                },
                None => r is None,
            },
    {
        let d = match data {
            Some(d) => d,
            None => {
                return None;
            },
        };
        if d.len() < 6 {
            return None;
        }
        let version = read_u16(d, 0);
        let count = read_u16(d, 2);
        let storage_offset = read_u16(d, 4);
        if version != 0 && version != 1 {
            return None;
        }
        let rs: usize = if version == 0 {
            6
        } else {
            if d.len() < 8 {
                return None;
            }
            let lang_tag_count = read_u16(d, 6);
            if lang_tag_count as usize * 4 > 65535 {
                return None;
            }
            8 + 4 * lang_tag_count as usize
        };
        if count as usize * 12 > d.len() || rs > d.len() - count as usize * 12 {
            return None;
        }
        let re: usize = rs + 12 * count as usize;
        let ss: usize = if storage_offset as usize > re {
            storage_offset as usize
        } else {
            re
        };
        if ss > d.len() {
            return None;
        }
        let ghost total = spec_records(d@, rs as int, ss as int, 0, count as int);
        let mut names: Vec<NameRecord> = Vec::new();
        let mut i: usize = 0;
        while i < count as usize
            invariant
                spec_name_layout(d@) == Some((rs as int, ss as int)),
                count == be_u16_at(d@, 2),
                i <= count,
                rs + 12 * count as usize <= d.len(),
                ss <= d.len(),
                total == spec_records(d@, rs as int, ss as int, 0, count as int),
                total =~= spec_views(names@) + spec_records(
                    d@,
                    rs as int,
                    ss as int,
                    i as int,
                    count as int,
                ),
            decreases count - i,
        {
            let base: usize = rs + 12 * i;
            let platform_raw = read_u16(d, base);
            let platform_opt = if platform_raw == 0 {
                Some(PlatformId::Unicode)
            } else if platform_raw == 1 {
                Some(PlatformId::Macintosh)
            } else if platform_raw == 2 {
                Some(PlatformId::Iso)
            } else if platform_raw == 3 {
                Some(PlatformId::Windows)
            } else if platform_raw == 4 {
                Some(PlatformId::Custom)
            } else {
                None
            };
            let platform = match platform_opt {
                Some(p) => p,
                None => {
                    proof {
                        assert(!spec_record_valid(d@, base as int, ss as int));
                        assert(spec_records(d@, rs as int, ss as int, i as int, count as int)
                            =~= Seq::<NameRecordView>::empty());
                        assert(total =~= spec_views(names@));
                        assert(spec_parse_name(d@) == Some(total));
                    }
                    let t = Table { names };
                    proof {
                        assert(t@ == total);
                    }
                    return Some(t);
                },
            };
            let encoding = read_u16(d, base + 2);
            let language = read_u16(d, base + 4);
            let name_id_raw = read_u16(d, base + 6);
            let length = read_u16(d, base + 8);
            let offset = read_u16(d, base + 10);
            if offset as usize + length as usize > d.len() - ss {
                proof {
                    assert(!spec_record_valid(d@, base as int, ss as int));
                    assert(spec_records(d@, rs as int, ss as int, i as int, count as int)
                        =~= Seq::<NameRecordView>::empty());
                    assert(total =~= spec_views(names@));
                    assert(spec_parse_name(d@) == Some(total));
                }
                let t = Table { names };
                proof {
                    assert(t@ == total);
                }
                return Some(t);
            }
            let name_bytes = copy_range(d, ss + offset as usize, ss + offset as usize
                + length as usize);
            let unicode = match platform {
                PlatformId::Unicode => true,
                PlatformId::Windows => encoding == 0 || encoding == 1,
                _ => false,
            };
            let language_code: u16 = match platform {
                PlatformId::Windows => language,
                PlatformId::Macintosh => if encoding == 0 && language == 0 {
                    0x0409
                } else {
                    0
                },
                _ => 0,
            };
            let record = NameRecord {
                platform_id: platform,
                language_id: windows_language_name(language_code),
                name_id: if name_id_raw == 0 {
                    NameId::CopyrightNotice
                } else if name_id_raw == 1 {
                    NameId::Family
                } else if name_id_raw == 2 {
                    NameId::Subfamily
                } else if name_id_raw == 3 {
                    NameId::UniqueId
                } else if name_id_raw == 4 {
                    NameId::FullName
                } else if name_id_raw == 5 {
                    NameId::Version
                } else if name_id_raw == 6 {
                    NameId::PostScriptName
                } else if name_id_raw == 7 {
                    NameId::Trademark
                } else if name_id_raw == 8 {
                    NameId::Manufacturer
                } else if name_id_raw == 9 {
                    NameId::Designer
                } else if name_id_raw == 10 {
                    NameId::Description
                } else if name_id_raw == 11 {
                    NameId::VendorUrl
                } else if name_id_raw == 12 {
                    NameId::DesignerUrl
                } else if name_id_raw == 13 {
                    NameId::License
                } else if name_id_raw == 14 {
                    NameId::LicenseUrl
                } else if name_id_raw == 16 {
                    NameId::TypographicFamily
                } else if name_id_raw == 17 {
                    NameId::TypographicSubFamily
                } else if name_id_raw == 18 {
                    NameId::CompatibleFull
                } else if name_id_raw == 19 {
                    NameId::SampleText
                } else if name_id_raw == 20 {
                    NameId::PostScriptCID
                } else if name_id_raw == 21 {
                    NameId::WWSFamily
                } else if name_id_raw == 22 {
                    NameId::WWSSubFamily
                } else if name_id_raw == 23 {
                    NameId::LightBackgroundPalette
                } else if name_id_raw == 24 {
                    NameId::DarkBackgroundPalette
                } else if name_id_raw == 25 {
                    NameId::VariationsPostScriptNamePrefix
                } else {
                    NameId::Unknown
                },
                name: decode_name_text(&name_bytes, unicode),
            };
            proof {
                assert(spec_record_valid(d@, base as int, ss as int));
                assert(record@ == spec_record_view(d@, base as int, ss as int));
                assert(spec_records(d@, rs as int, ss as int, i as int, count as int) == seq![
                    spec_record_view(d@, base as int, ss as int),
                ] + spec_records(d@, rs as int, ss as int, i + 1, count as int));
                assert(spec_views(names@.push(record)) =~= spec_views(names@).push(record@));
                assert(spec_views(names@).push(record@) + spec_records(
                    d@,
                    rs as int,
                    ss as int,
                    i + 1,
                    count as int,
                ) =~= spec_views(names@) + (seq![
                    spec_record_view(d@, base as int, ss as int),
                ] + spec_records(d@, rs as int, ss as int, i + 1, count as int)));
            }
            names.push(record);
            i += 1;
        }
        proof {
            assert(spec_records(d@, rs as int, ss as int, i as int, count as int)
                =~= Seq::<NameRecordView>::empty());
            assert(total =~= spec_views(names@));
            assert(spec_parse_name(d@) == Some(total));
        }
        let t = Table { names };
        proof {
            assert(t@ == total);
        }
        Some(t)
    }
}

} // verus!
