//! A static table of common timezones.
//!
//! Several real-world zones share an offset, so a variant carries a combined
//! name such as "BST/CET".  A zone here denotes a fixed offset from UTC, not a
//! politically governed timezone: there is no daylight-saving logic.

use vstd::prelude::*;

use crate::TimeView;
use crate::strings::{
    all_digits, digit_val, digits_val, find_colon, find_colon_in, is_digit, lemma_find_colon,
    lemma_offset_str_round_trip, offset_str_seq, offset_string, parse_i32_or_zero, parse_i32_spec,
    parse_offset_seq, str_equal,
};
use crate::time::Time;

verus! {

/// A list of common timezones, each a fixed offset from UTC.
#[derive(Debug, Copy, Clone, PartialEq, Eq, Hash, Structural)]
pub enum Tz {
    /// Universal Standard Time (+00:00) and Western European Time (+00:00)
    UtcWet,
    /// British Summer Time (+01:00) and Central European Time (+01:00)
    BstCet,
    /// Central European Summer Time (+02:00) and Eastern European Time (+02:00)
    CestEet,
    /// Eastern European Summer Time (+03:00) and Arabian Standard Time (+03:00)
    EestAst,
    /// Indian Standard Time (+05:30)
    Ist,
    /// Japan Standard Time (+09:00) and Korea Standard Time (+09:00)
    JstKst,
    /// China Standard Time (+08:00), Australian Western Standard Time (+08:00),
    /// Singapore Standard Time (+08:00) and Hong Kong Time (+08:00)
    CstAwstSstHkt,
    /// Australian Central Standard Time (+09:30)
    Acst,
    /// Australian Eastern Standard Time (+10:00), Chamorro Standard Time (+10:00)
    AestChst,
    /// Lord Howe Standard Time (+10:30)
    Lwst,
    /// New Zealand Standard Time (+12:00) and Fiji Time (+12:00)
    NzstFjt,
    /// Samoa Standard Time (-11:00)
    Sast,
    /// Hawaii-Aleutian Standard Time (-10:00)
    Hast,
    /// Alaska Standard Time (-09:00)
    Alst,
    /// Pacific Standard Time (-08:00)
    Pst,
    /// Mountain Standard Time (-07:00)
    Mst,
    /// Central Standard Time (-06:00)
    Censt,
    /// Eastern Standard Time (-05:00)
    Est,
    /// Atlantic Standard Time (-04:00) and Chile Time (-04:00)
    AtstClt,
    /// Newfoundland Standard Time (-03:30)
    Nst,
    /// Brazil Time (-03:00), Fernando de Noronha Time (-02:00), Argentina Time
    /// (-03:00) and Uruguay Time (-03:00)
    BtAtArtUyt,
    /// Indochina Time (+07:00) and Western Indonesian Time (+07:00)
    IctWib,
}

impl Default for Tz {
    /// The default timezone is UTC.
    fn default() -> (r: Self)
        ensures
            r == Tz::UtcWet,
    {
        Tz::UtcWet
    }
}

impl Tz {
    /// The offset from UTC, in seconds east, of each variant.
    pub open spec fn spec_offset(self) -> int {
        match self {
            Tz::UtcWet => 0,
            Tz::BstCet => 3600,
            Tz::CestEet => 7200,
            Tz::EestAst => 10800,
            Tz::Ist => 19800,
            Tz::JstKst => 32400,
            Tz::CstAwstSstHkt => 28800,
            Tz::Acst => 34200,
            Tz::AestChst => 36000,
            Tz::Lwst => 37800,
            Tz::NzstFjt => 43200,
            Tz::Sast => -39600,
            Tz::Hast => -36000,
            Tz::Alst => -32400,
            Tz::Pst => -28800,
            Tz::Mst => -25200,
            Tz::Censt => -21600,
            Tz::Est => -18000,
            Tz::AtstClt => -14400,
            Tz::Nst => -12600,
            Tz::BtAtArtUyt => -10800,
            Tz::IctWib => 25200,
        }
    }

    /// Returns the offset in seconds from UTC.
    pub fn offset(&self) -> (r: i32)
        ensures
            r as int == self.spec_offset(),
    {
        match self {
            Tz::UtcWet => 0,
            Tz::BstCet => 3600,
            Tz::CestEet => 7200,
            Tz::EestAst => 10800,
            Tz::Ist => 19800,
            Tz::JstKst => 32400,
            Tz::CstAwstSstHkt => 28800,
            Tz::Acst => 34200,
            Tz::AestChst => 36000,
            Tz::Lwst => 37800,
            Tz::NzstFjt => 43200,
            Tz::Sast => -39600,
            Tz::Hast => -36000,
            Tz::Alst => -32400,
            Tz::Pst => -28800,
            Tz::Mst => -25200,
            Tz::Censt => -21600,
            Tz::Est => -18000,
            Tz::AtstClt => -14400,
            Tz::Nst => -12600,
            Tz::BtAtArtUyt => -10800,
            Tz::IctWib => 25200,
        }
    }

    /// The timezone with the given offset in seconds east of UTC, if the
    /// table has one; `None` otherwise.
    pub open spec fn spec_from_offset(offset: int) -> Option<Tz> {
        if offset == 0 {
            Some(Tz::UtcWet)
        } else if offset == 3600 {
            Some(Tz::BstCet)
        } else if offset == 7200 {
            Some(Tz::CestEet)
        } else if offset == 10800 {
            Some(Tz::EestAst)
        } else if offset == 19800 {
            Some(Tz::Ist)
        } else if offset == 32400 {
            Some(Tz::JstKst)
        } else if offset == 28800 {
            Some(Tz::CstAwstSstHkt)
        } else if offset == 34200 {
            Some(Tz::Acst)
        } else if offset == 36000 {
            Some(Tz::AestChst)
        } else if offset == 37800 {
            Some(Tz::Lwst)
        } else if offset == 43200 {
            Some(Tz::NzstFjt)
        } else if offset == -39600 {
            Some(Tz::Sast)
        } else if offset == -36000 {
            Some(Tz::Hast)
        } else if offset == -32400 {
            Some(Tz::Alst)
        } else if offset == -28800 {
            Some(Tz::Pst)
        } else if offset == -25200 {
            Some(Tz::Mst)
        } else if offset == -21600 {
            Some(Tz::Censt)
        } else if offset == -18000 {
            Some(Tz::Est)
        } else if offset == -14400 {
            Some(Tz::AtstClt)
        } else if offset == -12600 {
            Some(Tz::Nst)
        } else if offset == -10800 {
            Some(Tz::BtAtArtUyt)
        } else if offset == 25200 {
            Some(Tz::IctWib)
        } else {
            None
        }
    }

    /// Returns the timezone from the offset, or `None` when no variant has
    /// that offset.
    pub fn from_offset(offset: i32) -> (r: Option<Self>)
        ensures
            r == Tz::spec_from_offset(offset as int),
    {
        match offset {
            0 => Some(Tz::UtcWet),
            3600 => Some(Tz::BstCet),
            7200 => Some(Tz::CestEet),
            10800 => Some(Tz::EestAst),
            19800 => Some(Tz::Ist),
            32400 => Some(Tz::JstKst),
            28800 => Some(Tz::CstAwstSstHkt),
            34200 => Some(Tz::Acst),
            36000 => Some(Tz::AestChst),
            37800 => Some(Tz::Lwst),
            43200 => Some(Tz::NzstFjt),
            -39600 => Some(Tz::Sast),
            -36000 => Some(Tz::Hast),
            -32400 => Some(Tz::Alst),
            -28800 => Some(Tz::Pst),
            -25200 => Some(Tz::Mst),
            -21600 => Some(Tz::Censt),
            -18000 => Some(Tz::Est),
            -14400 => Some(Tz::AtstClt),
            -12600 => Some(Tz::Nst),
            -10800 => Some(Tz::BtAtArtUyt),
            25200 => Some(Tz::IctWib),
            _ => None,
        }
    }

    /// Every offset in the table is a whole number of minutes below one day.
    pub proof fn lemma_offset_in_table(self)
        ensures
            -86400 < self.spec_offset() < 86400,
            self.spec_offset() % 60 == 0,
    {
    }

    /// Returns the offset in seconds from UTC as a `"+HH:MM"` string.
    pub fn offset_str(&self) -> (r: String)
        ensures
            r@ == offset_str_seq(self.spec_offset()),
    {
        proof {
            self.lemma_offset_in_table();
        }
        offset_string(self.offset())
    }

    /// The combined name of each timezone variant.
    pub open spec fn spec_name(self) -> Seq<char> {
        match self {
            Tz::UtcWet => "UTC/WET"@,
            Tz::BstCet => "BST/CET"@,
            Tz::CestEet => "CEST/EET"@,
            Tz::EestAst => "EEST/AST"@,
            Tz::Ist => "IST"@,
            Tz::JstKst => "JST/KST"@,
            Tz::CstAwstSstHkt => "CST/AWST/SST/HKT"@,
            Tz::Acst => "ACST"@,
            Tz::AestChst => "AEST/CHST"@,
            Tz::Lwst => "LWST"@,
            Tz::NzstFjt => "NZST/FJT"@,
            Tz::Sast => "SAST"@,
            Tz::Hast => "HAST"@,
            Tz::Alst => "ALST"@,
            Tz::Pst => "PST"@,
            Tz::Mst => "MST"@,
            Tz::Censt => "CENST"@,
            Tz::Est => "EST"@,
            Tz::AtstClt => "ATST/CLT"@,
            Tz::Nst => "NST"@,
            Tz::BtAtArtUyt => "BT/AT"@,
            Tz::IctWib => "ICT/WIB"@,
        }
    }

    /// Returns the name of the timezone.
    pub fn name(&self) -> (r: String)
        ensures
            r@ == self.spec_name(),
    {
        match self {
            Tz::UtcWet => String::from_str("UTC/WET"),
            Tz::BstCet => String::from_str("BST/CET"),
            Tz::CestEet => String::from_str("CEST/EET"),
            Tz::EestAst => String::from_str("EEST/AST"),
            Tz::Ist => String::from_str("IST"),
            Tz::JstKst => String::from_str("JST/KST"),
            Tz::CstAwstSstHkt => String::from_str("CST/AWST/SST/HKT"),
            Tz::Acst => String::from_str("ACST"),
            Tz::AestChst => String::from_str("AEST/CHST"),
            Tz::Lwst => String::from_str("LWST"),
            Tz::NzstFjt => String::from_str("NZST/FJT"),
            Tz::Sast => String::from_str("SAST"),
            Tz::Hast => String::from_str("HAST"),
            Tz::Alst => String::from_str("ALST"),
            Tz::Pst => String::from_str("PST"),
            Tz::Mst => String::from_str("MST"),
            Tz::Censt => String::from_str("CENST"),
            Tz::Est => String::from_str("EST"),
            Tz::AtstClt => String::from_str("ATST/CLT"),
            Tz::Nst => String::from_str("NST"),
            Tz::BtAtArtUyt => String::from_str("BT/AT"),
            Tz::IctWib => String::from_str("ICT/WIB"),
        }
    }

    /// The timezone a combined name denotes, if the table has it.
    pub open spec fn spec_from_name(name: Seq<char>) -> Option<Tz> {
        if name == "UTC/WET"@ {
            Some(Tz::UtcWet)
        } else if name == "BST/CET"@ {
            Some(Tz::BstCet)
        } else if name == "CEST/EET"@ {
            Some(Tz::CestEet)
        } else if name == "EEST/AST"@ {
            Some(Tz::EestAst)
        } else if name == "IST"@ {
            Some(Tz::Ist)
        } else if name == "JST/KST"@ {
            Some(Tz::JstKst)
        } else if name == "CST/AWST/SST/HKT"@ {
            Some(Tz::CstAwstSstHkt)
        } else if name == "ACST"@ {
            Some(Tz::Acst)
        } else if name == "AEST/CHST"@ {
            Some(Tz::AestChst)
        } else if name == "LWST"@ {
            Some(Tz::Lwst)
        } else if name == "NZST/FJT"@ {
            Some(Tz::NzstFjt)
        } else if name == "SAST"@ {
            Some(Tz::Sast)
        } else if name == "HAST"@ {
            Some(Tz::Hast)
        } else if name == "ALST"@ {
            Some(Tz::Alst)
        } else if name == "PST"@ {
            Some(Tz::Pst)
        } else if name == "MST"@ {
            Some(Tz::Mst)
        } else if name == "CENST"@ {
            Some(Tz::Censt)
        } else if name == "EST"@ {
            Some(Tz::Est)
        } else if name == "ATST/CLT"@ {
            Some(Tz::AtstClt)
        } else if name == "NST"@ {
            Some(Tz::Nst)
        } else if name == "BT/AT"@ {
            Some(Tz::BtAtArtUyt)
        } else if name == "ICT/WIB"@ {
            Some(Tz::IctWib)
        } else {
            None
        }
    }

    /// Returns the timezone from the name, or `None` when the table has no
    /// zone of that name.
    pub fn from_name(name: &str) -> (r: Option<Self>)
        ensures
            r == Tz::spec_from_name(name@),
    {
        if str_equal(name, "UTC/WET") {
            Some(Tz::UtcWet)
        } else if str_equal(name, "BST/CET") {
            Some(Tz::BstCet)
        } else if str_equal(name, "CEST/EET") {
            Some(Tz::CestEet)
        } else if str_equal(name, "EEST/AST") {
            Some(Tz::EestAst)
        } else if str_equal(name, "IST") {
            Some(Tz::Ist)
        } else if str_equal(name, "JST/KST") {
            Some(Tz::JstKst)
        } else if str_equal(name, "CST/AWST/SST/HKT") {
            Some(Tz::CstAwstSstHkt)
        } else if str_equal(name, "ACST") {
            Some(Tz::Acst)
        } else if str_equal(name, "AEST/CHST") {
            Some(Tz::AestChst)
        } else if str_equal(name, "LWST") {
            Some(Tz::Lwst)
        } else if str_equal(name, "NZST/FJT") {
            Some(Tz::NzstFjt)
        } else if str_equal(name, "SAST") {
            Some(Tz::Sast)
        } else if str_equal(name, "HAST") {
            Some(Tz::Hast)
        } else if str_equal(name, "ALST") {
            Some(Tz::Alst)
        } else if str_equal(name, "PST") {
            Some(Tz::Pst)
        } else if str_equal(name, "MST") {
            Some(Tz::Mst)
        } else if str_equal(name, "CENST") {
            Some(Tz::Censt)
        } else if str_equal(name, "EST") {
            Some(Tz::Est)
        } else if str_equal(name, "ATST/CLT") {
            Some(Tz::AtstClt)
        } else if str_equal(name, "NST") {
            Some(Tz::Nst)
        } else if str_equal(name, "BT/AT") {
            Some(Tz::BtAtArtUyt)
        } else if str_equal(name, "ICT/WIB") {
            Some(Tz::IctWib)
        } else {
            None
        }
    }

    /// The text before the first colon of an offset string.
    pub open spec fn spec_first_segment(s: Seq<char>) -> Seq<char> {
        s.subrange(0, find_colon(s))
    }

    /// The text between the first colon and the next colon or the end.
    pub open spec fn spec_second_segment(s: Seq<char>) -> Seq<char> {
        let rest = s.subrange(find_colon(s) + 1, s.len() as int);
        if find_colon(rest) == -1 {
            rest
        } else {
            rest.subrange(0, find_colon(rest))
        }
    }

    /// The offset a `"±HH:MM"`-style string denotes: the two colon-separated
    /// segments read as integers (zero for an unreadable segment) give hours
    /// and minutes, and a leading minus sign negates the whole offset, hours
    /// and minutes together.
    pub open spec fn spec_offset_str_value(s: Seq<char>) -> int {
        let h = parse_i32_spec(Tz::spec_first_segment(s));
        let mag = (if h < 0 {
            -h
        } else {
            h
        }) * 3600 + parse_i32_spec(Tz::spec_second_segment(s)) * 60;
        if s.len() > 0 && s[0] == '-' {
            -mag
        } else {
            mag
        }
    }

    /// The inputs `from_offset_str` accepts: the string has a colon, and the
    /// offset it denotes fits the 32-bit offset type.
    pub open spec fn spec_offset_str_arg_ok(s: Seq<char>) -> bool {
        &&& find_colon(s) >= 0
        &&& i32::MIN <= Tz::spec_offset_str_value(s) <= i32::MAX
    }

    /// Returns the timezone whose offset a `"±HH:MM"`-style string denotes,
    /// or `None` when the table has no zone with that offset.  A string
    /// without a colon, or one whose offset overflows the 32-bit offset type,
    /// is left out by the precondition; passing one anyway is a fatal error.
    pub fn from_offset_str(offset: &str) -> (r: Option<Self>)
        requires
            Tz::spec_offset_str_arg_ok(offset@),
        ensures
            r == Tz::spec_from_offset(Tz::spec_offset_str_value(offset@)),
    {
        let len = offset.unicode_len();
        let fc = match find_colon_in(offset) {
            Some(fc) => fc,
            None => {
                return vstd::pervasive::unreached();
            },
        };
        proof {
            crate::strings::lemma_find_colon(offset@);
        }
        let seg1 = offset.substring_char(0, fc);
        let rest = offset.substring_char(fc + 1, len);
        let seg2 = match find_colon_in(rest) {
            Some(fc2) => {
                proof {
                    crate::strings::lemma_find_colon(rest@);
                }
                rest.substring_char(0, fc2)
            },
            None => rest,
        };
        let v1: i64 = parse_i32_or_zero(seg1) as i64;
        let v2: i64 = parse_i32_or_zero(seg2) as i64;
        let hmag: i64 = if v1 < 0 {
            -v1
        } else {
            v1
        };
        let mag: i64 = hmag * 3600 + v2 * 60;
        let value: i64 = if offset.get_char(0) == '-' {
            -mag
        } else {
            mag
        };
        Tz::from_offset(value as i32)
    }

    /// Looking a zone's own offset string back up yields that zone: the
    /// offset-string lookup inverts the offset-string rendering, for every
    /// zone of the table.
    pub proof fn lemma_offset_str_lookup(t: Tz)
        ensures
            Tz::spec_offset_str_arg_ok(offset_str_seq(t.spec_offset())),
            Tz::spec_offset_str_value(offset_str_seq(t.spec_offset())) == t.spec_offset(),
            Tz::spec_from_offset(Tz::spec_offset_str_value(offset_str_seq(t.spec_offset())))
                == Some(t),
    {
        broadcast use vstd::seq::group_seq_axioms;

        let off = t.spec_offset();
        t.lemma_offset_in_table();
        lemma_offset_str_round_trip(off);
        let s = offset_str_seq(off);
        lemma_find_colon(s);
        assert(s.len() == 6 && s[3] == ':');
        assert(forall|k: int| 0 <= k < 3 ==> s[k] != ':') by {
            assert(is_digit(s[1]) && is_digit(s[2]));
        };
        assert(find_colon(s) == 3) by {
            if find_colon(s) == -1 {
                assert(s[3] != ':');
            }
            if 0 <= find_colon(s) < 3 {
                assert(s[find_colon(s)] == ':');
            }
            if find_colon(s) > 3 {
                assert(s[3] != ':');
            }
        };
        let hval = digit_val(s[1]) * 10 + digit_val(s[2]);
        let mval = digit_val(s[4]) * 10 + digit_val(s[5]);
        let seg1 = Tz::spec_first_segment(s);
        assert(parse_i32_spec(seg1) == if s[0] == '-' {
            -hval
        } else {
            hval
        }) by {
            let body = seg1.subrange(1, 3);
            assert(body.len() == 2 && body[0] == s[1] && body[1] == s[2]);
            assert(all_digits(body));
            assert(body.drop_last() =~= seq![s[1]]);
            assert(seq![s[1]].drop_last() =~= Seq::<char>::empty());
            assert(digits_val(Seq::<char>::empty()) == 0);
            assert(seq![s[1]].last() == s[1]);
            assert(digits_val(seq![s[1]]) == digit_val(s[1]));
            assert(digits_val(body) == digit_val(s[1]) * 10 + digit_val(s[2]));
        };
        let rest = s.subrange(4, 6);
        lemma_find_colon(rest);
        assert(find_colon(rest) == -1) by {
            assert(rest[0] == s[4] && rest[1] == s[5]);
            assert(is_digit(s[4]) && is_digit(s[5]));
            if find_colon(rest) >= 0 {
                assert(rest[find_colon(rest)] == ':');
            }
        };
        let seg2 = Tz::spec_second_segment(s);
        assert(seg2 =~= rest);
        assert(parse_i32_spec(seg2) == mval) by {
            assert(seg2[0] == s[4] && seg2[1] == s[5]);
            assert(seg2[0] != '+' && seg2[0] != '-') by {
                assert(is_digit(s[4]));
            };
            assert(all_digits(seg2));
            assert(seg2.drop_last() =~= seq![s[4]]);
            assert(seq![s[4]].drop_last() =~= Seq::<char>::empty());
            assert(digits_val(Seq::<char>::empty()) == 0);
            assert(seq![s[4]].last() == s[4]);
            assert(digits_val(seq![s[4]]) == digit_val(s[4]));
            assert(digits_val(seg2) == digit_val(s[4]) * 10 + digit_val(s[5]));
        };
        assert(Tz::spec_offset_str_value(s) == parse_offset_seq(s));
        assert(Tz::spec_from_offset(off) == Some(t));
    }

    /// Retags the provided time value with this timezone's offset: the raw
    /// instant is unchanged and the display offset becomes this zone's.
    pub fn offset_struct<T: Time>(&self, time: T) -> (r: T)
        requires
            time.tv().wf(),
        ensures
            r.tv() == (TimeView { offset: self.spec_offset(), ..time.tv() }),
            r.tv().wf(),
    {
        proof {
            self.lemma_offset_in_table();
            lemma_offset_str_round_trip(self.spec_offset());
        }
        let s = self.offset_str();
        time.change_tz(s.as_str())
    }
}

} // verus!
