//! The kind of media a stream, a filter or a graph endpoint carries.

use vstd::prelude::*;
use vstd::arithmetic::power2::{lemma2_to64, pow2};

verus! {

/// Media kind of a stream or filter, numbered as FFmpeg's `AVMEDIA_TYPE_*`.
#[derive(Debug, Copy, Clone, PartialEq, Eq, Structural, Hash)]
#[allow(non_camel_case_types)]
pub enum MediaType {
    UNKNOWN,
    VIDEO,
    AUDIO,
    DATA,
    SUBTITLE,
    ATTACHMENT,
}

/// FFmpeg's number for a media kind (`AVMEDIA_TYPE_UNKNOWN` is -1, video 0, ...).
pub open spec fn media_type_code(m: MediaType) -> int {
    match m {
        MediaType::UNKNOWN => -1,
        MediaType::VIDEO => 0,
        MediaType::AUDIO => 1,
        MediaType::DATA => 2,
        MediaType::SUBTITLE => 3,
        MediaType::ATTACHMENT => 4,
    }
}

/// The variant name, as `{:?}` prints it.
pub open spec fn media_type_debug(m: MediaType) -> Seq<char> {
    match m {
        MediaType::UNKNOWN => seq!['U', 'N', 'K', 'N', 'O', 'W', 'N'],
        MediaType::VIDEO => seq!['V', 'I', 'D', 'E', 'O'],
        MediaType::AUDIO => seq!['A', 'U', 'D', 'I', 'O'],
        MediaType::DATA => seq!['D', 'A', 'T', 'A'],
        MediaType::SUBTITLE => seq!['S', 'U', 'B', 'T', 'I', 'T', 'L', 'E'],
        MediaType::ATTACHMENT => seq!['A', 'T', 'T', 'A', 'C', 'H', 'M', 'E', 'N', 'T'],
    }
}

/// FFmpeg's lower-case name of a media kind (`av_get_media_type_string`),
/// `"Unknown"` where FFmpeg has none.
pub open spec fn media_type_string(m: MediaType) -> Seq<char> {
    match m {
        MediaType::UNKNOWN => seq!['U', 'n', 'k', 'n', 'o', 'w', 'n'],
        MediaType::VIDEO => seq!['v', 'i', 'd', 'e', 'o'],
        MediaType::AUDIO => seq!['a', 'u', 'd', 'i', 'o'],
        MediaType::DATA => seq!['d', 'a', 't', 'a'],
        MediaType::SUBTITLE => seq!['s', 'u', 'b', 't', 'i', 't', 'l', 'e'],
        MediaType::ATTACHMENT => seq!['a', 't', 't', 'a', 'c', 'h', 'm', 'e', 'n', 't'],
    }
}

impl MediaType {
    /// FFmpeg's number for this media kind.
    pub fn raw(&self) -> (r: i32)
        ensures
            r == media_type_code(*self),
    {
        match self {
            MediaType::UNKNOWN => -1,
            MediaType::VIDEO => 0,
            MediaType::AUDIO => 1,
            MediaType::DATA => 2,
            MediaType::SUBTITLE => 3,
            MediaType::ATTACHMENT => 4,
        }
    }

    /// The media kind FFmpeg numbers `raw`, or `None` for a number it does not use.
    pub fn from_raw(raw: i32) -> (r: Option<MediaType>)
        ensures
            r matches Some(m) ==> media_type_code(m) == raw,
            r is None <==> (raw < -1 || raw > 4),
    {
        if raw == -1 {
            Some(MediaType::UNKNOWN)
        } else if raw == 0 {
            Some(MediaType::VIDEO)
        } else if raw == 1 {
            Some(MediaType::AUDIO)
        } else if raw == 2 {
            Some(MediaType::DATA)
        } else if raw == 3 {
            Some(MediaType::SUBTITLE)
        } else if raw == 4 {
            Some(MediaType::ATTACHMENT)
        } else {
            None
        }
    }

    /// FFmpeg's lower-case name of this media kind (`"video"`, `"audio"`, ...),
    /// `"Unknown"` for [`MediaType::UNKNOWN`].
    pub fn get_media_type_string(&self) -> (s: String)
        ensures
            s@ == media_type_string(*self),
    {
        let t: &str = match self {
            MediaType::UNKNOWN => "Unknown",
            MediaType::VIDEO => "video",
            MediaType::AUDIO => "audio",
            MediaType::DATA => "data",
            MediaType::SUBTITLE => "subtitle",
            MediaType::ATTACHMENT => "attachment",
        };
        proof {
            reveal_strlit("Unknown");
            reveal_strlit("video");
            reveal_strlit("audio");
            reveal_strlit("data");
            reveal_strlit("subtitle");
            reveal_strlit("attachment");
        }
        t.to_string()
    }

    /// The variant name, as `{:?}` prints it (`"VIDEO"`, `"AUDIO"`, ...).
    pub fn debug_name(&self) -> (s: String)
        ensures
            s@ == media_type_debug(*self),
    {
        let t: &str = match self {
            MediaType::UNKNOWN => "UNKNOWN",
            MediaType::VIDEO => "VIDEO",
            MediaType::AUDIO => "AUDIO",
            MediaType::DATA => "DATA",
            MediaType::SUBTITLE => "SUBTITLE",
            MediaType::ATTACHMENT => "ATTACHMENT",
        };
        proof {
            reveal_strlit("UNKNOWN");
            reveal_strlit("VIDEO");
            reveal_strlit("AUDIO");
            reveal_strlit("DATA");
            reveal_strlit("SUBTITLE");
            reveal_strlit("ATTACHMENT");
        }
        t.to_string()
    }
}

/// Two media kinds with the same FFmpeg number are the same kind, so
/// reading a kind back from its number gives the kind.
pub proof fn law_media_type_code_injective(m: MediaType, n: MediaType)
    ensures
        media_type_code(m) == media_type_code(n) ==> m == n,
        -1 <= media_type_code(m) <= 4,
{
}

/// Flags of a compressed packet (`AV_PKT_FLAG_*`).
#[derive(Debug, Copy, Clone, PartialEq, Eq, Structural, Hash)]
#[allow(non_camel_case_types)]
pub enum AvPacketFlags {
    KEY,
    CORRUPT,
    DISCARD,
    TRUSTED,
    DISPOSABLE,
}

/// FFmpeg's bit for each flag.
pub open spec fn packet_flag_bits(f: AvPacketFlags) -> u32 {
    match f {
        AvPacketFlags::KEY => 1,
        AvPacketFlags::CORRUPT => 2,
        AvPacketFlags::DISCARD => 4,
        AvPacketFlags::TRUSTED => 8,
        AvPacketFlags::DISPOSABLE => 16,
    }
}

impl AvPacketFlags {
    /// FFmpeg's bit for this flag, to be or-ed into a flags word.
    pub fn bits(&self) -> (b: u32)
        ensures
            b == packet_flag_bits(*self),
    {
        match self {
            AvPacketFlags::KEY => 1,
            AvPacketFlags::CORRUPT => 2,
            AvPacketFlags::DISCARD => 4,
            AvPacketFlags::TRUSTED => 8,
            AvPacketFlags::DISPOSABLE => 16,
        }
    }
}

/// Each flag is one bit of a 32-bit flags word, and distinct flags are
/// distinct bits, so flags can be or-ed together and tested apart.
pub proof fn law_packet_flags_disjoint(f: AvPacketFlags, g: AvPacketFlags)
    ensures
        exists|k: nat| k < 32 && #[trigger] pow2(k) == packet_flag_bits(f),
        f != g ==> packet_flag_bits(f) != packet_flag_bits(g),
{
    lemma2_to64();
}

/// Flags of a codec context (`AV_CODEC_FLAG_*`).
#[derive(Debug, Copy, Clone, PartialEq, Eq, Structural, Hash)]
#[allow(non_camel_case_types)]
pub enum AvCodecFlags {
    UNALIGNED,
    QSCALE,
    _4MV,
    OUTPUT_CORRUPT,
    QPEL,
    PASS1,
    PASS2,
    GRAY,
    PSNR,
    INTERLACED_DCT,
    LOW_DELAY,
    GLOBAL_HEADER,
    BITEXACT,
    AC_PRED,
    LOOP_FILTER,
    INTERLACED_ME,
    CLOSED_GOP,
}

/// FFmpeg's bit for each flag.
pub open spec fn codec_flag_bits(f: AvCodecFlags) -> u32 {
    match f {
        AvCodecFlags::UNALIGNED => 1,
        AvCodecFlags::QSCALE => 2,
        AvCodecFlags::_4MV => 4,
        AvCodecFlags::OUTPUT_CORRUPT => 8,
        AvCodecFlags::QPEL => 16,
        AvCodecFlags::PASS1 => 512,
        AvCodecFlags::PASS2 => 1024,
        AvCodecFlags::GRAY => 8192,
        AvCodecFlags::PSNR => 32768,
        AvCodecFlags::INTERLACED_DCT => 262144,
        AvCodecFlags::LOW_DELAY => 524288,
        AvCodecFlags::GLOBAL_HEADER => 4194304,
        AvCodecFlags::BITEXACT => 8388608,
        AvCodecFlags::AC_PRED => 16777216,
        AvCodecFlags::LOOP_FILTER => 2048,
        AvCodecFlags::INTERLACED_ME => 536870912,
        AvCodecFlags::CLOSED_GOP => 2147483648,
    }
}

impl AvCodecFlags {
    /// FFmpeg's bit for this flag, to be or-ed into a flags word.
    pub fn bits(&self) -> (b: u32)
        ensures
            b == codec_flag_bits(*self),
    {
        match self {
            AvCodecFlags::UNALIGNED => 1,
            AvCodecFlags::QSCALE => 2,
            AvCodecFlags::_4MV => 4,
            AvCodecFlags::OUTPUT_CORRUPT => 8,
            AvCodecFlags::QPEL => 16,
            AvCodecFlags::PASS1 => 512,
            AvCodecFlags::PASS2 => 1024,
            AvCodecFlags::GRAY => 8192,
            AvCodecFlags::PSNR => 32768,
            AvCodecFlags::INTERLACED_DCT => 262144,
            AvCodecFlags::LOW_DELAY => 524288,
            AvCodecFlags::GLOBAL_HEADER => 4194304,
            AvCodecFlags::BITEXACT => 8388608,
            AvCodecFlags::AC_PRED => 16777216,
            AvCodecFlags::LOOP_FILTER => 2048,
            AvCodecFlags::INTERLACED_ME => 536870912,
            AvCodecFlags::CLOSED_GOP => 2147483648,
        }
    }
}

/// Each flag is one bit of a 32-bit flags word, and distinct flags are
/// distinct bits, so flags can be or-ed together and tested apart.
pub proof fn law_codec_flags_disjoint(f: AvCodecFlags, g: AvCodecFlags)
    ensures
        exists|k: nat| k < 32 && #[trigger] pow2(k) == codec_flag_bits(f),
        f != g ==> codec_flag_bits(f) != codec_flag_bits(g),
{
    lemma2_to64();
}

/// Flags of a container format (`AVFMT_*`).
#[derive(Debug, Copy, Clone, PartialEq, Eq, Structural, Hash)]
#[allow(non_camel_case_types)]
pub enum AvFormatFlags {
    NO_FILE,
    NEED_NUMBER,
    SHOW_IDS,
    GLOBAL_HEADER,
    NO_TIMESTAMPS,
    GENERIC_INDEX,
    TS_DISCONT,
    VARIABLE_FPS,
    NO_DIMENSIONS,
    NO_STREAMS,
    NO_BINSEARCH,
    NO_GENSEARCH,
    NO_BYTE_SEEK,
    TS_NONSTRICT,
    TS_NEGATIVE,
    SEEK_TO_PTS,
}

/// FFmpeg's bit for each flag.
pub open spec fn format_flag_bits(f: AvFormatFlags) -> u32 {
    match f {
        AvFormatFlags::NO_FILE => 1,
        AvFormatFlags::NEED_NUMBER => 2,
        AvFormatFlags::SHOW_IDS => 8,
        AvFormatFlags::GLOBAL_HEADER => 64,
        AvFormatFlags::NO_TIMESTAMPS => 128,
        AvFormatFlags::GENERIC_INDEX => 256,
        AvFormatFlags::TS_DISCONT => 512,
        AvFormatFlags::VARIABLE_FPS => 1024,
        AvFormatFlags::NO_DIMENSIONS => 2048,
        AvFormatFlags::NO_STREAMS => 4096,
        AvFormatFlags::NO_BINSEARCH => 8192,
        AvFormatFlags::NO_GENSEARCH => 16384,
        AvFormatFlags::NO_BYTE_SEEK => 32768,
        AvFormatFlags::TS_NONSTRICT => 131072,
        AvFormatFlags::TS_NEGATIVE => 262144,
        AvFormatFlags::SEEK_TO_PTS => 67108864,
    }
}

impl AvFormatFlags {
    /// FFmpeg's bit for this flag, to be or-ed into a flags word.
    pub fn bits(&self) -> (b: u32)
        ensures
            b == format_flag_bits(*self),
    {
        match self {
            AvFormatFlags::NO_FILE => 1,
            AvFormatFlags::NEED_NUMBER => 2,
            AvFormatFlags::SHOW_IDS => 8,
            AvFormatFlags::GLOBAL_HEADER => 64,
            AvFormatFlags::NO_TIMESTAMPS => 128,
            AvFormatFlags::GENERIC_INDEX => 256,
            AvFormatFlags::TS_DISCONT => 512,
            AvFormatFlags::VARIABLE_FPS => 1024,
            AvFormatFlags::NO_DIMENSIONS => 2048,
            AvFormatFlags::NO_STREAMS => 4096,
            AvFormatFlags::NO_BINSEARCH => 8192,
            AvFormatFlags::NO_GENSEARCH => 16384,
            AvFormatFlags::NO_BYTE_SEEK => 32768,
            AvFormatFlags::TS_NONSTRICT => 131072,
            AvFormatFlags::TS_NEGATIVE => 262144,
            AvFormatFlags::SEEK_TO_PTS => 67108864,
        }
    }
}

/// Each flag is one bit of a 32-bit flags word, and distinct flags are
/// distinct bits, so flags can be or-ed together and tested apart.
pub proof fn law_format_flags_disjoint(f: AvFormatFlags, g: AvFormatFlags)
    ensures
        exists|k: nat| k < 32 && #[trigger] pow2(k) == format_flag_bits(f),
        f != g ==> format_flag_bits(f) != format_flag_bits(g),
{
    lemma2_to64();
}

/// Dispositions of a stream (`AV_DISPOSITION_*`).
#[derive(Debug, Copy, Clone, PartialEq, Eq, Structural, Hash)]
#[allow(non_camel_case_types)]
pub enum AvDispositionFlags {
    DEFAULT,
    DUB,
    ORIGINAL,
    COMMENT,
    LYRICS,
    KARAOKE,
    FORCED,
    HEARING_IMPAIRED,
    VISUAL_IMPAIRED,
    CLEAN_EFFECTS,
    ATTACHED_PIC,
    CAPTIONS,
    DESCRIPTIONS,
    METADATA,
    MULTILAYER,
}

/// FFmpeg's bit for each flag.
pub open spec fn disposition_flag_bits(f: AvDispositionFlags) -> u32 {
    match f {
        AvDispositionFlags::DEFAULT => 1,
        AvDispositionFlags::DUB => 2,
        AvDispositionFlags::ORIGINAL => 4,
        AvDispositionFlags::COMMENT => 8,
        AvDispositionFlags::LYRICS => 16,
        AvDispositionFlags::KARAOKE => 32,
        AvDispositionFlags::FORCED => 64,
        AvDispositionFlags::HEARING_IMPAIRED => 128,
        AvDispositionFlags::VISUAL_IMPAIRED => 256,
        AvDispositionFlags::CLEAN_EFFECTS => 512,
        AvDispositionFlags::ATTACHED_PIC => 1024,
        AvDispositionFlags::CAPTIONS => 65536,
        AvDispositionFlags::DESCRIPTIONS => 131072,
        AvDispositionFlags::METADATA => 262144,
        AvDispositionFlags::MULTILAYER => 2097152,
    }
}

impl AvDispositionFlags {
    /// FFmpeg's bit for this flag, to be or-ed into a flags word.
    pub fn bits(&self) -> (b: u32)
        ensures
            b == disposition_flag_bits(*self),
    {
        match self {
            AvDispositionFlags::DEFAULT => 1,
            AvDispositionFlags::DUB => 2,
            AvDispositionFlags::ORIGINAL => 4,
            AvDispositionFlags::COMMENT => 8,
            AvDispositionFlags::LYRICS => 16,
            AvDispositionFlags::KARAOKE => 32,
            AvDispositionFlags::FORCED => 64,
            AvDispositionFlags::HEARING_IMPAIRED => 128,
            AvDispositionFlags::VISUAL_IMPAIRED => 256,
            AvDispositionFlags::CLEAN_EFFECTS => 512,
            AvDispositionFlags::ATTACHED_PIC => 1024,
            AvDispositionFlags::CAPTIONS => 65536,
            AvDispositionFlags::DESCRIPTIONS => 131072,
            AvDispositionFlags::METADATA => 262144,
            AvDispositionFlags::MULTILAYER => 2097152,
        }
    }
}

/// Each flag is one bit of a 32-bit flags word, and distinct flags are
/// distinct bits, so flags can be or-ed together and tested apart.
pub proof fn law_disposition_flags_disjoint(f: AvDispositionFlags, g: AvDispositionFlags)
    ensures
        exists|k: nat| k < 32 && #[trigger] pow2(k) == disposition_flag_bits(f),
        f != g ==> disposition_flag_bits(f) != disposition_flag_bits(g),
{
    lemma2_to64();
}

/// FFmpeg numbers the media kinds unknown -1, video 0, audio 1, data 2,
/// subtitle 3, attachment 4, and puts each flag at its own bit: packet flags
/// at bits 0 to 4; codec flags at bits 0 to 4, 9, 10, 13, 15, 18, 19, 22,
/// 23, 24, 11, 29 and 31 in the order declared; format flags at bits 0, 1,
/// 3, 6 to 15, 17, 18 and 26; dispositions at bits 0 to 10, 16, 17, 18 and
/// 21.
pub proof fn law_ffmpeg_numbering(m: MediaType, p: AvPacketFlags, c: AvCodecFlags, f: AvFormatFlags, d: AvDispositionFlags)
    ensures
        media_type_code(m) == match m {
            MediaType::UNKNOWN => -1int,
            MediaType::VIDEO => 0,
            MediaType::AUDIO => 1,
            MediaType::DATA => 2,
            MediaType::SUBTITLE => 3,
            MediaType::ATTACHMENT => 4,
        },
        packet_flag_bits(p) == pow2(match p {
            AvPacketFlags::KEY => 0nat,
            AvPacketFlags::CORRUPT => 1,
            AvPacketFlags::DISCARD => 2,
            AvPacketFlags::TRUSTED => 3,
            AvPacketFlags::DISPOSABLE => 4,
        }),
        codec_flag_bits(c) == pow2(match c {
            AvCodecFlags::UNALIGNED => 0nat,
            AvCodecFlags::QSCALE => 1,
            AvCodecFlags::_4MV => 2,
            AvCodecFlags::OUTPUT_CORRUPT => 3,
            AvCodecFlags::QPEL => 4,
            AvCodecFlags::PASS1 => 9,
            AvCodecFlags::PASS2 => 10,
            AvCodecFlags::GRAY => 13,
            AvCodecFlags::PSNR => 15,
            AvCodecFlags::INTERLACED_DCT => 18,
            AvCodecFlags::LOW_DELAY => 19,
            AvCodecFlags::GLOBAL_HEADER => 22,
            AvCodecFlags::BITEXACT => 23,
            AvCodecFlags::AC_PRED => 24,
            AvCodecFlags::LOOP_FILTER => 11,
            AvCodecFlags::INTERLACED_ME => 29,
            AvCodecFlags::CLOSED_GOP => 31,
        }),
        format_flag_bits(f) == pow2(match f {
            AvFormatFlags::NO_FILE => 0nat,
            AvFormatFlags::NEED_NUMBER => 1,
            AvFormatFlags::SHOW_IDS => 3,
            AvFormatFlags::GLOBAL_HEADER => 6,
            AvFormatFlags::NO_TIMESTAMPS => 7,
            AvFormatFlags::GENERIC_INDEX => 8,
            AvFormatFlags::TS_DISCONT => 9,
            AvFormatFlags::VARIABLE_FPS => 10,
            AvFormatFlags::NO_DIMENSIONS => 11,
            AvFormatFlags::NO_STREAMS => 12,
            AvFormatFlags::NO_BINSEARCH => 13,
            AvFormatFlags::NO_GENSEARCH => 14,
            AvFormatFlags::NO_BYTE_SEEK => 15,
            AvFormatFlags::TS_NONSTRICT => 17,
            AvFormatFlags::TS_NEGATIVE => 18,
            AvFormatFlags::SEEK_TO_PTS => 26,
        }),
        disposition_flag_bits(d) == pow2(match d {
            AvDispositionFlags::DEFAULT => 0nat,
            AvDispositionFlags::DUB => 1,
            AvDispositionFlags::ORIGINAL => 2,
            AvDispositionFlags::COMMENT => 3,
            AvDispositionFlags::LYRICS => 4,
            AvDispositionFlags::KARAOKE => 5,
            AvDispositionFlags::FORCED => 6,
            AvDispositionFlags::HEARING_IMPAIRED => 7,
            AvDispositionFlags::VISUAL_IMPAIRED => 8,
            AvDispositionFlags::CLEAN_EFFECTS => 9,
            AvDispositionFlags::ATTACHED_PIC => 10,
            AvDispositionFlags::CAPTIONS => 16,
            AvDispositionFlags::DESCRIPTIONS => 17,
            AvDispositionFlags::METADATA => 18,
            AvDispositionFlags::MULTILAYER => 21,
        }),
{
    lemma2_to64();
}

} // verus!
