//! Media formats: audio sample formats with FFmpeg's table of their
//! properties, pixel formats by their FFmpeg number, the union of the two,
//! and the memory layout a format asks for.

use vstd::prelude::*;

use crate::text::{int_text, push_i64, push_str};

verus! {

/// An FFmpeg pixel format, by its `AV_PIX_FMT_*` number.
#[derive(Debug, Copy, Clone, PartialEq, Eq, Structural, Hash)]
pub struct PixelFormat(pub i32);

/// Audio sample format, as FFmpeg's `AV_SAMPLE_FMT_*`.
#[derive(Debug, Copy, Clone, PartialEq, Eq, Structural, Hash)]
#[allow(non_camel_case_types)]
pub enum SampleFormat {
    NONE,
    U8,
    S16,
    S32,
    FLT,
    DBL,
    U8P,
    S16P,
    S32P,
    FLTP,
    DBLP,
    S64,
    S64P,
}

/// FFmpeg's number for a sample format (`AV_SAMPLE_FMT_NONE` is -1).
pub open spec fn sample_code(f: SampleFormat) -> int {
    match f {
        SampleFormat::NONE => -1,
        SampleFormat::U8 => 0,
        SampleFormat::S16 => 1,
        SampleFormat::S32 => 2,
        SampleFormat::FLT => 3,
        SampleFormat::DBL => 4,
        SampleFormat::U8P => 5,
        SampleFormat::S16P => 6,
        SampleFormat::S32P => 7,
        SampleFormat::FLTP => 8,
        SampleFormat::DBLP => 9,
        SampleFormat::S64 => 10,
        SampleFormat::S64P => 11,
    }
}

/// Whether FFmpeg's sample format table marks the format planar.
pub open spec fn sample_planar(f: SampleFormat) -> bool {
    match f {
        SampleFormat::U8P | SampleFormat::S16P | SampleFormat::S32P | SampleFormat::FLTP
        | SampleFormat::DBLP | SampleFormat::S64P => true,
        _ => false,
    }
}

/// Bytes per sample in FFmpeg's table; 0 for `NONE`, which the table lacks.
pub open spec fn sample_bytes(f: SampleFormat) -> nat {
    match f {
        SampleFormat::NONE => 0,
        SampleFormat::U8 | SampleFormat::U8P => 1,
        SampleFormat::S16 | SampleFormat::S16P => 2,
        SampleFormat::S32 | SampleFormat::S32P | SampleFormat::FLT | SampleFormat::FLTP => 4,
        SampleFormat::DBL | SampleFormat::DBLP | SampleFormat::S64 | SampleFormat::S64P => 8,
    }
}

/// The other form (packed for planar, planar for packed) FFmpeg's table
/// gives a format; `NONE` has none.
pub open spec fn sample_altform(f: SampleFormat) -> SampleFormat {
    match f {
        SampleFormat::NONE => SampleFormat::NONE,
        SampleFormat::U8 => SampleFormat::U8P,
        SampleFormat::S16 => SampleFormat::S16P,
        SampleFormat::S32 => SampleFormat::S32P,
        SampleFormat::FLT => SampleFormat::FLTP,
        SampleFormat::DBL => SampleFormat::DBLP,
        SampleFormat::S64 => SampleFormat::S64P,
        SampleFormat::U8P => SampleFormat::U8,
        SampleFormat::S16P => SampleFormat::S16,
        SampleFormat::S32P => SampleFormat::S32,
        SampleFormat::FLTP => SampleFormat::FLT,
        SampleFormat::DBLP => SampleFormat::DBL,
        SampleFormat::S64P => SampleFormat::S64,
    }
}

/// FFmpeg's name of a sample format (`av_get_sample_fmt_name`), `"Unknown"` for `NONE`.
pub open spec fn sample_name(f: SampleFormat) -> Seq<char> {
    match f {
        SampleFormat::NONE => seq!['U', 'n', 'k', 'n', 'o', 'w', 'n'],
        SampleFormat::U8 => seq!['u', '8'],
        SampleFormat::S16 => seq!['s', '1', '6'],
        SampleFormat::S32 => seq!['s', '3', '2'],
        SampleFormat::FLT => seq!['f', 'l', 't'],
        SampleFormat::DBL => seq!['d', 'b', 'l'],
        SampleFormat::U8P => seq!['u', '8', 'p'],
        SampleFormat::S16P => seq!['s', '1', '6', 'p'],
        SampleFormat::S32P => seq!['s', '3', '2', 'p'],
        SampleFormat::FLTP => seq!['f', 'l', 't', 'p'],
        SampleFormat::DBLP => seq!['d', 'b', 'l', 'p'],
        SampleFormat::S64 => seq!['s', '6', '4'],
        SampleFormat::S64P => seq!['s', '6', '4', 'p'],
    }
}

/// The variant name, as `{:?}` prints it (`"FLTP"`, ...).
pub open spec fn sample_debug(f: SampleFormat) -> Seq<char> {
    match f {
        SampleFormat::NONE => "NONE"@,
        SampleFormat::U8 => "U8"@,
        SampleFormat::S16 => "S16"@,
        SampleFormat::S32 => "S32"@,
        SampleFormat::FLT => "FLT"@,
        SampleFormat::DBL => "DBL"@,
        SampleFormat::U8P => "U8P"@,
        SampleFormat::S16P => "S16P"@,
        SampleFormat::S32P => "S32P"@,
        SampleFormat::FLTP => "FLTP"@,
        SampleFormat::DBLP => "DBLP"@,
        SampleFormat::S64 => "S64"@,
        SampleFormat::S64P => "S64P"@,
    }
}

/// `PixelFormat(N)`, as `{:?}` prints a pixel format.
pub open spec fn pixel_debug(p: PixelFormat) -> Seq<char> {
    "PixelFormat("@ + int_text(p.0 as int) + ")"@
}

impl PixelFormat {
    /// `PixelFormat(N)`, as `{:?}` prints it.
    pub fn debug_name(&self) -> (s: String)
        ensures
            s@ == pixel_debug(*self),
    {
        let mut s = "PixelFormat(".to_string();
        push_i64(&mut s, self.0 as i64);
        push_str(&mut s, ")");
        s
    }
}

/// The layout `channels` channels of `samples` samples each take in format `f`.
pub open spec fn sample_layout(f: SampleFormat, channels: usize, samples: usize) -> LayoutView {
    if sample_planar(f) {
        LayoutView::Planar(Seq::new(channels as nat, |i: int| (1usize, samples)))
    } else {
        LayoutView::Interleaved { rows: 1, cols: samples, components: channels }
    }
}

impl SampleFormat {
    /// The variant name, as `{:?}` prints it.
    pub fn debug_name(&self) -> (s: String)
        ensures
            s@ == sample_debug(*self),
    {
        let t: &str = match self {
            SampleFormat::NONE => "NONE",
            SampleFormat::U8 => "U8",
            SampleFormat::S16 => "S16",
            SampleFormat::S32 => "S32",
            SampleFormat::FLT => "FLT",
            SampleFormat::DBL => "DBL",
            SampleFormat::U8P => "U8P",
            SampleFormat::S16P => "S16P",
            SampleFormat::S32P => "S32P",
            SampleFormat::FLTP => "FLTP",
            SampleFormat::DBLP => "DBLP",
            SampleFormat::S64 => "S64",
            SampleFormat::S64P => "S64P",
        };
        t.to_string()
    }

    /// FFmpeg's number for this format.
    pub fn raw(&self) -> (r: i32)
        ensures
            r == sample_code(*self),
    {
        match self {
            SampleFormat::NONE => -1,
            SampleFormat::U8 => 0,
            SampleFormat::S16 => 1,
            SampleFormat::S32 => 2,
            SampleFormat::FLT => 3,
            SampleFormat::DBL => 4,
            SampleFormat::U8P => 5,
            SampleFormat::S16P => 6,
            SampleFormat::S32P => 7,
            SampleFormat::FLTP => 8,
            SampleFormat::DBLP => 9,
            SampleFormat::S64 => 10,
            SampleFormat::S64P => 11,
        }
    }

    /// The format FFmpeg numbers `raw`, or `None` for a number it does not use.
    pub fn from_raw(raw: i32) -> (r: Option<SampleFormat>)
        ensures
            r matches Some(f) ==> sample_code(f) == raw,
            r is None <==> (raw < -1 || raw > 11),
    {
        if raw == -1 {
            Some(SampleFormat::NONE)
        } else if raw == 0 {
            Some(SampleFormat::U8)
        } else if raw == 1 {
            Some(SampleFormat::S16)
        } else if raw == 2 {
            Some(SampleFormat::S32)
        } else if raw == 3 {
            Some(SampleFormat::FLT)
        } else if raw == 4 {
            Some(SampleFormat::DBL)
        } else if raw == 5 {
            Some(SampleFormat::U8P)
        } else if raw == 6 {
            Some(SampleFormat::S16P)
        } else if raw == 7 {
            Some(SampleFormat::S32P)
        } else if raw == 8 {
            Some(SampleFormat::FLTP)
        } else if raw == 9 {
            Some(SampleFormat::DBLP)
        } else if raw == 10 {
            Some(SampleFormat::S64)
        } else if raw == 11 {
            Some(SampleFormat::S64P)
        } else {
            None
        }
    }

    /// Whether samples of this format are stored one plane per channel.
    pub fn is_planar(&self) -> (b: bool)
        ensures
            b == sample_planar(*self),
    {
        match self {
            SampleFormat::U8P | SampleFormat::S16P | SampleFormat::S32P | SampleFormat::FLTP
            | SampleFormat::DBLP | SampleFormat::S64P => true,
            _ => false,
        }
    }

    /// The data layout this format uses for `channels` channels of `samples`
    /// samples each: one `(1, samples)` plane per channel for a planar format,
    /// a single `(1, samples, channels)` interleaved array for a packed one.
    pub fn data_layout(self, channels: usize, samples: usize) -> (d: DataLayout)
        ensures
            d.view() == sample_layout(self, channels, samples),
    {
        if self.is_planar() {
            let mut planes: Vec<(usize, usize)> = Vec::new();
            let mut i: usize = 0;
            while i < channels
                invariant
                    i <= channels,
                    planes@ == Seq::new(i as nat, |k: int| (1usize, samples)),
                decreases channels - i,
            {
                planes.push((1, samples));
                i = i + 1;
                assert(planes@ =~= Seq::new(i as nat, |k: int| (1usize, samples)));
            }
            DataLayout::Planar(planes)
        } else {
            DataLayout::Interleaved { rows: 1, cols: samples, components: channels }
        }
    }

    /// Bytes one sample takes, `None` for `NONE`.
    pub fn get_bytes_per_sample(&self) -> (r: Option<usize>)
        ensures
            r == (if sample_bytes(*self) == 0 { None } else { Some(sample_bytes(*self) as usize) }),
    {
        match self {
            SampleFormat::NONE => None,
            SampleFormat::U8 | SampleFormat::U8P => Some(1),
            SampleFormat::S16 | SampleFormat::S16P => Some(2),
            SampleFormat::S32 | SampleFormat::S32P | SampleFormat::FLT | SampleFormat::FLTP => Some(4),
            SampleFormat::DBL | SampleFormat::DBLP | SampleFormat::S64 | SampleFormat::S64P => Some(8),
        }
    }

    /// FFmpeg's name of this format (`"s16"`, `"fltp"`, ...), `"Unknown"` for `NONE`.
    pub fn get_sample_fmt_name(&self) -> (s: String)
        ensures
            s@ == sample_name(*self),
    {
        let t: &str = match self {
            SampleFormat::NONE => "Unknown",
            SampleFormat::U8 => "u8",
            SampleFormat::S16 => "s16",
            SampleFormat::S32 => "s32",
            SampleFormat::FLT => "flt",
            SampleFormat::DBL => "dbl",
            SampleFormat::U8P => "u8p",
            SampleFormat::S16P => "s16p",
            SampleFormat::S32P => "s32p",
            SampleFormat::FLTP => "fltp",
            SampleFormat::DBLP => "dblp",
            SampleFormat::S64 => "s64",
            SampleFormat::S64P => "s64p",
        };
        proof {
            reveal_strlit("Unknown");
            reveal_strlit("u8");
            reveal_strlit("s16");
            reveal_strlit("s32");
            reveal_strlit("flt");
            reveal_strlit("dbl");
            reveal_strlit("u8p");
            reveal_strlit("s16p");
            reveal_strlit("s32p");
            reveal_strlit("fltp");
            reveal_strlit("dblp");
            reveal_strlit("s64");
            reveal_strlit("s64p");
        }
        t.to_string()
    }

    /// The packed form of this format (itself when already packed), `None` for `NONE`.
    pub fn get_packed_sample_fmt(&self) -> (r: Option<SampleFormat>)
        ensures
            r == (if *self == SampleFormat::NONE { None } else if sample_planar(*self) {
                Some(sample_altform(*self))
            } else {
                Some(*self)
            }),
    {
        if let SampleFormat::NONE = self {
            None
        } else if self.is_planar() {
            Some(self.altform())
        } else {
            Some(*self)
        }
    }

    /// The planar form of this format (itself when already planar), `None` for `NONE`.
    pub fn get_planar_sample_fmt(&self) -> (r: Option<SampleFormat>)
        ensures
            r == (if *self == SampleFormat::NONE { None } else if sample_planar(*self) {
                Some(*self)
            } else {
                Some(sample_altform(*self))
            }),
    {
        if let SampleFormat::NONE = self {
            None
        } else if self.is_planar() {
            Some(*self)
        } else {
            Some(self.altform())
        }
    }

    fn altform(&self) -> (r: SampleFormat)
        ensures
            r == sample_altform(*self),
    {
        match self {
            SampleFormat::NONE => SampleFormat::NONE,
            SampleFormat::U8 => SampleFormat::U8P,
            SampleFormat::S16 => SampleFormat::S16P,
            SampleFormat::S32 => SampleFormat::S32P,
            SampleFormat::FLT => SampleFormat::FLTP,
            SampleFormat::DBL => SampleFormat::DBLP,
            SampleFormat::S64 => SampleFormat::S64P,
            SampleFormat::U8P => SampleFormat::U8,
            SampleFormat::S16P => SampleFormat::S16,
            SampleFormat::S32P => SampleFormat::S32,
            SampleFormat::FLTP => SampleFormat::FLT,
            SampleFormat::DBLP => SampleFormat::DBL,
            SampleFormat::S64P => SampleFormat::S64,
        }
    }
}

/// Two sample formats with the same FFmpeg number are the same format, so
/// reading a format back from its number gives the format.
pub proof fn law_sample_code_injective(f: SampleFormat, g: SampleFormat)
    ensures
        sample_code(f) == sample_code(g) ==> f == g,
        -1 <= sample_code(f) <= 11,
{
}

/// The packed and the planar form of a format are each other's other form,
/// and converting either way and back returns the format.
pub proof fn law_sample_forms_round_trip(f: SampleFormat)
    requires
        f != SampleFormat::NONE,
    ensures
        sample_altform(sample_altform(f)) == f,
        sample_planar(sample_altform(f)) != sample_planar(f),
        sample_bytes(sample_altform(f)) == sample_bytes(f),
{
}

/// The data layout a media format requires: one interleaved array, or one
/// array per plane. Every plane is a row-major `rows x cols` block.
#[derive(Debug, Clone)]
pub enum DataLayout {
    /// One interleaved array of shape `(rows, cols, components)`.
    Interleaved { rows: usize, cols: usize, components: usize },
    /// One array per plane, each of shape `(rows, cols)`.
    Planar(Vec<(usize, usize)>),
}

/// A [`DataLayout`] with its plane list as a sequence.
pub enum LayoutView {
    Interleaved { rows: usize, cols: usize, components: usize },
    Planar(Seq<(usize, usize)>),
}

impl View for DataLayout {
    type V = LayoutView;

    open spec fn view(&self) -> LayoutView {
        match self {
            DataLayout::Interleaved { rows, cols, components } => LayoutView::Interleaved {
                rows: *rows,
                cols: *cols,
                components: *components,
            },
            DataLayout::Planar(planes) => LayoutView::Planar(planes@),
        }
    }
}

/// Number of arrays a layout is stored as.
pub open spec fn layout_planes(l: LayoutView) -> nat {
    match l {
        LayoutView::Interleaved { .. } => 1,
        LayoutView::Planar(planes) => planes.len(),
    }
}

/// The shape plane `plane` is stored as, components kept apart.
pub open spec fn layout_plane_shape(l: LayoutView, plane: int) -> Option<(usize, usize)> {
    match l {
        LayoutView::Interleaved { rows, cols, .. } => if plane == 0 { Some((rows, cols)) } else { None },
        LayoutView::Planar(planes) => if 0 <= plane < planes.len() { Some(planes[plane]) } else { None },
    }
}

impl PartialEq for DataLayout {
    fn eq(&self, other: &Self) -> (r: bool) {
        match (self, other) {
            (
                DataLayout::Interleaved { rows: r1, cols: c1, components: k1 },
                DataLayout::Interleaved { rows: r2, cols: c2, components: k2 },
            ) => *r1 == *r2 && *c1 == *c2 && *k1 == *k2,
            (DataLayout::Planar(a), DataLayout::Planar(b)) => {
                if a.len() != b.len() {
                    return false;
                }
                let mut i: usize = 0;
                while i < a.len()
                    invariant
                        self.view() == LayoutView::Planar(a@),
                        other.view() == LayoutView::Planar(b@),
                        a@.len() == b@.len(),
                        i <= a@.len(),
                        a@.subrange(0, i as int) == b@.subrange(0, i as int),
                    decreases a@.len() - i,
                {
                    if a[i].0 != b[i].0 || a[i].1 != b[i].1 {
                        assert(a@[i as int] != b@[i as int]);
                        assert(a@ != b@);
                        return false;
                    }
                    assert(a@.subrange(0, i + 1) =~= a@.subrange(0, i as int).push(a@[i as int]));
                    assert(b@.subrange(0, i + 1) =~= b@.subrange(0, i as int).push(b@[i as int]));
                    i = i + 1;
                }
                assert(a@ =~= a@.subrange(0, i as int));
                assert(b@ =~= b@.subrange(0, i as int));
                true
            },
            _ => false,
        }
    }
}

impl vstd::std_specs::cmp::PartialEqSpecImpl for DataLayout {
    open spec fn obeys_eq_spec() -> bool {
        true
    }

    open spec fn eq_spec(&self, other: &Self) -> bool {
        self.view() == other.view()
    }
}

impl Eq for DataLayout {}

impl DataLayout {
    /// Number of arrays this layout is stored as.
    pub fn num_planes(&self) -> (n: usize)
        ensures
            n == layout_planes(self.view()),
    {
        match self {
            DataLayout::Interleaved { .. } => 1,
            DataLayout::Planar(planes) => planes.len(),
        }
    }

    /// Plane `plane` as a flat `(rows, samples_per_row)` extent: the
    /// component axis of an interleaved layout is folded into the row.
    pub fn plane_row_extent(&self, plane: usize) -> (r: Option<(usize, usize)>)
        requires
            self matches DataLayout::Interleaved { cols, components, .. }
                ==> (plane == 0 ==> *cols * *components <= usize::MAX),
        ensures
            r == (match self.view() {
                LayoutView::Interleaved { rows, cols, components } => if plane == 0 {
                    Some((rows, (cols * components) as usize))
                } else {
                    None
                },
                LayoutView::Planar(planes) => if plane < planes.len() { Some(planes[plane as int]) } else { None },
            }),
    {
        match self {
            DataLayout::Interleaved { rows, cols, components } => {
                if plane == 0 {
                    Some((*rows, *cols * *components))
                } else {
                    None
                }
            },
            DataLayout::Planar(planes) => {
                if plane < planes.len() {
                    Some(planes[plane])
                } else {
                    None
                }
            },
        }
    }

    /// The shape plane `plane` is stored as, keeping the component axis of an
    /// interleaved layout apart from the columns.
    pub fn plane_shape(&self, plane: usize) -> (r: Option<(usize, usize)>)
        ensures
            r == layout_plane_shape(self.view(), plane as int),
    {
        match self {
            DataLayout::Interleaved { rows, cols, .. } => {
                if plane == 0 {
                    Some((*rows, *cols))
                } else {
                    None
                }
            },
            DataLayout::Planar(planes) => {
                if plane < planes.len() {
                    Some(planes[plane])
                } else {
                    None
                }
            },
        }
    }

    /// Every plane's shape, in plane order.
    pub fn shapes(&self) -> (v: Vec<(usize, usize)>)
        ensures
            v@.len() == layout_planes(self.view()),
            forall|i: int| 0 <= i < v@.len() ==> Some(#[trigger] v@[i]) == layout_plane_shape(self.view(), i),
    {
        let n = self.num_planes();
        let mut v: Vec<(usize, usize)> = Vec::new();
        let mut plane: usize = 0;
        while plane < n
            invariant
                n == layout_planes(self.view()),
                plane <= n,
                v@.len() == plane,
                forall|i: int| 0 <= i < v@.len() ==> Some(#[trigger] v@[i]) == layout_plane_shape(self.view(), i),
            decreases n - plane,
        {
            match self.plane_shape(plane) {
                Some(s) => {
                    v.push(s);
                },
                None => {
                    assert(false);
                },
            }
            plane = plane + 1;
        }
        v
    }
}

/// The format of a frame: a pixel format for video, a sample format for audio.
#[derive(Debug, Copy, Clone, PartialEq, Eq, Structural)]
pub enum FrameFormat {
    Pixel(PixelFormat),
    Sample(SampleFormat),
}

impl FrameFormat {
    /// The pixel format, `None` for an audio format.
    pub fn into_pixel(self) -> (r: Option<PixelFormat>)
        ensures
            r == (match self {
                FrameFormat::Pixel(p) => Some(p),
                FrameFormat::Sample(_) => None,
            }),
    {
        match self {
            FrameFormat::Pixel(p) => Some(p),
            FrameFormat::Sample(_) => None,
        }
    }

    /// The sample format, `None` for a video format.
    pub fn into_sample(self) -> (r: Option<SampleFormat>)
        ensures
            r == (match self {
                FrameFormat::Sample(s) => Some(s),
                FrameFormat::Pixel(_) => None,
            }),
    {
        match self {
            FrameFormat::Sample(s) => Some(s),
            FrameFormat::Pixel(_) => None,
        }
    }

    /// FFmpeg's number for the wrapped format (`AV_PIX_FMT_*` or `AV_SAMPLE_FMT_*`).
    pub fn raw(&self) -> (r: i32)
        ensures
            r == (match *self {
                FrameFormat::Pixel(p) => p.0 as int,
                FrameFormat::Sample(s) => sample_code(s),
            }),
    {
        match self {
            FrameFormat::Pixel(p) => p.0,
            FrameFormat::Sample(s) => s.raw(),
        }
    }
}

impl From<PixelFormat> for FrameFormat {
    fn from(fmt: PixelFormat) -> (r: FrameFormat) {
        FrameFormat::Pixel(fmt)
    }
}

impl vstd::std_specs::convert::FromSpecImpl<PixelFormat> for FrameFormat {
    open spec fn obeys_from_spec() -> bool {
        true
    }

    open spec fn from_spec(fmt: PixelFormat) -> FrameFormat {
        FrameFormat::Pixel(fmt)
    }
}

impl From<SampleFormat> for FrameFormat {
    fn from(fmt: SampleFormat) -> (r: FrameFormat) {
        FrameFormat::Sample(fmt)
    }
}

impl vstd::std_specs::convert::FromSpecImpl<SampleFormat> for FrameFormat {
    open spec fn obeys_from_spec() -> bool {
        true
    }

    open spec fn from_spec(fmt: SampleFormat) -> FrameFormat {
        FrameFormat::Sample(fmt)
    }
}


/// A sample takes as many bytes as its type is wide: one for 8-bit
/// unsigned, two for 16-bit, four for 32-bit integer and single-precision
/// float, eight for double precision and 64-bit integer, whether packed or
/// planar; `NONE` has no width.
pub proof fn law_sample_width(f: SampleFormat)
    ensures
        (f == SampleFormat::U8 || f == SampleFormat::U8P) ==> sample_bytes(f) == 1,
        (f == SampleFormat::S16 || f == SampleFormat::S16P) ==> sample_bytes(f) == 2,
        (f == SampleFormat::S32 || f == SampleFormat::S32P || f == SampleFormat::FLT || f == SampleFormat::FLTP)
            ==> sample_bytes(f) == 4,
        (f == SampleFormat::DBL || f == SampleFormat::DBLP || f == SampleFormat::S64 || f == SampleFormat::S64P)
            ==> sample_bytes(f) == 8,
        f == SampleFormat::NONE ==> sample_bytes(f) == 0,
{
}

/// A format is planar exactly when its name ends in `p`, and the planar form
/// of a packed format is named as it with `p` added. FFmpeg numbers the
/// packed formats 8-bit, 16-bit, 32-bit, float, double from 0 to 4 and their
/// planar forms five higher, then 64-bit packed and planar as 10 and 11;
/// `NONE` is -1.
pub proof fn law_sample_table(f: SampleFormat)
    ensures
        f != SampleFormat::NONE ==> (sample_planar(f) <==> sample_name(f).last() == 'p'),
        f != SampleFormat::NONE && !sample_planar(f) ==> sample_name(sample_altform(f)) == sample_name(f).push('p'),
        sample_code(SampleFormat::NONE) == -1,
        sample_code(SampleFormat::U8) == 0 && sample_code(SampleFormat::S16) == 1 && sample_code(SampleFormat::S32) == 2
            && sample_code(SampleFormat::FLT) == 3 && sample_code(SampleFormat::DBL) == 4,
        sample_code(SampleFormat::S64) == 10 && sample_code(SampleFormat::S64P) == 11,
        0 <= sample_code(f) <= 4 ==> sample_code(sample_altform(f)) == sample_code(f) + 5,
{
    assert(seq!['u', '8'].push('p') =~= seq!['u', '8', 'p']);
    assert(seq!['s', '1', '6'].push('p') =~= seq!['s', '1', '6', 'p']);
    assert(seq!['s', '3', '2'].push('p') =~= seq!['s', '3', '2', 'p']);
    assert(seq!['f', 'l', 't'].push('p') =~= seq!['f', 'l', 't', 'p']);
    assert(seq!['d', 'b', 'l'].push('p') =~= seq!['d', 'b', 'l', 'p']);
    assert(seq!['s', '6', '4'].push('p') =~= seq!['s', '6', '4', 'p']);
}

} // verus!
