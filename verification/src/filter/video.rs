//! Video filters: each builds the description of one FFmpeg video filter,
//! escaping the text values it is given.

use vstd::prelude::*;

use crate::filter::{escape_filter_expr, escape_filter_option, escape_filter_str, escaped, expr_escaped, option_escaped, Filter};
use crate::flags::MediaType;
use crate::text::{int_text, nat_digits, push_i64, push_str, push_u64};

verus! {

/// A video filter named `name` with description `spec`.
pub open spec fn video_filter(f: Filter, name: Seq<char>, spec: Seq<char>) -> bool {
    &&& f.name@ == name
    &&& f.media_type == MediaType::VIDEO
    &&& f.spec@ == spec
    &&& f.input_format is None
}

fn video(name: &'static str, spec: String) -> (f: Filter)
    ensures
        video_filter(f, name@, spec@),
{
    Filter::new(name, MediaType::VIDEO, spec)
}

/// The scaling algorithm `scale` uses when none is given.
pub const DEFAULT_SCALE_FLAGS: &'static str = "bicubic";

/// Scales video to `width` x `height` with the given scaler flags
/// (`bicubic` when none are given): `scale=w=W:h=H:flags=F`.
pub fn scale(width: u32, height: u32, flags: Option<&str>) -> (f: Filter)
    ensures
        video_filter(f, "scale"@, "scale=w="@ + nat_digits(width as nat) + ":h="@ + nat_digits(height as nat)
            + ":flags="@ + option_escaped(match flags {
                Some(t) => t@,
                None => DEFAULT_SCALE_FLAGS@,
            })),
{
    let flags_text = match flags {
        Some(t) => escape_filter_option(t),
        None => escape_filter_option(DEFAULT_SCALE_FLAGS),
    };
    let mut s = "scale=w=".to_string();
    push_u64(&mut s, width as u64);
    push_str(&mut s, ":h=");
    push_u64(&mut s, height as u64);
    push_str(&mut s, ":flags=");
    push_str(&mut s, flags_text.as_str());
    video("scale", s)
}

/// Converts video to the pixel format FFmpeg names `pix_fmt_name`
/// (`"yuv420p"`, ...): `format=pix_fmts=NAME`.
pub fn format(pix_fmt_name: &str) -> (f: Filter)
    ensures
        video_filter(f, "format"@, "format=pix_fmts="@ + pix_fmt_name@),
{
    let mut s = "format=pix_fmts=".to_string();
    push_str(&mut s, pix_fmt_name);
    video("format", s)
}

/// Crops video to the `w` x `h` rectangle at (`x`, `y`): `crop=x=X:y=Y:w=W:h=H`.
pub fn crop(x: i32, y: i32, w: u32, h: u32) -> (f: Filter)
    ensures
        video_filter(f, "crop"@, "crop=x="@ + int_text(x as int) + ":y="@ + int_text(y as int) + ":w="@
            + nat_digits(w as nat) + ":h="@ + nat_digits(h as nat)),
{
    let mut s = "crop=x=".to_string();
    push_i64(&mut s, x as i64);
    push_str(&mut s, ":y=");
    push_i64(&mut s, y as i64);
    push_str(&mut s, ":w=");
    push_u64(&mut s, w as u64);
    push_str(&mut s, ":h=");
    push_u64(&mut s, h as u64);
    video("crop", s)
}

/// Text drawn on video (`drawtext`), with an optional font file and an
/// optional box behind the text.
pub struct DrawText {
    pub text: String,
    pub x: i32,
    pub y: i32,
    pub fontfile: Option<String>,
    pub fontsize: u32,
    pub fontcolor: String,
    pub box_enabled: bool,
    pub box_color: String,
    pub box_border_w: u32,
    pub raw_text: bool,
}

/// The font file `drawtext` uses when none is given, relative to the
/// working directory.
pub const DEFAULT_FONT_FILE: &'static str = "fonts/Arial.ttf";

/// The box colour used when boxing is turned on without one.
pub const DEFAULT_BOX_COLOR: &'static str = "black@0.5";

/// The description `drawtext` gets for the settings of `d`.
pub open spec fn drawtext_spec(d: DrawText) -> Seq<char> {
    let text = if d.raw_text { expr_escaped(d.text@) } else { escaped(d.text@, false) };
    let font = match d.fontfile {
        Some(p) => p@,
        None => DEFAULT_FONT_FILE@,
    };
    "drawtext=text='"@ + text + "':x="@ + int_text(d.x as int) + ":y="@ + int_text(d.y as int)
        + ":fontsize="@ + nat_digits(d.fontsize as nat) + ":fontcolor="@ + option_escaped(d.fontcolor@)
        + ":fontfile='"@ + escaped(font, false) + "'"@
        + if d.box_enabled {
            ":box=1:boxcolor="@ + option_escaped(d.box_color@) + ":boxborderw="@ + nat_digits(d.box_border_w as nat)
        } else {
            Seq::empty()
        }
}

impl DrawText {
    /// Draws `text` with its top-left corner at (`x`, `y`), in size
    /// `fontsize` and colour `fontcolor`; no font file, no box.
    pub fn new(text: &str, x: i32, y: i32, fontsize: u32, fontcolor: &str) -> (d: DrawText)
        ensures
            d.text@ == text@,
            d.x == x,
            d.y == y,
            d.fontfile is None,
            d.fontsize == fontsize,
            d.fontcolor@ == fontcolor@,
            !d.box_enabled,
            d.box_color@ == DEFAULT_BOX_COLOR@,
            d.box_border_w == 0,
            !d.raw_text,
    {
        DrawText {
            text: text.to_string(),
            x,
            y,
            fontfile: None,
            fontsize,
            fontcolor: fontcolor.to_string(),
            box_enabled: false,
            box_color: DEFAULT_BOX_COLOR.to_string(),
            box_border_w: 0,
            raw_text: false,
        }
    }

    /// Uses the font file at `path`.
    pub fn fontfile(self, path: &str) -> (d: DrawText)
        ensures
            d.fontfile matches Some(p) && p@ == path@,
            d.text == self.text,
            d.x == self.x,
            d.y == self.y,
            d.fontsize == self.fontsize,
            d.fontcolor == self.fontcolor,
            d.box_enabled == self.box_enabled,
            d.box_color == self.box_color,
            d.box_border_w == self.box_border_w,
            d.raw_text == self.raw_text,
    {
        DrawText { fontfile: Some(path.to_string()), ..self }
    }

    /// Draws a box of colour `color` behind the text.
    pub fn boxed(self, color: &str) -> (d: DrawText)
        ensures
            d.box_enabled,
            d.box_color@ == color@,
            d.text == self.text,
            d.x == self.x,
            d.y == self.y,
            d.fontfile == self.fontfile,
            d.fontsize == self.fontsize,
            d.fontcolor == self.fontcolor,
            d.box_border_w == self.box_border_w,
            d.raw_text == self.raw_text,
    {
        DrawText { box_enabled: true, box_color: color.to_string(), ..self }
    }

    /// Draws text with FFmpeg expansion blocks (`%{localtime}`,
    /// `%{pts:hms}`, `%{frame_num}`, ...) kept unescaped so that they expand.
    pub fn time_text(self, fmt: &str) -> (d: DrawText)
        ensures
            d.text@ == fmt@,
            d.raw_text,
            d.x == self.x,
            d.y == self.y,
            d.fontfile == self.fontfile,
            d.fontsize == self.fontsize,
            d.fontcolor == self.fontcolor,
            d.box_enabled == self.box_enabled,
            d.box_color == self.box_color,
            d.box_border_w == self.box_border_w,
    {
        DrawText { text: fmt.to_string(), raw_text: true, ..self }
    }

    /// The `drawtext` filter for these settings.
    pub fn build(self) -> (f: Filter)
        ensures
            video_filter(f, "drawtext"@, drawtext_spec(self)),
    {
        let text_spec = if self.raw_text {
            escape_filter_expr(self.text.as_str())
        } else {
            escape_filter_str(self.text.as_str())
        };
        let mut s = "drawtext=text='".to_string();
        push_str(&mut s, text_spec.as_str());
        push_str(&mut s, "':x=");
        push_i64(&mut s, self.x as i64);
        push_str(&mut s, ":y=");
        push_i64(&mut s, self.y as i64);
        push_str(&mut s, ":fontsize=");
        push_u64(&mut s, self.fontsize as u64);
        push_str(&mut s, ":fontcolor=");
        let color = escape_filter_option(self.fontcolor.as_str());
        push_str(&mut s, color.as_str());
        let font = match &self.fontfile {
            Some(p) => escape_filter_str(p.as_str()),
            None => escape_filter_str(DEFAULT_FONT_FILE),
        };
        push_str(&mut s, ":fontfile='");
        push_str(&mut s, font.as_str());
        push_str(&mut s, "'");
        if self.box_enabled {
            push_str(&mut s, ":box=1:boxcolor=");
            let box_color = escape_filter_option(self.box_color.as_str());
            push_str(&mut s, box_color.as_str());
            push_str(&mut s, ":boxborderw=");
            push_u64(&mut s, self.box_border_w as u64);
        }
        assert(s@ =~= drawtext_spec(self));
        video("drawtext", s)
    }
}

/// Draws a rectangle outline of colour `color` and line width `|thickness|`:
/// `drawbox=x=X:y=Y:w=W:h=H:color=C:t=T`.
pub fn drawbox(x: i32, y: i32, w: u32, h: u32, color: &str, thickness: i32) -> (f: Filter)
    requires
        thickness != i32::MIN,
    ensures
        video_filter(f, "drawbox"@, "drawbox=x="@ + int_text(x as int) + ":y="@ + int_text(y as int) + ":w="@
            + nat_digits(w as nat) + ":h="@ + nat_digits(h as nat) + ":color="@ + option_escaped(color@)
            + ":t="@ + int_text(if thickness < 0 { -thickness } else { thickness as int })),
{
    let color_text = escape_filter_option(color);
    let t: i32 = if thickness < 0 { -thickness } else { thickness };
    let mut s = "drawbox=x=".to_string();
    push_i64(&mut s, x as i64);
    push_str(&mut s, ":y=");
    push_i64(&mut s, y as i64);
    push_str(&mut s, ":w=");
    push_u64(&mut s, w as u64);
    push_str(&mut s, ":h=");
    push_u64(&mut s, h as u64);
    push_str(&mut s, ":color=");
    push_str(&mut s, color_text.as_str());
    push_str(&mut s, ":t=");
    push_i64(&mut s, t as i64);
    video("drawbox", s)
}

/// The `delogo` description for one region.
pub open spec fn delogo_spec(x: i32, y: i32, w: u32, h: u32) -> Seq<char> {
    "delogo=x="@ + int_text(x as int) + ":y="@ + int_text(y as int) + ":w="@ + nat_digits(w as nat) + ":h="@
        + nat_digits(h as nat)
}

fn delogo_text(x: i32, y: i32, w: u32, h: u32) -> (s: String)
    ensures
        s@ == delogo_spec(x, y, w, h),
{
    let mut s = "delogo=x=".to_string();
    push_i64(&mut s, x as i64);
    push_str(&mut s, ":y=");
    push_i64(&mut s, y as i64);
    push_str(&mut s, ":w=");
    push_u64(&mut s, w as u64);
    push_str(&mut s, ":h=");
    push_u64(&mut s, h as u64);
    s
}

/// Removes a logo in the `w` x `h` rectangle at (`x`, `y`) by interpolating
/// from the pixels around it: `delogo=x=X:y=Y:w=W:h=H`.
pub fn delogo(x: i32, y: i32, w: u32, h: u32) -> (f: Filter)
    ensures
        video_filter(f, "delogo"@, delogo_spec(x, y, w, h)),
{
    video("delogo", delogo_text(x, y, w, h))
}

/// Logo removal over several regions, each by its own `delogo` filter.
pub struct Delogo {
    pub regions: Vec<(i32, i32, u32, u32)>,
    pub band: Option<i32>,
    pub show: bool,
}

impl Default for Delogo {
    /// No region, no band, regions not shown.
    fn default() -> (d: Self)
        ensures
            d.regions@.len() == 0,
            d.band is None,
            !d.show,
    {
        Delogo::new()
    }
}

/// The description of the `delogo` filter for one region under the settings of `d`.
pub open spec fn delogo_region_spec(d: Delogo, region: (i32, i32, u32, u32)) -> Seq<char> {
    delogo_spec(region.0, region.1, region.2, region.3)
        + match d.band {
            Some(band) => ":band="@ + int_text(band as int),
            None => Seq::empty(),
        }
        + if d.show { ":show=1"@ } else { Seq::empty() }
}

impl Delogo {
    /// No region yet, no band, regions not shown.
    pub fn new() -> (d: Delogo)
        ensures
            d.regions@.len() == 0,
            d.band is None,
            !d.show,
    {
        Delogo { regions: Vec::new(), band: None, show: false }
    }

    /// Adds the `w` x `h` region at (`x`, `y`).
    pub fn add_region(self, x: i32, y: i32, w: u32, h: u32) -> (d: Delogo)
        ensures
            d.regions@ == self.regions@.push((x, y, w, h)),
            d.band == self.band,
            d.show == self.show,
    {
        let mut d = self;
        d.regions.push((x, y, w, h));
        d
    }

    /// Sets the width of the band sampled around each region (an option
    /// only FFmpeg 7 and older have).
    pub fn band(self, band: i32) -> (d: Delogo)
        ensures
            d.regions@ == self.regions@,
            d.band == Some(band),
            d.show == self.show,
    {
        Delogo { band: Some(band), ..self }
    }

    /// Marks the regions in the output instead of hiding them quietly.
    pub fn show(self) -> (d: Delogo)
        ensures
            d.regions@ == self.regions@,
            d.band == self.band,
            d.show,
    {
        Delogo { show: true, ..self }
    }

    /// One `delogo` filter per region, in the order the regions were added.
    pub fn build(self) -> (v: Vec<Filter>)
        ensures
            v@.len() == self.regions@.len(),
            forall|i: int| 0 <= i < v@.len() ==> video_filter(#[trigger] v@[i], "delogo"@,
                delogo_region_spec(self, self.regions@[i])),
    {
        let mut v: Vec<Filter> = Vec::new();
        let mut i: usize = 0;
        while i < self.regions.len()
            invariant
                i <= self.regions@.len(),
                v@.len() == i,
                forall|k: int| 0 <= k < i ==> video_filter(#[trigger] v@[k], "delogo"@,
                    delogo_region_spec(self, self.regions@[k])),
            decreases self.regions@.len() - i,
        {
            let (x, y, w, h) = self.regions[i];
            let mut s = delogo_text(x, y, w, h);
            match self.band {
                Some(band) => {
                    push_str(&mut s, ":band=");
                    push_i64(&mut s, band as i64);
                },
                None => {},
            }
            if self.show {
                push_str(&mut s, ":show=1");
            }
            assert(s@ =~= delogo_region_spec(self, self.regions@[i as int]));
            let ghost before = v@;
            v.push(video("delogo", s));
            assert forall|k: int| 0 <= k < i + 1 implies video_filter(#[trigger] v@[k], "delogo"@,
                delogo_region_spec(self, self.regions@[k])) by {
                if k < i {
                    assert(v@[k] == before[k]);
                }
            }
            i = i + 1;
        }
        v
    }
}

/// Zooms and pans (`zoompan`); `zoom`, `x` and `y` are FFmpeg expressions,
/// escaped at both levels: `zoompan=z=Z:x=X:y=Y[:d=D]`.
pub fn zoompan(zoom: &str, x: &str, y: &str, duration: Option<i32>) -> (f: Filter)
    ensures
        video_filter(f, "zoompan"@, "zoompan=z="@ + option_escaped(zoom@) + ":x="@ + option_escaped(x@) + ":y="@
            + option_escaped(y@) + match duration {
                Some(d) => ":d="@ + int_text(d as int),
                None => Seq::empty(),
            }),
{
    let z = escape_filter_option(zoom);
    let xe = escape_filter_option(x);
    let ye = escape_filter_option(y);
    let mut s = "zoompan=z=".to_string();
    push_str(&mut s, z.as_str());
    push_str(&mut s, ":x=");
    push_str(&mut s, xe.as_str());
    push_str(&mut s, ":y=");
    push_str(&mut s, ye.as_str());
    match duration {
        Some(d) => {
            push_str(&mut s, ":d=");
            push_i64(&mut s, d as i64);
        },
        None => {},
    }
    assert(s@ =~= "zoompan=z="@ + option_escaped(zoom@) + ":x="@ + option_escaped(x@) + ":y="@
        + option_escaped(y@) + match duration {
            Some(d) => ":d="@ + int_text(d as int),
            None => Seq::empty(),
        });
    video("zoompan", s)
}

/// A filter whose description is its name, `=`, and a number.
fn numbered(name: &'static str, prefix: &str, n: i64) -> (f: Filter)
    ensures
        video_filter(f, name@, prefix@ + int_text(n as int)),
{
    let mut s = prefix.to_string();
    push_i64(&mut s, n);
    video(name, s)
}

/// Transposes (rotates by a multiple of 90 degrees and/or flips) by FFmpeg
/// mode `mode`: `transpose=M`.
pub fn transpose(mode: i32) -> (f: Filter)
    ensures
        video_filter(f, "transpose"@, "transpose="@ + int_text(mode as int)),
{
    numbered("transpose", "transpose=", mode as i64)
}

/// Rotates by `angle` degrees, written as the radian expression FFmpeg's
/// `rotate` takes: `rotate=A*PI/180`.
pub fn rotate(angle: i32) -> (f: Filter)
    ensures
        video_filter(f, "rotate"@, "rotate="@ + int_text(angle as int) + "*PI/180"@),
{
    let mut s = "rotate=".to_string();
    push_i64(&mut s, angle as i64);
    push_str(&mut s, "*PI/180");
    video("rotate", s)
}

/// A filter with no option: the description is its name.
fn bare(name: &'static str) -> (f: Filter)
    ensures
        video_filter(f, name@, name@),
{
    video(name, name.to_string())
}

/// Flips video horizontally: `hflip`.
pub fn hflip() -> (f: Filter)
    ensures
        video_filter(f, "hflip"@, "hflip"@),
{
    bare("hflip")
}

/// Flips video vertically: `vflip`.
pub fn vflip() -> (f: Filter)
    ensures
        video_filter(f, "vflip"@, "vflip"@),
{
    bare("vflip")
}

/// Fades in over the first `duration_frames` frames:
/// `fade=t=in:start_frame=0:nb_frames=N`.
pub fn fade_in(duration_frames: u32) -> (f: Filter)
    ensures
        video_filter(f, "fade"@, "fade=t=in:start_frame=0:nb_frames="@ + nat_digits(duration_frames as nat)),
{
    let mut s = "fade=t=in:start_frame=0:nb_frames=".to_string();
    push_u64(&mut s, duration_frames as u64);
    video("fade", s)
}

/// Fades out over `duration_frames` frames from frame `start_frame`:
/// `fade=t=out:start_frame=S:nb_frames=N`.
pub fn fade_out(start_frame: u32, duration_frames: u32) -> (f: Filter)
    ensures
        video_filter(f, "fade"@, "fade=t=out:start_frame="@ + nat_digits(start_frame as nat) + ":nb_frames="@
            + nat_digits(duration_frames as nat)),
{
    let mut s = "fade=t=out:start_frame=".to_string();
    push_u64(&mut s, start_frame as u64);
    push_str(&mut s, ":nb_frames=");
    push_u64(&mut s, duration_frames as u64);
    video("fade", s)
}

/// Sharpens with the default unsharp mask: `unsharp`.
pub fn unsharp() -> (f: Filter)
    ensures
        video_filter(f, "unsharp"@, "unsharp"@),
{
    bare("unsharp")
}

/// A filter with one escaped text option: `name=key=VALUE`.
fn keyed(name: &'static str, prefix: &str, value: &str) -> (f: Filter)
    ensures
        video_filter(f, name@, prefix@ + option_escaped(value@)),
{
    let v = escape_filter_option(value);
    let mut s = prefix.to_string();
    push_str(&mut s, v.as_str());
    video(name, s)
}

/// Deinterlaces (`yadif`) in mode `mode`: `yadif=mode=M`.
pub fn yadif(mode: &str) -> (f: Filter)
    ensures
        video_filter(f, "yadif"@, "yadif=mode="@ + option_escaped(mode@)),
{
    keyed("yadif", "yadif=mode=", mode)
}

/// Pads to `w` x `h` with the picture at (`x`, `y`) and the border in
/// colour `color`: `pad=w=W:h=H:x=X:y=Y:color=C`.
pub fn pad(w: u32, h: u32, x: i32, y: i32, color: &str) -> (f: Filter)
    ensures
        video_filter(f, "pad"@, "pad=w="@ + nat_digits(w as nat) + ":h="@ + nat_digits(h as nat) + ":x="@
            + int_text(x as int) + ":y="@ + int_text(y as int) + ":color="@ + option_escaped(color@)),
{
    let c = escape_filter_option(color);
    let mut s = "pad=w=".to_string();
    push_u64(&mut s, w as u64);
    push_str(&mut s, ":h=");
    push_u64(&mut s, h as u64);
    push_str(&mut s, ":x=");
    push_i64(&mut s, x as i64);
    push_str(&mut s, ":y=");
    push_i64(&mut s, y as i64);
    push_str(&mut s, ":color=");
    push_str(&mut s, c.as_str());
    video("pad", s)
}

/// Burns in the subtitles of the file at `path`: `subtitles=PATH`.
pub fn subtitles(path: &str) -> (f: Filter)
    ensures
        video_filter(f, "subtitles"@, "subtitles="@ + option_escaped(path@)),
{
    keyed("subtitles", "subtitles=", path)
}

/// A filter whose description is a ratio `name=NUM/DEN`.
fn ratio(name: &'static str, prefix: &str, num: i32, den: i32) -> (f: Filter)
    ensures
        video_filter(f, name@, prefix@ + int_text(num as int) + "/"@ + int_text(den as int)),
{
    let mut s = prefix.to_string();
    push_i64(&mut s, num as i64);
    push_str(&mut s, "/");
    push_i64(&mut s, den as i64);
    video(name, s)
}

/// Sets the display aspect ratio: `setdar=NUM/DEN`.
pub fn setdar(num: i32, den: i32) -> (f: Filter)
    ensures
        video_filter(f, "setdar"@, "setdar="@ + int_text(num as int) + "/"@ + int_text(den as int)),
{
    ratio("setdar", "setdar=", num, den)
}

/// Sets the sample aspect ratio: `setsar=NUM/DEN`.
pub fn setsar(num: i32, den: i32) -> (f: Filter)
    ensures
        video_filter(f, "setsar"@, "setsar="@ + int_text(num as int) + "/"@ + int_text(den as int)),
{
    ratio("setsar", "setsar=", num, den)
}

/// Shifts the hue by `degrees` degrees: `hue=h=H`.
pub fn hue(degrees: i32) -> (f: Filter)
    ensures
        video_filter(f, "hue"@, "hue=h="@ + int_text(degrees as int)),
{
    numbered("hue", "hue=h=", degrees as i64)
}

/// Inverts the picture: `negate`.
pub fn negate() -> (f: Filter)
    ensures
        video_filter(f, "negate"@, "negate"@),
{
    bare("negate")
}

/// Adds noise of strength `amount`: `noise=alls=N`.
pub fn noise(amount: u32) -> (f: Filter)
    ensures
        video_filter(f, "noise"@, "noise=alls="@ + nat_digits(amount as nat)),
{
    let mut s = "noise=alls=".to_string();
    push_u64(&mut s, amount as u64);
    video("noise", s)
}

/// Reduces blocking artefacts: `deblock`.
pub fn deblock() -> (f: Filter)
    ensures
        video_filter(f, "deblock"@, "deblock"@),
{
    bare("deblock")
}

/// Box blur with luma radius `luma_radius` (an FFmpeg expression) applied
/// `luma_power` times: `boxblur=luma_radius=R:luma_power=P`.
pub fn boxblur(luma_radius: &str, luma_power: u32) -> (f: Filter)
    ensures
        video_filter(f, "boxblur"@, "boxblur=luma_radius="@ + option_escaped(luma_radius@) + ":luma_power="@
            + nat_digits(luma_power as nat)),
{
    let r = escape_filter_option(luma_radius);
    let mut s = "boxblur=luma_radius=".to_string();
    push_str(&mut s, r.as_str());
    push_str(&mut s, ":luma_power=");
    push_u64(&mut s, luma_power as u64);
    video("boxblur", s)
}

/// Overlays its second input on its first at (`x`, `y`), FFmpeg
/// expressions written as given, with the opacity text `alpha` if any:
/// `overlay=x=X:y=Y[:alpha=A]`. A filter with two inputs: wire it with
/// [`crate::filter::FilterNode::with_inputs`].
pub fn overlay(x: &str, y: &str, alpha: Option<&str>) -> (f: Filter)
    ensures
        video_filter(f, "overlay"@, "overlay=x="@ + x@ + ":y="@ + y@ + match alpha {
            Some(a) => ":alpha="@ + a@,
            None => Seq::empty(),
        }),
{
    let mut s = "overlay=x=".to_string();
    push_str(&mut s, x);
    push_str(&mut s, ":y=");
    push_str(&mut s, y);
    match alpha {
        Some(a) => {
            push_str(&mut s, ":alpha=");
            push_str(&mut s, a);
        },
        None => {},
    }
    assert(s@ =~= "overlay=x="@ + x@ + ":y="@ + y@ + match alpha {
        Some(a) => ":alpha="@ + a@,
        None => Seq::empty(),
    });
    video("overlay", s)
}

/// A filter whose description is `name=key=N` for a count `n`.
fn counted(name: &'static str, prefix: &str, n: u32) -> (f: Filter)
    ensures
        video_filter(f, name@, prefix@ + nat_digits(n as nat)),
{
    let mut s = prefix.to_string();
    push_u64(&mut s, n as u64);
    video(name, s)
}

/// Places `inputs` videos side by side, left to right: `hstack=inputs=N`.
pub fn hstack(inputs: u32) -> (f: Filter)
    ensures
        video_filter(f, "hstack"@, "hstack=inputs="@ + nat_digits(inputs as nat)),
{
    counted("hstack", "hstack=inputs=", inputs)
}

/// Stacks `inputs` videos top to bottom: `vstack=inputs=N`.
pub fn vstack(inputs: u32) -> (f: Filter)
    ensures
        video_filter(f, "vstack"@, "vstack=inputs="@ + nat_digits(inputs as nat)),
{
    counted("vstack", "vstack=inputs=", inputs)
}

/// Joins `segments` videos one after the other: `concat=n=N:v=1:a=0`.
pub fn concat(segments: u32) -> (f: Filter)
    ensures
        video_filter(f, "concat"@, "concat=n="@ + nat_digits(segments as nat) + ":v=1:a=0"@),
{
    let mut s = "concat=n=".to_string();
    push_u64(&mut s, segments as u64);
    push_str(&mut s, ":v=1:a=0");
    video("concat", s)
}

/// Copies one video into `outputs` identical outputs: `split=N`.
pub fn split(outputs: u32) -> (f: Filter)
    ensures
        video_filter(f, "split"@, "split="@ + nat_digits(outputs as nat)),
{
    counted("split", "split=", outputs)
}

/// Adjusts colour curves from a named preset, or else from control points,
/// or leaves FFmpeg's defaults: `curves=preset=P`, `curves=all=PTS`, `curves`.
pub fn curves(preset: Option<&str>, points: Option<&str>) -> (f: Filter)
    ensures
        video_filter(f, "curves"@, match (preset, points) {
            (Some(p), _) => "curves=preset="@ + option_escaped(p@),
            (None, Some(pt)) => "curves=all="@ + option_escaped(pt@),
            (None, None) => "curves"@,
        }),
{
    match (preset, points) {
        (Some(p), _) => keyed("curves", "curves=preset=", p),
        (None, Some(pt)) => keyed("curves", "curves=all=", pt),
        (None, None) => bare("curves"),
    }
}

/// Deinterlaces with `bwdif` in mode `mode`: `bwdif=mode=M`.
pub fn bwdif(mode: &str) -> (f: Filter)
    ensures
        video_filter(f, "bwdif"@, "bwdif=mode="@ + option_escaped(mode@)),
{
    keyed("bwdif", "bwdif=mode=", mode)
}

/// The `lutyuv` options for the given channel expressions, joined by `:`.
pub open spec fn lut_parts(y: Option<&str>, u: Option<&str>, v: Option<&str>) -> Seq<Seq<char>> {
    (match y { Some(e) => seq!["y="@ + option_escaped(e@)], None => Seq::empty() })
        + (match u { Some(e) => seq!["u="@ + option_escaped(e@)], None => Seq::empty() })
        + (match v { Some(e) => seq!["v="@ + option_escaped(e@)], None => Seq::empty() })
}

/// Parts joined with `:`.
pub open spec fn colon_joined(parts: Seq<Seq<char>>) -> Seq<char>
    decreases parts.len(),
{
    if parts.len() == 0 {
        Seq::empty()
    } else if parts.len() == 1 {
        parts[0]
    } else {
        colon_joined(parts.drop_last()) + ":"@ + parts.last()
    }
}

/// Appends `part` to a colon-joined list that has `count` parts so far.
fn push_part(s: &mut String, count: usize, key: &str, expr: &str, Ghost(parts): Ghost<Seq<Seq<char>>>)
    requires
        parts.len() == count,
        old(s)@ == "lutyuv="@ + colon_joined(parts),
    ensures
        final(s)@ == "lutyuv="@ + colon_joined(parts.push(key@ + option_escaped(expr@))),
{
    let e = escape_filter_option(expr);
    if count > 0 {
        push_str(s, ":");
    }
    push_str(s, key);
    push_str(s, e.as_str());
    let ghost np = parts.push(key@ + option_escaped(expr@));
    assert(np.drop_last() =~= parts);
    if count == 0 {
        assert(colon_joined(parts) =~= Seq::<char>::empty());
    }
}

/// Maps each YUV channel through the given expression (FFmpeg's `lutyuv`),
/// leaving a channel without one unchanged: `lutyuv=y=E:u=E:v=E`, or
/// `lutyuv` when no channel has an expression.
pub fn lutyuv(y: Option<&str>, u: Option<&str>, v: Option<&str>) -> (f: Filter)
    ensures
        video_filter(f, "lutyuv"@, if lut_parts(y, u, v).len() == 0 {
            "lutyuv"@
        } else {
            "lutyuv="@ + colon_joined(lut_parts(y, u, v))
        }),
{
    let mut s = "lutyuv=".to_string();
    let mut count: usize = 0;
    let ghost mut parts: Seq<Seq<char>> = Seq::empty();
    assert(s@ == "lutyuv="@ + colon_joined(parts));
    if let Some(e) = y {
        push_part(&mut s, count, "y=", e, Ghost(parts));
        proof {
            parts = parts.push("y="@ + option_escaped(e@));
        }
        count = count + 1;
    }
    if let Some(e) = u {
        push_part(&mut s, count, "u=", e, Ghost(parts));
        proof {
            parts = parts.push("u="@ + option_escaped(e@));
        }
        count = count + 1;
    }
    if let Some(e) = v {
        push_part(&mut s, count, "v=", e, Ghost(parts));
        proof {
            parts = parts.push("v="@ + option_escaped(e@));
        }
        count = count + 1;
    }
    assert(parts =~= lut_parts(y, u, v));
    if count == 0 {
        bare("lutyuv")
    } else {
        video("lutyuv", s)
    }
}

/// Lays `cols` x `rows` frames out as one frame, `padding` pixels apart on
/// a background of colour `color`: `tile=CxR:padding=P:color=C`.
pub fn tile(cols: u32, rows: u32, padding: u32, color: &str) -> (f: Filter)
    ensures
        video_filter(f, "tile"@, "tile="@ + nat_digits(cols as nat) + "x"@ + nat_digits(rows as nat) + ":padding="@
            + nat_digits(padding as nat) + ":color="@ + option_escaped(color@)),
{
    let c = escape_filter_option(color);
    let mut s = "tile=".to_string();
    push_u64(&mut s, cols as u64);
    push_str(&mut s, "x");
    push_u64(&mut s, rows as u64);
    push_str(&mut s, ":padding=");
    push_u64(&mut s, padding as u64);
    push_str(&mut s, ":color=");
    push_str(&mut s, c.as_str());
    video("tile", s)
}

} // verus!
