//! The video being converted: its probed metadata, its effective geometry after
//! cropping, and what the encoder is asked for.
use vstd::prelude::*;
use vstd::utf8::encode_utf8;
use crate::crop::{
    aggregate_crops, clean, crop_windows, parse_seconds, seconds_of, tightest, windows_for,
    CropWindow, VideoCrop,
};
use crate::encode::{auto_crf, auto_preset, crf_for, preset_for, preset_name};
use crate::text::{decimal, numerator, numerator_of, opt_text, render_decimal};

verus! {

/// What the probe tool reports of a video's first frame and container, each field as it
/// was reported ("numerator/denominator" values not yet normalized) or `None` where the
/// answer lacks it.
#[derive(Debug)]
pub struct VideoMetadata {
    pub width: Option<u64>,
    pub height: Option<u64>,
    pub pix_fmt: Option<String>,
    pub color_primaries: Option<String>,
    pub color_space: Option<String>,
    pub color_transfer: Option<String>,
    /// The string members of the frame's first side-data entry, as (name, value).
    pub side_data: Vec<(String, String)>,
    pub duration: Option<String>,
}

/// A probed video and its effective geometry: the full frame, or the detected crop.
#[derive(Debug)]
pub struct Video {
    pub file: String,
    pub meta: VideoMetadata,
    pub width: u64,
    pub height: u64,
    pub crop_x: u64,
    pub crop_y: u64,
    pub crop_video: bool,
}

/// An optional raw value after normalization.
pub open spec fn norm(o: Option<String>) -> Option<Seq<char>> {
    match o {
        Some(s) => Some(numerator_of(s@)),
        None => None,
    }
}

/// The normalized value of the first side-data member named `key`, from index `i` on.
pub open spec fn side_from(e: Seq<(String, String)>, key: Seq<char>, i: int) -> Option<Seq<char>>
    decreases e.len() - i,
{
    if i < 0 || i >= e.len() {
        None
    } else if e[i].0@ == key {
        Some(numerator_of(e[i].1@))
    } else {
        side_from(e, key, i + 1)
    }
}

pub open spec fn side(v: &Video, key: Seq<char>) -> Option<Seq<char>> {
    side_from(v.meta.side_data@, key, 0)
}

/// The mastering-display parameter built from its ten values.
pub open spec fn mastering_text(
    gx: Seq<char>,
    gy: Seq<char>,
    bx: Seq<char>,
    by: Seq<char>,
    rx: Seq<char>,
    ry: Seq<char>,
    wx: Seq<char>,
    wy: Seq<char>,
    lmax: Seq<char>,
    lmin: Seq<char>,
) -> Seq<char> {
    "G("@ + gx + ","@ + gy + ")B("@ + bx + ","@ + by + ")R("@ + rx + ","@ + ry + ")WP("@ + wx
        + ","@ + wy + ")L("@ + lmax + ","@ + lmin + ")"@
}

/// The mastering-display parameter of `v`, where all ten values are present.
pub open spec fn master_display_of(v: &Video) -> Option<Seq<char>> {
    let gx = side(v, "green_x"@);
    let gy = side(v, "green_y"@);
    let bx = side(v, "blue_x"@);
    let by = side(v, "blue_y"@);
    let rx = side(v, "red_x"@);
    let ry = side(v, "red_y"@);
    let wx = side(v, "white_point_x"@);
    let wy = side(v, "white_point_y"@);
    let lmax = side(v, "max_luminance"@);
    let lmin = side(v, "min_luminance"@);
    if gx is Some && gy is Some && bx is Some && by is Some && rx is Some && ry is Some
        && wx is Some && wy is Some && lmax is Some && lmin is Some {
        Some(
            mastering_text(
                gx.unwrap(),
                gy.unwrap(),
                bx.unwrap(),
                by.unwrap(),
                rx.unwrap(),
                ry.unwrap(),
                wx.unwrap(),
                wy.unwrap(),
                lmax.unwrap(),
                lmin.unwrap(),
            ),
        )
    } else {
        None
    }
}

/// The crop filter argument for a geometry.
pub open spec fn crop_text(w: u64, h: u64, x: u64, y: u64) -> Seq<char> {
    "crop="@ + decimal(w as nat) + ":"@ + decimal(h as nat) + ":"@ + decimal(x as nat) + ":"@
        + decimal(y as nat)
}

/// The content is HDR10: its normalized pixel format is the 10-bit planar one.
pub open spec fn is_hdr(v: &Video) -> bool {
    norm(v.meta.pix_fmt) == Some("yuv420p10le"@)
}

pub open spec fn pixels_of(v: &Video) -> int {
    v.width * v.height
}

/// The detection windows of `v`'s container duration, where it is present and readable.
pub open spec fn windows_of(v: &Video) -> Option<Seq<CropWindow>> {
    match v.meta.duration {
        Some(d) => match seconds_of(encode_utf8(d@)) {
            Some(secs) => Some(windows_for(secs as nat)),
            None => None,
        },
        None => None,
    }
}

fn opt_norm(o: &Option<String>) -> (r: Option<&str>)
    ensures
        opt_text(r) == norm(*o),
{
    match o {
        Some(s) => Some(numerator(s.as_str())),
        None => None,
    }
}

impl Video {
    /// A video from the probe's answer for `file`, with its full frame as effective
    /// geometry. The probe has failed, and the result is `None`, where the answer lacks
    /// the frame's width or height; every other field may be absent.
    pub fn new(file: &str, meta: VideoMetadata) -> (r: Option<Self>)
        ensures
            r is Some <==> (meta.width is Some && meta.height is Some),
            r matches Some(v) ==> {
                &&& v.file@ == file@
                &&& v.meta == meta
                &&& v.width == meta.width.unwrap()
                &&& v.height == meta.height.unwrap()
                &&& v.crop_x == 0
                &&& v.crop_y == 0
                &&& !v.crop_video
            },
    {
        let width = match meta.width {
            Some(w) => w,
            None => return None,
        };
        let height = match meta.height {
            Some(h) => h,
            None => return None,
        };
        Some(
            Video {
                file: String::from_str(file),
                meta,
                width,
                height,
                crop_x: 0,
                crop_y: 0,
                crop_video: false,
            },
        )
    }

    pub fn get_path_str(&self) -> (r: Option<&str>)
        ensures
            opt_text(r) == Some(self.file@),
    {
        Some(self.file.as_str())
    }

    pub fn get_pix_fmt(&self) -> (r: Option<&str>)
        ensures
            opt_text(r) == norm(self.meta.pix_fmt),
    {
        opt_norm(&self.meta.pix_fmt)
    }

    pub fn get_color_primaries(&self) -> (r: Option<&str>)
        ensures
            opt_text(r) == norm(self.meta.color_primaries),
    {
        opt_norm(&self.meta.color_primaries)
    }

    pub fn get_color_space(&self) -> (r: Option<&str>)
        ensures
            opt_text(r) == norm(self.meta.color_space),
    {
        opt_norm(&self.meta.color_space)
    }

    pub fn get_color_transfer(&self) -> (r: Option<&str>)
        ensures
            opt_text(r) == norm(self.meta.color_transfer),
    {
        opt_norm(&self.meta.color_transfer)
    }

    /// The normalized value of the side-data member named `param`.
    pub fn get_side_data_list_param(&self, param: &str) -> (r: Option<&str>)
        ensures
            opt_text(r) == side(self, param@),
    {
        let key = String::from_str(param);
        let e = &self.meta.side_data;
        let mut i: usize = 0;
        while i < e.len()
            invariant
                key@ == param@,
                i <= e@.len(),
                side(self, param@) == side_from(e@, param@, i as int),
                e == &self.meta.side_data,
            decreases e@.len() - i,
        {
            if e[i].0 == key {
                return Some(numerator(e[i].1.as_str()));
            }
            i = i + 1;
        }
        None
    }

    /// The mastering-display parameter; `None` where one of its ten values is absent.
    pub fn get_master_display(&self) -> (r: Option<String>)
        ensures
            r matches Some(s) ==> master_display_of(self) == Some(s@),
            r is None ==> master_display_of(self) is None,
    {
        let gx = self.get_side_data_list_param("green_x")?;
        let gy = self.get_side_data_list_param("green_y")?;
        let bx = self.get_side_data_list_param("blue_x")?;
        let by = self.get_side_data_list_param("blue_y")?;
        let rx = self.get_side_data_list_param("red_x")?;
        let ry = self.get_side_data_list_param("red_y")?;
        let wx = self.get_side_data_list_param("white_point_x")?;
        let wy = self.get_side_data_list_param("white_point_y")?;
        let lmax = self.get_side_data_list_param("max_luminance")?;
        let lmin = self.get_side_data_list_param("min_luminance")?;
        let mut s = String::from_str("G(");
        s.append(gx);
        s.append(",");
        s.append(gy);
        s.append(")B(");
        s.append(bx);
        s.append(",");
        s.append(by);
        s.append(")R(");
        s.append(rx);
        s.append(",");
        s.append(ry);
        s.append(")WP(");
        s.append(wx);
        s.append(",");
        s.append(wy);
        s.append(")L(");
        s.append(lmax);
        s.append(",");
        s.append(lmin);
        s.append(")");
        proof {
            assert(s@ =~= mastering_text(gx@, gy@, bx@, by@, rx@, ry@, wx@, wy@, lmax@, lmin@));
        }
        Some(s)
    }

    /// The crop filter argument for the effective geometry: `crop=W:H:X:Y`.
    pub fn get_ffmpeg_crop_str(&self) -> (r: String)
        ensures
            r@ == crop_text(self.width, self.height, self.crop_x, self.crop_y),
    {
        let mut s = String::from_str("crop=");
        let w = render_decimal(self.width);
        let h = render_decimal(self.height);
        let x = render_decimal(self.crop_x);
        let y = render_decimal(self.crop_y);
        s.append(w.as_str());
        s.append(":");
        s.append(h.as_str());
        s.append(":");
        s.append(x.as_str());
        s.append(":");
        s.append(y.as_str());
        proof {
            assert(s@ =~= crop_text(self.width, self.height, self.crop_x, self.crop_y));
        }
        s
    }

    /// Whether the normalized pixel format is the 10-bit planar HDR10 one.
    pub fn is_hdr_video(&self) -> (r: bool)
        ensures
            r == is_hdr(self),
    {
        match self.get_pix_fmt() {
            Some(p) => String::from_str(p) == String::from_str("yuv420p10le"),
            None => false,
        }
    }

    /// Pixels of the effective frame.
    pub fn pixel_count(&self) -> (r: u128)
        ensures
            r == pixels_of(self),
    {
        assert(self.width * self.height <= u64::MAX * u64::MAX) by (nonlinear_arith);
        (self.width as u128) * (self.height as u128)
    }

    /// The table's CRF for the effective frame, as text.
    pub fn get_auto_crf(&self) -> (r: String)
        ensures
            r@ == decimal(crf_for(pixels_of(self))),
    {
        render_decimal(auto_crf(self.pixel_count()))
    }

    /// The table's preset for the effective frame, by name.
    pub fn get_auto_preset(&self) -> (r: String)
        ensures
            r@ == preset_name(preset_for(pixels_of(self))),
    {
        auto_preset(self.pixel_count()).name()
    }

    pub fn is_croped_video(&self) -> (r: bool)
        ensures
            r == self.crop_video,
    {
        self.crop_video
    }

    /// The crop detection windows for this video's duration; `None` where the duration is
    /// absent or unreadable.
    pub fn crop_windows(&self) -> (r: Option<Vec<CropWindow>>)
        ensures
            match r {
                Some(w) => windows_of(self) == Some(w@),
                None => windows_of(self) is None,
            },
    {
        match &self.meta.duration {
            Some(d) => match parse_seconds(d.as_str()) {
                Some(secs) => Some(crop_windows(secs)),
                None => None,
            },
            None => None,
        }
    }

    /// Applies the tightest of the windows' detected crops. Where no window detected one,
    /// the video keeps its full frame.
    pub fn crop_video(&mut self, windows: &Vec<VideoCrop>)
        ensures
            final(self).file == old(self).file,
            final(self).meta == old(self).meta,
            tightest(windows@) == clean() ==> *final(self) == *old(self),
            tightest(windows@) != clean() ==> final(self).width == tightest(windows@).w
                && final(self).height == tightest(windows@).h && final(self).crop_x == tightest(
                windows@,
            ).x && final(self).crop_y == tightest(windows@).y && final(self).crop_video,
    {
        let c = aggregate_crops(windows);
        if c.is_detected() {
            self.width = c.w;
            self.height = c.h;
            self.crop_x = c.x;
            self.crop_y = c.y;
            self.crop_video = true;
        }
    }
}

} // verus!
