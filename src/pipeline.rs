//! Route classification and the external-process chains of each route, built as typed
//! argument lists. Running them is left to the caller, stage by stage, in order; a
//! stage that fails ends the conversion of that file.
use vstd::prelude::*;
use crate::encode::{is_crf_text, profile_for, select_profile};
use crate::error::ConvertError;
use crate::text::opt_text;
use crate::video::{crop_text, is_hdr, master_display_of, norm, pixels_of, Video};

verus! {

/// How a video is converted.
#[derive(Debug, Clone, Copy, PartialEq, Eq, Structural)]
pub enum Route {
    Sdr,
    Hdr10,
    DolbyVision,
}

/// One external process: its program and its arguments.
#[derive(Debug)]
pub struct Invocation {
    pub program: String,
    pub args: Vec<String>,
}

/// A step of a conversion: one process, or a producer piping its output into a consumer.
#[derive(Debug)]
pub enum Stage {
    Run(Invocation),
    Pipe(Invocation, Invocation),
}

pub type ProcView = (Seq<char>, Seq<Seq<char>>);

pub open spec fn args_view(v: Seq<String>) -> Seq<Seq<char>> {
    v.map_values(|s: String| s@)
}

pub open spec fn proc_view(i: Invocation) -> ProcView {
    (i.program@, args_view(i.args@))
}

/// A stage as the processes it starts, producer first.
pub open spec fn stage_view(s: Stage) -> Seq<ProcView> {
    match s {
        Stage::Run(i) => seq![proc_view(i)],
        Stage::Pipe(p, c) => seq![proc_view(p), proc_view(c)],
    }
}

pub open spec fn stages_view(s: Seq<Stage>) -> Seq<Seq<ProcView>> {
    s.map_values(|st: Stage| stage_view(st))
}

/// Dolby Vision only on request; otherwise HDR10 exactly for the 10-bit planar pixel format.
pub open spec fn route_for(hdr: bool, dolby_vision: bool) -> Route {
    if dolby_vision {
        Route::DolbyVision
    } else if hdr {
        Route::Hdr10
    } else {
        Route::Sdr
    }
}

pub open spec fn rpu_path(input: Seq<char>) -> Seq<char> {
    input + ".rpu"@
}

/// The HDR10 parameter block: color tags, mastering display, and an unset content light level.
pub open spec fn hdr_params_text(
    prim: Seq<char>,
    transfer: Seq<char>,
    matrix: Seq<char>,
    master: Seq<char>,
) -> Seq<char> {
    "hdr-opt=1:repeat-headers=1:colorprim="@ + prim + ":transfer="@ + transfer + ":colormatrix="@
        + matrix + ":master-display="@ + master + ":max-cll=0,0"@
}

/// The HDR10 parameter block of `v`, where its color tags and mastering display are present.
pub open spec fn hdr_params_of(v: &Video) -> Option<Seq<char>> {
    match (
        norm(v.meta.color_primaries),
        norm(v.meta.color_transfer),
        norm(v.meta.color_space),
        master_display_of(v),
    ) {
        (Some(p), Some(t), Some(m), Some(d)) => Some(hdr_params_text(p, t, m, d)),
        _ => None,
    }
}

/// Arguments of the single encoder run of the SDR and HDR10 routes.
pub open spec fn encode_args(
    input: Seq<char>,
    pix_fmt: Seq<char>,
    crop: Option<Seq<char>>,
    preset: Seq<char>,
    crf: Seq<char>,
    hdr: Option<Seq<char>>,
    output: Seq<char>,
) -> Seq<Seq<char>> {
    seq![
        "-i"@,
        input,
        "-map"@,
        "0:v"@,
        "-map"@,
        "0:a?"@,
        "-map"@,
        "0:s?"@,
        "-c:a"@,
        "copy"@,
        "-c:s"@,
        "copy"@,
        "-c:v"@,
        "libx265"@,
        "-pix_fmt"@,
        pix_fmt,
    ] + match crop {
        Some(c) => seq!["-vf"@, c],
        None => Seq::empty(),
    } + seq!["-preset"@, preset, "-crf"@, crf] + match hdr {
        Some(h) => seq!["-x265-params"@, h],
        None => Seq::empty(),
    } + seq![output]
}

/// RPU extraction: a lossless re-mux of the input piped into the extraction tool.
pub open spec fn extract_stage(input: Seq<char>) -> Seq<ProcView> {
    seq![
        (
            "ffmpeg"@,
            seq![
                "-i"@,
                input,
                "-c:v"@,
                "copy"@,
                "-vbsf"@,
                "hevc_mp4toannexb"@,
                "-f"@,
                "hevc"@,
                "-"@,
            ],
        ),
        ("dovi_tool"@, seq!["-m"@, "2"@, "extract-rpu"@, "--rpu-out"@, rpu_path(input), "-"@]),
    ]
}

/// The Dolby Vision encode: raw frames piped into the dedicated encoder.
pub open spec fn dv_encode_stage(
    input: Seq<char>,
    pix_fmt: Seq<char>,
    preset: Seq<char>,
    crf: Seq<char>,
    master: Seq<char>,
    matrix: Seq<char>,
    prim: Seq<char>,
    transfer: Seq<char>,
    output: Seq<char>,
) -> Seq<ProcView> {
    seq![
        (
            "ffmpeg"@,
            seq![
                "-i"@,
                input,
                "-f"@,
                "yuv4mpegpipe"@,
                "-strict"@,
                "-1"@,
                "-pix_fmt"@,
                pix_fmt,
                "-"@,
            ],
        ),
        (
            "x265"@,
            seq![
                "-"@,
                "--input-depth"@,
                "10"@,
                "--output-depth"@,
                "10"@,
                "--y4m"@,
                "--preset"@,
                preset,
                "--crf"@,
                crf,
                "--master-display"@,
                master,
                "--max-cll"@,
                "0,0"@,
                "--colormatrix"@,
                matrix,
                "--colorprim"@,
                prim,
                "--transfer"@,
                transfer,
                "--dolby-vision-rpu"@,
                rpu_path(input),
                "--dolby-vision-profile"@,
                "8.1"@,
                "--vbv-bufsize"@,
                "20000"@,
                "--vbv-maxrate"@,
                "20000"@,
                output + ".hevc"@,
            ],
        ),
    ]
}

pub open spec fn crop_arg(v: &Video) -> Option<Seq<char>> {
    if v.crop_video {
        Some(crop_text(v.width, v.height, v.crop_x, v.crop_y))
    } else {
        None
    }
}

/// The stages that convert `v` into `output` with the given CRF and preset; `None` where a
/// metadata field that the route needs is absent.
pub open spec fn plan_of(
    v: &Video,
    output: Seq<char>,
    dolby_vision: bool,
    crf: Seq<char>,
    preset: Seq<char>,
    rpu_exists: bool,
) -> Option<Seq<Seq<ProcView>>> {
    match norm(v.meta.pix_fmt) {
        None => None,
        Some(pf) => match route_for(is_hdr(v), dolby_vision) {
            Route::Sdr => Some(
                seq![seq![("ffmpeg"@, encode_args(v.file@, pf, crop_arg(v), preset, crf, None, output))]],
            ),
            Route::Hdr10 => match hdr_params_of(v) {
                Some(h) => Some(
                    seq![
                        seq![
                            ("ffmpeg"@, encode_args(v.file@, pf, crop_arg(v), preset, crf, Some(h), output)),
                        ],
                    ],
                ),
                None => None,
            },
            Route::DolbyVision => match (
                master_display_of(v),
                norm(v.meta.color_space),
                norm(v.meta.color_primaries),
                norm(v.meta.color_transfer),
            ) {
                (Some(d), Some(m), Some(p), Some(t)) => {
                    let enc = dv_encode_stage(v.file@, pf, preset, crf, d, m, p, t, output);
                    if rpu_exists {
                        Some(seq![enc])
                    } else {
                        Some(seq![extract_stage(v.file@), enc])
                    }
                },
                _ => None,
            },
        },
    }
}

fn push_arg(a: &mut Vec<String>, s: &str)
    ensures
        args_view(final(a)@) == args_view(old(a)@).push(s@),
{
    a.push(String::from_str(s));
    proof {
        assert(args_view(final(a)@) =~= args_view(old(a)@).push(s@));
    }
}

fn invocation(program: &str, args: Vec<String>) -> (r: Invocation)
    ensures
        proc_view(r) == (program@, args_view(args@)),
{
    Invocation { program: String::from_str(program), args }
}

fn with_suffix(s: &str, suffix: &str) -> (r: String)
    ensures
        r@ == s@ + suffix@,
{
    let mut r = String::from_str(s);
    r.append(suffix);
    r
}

/// The route: Dolby Vision on request, else HDR10 for the 10-bit planar pixel format, else SDR.
pub fn classify(video: &Video, dolby_vision: bool) -> (r: Route)
    ensures
        r == route_for(is_hdr(video), dolby_vision),
{
    if dolby_vision {
        Route::DolbyVision
    } else if video.is_hdr_video() {
        Route::Hdr10
    } else {
        Route::Sdr
    }
}

/// The HDR10 parameter block of a video; `None` where a color tag or the mastering
/// display is absent.
pub fn hdr_params(video: &Video) -> (r: Option<String>)
    ensures
        opt_string(r) == hdr_params_of(video),
{
    let prim = video.get_color_primaries()?;
    let transfer = video.get_color_transfer()?;
    let matrix = video.get_color_space()?;
    let master = video.get_master_display()?;
    let mut s = String::from_str("hdr-opt=1:repeat-headers=1:colorprim=");
    s.append(prim);
    s.append(":transfer=");
    s.append(transfer);
    s.append(":colormatrix=");
    s.append(matrix);
    s.append(":master-display=");
    s.append(master.as_str());
    s.append(":max-cll=0,0");
    proof {
        assert(s@ =~= hdr_params_text(prim@, transfer@, matrix@, master@));
    }
    Some(s)
}

pub open spec fn opt_string(o: Option<String>) -> Option<Seq<char>> {
    match o {
        Some(s) => Some(s@),
        None => None,
    }
}

/// Arguments of the single encoder run of the SDR and HDR10 routes.
pub fn build_encode_args(
    input: &str,
    pix_fmt: &str,
    crop: Option<&str>,
    preset: &str,
    crf: &str,
    hdr: Option<&str>,
    output: &str,
) -> (r: Vec<String>)
    ensures
        args_view(r@) == encode_args(
            input@,
            pix_fmt@,
            opt_text(crop),
            preset@,
            crf@,
            opt_text(hdr),
            output@,
        ),
{
    let mut a: Vec<String> = Vec::new();
    push_arg(&mut a, "-i");
    push_arg(&mut a, input);
    push_arg(&mut a, "-map");
    push_arg(&mut a, "0:v");
    push_arg(&mut a, "-map");
    push_arg(&mut a, "0:a?");
    push_arg(&mut a, "-map");
    push_arg(&mut a, "0:s?");
    push_arg(&mut a, "-c:a");
    push_arg(&mut a, "copy");
    push_arg(&mut a, "-c:s");
    push_arg(&mut a, "copy");
    push_arg(&mut a, "-c:v");
    push_arg(&mut a, "libx265");
    push_arg(&mut a, "-pix_fmt");
    push_arg(&mut a, pix_fmt);
    let ghost head = args_view(a@);
    if let Some(c) = crop {
        push_arg(&mut a, "-vf");
        push_arg(&mut a, c);
    }
    let ghost with_crop = args_view(a@);
    push_arg(&mut a, "-preset");
    push_arg(&mut a, preset);
    push_arg(&mut a, "-crf");
    push_arg(&mut a, crf);
    let ghost with_rate = args_view(a@);
    if let Some(h) = hdr {
        push_arg(&mut a, "-x265-params");
        push_arg(&mut a, h);
    }
    let ghost with_hdr = args_view(a@);
    push_arg(&mut a, output);
    proof {
        let crop_part = match opt_text(crop) {
            Some(c) => seq!["-vf"@, c],
            None => Seq::<Seq<char>>::empty(),
        };
        let hdr_part = match opt_text(hdr) {
            Some(h) => seq!["-x265-params"@, h],
            None => Seq::<Seq<char>>::empty(),
        };
        assert(with_crop =~= head + crop_part);
        assert(with_rate =~= head + crop_part + seq!["-preset"@, preset@, "-crf"@, crf@]);
        assert(with_hdr =~= head + crop_part + seq!["-preset"@, preset@, "-crf"@, crf@]
            + hdr_part);
        assert(args_view(a@) =~= encode_args(
            input@,
            pix_fmt@,
            opt_text(crop),
            preset@,
            crf@,
            opt_text(hdr),
            output@,
        ));
    }
    a
}

/// RPU extraction for `input_file`. Where the sidecar `<input>.rpu` already exists the
/// stage is skipped (`None`) and the existing file is reused as it is.
pub fn extract_rpu(input_file: &str, rpu_exists: bool) -> (r: Option<Stage>)
    ensures
        rpu_exists ==> r is None,
        !rpu_exists ==> (r matches Some(st) && stage_view(st) == extract_stage(input_file@)),
{
    if rpu_exists {
        return None;
    }
    let mut remux: Vec<String> = Vec::new();
    push_arg(&mut remux, "-i");
    push_arg(&mut remux, input_file);
    push_arg(&mut remux, "-c:v");
    push_arg(&mut remux, "copy");
    push_arg(&mut remux, "-vbsf");
    push_arg(&mut remux, "hevc_mp4toannexb");
    push_arg(&mut remux, "-f");
    push_arg(&mut remux, "hevc");
    push_arg(&mut remux, "-");
    let rpu = with_suffix(input_file, ".rpu");
    let mut extract: Vec<String> = Vec::new();
    push_arg(&mut extract, "-m");
    push_arg(&mut extract, "2");
    push_arg(&mut extract, "extract-rpu");
    push_arg(&mut extract, "--rpu-out");
    push_arg(&mut extract, rpu.as_str());
    push_arg(&mut extract, "-");
    assert(args_view(remux@) =~= extract_stage(input_file@)[0].1);
    assert(args_view(extract@) =~= extract_stage(input_file@)[1].1);
    let st = Stage::Pipe(invocation("ffmpeg", remux), invocation("dovi_tool", extract));
    proof {
        assert(stage_view(st) =~= extract_stage(input_file@));
    }
    Some(st)
}

/// The Dolby Vision encode stage.
pub fn build_dv_encode(
    input: &str,
    pix_fmt: &str,
    preset: &str,
    crf: &str,
    master: &str,
    matrix: &str,
    prim: &str,
    transfer: &str,
    output: &str,
) -> (r: Stage)
    ensures
        stage_view(r) == dv_encode_stage(
            input@,
            pix_fmt@,
            preset@,
            crf@,
            master@,
            matrix@,
            prim@,
            transfer@,
            output@,
        ),
{
    let mut raw: Vec<String> = Vec::new();
    push_arg(&mut raw, "-i");
    push_arg(&mut raw, input);
    push_arg(&mut raw, "-f");
    push_arg(&mut raw, "yuv4mpegpipe");
    push_arg(&mut raw, "-strict");
    push_arg(&mut raw, "-1");
    push_arg(&mut raw, "-pix_fmt");
    push_arg(&mut raw, pix_fmt);
    push_arg(&mut raw, "-");
    let rpu = with_suffix(input, ".rpu");
    let out = with_suffix(output, ".hevc");
    let mut enc: Vec<String> = Vec::new();
    push_arg(&mut enc, "-");
    push_arg(&mut enc, "--input-depth");
    push_arg(&mut enc, "10");
    push_arg(&mut enc, "--output-depth");
    push_arg(&mut enc, "10");
    push_arg(&mut enc, "--y4m");
    push_arg(&mut enc, "--preset");
    push_arg(&mut enc, preset);
    push_arg(&mut enc, "--crf");
    push_arg(&mut enc, crf);
    push_arg(&mut enc, "--master-display");
    push_arg(&mut enc, master);
    push_arg(&mut enc, "--max-cll");
    push_arg(&mut enc, "0,0");
    push_arg(&mut enc, "--colormatrix");
    push_arg(&mut enc, matrix);
    push_arg(&mut enc, "--colorprim");
    push_arg(&mut enc, prim);
    push_arg(&mut enc, "--transfer");
    push_arg(&mut enc, transfer);
    push_arg(&mut enc, "--dolby-vision-rpu");
    push_arg(&mut enc, rpu.as_str());
    push_arg(&mut enc, "--dolby-vision-profile");
    push_arg(&mut enc, "8.1");
    push_arg(&mut enc, "--vbv-bufsize");
    push_arg(&mut enc, "20000");
    push_arg(&mut enc, "--vbv-maxrate");
    push_arg(&mut enc, "20000");
    push_arg(&mut enc, out.as_str());
    let ghost want = dv_encode_stage(
        input@,
        pix_fmt@,
        preset@,
        crf@,
        master@,
        matrix@,
        prim@,
        transfer@,
        output@,
    );
    assert(args_view(raw@) =~= want[0].1);
    assert(args_view(enc@) =~= want[1].1);
    let st = Stage::Pipe(invocation("ffmpeg", raw), invocation("x265", enc));
    proof {
        assert(stage_view(st) =~= dv_encode_stage(
            input@,
            pix_fmt@,
            preset@,
            crf@,
            master@,
            matrix@,
            prim@,
            transfer@,
            output@,
        ));
    }
    st
}

/// The CRF override is present and not a non-negative integer.
pub open spec fn bad_crf(crf: Option<&str>) -> bool {
    crf matches Some(c) && !is_crf_text(c@)
}

/// Plans the conversion of a probed (and, if wanted, already cropped) video into
/// `output_file`: chooses CRF and preset (overrides win), the route, and the stages to
/// run in order.
pub fn convert(
    input_video: &Video,
    output_file: &str,
    is_dolby_vision: bool,
    crf: Option<&str>,
    preset: Option<&str>,
    rpu_exists: bool,
) -> (r: Result<Vec<Stage>, ConvertError>)
    ensures
        bad_crf(crf) ==> r == Err::<Vec<Stage>, ConvertError>(ConvertError::InvalidCrf),
        !bad_crf(crf) ==> match plan_of(
            input_video,
            output_file@,
            is_dolby_vision,
            profile_for(pixels_of(input_video), opt_text(crf), opt_text(preset)).0,
            profile_for(pixels_of(input_video), opt_text(crf), opt_text(preset)).1,
            rpu_exists,
        ) {
            Some(p) => r matches Ok(st) && stages_view(st@) == p,
            None => r == Err::<Vec<Stage>, ConvertError>(ConvertError::MissingMetadata),
        },
{
    let profile = match select_profile(input_video.pixel_count(), crf, preset) {
        Ok(p) => p,
        Err(e) => return Err(e),
    };
    let c = profile.crf.as_str();
    let p = profile.preset.as_str();
    let input = match input_video.get_path_str() {
        Some(i) => i,
        None => return Err(ConvertError::MissingMetadata),
    };
    let pix_fmt = match input_video.get_pix_fmt() {
        Some(f) => f,
        None => return Err(ConvertError::MissingMetadata),
    };
    let mut stages: Vec<Stage> = Vec::new();
    match classify(input_video, is_dolby_vision) {
        Route::DolbyVision => {
            let (master, matrix, prim, transfer) = match (
                input_video.get_master_display(),
                input_video.get_color_space(),
                input_video.get_color_primaries(),
                input_video.get_color_transfer(),
            ) {
                (Some(d), Some(m), Some(pr), Some(t)) => (d, m, pr, t),
                _ => return Err(ConvertError::MissingMetadata),
            };
            if let Some(st) = extract_rpu(input, rpu_exists) {
                stages.push(st);
            }
            stages.push(
                build_dv_encode(
                    input,
                    pix_fmt,
                    p,
                    c,
                    master.as_str(),
                    matrix,
                    prim,
                    transfer,
                    output_file,
                ),
            );
        },
        route => {
            let hdr = if route == Route::Hdr10 {
                match hdr_params(input_video) {
                    Some(h) => Some(h),
                    None => return Err(ConvertError::MissingMetadata),
                }
            } else {
                None
            };
            let crop = if input_video.is_croped_video() {
                Some(input_video.get_ffmpeg_crop_str())
            } else {
                None
            };
            let crop_ref = match &crop {
                Some(s) => Some(s.as_str()),
                None => None,
            };
            let hdr_ref = match &hdr {
                Some(s) => Some(s.as_str()),
                None => None,
            };
            let args = build_encode_args(input, pix_fmt, crop_ref, p, c, hdr_ref, output_file);
            stages.push(Stage::Run(invocation("ffmpeg", args)));
        },
    }
    proof {
        assert(stages_view(stages@) =~= plan_of(
            input_video,
            output_file@,
            is_dolby_vision,
            profile.crf@,
            profile.preset@,
            rpu_exists,
        ).unwrap());
    }
    Ok(stages)
}

/// Route selection: the Dolby Vision flag gives the piped Dolby Vision chain whatever the
/// pixel format; without it, the 10-bit planar format gives one encoder run with the HDR10
/// parameter block, and any other format one encoder run without it.
pub proof fn lemma_route_selection(
    v: &Video,
    output: Seq<char>,
    dolby_vision: bool,
    crf: Seq<char>,
    preset: Seq<char>,
    rpu_exists: bool,
)
    requires
        norm(v.meta.pix_fmt) is Some,
    ensures
        dolby_vision ==> route_for(is_hdr(v), dolby_vision) == Route::DolbyVision,
        dolby_vision ==> (plan_of(v, output, dolby_vision, crf, preset, rpu_exists) matches Some(
            p,
        ) ==> p.last()[1].0 == "x265"@ && p.last()[1].1.contains(rpu_path(v.file@))),
        !dolby_vision && is_hdr(v) ==> route_for(is_hdr(v), dolby_vision) == Route::Hdr10,
        !dolby_vision && is_hdr(v) && hdr_params_of(v) is Some ==> plan_of(
            v,
            output,
            dolby_vision,
            crf,
            preset,
            rpu_exists,
        ) == Some(
            seq![
                seq![
                    (
                        "ffmpeg"@,
                        encode_args(
                            v.file@,
                            norm(v.meta.pix_fmt).unwrap(),
                            crop_arg(v),
                            preset,
                            crf,
                            hdr_params_of(v),
                            output,
                        ),
                    ),
                ],
            ],
        ),
        !dolby_vision && !is_hdr(v) ==> route_for(is_hdr(v), dolby_vision) == Route::Sdr,
        !dolby_vision && !is_hdr(v) ==> plan_of(v, output, dolby_vision, crf, preset, rpu_exists)
            == Some(
            seq![
                seq![
                    (
                        "ffmpeg"@,
                        encode_args(
                            v.file@,
                            norm(v.meta.pix_fmt).unwrap(),
                            crop_arg(v),
                            preset,
                            crf,
                            None,
                            output,
                        ),
                    ),
                ],
            ],
        ),
{
    if dolby_vision {
        if let Some(p) = plan_of(v, output, dolby_vision, crf, preset, rpu_exists) {
            assert(p.last()[1].1[21] == rpu_path(v.file@));
        }
    }
}

/// Reuse of the RPU sidecar: where `<input>.rpu` exists, the Dolby Vision plan has no
/// extraction stage and its encoder reads that file; otherwise extraction comes first and
/// writes it.
pub proof fn lemma_rpu_reuse(
    v: &Video,
    output: Seq<char>,
    crf: Seq<char>,
    preset: Seq<char>,
    rpu_exists: bool,
)
    ensures
        plan_of(v, output, true, crf, preset, rpu_exists) matches Some(p) ==> {
            &&& rpu_exists ==> p.len() == 1
            &&& !rpu_exists ==> p.len() == 2 && p[0] == extract_stage(v.file@)
            &&& p.last()[1].1.contains(rpu_path(v.file@))
        },
{
    if let Some(p) = plan_of(v, output, true, crf, preset, rpu_exists) {
        assert(p.last()[1].1[21] == rpu_path(v.file@));
    }
}

/// The encoder's arguments of a plan: the consumer of the last stage where it is a pipe,
/// else the single run.
pub open spec fn encoder_args(p: Seq<Seq<ProcView>>) -> Seq<Seq<char>> {
    p.last().last().1
}

/// `args` holds the preset and CRF pair `flag_p, preset, flag_c, crf` at some position.
pub open spec fn has_rate_pair(
    args: Seq<Seq<char>>,
    flag_p: Seq<char>,
    preset: Seq<char>,
    flag_c: Seq<char>,
    crf: Seq<char>,
) -> bool {
    exists|i: int|
        0 <= i && i + 3 < args.len() && #[trigger] args[i] == flag_p && args[i + 1] == preset
            && args[i + 2] == flag_c && args[i + 3] == crf
}

/// Overrides reach the encoder: with a CRF override that is a non-negative integer and
/// any preset override, whatever the pixel count, route or crop, the encoder is handed
/// both verbatim.
pub proof fn lemma_overrides_reach_encoder(
    v: &Video,
    output: Seq<char>,
    dolby_vision: bool,
    crf: Seq<char>,
    preset: Seq<char>,
    rpu_exists: bool,
)
    requires
        is_crf_text(crf),
    ensures
        ({
            let prof = profile_for(pixels_of(v), Some(crf), Some(preset));
            plan_of(v, output, dolby_vision, prof.0, prof.1, rpu_exists) matches Some(p) ==> {
                &&& dolby_vision ==> has_rate_pair(
                    encoder_args(p),
                    "--preset"@,
                    preset,
                    "--crf"@,
                    crf,
                )
                &&& !dolby_vision ==> has_rate_pair(
                    encoder_args(p),
                    "-preset"@,
                    preset,
                    "-crf"@,
                    crf,
                )
            }
        }),
{
    let prof = profile_for(pixels_of(v), Some(crf), Some(preset));
    assert(prof == (crf, preset));
    if let Some(p) = plan_of(v, output, dolby_vision, prof.0, prof.1, rpu_exists) {
        let a = encoder_args(p);
        if dolby_vision {
            assert(a[6] == "--preset"@);
        } else {
            let i: int = if v.crop_video { 18 } else { 16 };
            assert(a[i] == "-preset"@);
        }
    }
}

/// Where the HDR block stands: an HDR10 run ends with `-x265-params`, the block and the
/// output; an SDR run ends with the CRF pair and the output, with no slot for a block; a
/// Dolby Vision plan is made of pipes only, the last into the dedicated encoder.
pub proof fn lemma_hdr_block_placement(
    v: &Video,
    output: Seq<char>,
    dolby_vision: bool,
    crf: Seq<char>,
    preset: Seq<char>,
    rpu_exists: bool,
)
    ensures
        plan_of(v, output, dolby_vision, crf, preset, rpu_exists) matches Some(p) ==> {
            let a = encoder_args(p);
            &&& !dolby_vision && is_hdr(v) ==> p.len() == 1 && p[0].len() == 1 && a.len() >= 3
                && a[a.len() - 3] == "-x265-params"@ && Some(a[a.len() - 2]) == hdr_params_of(v)
                && a.last() == output
            &&& !dolby_vision && !is_hdr(v) ==> p.len() == 1 && p[0].len() == 1 && a.len() >= 3
                && a[a.len() - 3] == "-crf"@ && a[a.len() - 2] == crf && a.last() == output
            &&& dolby_vision ==> (forall|k: int| 0 <= k < p.len() ==> (#[trigger] p[k]).len() == 2)
                && p.last()[1].0 == "x265"@ && a.last() == output + ".hevc"@
        },
{
    if let Some(p) = plan_of(v, output, dolby_vision, crf, preset, rpu_exists) {
        let a = encoder_args(p);
        if !dolby_vision {
            assert(a.len() >= 3);
        }
    }
}

} // verus!
