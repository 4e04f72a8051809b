//! Argument lists for the two external tools: the lossy PNG recompressor
//! and the video muxer. The tools run as black-box processes outside this
//! crate; the exact command lines they are given are pinned here.

use vstd::prelude::*;
use vstd::string::*;

use crate::naming::{day_glob, video_name, Date};

verus! {

/// Command line for the lossy recompressor: recompress `path` in place at
/// quality 40–60, keeping the original if the result would be larger.
pub fn recompress_args(path: &str) -> (args: Vec<String>)
    ensures
        args@.len() == 7,
        args@[0]@ == "--force"@,
        args@[1]@ == "--skip-if-larger"@,
        args@[2]@ == "--quality"@,
        args@[3]@ == "40-60"@,
        args@[4]@ == "--output"@,
        args@[5]@ == path@,
        args@[6]@ == path@,
{
    let mut args: Vec<String> = Vec::new();
    args.push(String::from_str("--force"));
    args.push(String::from_str("--skip-if-larger"));
    args.push(String::from_str("--quality"));
    args.push(String::from_str("40-60"));
    args.push(String::from_str("--output"));
    args.push(String::from_str(path));
    args.push(String::from_str(path));
    args
}

/// Command line for the video muxer: read day `d`'s artifacts of this
/// prefix in `output_dir` through the day glob at a 2 fps input rate, and
/// write `{prefix}_{YYYYMMDD}.mp4` beside them as constant-frame-rate
/// video with 4:2:0 chroma subsampling.
pub fn muxer_args(output_dir: &str, prefix: &str, d: &Date) -> (args: Vec<String>)
    requires
        d.wf(),
    ensures
        args@.len() == 11,
        args@[0]@ == "-framerate"@,
        args@[1]@ == "2"@,
        args@[2]@ == "-pattern_type"@,
        args@[3]@ == "glob"@,
        args@[4]@ == "-i"@,
        args@[5]@ == output_dir@ + seq!['/'] + day_glob(prefix@, *d),
        args@[6]@ == "-c:v"@,
        args@[7]@ == "libx265"@,
        args@[8]@ == "-pix_fmt"@,
        args@[9]@ == "yuv420p"@,
        args@[10]@ == output_dir@ + seq!['/'] + video_name(prefix@, *d),
{
    let mut glob_path = String::from_str(output_dir);
    glob_path.append("/");
    let pattern = crate::naming::day_glob_pattern(prefix, d);
    glob_path.append(pattern.as_str());

    let mut out_path = String::from_str(output_dir);
    out_path.append("/");
    let video = crate::naming::video_filename(prefix, d);
    out_path.append(video.as_str());

    proof {
        reveal_strlit("/");
        assert("/"@ =~= seq!['/']);
        assert(glob_path@ =~= output_dir@ + seq!['/'] + day_glob(prefix@, *d));
        assert(out_path@ =~= output_dir@ + seq!['/'] + video_name(prefix@, *d));
    }
    let mut args: Vec<String> = Vec::new();
    args.push(String::from_str("-framerate"));
    args.push(String::from_str("2"));
    args.push(String::from_str("-pattern_type"));
    args.push(String::from_str("glob"));
    args.push(String::from_str("-i"));
    args.push(glob_path);
    args.push(String::from_str("-c:v"));
    args.push(String::from_str("libx265"));
    args.push(String::from_str("-pix_fmt"));
    args.push(String::from_str("yuv420p"));
    args.push(out_path);
    args
}

} // verus!
