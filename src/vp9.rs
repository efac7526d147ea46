//! Options of the VP9 video encoder.
use vstd::prelude::*;
use vstd::string::*;
use crate::version::{decimal, push_decimal};

verus! {

/// Options: the input file, the constant-quality (CRF) value, whether to
/// overwrite an existing output, and the output's name without extension.
pub struct Vp9 {
    pub input: String,
    pub crf: u8,
    pub overwrite: bool,
    pub output: String,
}


/// The name of the encoded file: the output name with `.webm`.
pub open spec fn output_file_text(output: Seq<char>) -> Seq<char> {
    output + ".webm"@
}

/// The two-pass encoding command: a first pass that only gathers
/// statistics, then a second that writes the output, overwriting it or
/// refusing to as `overwrite` says.
pub open spec fn encode_command_text(input: Seq<char>, crf: u8, overwrite: bool, output: Seq<char>) -> Seq<char> {
    "ffmpeg -i '"@ + input + "' -c:v libvpx-vp9 -row-mt 1 -b:v 0 -crf "@ + decimal(crf as nat)
        + " -pass 1 -an -f null /dev/null && ffmpeg "@ + (if overwrite {
        "-y"@
    } else {
        "-n"@
    }) + " -i '"@ + input + "' -c:v libvpx-vp9 -row-mt 1 -b:v 0 -crf "@ + decimal(crf as nat)
        + " -pass 2 -c:a libopus '"@ + output + ".webm'"@
}

impl Vp9 {
    /// The name of the encoded file.
    pub fn output_file(&self) -> (r: String)
        ensures
            r@ == output_file_text(self.output@),
    {
        let mut r = self.output.clone();
        r.append(".webm");
        r
    }

    /// Whether to stop before encoding: the output exists and may not be
    /// overwritten.
    pub fn refuses(&self, output_exists: bool) -> (r: bool)
        ensures
            r == (!self.overwrite && output_exists),
    {
        !self.overwrite && output_exists
    }

    /// The shell command that encodes the input.
    pub fn encode_command(&self) -> (r: String)
        ensures
            r@ == encode_command_text(self.input@, self.crf, self.overwrite, self.output@),
    {
        let mut r = String::from_str("ffmpeg -i '");
        r.append(self.input.as_str());
        r.append("' -c:v libvpx-vp9 -row-mt 1 -b:v 0 -crf ");
        push_decimal(&mut r, self.crf as u64);
        r.append(" -pass 1 -an -f null /dev/null && ffmpeg ");
        if self.overwrite {
            r.append("-y");
        } else {
            r.append("-n");
        }
        r.append(" -i '");
        r.append(self.input.as_str());
        r.append("' -c:v libvpx-vp9 -row-mt 1 -b:v 0 -crf ");
        push_decimal(&mut r, self.crf as u64);
        r.append(" -pass 2 -c:a libopus '");
        r.append(self.output.as_str());
        r.append(".webm'");
        r
    }
}

} // verus!
