//! Options of the PDF cropper.
use vstd::prelude::*;
use vstd::string::*;

verus! {

/// Options: whether to overwrite each file in place, and the PDF files to crop.
pub struct PdfCrop {
    pub overwrite: bool,
    pub files: Vec<String>,
}


/// The file name of the cropped copy of a PDF: `crop_{stem}.{ext}`.
pub fn cropped_name(stem: &str, ext: &str) -> (r: String)
    ensures
        r@ == "crop_"@ + stem@ + "."@ + ext@,
{
    let mut r = String::from_str("crop_");
    r.append(stem);
    r.append(".");
    r.append(ext);
    r
}

} // verus!
