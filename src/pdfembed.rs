//! Options of the PDF font embedder.
use vstd::prelude::*;
use vstd::string::*;

verus! {

/// Options: whether to overwrite each file in place, and the PDF files to process.
pub struct PdfEmbed {
    pub overwrite: bool,
    pub files: Vec<String>,
}


/// The file name of the copy with embedded fonts of a PDF: `emb_{stem}.{ext}`.
pub fn embedded_name(stem: &str, ext: &str) -> (r: String)
    ensures
        r@ == "emb_"@ + stem@ + "."@ + ext@,
{
    let mut r = String::from_str("emb_");
    r.append(stem);
    r.append(".");
    r.append(ext);
    r
}

} // verus!
