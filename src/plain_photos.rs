//! Options of the photo metadata stripper and renamer.
use vstd::prelude::*;
use vstd::string::*;
use crate::version::{decimal, lemma_decimal_len, push_decimal};

verus! {

/// Options: the base name for the renamed photos, and the photo files.
pub struct PlainPhotos {
    pub basename: String,
    pub files: Vec<String>,
}


/// The decimal text of `n`, left-padded with zeros to `width` characters.
pub open spec fn zero_padded(n: nat, width: nat) -> Seq<char> {
    if decimal(n).len() < width {
        Seq::new((width - decimal(n).len()) as nat, |_i: int| '0') + decimal(n)
    } else {
        decimal(n)
    }
}

/// The new name of the photo at position `index`: `{basename}_{index}.{ext}`,
/// the index written with at least four digits.
pub fn photo_name(basename: &str, index: usize, ext: &str) -> (r: String)
    ensures
        r@ == basename@ + "_"@ + zero_padded(index as nat, 4) + "."@ + ext@,
{
    let mut r = String::from_str(basename);
    r.append("_");
    let ghost before = r@;
    proof {
        lemma_decimal_len(index as nat);
        reveal_strlit("000");
        reveal_strlit("00");
        reveal_strlit("0");
    }
    if index < 10 {
        r.append("000");
    } else if index < 100 {
        r.append("00");
    } else if index < 1000 {
        r.append("0");
    }
    let ghost zeros = r@.subrange(before.len() as int, r@.len() as int);
    assert(before + zeros =~= r@);
    push_decimal(&mut r, index as u64);
    assert(zeros + decimal(index as nat) =~= zero_padded(index as nat, 4));
    r.append(".");
    r.append(ext);
    assert(r@ =~= basename@ + "_"@ + zero_padded(index as nat, 4) + "."@ + ext@);
    r
}

} // verus!
