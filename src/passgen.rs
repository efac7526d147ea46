//! Options of the password generator.
use vstd::prelude::*;
use vstd::string::*;
use crate::version::{decimal, push_decimal};

verus! {

/// Options: whether to leave symbols out, and the password's length.
pub struct PassGen {
    pub no_symbols: bool,
    pub length: u32,
}


/// The characters a password may hold, as a `tr` set: letters and digits,
/// and unless `no_symbols`, the OWASP password special characters.
pub open spec fn char_set_text(no_symbols: bool) -> Seq<char> {
    if no_symbols {
        "A-Za-z0-9"@
    } else {
        "A-Za-z0-9!\"#$%&'\\''()*+,-./:;<=>?@[\\]^_`{|}~"@
    }
}

/// The shell command that draws the password from `/dev/urandom`.
pub open spec fn password_command_text(no_symbols: bool, length: u32) -> Seq<char> {
    "LC_ALL=C tr -dc '"@ + char_set_text(no_symbols) + "' < /dev/urandom | head -c "@ + decimal(
        length as nat,
    )
}

impl PassGen {
    /// The shell command that generates the password.
    pub fn command(&self) -> (r: String)
        ensures
            r@ == password_command_text(self.no_symbols, self.length),
    {
        let mut r = String::from_str("LC_ALL=C tr -dc '");
        if self.no_symbols {
            r.append("A-Za-z0-9");
        } else {
            r.append("A-Za-z0-9!\"#$%&'\\''()*+,-./:;<=>?@[\\]^_`{|}~");
        }
        r.append("' < /dev/urandom | head -c ");
        push_decimal(&mut r, self.length as u64);
        r
    }
}

} // verus!
