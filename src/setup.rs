//! Options of the workstation setup.
use vstd::prelude::*;
use vstd::string::*;

verus! {

/// Options of the workstation setup: there are none.
pub struct Setup {}


/// The pattern of a line of GitHub's latest-release listing that holds the
/// download link of the 64-bit Linux archive, captured as `url` (`\x22` is a
/// double quote).
pub const DOWNLOAD_URL_PATTERN: &'static str = ".*browser_download_url.*\\x22(?P<url>.*linux64\\.tar\\.gz)";

/// The `url` group of the first match of `DOWNLOAD_URL_PATTERN` in `line`,
/// as `regex::Regex::captures` finds it; nothing when the line does not
/// match.
pub uninterp spec fn download_url_in(line: Seq<char>) -> Option<Seq<char>>;

/// Relies on `regex::Regex::captures` with `DOWNLOAD_URL_PATTERN` (a valid
/// pattern, so compiling it does not fail): the text of the `url` group,
/// which takes part in every match.
#[verifier::external_body]
fn match_download_url(line: &str) -> (r: Option<String>)
    ensures
        r is Some <==> download_url_in(line@) is Some,
        r is Some ==> r->Some_0@ == download_url_in(line@)->Some_0,
{
    let re = regex::Regex::new(DOWNLOAD_URL_PATTERN).unwrap();
    re.captures(line).map(|caps| caps.name("url").unwrap().as_str().to_string())
}

/// The number of characters before the first `\n` of `s` (all of them when
/// there is none).
pub open spec fn line_end(s: Seq<char>) -> nat
    decreases s.len(),
{
    if s.len() == 0 || s[0] == '\n' {
        0
    } else {
        1 + line_end(s.drop_first())
    }
}

/// A line as `str::lines` yields it: the text before a `\n`, without a `\r`
/// just before that `\n`.
pub open spec fn line_text(s: Seq<char>) -> Seq<char> {
    let k = line_end(s);
    if k < s.len() && k > 0 && s[k - 1] == '\r' {
        s.subrange(0, k - 1)
    } else {
        s.subrange(0, k as int)
    }
}

/// The download link found on the first line of `s` that holds one.
pub open spec fn first_download_url(s: Seq<char>) -> Option<Seq<char>>
    decreases s.len(),
{
    if s.len() == 0 {
        None
    } else {
        match download_url_in(line_text(s)) {
            Some(u) => Some(u),
            None => if line_end(s) < s.len() {
                first_download_url(s.subrange(line_end(s) + 1int, s.len() as int))
            } else {
                None
            },
        }
    }
}

proof fn lemma_line_end(s: Seq<char>, k: nat)
    requires
        k <= s.len(),
        forall|j: int| 0 <= j < k ==> s[j] != '\n',
        k == s.len() || s[k as int] == '\n',
    ensures
        line_end(s) == k,
    decreases k,
{
    if k > 0 {
        lemma_line_end(s.drop_first(), (k - 1) as nat);
    }
}

/// The position of the first `\n` at or after `start`, or the length when
/// there is none.
fn next_newline(text: &str, start: usize) -> (end: usize)
    requires
        start <= text@.len(),
    ensures
        start <= end <= text@.len(),
        forall|j: int| start <= j < end ==> text@[j] != '\n',
        end == text@.len() || text@[end as int] == '\n',
{
    let n = text.unicode_len();
    let mut end: usize = start;
    while end < n && text.get_char(end) != '\n'
        invariant
            start <= end <= n,
            n == text@.len(),
            forall|j: int| start <= j < end ==> text@[j] != '\n',
        decreases n - end,
    {
        end = end + 1;
    }
    end
}

/// Finds the download link of the 64-bit Linux archive in the listing of a
/// project's latest release, looking at its lines in order.
pub fn latest_download_url(listing: &str) -> (r: Option<String>)
    ensures
        r is Some <==> first_download_url(listing@) is Some,
        r is Some ==> r->Some_0@ == first_download_url(listing@)->Some_0,
{
    let n = listing.unicode_len();
    let mut start: usize = 0;
    assert(listing@.subrange(0, n as int) =~= listing@);
    while start < n
        invariant
            n == listing@.len(),
            start <= n,
            first_download_url(listing@) == first_download_url(listing@.subrange(start as int, n as int)),
        decreases n - start,
    {
        let ghost rest = listing@.subrange(start as int, n as int);
        let end = next_newline(listing, start);
        proof {
            lemma_line_end(rest, (end - start) as nat);
        }
        let line_stop: usize = if end < n && end > start && listing.get_char(end - 1) == '\r' {
            end - 1
        } else {
            end
        };
        let line = listing.substring_char(start, line_stop);
        assert(line@ =~= line_text(rest));
        let found = match_download_url(line);
        if found.is_some() {
            return found;
        }
        if end == n {
            return None;
        }
        assert(rest.subrange(end - start + 1, rest.len() as int) =~= listing@.subrange(end + 1, n as int));
        start = end + 1;
    }
    None
}

} // verus!
