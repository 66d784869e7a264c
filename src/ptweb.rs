use vstd::prelude::*;
use vstd::string::*;

verus! {

/// The rest of `s` after `p`, where `s` starts with `p`.
pub open spec fn after_prefix(p: Seq<char>, s: Seq<char>) -> Option<Seq<char>> {
    if p.len() <= s.len() && s.subrange(0, p.len() as int) == p {
        Some(s.subrange(p.len() as int, s.len() as int))
    } else {
        None
    }
}

/// The part of `s` before `t`, where `s` ends with `t`.
pub open spec fn before_suffix(t: Seq<char>, s: Seq<char>) -> Option<Seq<char>> {
    if t.len() <= s.len() && s.subrange(s.len() - t.len(), s.len() as int) == t {
        Some(s.subrange(0, s.len() - t.len()))
    } else {
        None
    }
}

/// A character that may stand in a song id: an ASCII letter or digit, or `/`, which
/// private songs use.
pub open spec fn is_id_char(c: char) -> bool {
    ('a' <= c <= 'z') || ('A' <= c <= 'Z') || ('0' <= c <= '9') || c == '/'
}

/// `id` is a non-empty run of id characters.
pub open spec fn is_song_id(id: Seq<char>) -> bool {
    id.len() > 0 && forall|i: int| 0 <= i < id.len() ==> is_id_char(#[trigger] id[i])
}

/// What follows the site in a song link: the path after `http://` or `https://` and
/// the host.
pub open spec fn after_site(s: Seq<char>) -> Option<Seq<char>> {
    match after_prefix("https://www.ptweb.me/"@, s) {
        Some(rest) => Some(rest),
        None => after_prefix("http://www.ptweb.me/"@, s),
    }
}

/// What follows one of the song pages, `play/`, `get/` or `full/`.
pub open spec fn after_page(s: Seq<char>) -> Option<Seq<char>> {
    match after_prefix("play/"@, s) {
        Some(rest) => Some(rest),
        None => match after_prefix("get/"@, s) {
            Some(rest) => Some(rest),
            None => after_prefix("full/"@, s),
        },
    }
}

/// The song id in a link to a song on ptweb, the whole text being the link, or `None`
/// where the text is no such link.
pub open spec fn song_id_of(s: Seq<char>) -> Option<Seq<char>> {
    match after_site(s) {
        Some(path) => match after_page(path) {
            Some(id) => if is_song_id(id) {
                Some(id)
            } else {
                None
            },
            None => None,
        },
        None => None,
    }
}

/// `s` without its leading `p`, or `None` where it does not start with `p`.
fn strip_prefix<'a>(s: &'a str, p: &str) -> (r: Option<&'a str>)
    ensures
        r matches Some(x) ==> after_prefix(p@, s@) == Some(x@),
        r is None ==> after_prefix(p@, s@) is None,
{
    let n = p.unicode_len();
    let m = s.unicode_len();
    if n > m {
        return None;
    }
    let mut i: usize = 0;
    while i < n
        invariant
            n == p@.len(),
            m == s@.len(),
            n <= m,
            i <= n,
            forall|k: int| 0 <= k < i ==> s@[k] == p@[k],
        decreases n - i,
    {
        if s.get_char(i) != p.get_char(i) {
            assert(s@.subrange(0, n as int)[i as int] != p@[i as int]);
            return None;
        }
        i = i + 1;
    }
    assert(s@.subrange(0, n as int) =~= p@);
    Some(s.substring_char(n, m))
}

/// `s` without its trailing `t`, or `None` where it does not end with `t`.
fn strip_suffix<'a>(s: &'a str, t: &str) -> (r: Option<&'a str>)
    ensures
        r matches Some(x) ==> before_suffix(t@, s@) == Some(x@),
        r is None ==> before_suffix(t@, s@) is None,
{
    let n = t.unicode_len();
    let m = s.unicode_len();
    if n > m {
        return None;
    }
    let start = m - n;
    let mut i: usize = 0;
    while i < n
        invariant
            n == t@.len(),
            m == s@.len(),
            start == m - n,
            i <= n,
            forall|k: int| 0 <= k < i ==> s@[start + k] == t@[k],
        decreases n - i,
    {
        if s.get_char(start + i) != t.get_char(i) {
            assert(s@.subrange(start as int, m as int)[i as int] != t@[i as int]);
            return None;
        }
        i = i + 1;
    }
    assert(s@.subrange(start as int, m as int) =~= t@);
    Some(s.substring_char(0, start))
}

/// Whether every character of `s` may stand in a song id, and there is at least one.
fn is_song_id_text(s: &str) -> (r: bool)
    ensures
        r == is_song_id(s@),
{
    let n = s.unicode_len();
    if n == 0 {
        return false;
    }
    let mut i: usize = 0;
    while i < n
        invariant
            n == s@.len(),
            i <= n,
            forall|k: int| 0 <= k < i ==> is_id_char(#[trigger] s@[k]),
        decreases n - i,
    {
        let c = s.get_char(i);
        if !(('a' <= c && c <= 'z') || ('A' <= c && c <= 'Z') || ('0' <= c && c <= '9') || c == '/') {
            return false;
        }
        i = i + 1;
    }
    true
}

/// The song id in `text` where the whole text is a link to a song on ptweb
/// (`http://` or `https://`, then `www.ptweb.me/`, then `play/`, `get/` or `full/`, then
/// the id), or `None` otherwise.
pub fn song_id(text: &str) -> (r: Option<&str>)
    ensures
        r matches Some(id) ==> song_id_of(text@) == Some(id@),
        r is None ==> song_id_of(text@) is None,
{
    proof {
        reveal_strlit("https://www.ptweb.me/");
        reveal_strlit("http://www.ptweb.me/");
        reveal_strlit("play/");
        reveal_strlit("get/");
        reveal_strlit("full/");
    }
    let path = match strip_prefix(text, "https://www.ptweb.me/") {
        Some(rest) => rest,
        None => match strip_prefix(text, "http://www.ptweb.me/") {
            Some(rest) => rest,
            None => {
                return None;
            },
        },
    };
    let id = match strip_prefix(path, "play/") {
        Some(rest) => rest,
        None => match strip_prefix(path, "get/") {
            Some(rest) => rest,
            None => match strip_prefix(path, "full/") {
                Some(rest) => rest,
                None => {
                    return None;
                },
            },
        },
    };
    if is_song_id_text(id) {
        Some(id)
    } else {
        None
    }
}

/// The address a song is downloaded from.
pub fn download_url(id: &str) -> (r: String)
    ensures
        r@ == "https://www.ptweb.me/get/"@ + id@,
{
    proof {
        reveal_strlit("https://www.ptweb.me/get/");
    }
    String::from_str("https://www.ptweb.me/get/").concat(id)
}

/// The file name in a `content-disposition` header of the form
/// `attachment; filename="NAME"`, or `None` where the header has another form.
pub fn attachment_file_name(header: &str) -> (r: Option<&str>)
    ensures
        r matches Some(name) ==> attachment_name_of(header@) == Some(name@),
        r is None ==> attachment_name_of(header@) is None,
{
    proof {
        reveal_strlit("attachment; filename=\"");
        reveal_strlit("\"");
    }
    match strip_prefix(header, "attachment; filename=\"") {
        Some(rest) => strip_suffix(rest, "\""),
        None => None,
    }
}

/// The name a downloaded song is saved under: the one its `content-disposition` header
/// gives, or else the song id with the `.ptcop` extension.
pub fn download_file_name(header: Option<&str>, id: &str) -> (r: String)
    ensures
        (header matches Some(h) && attachment_name_of(h@) is Some) ==> Some(r@) == attachment_name_of(
            header.unwrap()@,
        ),
        !(header matches Some(h) && attachment_name_of(h@) is Some) ==> r@ == id@ + ".ptcop"@,
{
    proof {
        reveal_strlit(".ptcop");
    }
    match header {
        Some(h) => match attachment_file_name(h) {
            Some(name) => {
                return String::from_str(name);
            },
            None => {},
        },
        None => {},
    }
    String::from_str(id).concat(".ptcop")
}

/// The file name an `attachment; filename="NAME"` header gives, if it has that form.
pub open spec fn attachment_name_of(h: Seq<char>) -> Option<Seq<char>> {
    match after_prefix("attachment; filename=\""@, h) {
        Some(rest) => before_suffix("\""@, rest),
        None => None,
    }
}

} // verus!
