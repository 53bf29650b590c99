//! Names and addresses: the save directory, the image address and the file
//! name of each picture.
use vstd::prelude::*;
use vstd::string::*;

verus! {

/// Characters that cannot stand in a file name and become an underscore.
pub open spec fn is_unsafe_char(c: char) -> bool {
    c == '/' || c == '\\' || c == ' '
}

pub open spec fn safe_char(c: char) -> char {
    if is_unsafe_char(c) {
        '_'
    } else {
        c
    }
}

/// The text with every unsafe character replaced by an underscore.
pub open spec fn sanitized(s: Seq<char>) -> Seq<char> {
    s.map_values(|c: char| safe_char(c))
}

/// `bing_<date>_<sanitized attribution>.jpg`
pub open spec fn file_name_of(date: Seq<char>, attribution: Seq<char>) -> Seq<char> {
    "bing_"@ + date + "_"@ + sanitized(attribution) + ".jpg"@
}

/// Appends a relative component to a path, adding a separator unless the
/// path is empty or already ends in one.
pub open spec fn joined(base: Seq<char>, name: Seq<char>) -> Seq<char> {
    if base.len() == 0 || base.last() == '/' {
        base + name
    } else {
        base + "/"@ + name
    }
}

/// `<home>/Pictures/wallpapers`
pub open spec fn wallpaper_dir_of(home: Seq<char>) -> Seq<char> {
    joined(joined(home, "Pictures"@), "wallpapers"@)
}

/// Scheme and host of the picture service.
pub open spec fn api_host() -> Seq<char> {
    "https://www.bing.com"@
}

/// The address of the listing of the most recent pictures.
pub open spec fn listing_url() -> Seq<char> {
    api_host() + "/HPImageArchive.aspx?format=js&idx=0&n=8&mkt=en-US"@
}

/// The absolute address of a picture given its address relative to the host.
pub open spec fn image_url_of(relative_url: Seq<char>) -> Seq<char> {
    api_host() + relative_url
}

/// Replaces each of `/`, `\` and space by `_`, and leaves every other
/// character as it is.
pub fn sanitize(s: &str) -> (r: String)
    ensures
        r@ == sanitized(s@),
{
    let n = s.unicode_len();
    let mut out = String::new();
    let mut start: usize = 0;
    let mut i: usize = 0;
    while i < n
        invariant
            n == s@.len(),
            start <= i <= n,
            out@.len() == start,
            forall|k: int| 0 <= k < start ==> out@[k] == safe_char(s@[k]),
            forall|k: int| start <= k < i ==> !is_unsafe_char(s@[k]),
        decreases n - i,
    {
        let c = s.get_char(i);
        if c == '/' || c == '\\' || c == ' ' {
            out.append(s.substring_char(start, i));
            out.append("_");
            proof {
                reveal_strlit("_");
            }
            start = i + 1;
        }
        i = i + 1;
    }
    out.append(s.substring_char(start, n));
    assert(out@ =~= sanitized(s@));
    out
}

/// The file name under which a picture of the given date and attribution is
/// saved.
pub fn file_name(date_stamp: &str, attribution: &str) -> (r: String)
    ensures
        r@ == file_name_of(date_stamp@, attribution@),
{
    let mut name = String::from_str("bing_");
    name.append(date_stamp);
    name.append("_");
    let clean = sanitize(attribution);
    name.append(clean.as_str());
    name.append(".jpg");
    name
}

/// Appends a relative component to a path, as a directory join does.
pub fn join(base: &str, name: &str) -> (r: String)
    ensures
        r@ == joined(base@, name@),
{
    let n = base.unicode_len();
    let mut out = String::from_str(base);
    if n == 0 || base.get_char(n - 1) == '/' {
        out.append(name);
    } else {
        out.append("/");
        out.append(name);
    }
    out
}

/// The directory pictures are saved in, below the given home directory.
pub fn wallpaper_dir(home: &str) -> (r: String)
    ensures
        r@ == wallpaper_dir_of(home@),
{
    let pictures = join(home, "Pictures");
    join(pictures.as_str(), "wallpapers")
}

/// The address of the listing of the most recent pictures.
pub fn listing_address() -> (r: String)
    ensures
        r@ == listing_url(),
{
    let mut url = String::from_str("https://www.bing.com");
    url.append("/HPImageArchive.aspx?format=js&idx=0&n=8&mkt=en-US");
    url
}

/// The absolute address of a picture.
pub fn image_url(relative_url: &str) -> (r: String)
    ensures
        r@ == image_url_of(relative_url@),
{
    let mut url = String::from_str("https://www.bing.com");
    url.append(relative_url);
    url
}

} // verus!
