use vstd::prelude::*;
use vstd::string::*;

verus! {

/// Whether `c` separates path segments.
pub open spec fn is_separator(c: char) -> bool {
    c == '/' || c == '\\'
}

/// Whether a `..` segment stands at position `i` of `uri`.
pub open spec fn parent_segment_at(uri: Seq<char>, i: int) -> bool {
    0 <= i && i + 1 < uri.len() && uri[i] == '.' && uri[i + 1] == '.' && (i == 0
        || is_separator(uri[i - 1])) && (i + 2 == uri.len() || is_separator(uri[i + 2]))
}

/// Whether `uri` holds a `..` segment, which would climb out of the root.
pub open spec fn has_parent_segment(uri: Seq<char>) -> bool {
    exists|i: int| parent_segment_at(uri, i)
}

/// The file that a request for `uri` names under `top`: the two joined, with
/// `index.html` appended when the result ends in `/`; nothing when `uri`
/// climbs out of the root through a `..` segment.
pub open spec fn resolved_path(top: Seq<char>, uri: Seq<char>) -> Option<Seq<char>> {
    if has_parent_segment(uri) {
        None
    } else {
        let full = top + uri;
        if full.len() > 0 && full.last() == '/' {
            Some(full + "index.html"@)
        } else {
            Some(full)
        }
    }
}

/// Checks `uri` for a `..` segment.
pub fn climbs_out(uri: &str) -> (r: bool)
    ensures
        r == has_parent_segment(uri@),
{
    let n = uri.unicode_len();
    let mut i: usize = 0;
    while i < n && i + 1 < n
        invariant
            n == uri@.len(),
            i <= n,
            forall|k: int| 0 <= k < i ==> !#[trigger] parent_segment_at(uri@, k),
        decreases n - i,
    {
        if uri.get_char(i) == '.' && uri.get_char(i + 1) == '.' {
            let before = i == 0 || uri.get_char(i - 1) == '/' || uri.get_char(i - 1) == '\\';
            let after = i + 2 == n || uri.get_char(i + 2) == '/' || uri.get_char(i + 2) == '\\';
            if before && after {
                assert(parent_segment_at(uri@, i as int));
                return true;
            }
        }
        i = i + 1;
    }
    assert forall|k: int| !parent_segment_at(uri@, k) by {
        if parent_segment_at(uri@, k) {
            assert(k < i);
        }
    }
    false
}

/// Joins `top` and `uri` into the path of the requested file, or gives
/// nothing when `uri` climbs out of the root.
pub fn resolve_path(top: &str, uri: &str) -> (r: Option<String>)
    ensures
        match resolved_path(top@, uri@) {
            Some(p) => r is Some && r->Some_0@ == p,
            None => r is None,
        },
{
    if climbs_out(uri) {
        return None;
    }
    let mut full = String::from_str(top);
    full.append(uri);
    let n = full.as_str().unicode_len();
    if n > 0 && full.as_str().get_char(n - 1) == '/' {
        full.append("index.html");
    }
    Some(full)
}

/// The extension of the file that `p` names: the text after the last `.` of
/// its last segment, or nothing when that segment has no `.`.
pub open spec fn extension_of(p: Seq<char>) -> Option<Seq<char>>
    decreases p.len(),
{
    if p.len() == 0 {
        None
    } else if p.last() == '.' {
        Some(Seq::empty())
    } else if p.last() == '/' {
        None
    } else {
        match extension_of(p.drop_last()) {
            Some(e) => Some(e.push(p.last())),
            None => None,
        }
    }
}

/// The media type of a file with extension `ext`.
pub open spec fn mime_type(ext: Seq<char>) -> Seq<char> {
    if ext == "html"@ {
        "text/html; charset=UTF-8"@
    } else if ext == "css"@ {
        "text/css"@
    } else if ext == "bmp"@ {
        "application/x-bmp"@
    } else if ext == "img"@ {
        "application/x-img"@
    } else if ext == "jpe"@ || ext == "jpeg"@ || ext == "jpg"@ {
        "image/jpeg"@
    } else if ext == "js"@ {
        "application/x-javascript"@
    } else if ext == "mp4"@ {
        "video/mpeg4"@
    } else if ext == "xml"@ || ext == "xquery"@ || ext == "xsl"@ {
        "text/xml"@
    } else {
        "application/octet-stream"@
    }
}

/// The media type of the file that `p` names, when it has an extension.
pub open spec fn content_type(p: Seq<char>) -> Option<Seq<char>> {
    match extension_of(p) {
        Some(e) => Some(mime_type(e)),
        None => None,
    }
}

proof fn lemma_extension_after(p: Seq<char>, k: int)
    requires
        0 <= k < p.len(),
        p[k] == '.' || p[k] == '/',
        forall|j: int| k < j < p.len() ==> p[j] != '.' && p[j] != '/',
    ensures
        extension_of(p) == (if p[k] == '.' {
            Some(p.subrange(k + 1, p.len() as int))
        } else {
            None::<Seq<char>>
        }),
    decreases p.len(),
{
    if k < p.len() - 1 {
        let q = p.drop_last();
        lemma_extension_after(q, k);
        if p[k] == '.' {
            assert(q.subrange(k + 1, q.len() as int).push(p.last()) =~= p.subrange(
                k + 1,
                p.len() as int,
            ));
        }
    }
}

proof fn lemma_extension_none(p: Seq<char>)
    requires
        forall|j: int| 0 <= j < p.len() ==> p[j] != '.' && p[j] != '/',
    ensures
        extension_of(p) is None,
    decreases p.len(),
{
    if p.len() > 0 {
        lemma_extension_none(p.drop_last());
    }
}

/// Whether two texts are equal.
pub fn same_text(a: &str, b: &str) -> (r: bool)
    ensures
        r == (a@ == b@),
{
    let n = a.unicode_len();
    if n != b.unicode_len() {
        return false;
    }
    let mut i: usize = 0;
    while i < n
        invariant
            n == a@.len(),
            n == b@.len(),
            0 <= i <= n,
            forall|j: int| 0 <= j < i ==> a@[j] == b@[j],
        decreases n - i,
    {
        if a.get_char(i) != b.get_char(i) {
            return false;
        }
        i = i + 1;
    }
    assert(a@ =~= b@);
    true
}

/// The media type for extension `ext`.
pub fn mime_type_of(ext: &str) -> (r: &'static str)
    ensures
        r@ == mime_type(ext@),
{
    if same_text(ext, "html") {
        "text/html; charset=UTF-8"
    } else if same_text(ext, "css") {
        "text/css"
    } else if same_text(ext, "bmp") {
        "application/x-bmp"
    } else if same_text(ext, "img") {
        "application/x-img"
    } else if same_text(ext, "jpe") || same_text(ext, "jpeg") || same_text(ext, "jpg") {
        "image/jpeg"
    } else if same_text(ext, "js") {
        "application/x-javascript"
    } else if same_text(ext, "mp4") {
        "video/mpeg4"
    } else if same_text(ext, "xml") || same_text(ext, "xquery") || same_text(ext, "xsl") {
        "text/xml"
    } else {
        "application/octet-stream"
    }
}

/// The media type of the file that `path` names, or nothing when its name
/// has no `.`.
pub fn content_type_of(path: &str) -> (r: Option<&'static str>)
    ensures
        match content_type(path@) {
            Some(t) => r is Some && r->Some_0@ == t,
            None => r is None,
        },
{
    let n = path.unicode_len();
    let mut i: usize = n;
    while i > 0
        invariant
            n == path@.len(),
            0 <= i <= n,
            forall|j: int| i <= j < n ==> path@[j] != '.' && path@[j] != '/',
        decreases i,
    {
        let c = path.get_char(i - 1);
        if c == '.' || c == '/' {
            proof {
                lemma_extension_after(path@, i - 1);
            }
            if c == '/' {
                return None;
            }
            let ext = path.substring_char(i, n);
            return Some(mime_type_of(ext));
        }
        i = i - 1;
    }
    proof {
        lemma_extension_none(path@);
    }
    None
}

} // verus!
