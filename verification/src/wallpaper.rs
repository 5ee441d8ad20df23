//! The animated wallpaper: window handles it is given, the wide strings the
//! window API takes, and the HTTP responses of the small server that streams
//! the video file to the wallpaper page.
use vstd::prelude::*;
use crate::text::{
    chars_of, decimal, eq_str, find, find_chars, has_substring, lemma_find, lowercase,
    occurs_at, parse_u64_chars, parse_u64_spec, push_decimal, push_str, string_from_chars,
    sub_chars, to_lowercase, trim_chars, trim_ws,
};

verus! {

/// The UTF-16 code units of one character.
pub open spec fn utf16_units(c: char) -> Seq<u16> {
    let v = (c as u32) as int;
    if v < 0x10000 {
        seq![v as u16]
    } else {
        let w = v - 0x10000;
        seq![(0xD800 + w / 0x400) as u16, (0xDC00 + w % 0x400) as u16]
    }
}

/// The UTF-16 encoding of a string.
pub open spec fn utf16_encode(s: Seq<char>) -> Seq<u16>
    decreases s.len(),
{
    if s.len() == 0 {
        Seq::empty()
    } else {
        utf16_encode(s.drop_last()) + utf16_units(s.last())
    }
}

/// `s` as a NUL-terminated UTF-16 string, the form the window API takes.
pub fn to_u16(s: &str) -> (r: Vec<u16>)
    ensures
        r@ == utf16_encode(s@).push(0u16),
{
    let cs = chars_of(s);
    let mut r: Vec<u16> = Vec::new();
    let mut i: usize = 0;
    while i < cs.len()
        invariant
            i <= cs@.len(),
            cs@ == s@,
            r@ == utf16_encode(cs@.take(i as int)),
        decreases cs@.len() - i,
    {
        let c = cs[i];
        let v = c as u32;
        proof {
            vstd::utf8::char_is_scalar(c);
        }
        assert(cs@.take(i + 1).drop_last() =~= cs@.take(i as int));
        let ghost before = r@;
        if v < 0x10000 {
            r.push(v as u16);
        } else {
            let w = v - 0x10000;
            r.push((0xD800 + w / 0x400) as u16);
            r.push((0xDC00 + w % 0x400) as u16);
        }
        assert(r@ =~= before + utf16_units(c));
        i = i + 1;
    }
    assert(cs@.take(i as int) =~= cs@);
    r.push(0);
    r
}

/// Checks a window handle: 0 is no window.
pub fn require_window(hwnd: isize) -> (r: Result<(), String>)
    ensures
        hwnd == 0 ==> (r matches Err(e) && e@ == "gecersiz HWND"@),
        hwnd != 0 ==> r is Ok,
{
    if hwnd == 0 {
        Err("gecersiz HWND".to_owned())
    } else {
        Ok(())
    }
}

/// How many times the desktop is asked for a WorkerW window before the
/// embedding gives up.
pub const WORKERW_ATTEMPTS: u32 = 5;

/// How many times the whole embedding is tried for a new wallpaper window.
pub const EMBED_TRIES: u32 = 3;

/// The first window of `found` that has a desktop view (`SHELLDLL_DefView`)
/// as a child.
pub open spec fn first_with_defview(found: Seq<(isize, bool)>) -> Option<isize>
    decreases found.len(),
{
    if found.len() == 0 {
        None
    } else if found[0].1 {
        Some(found[0].0)
    } else {
        first_with_defview(found.drop_first())
    }
}

/// Of the WorkerW windows found under Progman, in the order the system
/// lists them, each with whether it holds the desktop view: the first one
/// that does.
pub fn pick_workerw(found: &[(isize, bool)]) -> (r: Option<isize>)
    ensures
        r == first_with_defview(found@),
{
    let mut i: usize = 0;
    assert(found@.skip(0) =~= found@);
    while i < found.len()
        invariant
            i <= found@.len(),
            first_with_defview(found@) == first_with_defview(found@.skip(i as int)),
        decreases found@.len() - i,
    {
        assert(found@.skip(i as int).drop_first() =~= found@.skip(i + 1));
        if found[i].1 {
            return Some(found[i].0);
        }
        i = i + 1;
    }
    None
}

/// The next step of embedding the wallpaper behind the desktop icons.
pub enum EmbedAction {
    /// Ask Progman to spawn a WorkerW, wait, and search its WorkerW windows.
    SpawnAndSearch,
    /// Make this WorkerW the wallpaper's parent and send it to the bottom.
    Attach(isize),
    /// Give up with this message.
    Fail(String),
}

/// The step after `attempts_done` searches, the last of which found
/// `found` (`None` before the first search): a null wallpaper or Progman
/// handle fails at once, a found WorkerW is attached, and the search is
/// repeated until it has been made five times.
pub fn embed_next(wallpaper: isize, progman: isize, attempts_done: u32, found: Option<isize>) -> (r: EmbedAction)
    ensures
        wallpaper == 0 ==> (r matches EmbedAction::Fail(e) && e@ == "gecersiz HWND"@),
        wallpaper != 0 && progman == 0 ==> (r matches EmbedAction::Fail(e) && e@
            == "Progman bulunamadi"@),
        wallpaper != 0 && progman != 0 ==> match found {
            Some(w) => r == EmbedAction::Attach(w),
            None => if attempts_done < WORKERW_ATTEMPTS {
                r is SpawnAndSearch
            } else {
                r matches EmbedAction::Fail(e) && e@ == "WorkerW bulunamadi (5 deneme)"@
            },
        },
{
    if wallpaper == 0 {
        EmbedAction::Fail("gecersiz HWND".to_owned())
    } else if progman == 0 {
        EmbedAction::Fail("Progman bulunamadi".to_owned())
    } else {
        match found {
            Some(w) => EmbedAction::Attach(w),
            None => if attempts_done < WORKERW_ATTEMPTS {
                EmbedAction::SpawnAndSearch
            } else {
                EmbedAction::Fail("WorkerW bulunamadi (5 deneme)".to_owned())
            },
        }
    }
}

/// What to do after `tries_done` embedding tries of a new wallpaper
/// window, the last of which succeeded or not.
pub enum EmbedRetry {
    /// The wallpaper is embedded.
    Done,
    /// Wait and try again.
    Retry,
    /// Stop trying; the window stays on top.
    GiveUp,
}

/// Up to three tries, stopping at the first success.
pub fn embed_retry_next(tries_done: u32, succeeded: bool) -> (r: EmbedRetry)
    ensures
        succeeded ==> r is Done,
        !succeeded && tries_done < EMBED_TRIES ==> r is Retry,
        !succeeded && tries_done >= EMBED_TRIES ==> r is GiveUp,
{
    if succeeded {
        EmbedRetry::Done
    } else if tries_done < EMBED_TRIES {
        EmbedRetry::Retry
    } else {
        EmbedRetry::GiveUp
    }
}

/// The text after the last `c` in `s`, or all of `s` when there is none.
pub open spec fn after_last(s: Seq<char>, c: char) -> Seq<char>
    decreases s.len(),
{
    if s.len() == 0 {
        s
    } else if s.last() == c {
        Seq::empty()
    } else {
        after_last(s.drop_last(), c).push(s.last())
    }
}

/// The content type for a lower-case file extension.
pub open spec fn mime_for(ext: Seq<char>) -> Seq<char> {
    if ext == "webm"@ {
        "video/webm"@
    } else if ext == "avi"@ {
        "video/x-msvideo"@
    } else if ext == "mkv"@ {
        "video/x-matroska"@
    } else if ext == "mov"@ {
        "video/quicktime"@
    } else {
        "video/mp4"@
    }
}

/// The content type for the lower-case extension `ext`.
pub fn mime_for_extension(ext: &str) -> (r: &'static str)
    ensures
        r@ == mime_for(ext@),
{
    let l = ext;
    if eq_str(l, "webm") {
        "video/webm"
    } else if eq_str(l, "avi") {
        "video/x-msvideo"
    } else if eq_str(l, "mkv") {
        "video/x-matroska"
    } else if eq_str(l, "mov") {
        "video/quicktime"
    } else {
        "video/mp4"
    }
}

/// The content type of the video file at `path`, by its extension (the
/// text after the last dot, in any case); MP4 unless it is WebM, AVI,
/// Matroska or QuickTime.
pub fn video_mime_type(path: &str) -> (r: &'static str)
    ensures
        r@ == mime_for(lowercase(after_last(path@, '.'))),
{
    let cs = chars_of(path);
    let mut j: usize = cs.len();
    assert(cs@.take(j as int) =~= cs@);
    assert(after_last(path@, '.') =~= after_last(cs@.take(j as int), '.') + cs@.subrange(
        j as int,
        cs@.len() as int,
    ));
    while j > 0 && cs[j - 1] != '.'
        invariant
            j <= cs@.len(),
            cs@ == path@,
            after_last(path@, '.') == after_last(cs@.take(j as int), '.') + cs@.subrange(
                j as int,
                cs@.len() as int,
            ),
        decreases j,
    {
        assert(cs@.take(j as int).drop_last() =~= cs@.take(j - 1));
        assert(cs@.subrange(j - 1, cs@.len() as int) =~= seq![cs@[j - 1]] + cs@.subrange(
            j as int,
            cs@.len() as int,
        ));
        assert(after_last(cs@.take(j as int), '.') =~= after_last(cs@.take(j - 1), '.').push(
            cs@[j - 1],
        ));
        j = j - 1;
    }
    assert(after_last(cs@.take(j as int), '.') =~= Seq::<char>::empty());
    let ext = string_from_chars(&cs, j, cs.len());
    assert(ext@ =~= after_last(path@, '.'));
    let lower = to_lowercase(ext.as_str());
    mime_for_extension(lower.as_str())
}

/// The text of a range request's start offset: what follows the first
/// `Range: bytes=` up to the next such marker or the first `-`.
pub open spec fn range_field(req: Seq<char>) -> Seq<char> {
    let m = "Range: bytes="@;
    let rest = req.skip(find(req, m) + m.len());
    let q = find(rest, m);
    let piece = if q >= 0 {
        rest.take(q)
    } else {
        rest
    };
    let d = find(piece, seq!['-']);
    if d >= 0 {
        piece.take(d)
    } else {
        piece
    }
}

/// Whether the request asks for a byte range.
pub open spec fn is_range_request(req: Seq<char>) -> bool {
    has_substring(req, "Range: bytes="@)
}

/// The first byte that the request asks for: the range's start when it
/// parses as a number, 0 otherwise.
pub open spec fn range_start_spec(req: Seq<char>) -> nat {
    if is_range_request(req) {
        match parse_u64_spec(trim_ws(range_field(req))) {
            Some(v) => v as nat,
            None => 0,
        }
    } else {
        0
    }
}

pub open spec fn saturating_sub(a: nat, b: nat) -> nat {
    if a >= b {
        (a - b) as nat
    } else {
        0
    }
}

/// The response header for a request of the video file of `size` bytes and
/// type `mime`: "206 Partial Content" with a `Content-Range` for a range
/// request, "200 OK" otherwise; the length is what remains from the start.
pub open spec fn response_header_spec(req: Seq<char>, size: nat, mime: Seq<char>) -> Seq<char> {
    let start = range_start_spec(req);
    let status = if is_range_request(req) {
        "206 Partial Content"@
    } else {
        "200 OK"@
    };
    let range_hdr = if is_range_request(req) {
        "\r\nContent-Range: bytes "@ + decimal(start) + "-"@ + decimal(saturating_sub(size, 1))
            + "/"@ + decimal(size)
    } else {
        Seq::empty()
    };
    "HTTP/1.1 "@ + status + "\r\nContent-Type: "@ + mime + "\r\nContent-Length: "@ + decimal(
        saturating_sub(size, start),
    ) + "\r\nAccept-Ranges: bytes"@ + range_hdr + "\r\nConnection: close\r\n\r\n"@
}

/// The first byte that `request` asks for.
pub fn range_start(request: &str) -> (r: u64)
    ensures
        r == range_start_spec(request@),
{
    let cs = chars_of(request);
    let marker = chars_of("Range: bytes=");
    proof {
        lemma_find(request@, "Range: bytes="@);
    }
    let p = match find_chars(&cs, &marker, 0) {
        Some(p) => p,
        None => {
            return 0;
        },
    };
    let n = cs.len();
    assert(occurs_at(cs@, marker@, p as int));
    let rest = sub_chars(&cs, p + marker.len(), n);
    assert(rest@ =~= request@.skip(p + marker@.len()));
    proof {
        lemma_find(rest@, marker@);
    }
    let piece = match find_chars(&rest, &marker, 0) {
        Some(q) => sub_chars(&rest, 0, q),
        None => rest,
    };
    let dash = chars_of("-");
    proof {
        reveal_strlit("-");
        assert(dash@ =~= seq!['-']);
    }
    proof {
        lemma_find(piece@, dash@);
    }
    let field_end = match find_chars(&piece, &dash, 0) {
        Some(d) => d,
        None => piece.len(),
    };
    assert(piece@.subrange(0, field_end as int) =~= range_field(request@));
    let field = trim_chars(&piece, 0, field_end);
    let fv = chars_of(field.as_str());
    assert(fv@.subrange(0, fv@.len() as int) =~= fv@);
    match parse_u64_chars(&fv, 0, fv.len()) {
        Some(v) => v,
        None => 0,
    }
}

/// The response header for `request` of a video file of `file_size` bytes
/// and type `mime`.
pub fn response_header(request: &str, file_size: u64, mime: &str) -> (r: String)
    ensures
        r@ == response_header_spec(request@, file_size as nat, mime@),
{
    let is_range = crate::text::contains_str(request, "Range: bytes=");
    let start = range_start(request);
    let content_len = if file_size >= start {
        file_size - start
    } else {
        0
    };
    let last = if file_size >= 1 {
        file_size - 1
    } else {
        0
    };
    let mut r = String::new();
    push_str(&mut r, "HTTP/1.1 ");
    if is_range {
        push_str(&mut r, "206 Partial Content");
    } else {
        push_str(&mut r, "200 OK");
    }
    push_str(&mut r, "\r\nContent-Type: ");
    push_str(&mut r, mime);
    push_str(&mut r, "\r\nContent-Length: ");
    push_decimal(&mut r, content_len);
    push_str(&mut r, "\r\nAccept-Ranges: bytes");
    if is_range {
        push_str(&mut r, "\r\nContent-Range: bytes ");
        push_decimal(&mut r, start);
        push_str(&mut r, "-");
        push_decimal(&mut r, last);
        push_str(&mut r, "/");
        push_decimal(&mut r, file_size);
    }
    push_str(&mut r, "\r\nConnection: close\r\n\r\n");
    assert(r@ =~= response_header_spec(request@, file_size as nat, mime@));
    r
}

} // verus!
