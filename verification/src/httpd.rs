//! The media HTTP endpoint's logic: route selection, media-name hardening,
//! the content-type table, response building, and the catalog's JSON
//! listing.  The I/O shell around it accepts connections, reads files and
//! writes the responses out.

use crate::media::extension_of;
use crate::media::extension_of_name;
use crate::media::media_views;
use crate::media::MediaFile;
use crate::media::MediaFileView;
use crate::text::starts_with;
use crate::text::starts_with_spec;
use crate::text::str_eq;
use vstd::prelude::*;
use vstd::string::StringSliceAdditionalSpecFns;
use vstd::utf8::encode_utf8;

verus! {

/// The route a request path selects.
#[derive(Debug, Clone)]
pub enum Route {
    /// `/description.xml`: the server's self-description document.
    Description,
    /// `/media`: the catalog listing.
    MediaList,
    /// `/media/{name}`: one media file by name.
    MediaItem(String),
    /// Any other path.
    Unknown,
}

/// Selects the route for a request path.
pub fn route_for_path(path: &str) -> (r: Route)
    ensures
        (path@ == "/description.xml"@) == (r is Description),
        (path@ == "/media"@) == (r is MediaList),
        starts_with_spec(path@, "/media/"@) == (r is MediaItem),
        r matches Route::MediaItem(name) ==> name@ == path@.subrange(
            "/media/"@.len() as int,
            path@.len() as int,
        ),
{
    proof {
        reveal_strlit("/description.xml");
        reveal_strlit("/media");
        reveal_strlit("/media/");
    }
    if str_eq(path, "/description.xml") {
        proof {
            if starts_with_spec(path@, "/media/"@) {
                assert(path@.subrange(0, 7)[1] == path@[1]);
            }
        }
        Route::Description
    } else if str_eq(path, "/media") {
        Route::MediaList
    } else if starts_with(path, "/media/") {
        let n = path.unicode_len();
        proof {
            assert(path@.subrange(0, 7).len() == 7);
        }
        let name = path.substring_char(7, n);
        Route::MediaItem(String::from_str(name))
    } else {
        Route::Unknown
    }
}

/// A media name that may be resolved under the media root: non-empty, free
/// of path separators, and not a relative-directory name.
pub open spec fn safe_media_name(s: Seq<char>) -> bool {
    &&& s.len() > 0
    &&& forall|i: int| 0 <= i < s.len() ==> ((#[trigger] s[i]) != '/' && s[i] != '\\')
    &&& s != "."@
    &&& s != ".."@
}

/// Decides whether a media name may be resolved under the media root.
pub fn is_safe_media_name(name: &str) -> (r: bool)
    ensures
        r == safe_media_name(name@),
{
    let n = name.unicode_len();
    if n == 0 {
        return false;
    }
    let mut k: usize = 0;
    while k < n
        invariant
            k <= n,
            n == name@.len(),
            forall|i: int| 0 <= i < k ==> ((#[trigger] name@[i]) != '/' && name@[i] != '\\'),
        decreases n - k,
    {
        let c = name.get_char(k);
        if c == '/' || c == '\\' {
            return false;
        }
        k += 1;
    }
    if str_eq(name, ".") {
        return false;
    }
    if str_eq(name, "..") {
        return false;
    }
    true
}

/// The filesystem path a safe media name resolves to under the media root;
/// nothing for a name that could escape it.
pub fn media_fs_path(root: &str, name: &str) -> (r: Option<String>)
    ensures
        (r is Some) == safe_media_name(name@),
        r matches Some(p) ==> p@ == root@ + "/"@ + name@,
{
    if is_safe_media_name(name) {
        let mut s = String::from_str(root);
        s.append("/");
        s.append(name);
        Some(s)
    } else {
        None
    }
}

/// The content type served for a file extension, from the fixed table.
pub open spec fn mime_for_ext(ext: Option<Seq<char>>) -> Seq<char> {
    if ext == Some("mp4"@) {
        "video/mp4"@
    } else if ext == Some("mkv"@) {
        "video/x-matroska"@
    } else if ext == Some("avi"@) {
        "video/x-msvideo"@
    } else if ext == Some("mp3"@) {
        "audio/mpeg"@
    } else if ext == Some("srt"@) {
        "application/x-subrip"@
    } else {
        "application/octet-stream"@
    }
}

/// The image of an optional borrowed extension.
pub open spec fn opt_view(ext: Option<&str>) -> Option<Seq<char>> {
    match ext {
        Some(e) => Some(e@),
        None => None,
    }
}

/// Looks a file extension up in the fixed content-type table.
pub fn mime_type_for(ext: Option<&str>) -> (r: &'static str)
    ensures
        r@ == mime_for_ext(opt_view(ext)),
{
    match ext {
        None => "application/octet-stream",
        Some(e) => {
            if str_eq(e, "mp4") {
                "video/mp4"
            } else if str_eq(e, "mkv") {
                "video/x-matroska"
            } else if str_eq(e, "avi") {
                "video/x-msvideo"
            } else if str_eq(e, "mp3") {
                "audio/mpeg"
            } else if str_eq(e, "srt") {
                "application/x-subrip"
            } else {
                "application/octet-stream"
            }
        },
    }
}

/// An HTTP response of the media endpoint: the status code, the optional
/// content headers, and the body bytes.
pub struct HttpResponse {
    pub status: u16,
    pub content_type: Option<String>,
    pub content_disposition: Option<String>,
    pub body: Vec<u8>,
}

/// The mathematical image of an `HttpResponse`.
pub ghost struct HttpResponseView {
    pub status: int,
    pub content_type: Option<Seq<char>>,
    pub content_disposition: Option<Seq<char>>,
    pub body: Seq<u8>,
}

impl View for HttpResponse {
    type V = HttpResponseView;

    open spec fn view(&self) -> HttpResponseView {
        HttpResponseView {
            status: self.status as int,
            content_type: match self.content_type {
                Some(ref t) => Some(t@),
                None => None,
            },
            content_disposition: match self.content_disposition {
                Some(ref d) => Some(d@),
                None => None,
            },
            body: self.body@,
        }
    }
}

/// The self-description document the endpoint serves at `/description.xml`.
pub open spec fn description_document_spec() -> Seq<char> {
    "<?xml version=\"1.0\"?>\n<root xmlns=\"urn:schemas-upnp-org:device-1-0\">\n    <specVersion>\n        <major>1</major>\n        <minor>0</minor>\n    </specVersion>\n    <device>\n        <deviceType>urn:schemas-upnp-org:device:MediaServer:1</deviceType>\n        <friendlyName>Rust DLNA Server</friendlyName>\n        <manufacturer>Rust DLNA Server</manufacturer>\n        <modelName>DLNA Server v1</modelName>\n        <modelDescription>A Rust-based DLNA Media Server</modelDescription>\n        <UDN>uuid:12345678-1234-1234-1234-123456789abc</UDN>\n    </device>\n</root>"@
}

/// The self-description document's text.
pub fn description_document() -> (r: &'static str)
    ensures
        r@ == description_document_spec(),
{
    "<?xml version=\"1.0\"?>\n<root xmlns=\"urn:schemas-upnp-org:device-1-0\">\n    <specVersion>\n        <major>1</major>\n        <minor>0</minor>\n    </specVersion>\n    <device>\n        <deviceType>urn:schemas-upnp-org:device:MediaServer:1</deviceType>\n        <friendlyName>Rust DLNA Server</friendlyName>\n        <manufacturer>Rust DLNA Server</manufacturer>\n        <modelName>DLNA Server v1</modelName>\n        <modelDescription>A Rust-based DLNA Media Server</modelDescription>\n        <UDN>uuid:12345678-1234-1234-1234-123456789abc</UDN>\n    </device>\n</root>"
}

/// Serves the self-description document, always with success.
pub fn description_response() -> (r: HttpResponse)
    ensures
        r@.status == 200,
        r@.content_type is None,
        r@.content_disposition is None,
        r@.body == encode_utf8(description_document_spec()),
{
    let doc = description_document();
    HttpResponse { status: 200, content_type: None, content_disposition: None, body: doc.as_bytes_vec() }
}

/// The not-found response.
pub fn not_found_response() -> (r: HttpResponse)
    ensures
        r@.status == 404,
        r@.content_type is None,
        r@.content_disposition is None,
        r@.body == ("Not Found").spec_bytes(),
{
    HttpResponse {
        status: 404,
        content_type: None,
        content_disposition: None,
        body: ("Not Found").as_bytes_vec(),
    }
}

/// The internal-error response carrying a diagnostic message.
pub fn internal_error_response(message: &str) -> (r: HttpResponse)
    ensures
        r@.status == 500,
        r@.content_type is None,
        r@.content_disposition is None,
        r@.body == message.spec_bytes(),
{
    HttpResponse {
        status: 500,
        content_type: None,
        content_disposition: None,
        body: message.as_bytes_vec(),
    }
}

/// What reading the requested media file produced.
pub enum FileOutcome {
    /// No regular file of that name exists under the media root.
    Missing,
    /// The file exists but could not be read.
    Unreadable,
    /// The file's bytes.
    Content(Vec<u8>),
}

/// The disposition header naming the served file.
pub open spec fn disposition_spec(name: Seq<char>) -> Seq<char> {
    "inline; filename=\""@ + name + "\""@
}

/// Builds the response for `/media/{name}` from what the filesystem
/// returned: the file's bytes verbatim, under the content type of the
/// name's extension, or the matching error status.
pub fn media_file_response(name: &str, outcome: FileOutcome) -> (r: HttpResponse)
    ensures
        outcome is Missing ==> r@.status == 404 && r@.body == ("Not Found").spec_bytes()
            && r@.content_type is None && r@.content_disposition is None,
        outcome is Unreadable ==> r@.status == 500 && r@.body == (
        "Error reading the file").spec_bytes() && r@.content_type is None
            && r@.content_disposition is None,
        outcome matches FileOutcome::Content(bytes) ==> {
            &&& r@.status == 200
            &&& r@.body == bytes@
            &&& r@.content_type == Some(mime_for_ext(extension_of(name@)))
            &&& r@.content_disposition == Some(disposition_spec(name@))
        },
{
    match outcome {
        FileOutcome::Missing => not_found_response(),
        FileOutcome::Unreadable => internal_error_response("Error reading the file"),
        FileOutcome::Content(bytes) => {
            let ext = extension_of_name(name);
            let mime = match &ext {
                Some(e) => mime_type_for(Some(e.as_str())),
                None => mime_type_for(None),
            };
            let mut disp = String::from_str("inline; filename=\"");
            disp.append(name);
            disp.append("\"");
            HttpResponse {
                status: 200,
                content_type: Some(String::from_str(mime)),
                content_disposition: Some(disp),
                body: bytes,
            }
        },
    }
}

/// One lower-case hexadecimal digit.
pub open spec fn hex_digit(d: u8) -> u8 {
    if d < 10 {
        (48 + d) as u8
    } else {
        (87 + d) as u8
    }
}

/// The JSON escape of one byte of UTF-8 text: quote and backslash are
/// escaped, control bytes take their short escapes or the numeric form, and
/// every other byte stands unchanged.
pub open spec fn esc_byte(b: u8) -> Seq<u8> {
    if b == 34 {
        seq![92u8, 34u8]
    } else if b == 92 {
        seq![92u8, 92u8]
    } else if b == 10 {
        seq![92u8, 110u8]
    } else if b == 13 {
        seq![92u8, 114u8]
    } else if b == 9 {
        seq![92u8, 116u8]
    } else if b < 32 {
        seq![92u8, 117u8, 48u8, 48u8, hex_digit(b / 16), hex_digit(b % 16)]
    } else {
        seq![b]
    }
}

/// The JSON escape of UTF-8 text, byte for byte.
pub open spec fn json_escaped(s: Seq<u8>) -> Seq<u8>
    decreases s.len(),
{
    if s.len() == 0 {
        Seq::empty()
    } else {
        json_escaped(s.drop_last()) + esc_byte(s.last())
    }
}

fn push_escaped(out: &mut Vec<u8>, s: &str)
    ensures
        final (out)@ == old(out)@ + json_escaped(s.spec_bytes()),
{
    let bytes = s.as_bytes_vec();
    let mut j: usize = 0;
    while j < bytes.len()
        invariant
            j <= bytes.len(),
            bytes@ == s.spec_bytes(),
            out@ == old(out)@ + json_escaped(bytes@.take(j as int)),
        decreases bytes.len() - j,
    {
        let b = bytes[j];
        if b == 34 {
            out.push(92);
            out.push(34);
        } else if b == 92 {
            out.push(92);
            out.push(92);
        } else if b == 10 {
            out.push(92);
            out.push(110);
        } else if b == 13 {
            out.push(92);
            out.push(114);
        } else if b == 9 {
            out.push(92);
            out.push(116);
        } else if b < 32 {
            out.push(92);
            out.push(117);
            out.push(48);
            out.push(48);
            let hi = b / 16;
            let lo = b % 16;
            out.push(
                if hi < 10 {
                    48 + hi
                } else {
                    87 + hi
                },
            );
            out.push(
                if lo < 10 {
                    48 + lo
                } else {
                    87 + lo
                },
            );
        } else {
            out.push(b);
        }
        proof {
            assert(bytes@.take(j + 1).drop_last() =~= bytes@.take(j as int));
            assert(out@ =~= old(out)@ + json_escaped(bytes@.take(j + 1)));
        }
        j += 1;
    }
    proof {
        assert(bytes@.take(bytes@.len() as int) =~= bytes@);
    }
}

/// The JSON record for one catalog entry.
pub open spec fn json_record(f: MediaFileView) -> Seq<u8> {
    ("{\"name\":\"").spec_bytes() + json_escaped(encode_utf8(f.name)) + (
    "\",\"path\":\"").spec_bytes() + json_escaped(encode_utf8(f.path)) + ("\"}").spec_bytes()
}

/// The catalog entries serialized as JSON records, comma-separated and in
/// catalog order.
pub open spec fn json_items(fs: Seq<MediaFileView>) -> Seq<u8>
    decreases fs.len(),
{
    if fs.len() == 0 {
        Seq::empty()
    } else if fs.len() == 1 {
        json_record(fs[0])
    } else {
        json_items(fs.drop_last()) + (",").spec_bytes() + json_record(fs.last())
    }
}

/// The catalog listing serialized as a JSON array.
pub open spec fn json_media_list(fs: Seq<MediaFileView>) -> Seq<u8> {
    ("[").spec_bytes() + json_items(fs) + ("]").spec_bytes()
}

/// Serializes the catalog listing as JSON.
pub fn media_list_json(files: &Vec<MediaFile>) -> (r: Vec<u8>)
    ensures
        r@ == json_media_list(media_views(files@)),
{
    let mut out: Vec<u8> = ("[").as_bytes_vec();
    let mut i: usize = 0;
    while i < files.len()
        invariant
            i <= files.len(),
            out@ == ("[").spec_bytes() + json_items(media_views(files@).take(i as int)),
        decreases files.len() - i,
    {
        if i > 0 {
            let mut comma = (",").as_bytes_vec();
            out.append(&mut comma);
        }
        let f = &files[i];
        let mut head = ("{\"name\":\"").as_bytes_vec();
        out.append(&mut head);
        push_escaped(&mut out, f.name.as_str());
        let mut mid = ("\",\"path\":\"").as_bytes_vec();
        out.append(&mut mid);
        push_escaped(&mut out, f.path.as_str());
        let mut tail = ("\"}").as_bytes_vec();
        out.append(&mut tail);
        proof {
            let fvs = media_views(files@);
            assert(fvs.take(i + 1).drop_last() =~= fvs.take(i as int));
            assert(fvs.take(i + 1).last() == files@[i as int]@);
            assert(out@ =~= ("[").spec_bytes() + json_items(fvs.take(i + 1)));
        }
        i += 1;
    }
    let mut close = ("]").as_bytes_vec();
    out.append(&mut close);
    proof {
        assert(media_views(files@).take(files@.len() as int) =~= media_views(files@));
    }
    out
}

/// Serves the catalog listing, always with success.
pub fn media_list_response(files: &Vec<MediaFile>) -> (r: HttpResponse)
    ensures
        r@.status == 200,
        r@.content_type is None,
        r@.content_disposition is None,
        r@.body == json_media_list(media_views(files@)),
{
    HttpResponse {
        status: 200,
        content_type: None,
        content_disposition: None,
        body: media_list_json(files),
    }
}

} // verus!
