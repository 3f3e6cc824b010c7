//! The link printed at start-up, and its QR code.

use vstd::prelude::*;
use vstd::string::*;
use crate::text::join2;

verus! {

/// The QR code of `data` (medium error correction, smallest size) drawn
/// with half-block characters in inverted colours, as `qrcode` renders it;
/// `None` when the data does not fit in a QR code.
pub uninterp spec fn qr_unicode_image(data: Seq<char>) -> Option<Seq<char>>;

/// Draws the QR code of `data` with `qrcode::QrCode::new` and the
/// `Dense1x2` renderer, dark modules drawn light and light ones dark.
#[verifier::external_body]
fn render_qr(data: &str) -> (image: Option<String>)
    ensures
        match image {
            Some(i) => qr_unicode_image(data@) == Some(i@),
            None => qr_unicode_image(data@) is None,
        },
{
    match qrcode::QrCode::new(data) {
        Ok(code) => Some(
            code.render::<qrcode::render::unicode::Dense1x2>()
                .dark_color(qrcode::render::unicode::Dense1x2::Light)
                .light_color(qrcode::render::unicode::Dense1x2::Dark)
                .build(),
        ),
        Err(_) => None,
    }
}

/// The link to the server: `http://`, the server's address (`ip:port`)
/// and the route.
pub open spec fn server_url_spec(server_addr: Seq<char>, route: Seq<char>) -> Seq<char> {
    "http://"@ + server_addr + route
}

/// The link is `http://`, the whole address and the whole route, for every
/// address and route: the route is exactly what follows the address.
pub proof fn lemma_server_url(server_addr: Seq<char>, route: Seq<char>)
    ensures
        server_url_spec(server_addr, route) == "http://"@ + server_addr + route,
        server_url_spec(server_addr, route).len() == 7 + server_addr.len() + route.len(),
        server_url_spec(server_addr, route).skip(7 + server_addr.len() as int) == route,
        banner_spec(server_url_spec(server_addr, route), Seq::<char>::empty())[2] == "http://"@
            + server_addr + route + "\n"@,
{
    reveal_strlit("http://");
    let u = "http://"@ + server_addr + route;
    assert(u.skip(7 + server_addr.len() as int) =~= route);
}

/// The link to the server.
pub fn server_url(server_addr: &str, route: &str) -> (url: String)
    ensures
        url@ == server_url_spec(server_addr@, route@),
        url@ == "http://"@ + server_addr@ + route@,
{
    let mut url = join2("http://", server_addr);
    url.append(route);
    url
}

/// The lines printed at start-up around the link `url` and its QR code.
pub open spec fn banner_spec(url: Seq<char>, image: Seq<char>) -> Seq<Seq<char>> {
    seq![
        "Swift File server is warming up..."@,
        "Scan the QR code to get started. Shut down the server by pressing \"Ctrl + c\""@,
        url + "\n"@,
        image,
    ]
}

/// The start-up lines, given the link and its drawn QR code.
pub fn banner_lines(url: String, image: String) -> (lines: Vec<String>)
    ensures
        lines@.map_values(|l: String| l@) == banner_spec(url@, image@),
        lines@.len() == 4,
        lines@[2]@ == url@ + "\n"@,
        lines@[3]@ == image@,
{
    let mut lines: Vec<String> = Vec::new();
    lines.push(String::from_str("Swift File server is warming up..."));
    lines.push(
        String::from_str(
            "Scan the QR code to get started. Shut down the server by pressing \"Ctrl + c\"",
        ),
    );
    let mut link = url;
    link.append("\n");
    lines.push(link);
    lines.push(image);
    assert(lines@.map_values(|l: String| l@) =~= banner_spec(url@, image@));
    lines
}

/// The start-up lines for a server at `server_addr` (`ip:port`) whose QR
/// code points to `route`; `None` when the link does not fit in a QR code.
pub fn generate_qr_code(server_addr: &str, route: &str) -> (lines: Option<Vec<String>>)
    ensures
        qr_unicode_image("http://"@ + server_addr@ + route@) is None ==> lines is None,
        lines matches Some(l) ==> l@.len() == 4 && l@[2]@ == "http://"@ + server_addr@ + route@ + "\n"@,
        qr_unicode_image(server_url_spec(server_addr@, route@)) is None ==> lines is None,
        qr_unicode_image(server_url_spec(server_addr@, route@)) matches Some(image) ==> (
        lines matches Some(l) && l@.map_values(|s: String| s@) == banner_spec(
            server_url_spec(server_addr@, route@),
            image,
        )),
{
    let url = server_url(server_addr, route);
    match render_qr(url.as_str()) {
        Some(image) => Some(banner_lines(url, image)),
        None => None,
    }
}

} // verus!
