use vstd::prelude::*;
use crate::types::SyncServerInfo;
use vstd::string::StringSliceAdditionalSpecFns;

verus! {

/// The number of characters of a token: a hyphenated UUID.
pub const TOKEN_LEN: usize = 36;

/// Whether a character is a lowercase hexadecimal digit.
pub open spec fn is_lower_hex(c: char) -> bool {
    ('0' <= c && c <= '9') || ('a' <= c && c <= 'f')
}

/// Whether a text is a version 4 UUID in hyphenated lowercase form:
/// 8-4-4-4-12 hexadecimal digits, the version digit `4`, and the variant
/// digit one of `8`, `9`, `a`, `b`.
pub open spec fn is_uuid_v4_text(s: Seq<char>) -> bool {
    &&& s.len() == 36
    &&& forall|i: int| 0 <= i < 36 ==> if i == 8 || i == 13 || i == 18 || i == 23 {
        #[trigger] s[i] == '-'
    } else {
        is_lower_hex(s[i])
    }
    &&& s[14] == '4'
    &&& (s[19] == '8' || s[19] == '9' || s[19] == 'a' || s[19] == 'b')
}

/// Relies on uuid::Uuid::new_v4, which sets the version to 4 and the variant
/// to RFC 4122 on random bytes, and on its `Display`, which writes the
/// hyphenated lowercase form (`Hyphenated::LENGTH`, 36 characters).
#[verifier::external_body]
fn random_uuid_text() -> (r: String)
    ensures
        is_uuid_v4_text(r@),
{
    uuid::Uuid::new_v4().to_string()
}

/// A fresh pairing token: a random version 4 UUID in hyphenated lowercase
/// form.
pub fn new_token() -> (r: String)
    ensures
        r@.len() == TOKEN_LEN,
        is_uuid_v4_text(r@),
{
    random_uuid_text()
}

/// The standard, padded base64 text of some bytes.
pub uninterp spec fn base64_of(bytes: Seq<u8>) -> Seq<char>;

/// The length of padded base64 text for `n` bytes.
pub open spec fn base64_len(n: nat) -> nat {
    4 * ((n + 2) / 3)
}

/// Relies on base64's `STANDARD` engine and `Engine::encode`: padded output,
/// four characters for each started group of three bytes. It panics when that
/// length overflows `usize`, which `requires` rules out.
#[verifier::external_body]
fn encode_base64(bytes: &[u8]) -> (r: String)
    requires
        base64_len(bytes@.len()) <= usize::MAX,
    ensures
        r@ == base64_of(bytes@),
        r@.len() == base64_len(bytes@.len()),
{
    base64::Engine::encode(&base64::engine::general_purpose::STANDARD, bytes)
}

#[verifier::external_type_specification]
#[verifier::external_body]
pub struct ExQrCode(qrcode::QrCode);

/// A QR code, with the bytes it encodes.
pub struct QrSymbol {
    code: qrcode::QrCode,
    data: Ghost<Seq<u8>>,
}

impl QrSymbol {
    /// The bytes the code encodes.
    pub closed spec fn data(self) -> Seq<u8> {
        self.data@
    }
}

/// The side, in pixels, below which no pairing code image is drawn.
pub const QR_MIN_SIDE: u32 = 256;

/// Whether some bytes fit in a QR code at the default error correction level.
pub uninterp spec fn qr_encodable(data: Seq<u8>) -> bool;

/// The PNG bytes of the grayscale image of the QR code of `data`, drawn at
/// least `min_side` pixels on each side, or the message of the encoder's
/// error.
pub uninterp spec fn qr_png_of(data: Seq<u8>, min_side: u32) -> Result<Seq<u8>, Seq<char>>;

/// Relies on qrcode::QrCode::new: it builds the QR code of the bytes, picking
/// the smallest version that holds them at the default error correction
/// level, or fails when none does. The error is kept as its message.
#[verifier::external_body]
fn qr_encode(data: &[u8]) -> (r: Result<QrSymbol, String>)
    ensures
        r is Ok <==> qr_encodable(data@),
        r matches Ok(q) ==> q.data() == data@,
{
    match qrcode::QrCode::new(data) {
        Ok(code) => Ok(QrSymbol { code, data: Ghost(data@) }),
        Err(e) => Err(e.to_string()),
    }
}

/// Relies on qrcode's `Renderer` for `image::Luma<u8>` (`render`,
/// `min_dimensions`, `build`), which draws the code as a grayscale image at
/// least `min_side` pixels on each side, and on image's
/// `ImageBuffer::write_to`, which encodes that image as PNG into memory. Both
/// depend on the code and the size alone. The encoder's error is kept as its
/// message.
#[verifier::external_body]
fn qr_png(q: &QrSymbol, min_side: u32) -> (r: Result<Vec<u8>, String>)
    ensures
        match r {
            Ok(png) => qr_png_of(q.data(), min_side) == Ok::<Seq<u8>, Seq<char>>(png@),
            Err(e) => qr_png_of(q.data(), min_side) == Err::<Seq<u8>, Seq<char>>(e@),
        },
{
    let img = q.code.render::<image::Luma<u8>>().min_dimensions(min_side, min_side).build();
    let mut buffer = Vec::new();
    img.write_to(&mut std::io::Cursor::new(&mut buffer), image::ImageFormat::Png)
        .map(|_| buffer)
        .map_err(|e| e.to_string())
}

/// The message of a text that no QR code holds.
pub open spec fn qr_create_error_text(detail: Seq<char>) -> Seq<char> {
    "Failed to create QR code: "@ + detail
}

/// The message of a QR code image that could not be encoded.
pub open spec fn qr_encode_error_text(detail: Seq<char>) -> Seq<char> {
    "Failed to encode QR code: "@ + detail
}

/// The pairing code image of `data`, as PNG bytes, at least
/// `QR_MIN_SIDE` pixels on each side. Fails exactly when the text's bytes
/// fit in no QR code, or when the image cannot be encoded.
pub fn generate_qr_code(data: &str) -> (r: Result<Vec<u8>, String>)
    ensures
        !qr_encodable(data.spec_bytes()) ==> (r matches Err(m)
            && exists|d: Seq<char>| m@ == qr_create_error_text(d)),
        qr_encodable(data.spec_bytes()) ==> match qr_png_of(data.spec_bytes(), QR_MIN_SIDE) {
            Ok(png) => r matches Ok(v) && v@ == png,
            Err(d) => r matches Err(m) && m@ == qr_encode_error_text(d),
        },
{
    let code = match qr_encode(data.as_bytes()) {
        Ok(c) => c,
        Err(detail) => {
            let m = String::from_str("Failed to create QR code: ").concat(detail.as_str());
            assert(m@ == qr_create_error_text(detail@));
            return Err(m);
        },
    };
    match qr_png(&code, QR_MIN_SIDE) {
        Ok(png) => Ok(png),
        Err(detail) => Err(String::from_str("Failed to encode QR code: ").concat(detail.as_str())),
    }
}

impl SyncServerInfo {
    /// What a started server reports: its address, port and token, and the
    /// pairing code image (`qr_png`, PNG bytes) as base64 text.
    pub fn new(ip: String, port: u16, token: String, qr_png: &Vec<u8>) -> (r: SyncServerInfo)
        requires
            base64_len(qr_png@.len()) <= usize::MAX,
        ensures
            r.ip == ip,
            r.port == port,
            r.token == token,
            r.qr_code_base64@ == base64_of(qr_png@),
    {
        let qr_code_base64 = encode_base64(qr_png.as_slice());
        SyncServerInfo { ip, port, token, qr_code_base64 }
    }
}

} // verus!
