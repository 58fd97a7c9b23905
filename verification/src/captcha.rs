//! Captcha challenges: a picture of a few random characters, the answer to
//! keep, and a token that names the challenge.
use vstd::prelude::*;
use crate::text::{is_hex_digit, lowercase, to_lowercase};

verus! {

/// A character that captcha-rs draws: a digit from 2 to 9, or a letter
/// other than those easily confused (`0`, `1`, `I`, `L`, `O`, `i`, `l`, `o`
/// are left out).
pub open spec fn captcha_char(c: char) -> bool {
    ||| ('2' <= c && c <= '9')
    ||| ('A' <= c && c <= 'Z' && c != 'I' && c != 'L' && c != 'O')
    ||| ('a' <= c && c <= 'z' && c != 'i' && c != 'l' && c != 'o')
}

/// The prefix of the picture: a JPEG as a data URL.
pub open spec fn jpeg_data_url_prefix() -> Seq<char> {
    "data:image/jpeg;base64,"@
}

/// A version 4 UUID in its hyphenated lowercase form.
pub open spec fn uuid_v4_text(s: Seq<char>) -> bool {
    &&& s.len() == 36
    &&& forall|i: int|
        0 <= i < 36 ==> if i == 8 || i == 13 || i == 18 || i == 23 {
            s[i] == '-'
        } else {
            is_hex_digit(#[trigger] s[i])
        }
    &&& s[14] == '4'
    &&& (s[19] == '8' || s[19] == '9' || s[19] == 'a' || s[19] == 'b')
}

/// A drawn captcha: the characters shown and the picture as a data URL.
pub struct CaptchaPicture {
    pub text: String,
    pub image: String,
}

/// Draws a captcha with captcha-rs (`CaptchaBuilder` ... `build`, then
/// `to_base64`). The characters are random: the claim is only what holds of
/// every draw, that there are `length` of them, each from the builder's
/// default set, and that the picture is a JPEG data URL.
#[verifier::external_body]
fn draw_captcha(length: usize, width: u32, height: u32, dark_mode: bool, complexity: u32) -> (c: CaptchaPicture)
    requires
        1 <= length <= 32,
    ensures
        c.text@.len() == length,
        forall|i: int| 0 <= i < c.text@.len() ==> captcha_char(#[trigger] c.text@[i]),
        jpeg_data_url_prefix().is_prefix_of(c.image@),
{
    let captcha = captcha_rs::CaptchaBuilder::new()
        .length(length)
        .width(width)
        .height(height)
        .dark_mode(dark_mode)
        .complexity(complexity)
        .build();
    CaptchaPicture { image: captcha.to_base64(), text: captcha.text }
}

/// A fresh random token (`uuid::Uuid::new_v4`, shown by `to_string`). The
/// claim is the shape uuid documents for every such value: hyphenated
/// lowercase hex with the version 4 and RFC 4122 variant digits.
#[verifier::external_body]
fn new_token() -> (t: String)
    ensures
        uuid_v4_text(t@),
{
    uuid::Uuid::new_v4().to_string()
}

/// A fresh random token: 36 characters of lowercase hex in the hyphenated
/// shape of a version 4 UUID.
pub fn fresh_token() -> (t: String)
    ensures
        uuid_v4_text(t@),
{
    new_token()
}

/// The challenge made of a drawn picture and a token: the token, the
/// answer to keep (the characters shown, lowercased) and the picture.
pub fn challenge_from(picture: CaptchaPicture, token: String) -> (r: (String, String, String))
    ensures
        r.0@ == token@,
        r.1@ == lowercase(picture.text@),
        r.2@ == picture.image@,
{
    let answer = to_lowercase(picture.text.as_str());
    (token, answer, picture.image)
}

/// Issues captcha challenges.
pub struct CaptchaService;

/// The number of characters a challenge shows.
pub const CAPTCHA_LENGTH: usize = 5;

impl CaptchaService {
    /// A new challenge: its token, the answer to keep (the characters shown,
    /// lowercased) and the picture. Five characters on a 160 by 50 dark
    /// picture of complexity 3.
    pub fn generate() -> (r: (String, String, String))
        ensures
            uuid_v4_text(r.0@),
            exists|shown: Seq<char>|
                #![trigger lowercase(shown)]
                shown.len() == CAPTCHA_LENGTH
                && (forall|i: int| 0 <= i < shown.len() ==> captcha_char(#[trigger] shown[i]))
                && r.1@ == lowercase(shown),
            jpeg_data_url_prefix().is_prefix_of(r.2@),
    {
        let picture = draw_captcha(CAPTCHA_LENGTH, 160, 50, true, 3);
        let token = new_token();
        challenge_from(picture, token)
    }
}

} // verus!
