use vstd::prelude::*;

verus! {

/// The image formats told apart by their leading bytes.
#[derive(Debug, Clone, Copy, PartialEq, Eq, Structural)]
pub enum Type {
    Png,
    Jpeg,
    Gif,
    Bmp,
    Webp,
    Unknown,
}

/// The format of an image with bytes `b`, judged from its first twelve bytes;
/// `Unknown` for fewer than twelve bytes or for no known signature.
pub open spec fn image_type_of(b: Seq<u8>) -> Type {
    if b.len() < 12 {
        Type::Unknown
    } else if b[0] == 0x89 && b[1] == 0x50 && b[2] == 0x4E && b[3] == 0x47 && b[4] == 0x0D && b[5]
        == 0x0A && b[6] == 0x1A && b[7] == 0x0A {
        Type::Png
    } else if b[0] == 0xFF && b[1] == 0xD8 && b[2] == 0xFF && (b[3] == 0xE0 || b[3] == 0xE1 || b[3]
        == 0xE2 || b[3] == 0xE3 || b[3] == 0xE8) {
        Type::Jpeg
    } else if b[0] == 0x52 && b[1] == 0x49 && b[2] == 0x46 && b[3] == 0x46 && b[8] == 0x57 && b[9]
        == 0x45 && b[10] == 0x42 && b[11] == 0x50 {
        Type::Webp
    } else if b[0] == 0x47 && b[1] == 0x49 && b[2] == 0x46 && b[3] == 0x38 {
        Type::Gif
    } else if b[0] == 0x42 && b[1] == 0x4D {
        Type::Bmp
    } else {
        Type::Unknown
    }
}

/// The file extension of each image format.
pub open spec fn image_ext(t: Type) -> Seq<char> {
    match t {
        Type::Png => "png"@,
        Type::Jpeg => "jpeg"@,
        Type::Gif => "gif"@,
        Type::Bmp => "bmp"@,
        Type::Webp => "webp"@,
        Type::Unknown => "image"@,
    }
}

/// The MIME type of each known image format.
pub open spec fn image_mime(t: Type) -> Option<Seq<char>> {
    match t {
        Type::Png => Some("image/png"@),
        Type::Jpeg => Some("image/jpeg"@),
        Type::Gif => Some("image/gif"@),
        Type::Bmp => Some("image/bmp"@),
        Type::Webp => Some("image/webp"@),
        Type::Unknown => None,
    }
}

/// The format of an image and its bytes.
#[derive(Debug, Clone)]
pub struct Image(Type, Vec<u8>);

impl View for Image {
    type V = (Type, Seq<u8>);

    closed spec fn view(&self) -> (Type, Seq<u8>) {
        (self.0, self.1@)
    }
}

fn sniff(b: &[u8]) -> (r: Type)
    ensures
        r == image_type_of(b@),
{
    if b.len() < 12 {
        Type::Unknown
    } else if b[0] == 0x89 && b[1] == 0x50 && b[2] == 0x4E && b[3] == 0x47 && b[4] == 0x0D && b[5]
        == 0x0A && b[6] == 0x1A && b[7] == 0x0A {
        Type::Png
    } else if b[0] == 0xFF && b[1] == 0xD8 && b[2] == 0xFF && (b[3] == 0xE0 || b[3] == 0xE1 || b[3]
        == 0xE2 || b[3] == 0xE3 || b[3] == 0xE8) {
        Type::Jpeg
    } else if b[0] == 0x52 && b[1] == 0x49 && b[2] == 0x46 && b[3] == 0x46 && b[8] == 0x57 && b[9]
        == 0x45 && b[10] == 0x42 && b[11] == 0x50 {
        Type::Webp
    } else if b[0] == 0x47 && b[1] == 0x49 && b[2] == 0x46 && b[3] == 0x38 {
        Type::Gif
    } else if b[0] == 0x42 && b[1] == 0x4D {
        Type::Bmp
    } else {
        Type::Unknown
    }
}

impl Image {
    /// The file extension of the image's format ("image" where it is unknown).
    pub fn ext(&self) -> (r: String)
        ensures
            r@ == image_ext(self@.0),
    {
        match self.0 {
            Type::Png => "png".to_string(),
            Type::Jpeg => "jpeg".to_string(),
            Type::Gif => "gif".to_string(),
            Type::Bmp => "bmp".to_string(),
            Type::Webp => "webp".to_string(),
            Type::Unknown => "image".to_string(),
        }
    }

    /// The MIME type of the image's format, where it is known.
    pub fn mime_type(&self) -> (r: Option<String>)
        ensures
            match r {
                Some(m) => image_mime(self@.0) == Some(m@),
                None => image_mime(self@.0) is None,
            },
    {
        match self.0 {
            Type::Png => Some("image/png".to_string()),
            Type::Jpeg => Some("image/jpeg".to_string()),
            Type::Gif => Some("image/gif".to_string()),
            Type::Bmp => Some("image/bmp".to_string()),
            Type::Webp => Some("image/webp".to_string()),
            Type::Unknown => None,
        }
    }

    /// The image's format.
    pub fn image_type(&self) -> (r: Type)
        ensures
            r == self@.0,
    {
        self.0
    }

    /// The image's bytes.
    pub fn data(&self) -> (r: &Vec<u8>)
        ensures
            r@ == self@.1,
    {
        &self.1
    }

    /// The image's bytes, taken out of it.
    pub fn into_data(self) -> (r: Vec<u8>)
        ensures
            r@ == self@.1,
    {
        self.1
    }
}

impl From<Vec<u8>> for Image {
    fn from(value: Vec<u8>) -> (r: Image)
        ensures
            r@ == (image_type_of(value@), value@),
    {
        let t = sniff(value.as_slice());
        Image(t, value)
    }
}

impl vstd::std_specs::convert::FromSpecImpl<Vec<u8>> for Image {
    open spec fn obeys_from_spec() -> bool {
        true
    }

    closed spec fn from_spec(v: Vec<u8>) -> Image {
        Image(image_type_of(v@), v)
    }
}

} // verus!
