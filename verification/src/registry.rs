//! The signature registry: which byte signatures belong to which content
//! category, and for each signature its file extension and offset correction.
//!
//! The registry is fixed when the library is built; nothing changes it at run
//! time.

use vstd::prelude::*;

verus! {

/// A byte sequence that marks the start of a container format.
#[derive(Clone, Copy, Debug, PartialEq, Eq, Structural)]
pub enum Signature {
    /// `OggS`, an Ogg stream.
    OggS,
    /// `ID3`, the tag that opens an MP3 file.
    Id3,
    /// `PNG`, found one byte into a PNG file.
    Png,
    /// `WEBP`, found eight bytes into a WebP file.
    Webp,
    /// `KTX`, found one byte into a KTX texture.
    Ktx,
    /// `<roblox!`, a binary model file.
    Roblox,
}

/// A content category of the cache.
#[derive(Clone, Copy, Debug, PartialEq, Eq, Structural)]
pub enum Category {
    /// Audio that the cache keeps in a directory of its own. Its files are
    /// listed as they are, without a look at their bytes.
    Music,
    /// Audio fetched over HTTP.
    Sounds,
    /// Images fetched over HTTP.
    Images,
    /// KTX textures fetched over HTTP.
    Ktx,
    /// Binary model files fetched over HTTP.
    Rbxm,
}

impl Signature {
    /// The bytes of the signature.
    pub open spec fn spec_bytes(self) -> Seq<u8> {
        match self {
            Signature::OggS => seq![0x4fu8, 0x67u8, 0x67u8, 0x53u8],
            Signature::Id3 => seq![0x49u8, 0x44u8, 0x33u8],
            Signature::Png => seq![0x50u8, 0x4eu8, 0x47u8],
            Signature::Webp => seq![0x57u8, 0x45u8, 0x42u8, 0x50u8],
            Signature::Ktx => seq![0x4bu8, 0x54u8, 0x58u8],
            Signature::Roblox => seq![
                0x3cu8,
                0x72u8,
                0x6fu8,
                0x62u8,
                0x6cu8,
                0x6fu8,
                0x78u8,
                0x21u8,
            ],
        }
    }

    /// How many bytes of the container come before the signature.
    pub open spec fn spec_offset(self) -> nat {
        match self {
            Signature::Png => 1,
            Signature::Ktx => 1,
            Signature::Webp => 8,
            _ => 0,
        }
    }

    /// The file extension of the container, with its leading dot.
    pub open spec fn spec_extension(self) -> Seq<char> {
        match self {
            Signature::OggS => ".ogg"@,
            Signature::Id3 => ".mp3"@,
            Signature::Png => ".png"@,
            Signature::Webp => ".webp"@,
            Signature::Ktx => ".ktx"@,
            Signature::Roblox => ".rbxm"@,
        }
    }

    /// The category that the signature belongs to.
    pub open spec fn spec_category(self) -> Category {
        match self {
            Signature::OggS => Category::Sounds,
            Signature::Id3 => Category::Sounds,
            Signature::Png => Category::Images,
            Signature::Webp => Category::Images,
            Signature::Ktx => Category::Ktx,
            Signature::Roblox => Category::Rbxm,
        }
    }

    /// The category that the signature belongs to.
    pub fn category(self) -> (r: Category)
        ensures
            r == self.spec_category(),
    {
        match self {
            Signature::OggS => Category::Sounds,
            Signature::Id3 => Category::Sounds,
            Signature::Png => Category::Images,
            Signature::Webp => Category::Images,
            Signature::Ktx => Category::Ktx,
            Signature::Roblox => Category::Rbxm,
        }
    }

    /// The bytes of the signature.
    pub fn bytes(self) -> (r: Vec<u8>)
        ensures
            r@ == self.spec_bytes(),
            r@.len() > 0,
    {
        let r: Vec<u8> = match self {
            Signature::OggS => vec![0x4fu8, 0x67u8, 0x67u8, 0x53u8],
            Signature::Id3 => vec![0x49u8, 0x44u8, 0x33u8],
            Signature::Png => vec![0x50u8, 0x4eu8, 0x47u8],
            Signature::Webp => vec![0x57u8, 0x45u8, 0x42u8, 0x50u8],
            Signature::Ktx => vec![0x4bu8, 0x54u8, 0x58u8],
            Signature::Roblox => vec![
                0x3cu8,
                0x72u8,
                0x6fu8,
                0x62u8,
                0x6cu8,
                0x6fu8,
                0x78u8,
                0x21u8,
            ],
        };
        assert(r@ =~= self.spec_bytes());
        r
    }

    /// The number of bytes to step back from the place where the signature
    /// was found, so that the bytes of the container in front of it are kept.
    pub fn offset(self) -> (r: usize)
        ensures
            r == self.spec_offset(),
    {
        match self {
            Signature::Png => 1,
            Signature::Ktx => 1,
            Signature::Webp => 8,
            _ => 0,
        }
    }

    /// The file extension of the container, with its leading dot.
    pub fn extension(self) -> (r: String)
        ensures
            r@ == self.spec_extension(),
    {
        match self {
            Signature::OggS => ".ogg".to_owned(),
            Signature::Id3 => ".mp3".to_owned(),
            Signature::Png => ".png".to_owned(),
            Signature::Webp => ".webp".to_owned(),
            Signature::Ktx => ".ktx".to_owned(),
            Signature::Roblox => ".rbxm".to_owned(),
        }
    }
}

/// The extension given to a file in which no signature was found: that of
/// the audio category.
pub open spec fn default_extension() -> Seq<char> {
    ".ogg"@
}

impl Category {
    /// The token that names the category in requests.
    pub open spec fn spec_token(self) -> Seq<char> {
        match self {
            Category::Music => "music"@,
            Category::Sounds => "sounds"@,
            Category::Images => "images"@,
            Category::Ktx => "ktx-files"@,
            Category::Rbxm => "rbxm-files"@,
        }
    }

    /// The signatures of the category, in the order in which they are tried.
    pub open spec fn spec_signatures(self) -> Seq<Signature> {
        match self {
            Category::Music => seq![],
            Category::Sounds => seq![Signature::OggS, Signature::Id3],
            Category::Images => seq![Signature::Png, Signature::Webp],
            Category::Ktx => seq![Signature::Ktx],
            Category::Rbxm => seq![Signature::Roblox],
        }
    }

    /// Whether the files of the category are told by their bytes. The
    /// category `Music` is not: it has a directory of its own.
    pub open spec fn spec_is_sniffed(self) -> bool {
        self != Category::Music
    }

    /// The category that a token names, if it names one.
    pub open spec fn spec_from_token(token: Seq<char>) -> Option<Category> {
        if token == "music"@ {
            Some(Category::Music)
        } else if token == "sounds"@ {
            Some(Category::Sounds)
        } else if token == "images"@ {
            Some(Category::Images)
        } else if token == "ktx-files"@ {
            Some(Category::Ktx)
        } else if token == "rbxm-files"@ {
            Some(Category::Rbxm)
        } else {
            None
        }
    }

    /// The token that names the category in requests.
    pub fn token(self) -> (r: String)
        ensures
            r@ == self.spec_token(),
    {
        match self {
            Category::Music => "music".to_owned(),
            Category::Sounds => "sounds".to_owned(),
            Category::Images => "images".to_owned(),
            Category::Ktx => "ktx-files".to_owned(),
            Category::Rbxm => "rbxm-files".to_owned(),
        }
    }

    /// The category that a token names. A token that names none gives `None`.
    pub fn from_token(token: &str) -> (r: Option<Category>)
        ensures
            r == Category::spec_from_token(token@),
    {
        let t: String = token.to_owned();
        if t == "music".to_owned() {
            Some(Category::Music)
        } else if t == "sounds".to_owned() {
            Some(Category::Sounds)
        } else if t == "images".to_owned() {
            Some(Category::Images)
        } else if t == "ktx-files".to_owned() {
            Some(Category::Ktx)
        } else if t == "rbxm-files".to_owned() {
            Some(Category::Rbxm)
        } else {
            None
        }
    }

    /// The signatures of the category, in the order in which they are tried.
    pub fn signatures(self) -> (r: Vec<Signature>)
        ensures
            r@ == self.spec_signatures(),
    {
        let r: Vec<Signature> = match self {
            Category::Music => Vec::new(),
            Category::Sounds => vec![Signature::OggS, Signature::Id3],
            Category::Images => vec![Signature::Png, Signature::Webp],
            Category::Ktx => vec![Signature::Ktx],
            Category::Rbxm => vec![Signature::Roblox],
        };
        assert(r@ =~= self.spec_signatures());
        r
    }

    /// Whether the files of the category are told by their bytes.
    pub fn is_sniffed(self) -> (r: bool)
        ensures
            r == self.spec_is_sniffed(),
    {
        match self {
            Category::Music => false,
            _ => true,
        }
    }
}

/// The entry of the registry for the category that a token names: the
/// signatures of the category in the order in which they are tried. A token
/// that names no category has no entry, and neither has `music`, whose
/// files are not told by signatures.
pub open spec fn registry_entry(mode: Seq<char>) -> Option<Seq<Signature>> {
    match Category::spec_from_token(mode) {
        Some(category) => if category.spec_is_sniffed() {
            Some(category.spec_signatures())
        } else {
            None
        },
        None => None,
    }
}

/// Looks a category up in the registry by its token.
///
/// The result is the ordered list of the category's signatures, and `None`
/// for a token that the registry does not hold.
pub fn signatures_for(mode: &str) -> (r: Option<Vec<Signature>>)
    ensures
        r is Some <==> registry_entry(mode@) is Some,
        r matches Some(list) ==> Some(list@) == registry_entry(mode@),
{
    match Category::from_token(mode) {
        Some(category) => {
            if category.is_sniffed() {
                Some(category.signatures())
            } else {
                None
            }
        },
        None => None,
    }
}

/// The tokens of the categories of the registry, in the registry's order.
pub open spec fn category_tokens() -> Seq<Seq<char>> {
    seq!["sounds"@, "images"@, "ktx-files"@, "rbxm-files"@]
}

/// The categories that the registry holds signatures for, in the
/// registry's order: sounds, images, textures, models.
pub open spec fn registered_categories() -> Seq<Category> {
    seq![Category::Sounds, Category::Images, Category::Ktx, Category::Rbxm]
}

/// Every signature of the registry: those of the first registered category
/// in their order, then those of the second, and so on.
pub open spec fn registered_signatures() -> Seq<Signature> {
    seq![
        Signature::OggS,
        Signature::Id3,
        Signature::Png,
        Signature::Webp,
        Signature::Ktx,
        Signature::Roblox,
    ]
}

/// Every signature of the registry, category by category in the registry's
/// order.
pub fn all_signatures() -> (r: Vec<Signature>)
    ensures
        r@ == registered_signatures(),
{
    let r: Vec<Signature> = vec![
        Signature::OggS,
        Signature::Id3,
        Signature::Png,
        Signature::Webp,
        Signature::Ktx,
        Signature::Roblox,
    ];
    assert(r@ =~= registered_signatures());
    r
}

/// The list of all signatures is made of the lists of the registered
/// categories, one after the other, and each signature stands in the list
/// of its own category.
pub proof fn lemma_registered_signatures()
    ensures
        registered_signatures() == Category::Sounds.spec_signatures()
            + Category::Images.spec_signatures() + Category::Ktx.spec_signatures()
            + Category::Rbxm.spec_signatures(),
        forall|i: int|
            0 <= i < registered_signatures().len() ==> (#[trigger] registered_signatures()[i]).spec_category().spec_signatures().contains(
            registered_signatures()[i]),
{
    assert(registered_signatures() =~= Category::Sounds.spec_signatures()
        + Category::Images.spec_signatures() + Category::Ktx.spec_signatures()
        + Category::Rbxm.spec_signatures());
    assert(Category::Sounds.spec_signatures()[0] == Signature::OggS);
    assert(Category::Sounds.spec_signatures()[1] == Signature::Id3);
    assert(Category::Images.spec_signatures()[0] == Signature::Png);
    assert(Category::Images.spec_signatures()[1] == Signature::Webp);
    assert(Category::Ktx.spec_signatures()[0] == Signature::Ktx);
    assert(Category::Rbxm.spec_signatures()[0] == Signature::Roblox);
}

/// The categories that the registry holds signatures for, in a fixed order.
pub fn registered() -> (r: Vec<Category>)
    ensures
        r@ == registered_categories(),
{
    let r: Vec<Category> = vec![Category::Sounds, Category::Images, Category::Ktx, Category::Rbxm];
    assert(r@ =~= registered_categories());
    r
}

/// The tokens of the categories that the registry holds signatures for, in
/// the registry's order.
pub fn get_categories() -> (r: Vec<String>)
    ensures
        r@.len() == category_tokens().len(),
        forall|i: int| 0 <= i < r@.len() ==> (#[trigger] r@[i])@ == category_tokens()[i],
        forall|i: int|
            0 <= i < r@.len() ==> (#[trigger] r@[i])@ == registered_categories()[i].spec_token(),
{
    let mut r: Vec<String> = Vec::new();
    r.push("sounds".to_owned());
    r.push("images".to_owned());
    r.push("ktx-files".to_owned());
    r.push("rbxm-files".to_owned());
    r
}

/// The token of a category, as requests and directory names spell it.
pub fn get_tab(category: Category) -> (r: String)
    ensures
        r@ == category.spec_token(),
        Category::spec_from_token(r@) == Some(category),
{
    proof {
        lemma_token_round_trip(category);
    }
    category.token()
}

/// Each category is the one that its own token names.
pub proof fn lemma_token_round_trip(category: Category)
    ensures
        Category::spec_from_token(category.spec_token()) == Some(category),
{
    reveal_strlit("music");
    reveal_strlit("sounds");
    reveal_strlit("images");
    reveal_strlit("ktx-files");
    reveal_strlit("rbxm-files");
    assert("music"@.len() == 5);
    assert("sounds"@.len() == 6);
    assert("images"@.len() == 6);
    assert("ktx-files"@.len() == 9);
    assert("rbxm-files"@.len() == 10);
    assert("sounds"@[0] == 's');
    assert("images"@[0] == 'i');
}

} // verus!
