//! Emojis and stickers.

use vstd::prelude::*;

use crate::model::Id;

verus! {

/// Whether a sticker is a standard or a guild sticker.
#[derive(Clone, Copy, Debug, PartialEq, Eq, Structural)]
pub enum StickerType {
    Standard,
    Guild,
}

impl StickerType {
    /// The value that stands for the variant on the wire.
    pub open spec fn spec_code(self) -> u8 {
        match self {
            StickerType::Standard => 1,
            StickerType::Guild => 2,
        }
    }

    /// The value that stands for the variant on the wire.
    pub fn code(self) -> (r: u8)
        ensures
            r == self.spec_code(),
    {
        match self {
            StickerType::Standard => 1,
            StickerType::Guild => 2,
        }
    }
}

/// The image format of a sticker.
#[derive(Clone, Copy, Debug, PartialEq, Eq, Structural)]
pub enum StickerFormat {
    Png,
    Apng,
    Lottie,
}

impl StickerFormat {
    /// The value that stands for the variant on the wire.
    pub open spec fn spec_code(self) -> u8 {
        match self {
            StickerFormat::Png => 1,
            StickerFormat::Apng => 2,
            StickerFormat::Lottie => 3,
        }
    }

    /// The value that stands for the variant on the wire.
    pub fn code(self) -> (r: u8)
        ensures
            r == self.spec_code(),
    {
        match self {
            StickerFormat::Png => 1,
            StickerFormat::Apng => 2,
            StickerFormat::Lottie => 3,
        }
    }
}

/// The smallest description of a sticker, as messages carry it.
#[derive(Clone, Debug)]
pub struct StickerItem {
    pub id: Id,
    pub name: String,
    pub format_type: StickerFormat,
}

/// A new guild emoji.
#[derive(Clone, Debug)]
pub struct CreateEmoji {
    pub name: String,
    pub image: String,
    pub roles: Vec<Id>,
}

/// A change to a guild emoji.
#[derive(Clone, Debug)]
pub struct EditEmoji {
    pub name: String,
    pub roles: Option<Vec<Id>>,
}

} // verus!
