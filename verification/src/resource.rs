//! What kind of resource a request asks for.

use vstd::prelude::*;

verus! {

/// Kind of resource being requested.
///
/// On the native side a kind is one byte; [`ResourceKind::as_u8`] gives that
/// byte and [`ResourceKind::from_u8`] reads it back.
#[derive(Debug, Clone, Copy, PartialEq, Eq, Structural)]
pub enum ResourceKind {
    /// Unknown / unspecified resource kind.
    Unknown,
    /// A style.json.
    Style,
    /// A TileJSON / source descriptor.
    Source,
    /// A single tile (vector or raster).
    Tile,
    /// A glyph PBF range.
    Glyphs,
    /// A sprite sheet PNG.
    SpriteImage,
    /// A sprite sheet JSON.
    SpriteJSON,
    /// A generic image resource.
    Image,
}

/// The byte that stands for `kind` on the native side.
pub open spec fn kind_code(kind: ResourceKind) -> u8 {
    match kind {
        ResourceKind::Unknown => 0,
        ResourceKind::Style => 1,
        ResourceKind::Source => 2,
        ResourceKind::Tile => 3,
        ResourceKind::Glyphs => 4,
        ResourceKind::SpriteImage => 5,
        ResourceKind::SpriteJSON => 6,
        ResourceKind::Image => 7,
    }
}

/// The kind that the byte `code` stands for. A byte that is the code of no kind
/// stands for `Unknown`.
pub open spec fn kind_of_code(code: u8) -> ResourceKind {
    if code == 1 {
        ResourceKind::Style
    } else if code == 2 {
        ResourceKind::Source
    } else if code == 3 {
        ResourceKind::Tile
    } else if code == 4 {
        ResourceKind::Glyphs
    } else if code == 5 {
        ResourceKind::SpriteImage
    } else if code == 6 {
        ResourceKind::SpriteJSON
    } else if code == 7 {
        ResourceKind::Image
    } else {
        ResourceKind::Unknown
    }
}

impl ResourceKind {
    /// Reads a kind from the byte that the native side sends. A byte that no
    /// kind has is read as `Unknown`.
    pub fn from_u8(v: u8) -> (kind: Self)
        ensures
            kind == kind_of_code(v),
            kind is Unknown <==> v == 0 || v > 7,
            kind is Style <==> v == 1,
            kind is Source <==> v == 2,
            kind is Tile <==> v == 3,
            kind is Glyphs <==> v == 4,
            kind is SpriteImage <==> v == 5,
            kind is SpriteJSON <==> v == 6,
            kind is Image <==> v == 7,
    {
        match v {
            1 => ResourceKind::Style,
            2 => ResourceKind::Source,
            3 => ResourceKind::Tile,
            4 => ResourceKind::Glyphs,
            5 => ResourceKind::SpriteImage,
            6 => ResourceKind::SpriteJSON,
            7 => ResourceKind::Image,
            _ => ResourceKind::Unknown,
        }
    }

    /// The byte that stands for this kind on the native side.
    pub fn as_u8(self) -> (code: u8)
        ensures
            code == kind_code(self),
            code <= 7,
            self is Unknown <==> code == 0,
            self is Style <==> code == 1,
            self is Source <==> code == 2,
            self is Tile <==> code == 3,
            self is Glyphs <==> code == 4,
            self is SpriteImage <==> code == 5,
            self is SpriteJSON <==> code == 6,
            self is Image <==> code == 7,
    {
        match self {
            ResourceKind::Unknown => 0,
            ResourceKind::Style => 1,
            ResourceKind::Source => 2,
            ResourceKind::Tile => 3,
            ResourceKind::Glyphs => 4,
            ResourceKind::SpriteImage => 5,
            ResourceKind::SpriteJSON => 6,
            ResourceKind::Image => 7,
        }
    }
}

/// Which byte is read as which kind, for every byte.
pub proof fn lemma_kinds_of_bytes(code: u8)
    ensures
        kind_of_code(code) is Unknown <==> code == 0 || code > 7,
        kind_of_code(code) is Style <==> code == 1,
        kind_of_code(code) is Source <==> code == 2,
        kind_of_code(code) is Tile <==> code == 3,
        kind_of_code(code) is Glyphs <==> code == 4,
        kind_of_code(code) is SpriteImage <==> code == 5,
        kind_of_code(code) is SpriteJSON <==> code == 6,
        kind_of_code(code) is Image <==> code == 7,
{
}

/// Which byte stands for which kind, for every kind.
pub proof fn lemma_bytes_of_kinds(kind: ResourceKind)
    ensures
        kind is Unknown <==> kind_code(kind) == 0,
        kind is Style <==> kind_code(kind) == 1,
        kind is Source <==> kind_code(kind) == 2,
        kind is Tile <==> kind_code(kind) == 3,
        kind is Glyphs <==> kind_code(kind) == 4,
        kind is SpriteImage <==> kind_code(kind) == 5,
        kind is SpriteJSON <==> kind_code(kind) == 6,
        kind is Image <==> kind_code(kind) == 7,
{
}

/// No two kinds share a byte.
pub proof fn lemma_kind_code_injective(a: ResourceKind, b: ResourceKind)
    requires
        kind_code(a) == kind_code(b),
    ensures
        a == b,
{
}

/// A kind survives the way to its byte and back.
pub proof fn lemma_kind_round_trip(kind: ResourceKind)
    ensures
        kind_of_code(kind_code(kind)) == kind,
{
}

/// A byte survives the way to its kind and back exactly where it is the byte of
/// some kind; every other byte is read as `Unknown`.
pub proof fn lemma_code_round_trip(code: u8)
    ensures
        kind_code(kind_of_code(code)) == code <==> code <= 7,
        code > 7 ==> kind_of_code(code) == ResourceKind::Unknown,
        kind_of_code(code) == ResourceKind::Unknown <==> (code == 0 || code > 7),
{
}

} // verus!
