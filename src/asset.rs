//! Where a user's images live remotely, and which file extension they carry.
use vstd::prelude::*;
use vstd::string::*;
use crate::decimal::{decimal_of, push_decimal};

verus! {

/// Which of a user's two images an asset is.
#[derive(Clone, Copy, Debug, PartialEq, Eq, Structural)]
pub enum AssetKind {
    Avatar,
    Banner,
}

/// The two file formats an image can come in.
#[derive(Clone, Copy, Debug, PartialEq, Eq, Structural)]
pub enum Ext {
    Png,
    Gif,
}

/// The asset reference holds the two characters `a_` next to each other,
/// which marks an animated image.
pub open spec fn has_marker(s: Seq<char>) -> bool {
    exists|i: int| 0 <= i && i + 1 < s.len() && s[i] == 'a' && #[trigger] s[i + 1] == '_'
}

/// The extension an asset reference resolves to: animated ones are GIFs,
/// all others PNGs. It depends on the reference alone.
pub open spec fn ext_of(asset_ref: Seq<char>) -> Ext {
    if has_marker(asset_ref) { Ext::Gif } else { Ext::Png }
}

pub open spec fn ext_name(e: Ext) -> Seq<char> {
    match e {
        Ext::Png => "png"@,
        Ext::Gif => "gif"@,
    }
}

pub open spec fn kind_dir(k: AssetKind) -> Seq<char> {
    match k {
        AssetKind::Avatar => "avatars"@,
        AssetKind::Banner => "banners"@,
    }
}

pub open spec fn cdn_base() -> Seq<char> {
    "https://cdn.discordapp.com/"@
}

/// `{cdn}/{avatars|banners}/{owner}/{asset_ref}.{ext}`
pub open spec fn remote_url_of(owner_id: u64, asset_ref: Seq<char>, kind: AssetKind) -> Seq<char> {
    cdn_base() + kind_dir(kind) + "/"@ + decimal_of(owner_id as nat) + "/"@ + asset_ref + "."@
        + ext_name(ext_of(asset_ref))
}

/// Tells whether `s` holds the animated marker `a_`.
pub fn contains_marker(s: &str) -> (r: bool)
    ensures
        r == has_marker(s@),
{
    let len = s.unicode_len();
    let mut i: usize = 0;
    while i < len && len - i >= 2
        invariant
            len == s@.len(),
            i <= len,
            forall|j: int| 0 <= j < i && j + 1 < len ==> !(s@[j] == 'a' && #[trigger] s@[j + 1] == '_'),
        decreases len - i,
    {
        if s.get_char(i) == 'a' && s.get_char(i + 1) == '_' {
            return true;
        }
        i = i + 1;
    }
    false
}

/// The extension of the image an asset reference names.
pub fn extension_for(asset_ref: &str) -> (r: Ext)
    ensures
        r == ext_of(asset_ref@),
{
    if contains_marker(asset_ref) { Ext::Gif } else { Ext::Png }
}

/// The extension's name, without the dot.
pub fn ext_str(e: Ext) -> (r: &'static str)
    ensures
        r@ == ext_name(e),
{
    match e {
        Ext::Png => "png",
        Ext::Gif => "gif",
    }
}

fn kind_str(k: AssetKind) -> (r: &'static str)
    ensures
        r@ == kind_dir(k),
{
    match k {
        AssetKind::Avatar => "avatars",
        AssetKind::Banner => "banners",
    }
}

/// One image of one user to fetch.
#[derive(Debug)]
pub struct AssetRequest {
    pub owner_id: u64,
    pub asset_ref: String,
    pub kind: AssetKind,
}

impl AssetRequest {
    /// The extension this asset is fetched and stored with.
    pub fn extension(&self) -> (r: Ext)
        ensures
            r == ext_of(self.asset_ref@),
    {
        extension_for(self.asset_ref.as_str())
    }

    /// The URL the image is downloaded from.
    pub fn remote_url(&self) -> (r: String)
        ensures
            r@ == remote_url_of(self.owner_id, self.asset_ref@, self.kind),
    {
        let mut url = String::from_str("https://cdn.discordapp.com/");
        url.append(kind_str(self.kind));
        url.append("/");
        push_decimal(&mut url, self.owner_id);
        url.append("/");
        url.append(self.asset_ref.as_str());
        url.append(".");
        url.append(ext_str(self.extension()));
        url
    }
}

/// The asset to fetch for `asset_ref`, or `None` when the reference is empty,
/// meaning the user has no such image.
pub fn locate(owner_id: u64, asset_ref: &str, kind: AssetKind) -> (r: Option<AssetRequest>)
    ensures
        asset_ref@.len() == 0 <==> r.is_none(),
        r matches Some(q) ==> q.owner_id == owner_id && q.asset_ref@ == asset_ref@ && q.kind == kind,
{
    if asset_ref.unicode_len() == 0 {
        None
    } else {
        Some(AssetRequest { owner_id, asset_ref: String::from_str(asset_ref), kind })
    }
}

} // verus!
