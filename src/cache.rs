//! The local image cache: one file per `(owner, kind)` in a fixed directory,
//! with the extension of the variant that was stored.
use vstd::prelude::*;
use vstd::string::*;
use crate::asset::{AssetKind, Ext, ext_name, ext_str};
use crate::decimal::{decimal_of, push_decimal};

verus! {

pub open spec fn kind_stem(k: AssetKind) -> Seq<char> {
    match k {
        AssetKind::Avatar => "-avatar."@,
        AssetKind::Banner => "-banner."@,
    }
}

/// The cache file for one variant of one image: `/tmp/{owner}-{kind}.{ext}`.
pub open spec fn cache_path_of(owner_id: u64, kind: AssetKind, ext: Ext) -> Seq<char> {
    "/tmp/"@ + decimal_of(owner_id as nat) + kind_stem(kind) + ext_name(ext)
}

/// The cache directory as paths and the bytes stored under them.
pub type Disk = Map<Seq<char>, Seq<u8>>;

/// Storing `bytes` as the `ext` variant of `(owner_id, kind)`.
pub open spec fn written(disk: Disk, owner_id: u64, kind: AssetKind, ext: Ext, bytes: Seq<u8>) -> Disk {
    disk.insert(cache_path_of(owner_id, kind, ext), bytes)
}

/// The variant that a probe picks: PNG first, then GIF, else none.
pub open spec fn pick(png_present: bool, gif_present: bool) -> Option<Ext> {
    if png_present {
        Some(Ext::Png)
    } else if gif_present {
        Some(Ext::Gif)
    } else {
        None
    }
}

/// The variant of `(owner_id, kind)` that resolving finds on `disk`.
pub open spec fn resolved_on(disk: Disk, owner_id: u64, kind: AssetKind) -> Option<Ext> {
    pick(
        disk.contains_key(cache_path_of(owner_id, kind, Ext::Png)),
        disk.contains_key(cache_path_of(owner_id, kind, Ext::Gif)),
    )
}

fn stem_str(k: AssetKind) -> (r: &'static str)
    ensures
        r@ == kind_stem(k),
{
    match k {
        AssetKind::Avatar => "-avatar.",
        AssetKind::Banner => "-banner.",
    }
}

/// The path of the cache file for one variant of one image.
pub fn cache_path(owner_id: u64, kind: AssetKind, ext: Ext) -> (r: String)
    ensures
        r@ == cache_path_of(owner_id, kind, ext),
{
    let mut p = String::from_str("/tmp/");
    push_decimal(&mut p, owner_id);
    p.append(stem_str(kind));
    p.append(ext_str(ext));
    p
}

/// A cached image: where it is and which variant it is.
#[derive(Debug)]
pub struct CachedAsset {
    pub local_path: String,
    pub extension: Ext,
}

/// Resolves `(owner_id, kind)` from what probing the PNG and then the GIF path
/// found: the first present variant, with its path.
pub fn resolve(owner_id: u64, kind: AssetKind, png_present: bool, gif_present: bool) -> (r: Option<CachedAsset>)
    ensures
        r.is_some() == pick(png_present, gif_present).is_some(),
        r matches Some(c) ==> Some(c.extension) == pick(png_present, gif_present)
            && c.local_path@ == cache_path_of(owner_id, kind, c.extension),
{
    let e = if png_present {
        Ext::Png
    } else if gif_present {
        Ext::Gif
    } else {
        return None;
    };
    Some(CachedAsset { local_path: cache_path(owner_id, kind, e), extension: e })
}

/// The paths to probe for `(owner_id, kind)`, in the order that decides.
pub fn probe_paths(owner_id: u64, kind: AssetKind) -> (r: (String, String))
    ensures
        r.0@ == cache_path_of(owner_id, kind, Ext::Png),
        r.1@ == cache_path_of(owner_id, kind, Ext::Gif),
{
    (cache_path(owner_id, kind, Ext::Png), cache_path(owner_id, kind, Ext::Gif))
}

proof fn lemma_variant_paths_differ(owner_id: u64, kind: AssetKind)
    ensures
        cache_path_of(owner_id, kind, Ext::Png) != cache_path_of(owner_id, kind, Ext::Gif),
{
    reveal_strlit("png");
    reveal_strlit("gif");
    let base = "/tmp/"@ + decimal_of(owner_id as nat) + kind_stem(kind);
    let a = cache_path_of(owner_id, kind, Ext::Png);
    let b = cache_path_of(owner_id, kind, Ext::Gif);
    assert(a == base + "png"@);
    assert(b == base + "gif"@);
    assert(a[base.len() as int + 1] == 'n');
    assert(b[base.len() as int + 1] == 'i');
}

/// Writing a variant and then resolving the same `(owner, kind)` finds the
/// variant that was written, unless a PNG was already there and a GIF was
/// written (PNG is probed first, and the cache never deletes).
pub proof fn lemma_write_then_resolve(disk: Disk, owner_id: u64, kind: AssetKind, ext: Ext, bytes: Seq<u8>)
    requires
        ext == Ext::Png || !disk.contains_key(cache_path_of(owner_id, kind, Ext::Png)),
    ensures
        resolved_on(written(disk, owner_id, kind, ext, bytes), owner_id, kind) == Some(ext),
{
    lemma_variant_paths_differ(owner_id, kind);
}

/// Writing the same bytes for the same `(owner, kind, ext)` twice leaves the
/// cache as one write does: same contents, same resolved variant.
pub proof fn lemma_write_idempotent(disk: Disk, owner_id: u64, kind: AssetKind, ext: Ext, bytes: Seq<u8>)
    ensures
        written(written(disk, owner_id, kind, ext, bytes), owner_id, kind, ext, bytes)
            == written(disk, owner_id, kind, ext, bytes),
        resolved_on(written(written(disk, owner_id, kind, ext, bytes), owner_id, kind, ext, bytes), owner_id, kind)
            == resolved_on(written(disk, owner_id, kind, ext, bytes), owner_id, kind),
{
    let once = written(disk, owner_id, kind, ext, bytes);
    assert(written(once, owner_id, kind, ext, bytes) =~= once);
}

} // verus!
