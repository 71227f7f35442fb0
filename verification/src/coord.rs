//! Tile coordinates, and the keys, paths and addresses derived from them.

use crate::decimal::{
    decimal, is_decimal_char, lemma_decimal_chars, lemma_decimal_injective, push_decimal,
};
use vstd::prelude::*;
use vstd::string::*;

verus! {

/// Identifies one tile: column `x` and row `y` at zoom level `z`.
///
/// A coordinate is an opaque name. No range is imposed on `x` and `y`.
#[derive(Clone, Copy, Debug, PartialEq, Eq, Hash, Structural)]
pub struct TileCoord {
    pub x: i32,
    pub y: i32,
    pub z: u8,
}

/// The coordinate that a key stands for (see [`TileCoord::key_spec`]).
pub open spec fn coord_of_key(k: u128) -> TileCoord {
    TileCoord {
        x: ((k as int / 0x1_0000_0000) % 0x1_0000_0000 - 0x8000_0000) as i32,
        y: (k as int % 0x1_0000_0000 - 0x8000_0000) as i32,
        z: (k as int / 0x1_0000_0000_0000_0000) as u8,
    }
}

/// The tile server: what stands in front of a tile's relative path in its
/// address.
pub const TILE_SERVER: &'static str = "https://tile.openstreetmap.org/";

impl TileCoord {
    /// The integer under which the in-memory collections file a coordinate:
    /// the zoom level, then `x` and `y` shifted to be non-negative, in 32
    /// bits each.
    pub open spec fn key_spec(self) -> u128 {
        (self.z as int * 0x1_0000_0000_0000_0000 + (self.x as int + 0x8000_0000) * 0x1_0000_0000
            + (self.y as int + 0x8000_0000)) as u128
    }

    /// The directory of the tile's file below the cache root: `{z}/{x}`.
    pub open spec fn relative_dir_spec(self) -> Seq<char> {
        decimal(self.z as int) + seq!['/'] + decimal(self.x as int)
    }

    /// The tile's file below the cache root: `{z}/{x}/{y}.png`.
    pub open spec fn relative_path_spec(self) -> Seq<char> {
        self.relative_dir_spec() + seq!['/'] + decimal(self.y as int) + ".png"@
    }

    /// The address from which the tile is fetched.
    pub open spec fn url_spec(self) -> Seq<char> {
        TILE_SERVER@ + self.relative_path_spec()
    }

    /// Computes the key of a coordinate.
    pub fn key(&self) -> (k: u128)
        ensures
            k == self.key_spec(),
    {
        let zoom: u128 = self.z as u128;
        let column: u128 = (self.x as i64 + 0x8000_0000) as u128;
        let row: u128 = (self.y as i64 + 0x8000_0000) as u128;
        zoom * 0x1_0000_0000_0000_0000 + column * 0x1_0000_0000 + row
    }

    /// Appends `{z}/{x}` to `out`.
    fn push_relative_dir(&self, out: &mut String)
        ensures
            final(out)@ == old(out)@ + self.relative_dir_spec(),
    {
        proof {
            reveal_strlit("/");
        }
        push_decimal(out, self.z as i64);
        out.append("/");
        push_decimal(out, self.x as i64);
        assert(out@ =~= old(out)@ + self.relative_dir_spec());
    }

    /// Appends `{z}/{x}/{y}.png` to `out`.
    fn push_relative_path(&self, out: &mut String)
        ensures
            final(out)@ == old(out)@ + self.relative_path_spec(),
    {
        proof {
            reveal_strlit("/");
        }
        self.push_relative_dir(out);
        out.append("/");
        push_decimal(out, self.y as i64);
        out.append(".png");
        assert(out@ =~= old(out)@ + self.relative_path_spec());
    }

    /// The directory that holds the tile's file, relative to the cache root,
    /// with `/` between its components.
    pub fn relative_dir(&self) -> (dir: String)
        ensures
            dir@ == self.relative_dir_spec(),
    {
        let mut dir = String::new();
        self.push_relative_dir(&mut dir);
        assert(dir@ =~= self.relative_dir_spec());
        dir
    }

    /// The tile's file, relative to the cache root, with `/` between its
    /// components.
    pub fn relative_path(&self) -> (path: String)
        ensures
            path@ == self.relative_path_spec(),
    {
        let mut path = String::new();
        self.push_relative_path(&mut path);
        assert(path@ =~= self.relative_path_spec());
        path
    }

    /// The address from which the tile is fetched.
    pub fn url(&self) -> (url: String)
        ensures
            url@ == self.url_spec(),
    {
        let mut url = String::from_str(TILE_SERVER);
        self.push_relative_path(&mut url);
        url
    }
}

/// A key determines its coordinate: reading a coordinate's key back gives
/// the coordinate.
pub proof fn lemma_key_roundtrip(c: TileCoord)
    ensures
        coord_of_key(c.key_spec()) == c,
{
    let k = c.key_spec() as int;
    let hi = c.z as int * 0x1_0000_0000 + (c.x as int + 0x8000_0000);
    let lo = c.y as int + 0x8000_0000;
    assert(k == hi * 0x1_0000_0000 + lo);
    assert(k / 0x1_0000_0000 == hi && k % 0x1_0000_0000 == lo);
    assert(hi % 0x1_0000_0000 == c.x as int + 0x8000_0000);
    assert(k / 0x1_0000_0000_0000_0000 == c.z as int);
}

/// Two coordinates with the same key are the same coordinate.
pub proof fn lemma_key_injective(a: TileCoord, b: TileCoord)
    requires
        a.key_spec() == b.key_spec(),
    ensures
        a == b,
{
    lemma_key_roundtrip(a);
    lemma_key_roundtrip(b);
}

/// Two texts that are each cut in two at their first `/` agree part by part
/// if they agree as a whole.
proof fn lemma_cut_at_slash(a: Seq<char>, rest_a: Seq<char>, b: Seq<char>, rest_b: Seq<char>)
    requires
        a + seq!['/'] + rest_a == b + seq!['/'] + rest_b,
        forall|i: int| 0 <= i < a.len() ==> a[i] != '/',
        forall|i: int| 0 <= i < b.len() ==> b[i] != '/',
    ensures
        a == b,
        rest_a == rest_b,
{
    let whole_a = a + seq!['/'] + rest_a;
    let whole_b = b + seq!['/'] + rest_b;
    if a.len() < b.len() {
        assert(whole_a[a.len() as int] == '/');
        assert(whole_b[a.len() as int] == b[a.len() as int]);
    }
    if b.len() < a.len() {
        assert(whole_b[b.len() as int] == '/');
        assert(whole_a[b.len() as int] == a[b.len() as int]);
    }
    assert(a =~= whole_a.subrange(0, a.len() as int));
    assert(b =~= whole_b.subrange(0, b.len() as int));
    assert(rest_a =~= whole_a.subrange(a.len() as int + 1, whole_a.len() as int));
    assert(rest_b =~= whole_b.subrange(b.len() as int + 1, whole_b.len() as int));
}

/// No two coordinates share a file: the relative path of a tile determines
/// its coordinate.
pub proof fn lemma_relative_path_injective(a: TileCoord, b: TileCoord)
    requires
        a.relative_path_spec() == b.relative_path_spec(),
    ensures
        a == b,
{
    let name_a = decimal(a.y as int) + ".png"@;
    let name_b = decimal(b.y as int) + ".png"@;
    let below_a = decimal(a.x as int) + seq!['/'] + name_a;
    let below_b = decimal(b.x as int) + seq!['/'] + name_b;
    lemma_decimal_chars(a.z as int);
    lemma_decimal_chars(b.z as int);
    lemma_decimal_chars(a.x as int);
    lemma_decimal_chars(b.x as int);
    assert(!is_decimal_char('/'));
    assert(a.relative_path_spec() =~= decimal(a.z as int) + seq!['/'] + below_a);
    assert(b.relative_path_spec() =~= decimal(b.z as int) + seq!['/'] + below_b);
    lemma_cut_at_slash(decimal(a.z as int), below_a, decimal(b.z as int), below_b);
    lemma_cut_at_slash(decimal(a.x as int), name_a, decimal(b.x as int), name_b);
    assert(decimal(a.y as int) =~= name_a.subrange(0, name_a.len() - ".png"@.len()));
    assert(decimal(b.y as int) =~= name_b.subrange(0, name_b.len() - ".png"@.len()));
    lemma_decimal_injective(a.z as int, b.z as int);
    lemma_decimal_injective(a.x as int, b.x as int);
    lemma_decimal_injective(a.y as int, b.y as int);
}

/// No two coordinates share an address.
pub proof fn lemma_url_injective(a: TileCoord, b: TileCoord)
    requires
        a.url_spec() == b.url_spec(),
    ensures
        a == b,
{
    let path_a = a.relative_path_spec();
    let path_b = b.relative_path_spec();
    assert(path_a =~= a.url_spec().subrange(TILE_SERVER@.len() as int, a.url_spec().len() as int));
    assert(path_b =~= b.url_spec().subrange(TILE_SERVER@.len() as int, b.url_spec().len() as int));
    lemma_relative_path_injective(a, b);
}

} // verus!
